//! The `helm-warp://connect` launch flow: the launch URL, the exchange of its code for a
//! frozen binding, and the refresh of the binding's token.
use crate::helm_tab_binding;
use crate::helm_tab_binding::{
    BindingIncomplete, BindingView, EndpointIdentity, HelmConnectionState, HelmEndpointBinding,
    HelmTabBinding, IdentityView, TabView,
};
use crate::http_status;
use crate::http_status::HttpStatus;
use crate::outside;
use crate::outside::{debug_quoted, json_object};
use crate::text;
use crate::text::{as_opt_str, str_eq, trim_end_char, trimmed_field};
use crate::urls;
use crate::urls::{UrlParts, UrlView};
use vstd::prelude::*;
use vstd::string::*;

verus! {

/// The URL scheme of the launch flow.
pub const SCHEME: &'static str = "helm-warp";

/// Whether a URL belongs to the launch flow.
pub fn is_helm_warp_url(url: &UrlParts) -> (r: bool)
    ensures
        r == (url@.scheme == SCHEME@),
{
    str_eq(url.scheme.as_str(), SCHEME)
}

/// The one-time code of a launch URL. It is a secret: it has no `Debug`, and an action
/// that carries it prints without it.
#[derive(Clone, PartialEq, Eq)]
pub struct HelmExchangeCode {
    code: String,
}

impl View for HelmExchangeCode {
    type V = Seq<char>;

    closed spec fn view(&self) -> Seq<char> {
        self.code@
    }
}

impl HelmExchangeCode {
    pub fn new(code: String) -> (r: Self)
        ensures
            r@ == code@,
    {
        HelmExchangeCode { code }
    }

    /// The code itself, to be sent to the portal and nowhere else.
    pub fn expose(&self) -> (r: &str)
        ensures
            r@ == self@,
    {
        self.code.as_str()
    }
}

/// What a launch URL asks the workspace to do.
#[derive(Clone, PartialEq, Eq)]
pub enum WorkspaceAction {
    ConnectHelmEndpoint { portal: String, exchange: HelmExchangeCode, endpoint_id: String },
}

/// The texts of a [`WorkspaceAction`].
pub enum ActionView {
    ConnectHelmEndpoint { portal: Seq<char>, exchange: Seq<char>, endpoint_id: Seq<char> },
}

impl View for WorkspaceAction {
    type V = ActionView;

    open spec fn view(&self) -> ActionView {
        match self {
            WorkspaceAction::ConnectHelmEndpoint { portal, exchange, endpoint_id } =>
                ActionView::ConnectHelmEndpoint {
                    portal: portal@,
                    exchange: exchange@,
                    endpoint_id: endpoint_id@,
                },
        }
    }
}

impl ActionView {
    /// The action for logs, with `[REDACTED]` in the place of the exchange code.
    pub open spec fn debug(self) -> Seq<char> {
        match self {
            ActionView::ConnectHelmEndpoint { portal, exchange, endpoint_id } =>
                "ConnectHelmEndpoint { portal: "@ + outside::debug_text(portal)
                    + ", exchange: [REDACTED], endpoint_id: "@ + outside::debug_text(endpoint_id)
                    + " }"@,
        }
    }
}

impl WorkspaceAction {
    /// Prints the action for logs, without the exchange code.
    pub fn debug_text(&self) -> (r: String)
        ensures
            r@ == self@.debug(),
    {
        match self {
            WorkspaceAction::ConnectHelmEndpoint { portal, exchange: _, endpoint_id } => {
                let mut out = "ConnectHelmEndpoint { portal: ".to_string();
                out.append(debug_quoted(portal.as_str()).as_str());
                out.append(", exchange: [REDACTED], endpoint_id: ");
                out.append(debug_quoted(endpoint_id.as_str()).as_str());
                out.append(" }");
                out
            },
        }
    }
}

/// Why a launch URL was refused.
#[derive(Debug, Clone, PartialEq, Eq)]
pub enum LaunchUrlError {
    MissingHost,
    UnsupportedHost { host: String },
    MissingParam { name: &'static str },
}

/// The texts of a [`LaunchUrlError`].
pub enum LaunchUrlErrorView {
    MissingHost,
    UnsupportedHost { host: Seq<char> },
    MissingParam { name: Seq<char> },
}

impl View for LaunchUrlError {
    type V = LaunchUrlErrorView;

    open spec fn view(&self) -> LaunchUrlErrorView {
        match self {
            LaunchUrlError::MissingHost => LaunchUrlErrorView::MissingHost,
            LaunchUrlError::UnsupportedHost { host } => LaunchUrlErrorView::UnsupportedHost {
                host: host@,
            },
            LaunchUrlError::MissingParam { name } => LaunchUrlErrorView::MissingParam {
                name: name@,
            },
        }
    }
}

impl LaunchUrlErrorView {
    /// The message for people.
    pub open spec fn message(self) -> Seq<char> {
        match self {
            LaunchUrlErrorView::MissingHost => "helm-warp URL missing host"@,
            LaunchUrlErrorView::UnsupportedHost { host } => "unsupported helm-warp host: "@ + host
                + " (expected 'connect')"@,
            LaunchUrlErrorView::MissingParam { name } => "missing '"@ + name + "' query param"@,
        }
    }
}

impl LaunchUrlError {
    /// The message for people.
    pub fn message(&self) -> (r: String)
        ensures
            r@ == self@.message(),
    {
        match self {
            LaunchUrlError::MissingHost => "helm-warp URL missing host".to_string(),
            LaunchUrlError::UnsupportedHost { host } => {
                let mut out = "unsupported helm-warp host: ".to_string();
                out.append(host.as_str());
                out.append(" (expected 'connect')");
                out
            },
            LaunchUrlError::MissingParam { name } => {
                let mut out = "missing '".to_string();
                out.append(name);
                out.append("' query param");
                out
            },
        }
    }
}

/// The value of `key` in a query; where a key stands more than once, the last one counts.
pub open spec fn query_value(query: Seq<(Seq<char>, Seq<char>)>, key: Seq<char>) -> Option<
    Seq<char>,
>
    decreases query.len(),
{
    if query.len() == 0 {
        None
    } else if query.last().0 == key {
        Some(query.last().1)
    } else {
        query_value(query.drop_last(), key)
    }
}

/// What a launch URL carries.
pub struct ParsedLaunchUrl {
    pub portal: String,
    pub endpoint_id: String,
    pub exchange: String,
}

/// The texts of a [`ParsedLaunchUrl`].
pub struct LaunchView {
    pub portal: Seq<char>,
    pub endpoint_id: Seq<char>,
    pub exchange: Seq<char>,
}

impl View for ParsedLaunchUrl {
    type V = LaunchView;

    open spec fn view(&self) -> LaunchView {
        LaunchView {
            portal: self.portal@,
            endpoint_id: self.endpoint_id@,
            exchange: self.exchange@,
        }
    }
}

/// What a URL launches: the host must be `connect`, and all three parameters must stand
/// in the query. The first thing that is wrong is the one reported.
pub open spec fn launch_of(url: UrlView) -> Result<LaunchView, LaunchUrlErrorView> {
    match url.host {
        None => Err(LaunchUrlErrorView::MissingHost),
        Some(host) => if host != "connect"@ {
            Err(LaunchUrlErrorView::UnsupportedHost { host })
        } else {
            match (
                query_value(url.query, "portal"@),
                query_value(url.query, "endpoint_id"@),
                query_value(url.query, "exchange"@),
            ) {
                (Some(portal), Some(endpoint_id), Some(exchange)) => Ok(
                    LaunchView { portal, endpoint_id, exchange },
                ),
                (None, _, _) => Err(LaunchUrlErrorView::MissingParam { name: "portal"@ }),
                (_, None, _) => Err(LaunchUrlErrorView::MissingParam { name: "endpoint_id"@ }),
                (_, _, None) => Err(LaunchUrlErrorView::MissingParam { name: "exchange"@ }),
            }
        },
    }
}

/// Finds the value of a query parameter; the last one counts.
fn find_param(url: &UrlParts, key: &str) -> (r: Option<String>)
    ensures
        text::opt_text(r) == query_value(url@.query, key@),
{
    let mut found: Option<String> = None;
    let n: usize = url.query.len();
    let ghost query = url@.query;
    for i in 0..n
        invariant
            n == url.query@.len(),
            query == urls::pairs(url.query@),
            text::opt_text(found) == query_value(query.take(i as int), key@),
    {
        let pair = &url.query[i];
        assert(query.take(i + 1).drop_last() =~= query.take(i as int));
        assert(query.take(i + 1).last() == (pair.0@, pair.1@));
        if str_eq(pair.0.as_str(), key) {
            found = Some(pair.1.clone());
        }
    }
    assert(query.take(n as int) =~= query);
    found
}

impl ParsedLaunchUrl {
    /// Reads a launch URL.
    pub fn parse(url: &UrlParts) -> (r: Result<Self, LaunchUrlError>)
        ensures
            match r {
                Ok(p) => launch_of(url@) == Ok::<_, LaunchUrlErrorView>(p@),
                Err(e) => launch_of(url@) == Err::<LaunchView, _>(e@),
            },
    {
        match as_opt_str(&url.host) {
            None => {
                return Err(LaunchUrlError::MissingHost);
            },
            Some(host) => {
                if !str_eq(host, "connect") {
                    return Err(LaunchUrlError::UnsupportedHost { host: host.to_string() });
                }
            },
        }
        let portal = match find_param(url, "portal") {
            Some(portal) => portal,
            None => {
                return Err(LaunchUrlError::MissingParam { name: "portal" });
            },
        };
        let endpoint_id = match find_param(url, "endpoint_id") {
            Some(endpoint_id) => endpoint_id,
            None => {
                return Err(LaunchUrlError::MissingParam { name: "endpoint_id" });
            },
        };
        let exchange = match find_param(url, "exchange") {
            Some(exchange) => exchange,
            None => {
                return Err(LaunchUrlError::MissingParam { name: "exchange" });
            },
        };
        Ok(ParsedLaunchUrl { portal, endpoint_id, exchange })
    }
}

/// Turns a launch URL into the action that it asks for.
pub fn parse_action(url: &UrlParts) -> (r: Result<WorkspaceAction, LaunchUrlError>)
    ensures
        match (r, launch_of(url@)) {
            (Ok(action), Ok(l)) => action@ == (ActionView::ConnectHelmEndpoint {
                portal: l.portal,
                exchange: l.exchange,
                endpoint_id: l.endpoint_id,
            }),
            (Err(e), Err(v)) => e@ == v,
            _ => false,
        },
{
    match ParsedLaunchUrl::parse(url) {
        Ok(parsed) => Ok(
            WorkspaceAction::ConnectHelmEndpoint {
                portal: parsed.portal,
                exchange: HelmExchangeCode::new(parsed.exchange),
                endpoint_id: parsed.endpoint_id,
            },
        ),
        Err(e) => Err(e),
    }
}

/// What the portal answers to an exchange.
#[derive(Debug, Clone)]
pub struct ExchangeResponse {
    pub helm_oz_url: String,
    pub agent_token: String,
    pub endpoint_id: String,
    pub endpoint_friendly_label: String,
    pub endpoint_hostname: String,
    pub endpoint_os: String,
    /// Refresh token; without one the tab binds, and its token is never rotated.
    pub refresh_token: Option<String>,
    /// Portal refresh endpoint URL.
    pub refresh_url: Option<String>,
}

/// What the portal answers to a refresh.
#[derive(Debug, Clone)]
pub struct RefreshResponse {
    pub agent_token: String,
    /// The endpoint that the token is for. A token for another endpoint than the bound
    /// one is never applied.
    pub endpoint_id: Option<String>,
}

/// What the refresh loop of one tab works with. It lives as long as the tab and is
/// never written to disk.
#[derive(Debug, Clone)]
pub struct HelmRefreshDescriptor {
    /// Portal refresh endpoint URL.
    pub refresh_url: String,
    /// Long-lived token that the portal mints agent tokens for.
    pub refresh_token: String,
    /// The bound endpoint.
    pub endpoint_identity: EndpointIdentity,
}

/// The texts of a [`HelmRefreshDescriptor`].
#[verifier::ext_equal]
pub struct DescriptorView {
    pub refresh_url: Seq<char>,
    pub refresh_token: Seq<char>,
    pub endpoint_identity: IdentityView,
}

impl View for HelmRefreshDescriptor {
    type V = DescriptorView;

    open spec fn view(&self) -> DescriptorView {
        DescriptorView {
            refresh_url: self.refresh_url@,
            refresh_token: self.refresh_token@,
            endpoint_identity: self.endpoint_identity@,
        }
    }
}

/// The texts of an optional descriptor.
pub open spec fn descriptor_view(d: Option<HelmRefreshDescriptor>) -> Option<DescriptorView> {
    match d {
        Some(d) => Some(d@),
        None => None,
    }
}

/// The descriptor that URL and token make, both trimmed; none when one of them is blank.
pub open spec fn descriptor_of(
    refresh_url: Option<Seq<char>>,
    refresh_token: Option<Seq<char>>,
    endpoint_identity: IdentityView,
) -> Option<DescriptorView> {
    match (text::trimmed_present(refresh_url), text::trimmed_present(refresh_token)) {
        (Some(refresh_url), Some(refresh_token)) => Some(
            DescriptorView { refresh_url, refresh_token, endpoint_identity },
        ),
        _ => None,
    }
}

impl HelmRefreshDescriptor {
    /// Makes a descriptor of raw fields; `None` when URL or token is blank, so that the
    /// loop never sees partial data.
    pub fn new(
        refresh_url: Option<&str>,
        refresh_token: Option<&str>,
        endpoint_identity: EndpointIdentity,
    ) -> (r: Option<Self>)
        ensures
            descriptor_view(r) == descriptor_of(
                text::opt_str(refresh_url),
                text::opt_str(refresh_token),
                endpoint_identity@,
            ),
    {
        match (trimmed_field(refresh_url), trimmed_field(refresh_token)) {
            (Some(url), Some(token)) => Some(
                HelmRefreshDescriptor {
                    refresh_url: url.to_string(),
                    refresh_token: token.to_string(),
                    endpoint_identity,
                },
            ),
            _ => None,
        }
    }
}

/// The result of an exchange: a frozen binding and, when the portal gave what it takes,
/// the descriptor for the refresh loop.
#[derive(Debug)]
pub struct HelmExchangeOutcome {
    pub binding: HelmEndpointBinding,
    pub refresh_descriptor: Option<HelmRefreshDescriptor>,
}

/// The texts of a [`HelmExchangeOutcome`].
#[verifier::ext_equal]
pub struct OutcomeView {
    pub binding: BindingView,
    pub refresh_descriptor: Option<DescriptorView>,
}

impl View for HelmExchangeOutcome {
    type V = OutcomeView;

    open spec fn view(&self) -> OutcomeView {
        OutcomeView {
            binding: self.binding@,
            refresh_descriptor: descriptor_view(self.refresh_descriptor),
        }
    }
}

/// Why an exchange failed.
#[derive(Debug)]
pub enum ExchangeError {
    /// The HTTP client could not be built.
    ClientBuild { cause: String },
    /// The request could not be sent.
    Send { cause: String },
    /// The body could not be read.
    Body { cause: String },
    /// The portal answered with another status than success.
    Status { status: HttpStatus },
    /// The body is not an exchange response.
    Parse { cause: String },
    /// The portal answered for another endpoint than the launch URL names.
    EndpointMismatch { requested: String, returned: String },
    /// Required fields of the response are blank.
    Incomplete { fields: BindingIncomplete },
}

/// The texts of an [`ExchangeError`].
pub enum ExchangeErrorView {
    ClientBuild { cause: Seq<char> },
    Send { cause: Seq<char> },
    Body { cause: Seq<char> },
    Status { status: u16 },
    Parse { cause: Seq<char> },
    EndpointMismatch { requested: Seq<char>, returned: Seq<char> },
    Incomplete { missing: Seq<Seq<char>> },
}

impl View for ExchangeError {
    type V = ExchangeErrorView;

    open spec fn view(&self) -> ExchangeErrorView {
        match self {
            ExchangeError::ClientBuild { cause } => ExchangeErrorView::ClientBuild {
                cause: cause@,
            },
            ExchangeError::Send { cause } => ExchangeErrorView::Send { cause: cause@ },
            ExchangeError::Body { cause } => ExchangeErrorView::Body { cause: cause@ },
            ExchangeError::Status { status } => ExchangeErrorView::Status { status: status@ },
            ExchangeError::Parse { cause } => ExchangeErrorView::Parse { cause: cause@ },
            ExchangeError::EndpointMismatch { requested, returned } =>
                ExchangeErrorView::EndpointMismatch {
                    requested: requested@,
                    returned: returned@,
                },
            ExchangeError::Incomplete { fields } => ExchangeErrorView::Incomplete {
                missing: text::strs(fields.missing@),
            },
        }
    }
}

impl ExchangeErrorView {
    /// The message for people.
    pub open spec fn message(self) -> Seq<char> {
        match self {
            ExchangeErrorView::ClientBuild { cause } => cause,
            ExchangeErrorView::Send { .. } => "exchange HTTP request failed"@,
            ExchangeErrorView::Body { .. } => "reading exchange response"@,
            ExchangeErrorView::Status { status } => "exchange returned "@ + outside::status_display(
                status,
            ),
            ExchangeErrorView::Parse { .. } => "parsing exchange response"@,
            ExchangeErrorView::EndpointMismatch { requested, returned } =>
                "exchange endpoint mismatch (requested="@ + requested + ", returned="@ + returned
                    + ")"@,
            ExchangeErrorView::Incomplete { .. } => "validating exchange response"@,
        }
    }
}

impl ExchangeError {
    /// The message for people.
    pub fn message(&self) -> (r: String)
        ensures
            r@ == self@.message(),
    {
        match self {
            ExchangeError::ClientBuild { cause } => cause.clone(),
            ExchangeError::Send { .. } => "exchange HTTP request failed".to_string(),
            ExchangeError::Body { .. } => "reading exchange response".to_string(),
            ExchangeError::Status { status } => {
                let mut out = "exchange returned ".to_string();
                out.append(status.display_text().as_str());
                out
            },
            ExchangeError::Parse { .. } => "parsing exchange response".to_string(),
            ExchangeError::EndpointMismatch { requested, returned } => {
                let mut out = "exchange endpoint mismatch (requested=".to_string();
                out.append(requested.as_str());
                out.append(", returned=");
                out.append(returned.as_str());
                out.append(")");
                out
            },
            ExchangeError::Incomplete { .. } => "validating exchange response".to_string(),
        }
    }
}

/// An exchange's result in texts.
pub open spec fn exchange_view(r: Result<HelmExchangeOutcome, ExchangeError>) -> Result<
    OutcomeView,
    ExchangeErrorView,
> {
    match r {
        Ok(outcome) => Ok(outcome@),
        Err(e) => Err(e@),
    }
}

/// Network timeout of the exchange call, in seconds.
pub const EXCHANGE_HTTP_TIMEOUT_SECS: u64 = 15;

/// The address that a portal takes exchanges at.
pub open spec fn exchange_address(portal: Seq<char>) -> Seq<char> {
    text::without_trailing(portal, '/') + "/api/v1/launch/exchange"@
}

/// The URL to post the exchange to.
pub fn exchange_url(portal: &str) -> (r: String)
    ensures
        r@ == exchange_address(portal@),
{
    let mut out = trim_end_char(portal, '/');
    out.append("/api/v1/launch/exchange");
    out
}

/// The JSON body of an exchange request, which carries the code.
pub fn exchange_request_body(exchange: &HelmExchangeCode) -> (r: String)
    ensures
        r@ == outside::json_of("exchange_code"@, exchange@),
        outside::json_string_member(r@, "exchange_code"@) == Some(exchange@),
{
    proof {
        reveal_strlit("exchange_code");
    }
    json_object("exchange_code", exchange.expose())
}

/// What the response to an exchange for the endpoint `expected` amounts to.
pub open spec fn exchange_verdict(response: ExchangeResponse, expected: Seq<char>) -> Result<
    OutcomeView,
    ExchangeErrorView,
> {
    let missing = helm_tab_binding::missing_fields(
        Some(response.endpoint_id@),
        Some(response.endpoint_friendly_label@),
        Some(response.endpoint_hostname@),
        Some(response.endpoint_os@),
        Some(response.helm_oz_url@),
        Some(response.agent_token@),
    );
    let binding = helm_tab_binding::frozen_binding(
        Some(response.endpoint_id@),
        Some(response.endpoint_friendly_label@),
        Some(response.endpoint_hostname@),
        Some(response.endpoint_os@),
        Some(response.helm_oz_url@),
        Some(response.agent_token@),
    );
    if text::trimmed(response.endpoint_id@) != text::trimmed(expected) {
        Err(
            ExchangeErrorView::EndpointMismatch {
                requested: expected,
                returned: response.endpoint_id@,
            },
        )
    } else if missing.len() > 0 {
        Err(ExchangeErrorView::Incomplete { missing })
    } else {
        Ok(
            OutcomeView {
                binding,
                refresh_descriptor: descriptor_of(
                    text::opt_text(response.refresh_url),
                    text::opt_text(response.refresh_token),
                    binding.identity,
                ),
            },
        )
    }
}

/// Checks an exchange response against the endpoint that was asked for and makes the
/// binding, and the refresh descriptor when both refresh fields are there.
pub fn validate_exchange_response(response: ExchangeResponse, expected_endpoint_id: &str) -> (r:
    Result<HelmExchangeOutcome, ExchangeError>)
    ensures
        exchange_view(r) == exchange_verdict(response, expected_endpoint_id@),
        r matches Ok(outcome) ==> {
            &&& outcome.binding.endpoint_id@ == text::trimmed(response.endpoint_id@)
            &&& outcome.binding.endpoint_friendly_label@ == text::trimmed(
                response.endpoint_friendly_label@,
            )
            &&& outcome.binding.endpoint_hostname@ == text::trimmed(response.endpoint_hostname@)
            &&& outcome.binding.endpoint_os@ == text::trimmed(response.endpoint_os@)
            &&& outcome.binding.helm_oz_url@ == text::trimmed(response.helm_oz_url@)
            &&& outcome.binding.agent_token@ == text::trimmed(response.agent_token@)
        },
{
    if !str_eq(response.endpoint_id.as_str().trim(), expected_endpoint_id.trim()) {
        return Err(
            ExchangeError::EndpointMismatch {
                requested: expected_endpoint_id.to_string(),
                returned: response.endpoint_id,
            },
        );
    }
    let binding = match helm_tab_binding::freeze_remote(
        Some(response.endpoint_id.as_str()),
        Some(response.endpoint_friendly_label.as_str()),
        Some(response.endpoint_hostname.as_str()),
        Some(response.endpoint_os.as_str()),
        Some(response.helm_oz_url.as_str()),
        Some(response.agent_token.as_str()),
    ) {
        Ok(binding) => binding,
        Err(fields) => {
            return Err(ExchangeError::Incomplete { fields });
        },
    };
    let refresh_descriptor = HelmRefreshDescriptor::new(
        as_opt_str(&response.refresh_url),
        as_opt_str(&response.refresh_token),
        binding.endpoint_identity_owned(),
    );
    Ok(HelmExchangeOutcome { binding, refresh_descriptor })
}

/// How the exchange call went.
pub enum ExchangeReply {
    /// No HTTP client; the cause.
    NoClient { cause: String },
    /// Nothing was sent or no answer came; the cause.
    NotSent { cause: String },
    /// An answer came, and its body could not be read; the cause.
    NotRead { cause: String },
    /// An answer came; `parsed` is its body, or why the body is not a response.
    Received { status: HttpStatus, parsed: Result<ExchangeResponse, String> },
}

/// What an exchange call for the endpoint `expected` amounts to.
pub open spec fn reply_verdict(reply: ExchangeReply, expected: Seq<char>) -> Result<
    OutcomeView,
    ExchangeErrorView,
> {
    match reply {
        ExchangeReply::NoClient { cause } => Err(ExchangeErrorView::ClientBuild { cause: cause@ }),
        ExchangeReply::NotSent { cause } => Err(ExchangeErrorView::Send { cause: cause@ }),
        ExchangeReply::NotRead { cause } => Err(ExchangeErrorView::Body { cause: cause@ }),
        ExchangeReply::Received { status, parsed } => if !http_status::is_success(status@) {
            Err(ExchangeErrorView::Status { status: status@ })
        } else {
            match parsed {
                Ok(response) => exchange_verdict(response, expected),
                Err(cause) => Err(ExchangeErrorView::Parse { cause: cause@ }),
            }
        },
    }
}

/// Decides what an exchange call gave.
pub fn finish_exchange(reply: ExchangeReply, expected_endpoint_id: &str) -> (r: Result<
    HelmExchangeOutcome,
    ExchangeError,
>)
    ensures
        exchange_view(r) == reply_verdict(reply, expected_endpoint_id@),
{
    match reply {
        ExchangeReply::NoClient { cause } => Err(ExchangeError::ClientBuild { cause }),
        ExchangeReply::NotSent { cause } => Err(ExchangeError::Send { cause }),
        ExchangeReply::NotRead { cause } => Err(ExchangeError::Body { cause }),
        ExchangeReply::Received { status, parsed } => {
            if !status.is_success() {
                return Err(ExchangeError::Status { status });
            }
            match parsed {
                Ok(response) => validate_exchange_response(response, expected_endpoint_id),
                Err(cause) => Err(ExchangeError::Parse { cause }),
            }
        },
    }
}

/// Time between two refreshes, in seconds: four fifths of the life of an agent token.
pub const REFRESH_INTERVAL_SECS: u64 = 240;

/// Network timeout of one refresh call, in seconds.
pub const REFRESH_HTTP_TIMEOUT_SECS: u64 = 15;

/// What to do with a refresh response.
#[derive(Debug, Clone, PartialEq, Eq)]
pub enum RefreshDecision {
    /// Same endpoint, nothing missing: apply the token.
    Rotate { fresh_agent_token: String },
    /// Fields are missing: refuse.
    MalformedResponse { missing: Vec<&'static str> },
    /// Another endpoint: refuse and stop.
    DifferentEndpoint { existing: String, attempted: Option<String> },
}

/// The texts of a [`RefreshDecision`].
pub enum DecisionView {
    Rotate { fresh_agent_token: Seq<char> },
    MalformedResponse { missing: Seq<Seq<char>> },
    DifferentEndpoint { existing: Seq<char>, attempted: Option<Seq<char>> },
}

impl View for RefreshDecision {
    type V = DecisionView;

    open spec fn view(&self) -> DecisionView {
        match self {
            RefreshDecision::Rotate { fresh_agent_token } => DecisionView::Rotate {
                fresh_agent_token: fresh_agent_token@,
            },
            RefreshDecision::MalformedResponse { missing } => DecisionView::MalformedResponse {
                missing: text::strs(missing@),
            },
            RefreshDecision::DifferentEndpoint { existing, attempted } =>
                DecisionView::DifferentEndpoint {
                    existing: existing@,
                    attempted: text::opt_text(*attempted),
                },
        }
    }
}

/// The decision on a response with this token and endpoint id, for a tab that is bound to
/// the endpoint `frozen`.
pub open spec fn refresh_decision(
    frozen: IdentityView,
    agent_token: Option<Seq<char>>,
    endpoint_id: Option<Seq<char>>,
) -> DecisionView {
    match (text::trimmed_present(agent_token), text::trimmed_present(endpoint_id)) {
        (Some(token), Some(id)) => if id == frozen.endpoint_id {
            DecisionView::Rotate { fresh_agent_token: token }
        } else {
            DecisionView::DifferentEndpoint { existing: frozen.endpoint_id, attempted: Some(id) }
        },
        _ => DecisionView::MalformedResponse {
            missing: helm_tab_binding::missing_name(agent_token, "agent_token"@)
                + helm_tab_binding::missing_name(endpoint_id, "endpoint_id"@),
        },
    }
}

/// Classifies a refresh response against the bound endpoint.
pub fn decide_refresh_action(
    frozen: &EndpointIdentity,
    response_agent_token: Option<&str>,
    response_endpoint_id: Option<&str>,
) -> (r: RefreshDecision)
    ensures
        r@ == refresh_decision(
            frozen@,
            text::opt_str(response_agent_token),
            text::opt_str(response_endpoint_id),
        ),
{
    let token = trimmed_field(response_agent_token);
    let endpoint_id = trimmed_field(response_endpoint_id);
    match (token, endpoint_id) {
        (Some(token), Some(id)) => {
            if !str_eq(id, frozen.endpoint_id.as_str()) {
                return RefreshDecision::DifferentEndpoint {
                    existing: frozen.endpoint_id.clone(),
                    attempted: Some(id.to_string()),
                };
            }
            RefreshDecision::Rotate { fresh_agent_token: token.to_string() }
        },
        _ => {
            let mut missing: Vec<&'static str> = Vec::new();
            if token.is_none() {
                missing.push("agent_token");
            }
            if endpoint_id.is_none() {
                missing.push("endpoint_id");
            }
            proof {
                assert(text::strs(missing@) =~= helm_tab_binding::missing_name(
                    text::opt_str(response_agent_token),
                    "agent_token"@,
                ) + helm_tab_binding::missing_name(
                    text::opt_str(response_endpoint_id),
                    "endpoint_id"@,
                ));
            }
            RefreshDecision::MalformedResponse { missing }
        },
    }
}

/// The slot after a refresh response, and whether the loop goes on.
pub open spec fn refreshed(tab: TabView, frozen: IdentityView, response: RefreshResponse) -> (
    TabView,
    bool,
) {
    match refresh_decision(
        frozen,
        Some(response.agent_token@),
        text::opt_text(response.endpoint_id),
    ) {
        DecisionView::Rotate { fresh_agent_token } => {
            let (after, outcome) = tab.refresh(frozen, fresh_agent_token);
            (after, outcome is Ok)
        },
        _ => (tab.contradicted(), false),
    }
}

/// Classifies a refresh response and applies it to the slot. Returns whether the loop
/// goes on: the token was rotated. A refused response marks the slot stale, unless its
/// endpoint disconnected, and leaves the binding alone.
pub fn apply_refresh_to_slot(
    slot: &mut HelmTabBinding,
    frozen: &EndpointIdentity,
    response: &RefreshResponse,
) -> (r: bool)
    ensures
        (final(slot)@, r) == refreshed(old(slot)@, frozen@, *response),
{
    match decide_refresh_action(
        frozen,
        Some(response.agent_token.as_str()),
        as_opt_str(&response.endpoint_id),
    ) {
        RefreshDecision::Rotate { fresh_agent_token } => slot.try_refresh_token(
            frozen,
            fresh_agent_token.as_str(),
        ).is_ok(),
        RefreshDecision::DifferentEndpoint { .. } => {
            mark_slot_stale(slot);
            false
        },
        RefreshDecision::MalformedResponse { .. } => {
            mark_slot_stale(slot);
            false
        },
    }
}

/// Marks the slot stale and leaves the binding alone, for when the loop stops. A tab whose
/// endpoint disconnected stays disconnected.
pub fn mark_slot_stale(slot: &mut HelmTabBinding)
    ensures
        final(slot)@ == old(slot)@.contradicted(),
{
    slot.mark_stale();
}

/// The JSON body of a refresh request, which carries the refresh token.
pub fn refresh_request_body(descriptor: &HelmRefreshDescriptor) -> (r: String)
    ensures
        r@ == outside::json_of("refresh_token"@, descriptor@.refresh_token),
        outside::json_string_member(r@, "refresh_token"@) == Some(descriptor@.refresh_token),
{
    proof {
        reveal_strlit("refresh_token");
    }
    json_object("refresh_token", descriptor.refresh_token.as_str())
}

/// Why one refresh step failed.
#[derive(Debug)]
pub enum RefreshStepError {
    /// The HTTP client could not be built.
    ClientBuild(String),
    /// The request did not get through; it is tried again in the next cycle.
    Http(String),
    /// The portal answered with another status than success.
    HttpStatus(HttpStatus),
    /// The body is not a refresh response.
    Parse(String),
}

/// How a refresh call went.
pub enum RefreshReply {
    /// No HTTP client; the cause.
    NoClient { cause: String },
    /// Nothing was sent or no answer came; the cause.
    NotSent { cause: String },
    /// An answer came; `parsed` is its body, or why the body is not a response.
    Received { status: HttpStatus, parsed: Result<RefreshResponse, String> },
}

/// What a refresh call amounts to.
pub open spec fn step_result(reply: RefreshReply) -> Result<RefreshResponse, RefreshStepError> {
    match reply {
        RefreshReply::NoClient { cause } => Err(RefreshStepError::ClientBuild(cause)),
        RefreshReply::NotSent { cause } => Err(RefreshStepError::Http(cause)),
        RefreshReply::Received { status, parsed } => if !http_status::is_success(status@) {
            Err(RefreshStepError::HttpStatus(status))
        } else {
            match parsed {
                Ok(response) => Ok(response),
                Err(cause) => Err(RefreshStepError::Parse(cause)),
            }
        },
    }
}

/// Decides what a refresh call gave.
pub fn finish_refresh_step(reply: RefreshReply) -> (r: Result<RefreshResponse, RefreshStepError>)
    ensures
        r == step_result(reply),
{
    match reply {
        RefreshReply::NoClient { cause } => Err(RefreshStepError::ClientBuild(cause)),
        RefreshReply::NotSent { cause } => Err(RefreshStepError::Http(cause)),
        RefreshReply::Received { status, parsed } => {
            if !status.is_success() {
                return Err(RefreshStepError::HttpStatus(status));
            }
            match parsed {
                Ok(response) => Ok(response),
                Err(cause) => Err(RefreshStepError::Parse(cause)),
            }
        },
    }
}

/// The slot after one refresh step, and whether the loop goes on.
pub open spec fn after_step(
    tab: TabView,
    frozen: IdentityView,
    result: Result<RefreshResponse, RefreshStepError>,
) -> (TabView, bool) {
    match result {
        Ok(response) => refreshed(tab, frozen, response),
        Err(RefreshStepError::Http(_)) => (tab, true),
        Err(_) => (tab.contradicted(), false),
    }
}

/// Takes the result of one refresh step and returns whether to schedule the next one. A
/// request that did not get through is tried again and says nothing about the endpoint;
/// every other failure marks the slot stale and stops the loop.
pub fn refresh_loop_step(
    slot: &mut HelmTabBinding,
    descriptor: &HelmRefreshDescriptor,
    result: Result<RefreshResponse, RefreshStepError>,
) -> (r: bool)
    ensures
        (final(slot)@, r) == after_step(old(slot)@, descriptor@.endpoint_identity, result),
{
    match result {
        Ok(response) => apply_refresh_to_slot(slot, &descriptor.endpoint_identity, &response),
        Err(error) => match error {
            RefreshStepError::Http(_) => true,
            RefreshStepError::HttpStatus(_) => {
                mark_slot_stale(slot);
                false
            },
            RefreshStepError::Parse(_) => {
                mark_slot_stale(slot);
                false
            },
            RefreshStepError::ClientBuild(_) => {
                mark_slot_stale(slot);
                false
            },
        },
    }
}

/// What is printed of an action does not depend on its exchange code.
pub proof fn law_debug_hides_exchange_code(
    portal: Seq<char>,
    endpoint_id: Seq<char>,
    one: Seq<char>,
    other: Seq<char>,
)
    ensures
        (ActionView::ConnectHelmEndpoint { portal, exchange: one, endpoint_id }).debug() == (
        ActionView::ConnectHelmEndpoint { portal, exchange: other, endpoint_id }).debug(),
{
}

/// A launch URL launches exactly when its host is `connect` and portal, endpoint id and
/// exchange code all stand in the query.
pub proof fn law_launch_needs_host_and_params(url: UrlView)
    ensures
        launch_of(url) is Ok <==> url.host == Some("connect"@) && query_value(
            url.query,
            "portal"@,
        ) is Some && query_value(url.query, "endpoint_id"@) is Some && query_value(
            url.query,
            "exchange"@,
        ) is Some,
{
}

/// A later pair for a key takes the place of the earlier ones and leaves the values of
/// all other keys alone.
pub proof fn law_last_query_value_counts(
    query: Seq<(Seq<char>, Seq<char>)>,
    key: Seq<char>,
    value: Seq<char>,
    other: Seq<char>,
)
    requires
        other != key,
    ensures
        query_value(query.push((key, value)), key) == Some(value),
        query_value(query.push((key, value)), other) == query_value(query, other),
{
    assert(query.push((key, value)).drop_last() =~= query);
}

/// An exchange that succeeds binds the endpoint that was asked for, with all six fields
/// present, and the refresh loop works for that endpoint and no other.
pub proof fn law_exchange_binds_the_requested_endpoint(
    reply: ExchangeReply,
    expected: Seq<char>,
)
    requires
        reply_verdict(reply, expected) is Ok,
    ensures
        ({
            let outcome = reply_verdict(reply, expected)->Ok_0;
            &&& outcome.binding.identity.endpoint_id == text::trimmed(expected)
            &&& outcome.binding.complete()
            &&& outcome.refresh_descriptor matches Some(d) ==> {
                &&& d.endpoint_identity == outcome.binding.identity
                &&& d.refresh_url.len() > 0
                &&& d.refresh_token.len() > 0
            }
        }),
{
    let response = reply->parsed->Ok_0;
    helm_tab_binding::law_frozen_binding_is_complete(
        Some(response.endpoint_id@),
        Some(response.endpoint_friendly_label@),
        Some(response.endpoint_hostname@),
        Some(response.endpoint_os@),
        Some(response.helm_oz_url@),
        Some(response.agent_token@),
    );
}

/// A response for another endpoint than the one asked for never binds, whatever else it
/// holds.
pub proof fn law_exchange_for_another_endpoint_is_refused(
    response: ExchangeResponse,
    expected: Seq<char>,
)
    requires
        text::trimmed(response.endpoint_id@) != text::trimmed(expected),
    ensures
        exchange_verdict(response, expected) == Err::<OutcomeView, _>(
            ExchangeErrorView::EndpointMismatch {
                requested: expected,
                returned: response.endpoint_id@,
            },
        ),
{
}

/// The refresh loop goes on after a response exactly when the response rotated the token:
/// the slot then holds the new token for the same endpoint and is connected, unless the
/// endpoint disconnected.
pub proof fn law_refresh_goes_on_iff_rotated(
    tab: TabView,
    frozen: IdentityView,
    response: RefreshResponse,
)
    ensures
        refreshed(tab, frozen, response).1 <==> {
            &&& tab.binding is Some
            &&& tab.binding->0.identity == frozen
            &&& !text::is_blank(response.agent_token@)
            &&& text::trimmed_present(text::opt_text(response.endpoint_id)) == Some(
                frozen.endpoint_id,
            )
        },
        refreshed(tab, frozen, response).1 ==> refreshed(tab, frozen, response).0 == (TabView {
            binding: Some(tab.binding->0.with_token(text::trimmed(response.agent_token@))),
            connection_state: tab.connection_state.confirmed(),
        }),
{
    text::lemma_trimmed_idempotent(response.agent_token@);
}

/// For a tab that is bound to the loop's endpoint, a step that stops the loop leaves the
/// binding untouched and the slot stale, or disconnected if it was.
pub proof fn law_stopped_loop_leaves_stale_binding(
    tab: TabView,
    frozen: IdentityView,
    result: Result<RefreshResponse, RefreshStepError>,
)
    requires
        tab.binding is Some,
        tab.binding->0.identity == frozen,
        !after_step(tab, frozen, result).1,
    ensures
        after_step(tab, frozen, result).0 == tab.contradicted(),
        after_step(tab, frozen, result).0.connection_state != HelmConnectionState::Connected,
{
    if result is Ok {
        text::lemma_trimmed_idempotent(result->Ok_0.agent_token@);
    }
}

/// A refresh request that does not get through changes nothing and is tried again.
pub proof fn law_transport_failure_is_retried(tab: TabView, frozen: IdentityView, cause: String)
    ensures
        after_step(tab, frozen, step_result(RefreshReply::NotSent { cause })) == (tab, true),
{
}

/// The slot after a series of refresh steps.
pub open spec fn after_steps(
    tab: TabView,
    frozen: IdentityView,
    results: Seq<Result<RefreshResponse, RefreshStepError>>,
) -> TabView
    decreases results.len(),
{
    if results.len() == 0 {
        tab
    } else {
        after_step(after_steps(tab, frozen, results.drop_last()), frozen, results.last()).0
    }
}

/// However many refresh steps run and whatever they bring, a bound tab stays bound to the
/// same endpoint, and an unbound one stays unbound.
pub proof fn law_refresh_never_retargets(
    tab: TabView,
    frozen: IdentityView,
    results: Seq<Result<RefreshResponse, RefreshStepError>>,
)
    ensures
        match tab.binding {
            Some(b) => after_steps(tab, frozen, results).binding matches Some(after)
                && after.identity == b.identity,
            None => after_steps(tab, frozen, results).binding is None,
        },
    decreases results.len(),
{
    if results.len() > 0 {
        law_refresh_never_retargets(tab, frozen, results.drop_last());
    }
}

/// A tab whose endpoint disconnected stays disconnected, however many refresh steps run
/// and whatever they bring.
pub proof fn law_refresh_never_reconnects(
    tab: TabView,
    frozen: IdentityView,
    results: Seq<Result<RefreshResponse, RefreshStepError>>,
)
    requires
        tab.connection_state == HelmConnectionState::Disconnected,
    ensures
        after_steps(tab, frozen, results).connection_state == HelmConnectionState::Disconnected,
    decreases results.len(),
{
    if results.len() > 0 {
        law_refresh_never_reconnects(tab, frozen, results.drop_last());
    }
}

/// From launch to refresh: the binding of an exchange freezes onto a new tab, and the
/// loop that its descriptor starts rotates the token when the portal answers for the same
/// endpoint with a token.
pub proof fn law_exchanged_binding_refreshes(
    reply: ExchangeReply,
    expected: Seq<char>,
    response: RefreshResponse,
)
    requires
        reply_verdict(reply, expected) is Ok,
        reply_verdict(reply, expected)->Ok_0.refresh_descriptor is Some,
        !text::is_blank(response.agent_token@),
        response.endpoint_id matches Some(id) && text::trimmed(id@) == text::trimmed(expected),
    ensures
        ({
            let outcome = reply_verdict(reply, expected)->Ok_0;
            let descriptor = outcome.refresh_descriptor->0;
            let frozen = TabView::empty().freeze(outcome.binding);
            &&& frozen.1 is Ok
            &&& after_step(
                frozen.0,
                descriptor.endpoint_identity,
                Ok::<_, RefreshStepError>(response),
            ) == (
                TabView {
                    binding: Some(
                        outcome.binding.with_token(text::trimmed(response.agent_token@)),
                    ),
                    connection_state: HelmConnectionState::Connected,
                },
                true,
            )
        }),
{
    law_exchange_binds_the_requested_endpoint(reply, expected);
    let outcome = reply_verdict(reply, expected)->Ok_0;
    text::lemma_trimmed_idempotent(response.endpoint_id->0@);
    law_refresh_goes_on_iff_rotated(
        TabView::empty().freeze(outcome.binding).0,
        outcome.binding.identity,
        response,
    );
}

/// A key has a value exactly when it stands in the query, and then the value is that of the
/// last pair with the key.
pub proof fn law_query_value_is_that_of_the_last_pair(
    query: Seq<(Seq<char>, Seq<char>)>,
    key: Seq<char>,
) -> (at: int)
    ensures
        match query_value(query, key) {
            Some(value) => {
                &&& 0 <= at < query.len()
                &&& query[at] == (key, value)
                &&& forall|i: int| at < i < query.len() ==> (#[trigger] query[i]).0 != key
            },
            None => forall|i: int| 0 <= i < query.len() ==> (#[trigger] query[i]).0 != key,
        },
    decreases query.len(),
{
    if query.len() == 0 {
        0
    } else if query.last().0 == key {
        query.len() - 1
    } else {
        let at = law_query_value_is_that_of_the_last_pair(query.drop_last(), key);
        assert forall|i: int|
            (if query_value(query, key) is Some {
                at < i
            } else {
                0 <= i
            }) && i < query.len() implies (#[trigger] query[i]).0 != key by {
            if i < query.len() - 1 {
                assert(query.drop_last()[i].0 != key);
            }
        }
        at
    }
}

/// A launch carries the values of its three parameters, each in its place; a refusal names
/// the host, or the first parameter that is missing, in the order portal, endpoint id,
/// exchange code.
pub proof fn law_launch_carries_its_params(url: UrlView)
    ensures
        launch_of(url) matches Ok(l) ==> {
            &&& query_value(url.query, "portal"@) == Some(l.portal)
            &&& query_value(url.query, "endpoint_id"@) == Some(l.endpoint_id)
            &&& query_value(url.query, "exchange"@) == Some(l.exchange)
        },
        launch_of(url) matches Err(e) ==> match e {
            LaunchUrlErrorView::MissingHost => url.host is None,
            LaunchUrlErrorView::UnsupportedHost { host } => url.host == Some(host) && host
                != "connect"@,
            LaunchUrlErrorView::MissingParam { name } => {
                &&& url.host == Some("connect"@)
                &&& query_value(url.query, name) is None
                &&& name == "portal"@ || query_value(url.query, "portal"@) is Some
                &&& name == "portal"@ || name == "endpoint_id"@ || query_value(
                    url.query,
                    "endpoint_id"@,
                ) is Some
                &&& name == "portal"@ || name == "endpoint_id"@ || name == "exchange"@
            },
        },
{
}

/// What is printed of an action shows portal and endpoint, quoted, and the mark in the place
/// of the code.
pub proof fn law_debug_shows_portal_and_endpoint(
    portal: Seq<char>,
    exchange: Seq<char>,
    endpoint_id: Seq<char>,
)
    ensures
        (ActionView::ConnectHelmEndpoint { portal, exchange, endpoint_id }).debug()
            == "ConnectHelmEndpoint { portal: "@ + outside::debug_text(portal)
            + ", exchange: [REDACTED], endpoint_id: "@ + outside::debug_text(endpoint_id) + " }"@,
{
}

/// Refusals of a launch URL say what is wrong with it.
pub proof fn law_launch_refusals_say_what_is_wrong(host: Seq<char>, name: Seq<char>)
    ensures
        LaunchUrlErrorView::MissingHost.message() == "helm-warp URL missing host"@,
        (LaunchUrlErrorView::UnsupportedHost { host }).message() == "unsupported helm-warp host: "@
            + host + " (expected 'connect')"@,
        (LaunchUrlErrorView::MissingParam { name }).message() == "missing '"@ + name
            + "' query param"@,
{
}

/// A descriptor is made exactly when URL and token both have a character other than
/// whitespace; it holds them trimmed, each in its place, and the identity as it was given.
pub proof fn law_descriptor_needs_url_and_token(
    refresh_url: Option<Seq<char>>,
    refresh_token: Option<Seq<char>>,
    identity: IdentityView,
)
    ensures
        descriptor_of(refresh_url, refresh_token, identity) is Some <==> {
            &&& refresh_url is Some && !text::is_blank(refresh_url->0)
            &&& refresh_token is Some && !text::is_blank(refresh_token->0)
        },
        descriptor_of(refresh_url, refresh_token, identity) matches Some(d) ==> {
            &&& d.refresh_url == text::trimmed(refresh_url->0)
            &&& d.refresh_token == text::trimmed(refresh_token->0)
            &&& d.endpoint_identity == identity
        },
{
}

/// The exchange goes to the portal's own exchange path, and slashes at the end of the
/// portal make no difference.
pub proof fn law_exchange_path_follows_the_portal(portal: Seq<char>)
    ensures
        exchange_address(portal.push('/')) == exchange_address(portal),
        (portal.len() > 0 && portal.last() != '/') ==> exchange_address(portal) == portal
            + "/api/v1/launch/exchange"@,
        portal.len() == 0 ==> exchange_address(portal) == "/api/v1/launch/exchange"@,
{
    assert(portal.push('/').drop_last() =~= portal);
    if portal.len() == 0 {
        assert(exchange_address(portal) =~= "/api/v1/launch/exchange"@);
    }
}

/// Each field of an exchanged binding is the field of the same name of the response,
/// trimmed; the refresh descriptor holds the response's URL and token, trimmed.
pub proof fn law_exchanged_fields_are_those_of_the_response(
    response: ExchangeResponse,
    expected: Seq<char>,
)
    requires
        exchange_verdict(response, expected) is Ok,
    ensures
        ({
            let outcome = exchange_verdict(response, expected)->Ok_0;
            let binding = outcome.binding;
            &&& binding.identity.endpoint_id == text::trimmed(response.endpoint_id@)
            &&& binding.identity.endpoint_friendly_label == text::trimmed(
                response.endpoint_friendly_label@,
            )
            &&& binding.identity.endpoint_hostname == text::trimmed(response.endpoint_hostname@)
            &&& binding.identity.endpoint_os == text::trimmed(response.endpoint_os@)
            &&& binding.identity.helm_oz_url == text::trimmed(response.helm_oz_url@)
            &&& binding.agent_token == text::trimmed(response.agent_token@)
            &&& outcome.refresh_descriptor is Some <==> {
                &&& response.refresh_url matches Some(url) && !text::is_blank(url@)
                &&& response.refresh_token matches Some(token) && !text::is_blank(token@)
            }
            &&& outcome.refresh_descriptor matches Some(d) ==> {
                &&& d.refresh_url == text::trimmed(response.refresh_url->0@)
                &&& d.refresh_token == text::trimmed(response.refresh_token->0@)
                &&& d.endpoint_identity == binding.identity
            }
        }),
{
}

/// A response binds exactly when it is for the endpoint that was asked for and none of its
/// six fields is blank; an incomplete one is told which are.
pub proof fn law_exchange_binds_complete_responses(
    response: ExchangeResponse,
    expected: Seq<char>,
)
    ensures
        ({
            let gaps = helm_tab_binding::gap(Some(response.endpoint_id@)) + helm_tab_binding::gap(
                Some(response.endpoint_friendly_label@),
            ) + helm_tab_binding::gap(Some(response.endpoint_hostname@)) + helm_tab_binding::gap(
                Some(response.endpoint_os@),
            ) + helm_tab_binding::gap(Some(response.helm_oz_url@)) + helm_tab_binding::gap(
                Some(response.agent_token@),
            );
            let same = text::trimmed(response.endpoint_id@) == text::trimmed(expected);
            &&& exchange_verdict(response, expected) is Ok <==> same && gaps == 0
            &&& same && gaps > 0 ==> exchange_verdict(response, expected) == Err::<OutcomeView, _>(
                ExchangeErrorView::Incomplete {
                    missing: helm_tab_binding::missing_fields(
                        Some(response.endpoint_id@),
                        Some(response.endpoint_friendly_label@),
                        Some(response.endpoint_hostname@),
                        Some(response.endpoint_os@),
                        Some(response.helm_oz_url@),
                        Some(response.agent_token@),
                    ),
                },
            )
        }),
{
    helm_tab_binding::law_each_gap_is_named_in_order(
        Some(response.endpoint_id@),
        Some(response.endpoint_friendly_label@),
        Some(response.endpoint_hostname@),
        Some(response.endpoint_os@),
        Some(response.helm_oz_url@),
        Some(response.agent_token@),
    );
}

/// Only an answer with a success status and a readable body can bind, and then the body
/// decides; every other reply fails with its own error and its own cause, and a bad status
/// counts before the body.
pub proof fn law_only_successful_replies_bind(reply: ExchangeReply, expected: Seq<char>)
    ensures
        match reply {
            ExchangeReply::NoClient { cause } => reply_verdict(reply, expected) == Err::<
                OutcomeView,
                _,
            >(ExchangeErrorView::ClientBuild { cause: cause@ }),
            ExchangeReply::NotSent { cause } => reply_verdict(reply, expected) == Err::<
                OutcomeView,
                _,
            >(ExchangeErrorView::Send { cause: cause@ }),
            ExchangeReply::NotRead { cause } => reply_verdict(reply, expected) == Err::<
                OutcomeView,
                _,
            >(ExchangeErrorView::Body { cause: cause@ }),
            ExchangeReply::Received { status, parsed } => if !(200 <= status@ <= 299) {
                reply_verdict(reply, expected) == Err::<OutcomeView, _>(
                    ExchangeErrorView::Status { status: status@ },
                )
            } else {
                match parsed {
                    Ok(response) => reply_verdict(reply, expected) == exchange_verdict(
                        response,
                        expected,
                    ),
                    Err(cause) => reply_verdict(reply, expected) == Err::<OutcomeView, _>(
                        ExchangeErrorView::Parse { cause: cause@ },
                    ),
                }
            },
        },
{
}

/// Failures of an exchange say which step failed; a status and a mismatch are told in full.
pub proof fn law_exchange_failures_say_which_step_failed(
    cause: Seq<char>,
    status: u16,
    requested: Seq<char>,
    returned: Seq<char>,
    missing: Seq<Seq<char>>,
)
    ensures
        (ExchangeErrorView::ClientBuild { cause }).message() == cause,
        (ExchangeErrorView::Send { cause }).message() == "exchange HTTP request failed"@,
        (ExchangeErrorView::Body { cause }).message() == "reading exchange response"@,
        (ExchangeErrorView::Status { status }).message() == "exchange returned "@
            + outside::status_display(status),
        (ExchangeErrorView::Parse { cause }).message() == "parsing exchange response"@,
        (ExchangeErrorView::EndpointMismatch { requested, returned }).message()
            == "exchange endpoint mismatch (requested="@ + requested + ", returned="@ + returned
            + ")"@,
        (ExchangeErrorView::Incomplete { missing }).message() == "validating exchange response"@,
{
}

/// A refresh response rotates the token exactly when it has a token and names the bound
/// endpoint, both taken without outer whitespace. Without one of the two it is malformed,
/// and the gaps are named, the token first; with another endpoint both are named.
pub proof fn law_refresh_response_must_name_the_endpoint(
    frozen: IdentityView,
    agent_token: Option<Seq<char>>,
    endpoint_id: Option<Seq<char>>,
)
    ensures
        ({
            let no_token = helm_tab_binding::gap(agent_token);
            let no_id = helm_tab_binding::gap(endpoint_id);
            match refresh_decision(frozen, agent_token, endpoint_id) {
                DecisionView::Rotate { fresh_agent_token } => {
                    &&& no_token + no_id == 0
                    &&& text::trimmed(endpoint_id->0) == frozen.endpoint_id
                    &&& fresh_agent_token == text::trimmed(agent_token->0)
                },
                DecisionView::DifferentEndpoint { existing, attempted } => {
                    &&& no_token + no_id == 0
                    &&& text::trimmed(endpoint_id->0) != frozen.endpoint_id
                    &&& existing == frozen.endpoint_id
                    &&& attempted == Some(text::trimmed(endpoint_id->0))
                },
                DecisionView::MalformedResponse { missing } => {
                    &&& missing.len() == no_token + no_id
                    &&& missing.len() > 0
                    &&& no_token == 1 ==> missing[0] == "agent_token"@
                    &&& no_id == 1 ==> missing[no_token] == "endpoint_id"@
                },
            }
        }),
{
}

/// A response that does not rotate the token leaves the binding as it was. The slot is
/// marked stale where the response itself is at fault; where the response is sound and the
/// slot is not bound to the endpoint, nothing changes.
pub proof fn law_unapplied_response_leaves_the_binding(
    tab: TabView,
    frozen: IdentityView,
    response: RefreshResponse,
)
    requires
        !refreshed(tab, frozen, response).1,
    ensures
        refreshed(tab, frozen, response).0.binding == tab.binding,
        refresh_decision(
            frozen,
            Some(response.agent_token@),
            text::opt_text(response.endpoint_id),
        ) is Rotate ==> refreshed(tab, frozen, response).0 == tab,
        !(refresh_decision(
            frozen,
            Some(response.agent_token@),
            text::opt_text(response.endpoint_id),
        ) is Rotate) ==> refreshed(tab, frozen, response).0.connection_state == if tab.connection_state
            == HelmConnectionState::Disconnected {
            HelmConnectionState::Disconnected
        } else {
            HelmConnectionState::Stale
        },
{
}

/// A refresh call gives a response exactly when the answer has a success status and a
/// readable body; every other reply keeps its cause, and a bad status counts before the
/// body.
pub proof fn law_only_successful_calls_refresh(reply: RefreshReply)
    ensures
        match reply {
            RefreshReply::NoClient { cause } => step_result(reply) == Err::<RefreshResponse, _>(
                RefreshStepError::ClientBuild(cause),
            ),
            RefreshReply::NotSent { cause } => step_result(reply) == Err::<RefreshResponse, _>(
                RefreshStepError::Http(cause),
            ),
            RefreshReply::Received { status, parsed } => {
                &&& step_result(reply) is Ok <==> 200 <= status@ <= 299 && parsed is Ok
                &&& step_result(reply) is Ok ==> step_result(reply)->Ok_0 == parsed->Ok_0
                &&& !(200 <= status@ <= 299) ==> step_result(reply) == Err::<RefreshResponse, _>(
                    RefreshStepError::HttpStatus(status),
                )
                &&& 200 <= status@ <= 299 && parsed is Err ==> step_result(reply) == Err::<
                    RefreshResponse,
                    _,
                >(RefreshStepError::Parse(parsed->Err_0))
            },
        },
{
}

/// The loop goes on only after a rotated token or a request that did not get through; every
/// other failed call stops it.
pub proof fn law_other_failures_stop_the_loop(
    tab: TabView,
    frozen: IdentityView,
    result: Result<RefreshResponse, RefreshStepError>,
)
    ensures
        result is Ok ==> after_step(tab, frozen, result) == refreshed(tab, frozen, result->Ok_0),
        result is Err ==> (after_step(tab, frozen, result).1 <==> result->Err_0 is Http),
        result is Err && result->Err_0 is Http ==> after_step(tab, frozen, result).0 == tab,
        result is Err ==> after_step(tab, frozen, result).0.binding == tab.binding,
        result is Err && !(result->Err_0 is Http) ==> after_step(
            tab,
            frozen,
            result,
        ).0.connection_state != HelmConnectionState::Connected,
{
}

/// Launch, action, descriptor and outcome are seen as they are, field by field.
pub proof fn law_launch_is_seen_as_it_is(
    launch: ParsedLaunchUrl,
    action: WorkspaceAction,
    descriptor: HelmRefreshDescriptor,
    outcome: HelmExchangeOutcome,
)
    ensures
        launch@.portal == launch.portal@,
        launch@.endpoint_id == launch.endpoint_id@,
        launch@.exchange == launch.exchange@,
        action@->portal == action->portal@,
        action@->exchange == action->exchange@,
        action@->endpoint_id == action->endpoint_id@,
        descriptor@.refresh_url == descriptor.refresh_url@,
        descriptor@.refresh_token == descriptor.refresh_token@,
        descriptor@.endpoint_identity == descriptor.endpoint_identity@,
        outcome@.binding == outcome.binding@,
        outcome@.refresh_descriptor is Some <==> outcome.refresh_descriptor is Some,
        outcome.refresh_descriptor matches Some(d) ==> outcome@.refresh_descriptor->0 == d@,
{
}

} // verus!
