//! Per-tab Helm endpoint binding.
//!
//! A tab opened from a `helm-warp://connect` URL is bound to one endpoint for as long
//! as it lives. The binding is captured once, when the tab opens, and frozen: only the
//! agent token may change afterwards, and only for the same endpoint. To reach another
//! endpoint the user opens a new tab.
//!
//! All six fields of a binding must be non-blank. When one is missing, no binding is
//! made and the caller gets a typed error that names every missing field.
use crate::outside;
use crate::outside::debug_quoted;
use crate::text;
use crate::text::trimmed_field;
use std::sync::Arc;
use vstd::prelude::*;
use vstd::string::*;

verus! {

/// Which endpoint a binding points at: everything but the token.
#[derive(Debug, Clone, PartialEq, Eq)]
pub struct EndpointIdentity {
    pub endpoint_id: String,
    pub endpoint_friendly_label: String,
    pub endpoint_hostname: String,
    pub endpoint_os: String,
    pub helm_oz_url: String,
}

/// The texts of an [`EndpointIdentity`].
#[verifier::ext_equal]
pub struct IdentityView {
    pub endpoint_id: Seq<char>,
    pub endpoint_friendly_label: Seq<char>,
    pub endpoint_hostname: Seq<char>,
    pub endpoint_os: Seq<char>,
    pub helm_oz_url: Seq<char>,
}

impl View for EndpointIdentity {
    type V = IdentityView;

    open spec fn view(&self) -> IdentityView {
        IdentityView {
            endpoint_id: self.endpoint_id@,
            endpoint_friendly_label: self.endpoint_friendly_label@,
            endpoint_hostname: self.endpoint_hostname@,
            endpoint_os: self.endpoint_os@,
            helm_oz_url: self.helm_oz_url@,
        }
    }
}

impl EndpointIdentity {
    /// Takes the five identity fields of a binding.
    pub fn from_binding(b: &HelmEndpointBinding) -> (r: Self)
        ensures
            r@ == b@.identity,
    {
        EndpointIdentity {
            endpoint_id: b.endpoint_id.clone(),
            endpoint_friendly_label: b.endpoint_friendly_label.clone(),
            endpoint_hostname: b.endpoint_hostname.clone(),
            endpoint_os: b.endpoint_os.clone(),
            helm_oz_url: b.helm_oz_url.clone(),
        }
    }

    /// Whether two identities name the same endpoint: all five fields agree.
    pub fn same_endpoint(&self, other: &EndpointIdentity) -> (r: bool)
        ensures
            r == (self@ == other@),
    {
        self.endpoint_id == other.endpoint_id
            && self.endpoint_friendly_label == other.endpoint_friendly_label
            && self.endpoint_hostname == other.endpoint_hostname
            && self.endpoint_os == other.endpoint_os
            && self.helm_oz_url == other.helm_oz_url
    }
}

/// Endpoint identity and routing target, frozen when the tab opens.
#[derive(Debug, Clone, PartialEq, Eq)]
pub struct HelmEndpointBinding {
    /// Bound endpoint id, such as `ep-abc123`.
    pub endpoint_id: String,
    /// Label for people, such as `operator-laptop`; shown in the tab title.
    pub endpoint_friendly_label: String,
    /// Endpoint hostname, such as `operator-laptop.local`.
    pub endpoint_hostname: String,
    /// Endpoint OS, such as `macos`, `linux` or `windows`.
    pub endpoint_os: String,
    /// helm_oz base URL, without a trailing path.
    pub helm_oz_url: String,
    /// Agent bearer token. A remote binding always has one.
    pub agent_token: String,
}

/// The texts of a [`HelmEndpointBinding`].
#[verifier::ext_equal]
pub struct BindingView {
    pub identity: IdentityView,
    pub agent_token: Seq<char>,
}

impl BindingView {
    /// Whether none of the six fields is blank.
    pub open spec fn complete(self) -> bool {
        &&& !text::is_blank(self.identity.endpoint_id)
        &&& !text::is_blank(self.identity.endpoint_friendly_label)
        &&& !text::is_blank(self.identity.endpoint_hostname)
        &&& !text::is_blank(self.identity.endpoint_os)
        &&& !text::is_blank(self.identity.helm_oz_url)
        &&& !text::is_blank(self.agent_token)
    }

    /// The binding with another token for the same endpoint.
    pub open spec fn with_token(self, token: Seq<char>) -> BindingView {
        BindingView { agent_token: token, ..self }
    }
}

impl View for HelmEndpointBinding {
    type V = BindingView;

    open spec fn view(&self) -> BindingView {
        BindingView {
            identity: IdentityView {
                endpoint_id: self.endpoint_id@,
                endpoint_friendly_label: self.endpoint_friendly_label@,
                endpoint_hostname: self.endpoint_hostname@,
                endpoint_os: self.endpoint_os@,
                helm_oz_url: self.helm_oz_url@,
            },
            agent_token: self.agent_token@,
        }
    }
}

impl HelmEndpointBinding {
    /// A binding with exactly these fields, unchecked. Callers that hold raw input
    /// use [`freeze_remote`], which validates.
    pub fn for_test(
        endpoint_id: &str,
        endpoint_friendly_label: &str,
        endpoint_hostname: &str,
        endpoint_os: &str,
        helm_oz_url: &str,
        agent_token: &str,
    ) -> (r: Self)
        ensures
            r@ == (BindingView {
                identity: IdentityView {
                    endpoint_id: endpoint_id@,
                    endpoint_friendly_label: endpoint_friendly_label@,
                    endpoint_hostname: endpoint_hostname@,
                    endpoint_os: endpoint_os@,
                    helm_oz_url: helm_oz_url@,
                },
                agent_token: agent_token@,
            }),
    {
        HelmEndpointBinding {
            endpoint_id: endpoint_id.to_string(),
            endpoint_friendly_label: endpoint_friendly_label.to_string(),
            endpoint_hostname: endpoint_hostname.to_string(),
            endpoint_os: endpoint_os.to_string(),
            helm_oz_url: helm_oz_url.to_string(),
            agent_token: agent_token.to_string(),
        }
    }

    /// The endpoint identity, owned, without the token.
    pub fn endpoint_identity_owned(&self) -> (r: EndpointIdentity)
        ensures
            r@ == self@.identity,
    {
        EndpointIdentity::from_binding(self)
    }

    /// The endpoint identity of a shared binding.
    pub fn endpoint_identity_arc(binding: &Arc<HelmEndpointBinding>) -> (r: EndpointIdentity)
        ensures
            r@ == binding@.identity,
    {
        EndpointIdentity::from_binding(binding)
    }

    /// The same endpoint with another token.
    fn with_token(&self, token: &str) -> (r: Self)
        ensures
            r@ == self@.with_token(token@),
    {
        HelmEndpointBinding {
            endpoint_id: self.endpoint_id.clone(),
            endpoint_friendly_label: self.endpoint_friendly_label.clone(),
            endpoint_hostname: self.endpoint_hostname.clone(),
            endpoint_os: self.endpoint_os.clone(),
            helm_oz_url: self.helm_oz_url.clone(),
            agent_token: token.to_string(),
        }
    }
}

/// Connection state of a bound tab.
///
/// * `Connected`: the last refresh succeeded, or none has run yet.
/// * `Stale`: the refresh loop stopped on a refusal, a bad status or a bad payload.
///   The binding is still there, but requests are refused until the user reconnects
///   (see [`crate::agent_request::check_tab`]).
/// * `Disconnected`: the endpoint disconnected explicitly. Requests are refused, and the
///   tab does not recover by itself: the user opens a new one.
#[derive(Debug, Clone, Copy, PartialEq, Eq, Structural)]
pub enum HelmConnectionState {
    Connected,
    Stale,
    Disconnected,
}

impl Default for HelmConnectionState {
    fn default() -> (r: Self)
        ensures
            r == HelmConnectionState::Connected,
    {
        HelmConnectionState::Connected
    }
}

impl HelmConnectionState {
    /// Whether the binding can carry traffic.
    pub fn is_connected(self) -> (r: bool)
        ensures
            r == (self == HelmConnectionState::Connected),
    {
        matches!(self, HelmConnectionState::Connected)
    }

    /// The state after a refresh that succeeded: the endpoint is connected, unless it
    /// disconnected explicitly.
    pub open spec fn confirmed(self) -> HelmConnectionState {
        if self == HelmConnectionState::Disconnected {
            HelmConnectionState::Disconnected
        } else {
            HelmConnectionState::Connected
        }
    }

    /// The state after a refresh that failed for good: stale, unless the endpoint
    /// disconnected explicitly.
    pub open spec fn contradicted(self) -> HelmConnectionState {
        if self == HelmConnectionState::Disconnected {
            HelmConnectionState::Disconnected
        } else {
            HelmConnectionState::Stale
        }
    }

    /// The label of a state.
    pub open spec fn label_text(self) -> Seq<char> {
        match self {
            HelmConnectionState::Connected => "connected"@,
            HelmConnectionState::Stale => "stale"@,
            HelmConnectionState::Disconnected => "disconnected"@,
        }
    }

    /// Short label for tab tooltips and block headers.
    pub fn label(self) -> (r: &'static str)
        ensures
            r@ == self.label_text(),
    {
        match self {
            HelmConnectionState::Connected => "connected",
            HelmConnectionState::Stale => "stale",
            HelmConnectionState::Disconnected => "disconnected",
        }
    }
}

/// The binding slot of one tab: at most one binding, and the connection state that the
/// refresh loop saw last. The tab owns its slot; nothing is shared between tabs.
#[derive(Debug)]
pub struct HelmTabBinding {
    binding: Option<Arc<HelmEndpointBinding>>,
    connection_state: HelmConnectionState,
}

/// What a [`HelmTabBinding`] holds.
#[verifier::ext_equal]
pub struct TabView {
    pub binding: Option<BindingView>,
    pub connection_state: HelmConnectionState,
}

impl TabView {
    /// The slot of a tab that was never bound.
    pub open spec fn empty() -> TabView {
        TabView { binding: None, connection_state: HelmConnectionState::Connected }
    }

    /// Freezing `b` onto the slot.
    pub open spec fn freeze(self, b: BindingView) -> (TabView, Result<(), BindingErrorView>) {
        if self.binding is Some {
            (self, Err(BindingErrorView::AlreadyFrozen))
        } else {
            (
                TabView { binding: Some(b), connection_state: HelmConnectionState::Connected },
                Ok(()),
            )
        }
    }

    /// Rebinding the slot to `b`.
    pub open spec fn rebind(self, b: BindingView) -> (TabView, Result<(), BindingErrorView>) {
        match self.binding {
            None => (self, Err(BindingErrorView::NotFrozen)),
            Some(existing) => if existing.identity != b.identity {
                (
                    self,
                    Err(
                        BindingErrorView::EndpointMismatch {
                            existing: existing.identity.endpoint_id,
                            attempted: b.identity.endpoint_id,
                        },
                    ),
                )
            } else if text::is_blank(b.agent_token) {
                (self, Err(BindingErrorView::Incomplete { missing: seq!["agent_token"@] }))
            } else {
                (TabView { binding: Some(b), ..self }, Ok(()))
            },
        }
    }

    /// Giving the slot a fresh token for the endpoint `identity`.
    pub open spec fn refresh(self, identity: IdentityView, token: Seq<char>) -> (
        TabView,
        Result<(), BindingErrorView>,
    ) {
        if text::is_blank(token) {
            (self, Err(BindingErrorView::Incomplete { missing: seq!["agent_token"@] }))
        } else {
            match self.binding {
                None => (self, Err(BindingErrorView::NotFrozen)),
                Some(existing) => if existing.identity != identity {
                    (
                        self,
                        Err(
                            BindingErrorView::EndpointMismatch {
                                existing: existing.identity.endpoint_id,
                                attempted: identity.endpoint_id,
                            },
                        ),
                    )
                } else {
                    (
                        TabView {
                            binding: Some(existing.with_token(token)),
                            connection_state: self.connection_state.confirmed(),
                        },
                        Ok(()),
                    )
                },
            }
        }
    }

    /// The slot with another connection state.
    pub open spec fn with_state(self, state: HelmConnectionState) -> TabView {
        TabView { connection_state: state, ..self }
    }

    /// The slot after a refresh that failed for good.
    pub open spec fn contradicted(self) -> TabView {
        self.with_state(self.connection_state.contradicted())
    }
}

impl View for HelmTabBinding {
    type V = TabView;

    closed spec fn view(&self) -> TabView {
        TabView {
            binding: match self.binding {
                Some(b) => Some(b@),
                None => None,
            },
            connection_state: self.connection_state,
        }
    }
}

impl Default for HelmTabBinding {
    fn default() -> (r: Self)
        ensures
            r@ == TabView::empty(),
    {
        HelmTabBinding { binding: None, connection_state: HelmConnectionState::Connected }
    }
}

impl HelmTabBinding {
    /// The slot of a new tab: no binding, `Connected`.
    pub fn new() -> (r: Self)
        ensures
            r@ == TabView::empty(),
    {
        HelmTabBinding { binding: None, connection_state: HelmConnectionState::Connected }
    }

    /// The current binding, shared.
    pub fn get(&self) -> (r: Option<Arc<HelmEndpointBinding>>)
        ensures
            r is Some == self@.binding is Some,
            r is Some ==> r->0@ == self@.binding->0,
    {
        match &self.binding {
            Some(b) => Some(b.clone()),
            None => None,
        }
    }

    /// Whether a remote binding is installed on this tab.
    pub fn is_remote(&self) -> (r: bool)
        ensures
            r == self@.binding is Some,
    {
        self.binding.is_some()
    }

    /// The connection state seen last. It says something only while a binding is
    /// installed.
    pub fn connection_state(&self) -> (r: HelmConnectionState)
        ensures
            r == self@.connection_state,
    {
        self.connection_state
    }

    /// Sets the connection state and leaves the binding alone.
    pub fn set_connection_state(&mut self, state: HelmConnectionState)
        ensures
            final(self)@ == old(self)@.with_state(state),
    {
        self.connection_state = state;
    }

    /// Marks the slot stale and leaves the binding alone. A tab whose endpoint
    /// disconnected stays disconnected.
    pub fn mark_stale(&mut self)
        ensures
            final(self)@ == old(self)@.contradicted(),
    {
        if self.connection_state != HelmConnectionState::Disconnected {
            self.connection_state = HelmConnectionState::Stale;
        }
    }

    /// Freezes a binding onto the tab, once, and resets the state to `Connected`. A
    /// second call is refused and changes nothing.
    pub fn freeze_remote(&mut self, binding: HelmEndpointBinding) -> (r: Result<(), BindingError>)
        ensures
            (final(self)@, outcome_view(r)) == old(self)@.freeze(binding@),
    {
        if self.binding.is_some() {
            return Err(BindingError::AlreadyFrozen);
        }
        self.binding = Some(Arc::new(binding));
        self.connection_state = HelmConnectionState::Connected;
        Ok(())
    }

    /// Replaces the binding by one for the same endpoint, which can only change the
    /// token. A candidate for another endpoint, or with a blank token, is refused and
    /// changes nothing.
    pub fn try_rebind_remote(&mut self, candidate: HelmEndpointBinding) -> (r: Result<
        (),
        BindingError,
    >)
        ensures
            (final(self)@, outcome_view(r)) == old(self)@.rebind(candidate@),
    {
        match &self.binding {
            None => {
                return Err(BindingError::NotFrozen);
            },
            Some(existing) => {
                if !existing.endpoint_identity_owned().same_endpoint(
                    &candidate.endpoint_identity_owned(),
                ) {
                    return Err(
                        BindingError::EndpointMismatch {
                            existing: existing.endpoint_id.clone(),
                            attempted: candidate.endpoint_id.clone(),
                        },
                    );
                }
            },
        }
        if candidate.agent_token.as_str().trim().is_empty() {
            return Err(missing_token());
        }
        self.binding = Some(Arc::new(candidate));
        Ok(())
    }

    /// Rotates the token of the bound endpoint. A stale tab is connected again; a
    /// disconnected one stays disconnected. A blank token, an unbound tab or another
    /// endpoint is refused and changes nothing.
    pub fn try_refresh_token(
        &mut self,
        endpoint_identity: &EndpointIdentity,
        fresh_token: &str,
    ) -> (r: Result<(), BindingError>)
        ensures
            (final(self)@, outcome_view(r)) == old(self)@.refresh(endpoint_identity@, fresh_token@),
    {
        if fresh_token.trim().is_empty() {
            return Err(missing_token());
        }
        let next = match &self.binding {
            None => {
                return Err(BindingError::NotFrozen);
            },
            Some(existing) => {
                if !existing.endpoint_identity_owned().same_endpoint(endpoint_identity) {
                    return Err(
                        BindingError::EndpointMismatch {
                            existing: existing.endpoint_id.clone(),
                            attempted: endpoint_identity.endpoint_id.clone(),
                        },
                    );
                }
                existing.with_token(fresh_token)
            },
        };
        self.binding = Some(Arc::new(next));
        if self.connection_state != HelmConnectionState::Disconnected {
            self.connection_state = HelmConnectionState::Connected;
        }
        Ok(())
    }

    /// Clears the slot, for instance when the tab closes.
    pub fn clear(&mut self)
        ensures
            final(self)@ == TabView::empty(),
    {
        self.binding = None;
        self.connection_state = HelmConnectionState::Connected;
    }
}

/// The refusal of a blank token.
fn missing_token() -> (r: BindingError)
    ensures
        r@ == (BindingErrorView::Incomplete { missing: seq!["agent_token"@] }),
{
    let mut missing: Vec<&'static str> = Vec::new();
    missing.push("agent_token");
    assert(text::strs(missing@) =~= seq!["agent_token"@]);
    BindingError::Incomplete(BindingIncomplete { missing })
}

/// Why an operation on a binding was refused.
#[derive(Debug, Clone, PartialEq, Eq)]
pub enum BindingError {
    /// The tab already has a binding. Open a new tab for a new endpoint.
    AlreadyFrozen,
    /// The tab has no binding to rebind or refresh.
    NotFrozen,
    /// The operation names another endpoint. Open a new tab for it.
    EndpointMismatch { existing: String, attempted: String },
    /// One or more required fields were missing.
    Incomplete(BindingIncomplete),
}

/// The texts of a [`BindingError`].
pub enum BindingErrorView {
    AlreadyFrozen,
    NotFrozen,
    EndpointMismatch { existing: Seq<char>, attempted: Seq<char> },
    Incomplete { missing: Seq<Seq<char>> },
}

impl View for BindingError {
    type V = BindingErrorView;

    open spec fn view(&self) -> BindingErrorView {
        match self {
            BindingError::AlreadyFrozen => BindingErrorView::AlreadyFrozen,
            BindingError::NotFrozen => BindingErrorView::NotFrozen,
            BindingError::EndpointMismatch { existing, attempted } =>
                BindingErrorView::EndpointMismatch { existing: existing@, attempted: attempted@ },
            BindingError::Incomplete(e) => BindingErrorView::Incomplete {
                missing: text::strs(e.missing@),
            },
        }
    }
}

/// An operation's result with the texts of its error.
pub open spec fn outcome_view(r: Result<(), BindingError>) -> Result<(), BindingErrorView> {
    match r {
        Ok(()) => Ok(()),
        Err(e) => Err(e@),
    }
}

impl BindingErrorView {
    /// The message for people.
    pub open spec fn message(self) -> Seq<char> {
        match self {
            BindingErrorView::AlreadyFrozen => "helm tab binding already frozen"@,
            BindingErrorView::NotFrozen => "helm tab binding not frozen"@,
            BindingErrorView::EndpointMismatch { existing, attempted } =>
                "helm tab endpoint rebind refused (frozen="@ + existing + ", attempted="@
                    + attempted + ")"@,
            BindingErrorView::Incomplete { missing } => incomplete_message(missing),
        }
    }
}

impl BindingError {
    /// The message for people.
    pub fn message(&self) -> (r: String)
        ensures
            r@ == self@.message(),
    {
        match self {
            BindingError::AlreadyFrozen => "helm tab binding already frozen".to_string(),
            BindingError::NotFrozen => "helm tab binding not frozen".to_string(),
            BindingError::EndpointMismatch { existing, attempted } => {
                let mut out = "helm tab endpoint rebind refused (frozen=".to_string();
                out.append(existing.as_str());
                out.append(", attempted=");
                out.append(attempted.as_str());
                out.append(")");
                out
            },
            BindingError::Incomplete(e) => e.message(),
        }
    }
}

/// One or more required fields were blank or missing.
#[derive(Debug, Clone, PartialEq, Eq)]
pub struct BindingIncomplete {
    pub missing: Vec<&'static str>,
}

/// A list of names as `Debug` prints it, without the brackets.
pub open spec fn debug_list(names: Seq<Seq<char>>) -> Seq<char>
    decreases names.len(),
{
    if names.len() == 0 {
        seq![]
    } else if names.len() == 1 {
        outside::debug_text(names[0])
    } else {
        debug_list(names.drop_last()) + ", "@ + outside::debug_text(names.last())
    }
}

/// The message that lists the missing fields.
pub open spec fn incomplete_message(missing: Seq<Seq<char>>) -> Seq<char> {
    "helm tab binding incomplete (missing: ["@ + debug_list(missing) + "])"@
}

impl BindingIncomplete {
    /// The message for people.
    pub fn message(&self) -> (r: String)
        ensures
            r@ == incomplete_message(text::strs(self.missing@)),
    {
        let mut list = String::new();
        let n: usize = self.missing.len();
        let ghost names = text::strs(self.missing@);
        for i in 0..n
            invariant
                n == self.missing@.len(),
                names == text::strs(self.missing@),
                list@ == debug_list(names.take(i as int)),
        {
            if i > 0 {
                list.append(", ");
            }
            let quoted = debug_quoted(self.missing[i]);
            list.append(quoted.as_str());
            assert(names.take(i + 1).drop_last() =~= names.take(i as int));
            assert(names.take(i + 1).last() == self.missing@[i as int]@);
            assert(seq![] + quoted@ =~= quoted@);
        }
        assert(names.take(n as int) =~= names);
        let mut out = "helm tab binding incomplete (missing: [".to_string();
        out.append(list.as_str());
        out.append("])");
        out
    }
}

/// The name of a field, when the field is missing or blank.
pub open spec fn missing_name(field: Option<Seq<char>>, name: Seq<char>) -> Seq<Seq<char>> {
    if text::trimmed_present(field) is None {
        seq![name]
    } else {
        seq![]
    }
}

/// The names of the missing fields of a binding, in declaration order.
pub open spec fn missing_fields(
    endpoint_id: Option<Seq<char>>,
    endpoint_friendly_label: Option<Seq<char>>,
    endpoint_hostname: Option<Seq<char>>,
    endpoint_os: Option<Seq<char>>,
    helm_oz_url: Option<Seq<char>>,
    agent_token: Option<Seq<char>>,
) -> Seq<Seq<char>> {
    missing_name(endpoint_id, "endpoint_id"@)
        + missing_name(endpoint_friendly_label, "endpoint_friendly_label"@)
        + missing_name(endpoint_hostname, "endpoint_hostname"@)
        + missing_name(endpoint_os, "endpoint_os"@)
        + missing_name(helm_oz_url, "helm_oz_url"@)
        + missing_name(agent_token, "agent_token"@)
}

/// The binding that six present fields make: each one trimmed.
pub open spec fn frozen_binding(
    endpoint_id: Option<Seq<char>>,
    endpoint_friendly_label: Option<Seq<char>>,
    endpoint_hostname: Option<Seq<char>>,
    endpoint_os: Option<Seq<char>>,
    helm_oz_url: Option<Seq<char>>,
    agent_token: Option<Seq<char>>,
) -> BindingView {
    BindingView {
        identity: IdentityView {
            endpoint_id: text::trimmed_present(endpoint_id)->0,
            endpoint_friendly_label: text::trimmed_present(endpoint_friendly_label)->0,
            endpoint_hostname: text::trimmed_present(endpoint_hostname)->0,
            endpoint_os: text::trimmed_present(endpoint_os)->0,
            helm_oz_url: text::trimmed_present(helm_oz_url)->0,
        },
        agent_token: text::trimmed_present(agent_token)->0,
    }
}

/// Validates the six required fields and makes a binding of them, each one trimmed, or
/// fails with the names of all that are missing.
pub fn freeze_remote(
    endpoint_id: Option<&str>,
    endpoint_friendly_label: Option<&str>,
    endpoint_hostname: Option<&str>,
    endpoint_os: Option<&str>,
    helm_oz_url: Option<&str>,
    agent_token: Option<&str>,
) -> (r: Result<HelmEndpointBinding, BindingIncomplete>)
    ensures
        ({
            let missing = missing_fields(
                text::opt_str(endpoint_id),
                text::opt_str(endpoint_friendly_label),
                text::opt_str(endpoint_hostname),
                text::opt_str(endpoint_os),
                text::opt_str(helm_oz_url),
                text::opt_str(agent_token),
            );
            match r {
                Ok(binding) => missing.len() == 0 && binding@ == frozen_binding(
                    text::opt_str(endpoint_id),
                    text::opt_str(endpoint_friendly_label),
                    text::opt_str(endpoint_hostname),
                    text::opt_str(endpoint_os),
                    text::opt_str(helm_oz_url),
                    text::opt_str(agent_token),
                ),
                Err(e) => missing.len() > 0 && text::strs(e.missing@) == missing,
            }
        }),
{
    let mut missing: Vec<&'static str> = Vec::new();
    assert(text::strs(missing@) =~= seq![]);
    let endpoint_id = take(endpoint_id, "endpoint_id", &mut missing);
    let endpoint_friendly_label = take(
        endpoint_friendly_label,
        "endpoint_friendly_label",
        &mut missing,
    );
    let endpoint_hostname = take(endpoint_hostname, "endpoint_hostname", &mut missing);
    let endpoint_os = take(endpoint_os, "endpoint_os", &mut missing);
    let helm_oz_url = take(helm_oz_url, "helm_oz_url", &mut missing);
    let agent_token = take(agent_token, "agent_token", &mut missing);
    assert(text::strs(missing@).len() == missing@.len());
    if missing.len() > 0 {
        return Err(BindingIncomplete { missing });
    }
    Ok(
        HelmEndpointBinding {
            endpoint_id,
            endpoint_friendly_label,
            endpoint_hostname,
            endpoint_os,
            helm_oz_url,
            agent_token,
        },
    )
}

/// The trimmed text of a required field. When there is none, its name joins `missing`
/// and the text is empty.
fn take(field: Option<&str>, name: &'static str, missing: &mut Vec<&'static str>) -> (r: String)
    ensures
        text::strs(final(missing)@) == text::strs(old(missing)@) + missing_name(
            text::opt_str(field),
            name@,
        ),
        text::trimmed_present(text::opt_str(field)) matches Some(t) ==> r@ == t,
        text::trimmed_present(text::opt_str(field)) is None ==> r@.len() == 0,
{
    match trimmed_field(field) {
        Some(s) => {
            assert(text::strs(missing@) + Seq::<Seq<char>>::empty() =~= text::strs(missing@));
            s.to_string()
        },
        None => {
            missing.push(name);
            assert(text::strs(missing@) =~= text::strs(old(missing)@) + seq![name@]);
            String::new()
        },
    }
}

/// The title of a bound tab: label and hostname, trimmed, with a dot between them.
pub open spec fn tab_title(friendly_label: Seq<char>, hostname: Seq<char>) -> Option<Seq<char>> {
    if text::is_blank(friendly_label) || text::is_blank(hostname) {
        None
    } else {
        Some(text::trimmed(friendly_label) + " \u{b7} "@ + text::trimmed(hostname))
    }
}

/// Formats the tab title as `<friendly_label> · <hostname>`; `None` when either one is
/// blank.
pub fn format_helm_tab_title(friendly_label: &str, hostname: &str) -> (r: Option<String>)
    ensures
        text::opt_text(r) == tab_title(friendly_label@, hostname@),
{
    let label = friendly_label.trim();
    let host = hostname.trim();
    if label.is_empty() || host.is_empty() {
        return None;
    }
    let mut out = label.to_string();
    out.append(" \u{b7} ");
    out.append(host);
    Some(out)
}

/// An operation on a slot, other than clearing it.
pub enum SlotOp {
    Freeze { binding: BindingView },
    Rebind { candidate: BindingView },
    Refresh { identity: IdentityView, token: Seq<char> },
    SetState { state: HelmConnectionState },
}

impl TabView {
    /// The slot after one operation, whatever its result.
    pub open spec fn after(self, op: SlotOp) -> TabView {
        match op {
            SlotOp::Freeze { binding } => self.freeze(binding).0,
            SlotOp::Rebind { candidate } => self.rebind(candidate).0,
            SlotOp::Refresh { identity, token } => self.refresh(identity, token).0,
            SlotOp::SetState { state } => self.with_state(state),
        }
    }

    /// The slot after a series of operations.
    pub open spec fn after_all(self, ops: Seq<SlotOp>) -> TabView
        decreases ops.len(),
    {
        if ops.len() == 0 {
            self
        } else {
            self.after_all(ops.drop_last()).after(ops.last())
        }
    }
}

/// Once a tab is bound, it stays bound to the same endpoint: no series of operations
/// short of clearing the slot changes the endpoint identity.
pub proof fn law_bound_endpoint_never_changes(tab: TabView, ops: Seq<SlotOp>)
    requires
        tab.binding is Some,
    ensures
        tab.after_all(ops).binding is Some,
        tab.after_all(ops).binding->0.identity == tab.binding->0.identity,
    decreases ops.len(),
{
    if ops.len() > 0 {
        law_bound_endpoint_never_changes(tab, ops.drop_last());
    }
}

/// A refused operation leaves the slot as it was, binding and connection state alike.
pub proof fn law_refused_operation_changes_nothing(
    tab: TabView,
    binding: BindingView,
    identity: IdentityView,
    token: Seq<char>,
)
    ensures
        tab.freeze(binding).1 is Err ==> tab.freeze(binding).0 == tab,
        tab.rebind(binding).1 is Err ==> tab.rebind(binding).0 == tab,
        tab.refresh(identity, token).1 is Err ==> tab.refresh(identity, token).0 == tab,
{
}

/// A slot freezes once: after a freeze, whether it succeeded or not, every further
/// freeze is refused as already frozen.
pub proof fn law_freeze_happens_once(tab: TabView, first: BindingView, second: BindingView)
    ensures
        tab.freeze(first).0.freeze(second) == (
            tab.freeze(first).0,
            Err::<(), BindingErrorView>(BindingErrorView::AlreadyFrozen),
        ),
{
}

/// A rebind or a refresh that succeeds changes the token and nothing else of the
/// binding. The refresh also says that the endpoint is connected, unless it disconnected
/// explicitly; the rebind leaves the connection state alone.
pub proof fn law_only_the_token_rotates(
    tab: TabView,
    candidate: BindingView,
    identity: IdentityView,
    token: Seq<char>,
)
    ensures
        tab.rebind(candidate).1 is Ok ==> {
            &&& tab.binding is Some
            &&& tab.rebind(candidate).0 == (TabView {
                binding: Some(tab.binding->0.with_token(candidate.agent_token)),
                ..tab
            })
        },
        tab.refresh(identity, token).1 is Ok ==> {
            &&& tab.binding is Some
            &&& tab.refresh(identity, token).0 == (TabView {
                binding: Some(tab.binding->0.with_token(token)),
                connection_state: tab.connection_state.confirmed(),
            })
        },
{
}

/// A bound tab whose endpoint disconnected does not recover by itself: no series of
/// freezes, rebinds and refreshes changes the state.
pub proof fn law_disconnected_tab_stays_disconnected(tab: TabView, ops: Seq<SlotOp>)
    requires
        tab.binding is Some,
        tab.connection_state == HelmConnectionState::Disconnected,
        forall|i: int| 0 <= i < ops.len() ==> !((#[trigger] ops[i]) is SetState),
    ensures
        tab.after_all(ops).connection_state == HelmConnectionState::Disconnected,
    decreases ops.len(),
{
    if ops.len() > 0 {
        assert forall|i: int| 0 <= i < ops.drop_last().len() implies !((
        #[trigger] ops.drop_last()[i]) is SetState) by {
            assert(!(ops[i] is SetState));
        }
        law_disconnected_tab_stays_disconnected(tab, ops.drop_last());
        law_bound_endpoint_never_changes(tab, ops.drop_last());
        assert(!(ops[ops.len() - 1] is SetState));
    }
}

/// Whether an operation, when it freezes a binding, brings a complete one.
pub open spec fn brings_complete(op: SlotOp) -> bool {
    op matches SlotOp::Freeze { binding } ==> binding.complete()
}

/// A slot that is frozen with a complete binding never holds a partial one: neither a
/// rebind nor a refresh can put a blank token in.
pub proof fn law_binding_stays_complete(tab: TabView, ops: Seq<SlotOp>)
    requires
        tab.binding is Some ==> tab.binding->0.complete(),
        forall|i: int| 0 <= i < ops.len() ==> brings_complete(#[trigger] ops[i]),
    ensures
        tab.after_all(ops).binding matches Some(b) ==> b.complete(),
    decreases ops.len(),
{
    if ops.len() > 0 {
        assert forall|i: int| 0 <= i < ops.drop_last().len() implies brings_complete(
            #[trigger] ops.drop_last()[i],
        ) by {
            assert(brings_complete(ops[i]));
        }
        law_binding_stays_complete(tab, ops.drop_last());
        assert(brings_complete(ops[ops.len() - 1]));
    }
}

/// What [`freeze_remote`] makes of six present fields is complete and already trimmed:
/// validating the result again gives the same binding.
pub proof fn law_frozen_binding_is_complete(
    endpoint_id: Option<Seq<char>>,
    endpoint_friendly_label: Option<Seq<char>>,
    endpoint_hostname: Option<Seq<char>>,
    endpoint_os: Option<Seq<char>>,
    helm_oz_url: Option<Seq<char>>,
    agent_token: Option<Seq<char>>,
)
    requires
        missing_fields(
            endpoint_id,
            endpoint_friendly_label,
            endpoint_hostname,
            endpoint_os,
            helm_oz_url,
            agent_token,
        ).len() == 0,
    ensures
        ({
            let b = frozen_binding(
                endpoint_id,
                endpoint_friendly_label,
                endpoint_hostname,
                endpoint_os,
                helm_oz_url,
                agent_token,
            );
            let i = b.identity;
            &&& b.complete()
            &&& frozen_binding(
                Some(i.endpoint_id),
                Some(i.endpoint_friendly_label),
                Some(i.endpoint_hostname),
                Some(i.endpoint_os),
                Some(i.helm_oz_url),
                Some(b.agent_token),
            ) == b
        }),
{
    text::lemma_trimmed_idempotent(endpoint_id->0);
    text::lemma_trimmed_idempotent(endpoint_friendly_label->0);
    text::lemma_trimmed_idempotent(endpoint_hostname->0);
    text::lemma_trimmed_idempotent(endpoint_os->0);
    text::lemma_trimmed_idempotent(helm_oz_url->0);
    text::lemma_trimmed_idempotent(agent_token->0);
}

/// An unbound slot takes exactly the binding that is frozen onto it, and trusts it; a bound
/// slot takes none.
pub proof fn law_freeze_takes_the_first_binding(tab: TabView, b: BindingView)
    ensures
        tab.freeze(b).1 is Ok <==> tab.binding is None,
        tab.binding is None ==> tab.freeze(b).0.binding == Some(b)
            && tab.freeze(b).0.connection_state == HelmConnectionState::Connected,
        tab.binding is Some ==> tab.freeze(b) == (
            tab,
            Err::<(), BindingErrorView>(BindingErrorView::AlreadyFrozen),
        ),
{
}

/// Whether two identities agree in every one of their five fields.
pub open spec fn agree(a: IdentityView, b: IdentityView) -> bool {
    &&& a.endpoint_id == b.endpoint_id
    &&& a.endpoint_friendly_label == b.endpoint_friendly_label
    &&& a.endpoint_hostname == b.endpoint_hostname
    &&& a.endpoint_os == b.endpoint_os
    &&& a.helm_oz_url == b.helm_oz_url
}

/// A rebind succeeds exactly when the slot is bound, all five identity fields agree and the
/// token is not blank; the slot then holds the candidate. Every refusal names its reason.
pub proof fn law_rebind_needs_the_same_endpoint(tab: TabView, b: BindingView)
    ensures
        tab.rebind(b).1 is Ok <==> tab.binding is Some && agree(tab.binding->0.identity, b.identity)
            && !text::is_blank(b.agent_token),
        tab.rebind(b).1 is Ok ==> tab.rebind(b).0.binding == Some(b)
            && tab.rebind(b).0.connection_state == tab.connection_state,
        tab.rebind(b).1 == Err::<(), _>(BindingErrorView::NotFrozen) <==> tab.binding is None,
        tab.binding is Some && !agree(tab.binding->0.identity, b.identity) ==> tab.rebind(b).1
            == Err::<(), _>(
            BindingErrorView::EndpointMismatch {
                existing: tab.binding->0.identity.endpoint_id,
                attempted: b.identity.endpoint_id,
            },
        ),
        tab.binding is Some && agree(tab.binding->0.identity, b.identity) && text::is_blank(
            b.agent_token,
        ) ==> tab.rebind(b).1 == Err::<(), _>(
            BindingErrorView::Incomplete { missing: seq!["agent_token"@] },
        ),
{
    if tab.binding is Some && agree(tab.binding->0.identity, b.identity) {
        assert(tab.binding->0.identity =~= b.identity);
    }
}

/// A refresh succeeds exactly when the token is not blank, the slot is bound and all five
/// identity fields agree; the slot then holds the token as it was given. Every refusal names
/// its reason, a blank token before anything else.
pub proof fn law_refresh_needs_the_bound_endpoint(
    tab: TabView,
    identity: IdentityView,
    token: Seq<char>,
)
    ensures
        tab.refresh(identity, token).1 is Ok <==> !text::is_blank(token) && tab.binding is Some
            && agree(tab.binding->0.identity, identity),
        tab.refresh(identity, token).1 is Ok ==> {
            let after = tab.refresh(identity, token).0;
            &&& after.binding is Some
            &&& after.binding->0.agent_token == token
            &&& agree(after.binding->0.identity, tab.binding->0.identity)
            &&& after.connection_state == if tab.connection_state
                == HelmConnectionState::Disconnected {
                HelmConnectionState::Disconnected
            } else {
                HelmConnectionState::Connected
            }
        },
        text::is_blank(token) ==> tab.refresh(identity, token).1 == Err::<(), _>(
            BindingErrorView::Incomplete { missing: seq!["agent_token"@] },
        ),
        !text::is_blank(token) && tab.binding is None ==> tab.refresh(identity, token).1 == Err::<
            (),
            _,
        >(BindingErrorView::NotFrozen),
        !text::is_blank(token) && tab.binding is Some && !agree(tab.binding->0.identity, identity)
            ==> tab.refresh(identity, token).1 == Err::<(), _>(
            BindingErrorView::EndpointMismatch {
                existing: tab.binding->0.identity.endpoint_id,
                attempted: identity.endpoint_id,
            },
        ),
{
    if tab.binding is Some && agree(tab.binding->0.identity, identity) {
        assert(tab.binding->0.identity =~= identity);
    }
}

/// Setting the state, and marking the slot stale, leave the binding alone; a mark makes
/// every slot stale but a disconnected one.
pub proof fn law_states_do_not_touch_the_binding(tab: TabView, state: HelmConnectionState)
    ensures
        tab.with_state(state).binding == tab.binding,
        tab.with_state(state).connection_state == state,
        tab.contradicted().binding == tab.binding,
        tab.connection_state == HelmConnectionState::Disconnected
            ==> tab.contradicted().connection_state == HelmConnectionState::Disconnected,
        tab.connection_state != HelmConnectionState::Disconnected
            ==> tab.contradicted().connection_state == HelmConnectionState::Stale,
        TabView::empty().binding is None,
        TabView::empty().connection_state == HelmConnectionState::Connected,
{
}

/// One for a field that is missing or blank, nothing for one that is there.
pub open spec fn gap(field: Option<Seq<char>>) -> int {
    if field is None || text::is_blank(field->0) {
        1
    } else {
        0
    }
}

/// A gap is a field that is not there, or that has nothing but whitespace in it.
pub proof fn law_gap_is_a_missing_or_blank_field(field: Option<Seq<char>>)
    ensures
        gap(field) == 1 <==> field is None || text::all_white(field->0, 0, field->0.len() as int),
        gap(field) == 0 || gap(field) == 1,
{
    if let Some(s) = field {
        text::law_blank_is_all_whitespace(s);
    }
}

/// Identities are the same exactly when all their fields agree.
pub proof fn law_identity_is_its_five_fields(a: IdentityView, b: IdentityView)
    ensures
        agree(a, b) <==> a == b,
{
    if agree(a, b) {
        assert(a =~= b);
    }
}

/// The list of missing fields has one name for each gap, in the order of the fields: the
/// name of a missing field stands where the gaps before it end.
pub proof fn law_each_gap_is_named_in_order(
    endpoint_id: Option<Seq<char>>,
    endpoint_friendly_label: Option<Seq<char>>,
    endpoint_hostname: Option<Seq<char>>,
    endpoint_os: Option<Seq<char>>,
    helm_oz_url: Option<Seq<char>>,
    agent_token: Option<Seq<char>>,
)
    ensures
        ({
            let missing = missing_fields(
                endpoint_id,
                endpoint_friendly_label,
                endpoint_hostname,
                endpoint_os,
                helm_oz_url,
                agent_token,
            );
            let a = gap(endpoint_id);
            let b = a + gap(endpoint_friendly_label);
            let c = b + gap(endpoint_hostname);
            let d = c + gap(endpoint_os);
            let e = d + gap(helm_oz_url);
            &&& missing.len() == e + gap(agent_token)
            &&& gap(endpoint_id) == 1 ==> missing[0] == "endpoint_id"@
            &&& gap(endpoint_friendly_label) == 1 ==> missing[a] == "endpoint_friendly_label"@
            &&& gap(endpoint_hostname) == 1 ==> missing[b] == "endpoint_hostname"@
            &&& gap(endpoint_os) == 1 ==> missing[c] == "endpoint_os"@
            &&& gap(helm_oz_url) == 1 ==> missing[d] == "helm_oz_url"@
            &&& gap(agent_token) == 1 ==> missing[e] == "agent_token"@
        }),
{
}

/// Each field of a frozen binding is the given field of the same name, trimmed.
pub proof fn law_frozen_fields_are_the_given_ones(
    endpoint_id: Seq<char>,
    endpoint_friendly_label: Seq<char>,
    endpoint_hostname: Seq<char>,
    endpoint_os: Seq<char>,
    helm_oz_url: Seq<char>,
    agent_token: Seq<char>,
)
    requires
        !text::is_blank(endpoint_id),
        !text::is_blank(endpoint_friendly_label),
        !text::is_blank(endpoint_hostname),
        !text::is_blank(endpoint_os),
        !text::is_blank(helm_oz_url),
        !text::is_blank(agent_token),
    ensures
        ({
            let b = frozen_binding(
                Some(endpoint_id),
                Some(endpoint_friendly_label),
                Some(endpoint_hostname),
                Some(endpoint_os),
                Some(helm_oz_url),
                Some(agent_token),
            );
            &&& b.identity.endpoint_id == text::trimmed(endpoint_id)
            &&& b.identity.endpoint_friendly_label == text::trimmed(endpoint_friendly_label)
            &&& b.identity.endpoint_hostname == text::trimmed(endpoint_hostname)
            &&& b.identity.endpoint_os == text::trimmed(endpoint_os)
            &&& b.identity.helm_oz_url == text::trimmed(helm_oz_url)
            &&& b.agent_token == text::trimmed(agent_token)
        }),
{
}

/// A binding is complete exactly when each of its six fields has a character other than
/// whitespace.
pub proof fn law_complete_means_no_blank_field(b: BindingView)
    ensures
        b.complete() <==> gap(Some(b.identity.endpoint_id)) + gap(
            Some(b.identity.endpoint_friendly_label),
        ) + gap(Some(b.identity.endpoint_hostname)) + gap(Some(b.identity.endpoint_os)) + gap(
            Some(b.identity.helm_oz_url),
        ) + gap(Some(b.agent_token)) == 0,
        b.with_token(b.agent_token) == b,
{
}

/// A tab title begins with the trimmed label, ends with the trimmed hostname, and has a dot
/// with a space on each side between them; there is one unless either part is blank.
pub proof fn law_title_joins_label_and_hostname(label: Seq<char>, hostname: Seq<char>)
    ensures
        tab_title(label, hostname) is Some <==> !text::is_blank(label) && !text::is_blank(hostname),
        tab_title(label, hostname) matches Some(title) ==> {
            let n = text::trimmed(label).len() as int;
            &&& title.take(n) == text::trimmed(label)
            &&& title.skip(n + 3) == text::trimmed(hostname)
            &&& title.subrange(n, n + 3) == seq![' ', '\u{b7}', ' ']
        },
{
    reveal_strlit(" \u{b7} ");
    if let Some(title) = tab_title(label, hostname) {
        let n = text::trimmed(label).len() as int;
        assert(title.take(n) =~= text::trimmed(label));
        assert(title.skip(n + 3) =~= text::trimmed(hostname));
        assert(title.subrange(n, n + 3) =~= seq![' ', '\u{b7}', ' ']);
    }
}

/// The message for missing fields names every one of them, quoted and in order, with a comma
/// between two.
pub proof fn law_message_names_every_missing_field(missing: Seq<Seq<char>>, next: Seq<char>)
    ensures
        debug_list(seq![]).len() == 0,
        debug_list(seq![next]) == outside::debug_text(next),
        missing.len() > 0 ==> debug_list(missing.push(next)) == debug_list(missing) + seq![',', ' ']
            + outside::debug_text(next),
        (BindingErrorView::Incomplete { missing }).message()
            == "helm tab binding incomplete (missing: ["@ + debug_list(missing) + "])"@,
{
    reveal_strlit(", ");
    assert(", "@ =~= seq![',', ' ']);
    assert(missing.push(next).drop_last() =~= missing);
}

/// The other refusals say what they are, and a mismatch names both endpoints.
pub proof fn law_refusals_say_what_they_are(existing: Seq<char>, attempted: Seq<char>)
    ensures
        BindingErrorView::AlreadyFrozen.message() == "helm tab binding already frozen"@,
        BindingErrorView::NotFrozen.message() == "helm tab binding not frozen"@,
        (BindingErrorView::EndpointMismatch { existing, attempted }).message()
            == "helm tab endpoint rebind refused (frozen="@ + existing + ", attempted="@ + attempted
            + ")"@,
{
}

/// Identity and binding are seen as they are, field by field.
pub proof fn law_binding_is_seen_as_it_is(id: EndpointIdentity, b: HelmEndpointBinding)
    ensures
        id@.endpoint_id == id.endpoint_id@,
        id@.endpoint_friendly_label == id.endpoint_friendly_label@,
        id@.endpoint_hostname == id.endpoint_hostname@,
        id@.endpoint_os == id.endpoint_os@,
        id@.helm_oz_url == id.helm_oz_url@,
        b@.identity.endpoint_id == b.endpoint_id@,
        b@.identity.endpoint_friendly_label == b.endpoint_friendly_label@,
        b@.identity.endpoint_hostname == b.endpoint_hostname@,
        b@.identity.endpoint_os == b.endpoint_os@,
        b@.identity.helm_oz_url == b.helm_oz_url@,
        b@.agent_token == b.agent_token@,
{
}

} // verus!
