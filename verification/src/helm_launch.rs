//! Where `/ai/multi-agent` requests go, and with which bearer.
//!
//! A launch flow writes `~/.config/helm/launch.json`; the routing target comes from it
//! first and from the environment second. Tabs without a binding use the environment
//! alone, so that an earlier launch never retargets them.
use crate::text;
use crate::text::as_opt_str;
use vstd::prelude::*;

verus! {

/// Environment override for the launch config path.
pub const HELM_LAUNCH_CONFIG_ENV: &'static str = "HELM_LAUNCH_CONFIG";

/// Environment variable with the helm_oz URL.
pub const HELM_OZ_URL_ENV: &'static str = "HELM_OZ_URL";

/// Environment variable with the agent bearer.
pub const HELM_OZ_BEARER_ENV: &'static str = "HELM_OZ_BEARER";

/// Default launch config location, below the home directory.
pub const DEFAULT_LAUNCH_CONFIG_REL: &'static str = ".config/helm/launch.json";

/// The launch config on disk. Every field is optional, so that a partial file loads.
#[derive(Debug, Clone, Default)]
pub struct HelmLaunchConfig {
    /// helm_oz base URL, such as `http://127.0.0.1:18080`.
    pub helm_oz_url: Option<String>,
    /// Agent token, sent to helm_oz as a bearer.
    pub agent_token: Option<String>,
    /// Bound endpoint id; for information.
    pub endpoint_id: Option<String>,
    /// Endpoint OS; for information.
    pub endpoint_os: Option<String>,
    /// Refresh token for fresh agent tokens.
    pub refresh_token: Option<String>,
    /// Portal refresh endpoint URL.
    pub refresh_url: Option<String>,
}

/// A resolved routing target.
#[derive(Debug, Clone, PartialEq, Eq)]
pub struct LaunchTarget {
    /// helm_oz base URL, without a trailing path.
    pub helm_oz_url: String,
    /// Agent bearer; without one helm_oz runs in local mode.
    pub agent_token: Option<String>,
}

/// The texts of a [`LaunchTarget`].
pub struct TargetView {
    pub helm_oz_url: Seq<char>,
    pub agent_token: Option<Seq<char>>,
}

impl View for LaunchTarget {
    type V = TargetView;

    open spec fn view(&self) -> TargetView {
        TargetView { helm_oz_url: self.helm_oz_url@, agent_token: text::opt_text(self.agent_token) }
    }
}

/// An optional target's texts.
pub open spec fn target_view(t: Option<LaunchTarget>) -> Option<TargetView> {
    match t {
        Some(t) => Some(t@),
        None => None,
    }
}

/// An optional text; blank text counts as absent, other text is kept as it is.
pub open spec fn present(o: Option<Seq<char>>) -> Option<Seq<char>> {
    match o {
        Some(s) => if text::is_blank(s) {
            None
        } else {
            Some(s)
        },
        None => None,
    }
}

/// Treats a blank text as absent.
pub fn non_blank(s: Option<&str>) -> (r: Option<&str>)
    ensures
        text::opt_str(r) == present(text::opt_str(s)),
{
    match s {
        Some(s) => if s.trim().is_empty() {
            None
        } else {
            Some(s)
        },
        None => None,
    }
}

/// Copies an optional text.
fn owned(s: Option<&str>) -> (r: Option<String>)
    ensures
        text::opt_text(r) == text::opt_str(s),
{
    match s {
        Some(s) => Some(s.to_string()),
        None => None,
    }
}

/// Where the launch config is.
#[derive(Debug, Clone, PartialEq, Eq)]
pub enum LaunchConfigPath {
    /// At this path, as the override gives it.
    Override(String),
    /// Below the home directory, at [`DEFAULT_LAUNCH_CONFIG_REL`].
    UnderHome,
}

/// Resolves the launch config path: the override when it is not blank, else the default
/// below the home directory, when there is one.
pub fn launch_config_path(override_path: Option<&str>, home_is_set: bool) -> (r: Option<
    LaunchConfigPath,
>)
    ensures
        match present(text::opt_str(override_path)) {
            Some(path) => r matches Some(LaunchConfigPath::Override(p)) && p@ == path,
            None => if home_is_set {
                r == Some(LaunchConfigPath::UnderHome)
            } else {
                r is None
            },
        },
{
    if let Some(path) = non_blank(override_path) {
        return Some(LaunchConfigPath::Override(path.to_string()));
    }
    if home_is_set {
        Some(LaunchConfigPath::UnderHome)
    } else {
        None
    }
}

/// The target that a URL and a bearer give: none without a URL.
pub open spec fn target_of(url: Option<Seq<char>>, bearer: Option<Seq<char>>) -> Option<
    TargetView,
> {
    match present(url) {
        Some(url) => Some(TargetView { helm_oz_url: url, agent_token: present(bearer) }),
        None => None,
    }
}

/// The target by precedence: the launch config when it has a URL, else the environment.
pub open spec fn preferred_target(
    config: Option<HelmLaunchConfig>,
    env_url: Option<Seq<char>>,
    env_bearer: Option<Seq<char>>,
) -> Option<TargetView> {
    match config {
        Some(c) => if present(text::opt_text(c.helm_oz_url)) is Some {
            target_of(text::opt_text(c.helm_oz_url), text::opt_text(c.agent_token))
        } else {
            target_of(env_url, env_bearer)
        },
        None => target_of(env_url, env_bearer),
    }
}

/// Resolves the routing target: the launch config first, then the environment. `None`
/// when neither names a URL; the caller then uses another backend.
pub fn launch_target(
    config: Option<HelmLaunchConfig>,
    env_url: Option<&str>,
    env_bearer: Option<&str>,
) -> (r: Option<LaunchTarget>)
    ensures
        target_view(r) == preferred_target(
            config,
            text::opt_str(env_url),
            text::opt_str(env_bearer),
        ),
{
    if let Some(cfg) = &config {
        if let Some(url) = non_blank(as_opt_str(&cfg.helm_oz_url)) {
            return Some(
                LaunchTarget {
                    helm_oz_url: url.to_string(),
                    agent_token: owned(non_blank(as_opt_str(&cfg.agent_token))),
                },
            );
        }
    }
    env_only_local_target(env_url, env_bearer)
}

/// Resolves the routing target of an unbound tab from the environment alone. The launch
/// config has no part in it.
pub fn env_only_local_target(env_url: Option<&str>, env_bearer: Option<&str>) -> (r: Option<
    LaunchTarget,
>)
    ensures
        target_view(r) == target_of(text::opt_str(env_url), text::opt_str(env_bearer)),
{
    match non_blank(env_url) {
        Some(url) => Some(
            LaunchTarget {
                helm_oz_url: url.to_string(),
                agent_token: owned(non_blank(env_bearer)),
            },
        ),
        None => None,
    }
}

/// A launch config with a URL decides alone: neither URL nor bearer comes from the
/// environment, not even when the config has no bearer.
pub proof fn law_config_with_url_ignores_environment(
    config: HelmLaunchConfig,
    env_url: Option<Seq<char>>,
    env_bearer: Option<Seq<char>>,
)
    requires
        present(text::opt_text(config.helm_oz_url)) is Some,
    ensures
        preferred_target(Some(config), env_url, env_bearer) == preferred_target(
            Some(config),
            None,
            None,
        ),
        preferred_target(Some(config), env_url, env_bearer) is Some,
{
}

/// Without a URL in the launch config, a bound and an unbound tab resolve to the same
/// target, and the config's token is not used.
pub proof fn law_config_without_url_falls_back(
    config: Option<HelmLaunchConfig>,
    env_url: Option<Seq<char>>,
    env_bearer: Option<Seq<char>>,
)
    requires
        config matches Some(c) ==> present(text::opt_text(c.helm_oz_url)) is None,
    ensures
        preferred_target(config, env_url, env_bearer) == target_of(env_url, env_bearer),
{
}

/// A text that has a character other than whitespace is present, and present as it is; any
/// other counts as absent.
pub proof fn law_present_text_is_unchanged(o: Option<Seq<char>>)
    ensures
        match o {
            Some(s) => if text::all_white(s, 0, s.len() as int) {
                present(o) is None
            } else {
                present(o) == Some(s)
            },
            None => present(o) is None,
        },
{
    if let Some(s) = o {
        text::law_blank_is_all_whitespace(s);
    }
}

/// URL and bearer of a target come from the same place, unchanged: both from the launch
/// config, or both from the environment. A bearer that is blank counts as none.
pub proof fn law_target_comes_from_one_place(
    config: Option<HelmLaunchConfig>,
    env_url: Option<Seq<char>>,
    env_bearer: Option<Seq<char>>,
)
    ensures
        ({
            let url_in_config = config matches Some(c) && c.helm_oz_url matches Some(url)
                && !text::is_blank(url@);
            let (url, bearer) = if url_in_config {
                (text::opt_text(config->0.helm_oz_url), text::opt_text(config->0.agent_token))
            } else {
                (env_url, env_bearer)
            };
            match preferred_target(config, env_url, env_bearer) {
                Some(target) => {
                    &&& url == Some(target.helm_oz_url)
                    &&& !text::is_blank(target.helm_oz_url)
                    &&& target.agent_token matches Some(token) ==> bearer == Some(token)
                        && !text::is_blank(token)
                    &&& target.agent_token is None ==> bearer is None || text::is_blank(bearer->0)
                },
                None => url is None || text::is_blank(url->0),
            }
        }),
{
}

/// What the environment alone resolves to is what a missing launch config resolves to, and
/// nothing when it has no URL.
pub proof fn law_unbound_target_is_the_environment(
    env_url: Option<Seq<char>>,
    env_bearer: Option<Seq<char>>,
)
    ensures
        target_of(env_url, env_bearer) == preferred_target(None, env_url, env_bearer),
        target_of(env_url, env_bearer) is Some <==> env_url is Some && !text::is_blank(env_url->0),
        target_of(env_url, env_bearer) matches Some(t) ==> env_url == Some(t.helm_oz_url),
{
}

/// A target is seen as it is, field by field.
pub proof fn law_target_is_seen_as_it_is(target: LaunchTarget)
    ensures
        target@.helm_oz_url == target.helm_oz_url@,
        target@.agent_token is Some <==> target.agent_token is Some,
        target.agent_token matches Some(token) ==> target@.agent_token == Some(token@),
{
}

} // verus!
