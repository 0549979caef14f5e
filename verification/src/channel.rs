//! Release channels: what each one is called, which URL schemes it claims and whether it
//! honors overrides of the server URL.
use crate::helm_warp;
use crate::text;
use vstd::prelude::*;

verus! {

#[derive(Clone, Copy, Debug, PartialEq, Eq, Structural)]
pub enum Channel {
    /// The official stable release.
    Stable,
    /// The official feature preview release.
    Preview,
    /// The internal-only nightly build.
    Dev,
    /// The internal-only build of the newest commit.
    Local,
    /// The open-source build.
    Oss,
    /// The integration test build.
    Integration,
}

impl Channel {
    /// The channels for internal use only.
    pub open spec fn is_internal(self) -> bool {
        self == Channel::Dev || self == Channel::Local
    }

    /// The channels that ship to users.
    pub open spec fn is_release(self) -> bool {
        self == Channel::Stable || self == Channel::Preview || self == Channel::Oss
    }

    /// The channels that honor overrides of the server URL.
    pub open spec fn honors_overrides(self) -> bool {
        self == Channel::Dev || self == Channel::Local || self == Channel::Integration
    }

    /// Whether this channel is for internal use only.
    pub fn is_dogfood(&self) -> (r: bool)
        ensures
            r == self.is_internal(),
    {
        match self {
            Channel::Dev | Channel::Local => true,
            Channel::Stable | Channel::Preview | Channel::Integration | Channel::Oss => false,
        }
    }

    /// Whether this channel honors overrides of its server URLs by flag or environment.
    ///
    /// Release channels ignore them, so that a shipped build cannot be redirected away
    /// from the servers it was built for.
    pub fn allows_server_url_overrides(&self) -> (r: bool)
        ensures
            r == self.honors_overrides(),
    {
        match self {
            Channel::Dev | Channel::Local | Channel::Integration => true,
            Channel::Stable | Channel::Preview | Channel::Oss => false,
        }
    }

    /// The name of the channel's command line program.
    pub open spec fn command_name(self) -> Seq<char> {
        match self {
            Channel::Stable => "oz"@,
            Channel::Dev => "oz-dev"@,
            Channel::Preview => "oz-preview"@,
            Channel::Local => "oz-local"@,
            Channel::Integration => "oz-integration"@,
            Channel::Oss => "warp-oss"@,
        }
    }

    /// Returns the name of the channel's command line program.
    pub fn cli_command_name(&self) -> (r: &'static str)
        ensures
            r@ == self.command_name(),
    {
        match self {
            Channel::Stable => "oz",
            Channel::Dev => "oz-dev",
            Channel::Preview => "oz-preview",
            Channel::Local => "oz-local",
            Channel::Integration => "oz-integration",
            Channel::Oss => "warp-oss",
        }
    }

    /// The channel's primary URL scheme.
    pub open spec fn scheme(self) -> Seq<char> {
        match self {
            Channel::Stable => "warp"@,
            Channel::Preview => "warppreview"@,
            Channel::Dev => "warpdev"@,
            Channel::Local => "warplocal"@,
            Channel::Oss => "warposs"@,
            Channel::Integration => "warpintegration"@,
        }
    }

    /// Returns the channel's primary URL scheme.
    pub fn url_scheme(&self) -> (r: &'static str)
        ensures
            r@ == self.scheme(),
    {
        match self {
            Channel::Stable => "warp",
            Channel::Preview => "warppreview",
            Channel::Dev => "warpdev",
            Channel::Local => "warplocal",
            Channel::Oss => "warposs",
            // Integration tests install no URL handler; the string only has to be there.
            Channel::Integration => "warpintegration",
        }
    }

    /// All URL schemes that the channel claims: its own first, and for the local build
    /// the Helm-Warp scheme too.
    pub open spec fn schemes(self) -> Seq<Seq<char>> {
        if self == Channel::Local {
            seq![self.scheme(), helm_warp::SCHEME@]
        } else {
            seq![self.scheme()]
        }
    }

    /// Returns all URL schemes that the channel wants handlers for. The primary scheme
    /// always comes first. Only the local build also claims the Helm-Warp scheme, which
    /// is reserved for the internal launch flow.
    pub fn url_schemes(&self) -> (r: &'static [&'static str])
        ensures
            text::strs(r@) == self.schemes(),
    {
        let r: &'static [&'static str] = match self {
            Channel::Local => &["warplocal", helm_warp::SCHEME],
            Channel::Stable => &["warp"],
            Channel::Preview => &["warppreview"],
            Channel::Dev => &["warpdev"],
            Channel::Oss => &["warposs"],
            Channel::Integration => &["warpintegration"],
        };
        assert(text::strs(r@) =~= self.schemes());
        r
    }

    /// The channel's name.
    pub open spec fn name(self) -> Seq<char> {
        match self {
            Channel::Stable => "stable"@,
            Channel::Preview => "preview"@,
            Channel::Dev => "dev"@,
            Channel::Integration => "integration"@,
            Channel::Local => "local"@,
            Channel::Oss => "warp-oss"@,
        }
    }

    /// Returns the channel's name.
    pub fn display_name(&self) -> (r: &'static str)
        ensures
            r@ == self.name(),
    {
        match self {
            Channel::Stable => "stable",
            Channel::Preview => "preview",
            Channel::Dev => "dev",
            Channel::Integration => "integration",
            Channel::Local => "local",
            Channel::Oss => "warp-oss",
        }
    }
}

/// The literal texts of this module, character by character.
proof fn reveal_schemes()
    ensures
        forall|c: Channel| #[trigger]
            c.scheme().len() == match c {
                Channel::Stable => 4nat,
                Channel::Preview => 11,
                Channel::Dev => 7,
                Channel::Local => 9,
                Channel::Oss => 7,
                Channel::Integration => 15,
            },
        Channel::Dev.scheme()[4] == 'd',
        Channel::Oss.scheme()[4] == 'o',
        Channel::Local.scheme()[0] == 'w',
        helm_warp::SCHEME@.len() == 9,
        helm_warp::SCHEME@[0] == 'h',
{
    reveal_strlit("warp");
    reveal_strlit("warppreview");
    reveal_strlit("warpdev");
    reveal_strlit("warplocal");
    reveal_strlit("warposs");
    reveal_strlit("warpintegration");
    reveal_strlit("helm-warp");
}

/// The first scheme that a channel claims is its primary one.
pub proof fn law_primary_scheme_comes_first(channel: Channel)
    ensures
        channel.schemes().len() > 0,
        channel.schemes()[0] == channel.scheme(),
{
}

/// The Helm-Warp scheme is claimed by the local build and by no other channel.
pub proof fn law_only_local_claims_helm_warp(channel: Channel)
    ensures
        channel.schemes().contains(helm_warp::SCHEME@) <==> channel == Channel::Local,
{
    reveal_schemes();
    if channel == Channel::Local {
        assert(channel.schemes()[1] == helm_warp::SCHEME@);
    }
}

/// No two channels claim the same scheme, so a URL always opens one build.
pub proof fn law_channels_claim_distinct_schemes(a: Channel, b: Channel, scheme: Seq<char>)
    requires
        a.schemes().contains(scheme),
        b.schemes().contains(scheme),
    ensures
        a == b,
{
    reveal_schemes();
    assert(scheme == a.scheme() || (a == Channel::Local && scheme == helm_warp::SCHEME@));
    assert(scheme == b.scheme() || (b == Channel::Local && scheme == helm_warp::SCHEME@));
    if a != b {
        assert(a.scheme().len() == scheme.len() && b.scheme().len() == scheme.len());
    }
}

/// Release channels ignore overrides of the server URL; every internal-only channel
/// honors them.
pub proof fn law_release_channels_ignore_overrides(channel: Channel)
    ensures
        channel.is_release() ==> !channel.honors_overrides(),
        channel.is_internal() ==> channel.honors_overrides(),
{
}

/// Name, scheme and command of a channel belong together: apart from the stable and the
/// open-source build, the scheme is `warp` and the name, and the command is `oz-` and the
/// name.
pub proof fn law_names_schemes_and_commands_agree(channel: Channel)
    ensures
        channel != Channel::Stable && channel != Channel::Oss ==> channel.scheme() == "warp"@
            + channel.name() && channel.command_name() == "oz-"@ + channel.name(),
        channel == Channel::Stable ==> channel.scheme() == "warp"@ && channel.command_name()
            == "oz"@ && channel.name() == "stable"@,
        channel == Channel::Oss ==> channel.scheme() == "warposs"@ && channel.command_name()
            == "warp-oss"@ && channel.name() == "warp-oss"@,
{
    reveal_strlit("warp");
    reveal_strlit("oz-");
    reveal_strlit("preview");
    reveal_strlit("dev");
    reveal_strlit("local");
    reveal_strlit("integration");
    reveal_strlit("warppreview");
    reveal_strlit("warpdev");
    reveal_strlit("warplocal");
    reveal_strlit("warpintegration");
    reveal_strlit("oz-preview");
    reveal_strlit("oz-dev");
    reveal_strlit("oz-local");
    reveal_strlit("oz-integration");
    assert("warppreview"@ =~= "warp"@ + "preview"@);
    assert("warpdev"@ =~= "warp"@ + "dev"@);
    assert("warplocal"@ =~= "warp"@ + "local"@);
    assert("warpintegration"@ =~= "warp"@ + "integration"@);
    assert("oz-preview"@ =~= "oz-"@ + "preview"@);
    assert("oz-dev"@ =~= "oz-"@ + "dev"@);
    assert("oz-local"@ =~= "oz-"@ + "local"@);
    assert("oz-integration"@ =~= "oz-"@ + "integration"@);
}

/// Every channel is a release, an internal build or the test build, and only one of them;
/// all but the releases honor overrides.
pub proof fn law_channels_fall_into_three_kinds(channel: Channel)
    ensures
        channel.is_internal() <==> channel == Channel::Dev || channel == Channel::Local,
        channel.honors_overrides() <==> channel.is_internal() || channel == Channel::Integration,
        channel.is_release() <==> !channel.honors_overrides(),
{
}

} // verus!
