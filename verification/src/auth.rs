//! Tokens of the identity service, and where and how they are exchanged.
use vstd::prelude::*;
use vstd::string::*;

verus! {

/// A long-lived token.
#[derive(Debug, Clone, PartialEq, Eq)]
pub struct RefreshToken {
    token: String,
}

impl View for RefreshToken {
    type V = Seq<char>;

    closed spec fn view(&self) -> Seq<char> {
        self.token@
    }
}

impl RefreshToken {
    pub fn new(token: String) -> (r: Self)
        ensures
            r@ == token@,
    {
        RefreshToken { token }
    }

    pub fn get(&self) -> (r: &str)
        ensures
            r@ == self@,
    {
        self.token.as_str()
    }
}

/// A token that an access token can be had for.
#[derive(Debug, Clone, PartialEq, Eq)]
pub enum FirebaseToken {
    /// A custom token, minted at login.
    Custom(String),
    /// A refresh token of an earlier login.
    Refresh(RefreshToken),
}

impl FirebaseToken {
    /// The endpoint of the identity service that takes the token, up to the API key.
    pub open spec fn endpoint(self) -> Seq<char> {
        match self {
            FirebaseToken::Custom(_) =>
                "https://identitytoolkit.googleapis.com/v1/accounts:signInWithCustomToken?key="@,
            FirebaseToken::Refresh(_) => "https://securetoken.googleapis.com/v1/token?key="@,
        }
    }

    /// The URL to get an access token from.
    pub fn access_token_url(&self, api_key: &str) -> (r: String)
        ensures
            r@ == self.endpoint() + api_key@,
    {
        let mut out = match self {
            FirebaseToken::Custom(_) =>
                "https://identitytoolkit.googleapis.com/v1/accounts:signInWithCustomToken?key=".to_string(),
            FirebaseToken::Refresh(_) =>
                "https://securetoken.googleapis.com/v1/token?key=".to_string(),
        };
        out.append(api_key);
        out
    }

    /// The fields of the request for an access token.
    pub open spec fn body(self) -> Seq<(Seq<char>, Seq<char>)> {
        match self {
            FirebaseToken::Custom(token) => seq![
                ("returnSecureToken"@, "true"@),
                ("token"@, token@),
            ],
            FirebaseToken::Refresh(token) => seq![
                ("grant_type"@, "refresh_token"@),
                ("refresh_token"@, token@),
            ],
        }
    }

    /// The form fields of the request for an access token.
    pub fn access_token_request_body(&self) -> (r: Vec<(&str, &str)>)
        ensures
            field_texts(r@) == self.body(),
    {
        let mut out: Vec<(&str, &str)> = Vec::new();
        match self {
            FirebaseToken::Custom(token) => {
                out.push(("returnSecureToken", "true"));
                out.push(("token", token.as_str()));
            },
            FirebaseToken::Refresh(token) => {
                out.push(("grant_type", "refresh_token"));
                out.push(("refresh_token", token.get()));
            },
        }
        assert(field_texts(out@) =~= self.body());
        out
    }

    /// The path of the proxy that takes the token, up to the API key.
    pub open spec fn proxy_path(self) -> Seq<char> {
        match self {
            FirebaseToken::Custom(_) => "/proxy/customToken?key="@,
            FirebaseToken::Refresh(_) => "/proxy/token?key="@,
        }
    }

    /// The URL to get an access token from, through the server's proxy.
    pub fn proxy_url(&self, server_root_url: &str, api_key: &str) -> (r: String)
        ensures
            r@ == server_root_url@ + self.proxy_path() + api_key@,
    {
        let mut out = server_root_url.to_string();
        match self {
            FirebaseToken::Custom(_) => {
                out.append("/proxy/customToken?key=");
            },
            FirebaseToken::Refresh(_) => {
                out.append("/proxy/token?key=");
            },
        }
        out.append(api_key);
        out
    }
}

/// The texts of a list of fields.
pub open spec fn field_texts(v: Seq<(&str, &str)>) -> Seq<(Seq<char>, Seq<char>)> {
    v.map_values(|f: (&str, &str)| (f.0@, f.1@))
}

/// The token itself goes into the body, unchanged and last, and never into a URL; the other
/// field says what kind of token it is.
pub proof fn law_body_carries_the_token(custom: String, refresh: RefreshToken)
    ensures
        FirebaseToken::Custom(custom).body().last() == ("token"@, custom@),
        FirebaseToken::Custom(custom).body().first() == ("returnSecureToken"@, "true"@),
        FirebaseToken::Refresh(refresh).body().last() == ("refresh_token"@, refresh@),
        FirebaseToken::Refresh(refresh).body().first() == ("grant_type"@, "refresh_token"@),
        FirebaseToken::Custom(custom).body().len() == 2,
        FirebaseToken::Refresh(refresh).body().len() == 2,
{
}

/// Where a token is exchanged depends on its kind alone, not on the token.
pub proof fn law_urls_depend_on_the_kind_of_token(
    custom: String,
    other_custom: String,
    refresh: RefreshToken,
    other_refresh: RefreshToken,
)
    ensures
        FirebaseToken::Custom(custom).endpoint() == FirebaseToken::Custom(other_custom).endpoint(),
        FirebaseToken::Custom(custom).proxy_path() == FirebaseToken::Custom(
            other_custom,
        ).proxy_path(),
        FirebaseToken::Refresh(refresh).endpoint() == FirebaseToken::Refresh(
            other_refresh,
        ).endpoint(),
        FirebaseToken::Refresh(refresh).proxy_path() == FirebaseToken::Refresh(
            other_refresh,
        ).proxy_path(),
{
}

} // verus!
