use vstd::prelude::*;

verus! {

/// The credential document: the local record of consumer identity, OAuth
/// request code and access token for one remote account.
pub struct Config {
    /// Consumer key supplied by the operator; immutable for a run.
    pub consumer_key: String,
    /// Redirect URL supplied by the operator; immutable for a run.
    pub redirect_url: String,
    /// Base URL of the remote API; immutable for a run.
    pub api_endpoint: String,
    /// Short-lived request code obtained in the first authorization step.
    pub code: Option<String>,
    /// Long-lived access token obtained by exchanging the code.
    pub token: Option<String>,
    /// User-facing authorization URL derived from the request code.
    pub auth_url: Option<String>,
    /// Cache of the outcome of the last session validation check.
    pub code_valid: Option<bool>,
}

/// Mathematical model of a credential document.
pub ghost struct ConfigModel {
    pub consumer_key: Seq<char>,
    pub redirect_url: Seq<char>,
    pub api_endpoint: Seq<char>,
    pub code: Option<Seq<char>>,
    pub token: Option<Seq<char>>,
    pub auth_url: Option<Seq<char>>,
    pub code_valid: Option<bool>,
}

impl View for Config {
    type V = ConfigModel;

    open spec fn view(&self) -> ConfigModel {
        ConfigModel {
            consumer_key: self.consumer_key@,
            redirect_url: self.redirect_url@,
            api_endpoint: self.api_endpoint@,
            code: self.code.deep_view(),
            token: self.token.deep_view(),
            auth_url: self.auth_url.deep_view(),
            code_valid: self.code_valid,
        }
    }
}

/// The user-facing authorization URL derived from a request code and the
/// operator's redirect URL.
pub open spec fn auth_url_spec(code: Seq<char>, redirect_url: Seq<char>) -> Seq<char> {
    "https://getpocket.com/auth/authorize?request_token="@ + code + "&redirect_uri="@
        + redirect_url
}

impl ConfigModel {
    /// A document is well formed when the stored authorization URL, if any,
    /// is the one derived from the stored request code.
    pub open spec fn wf(self) -> bool {
        (self.auth_url is Some && self.code is Some) ==> self.auth_url->0 == auth_url_spec(
            self.code->0,
            self.redirect_url,
        )
    }
}

/// Builds the authorization URL the operator must open in a browser.
pub fn build_auth_url(code: &String, redirect_url: &String) -> (r: String)
    ensures
        r@ == auth_url_spec(code@, redirect_url@),
{
    let mut r = String::new();
    r.append("https://getpocket.com/auth/authorize?request_token=");
    r.append(code.as_str());
    r.append("&redirect_uri=");
    r.append(redirect_url.as_str());
    proof {
        assert(r@ =~= auth_url_spec(code@, redirect_url@));
    }
    r
}

/// Decides well-formedness of a loaded document: a stored authorization URL,
/// if any, must be the one derived from the stored request code.
pub fn config_wf(config: &Config) -> (r: bool)
    ensures
        r == config@.wf(),
{
    match (&config.code, &config.auth_url) {
        (Option::Some(code), Option::Some(url)) => {
            let derived = build_auth_url(code, &config.redirect_url);
            *url == derived
        },
        _ => true,
    }
}

} // verus!
