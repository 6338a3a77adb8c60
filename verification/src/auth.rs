use vstd::prelude::*;

use crate::config::{auth_url_spec, build_auth_url, Config, ConfigModel};

verus! {

/// Stores a freshly issued request code. The cached validation outcome and
/// the stored authorization URL referred to the previous code, so both are
/// cleared: the authorization URL must always match the current code.
pub fn apply_request_code(config: &mut Config, code: String)
    ensures
        final(config)@ == (ConfigModel {
            code: Option::Some(code@),
            auth_url: Option::None,
            code_valid: Option::None,
            ..old(config)@
        }),
        final(config)@.wf(),
{
    config.code = Option::Some(code);
    config.auth_url = Option::None;
    config.code_valid = Option::None;
}

/// Builds the user-facing authorization URL from the stored request code and
/// records it in the document. The operator acknowledgment that follows is
/// the caller's concern; this step itself makes no network call.
pub fn authorize_app(config: &mut Config) -> (url: String)
    requires
        old(config).code is Some,
    ensures
        url@ == auth_url_spec(old(config)@.code->0, old(config)@.redirect_url),
        final(config)@ == (ConfigModel { auth_url: Option::Some(url@), ..old(config)@ }),
        final(config)@.wf(),
{
    let url = match &config.code {
        Option::Some(code) => build_auth_url(code, &config.redirect_url),
        Option::None => String::new(),  // unreachable under the precondition
    };
    config.auth_url = Option::Some(url.clone());
    url
}

/// Stores a freshly exchanged access token.
pub fn apply_request_token(config: &mut Config, token: String)
    ensures
        final(config)@ == (ConfigModel { token: Option::Some(token@), ..old(config)@ }),
{
    config.token = Option::Some(token);
}

/// Begins session validation. With no authorization URL on record the session
/// is recorded invalid at once and no network target is produced; otherwise
/// the URL to probe is returned and the document is left untouched.
pub fn code_is_valid(config: &mut Config) -> (target: Option<String>)
    ensures
        old(config)@.auth_url is None ==> target is None && final(config)@ == (ConfigModel {
            code_valid: Option::Some(false),
            ..old(config)@
        }),
        old(config)@.auth_url is Some ==> (target matches Some(u) && u@ == old(
            config,
        )@.auth_url->0 && final(config)@ == old(config)@),
        old(config)@.wf() ==> final(config)@.wf(),
{
    match &config.auth_url {
        Option::Some(url) => Option::Some(url.clone()),
        Option::None => {
            config.code_valid = Option::Some(false);
            Option::None
        },
    }
}

/// Records the outcome of a network validation probe: a reached endpoint
/// stores whether the response was successful; a transport failure leaves the
/// document untouched.
pub fn apply_validation(config: &mut Config, outcome: Option<bool>)
    ensures
        outcome matches Some(b) ==> final(config)@ == (ConfigModel {
            code_valid: Option::Some(b),
            ..old(config)@
        }),
        outcome is None ==> final(config)@ == old(config)@,
        old(config)@.wf() ==> final(config)@.wf(),
{
    match outcome {
        Option::Some(b) => {
            config.code_valid = Option::Some(b);
        },
        Option::None => {},
    }
}

/// The dispatch test: the link sync pipeline runs only when a request code is
/// on record and the last validation found the session usable.
pub open spec fn session_usable(c: ConfigModel) -> bool {
    c.code is Some && c.code_valid == Option::Some(true)
}

/// Decides, from the validated document, whether this run syncs links or
/// refreshes the authorization.
pub fn dispatch_to_sync(config: &Config) -> (sync: bool)
    ensures
        sync == session_usable(config@),
{
    match (&config.code, &config.code_valid) {
        (Option::Some(_), Option::Some(v)) => *v,
        _ => false,
    }
}

} // verus!
