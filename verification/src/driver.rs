use vstd::prelude::*;

use crate::api::{
    link_list_payload, link_list_request, request_code_payload, request_code_request,
    request_token_payload, request_token_request,
};
use crate::auth::{
    apply_request_code, apply_request_token, apply_validation, authorize_app, code_is_valid,
    session_usable,
};
use crate::config::{auth_url_spec, Config, ConfigModel};
use crate::SyncError;

verus! {

/// Where the driver stands in one authorization-or-sync run.
#[derive(Clone, Copy, PartialEq, Eq, Structural, Debug)]
pub enum Phase {
    /// The run has started; the session is to be validated first.
    Validate,
    /// A validation probe of the authorization URL is in flight.
    AwaitValidation,
    /// A request-code exchange is in flight.
    AwaitCode,
    /// The operator is authorizing the application in a browser.
    AwaitUser,
    /// A token exchange is in flight.
    AwaitToken,
    /// The refreshed document is being persisted.
    AwaitPersist,
    /// The link sync pipeline is running.
    AwaitLinks,
    /// The run completed.
    Done,
    /// A transport or decode failure aborted the run.
    Failed,
}

/// What the world reports back to the driver.
pub enum Event {
    /// The run begins.
    Started,
    /// Outcome of the validation probe: whether the response was successful,
    /// or the transport failure that kept it from an answer.
    ValidationChecked(Result<bool, SyncError>),
    /// The code-issuance response: the request code, or the transport or
    /// decode failure that kept it from one.
    CodeReceived(Result<String, SyncError>),
    /// The operator confirmed the browser authorization.
    UserConfirmed,
    /// The token-exchange response: the access token, or the transport or
    /// decode failure that kept it from one.
    TokenReceived(Result<String, SyncError>),
    /// Whether the document reached disk.
    Persisted(bool),
    /// Whether the link sync pipeline succeeded.
    LinksSynced(bool),
}

/// The model of an event.
pub ghost enum EventModel {
    Started,
    ValidationChecked(Result<bool, SyncError>),
    CodeReceived(Result<Seq<char>, SyncError>),
    UserConfirmed,
    TokenReceived(Result<Seq<char>, SyncError>),
    Persisted(bool),
    LinksSynced(bool),
}

impl View for Event {
    type V = EventModel;

    open spec fn view(&self) -> EventModel {
        match self {
            Event::Started => EventModel::Started,
            Event::ValidationChecked(o) => EventModel::ValidationChecked(*o),
            Event::CodeReceived(o) => EventModel::CodeReceived(
                match o {
                    Result::Ok(s) => Result::Ok(s@),
                    Result::Err(e) => Result::Err(*e),
                },
            ),
            Event::UserConfirmed => EventModel::UserConfirmed,
            Event::TokenReceived(o) => EventModel::TokenReceived(
                match o {
                    Result::Ok(s) => Result::Ok(s@),
                    Result::Err(e) => Result::Err(*e),
                },
            ),
            Event::Persisted(b) => EventModel::Persisted(*b),
            Event::LinksSynced(b) => EventModel::LinksSynced(*b),
        }
    }
}

/// What the driver asks the world to do next.
pub enum Action {
    /// Probe the authorization URL with a plain GET.
    CheckAuthUrl(String),
    /// Post the payload to the code-issuance endpoint.
    SendCodeRequest(String, String),
    /// Show the authorization URL to the operator and await one line of
    /// acknowledgment.
    PresentUrl(String),
    /// Post the payload to the token-exchange endpoint.
    SendTokenRequest(String, String),
    /// Write the refreshed credential document to disk.
    PersistConfig,
    /// Post the payload to the link-listing endpoint and reconcile the
    /// fetched records into the local store.
    FetchLinks(String, String),
    /// The run is over; do nothing further.
    Stop,
}

/// The model of an action.
pub ghost enum ActionModel {
    CheckAuthUrl(Seq<char>),
    SendCodeRequest(Seq<char>, Seq<char>),
    PresentUrl(Seq<char>),
    SendTokenRequest(Seq<char>, Seq<char>),
    PersistConfig,
    FetchLinks(Seq<char>, Seq<char>),
    Stop,
}

impl View for Action {
    type V = ActionModel;

    open spec fn view(&self) -> ActionModel {
        match self {
            Action::CheckAuthUrl(u) => ActionModel::CheckAuthUrl(u@),
            Action::SendCodeRequest(u, p) => ActionModel::SendCodeRequest(u@, p@),
            Action::PresentUrl(u) => ActionModel::PresentUrl(u@),
            Action::SendTokenRequest(u, p) => ActionModel::SendTokenRequest(u@, p@),
            Action::PersistConfig => ActionModel::PersistConfig,
            Action::FetchLinks(u, p) => ActionModel::FetchLinks(u@, p@),
            Action::Stop => ActionModel::Stop,
        }
    }
}

/// Which events a phase can take.
pub open spec fn event_fits(phase: Phase, e: EventModel) -> bool {
    match phase {
        Phase::Validate => e is Started,
        Phase::AwaitValidation => e is ValidationChecked,
        Phase::AwaitCode => e is CodeReceived,
        Phase::AwaitUser => e is UserConfirmed,
        Phase::AwaitToken => e is TokenReceived,
        Phase::AwaitPersist => e is Persisted,
        Phase::AwaitLinks => e is LinksSynced,
        Phase::Done => false,
        Phase::Failed => false,
    }
}

/// A session can fetch links only when a code is on record, the last
/// validation found the session usable, and an access token is present.
pub open spec fn can_sync(c: ConfigModel) -> bool {
    session_usable(c) && c.token is Some
}

/// The driver's transition relation: from a phase, a document and an event to
/// the next phase, the updated document and the action the world must perform.
pub open spec fn step_model(phase: Phase, c: ConfigModel, e: EventModel) -> (
    Phase,
    ConfigModel,
    ActionModel,
) {
    match (phase, e) {
        (Phase::Validate, EventModel::Started) => {
            if c.auth_url is Some {
                (Phase::AwaitValidation, c, ActionModel::CheckAuthUrl(c.auth_url->0))
            } else {
                let c2 = ConfigModel { code_valid: Option::Some(false), ..c };
                (
                    Phase::AwaitCode,
                    c2,
                    ActionModel::SendCodeRequest(
                        c.api_endpoint + "/oauth/request"@,
                        request_code_payload(c.consumer_key, c.redirect_url),
                    ),
                )
            }
        },
        (Phase::AwaitValidation, EventModel::ValidationChecked(outcome)) => {
            match outcome {
                Result::Err(_) => (Phase::Failed, c, ActionModel::Stop),
                Result::Ok(b) => {
                    let c2 = ConfigModel { code_valid: Option::Some(b), ..c };
                    if can_sync(c2) {
                        (
                            Phase::AwaitLinks,
                            c2,
                            ActionModel::FetchLinks(
                                c2.api_endpoint + "/get"@,
                                link_list_payload(c2.consumer_key, c2.token->0),
                            ),
                        )
                    } else {
                        (
                            Phase::AwaitCode,
                            c2,
                            ActionModel::SendCodeRequest(
                                c2.api_endpoint + "/oauth/request"@,
                                request_code_payload(c2.consumer_key, c2.redirect_url),
                            ),
                        )
                    }
                },
            }
        },
        (Phase::AwaitCode, EventModel::CodeReceived(received)) => {
            match received {
                Result::Err(_) => (Phase::Failed, c, ActionModel::Stop),
                Result::Ok(code) => {
                    let url = auth_url_spec(code, c.redirect_url);
                    let c2 = ConfigModel {
                        code: Option::Some(code),
                        auth_url: Option::Some(url),
                        code_valid: Option::None,
                        ..c
                    };
                    (Phase::AwaitUser, c2, ActionModel::PresentUrl(url))
                },
            }
        },
        (Phase::AwaitUser, EventModel::UserConfirmed) => {
            (
                Phase::AwaitToken,
                c,
                ActionModel::SendTokenRequest(
                    c.api_endpoint + "/oauth/authorize"@,
                    request_token_payload(c.consumer_key, c.code->0),
                ),
            )
        },
        (Phase::AwaitToken, EventModel::TokenReceived(received)) => {
            match received {
                Result::Err(_) => (Phase::Failed, c, ActionModel::Stop),
                Result::Ok(token) => {
                    (
                        Phase::AwaitPersist,
                        ConfigModel { token: Option::Some(token), ..c },
                        ActionModel::PersistConfig,
                    )
                },
            }
        },
        (Phase::AwaitPersist, EventModel::Persisted(_)) => (Phase::Done, c, ActionModel::Stop),
        (Phase::AwaitLinks, EventModel::LinksSynced(_)) => (Phase::Done, c, ActionModel::Stop),
        _ => (Phase::Failed, c, ActionModel::Stop),
    }
}

/// A document holding a request code and an access token whose validation
/// probe succeeds sends the run straight to the link sync pipeline: the run
/// probes the authorization URL, fetches links and stops; it never requests a
/// code and never persists the document.
pub proof fn lemma_validated_token_syncs(c: ConfigModel, synced: bool)
    requires
        c.auth_url is Some,
        c.code is Some,
        c.token is Some,
    ensures
        ({
            let (p1, c1, a1) = step_model(Phase::Validate, c, EventModel::Started);
            let (p2, c2, a2) = step_model(p1, c1, EventModel::ValidationChecked(Result::Ok(true)));
            let (p3, c3, a3) = step_model(p2, c2, EventModel::LinksSynced(synced));
            &&& a1 == ActionModel::CheckAuthUrl(c.auth_url->0)
            &&& c1 == c
            &&& a2 == ActionModel::FetchLinks(
                c.api_endpoint + "/get"@,
                link_list_payload(c.consumer_key, c.token->0),
            )
            &&& c2 == (ConfigModel { code_valid: Option::Some(true), ..c })
            &&& p3 is Done
            &&& a3 is Stop
            &&& c3 == c2
            &&& !(a1 is SendCodeRequest) && !(a2 is SendCodeRequest) && !(a3 is SendCodeRequest)
            &&& !(a1 is PersistConfig) && !(a2 is PersistConfig) && !(a3 is PersistConfig)
        }),
{
}

/// From a pending code request, the refresh proceeds in order: the issued
/// code is stored and its authorization URL presented, the operator's
/// confirmation triggers the token exchange, and the document is persisted
/// exactly when the token exchange succeeds, holding the new code, its
/// authorization URL, the new token, and no cached validity.
pub proof fn lemma_code_exchange_tail(
    c: ConfigModel,
    code: Seq<char>,
    token: Result<Seq<char>, SyncError>,
    err: SyncError,
)
    ensures
        ({
            let (p1, c1, a1) = step_model(Phase::AwaitCode, c, EventModel::CodeReceived(Result::Ok(code)));
            let (p2, c2, a2) = step_model(p1, c1, EventModel::UserConfirmed);
            let (p3, c3, a3) = step_model(p2, c2, EventModel::TokenReceived(token));
            &&& a1 == ActionModel::PresentUrl(auth_url_spec(code, c.redirect_url))
            &&& c1 == (ConfigModel {
                code: Option::Some(code),
                auth_url: Option::Some(auth_url_spec(code, c.redirect_url)),
                code_valid: Option::None,
                ..c
            })
            &&& a2 == ActionModel::SendTokenRequest(
                c.api_endpoint + "/oauth/authorize"@,
                request_token_payload(c.consumer_key, code),
            )
            &&& c2 == c1
            &&& (token matches Ok(t) ==> a3 is PersistConfig && p3 is AwaitPersist && c3 == (
            ConfigModel { token: Option::Some(t), ..c1 }))
            &&& (token is Err ==> a3 is Stop && p3 is Failed && c3 == c1)
        }),
        step_model(Phase::AwaitCode, c, EventModel::CodeReceived(Result::Err(err))).2 is Stop,
        step_model(Phase::AwaitCode, c, EventModel::CodeReceived(Result::Err(err))).0 is Failed,
{
}

/// A document with no request code, or whose validation probe finds the
/// session unusable, sends the run to the code request first: the step after
/// validation is the code-issuance request, never the link fetch.
pub proof fn lemma_unusable_session_requests_code(c: ConfigModel, probe: bool)
    requires
        !can_sync(ConfigModel { code_valid: Option::Some(probe), ..c }),
    ensures
        ({
            let (p1, c1, a1) = step_model(Phase::Validate, c, EventModel::Started);
            &&& c.auth_url is None ==> (a1 == ActionModel::SendCodeRequest(
                c.api_endpoint + "/oauth/request"@,
                request_code_payload(c.consumer_key, c.redirect_url),
            ) && p1 is AwaitCode && c1 == (ConfigModel { code_valid: Option::Some(false), ..c }))
            &&& c.auth_url is Some ==> {
                let (p2, c2, a2) = step_model(p1, c1, EventModel::ValidationChecked(Result::Ok(probe)));
                &&& a2 == ActionModel::SendCodeRequest(
                    c.api_endpoint + "/oauth/request"@,
                    request_code_payload(c.consumer_key, c.redirect_url),
                )
                &&& p2 is AwaitCode
                &&& c2 == (ConfigModel { code_valid: Option::Some(probe), ..c })
            }
        }),
{
}

/// One authorization-or-sync run over one credential document.
pub struct Driver {
    pub phase: Phase,
    pub config: Config,
}

impl Driver {
    /// The driver's invariant: the document stays well formed, and each
    /// in-flight phase has the fields its next step reads.
    pub open spec fn inv(self) -> bool {
        &&& self.config@.wf()
        &&& (self.phase is AwaitUser || self.phase is AwaitToken) ==> self.config@.code is Some
        &&& self.phase is AwaitLinks ==> self.config@.token is Some
    }

    /// Begins a run over a loaded credential document.
    pub fn new(config: Config) -> (d: Driver)
        requires
            config@.wf(),
        ensures
            d.phase is Validate,
            d.config@ == config@,
            d.inv(),
    {
        Driver { phase: Phase::Validate, config }
    }

    /// Takes one step of the run: consumes the event the world reported and
    /// says what to do next, exactly as the transition relation prescribes.
    pub fn step(&mut self, event: Event) -> (a: Action)
        requires
            old(self).inv(),
            event_fits(old(self).phase, event@),
        ensures
            final(self).inv(),
            final(self).phase == step_model(old(self).phase, old(self).config@, event@).0,
            final(self).config@ == step_model(old(self).phase, old(self).config@, event@).1,
            a@ == step_model(old(self).phase, old(self).config@, event@).2,
    {
        match (self.phase, event) {
            (Phase::Validate, Event::Started) => {
                match code_is_valid(&mut self.config) {
                    Option::Some(url) => {
                        self.phase = Phase::AwaitValidation;
                        Action::CheckAuthUrl(url)
                    },
                    Option::None => {
                        self.phase = Phase::AwaitCode;
                        let (url, payload) = request_code_request(&self.config);
                        Action::SendCodeRequest(url, payload)
                    },
                }
            },
            (Phase::AwaitValidation, Event::ValidationChecked(outcome)) => {
                match outcome {
                    Result::Err(_) => {
                        self.phase = Phase::Failed;
                        Action::Stop
                    },
                    Result::Ok(b) => {
                        apply_validation(&mut self.config, Option::Some(b));
                        let has_token = self.config.token.is_some();
                        let has_code = self.config.code.is_some();
                        if b && has_code && has_token {
                            self.phase = Phase::AwaitLinks;
                            let (url, payload) = link_list_request(&self.config);
                            Action::FetchLinks(url, payload)
                        } else {
                            self.phase = Phase::AwaitCode;
                            let (url, payload) = request_code_request(&self.config);
                            Action::SendCodeRequest(url, payload)
                        }
                    },
                }
            },
            (Phase::AwaitCode, Event::CodeReceived(received)) => {
                match received {
                    Result::Err(_) => {
                        self.phase = Phase::Failed;
                        Action::Stop
                    },
                    Result::Ok(code) => {
                        apply_request_code(&mut self.config, code);
                        let url = authorize_app(&mut self.config);
                        self.phase = Phase::AwaitUser;
                        Action::PresentUrl(url)
                    },
                }
            },
            (Phase::AwaitUser, Event::UserConfirmed) => {
                self.phase = Phase::AwaitToken;
                let (url, payload) = request_token_request(&self.config);
                Action::SendTokenRequest(url, payload)
            },
            (Phase::AwaitToken, Event::TokenReceived(received)) => {
                match received {
                    Result::Err(_) => {
                        self.phase = Phase::Failed;
                        Action::Stop
                    },
                    Result::Ok(token) => {
                        apply_request_token(&mut self.config, token);
                        self.phase = Phase::AwaitPersist;
                        Action::PersistConfig
                    },
                }
            },
            (Phase::AwaitPersist, Event::Persisted(_)) => {
                self.phase = Phase::Done;
                Action::Stop
            },
            (Phase::AwaitLinks, Event::LinksSynced(_)) => {
                self.phase = Phase::Done;
                Action::Stop
            },
            _ => {
                self.phase = Phase::Failed;
                Action::Stop
            },
        }
    }
}

} // verus!
