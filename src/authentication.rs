//! The login handshake with the portal, as a state machine driven by its caller.

use vstd::prelude::*;

use crate::error::AuthError;
use crate::text::{contains, contains_text};

verus! {

/// Opens an anonymous session with the portal.
pub const AUTH_URL1: &'static str =
    "https://api.librus.pl/OAuth/Authorization?client_id=46&response_type=code&scope=mydata";

/// Takes the login form.
pub const AUTH_URL2: &'static str = "https://api.librus.pl/OAuth/Authorization?client_id=46";

/// Confirms the authorization.
pub const GRANT_URL: &'static str = "https://api.librus.pl/OAuth/Authorization/Grant?client_id=46";

/// Sets the cookies that the messaging service asks for.
pub const MSG_URL: &'static str = "https://synergia.librus.pl/wiadomosci3";

/// How a request is sent.
#[derive(Debug, Clone, Copy, PartialEq, Eq, Structural)]
pub enum HttpMethod {
    Get,
    /// A POST whose body is the form, URL-encoded.
    PostForm,
}

/// A request for the transport to send, with the session's cookies.
#[derive(Debug, Clone)]
pub struct HttpRequest {
    pub method: HttpMethod,
    pub url: String,
    /// The form fields of a `PostForm` request, in order.
    pub form: Vec<(String, String)>,
}

/// The text of each form field, in order.
pub open spec fn form_view(form: Seq<(String, String)>) -> Seq<(Seq<char>, Seq<char>)> {
    form.map_values(|f: (String, String)| (f.0@, f.1@))
}

/// What became of a request.
#[derive(Debug, Clone)]
pub enum HttpOutcome {
    /// The portal could not be reached, or its answer could not be read.
    Unreachable,
    /// The portal answered; `success` says whether the status was a success (2xx).
    Response { success: bool, body: String },
}

/// Which request of the handshake is under way.
#[derive(Debug, Clone, Copy, PartialEq, Eq, Structural)]
pub enum AuthStage {
    /// The anonymous session is being opened.
    Anonymous,
    /// The credentials have been sent.
    Credentials,
    /// The grant is being confirmed.
    Grant,
    /// The messaging service's cookies are being fetched.
    MessagesSession,
    /// The handshake is over.
    Finished,
}

/// What the caller does next.
#[derive(Debug)]
pub enum AuthAction {
    /// Send this request and hand its outcome back.
    Send(HttpRequest),
    /// The handshake is over, with this result.
    Done(Result<(), AuthError>),
}

/// The login handshake: four requests in a fixed order, each one depending on the
/// cookies that the previous ones set.
#[derive(Debug)]
pub struct LoginFlow {
    stage: AuthStage,
    username: String,
    password: String,
}

/// What the handshake does next, from `stage`, when the request under way ends with
/// `outcome`: whether `action` and `next` are it. `user` and `pass` are the
/// credentials, sent with the second request.
pub open spec fn step_matches(
    stage: AuthStage,
    user: Seq<char>,
    pass: Seq<char>,
    outcome: HttpOutcome,
    action: AuthAction,
    next: AuthStage,
) -> bool {
    match outcome {
        HttpOutcome::Unreachable => next == AuthStage::Finished && action == AuthAction::Done(
            Err(AuthError::Connectivity),
        ),
        HttpOutcome::Response { success, body } => match stage {
            AuthStage::Anonymous => {
                &&& next == AuthStage::Credentials
                &&& action matches AuthAction::Send(req)
                &&& req.method == HttpMethod::PostForm
                &&& req.url@ == AUTH_URL2@
                &&& form_view(req.form@) == seq![
                    ("action"@, "login"@),
                    ("login"@, user),
                    ("pass"@, pass),
                ]
            },
            AuthStage::Credentials => if success {
                &&& next == AuthStage::Grant
                &&& action matches AuthAction::Send(req)
                &&& req.method == HttpMethod::Get
                &&& req.url@ == GRANT_URL@
                &&& req.form@.len() == 0
            } else {
                next == AuthStage::Finished && action == AuthAction::Done(
                    Err(AuthError::InvalidCredentials),
                )
            },
            AuthStage::Grant => if contains_text(body@, "error"@) {
                &&& next == AuthStage::Finished
                &&& action matches AuthAction::Done(Err(AuthError::GrantDenied(b)))
                &&& b@ == body@
            } else {
                &&& next == AuthStage::MessagesSession
                &&& action matches AuthAction::Send(req)
                &&& req.method == HttpMethod::Get
                &&& req.url@ == MSG_URL@
                &&& req.form@.len() == 0
            },
            AuthStage::MessagesSession => next == AuthStage::Finished && action
                == AuthAction::Done(Ok(())),
            AuthStage::Finished => false,
        },
    }
}

/// A GET of `url`.
fn get_request(url: &str) -> (r: HttpRequest)
    ensures
        r.method == HttpMethod::Get,
        r.url@ == url@,
        r.form@.len() == 0,
{
    HttpRequest { method: HttpMethod::Get, url: url.to_string(), form: Vec::new() }
}

/// Starts the handshake for `username` and `password`: the flow, and the first request
/// to send.
pub fn authenticate(username: &str, password: &str) -> (r: (LoginFlow, HttpRequest))
    ensures
        r.0.wf(),
        r.0.stage() == AuthStage::Anonymous,
        r.0.username() == username@,
        r.0.password() == password@,
        r.1.method == HttpMethod::Get,
        r.1.url@ == AUTH_URL1@,
        r.1.form@.len() == 0,
{
    let flow = LoginFlow {
        stage: AuthStage::Anonymous,
        username: username.to_string(),
        password: password.to_string(),
    };
    (flow, get_request(AUTH_URL1))
}

impl LoginFlow {
    /// Which request of the handshake is under way.
    pub closed spec fn stage(&self) -> AuthStage {
        self.stage
    }

    /// The user name still held for the login form (empty once it is sent).
    pub closed spec fn username(&self) -> Seq<char> {
        self.username@
    }

    /// The password still held for the login form (empty once it is sent).
    pub closed spec fn password(&self) -> Seq<char> {
        self.password@
    }

    /// The credentials are held only until the login form is sent.
    pub closed spec fn wf(&self) -> bool {
        self.stage != AuthStage::Anonymous ==> self.username@.len() == 0 && self.password@.len()
            == 0
    }

    /// Whether the handshake is over.
    pub fn is_finished(&self) -> (r: bool)
        ensures
            r == (self.stage() == AuthStage::Finished),
    {
        self.stage == AuthStage::Finished
    }

    /// Takes the outcome of the request under way and says what to do next. The
    /// credentials leave the flow with the request that carries them.
    pub fn advance(&mut self, outcome: HttpOutcome) -> (r: AuthAction)
        requires
            old(self).stage() != AuthStage::Finished,
            old(self).wf(),
        ensures
            step_matches(
                old(self).stage(),
                old(self).username(),
                old(self).password(),
                outcome,
                r,
                final(self).stage(),
            ),
            final(self).wf(),
    {
        let (success, body) = match outcome {
            HttpOutcome::Unreachable => {
                self.finish();
                return AuthAction::Done(Err(AuthError::Connectivity));
            },
            HttpOutcome::Response { success, body } => (success, body),
        };
        match self.stage {
            AuthStage::Anonymous => {
                let req = self.login_request();
                self.clear_credentials();
                self.stage = AuthStage::Credentials;
                AuthAction::Send(req)
            },
            AuthStage::Credentials => {
                if success {
                    self.stage = AuthStage::Grant;
                    AuthAction::Send(get_request(GRANT_URL))
                } else {
                    self.finish();
                    AuthAction::Done(Err(AuthError::InvalidCredentials))
                }
            },
            AuthStage::Grant => {
                if contains(body.as_str(), "error") {
                    self.finish();
                    AuthAction::Done(Err(AuthError::GrantDenied(body)))
                } else {
                    self.stage = AuthStage::MessagesSession;
                    AuthAction::Send(get_request(MSG_URL))
                }
            },
            _ => {
                self.finish();
                AuthAction::Done(Ok(()))
            },
        }
    }

    /// The request that posts the login form with the credentials.
    fn login_request(&self) -> (r: HttpRequest)
        ensures
            r.method == HttpMethod::PostForm,
            r.url@ == AUTH_URL2@,
            form_view(r.form@) == seq![
                ("action"@, "login"@),
                ("login"@, self.username()),
                ("pass"@, self.password()),
            ],
    {
        let mut form: Vec<(String, String)> = Vec::new();
        form.push(("action".to_string(), "login".to_string()));
        form.push(("login".to_string(), self.username.clone()));
        form.push(("pass".to_string(), self.password.clone()));
        let r = HttpRequest { method: HttpMethod::PostForm, url: AUTH_URL2.to_string(), form };
        assert(form_view(r.form@) =~= seq![
            ("action"@, "login"@),
            ("login"@, self.username()),
            ("pass"@, self.password()),
        ]);
        r
    }

    /// Drops the credentials.
    fn clear_credentials(&mut self)
        ensures
            final(self).stage() == old(self).stage(),
            final(self).username().len() == 0,
            final(self).password().len() == 0,
    {
        self.username = String::new();
        self.password = String::new();
    }

    /// Ends the handshake, dropping the credentials if they are still held.
    fn finish(&mut self)
        ensures
            final(self).stage() == AuthStage::Finished,
            final(self).username().len() == 0,
            final(self).password().len() == 0,
    {
        self.stage = AuthStage::Finished;
        self.username = String::new();
        self.password = String::new();
    }
}

} // verus!
