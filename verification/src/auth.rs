use vstd::prelude::*;
use vstd::string::StringExecFns;

verus! {

/// A known operator of the service, as kept in the session collaborator's
/// user store.
#[derive(Debug, Clone)]
pub struct User {
    pub login: String,
    pub password: String,
}

impl User {
    /// The identifier under which the session store files this user.
    pub fn get_id(&self) -> (r: String)
        ensures
            r@ == self.login@,
    {
        self.login.clone()
    }
}

/// The fields of the login form posted to the login route.
#[derive(Debug)]
pub struct LoginForm {
    pub login: String,
    pub password: String,
    pub to: Option<String>,
}

/// Whether the posted form matches the stored user: there must be a stored
/// user under the form's login, and its password must equal the posted one.
pub open spec fn spec_good_credentials(stored: Option<&User>, form: &LoginForm) -> bool {
    match stored {
        Some(u) => u.password@ == form.password@,
        None => false,
    }
}

/// What the login route decides before touching the session store.
#[derive(Debug)]
pub enum LoginStep {
    /// Answer at once with this status and body; the session is not changed.
    Deny(u16, String),
    /// Credentials match: ask the session collaborator to log the user in.
    Authenticate,
}

/// First half of the login route: check the posted credentials against the
/// stored user. Only a matching pair reaches the session store; anything
/// else is denied with 403 and the fixed body.
pub fn login_step(stored: Option<&User>, form: &LoginForm) -> (r: LoginStep)
    ensures
        spec_good_credentials(stored, form) ==> r is Authenticate,
        !spec_good_credentials(stored, form) ==> (r matches LoginStep::Deny(s, b)
            && s == 403u16 && b@ == "invalid creds"@),
{
    match stored {
        Some(u) => {
            if u.password == form.password {
                LoginStep::Authenticate
            } else {
                LoginStep::Deny(403, "invalid creds".to_owned())
            }
        },
        None => LoginStep::Deny(403, "invalid creds".to_owned()),
    }
}

/// Second half of the login route: given the session store's answer and the
/// optional return path, produce the HTTP status and body. On success the
/// caller is sent back to the requested path through a refresh page; a
/// session-store failure is a 500 with the cause appended.
pub fn login_response(result: Result<(), String>, to: &Option<String>) -> (r: (u16, String))
    ensures
        result is Ok ==> (to matches Some(t) ==> r.0 == 200u16
            && r.1@ == "<html><head><meta http-equiv=\"Refresh\" content=\"0; url='"@ + t@
                + "'\" /></head></html>"@),
        (result is Ok && to is None) ==> r.0 == 200u16 && r.1@ == "logged in"@,
        result matches Err(m) ==> r.0 == 500u16 && r.1@ == "failed to login: "@ + m@,
{
    match result {
        Ok(()) => {
            match to {
                Some(t) => {
                    let mut body = "<html><head><meta http-equiv=\"Refresh\" content=\"0; url='"
                        .to_owned();
                    body.append(t.as_str());
                    body.append("'\" /></head></html>");
                    (200, body)
                },
                None => (200, "logged in".to_owned()),
            }
        },
        Err(m) => {
            let mut body = "failed to login: ".to_owned();
            body.append(m.as_str());
            (500, body)
        },
    }
}

/// Decision taken by the session gate for one inbound request.
#[derive(Debug)]
pub enum GateDecision {
    /// Answer at once with this status and a `Location` header.
    Redirect(u16, String),
    /// Let the request through to the protected handler unchanged.
    Forward,
}

/// The session gate: an unauthenticated caller is redirected (307) to the
/// login path; an authenticated one passes through unmodified.
pub fn redirect_on_no_auth(authenticated: bool, redirect_path: &str) -> (r: GateDecision)
    ensures
        !authenticated ==> (r matches GateDecision::Redirect(status, loc)
            && status == 307u16 && loc@ == redirect_path@),
        authenticated ==> r is Forward,
{
    if !authenticated {
        GateDecision::Redirect(307, redirect_path.to_owned())
    } else {
        GateDecision::Forward
    }
}

} // verus!
