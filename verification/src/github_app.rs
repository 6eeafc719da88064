use vstd::prelude::*;
use vstd::string::*;
use crate::jwt;

verus! {

// ---------------------------------------------------------------------------
// Outside items the exchange client relies on.
// ---------------------------------------------------------------------------

/// Whether a text parses as a JSON document; a function of the text alone.
pub uninterp spec fn json_wf(s: Seq<char>) -> bool;

/// The stable pretty re-serialization of a JSON text; a function of the text
/// alone.
pub uninterp spec fn json_pretty(s: Seq<char>) -> Seq<char>;

/// Relies on serde_json::from_str::<Value> and serde_json::to_string_pretty:
/// parsing succeeds exactly when the text is valid JSON, and the pretty form
/// of the parsed document depends on the text alone (object keys are kept in
/// sorted order by serde_json's default map). Serializing a parsed Value
/// back out cannot fail.
#[verifier::external_body]
fn pretty_json_text(s: &str) -> (r: Result<String, String>)
    ensures
        r matches Ok(p) ==> json_wf(s@) && p@ == json_pretty(s@),
        r is Err ==> !json_wf(s@),
{
    match serde_json::from_str::<serde_json::Value>(s) {
        Ok(v) => Ok(serde_json::to_string_pretty(&v).unwrap_or(String::new())),
        Err(e) => Err(e.to_string()),
    }
}

// ---------------------------------------------------------------------------
// The exchange client and the broker's decisions.
// ---------------------------------------------------------------------------

/// What the exchange client holds per process: the minter's key, the
/// application identifier it signs for, and the display name sent upstream.
#[derive(Clone)]
pub struct ApiCallState {
    pub jwt: jwt::Jwt,
    pub app_id: String,
    pub app_name: String,
}

/// The two upstream operations use these methods.
#[derive(Debug, Clone, Copy, PartialEq, Eq)]
pub enum HttpMethod {
    Get,
    Post,
}

/// Everything a single outbound upstream request carries: method, URL, the
/// freshly minted bearer credential, and the two fixed headers.
#[derive(Debug)]
pub struct RequestSpec {
    pub method: HttpMethod,
    pub url: String,
    pub bearer_token: String,
    pub accept: String,
    pub user_agent: String,
}

/// What the broker decides before any network traffic: either answer the
/// caller at once, or perform this one upstream call.
#[derive(Debug)]
pub enum BrokerStep {
    Respond(u16, String),
    CallUpstream(RequestSpec),
}

/// How one attempted upstream call ended, as reported by the transport.
#[derive(Debug)]
pub enum UpstreamOutcome {
    /// The outbound request could not be built.
    BuildFailed(String),
    /// The network round trip failed.
    TransportFailed(String),
    /// The response arrived but its body could not be read as text.
    BodyReadFailed(String),
    /// The full response body, read as text.
    Body(String),
}

/// The fixed upstream endpoint that lists installations.
pub fn installations_url() -> (r: String)
    ensures
        r@ == "https://api.github.com/app/installations"@,
{
    "https://api.github.com/app/installations".to_owned()
}

/// The fixed upstream endpoint that mints an installation access token,
/// parameterized by the installation reference.
pub fn access_tokens_url(installation_id: &str) -> (r: String)
    ensures
        r@ == "https://api.github.com/app/installations/"@ + installation_id@
            + "/access_tokens"@,
{
    let mut url = "https://api.github.com/app/installations/".to_owned();
    url.append(installation_id);
    url.append("/access_tokens");
    url
}

/// Mint a fresh assertion and lay out the one outbound request for it:
/// the caller's method and URL, the assertion as bearer credential, the JSON
/// media type in `Accept`, and the configured display name as `User-Agent`.
/// A mint failure short-circuits into a 500 answer whose body names the
/// cause, so the caller can tell "could not even try" from upstream trouble.
pub fn github_call_plan(state: &ApiCallState, method: HttpMethod, url: &str) -> (r: BrokerStep)
    ensures
        r matches BrokerStep::CallUpstream(sp) ==> sp.method == method && sp.url@ == url@
            && sp.accept@ == "application/vnd.github+json"@
            && sp.user_agent@ == state.app_name@,
        r matches BrokerStep::Respond(st, b) ==> st == 500u16
            && (exists|m: Seq<char>|
                b@ == #[trigger] ("failed produce the app JWT token: "@ + m)),
{
    let token = match state.jwt.for_app(state.app_id.as_str()).generate() {
        Ok(token) => token,
        Err(e) => {
            let msg = e.message();
            let mut body = "failed produce the app JWT token: ".to_owned();
            body.append(msg.as_str());
            proof {
                assert(body@ == "failed produce the app JWT token: "@ + msg@);
            }
            return BrokerStep::Respond(500, body);
        },
    };
    BrokerStep::CallUpstream(RequestSpec {
        method,
        url: url.to_owned(),
        bearer_token: token,
        accept: "application/vnd.github+json".to_owned(),
        user_agent: state.app_name.clone(),
    })
}

/// The list-installations operation: one GET to the fixed endpoint, with a
/// fresh assertion.
pub fn list_installations(state: &ApiCallState) -> (r: BrokerStep)
    ensures
        r matches BrokerStep::CallUpstream(sp) ==> sp.method == HttpMethod::Get
            && sp.url@ == "https://api.github.com/app/installations"@
            && sp.accept@ == "application/vnd.github+json"@
            && sp.user_agent@ == state.app_name@,
        r matches BrokerStep::Respond(st, b) ==> st == 500u16
            && (exists|m: Seq<char>|
                b@ == #[trigger] ("failed produce the app JWT token: "@ + m)),
{
    let url = installations_url();
    github_call_plan(state, HttpMethod::Get, url.as_str())
}

/// Whether the caller failed to supply an installation reference.
pub open spec fn spec_missing_installation_id(q: Option<String>) -> bool {
    match q {
        None => true,
        Some(id) => id@.len() == 0,
    }
}

/// The token-exchange operation. A missing or empty installation reference
/// is the caller's fault: it is answered 400 at once, and no assertion is
/// minted and no network call is attempted. Otherwise one POST to the
/// per-installation endpoint is laid out, with a fresh assertion.
pub fn installation_access_token(state: &ApiCallState, installation_id: Option<String>) -> (r:
    BrokerStep)
    ensures
        spec_missing_installation_id(installation_id) ==> (r matches BrokerStep::Respond(st, b)
            && st == 400u16 && b@ == "installation id required as query parameter"@),
        installation_id matches Some(id) ==> (id@.len() > 0 ==> ((r matches
        BrokerStep::CallUpstream(sp) ==> sp.method == HttpMethod::Post
            && sp.url@ == "https://api.github.com/app/installations/"@ + id@ + "/access_tokens"@
            && sp.accept@ == "application/vnd.github+json"@
            && sp.user_agent@ == state.app_name@) && (r matches BrokerStep::Respond(st, b)
            ==> st == 500u16 && (exists|m: Seq<char>|
                b@ == #[trigger] ("failed produce the app JWT token: "@ + m))))),
{
    match installation_id {
        Some(id) => {
            if id.as_str().is_empty() {
                BrokerStep::Respond(400, "installation id required as query parameter".to_owned())
            } else {
                let url = access_tokens_url(id.as_str());
                github_call_plan(state, HttpMethod::Post, url.as_str())
            }
        },
        None => BrokerStep::Respond(400, "installation id required as query parameter".to_owned()),
    }
}

/// Map what came back from the transport to the answer for the caller.
/// Build, transport and body-read failures are each a distinct 500 with the
/// cause appended. A body that parses as JSON — whatever its upstream status
/// meant — becomes a local 200 carrying the pretty-printed document; a body
/// that does not parse is its own distinct 500.
pub fn github_response(outcome: UpstreamOutcome) -> (r: (u16, String))
    ensures
        outcome matches UpstreamOutcome::BuildFailed(m) ==> r.0 == 500u16
            && r.1@ == "failed build a request to github: "@ + m@,
        outcome matches UpstreamOutcome::TransportFailed(m) ==> r.0 == 500u16
            && r.1@ == "failed retrieve a response from github: "@ + m@,
        outcome matches UpstreamOutcome::BodyReadFailed(m) ==> r.0 == 500u16
            && r.1@ == "failed read the response body from github: "@ + m@,
        outcome matches UpstreamOutcome::Body(b) ==> (json_wf(b@) ==> r.0 == 200u16
            && r.1@ == json_pretty(b@)) && (!json_wf(b@) ==> r.0 == 500u16
            && (exists|m: Seq<char>|
                r.1@ == #[trigger] ("failed to deserialize the response from github into json: "@
                    + m))),
{
    match outcome {
        UpstreamOutcome::BuildFailed(m) => {
            let mut body = "failed build a request to github: ".to_owned();
            body.append(m.as_str());
            (500, body)
        },
        UpstreamOutcome::TransportFailed(m) => {
            let mut body = "failed retrieve a response from github: ".to_owned();
            body.append(m.as_str());
            (500, body)
        },
        UpstreamOutcome::BodyReadFailed(m) => {
            let mut body = "failed read the response body from github: ".to_owned();
            body.append(m.as_str());
            (500, body)
        },
        UpstreamOutcome::Body(b) => {
            match pretty_json_text(b.as_str()) {
                Ok(p) => (200, p),
                Err(m) => {
                    let mut body =
                        "failed to deserialize the response from github into json: ".to_owned();
                    body.append(m.as_str());
                    proof {
                        assert(body@ == "failed to deserialize the response from github into json: "@
                            + m@);
                    }
                    (500, body)
                },
            }
        },
    }
}

// ---------------------------------------------------------------------------
// Persisted callback and webhook state.
// ---------------------------------------------------------------------------

/// What the callback route accumulates: the latest callback code and every
/// installation reference seen, each kept once.
#[derive(Debug, Clone)]
pub struct CallbackState {
    callback_code: String,
    installation_ids: Vec<String>,
}

impl CallbackState {
    /// The latest callback code.
    pub closed spec fn spec_code(&self) -> Seq<char> {
        self.callback_code@
    }

    /// The installation references, in first-seen order.
    pub closed spec fn spec_ids(&self) -> Seq<Seq<char>> {
        self.installation_ids.deep_view()
    }

    /// No installation reference is kept twice.
    pub open spec fn wf(&self) -> bool {
        forall|i: int, j: int|
            0 <= i < j < self.spec_ids().len() ==> self.spec_ids()[i] != self.spec_ids()[j]
    }

    /// The latest callback code.
    pub fn code(&self) -> (r: &String)
        ensures
            r@ == self.spec_code(),
    {
        &self.callback_code
    }

    /// The installation references, in first-seen order.
    pub fn installation_ids(&self) -> (r: &Vec<String>)
        ensures
            r.deep_view() == self.spec_ids(),
    {
        &self.installation_ids
    }

    /// Rebuild a state from its persisted parts. The caller hands each
    /// installation reference in once.
    pub fn from_parts(callback_code: String, installation_ids: Vec<String>) -> (r: Self)
        requires
            forall|i: int, j: int|
                0 <= i < j < installation_ids@.len() ==> installation_ids@[i]@
                    != installation_ids@[j]@,
        ensures
            r.wf(),
            r.spec_code() == callback_code@,
            r.spec_ids() == installation_ids.deep_view(),
    {
        CallbackState { callback_code, installation_ids }
    }

    fn contains_id(&self, id: &String) -> (r: bool)
        ensures
            r == self.spec_ids().contains(id@),
    {
        let mut k: usize = 0;
        while k < self.installation_ids.len()
            invariant
                k <= self.installation_ids@.len(),
                forall|j: int| 0 <= j < k ==> self.spec_ids()[j] != id@,
            decreases self.installation_ids@.len() - k,
        {
            if self.installation_ids[k].eq(id) {
                proof {
                    assert(self.spec_ids()[k as int] == id@);
                }
                return true;
            }
            k = k + 1;
        }
        false
    }

    /// What one callback visit does to the state: remember the code, and the
    /// installation reference if it is new. References already present stay
    /// where they are; a new one is appended; nothing else changes.
    pub fn apply_callback(&mut self, params: CallbackParams)
        requires
            old(self).wf(),
        ensures
            final(self).wf(),
            final(self).spec_code() == params.code@,
            final(self).spec_ids().contains(params.installation_id@),
            old(self).spec_ids().contains(params.installation_id@) ==> final(self).spec_ids()
                == old(self).spec_ids(),
            !old(self).spec_ids().contains(params.installation_id@) ==> final(self).spec_ids()
                == old(self).spec_ids().push(params.installation_id@),
    {
        let ghost x = params.installation_id@;
        self.callback_code = params.code;
        let present = self.contains_id(&params.installation_id);
        if !present {
            self.installation_ids.push(params.installation_id);
            proof {
                assert(self.spec_ids() =~= old(self).spec_ids().push(x));
                assert(self.spec_ids()[self.spec_ids().len() - 1] == x);
            }
        } else {
            proof {
                assert(self.spec_ids() =~= old(self).spec_ids());
            }
        }
    }
}

impl Default for CallbackState {
    /// The state before any callback: no code, no references.
    fn default() -> (r: Self)
        ensures
            r.wf(),
            r.spec_code() == Seq::<char>::empty(),
            r.spec_ids() == Seq::<Seq<char>>::empty(),
    {
        let r = CallbackState { callback_code: String::new(), installation_ids: Vec::new() };
        proof {
            assert(r.spec_ids() =~= Seq::<Seq<char>>::empty());
        }
        r
    }
}

/// The query parameters of one callback visit.
#[derive(Debug, Clone)]
pub struct CallbackParams {
    pub code: String,
    pub installation_id: String,
}

/// The webhook route keeps no state of its own yet; inbound documents are
/// accepted and persisted as they are.
#[derive(Debug, Clone)]
pub struct WebhookState {}

impl Default for WebhookState {
    fn default() -> (r: Self)
        ensures
            r == (WebhookState {  }),
    {
        WebhookState {  }
    }
}

/// An accepted webhook document; its content is not interpreted.
#[derive(Debug)]
pub struct WebhookPayload {}

/// The answer after trying to persist a state document: a save failure is a
/// 500 naming the cause, success a plain 200.
pub fn save_response(saved: Result<(), String>) -> (r: (u16, String))
    ensures
        saved matches Err(m) ==> r.0 == 500u16 && r.1@ == "failed to save the state: "@ + m@,
        saved is Ok ==> r.0 == 200u16 && r.1@ == "processed"@,
{
    match saved {
        Err(m) => {
            let mut body = "failed to save the state: ".to_owned();
            body.append(m.as_str());
            (500, body)
        },
        Ok(()) => (200, "processed".to_owned()),
    }
}

} // verus!
