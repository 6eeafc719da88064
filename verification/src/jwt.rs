use vstd::prelude::*;
use vstd::string::*;
use crate::github_app::json_wf;

verus! {

// ---------------------------------------------------------------------------
// Outside items the minter relies on.
// ---------------------------------------------------------------------------

#[verifier::external_type_specification]
#[verifier::external_body]
pub struct ExEncodingKey(jsonwebtoken::EncodingKey);

#[verifier::external_type_specification]
#[verifier::external_body]
pub struct ExSystemTime(std::time::SystemTime);

/// Relies on jsonwebtoken::EncodingKey's derived Clone, which copies the key
/// material; nothing is claimed of the copy, the type being opaque here.
pub assume_specification[ <jsonwebtoken::EncodingKey as core::clone::Clone>::clone ](
    k: &jsonwebtoken::EncodingKey,
) -> jsonwebtoken::EncodingKey;

/// Whether a byte string holds a PEM-encoded RSA private key that
/// `jsonwebtoken` accepts; a function of the bytes alone.
pub uninterp spec fn rsa_pem_ok(pem: Seq<u8>) -> bool;

/// Relies on jsonwebtoken::EncodingKey::from_rsa_pem: it succeeds exactly
/// when the bytes hold a valid RSA key in PEM form, and depends on the bytes
/// alone.
#[verifier::external_body]
fn key_from_rsa_pem(pem: &[u8]) -> (r: Result<jsonwebtoken::EncodingKey, String>)
    ensures
        r is Ok <==> rsa_pem_ok(pem@),
{
    jsonwebtoken::EncodingKey::from_rsa_pem(pem).map_err(|e| e.to_string())
}

/// Relies on jsonwebtoken::EncodingKey::from_secret: it accepts any bytes as
/// a symmetric secret and cannot fail.
#[verifier::external_body]
fn key_from_secret(secret: &[u8]) -> jsonwebtoken::EncodingKey {
    jsonwebtoken::EncodingKey::from_secret(secret)
}

/// Relies on serde_json::from_str to read the claims text back into a
/// document, and on jsonwebtoken::encode with an RS256 header to sign that
/// document with the held key; reports why when either step refuses.
#[verifier::external_body]
fn jwt_encode_rs256(key: &jsonwebtoken::EncodingKey, claims: &str) -> (r: Result<String, String>)
    ensures
        r is Ok ==> json_wf(claims@),
{
    match serde_json::from_str::<serde_json::Value>(claims) {
        Ok(v) => jsonwebtoken::encode(
            &jsonwebtoken::Header::new(jsonwebtoken::Algorithm::RS256),
            &v,
            key,
        ).map_err(|e| e.to_string()),
        Err(e) => Err(e.to_string()),
    }
}

/// Relies on std::time::SystemTime::now for the wall clock.
#[verifier::external_body]
fn system_time_now() -> std::time::SystemTime {
    std::time::SystemTime::now()
}

/// Relies on SystemTime::duration_since, measured from the unix epoch: Err
/// exactly when the clock reads earlier than the epoch.
#[verifier::external_body]
fn time_since_epoch(t: &std::time::SystemTime) -> Result<core::time::Duration, String> {
    t.duration_since(std::time::SystemTime::UNIX_EPOCH).map_err(|e| e.to_string())
}

/// Relies on Duration::as_secs.
#[verifier::external_body]
fn duration_as_secs(d: &core::time::Duration) -> u64 {
    d.as_secs()
}

// ---------------------------------------------------------------------------
// Rendering the claims document.
// ---------------------------------------------------------------------------

/// The digit character for a value below sixteen, decimal digits first.
pub open spec fn spec_digit(d: int) -> char {
    if d == 0 { '0' }
    else if d == 1 { '1' }
    else if d == 2 { '2' }
    else if d == 3 { '3' }
    else if d == 4 { '4' }
    else if d == 5 { '5' }
    else if d == 6 { '6' }
    else if d == 7 { '7' }
    else if d == 8 { '8' }
    else if d == 9 { '9' }
    else if d == 10 { 'a' }
    else if d == 11 { 'b' }
    else if d == 12 { 'c' }
    else if d == 13 { 'd' }
    else if d == 14 { 'e' }
    else { 'f' }
}

/// The usual decimal rendering of a number, most significant digit first,
/// no leading zeroes.
pub open spec fn spec_dec(n: nat) -> Seq<char>
    decreases n,
{
    if n < 10 {
        seq![spec_digit(n as int)]
    } else {
        spec_dec(n / 10) + seq![spec_digit((n % 10) as int)]
    }
}

/// How one character is written inside a JSON string literal: quote and
/// backslash get a backslash, control characters the `\u00..` form, and
/// everything else stands as it is.
pub open spec fn spec_escape_char(c: char) -> Seq<char> {
    if c == '"' {
        seq!['\\', '"']
    } else if c == '\\' {
        seq!['\\', '\\']
    } else if (c as u32) < 32 {
        seq!['\\', 'u', '0', '0', spec_digit((c as u32 / 16) as int), spec_digit((c as u32 % 16) as int)]
    } else {
        seq![c]
    }
}

/// A whole string escaped for use inside a JSON string literal.
pub open spec fn spec_json_escape(s: Seq<char>) -> Seq<char>
    decreases s.len(),
{
    if s.len() == 0 {
        Seq::empty()
    } else {
        spec_json_escape(s.drop_last()) + spec_escape_char(s.last())
    }
}

/// The claims document the minter signs: issue time, expiry and issuer.
pub open spec fn spec_claims_json(iat: u64, exp: u64, iss: Seq<char>) -> Seq<char> {
    "{\"iat\":"@ + spec_dec(iat as nat) + ",\"exp\":"@ + spec_dec(exp as nat) + ",\"iss\":\""@
        + spec_json_escape(iss) + "\"}"@
}

fn append_digit(out: &mut String, d: u8)
    requires
        d < 16,
    ensures
        final(out)@ == old(out)@ + seq![spec_digit(d as int)],
{
    if d == 0 { out.append("0"); proof { reveal_strlit("0"); assert(("0")@ =~= seq!['0']); } }
    else if d == 1 { out.append("1"); proof { reveal_strlit("1"); assert(("1")@ =~= seq!['1']); } }
    else if d == 2 { out.append("2"); proof { reveal_strlit("2"); assert(("2")@ =~= seq!['2']); } }
    else if d == 3 { out.append("3"); proof { reveal_strlit("3"); assert(("3")@ =~= seq!['3']); } }
    else if d == 4 { out.append("4"); proof { reveal_strlit("4"); assert(("4")@ =~= seq!['4']); } }
    else if d == 5 { out.append("5"); proof { reveal_strlit("5"); assert(("5")@ =~= seq!['5']); } }
    else if d == 6 { out.append("6"); proof { reveal_strlit("6"); assert(("6")@ =~= seq!['6']); } }
    else if d == 7 { out.append("7"); proof { reveal_strlit("7"); assert(("7")@ =~= seq!['7']); } }
    else if d == 8 { out.append("8"); proof { reveal_strlit("8"); assert(("8")@ =~= seq!['8']); } }
    else if d == 9 { out.append("9"); proof { reveal_strlit("9"); assert(("9")@ =~= seq!['9']); } }
    else if d == 10 { out.append("a"); proof { reveal_strlit("a"); assert(("a")@ =~= seq!['a']); } }
    else if d == 11 { out.append("b"); proof { reveal_strlit("b"); assert(("b")@ =~= seq!['b']); } }
    else if d == 12 { out.append("c"); proof { reveal_strlit("c"); assert(("c")@ =~= seq!['c']); } }
    else if d == 13 { out.append("d"); proof { reveal_strlit("d"); assert(("d")@ =~= seq!['d']); } }
    else if d == 14 { out.append("e"); proof { reveal_strlit("e"); assert(("e")@ =~= seq!['e']); } }
    else { out.append("f"); proof { reveal_strlit("f"); assert(("f")@ =~= seq!['f']); } }
}

fn append_dec(out: &mut String, n: u64)
    ensures
        final(out)@ == old(out)@ + spec_dec(n as nat),
    decreases n,
{
    if n < 10 {
        append_digit(out, n as u8);
    } else {
        append_dec(out, n / 10);
        append_digit(out, (n % 10) as u8);
    }
}

fn append_json_escaped(out: &mut String, s: &str)
    ensures
        final(out)@ == old(out)@ + spec_json_escape(s@),
{
    let ghost base = out@;
    let len = s.unicode_len();
    let mut i: usize = 0;
    while i < len
        invariant
            i <= len,
            len == s@.len(),
            out@ == base + spec_json_escape(s@.subrange(0, i as int)),
        decreases len - i,
    {
        let c = s.get_char(i);
        if c == '"' {
            out.append("\\\"");
            proof { reveal_strlit("\\\""); assert(("\\\"")@ =~= seq!['\\', '"']); }
        } else if c == '\\' {
            out.append("\\\\");
            proof { reveal_strlit("\\\\"); assert(("\\\\")@ =~= seq!['\\', '\\']); }
        } else if (c as u32) < 32 {
            out.append("\\u00");
            proof { reveal_strlit("\\u00"); assert(("\\u00")@ =~= seq!['\\', 'u', '0', '0']); }
            append_digit(out, (c as u32 / 16) as u8);
            append_digit(out, (c as u32 % 16) as u8);
        } else {
            let piece = s.substring_char(i, i + 1);
            out.append(piece);
            proof { assert(piece@ =~= seq![s@[i as int]]); }
        }
        proof {
            let sub1 = s@.subrange(0, i + 1);
            assert(sub1.drop_last() =~= s@.subrange(0, i as int));
            assert(sub1.last() == s@[i as int]);
            assert(out@ =~= base + spec_json_escape(sub1));
        }
        i = i + 1;
    }
    proof {
        assert(s@.subrange(0, s@.len() as int) =~= s@);
    }
}

/// Render the claims document for the three claims.
pub fn claims_json(iat: u64, exp: u64, iss: &str) -> (r: String)
    ensures
        r@ == spec_claims_json(iat, exp, iss@),
{
    let mut out = "{\"iat\":".to_owned();
    append_dec(&mut out, iat);
    out.append(",\"exp\":");
    append_dec(&mut out, exp);
    out.append(",\"iss\":\"");
    append_json_escaped(&mut out, iss);
    out.append("\"}");
    proof {
        assert(out@ =~= spec_claims_json(iat, exp, iss@));
    }
    out
}

// ---------------------------------------------------------------------------
// The minter.
// ---------------------------------------------------------------------------

/// Issue time of an assertion minted at clock reading `now`: one minute in
/// the past, to tolerate clock skew with the verifier.
pub open spec fn spec_issued_at(now: u64) -> int {
    now - 60
}

/// Expiry of an assertion minted at clock reading `now`: ten minutes ahead.
pub open spec fn spec_expires_at(now: u64) -> int {
    now + 600
}

/// The two timestamps of an assertion minted at clock reading `now`.
pub fn claim_times(now: u64) -> (r: (u64, u64))
    requires
        60 <= now,
        now <= u64::MAX - 600,
    ensures
        r.0 == spec_issued_at(now),
        r.1 == spec_expires_at(now),
{
    (now - 60, now + 600)
}

/// For any clock reading, the assertion's validity window is exactly 660
/// seconds (eleven minutes) and its issue time does not lie in the future.
pub proof fn lemma_assertion_window(now: u64)
    ensures
        spec_expires_at(now) - spec_issued_at(now) == 660,
        spec_issued_at(now) <= now,
{
}

/// A fresh assertion is minted on every call; two sequential mints read a
/// clock that does not go backwards between them, so their issue times are
/// non-decreasing.
pub proof fn lemma_mint_monotone(now1: u64, now2: u64)
    requires
        now1 <= now2,
    ensures
        spec_issued_at(now1) <= spec_issued_at(now2),
{
}

/// What went wrong while minting: the clock could not be read sensibly, or
/// the cryptographic signing step failed.
#[derive(Debug, Clone)]
pub enum Error {
    Time(String),
    Jwt(String),
}

impl Error {
    /// The human-readable cause, as surfaced to the HTTP caller.
    pub fn message(&self) -> (r: String)
        ensures
            self matches Error::Time(m) ==> r@ == m@,
            self matches Error::Jwt(m) ==> r@ == m@,
    {
        match self {
            Error::Time(m) => m.clone(),
            Error::Jwt(m) => m.clone(),
        }
    }
}

/// The signing key, loaded once at startup and held for the process
/// lifetime; never logged or serialized.
#[derive(Clone)]
pub struct Jwt {
    key: jsonwebtoken::EncodingKey,
}

impl Jwt {
    /// Load the RSA private key from PEM bytes.
    pub fn new(pem_data: &[u8]) -> (r: Result<Self, Error>)
        ensures
            r is Ok <==> rsa_pem_ok(pem_data@),
            r matches Err(e) ==> e is Jwt,
    {
        match key_from_rsa_pem(pem_data) {
            Ok(key) => Ok(Jwt { key }),
            Err(m) => Err(Error::Jwt(m)),
        }
    }

    /// Hold a symmetric secret in place of an RSA key. The minter signs with
    /// an RSA-family algorithm, which such a key cannot serve, so minting
    /// through it reports a signing failure; everything up to the signing
    /// step behaves as with any key.
    pub fn from_secret(secret: &[u8]) -> Jwt {
        Jwt { key: key_from_secret(secret) }
    }

    /// Bind the key to an application identifier, giving the minter for that
    /// application.
    pub fn for_app<'a>(&'a self, app_id: &'a str) -> (t: AppToken<'a>)
        ensures
            t.spec_app_id() == app_id@,
    {
        AppToken { app_id, key: &self.key }
    }
}

/// The minter for one application: the held key plus the issuer identifier.
#[derive(Clone)]
pub struct AppToken<'a> {
    app_id: &'a str,
    key: &'a jsonwebtoken::EncodingKey,
}

/// A minter bound to one installation; reserved for per-installation
/// credentials.
pub struct InstallationToken<'a> {
    pub installation_id: &'a str,
    pub app_token: &'a AppToken<'a>,
}

/// A minted assertion: the three claims it certifies, and the signed compact
/// token that carries them. Created anew per call, never cached.
pub struct Assertion {
    pub issued_at: u64,
    pub expires_at: u64,
    pub issuer: String,
    pub token: String,
}

impl<'a> AppToken<'a> {
    /// The issuer identifier this minter signs for.
    pub closed spec fn spec_app_id(&self) -> Seq<char> {
        self.app_id@
    }

    /// Mint a fresh assertion from the current wall clock: issue time one
    /// minute in the past, expiry ten minutes ahead, issuer as configured.
    /// Fails when the clock cannot be read sensibly or the signing step
    /// fails; never retries.
    pub fn mint(&self) -> (r: Result<Assertion, Error>)
        ensures
            r matches Ok(a) ==> a.expires_at - a.issued_at == 660
                && a.issuer@ == self.spec_app_id(),
    {
        let t = system_time_now();
        let d = match time_since_epoch(&t) {
            Ok(d) => d,
            Err(m) => { return Err(Error::Time(m)); },
        };
        let now = duration_as_secs(&d);
        if now < 60 || now > u64::MAX - 600 {
            return Err(Error::Time("system clock reads out of range".to_owned()));
        }
        let (iat, exp) = claim_times(now);
        let claims = claims_json(iat, exp, self.app_id);
        match jwt_encode_rs256(self.key, claims.as_str()) {
            Ok(token) => Ok(Assertion {
                issued_at: iat,
                expires_at: exp,
                issuer: self.app_id.to_owned(),
                token,
            }),
            Err(m) => Err(Error::Jwt(m)),
        }
    }

    /// Mint a fresh assertion and hand back only the signed compact token,
    /// as the exchange client uses it for its bearer credential.
    pub fn generate(&self) -> (r: Result<String, Error>)
    {
        match self.mint() {
            Ok(a) => Ok(a.token),
            Err(e) => Err(e),
        }
    }
}

} // verus!
