//! Issuing and checking signed identity tokens (Ed25519-signed JWTs).

use vstd::prelude::*;
use vstd::string::*;
use crate::text::{is_prefix, starts_with};
use std::collections::BTreeMap;
use jwt_simple::algorithms::{
    EdDSAKeyPairLike, EdDSAPublicKeyLike, Ed25519KeyPair, Ed25519PublicKey,
};
use jwt_simple::claims::JWTClaims;
use jwt_simple::common::VerificationOptions;
use jwt_simple::prelude::{Clock, Duration, UnixTimeStamp};

verus! {

/// How long an issued token stays valid, in seconds (fourteen days).
pub const TOKEN_LIFETIME_SECS: u64 = 1209600;

/// The clock skew that verification tolerates, in seconds: none, so a
/// token is rejected as soon as its expiry has passed.
pub const TIME_TOLERANCE_SECS: u64 = 0;

/// The longest token, in bytes, that the token library's default options
/// accept.
pub const MAX_TOKEN_LEN: u64 = 1_000_000;

/// What separates the private-key block from the public-key block in the
/// PEM text of a key pair.
pub open spec fn public_key_marker() -> Seq<char> {
    "-----BEGIN PUBLIC KEY-----"@
}

/// The latest time, in seconds since the epoch, that the token library's
/// timestamps hold together with the tolerance.
pub const MAX_TIMESTAMP: u64 = 0xFFFF_0000;

/// The token library's error, which the library maps to [`AuthError`].
#[verifier::external_type_specification]
#[verifier::external_body]
pub struct ExJwtError(jwt_simple::Error);

/// Why issuing or checking a token failed.
#[derive(Debug, Clone, Copy, PartialEq, Eq, Structural)]
pub enum AuthError {
    /// The key material is not a valid PEM-encoded Ed25519 key.
    KeyFormatInvalid,
    /// The token could not be built or signed.
    SigningFailed,
    /// The token's encoding, signature or validity period was rejected.
    VerificationFailed,
}

/// The key material of a service: a private key (PEM) for signing and the
/// matching public key (PEM) for verification.
#[derive(Debug, Clone)]
pub struct AuthConfig {
    pub sk: String,
    pub pk: String,
}

/// The signed payload of a token.
#[derive(Debug, Clone)]
pub struct Claims {
    pub subject: Option<String>,
    pub issuer: Option<String>,
    /// The authenticated user name.
    pub custom_data: Option<String>,
    /// Seconds since the epoch.
    pub issued_at: Option<u64>,
    /// Seconds since the epoch.
    pub expires_at: Option<u64>,
}

pub ghost struct ClaimsView {
    pub subject: Option<Seq<char>>,
    pub issuer: Option<Seq<char>>,
    pub custom_data: Option<Seq<char>>,
    pub issued_at: Option<u64>,
    pub expires_at: Option<u64>,
}

pub open spec fn text_view(o: Option<String>) -> Option<Seq<char>> {
    match o {
        Some(s) => Some(s@),
        None => None,
    }
}

impl View for Claims {
    type V = ClaimsView;

    open spec fn view(&self) -> ClaimsView {
        ClaimsView {
            subject: text_view(self.subject),
            issuer: text_view(self.issuer),
            custom_data: text_view(self.custom_data),
            issued_at: self.issued_at,
            expires_at: self.expires_at,
        }
    }
}

/// The claims that `EdDSAPublicKeyLike::verify_token` decodes from the
/// payload of `token` (the JSON in its middle part); a token that
/// `EdDSAKeyPairLike::sign` made carries the claims it was given there.
pub uninterp spec fn token_claims(token: Seq<char>) -> ClaimsView;

/// Whether `Ed25519KeyPair::from_pem` accepts `pem`.
pub uninterp spec fn private_pem_accepted(pem: Seq<char>) -> bool;

/// Whether `Ed25519PublicKey::from_pem` accepts `pem`.
pub uninterp spec fn public_pem_accepted(pem: Seq<char>) -> bool;

/// The PEM text of the public key of the key pair that
/// `Ed25519KeyPair::from_pem` reads from `pem`.
pub uninterp spec fn public_pem_of(pem: Seq<char>) -> Seq<char>;

/// Whether `Ed25519PublicKey::from_pem` accepts `pem` and the key's
/// `verify_token`, with the default options but the clock set to `now` and
/// the tolerance to `tolerance` seconds, accepts `token`.
pub uninterp spec fn token_verifies(pem: Seq<char>, token: Seq<char>, now: u64, tolerance: u64) -> bool;

/// The number of `.` in `s`.
pub open spec fn dot_count(s: Seq<char>) -> nat
    decreases s.len(),
{
    if s.len() == 0 {
        0
    } else {
        dot_count(s.drop_last()) + if s.last() == '.' { 1nat } else { 0nat }
    }
}

/// The claims of a token that `issuer` issues at `now` for `data`.
pub open spec fn issued_claims(issuer: Seq<char>, data: Seq<char>, now: u64) -> ClaimsView {
    ClaimsView {
        subject: Some("auth"@),
        issuer: Some(issuer),
        custom_data: Some(data),
        issued_at: Some(now),
        expires_at: Some((now + TOKEN_LIFETIME_SECS) as u64),
    }
}

/// The validity window of `c` contains `now`, widened by `tolerance`.
pub open spec fn within(c: ClaimsView, now: u64, tolerance: u64) -> bool {
    &&& c.issued_at matches Some(i) ==> i <= now + tolerance
    &&& c.expires_at matches Some(e) ==> tolerance <= now && now - tolerance <= e
}

/// The validity window of `c` contains `now`, within the library's tolerance.
pub open spec fn within_window(c: ClaimsView, now: u64) -> bool {
    within(c, now, TIME_TOLERANCE_SECS)
}

/// Claims that a verifier accepts at `now`: they name a user and `now`
/// lies in their validity window.
pub open spec fn accepted_at(c: ClaimsView, now: u64) -> bool {
    c.custom_data is Some && within_window(c, now)
}

/// A verifier holding the public key `pem` accepts `token` at `now`.
pub open spec fn verifies_at(pem: Seq<char>, token: Seq<char>, now: u64) -> bool {
    token_verifies(pem, token, now, TIME_TOLERANCE_SECS) && token_claims(token).custom_data is Some
}

/// `token` is a compact JWT signed with the private key `sk`, carrying the
/// claims `c`: the public key of `sk` accepts it whenever its validity
/// window, widened by a tolerance, contains the time.
pub open spec fn signed_token(sk: Seq<char>, c: ClaimsView, token: Seq<char>) -> bool {
    &&& token_claims(token) == c
    &&& dot_count(token) == 2
    &&& token.len() <= MAX_TOKEN_LEN ==> forall|n: u64, tol: u64|
        n <= MAX_TIMESTAMP && tol <= 0xFFFF && #[trigger] within(c, n, tol)
            ==> #[trigger] token_verifies(public_pem_of(sk), token, n, tol)
}

/// Relies on coarsetime's `Clock::now_since_epoch`: the current time in
/// whole seconds; nothing is promised of its value.
#[verifier::external_body]
fn now_secs() -> (r: u64) {
    Clock::now_since_epoch().as_secs()
}

/// Relies on `Ed25519KeyPair::from_pem`, which either parses the key or
/// fails, depending on the text alone.
#[verifier::external_body]
fn private_pem_valid(pem: &str) -> (r: bool)
    ensures
        r == private_pem_accepted(pem@),
{
    Ed25519KeyPair::from_pem(pem).is_ok()
}

/// Relies on `Ed25519PublicKey::from_pem`, which either parses the key or
/// fails, depending on the text alone.
#[verifier::external_body]
fn public_pem_valid(pem: &str) -> (r: bool)
    ensures
        r == public_pem_accepted(pem@),
{
    Ed25519PublicKey::from_pem(pem).is_ok()
}

/// Relies on `EdDSAKeyPairLike::sign` on the key read by
/// `Ed25519KeyPair::from_pem`. The token is `header.payload.signature`,
/// each part in base64url; the payload is the JSON of the claims, so it
/// decodes to them again, and the Ed25519 signature holds under the pair's
/// public key. Serialising these fields cannot fail, so signing fails only
/// where the key does not parse. Timestamps are whole seconds below 2^32,
/// which `UnixTimeStamp::from_secs` holds exactly.
#[verifier::external_body]
fn sign_claims(sk: &str, claims: &Claims) -> (r: Result<String, jwt_simple::Error>)
    requires
        claims.issued_at matches Some(i) ==> i <= MAX_TIMESTAMP,
        claims.expires_at matches Some(e) ==> e <= MAX_TIMESTAMP,
    ensures
        r is Ok <==> private_pem_accepted(sk@),
        r matches Ok(t) ==> signed_token(sk@, claims@, t@),
{
    let issued_at = claims.issued_at.map(UnixTimeStamp::from_secs);
    let custom: BTreeMap<String, String> =
        claims.custom_data.iter().map(|d| (String::from("data"), d.clone())).collect();
    Ed25519KeyPair::from_pem(sk)?.sign(JWTClaims {
        issued_at,
        expires_at: claims.expires_at.map(UnixTimeStamp::from_secs),
        invalid_before: issued_at,
        audiences: None,
        issuer: claims.issuer.clone(),
        jwt_id: None,
        subject: claims.subject.clone(),
        nonce: None,
        custom,
    })
}

/// Relies on `EdDSAPublicKeyLike::verify_token` on the key read by
/// `Ed25519PublicKey::from_pem`, with the default options but the clock set
/// to `now` and the tolerance to `tolerance`: on success the token has three
/// dot-separated parts, the claims are those of the payload, and `now`
/// lies in their validity window.
#[verifier::external_body]
fn verify_claims(pk: &str, token: &str, now: u64, tolerance: u64) -> (r: Result<Claims, jwt_simple::Error>)
    requires
        now <= MAX_TIMESTAMP,
        tolerance <= 0xFFFF,
    ensures
        r is Ok <==> token_verifies(pk@, token@, now, tolerance),
        r matches Ok(c) ==> c@ == token_claims(token@) && within(c@, now, tolerance)
            && dot_count(token@) == 2,
{
    let options = VerificationOptions {
        artificial_time: Some(UnixTimeStamp::from_secs(now)),
        time_tolerance: Some(Duration::from_secs(tolerance)),
        ..VerificationOptions::default()
    };
    let c = Ed25519PublicKey::from_pem(pk)?.verify_token::<BTreeMap<String, String>>(token, Some(options))?;
    Ok(Claims {
        subject: c.subject,
        issuer: c.issuer,
        custom_data: c.custom.get("data").cloned(),
        issued_at: c.issued_at.map(|t| t.as_secs()),
        expires_at: c.expires_at.map(|t| t.as_secs()),
    })
}

/// The text of `s` before the first occurrence of `marker` sits at `k`.
pub open spec fn cut_at(s: Seq<char>, marker: Seq<char>, k: int) -> bool {
    &&& 0 <= k <= s.len()
    &&& k == s.len() || is_prefix(marker, s.skip(k))
    &&& forall|j: int| 0 <= j < k ==> !is_prefix(marker, #[trigger] s.skip(j))
}

/// The first occurrence of a marker is unique.
pub proof fn lemma_cut_unique(s: Seq<char>, marker: Seq<char>, k1: int, k2: int)
    requires
        cut_at(s, marker, k1),
        cut_at(s, marker, k2),
    ensures
        k1 == k2,
{
    if k1 < k2 {
        assert(!is_prefix(marker, s.skip(k1)));
    } else if k2 < k1 {
        assert(!is_prefix(marker, s.skip(k2)));
    }
}

/// Relies on `Ed25519KeyPair::generate`, `Ed25519KeyPair::to_pem` and
/// `Ed25519KeyPair::public_key`: a fresh random pair, as the PEM text of the
/// pair (the private-key block, then the public-key block) and of its public
/// key. The private-key block alone is a key that `from_pem` reads back as
/// the same pair.
#[verifier::external_body]
fn generate_key_pems() -> (r: (String, String))
    ensures
        exists|k: int| #![trigger r.0@.take(k)]
            cut_at(r.0@, public_key_marker(), k)
            && private_pem_accepted(r.0@.take(k))
            && r.1@ == public_pem_of(r.0@.take(k)),
        public_pem_accepted(r.1@),
{
    let pair = Ed25519KeyPair::generate();
    (pair.to_pem(), pair.public_key().to_pem())
}

/// The text of `s` before the first occurrence of `marker`, or all of it.
pub fn text_before(s: &str, marker: &str) -> (r: String)
    ensures
        exists|k: int| cut_at(s@, marker@, k) && r@ == s@.take(k),
{
    let n = s.unicode_len();
    let mut k: usize = 0;
    while k < n
        invariant
            n == s@.len(),
            k <= n,
            forall|j: int| 0 <= j < k ==> !is_prefix(marker@, #[trigger] s@.skip(j)),
        decreases n - k,
    {
        let rest = s.substring_char(k, n);
        assert(rest@ == s@.skip(k as int));
        if starts_with(rest, marker) {
            let r = String::from_str(s.substring_char(0, k));
            assert(cut_at(s@, marker@, k as int));
            return r;
        }
        k = k + 1;
    }
    let r = String::from_str(s);
    assert(r@ == s@.take(n as int));
    assert(cut_at(s@, marker@, n as int));
    r
}

impl AuthConfig {
    /// A fresh random key pair: the private key's PEM block and the PEM of
    /// its public key.
    pub fn generate() -> (r: Self)
        ensures
            private_pem_accepted(r.sk@),
            public_pem_accepted(r.pk@),
            r.pk@ == public_pem_of(r.sk@),
    {
        let (pair, pk) = generate_key_pems();
        let sk = text_before(pair.as_str(), "-----BEGIN PUBLIC KEY-----");
        proof {
            reveal_strlit("-----BEGIN PUBLIC KEY-----");
            let k1 = choose|k: int| cut_at(pair@, public_key_marker(), k) && sk@ == pair@.take(k);
            let k2 = choose|k: int| #![trigger pair@.take(k)]
                cut_at(pair@, public_key_marker(), k)
                && private_pem_accepted(pair@.take(k))
                && pk@ == public_pem_of(pair@.take(k));
            lemma_cut_unique(pair@, public_key_marker(), k1, k2);
        }
        AuthConfig { sk, pk }
    }
}

impl Default for AuthConfig {
    /// A fresh random key pair, as [`AuthConfig::generate`] makes it.
    fn default() -> (r: Self)
        ensures
            private_pem_accepted(r.sk@),
            public_pem_accepted(r.pk@),
            r.pk@ == public_pem_of(r.sk@),
    {
        Self::generate()
    }
}

/// Claims whose signature and validity window held are accepted where
/// they name a user.
pub fn accept_claims(c: Claims) -> (r: Result<Claims, AuthError>)
    ensures
        c.custom_data is Some ==> r == Ok::<Claims, AuthError>(c),
        c.custom_data is None ==> r == Err::<Claims, AuthError>(AuthError::VerificationFailed),
{
    if c.custom_data.is_some() {
        Ok(c)
    } else {
        Err(AuthError::VerificationFailed)
    }
}

/// Issues tokens under a service name with a private key.
pub struct AuthSigner {
    provider: String,
    key: String,
}

/// Checks tokens against a public key.
pub struct AuthVerifier {
    provider: String,
    key: String,
}

impl AuthSigner {
    /// The service name written as issuer into each token.
    pub closed spec fn issuer(&self) -> Seq<char> {
        self.provider@
    }

    /// The PEM text of the private key.
    pub closed spec fn key_pem(&self) -> Seq<char> {
        self.key@
    }

    /// A signer for `provider` with the PEM-encoded private key `key`.
    pub fn try_new(provider: &str, key: &str) -> (r: Result<Self, AuthError>)
        ensures
            r is Ok <==> private_pem_accepted(key@),
            r matches Ok(s) ==> s.issuer() == provider@ && s.key_pem() == key@,
            r matches Err(e) ==> e == AuthError::KeyFormatInvalid,
    {
        if private_pem_valid(key) {
            Ok(AuthSigner { provider: String::from_str(provider), key: String::from_str(key) })
        } else {
            Err(AuthError::KeyFormatInvalid)
        }
    }

    /// A token for `data`, issued at `now` (seconds since the epoch) and
    /// valid for [`TOKEN_LIFETIME_SECS`].
    pub fn sign_at(&self, data: String, now: u64) -> (r: Result<String, AuthError>)
        ensures
            r matches Ok(t) ==> signed_token(self.key_pem(), issued_claims(self.issuer(), data@, now), t@),
            r matches Err(e) ==> e == AuthError::SigningFailed,
            r is Ok <==> now <= MAX_TIMESTAMP - TOKEN_LIFETIME_SECS && private_pem_accepted(self.key_pem()),
    {
        if now > MAX_TIMESTAMP - TOKEN_LIFETIME_SECS {
            return Err(AuthError::SigningFailed);
        }
        let claims = Claims {
            subject: Some(String::from_str("auth")),
            issuer: Some(String::from_str(self.provider.as_str())),
            custom_data: Some(data),
            issued_at: Some(now),
            expires_at: Some(now + TOKEN_LIFETIME_SECS),
        };
        proof { reveal_strlit("auth"); }
        match sign_claims(self.key.as_str(), &claims) {
            Ok(t) => Ok(t),
            Err(_) => Err(AuthError::SigningFailed),
        }
    }

    /// A token for `data`, issued now.
    pub fn sign(&self, data: String) -> (r: Result<String, AuthError>)
        ensures
            r matches Ok(t) ==> exists|now: u64| signed_token(self.key_pem(), #[trigger] issued_claims(self.issuer(), data@, now), t@),
            r matches Err(e) ==> e == AuthError::SigningFailed,
    {
        let now = now_secs();
        self.sign_at(data, now)
    }
}

impl AuthVerifier {
    /// The service name this verifier was made for; tokens are not
    /// checked against it.
    pub closed spec fn issuer(&self) -> Seq<char> {
        self.provider@
    }

    /// The PEM text of the public key.
    pub closed spec fn key_pem(&self) -> Seq<char> {
        self.key@
    }

    /// A verifier for `provider` with the PEM-encoded public key `key`.
    pub fn try_new(provider: &str, key: &str) -> (r: Result<Self, AuthError>)
        ensures
            r is Ok <==> public_pem_accepted(key@),
            r matches Ok(v) ==> v.issuer() == provider@ && v.key_pem() == key@,
            r matches Err(e) ==> e == AuthError::KeyFormatInvalid,
    {
        if public_pem_valid(key) {
            Ok(AuthVerifier { provider: String::from_str(provider), key: String::from_str(key) })
        } else {
            Err(AuthError::KeyFormatInvalid)
        }
    }

    /// Checks `token` at time `now` (seconds since the epoch) and returns
    /// its claims.
    pub fn verify_at(&self, token: &str, now: u64) -> (r: Result<Claims, AuthError>)
        requires
            now <= MAX_TIMESTAMP,
        ensures
            r is Ok <==> verifies_at(self.key_pem(), token@, now),
            r matches Ok(c) ==> c@ == token_claims(token@) && accepted_at(c@, now),
            r matches Err(e) ==> e == AuthError::VerificationFailed,
            !accepted_at(token_claims(token@), now) ==> r is Err,
            dot_count(token@) != 2 ==> r is Err,
    {
        match verify_claims(self.key.as_str(), token, now, TIME_TOLERANCE_SECS) {
            Ok(c) => accept_claims(c),
            Err(_) => Err(AuthError::VerificationFailed),
        }
    }

    /// Checks `token` now and returns its claims.
    pub fn verify(&self, token: &str) -> (r: Result<Claims, AuthError>)
        ensures
            r matches Ok(c) ==> c@ == token_claims(token@)
                && exists|now: u64| #[trigger] verifies_at(self.key_pem(), token@, now) && accepted_at(c@, now),
            r matches Err(e) ==> e == AuthError::VerificationFailed,
            dot_count(token@) != 2 ==> r is Err,
    {
        let now = now_secs();
        if now > MAX_TIMESTAMP {
            return Err(AuthError::VerificationFailed);
        }
        self.verify_at(token, now)
    }
}

/// A token issued for `data` with the private key `sk` is accepted, with
/// `data` as its user, by a verifier holding the public key of `sk`, at any
/// time `t` from the issue time to the expiry.
pub proof fn lemma_round_trip(sk: Seq<char>, issuer: Seq<char>, data: Seq<char>, now: u64, token: Seq<char>, t: u64)
    requires
        signed_token(sk, issued_claims(issuer, data, now), token),
        token.len() <= MAX_TOKEN_LEN,
        now + TOKEN_LIFETIME_SECS <= MAX_TIMESTAMP,
        now <= t <= now + TOKEN_LIFETIME_SECS,
    ensures
        verifies_at(public_pem_of(sk), token, t),
        token_claims(token).custom_data == Some(data),
{
    assert(within(issued_claims(issuer, data, now), t, TIME_TOLERANCE_SECS));
}

/// A token issued for `data` carries `data` back to whoever verifies it.
pub proof fn lemma_issued_data_returns(issuer: Seq<char>, data: Seq<char>, now: u64, token: Seq<char>, c: ClaimsView)
    requires
        token_claims(token) == issued_claims(issuer, data, now),
        c == token_claims(token),
    ensures
        c.custom_data == Some(data),
{
}

/// Claims whose expiry lies before `now` are not accepted at `now`,
/// whatever their signature.
pub proof fn lemma_expired_rejected(c: ClaimsView, now: u64)
    requires
        c.expires_at matches Some(e) && e < now,
    ensures
        !accepted_at(c, now),
{
}

} // verus!
