use vstd::prelude::*;
use vstd::utf8::{decode_utf8, encode_utf8, valid_utf8};

use crate::session::{decode, encode, fits, lemma_decode_encode, Session, SessionView};
use crate::store::{corrupt, stored, token_key, SessionStore, StoreFault};
use crate::json::StrFields;
use crate::text::{trim, trimmed, utf8_text};
use crate::time::{SignedDuration, Timestamp};

verus! {

/// How a request is turned down, as an HTTP status.
#[derive(Clone, Copy, Debug, PartialEq, Eq, Structural)]
pub enum Rejection {
    BadRequest,
    Unauthorized,
    NotFound,
    Conflict,
    InternalError,
}

impl Rejection {
    pub open spec fn spec_status_code(self) -> u16 {
        match self {
            Rejection::BadRequest => 400,
            Rejection::Unauthorized => 401,
            Rejection::NotFound => 404,
            Rejection::Conflict => 409,
            Rejection::InternalError => 500,
        }
    }

    /// The HTTP status code of this rejection.
    pub fn status_code(&self) -> (r: u16)
        ensures
            r == self.spec_status_code(),
    {
        match self {
            Rejection::BadRequest => 400,
            Rejection::Unauthorized => 401,
            Rejection::NotFound => 404,
            Rejection::Conflict => 409,
            Rejection::InternalError => 500,
        }
    }
}

/// What the bytes stored for a token say at a given instant.
pub enum Verdict {
    Valid(SessionView),
    NotFound,
    Expired,
    Malformed,
}

/// Whether the record `v` is past its validity window at instant `now`.
pub open spec fn expired_at(v: SessionView, now: int) -> bool {
    now >= v.created_on + v.duration
}

/// The verdict on the bytes `stored` for a token, at instant `now`.
pub open spec fn verdict(stored: Option<Seq<u8>>, now: int) -> Verdict {
    match stored {
        None => Verdict::NotFound,
        Some(b) => match decode(b) {
            None => Verdict::Malformed,
            Some(v) => if expired_at(v, now) {
                Verdict::Expired
            } else {
                Verdict::Valid(v)
            },
        },
    }
}

/// The terminal state of resolving a presented credential.
pub enum Resolution {
    /// No well-formed bearer credential was presented.
    NoCredential,
    /// No record is stored for the token.
    NotFound,
    /// The record was past its window; `purged` tells whether its deletion took effect.
    Expired { purged: bool },
    /// The record is within its window.
    Valid(Session),
    /// The store failed, or holds bytes that are not a record.
    StoreFault,
}

/// Whether `r` is the outcome that the verdict `v` calls for.
pub open spec fn agrees(r: Resolution, v: Verdict) -> bool {
    match r {
        Resolution::Valid(s) => v == Verdict::Valid(s@),
        Resolution::NotFound => v is NotFound,
        Resolution::Expired { .. } => v is Expired,
        Resolution::StoreFault => v is Malformed,
        Resolution::NoCredential => false,
    }
}

/// Whether resolving `token` at `now` may end in `r`, taking the store from
/// `before` to `after`. A store I/O fault may end any resolution in
/// `StoreFault`; otherwise the verdict decides, and only an expired record is
/// deleted.
pub open spec fn resolves(
    before: Map<Seq<u8>, Seq<u8>>,
    after: Map<Seq<u8>, Seq<u8>>,
    token: Seq<char>,
    now: int,
    r: Resolution,
) -> bool {
    let v = verdict(stored(before, token), now);
    &&& r is StoreFault || agrees(r, v)
    &&& v is Malformed ==> r is StoreFault
    &&& match r {
        Resolution::Expired { purged } => purged ==> after == before.remove(token_key(token)),
        _ => after == before,
    }
}

impl Resolution {
    pub open spec fn spec_required(self) -> Result<Session, Rejection> {
        match self {
            Resolution::Valid(s) => Ok(s),
            Resolution::StoreFault => Err(Rejection::InternalError),
            _ => Err(Rejection::Unauthorized),
        }
    }

    pub open spec fn spec_optional(self) -> Result<Option<Session>, Rejection> {
        match self {
            Resolution::Valid(s) => Ok(Some(s)),
            Resolution::StoreFault => Err(Rejection::InternalError),
            _ => Ok(None),
        }
    }

    /// Mandatory extraction: the session, or the rejection of the request.
    pub fn required(self) -> (r: Result<Session, Rejection>)
        ensures
            r == self.spec_required(),
    {
        match self {
            Resolution::Valid(s) => Ok(s),
            Resolution::StoreFault => Err(Rejection::InternalError),
            _ => Err(Rejection::Unauthorized),
        }
    }

    /// Optional extraction: a missing or expired credential gives no identity,
    /// while a store fault still rejects the request.
    pub fn optional(self) -> (r: Result<Option<Session>, Rejection>)
        ensures
            r == self.spec_optional(),
    {
        match self {
            Resolution::Valid(s) => Ok(Some(s)),
            Resolution::StoreFault => Err(Rejection::InternalError),
            _ => Ok(None),
        }
    }
}

/// What a store lookup means at instant `now`: a fault of the store, no
/// record, a record past its window (not yet deleted), or a valid record.
pub fn judge(found: Result<Option<Session>, StoreFault>, now: Timestamp) -> (r: Resolution)
    ensures
        found is Err ==> r is StoreFault,
        found matches Ok(None) ==> r is NotFound,
        found matches Ok(Some(s)) ==> if expired_at(s@, now.nanosecond as int) {
            r == (Resolution::Expired { purged: false })
        } else {
            r == Resolution::Valid(s)
        },
{
    match found {
        Err(_) => Resolution::StoreFault,
        Ok(None) => Resolution::NotFound,
        Ok(Some(s)) => {
            if now.reached(s.created_on, s.duration) {
                Resolution::Expired { purged: false }
            } else {
                Resolution::Valid(s)
            }
        },
    }
}

/// Resolves the bearer `token` presented at instant `now`: looks its record
/// up, and deletes the record where it has expired.
pub fn resolve(store: &mut SessionStore, token: Option<&str>, now: Timestamp) -> (r: Resolution)
    ensures
        token is None ==> r is NoCredential && final(store).contents() == old(store).contents(),
        token matches Some(t) ==> resolves(
            old(store).contents(),
            final(store).contents(),
            t@,
            now.nanosecond as int,
            r,
        ),
{
    let t = match token {
        None => return Resolution::NoCredential,
        Some(t) => t,
    };
    match judge(store.get(t), now) {
        Resolution::Expired { .. } => {
            let purged = store.remove(t).is_ok();
            Resolution::Expired { purged }
        },
        other => other,
    }
}

/// Number of characters in an issued bearer token.
pub const TOKEN_LENGTH: usize = 50;

/// Minutes for which an issued session stays valid.
pub const SESSION_MINUTES: i64 = 10;

/// Whether `b` is the code of an ASCII letter or digit.
pub open spec fn is_alphanumeric_byte(b: u8) -> bool {
    (48 <= b <= 57) || (65 <= b <= 90) || (97 <= b <= 122)
}

/// Whether `c` is an ASCII letter or digit.
pub open spec fn is_alphanumeric_char(c: char) -> bool {
    ('0' <= c <= '9') || ('A' <= c <= 'Z') || ('a' <= c <= 'z')
}

/// Relies on rand's `Alphanumeric` distribution drawn from `rand::rng()`: one
/// byte out of a-z, A-Z and 0-9.
#[verifier::external_body]
fn random_alphanumeric() -> (r: u8)
    ensures
        is_alphanumeric_byte(r),
{
    rand::Rng::sample(&mut rand::rng(), rand::distr::Alphanumeric)
}

proof fn lemma_ascii_utf8(b: Seq<u8>)
    requires
        forall|i: int| 0 <= i < b.len() ==> #[trigger] b[i] < 128,
    ensures
        valid_utf8(b),
        decode_utf8(b) == Seq::new(b.len(), |i: int| b[i] as char),
    decreases b.len(),
{
    if b.len() > 0 {
        let rest = b.subrange(1, b.len() as int);
        assert(vstd::utf8::pop_first_scalar(b) =~= rest);
        lemma_ascii_utf8(rest);
        let b0 = b[0];
        assert(b0 & 0x7f == b0) by (bit_vector)
            requires
                b0 < 128,
        ;
        assert(decode_utf8(b)[0] == b0 as char);
        assert(decode_utf8(b) =~= Seq::new(b.len(), |i: int| b[i] as char));
    }
}

/// A bearer token of `LENGTH` characters drawn uniformly from a-z, A-Z and 0-9.
pub fn generate_random_token<const LENGTH: usize>() -> (r: String)
    ensures
        r@.len() == LENGTH,
        forall|i: int| 0 <= i < r@.len() ==> is_alphanumeric_char(#[trigger] r@[i]),
{
    let mut bytes: Vec<u8> = Vec::new();
    let mut i: usize = 0;
    while i < LENGTH
        invariant
            i <= LENGTH,
            bytes@.len() == i,
            forall|j: int| 0 <= j < i ==> is_alphanumeric_byte(#[trigger] bytes@[j]),
        decreases LENGTH - i,
    {
        bytes.push(random_alphanumeric());
        i = i + 1;
    }
    proof {
        lemma_ascii_utf8(bytes@);
    }
    match utf8_text(bytes.as_slice()) {
        Some(t) => t.to_owned(),
        None => String::new(),
    }
}

/// Whether `password` verifies against the stored password hash `hash`.
pub uninterp spec fn password_matches(password: Seq<char>, hash: Seq<char>) -> bool;

/// Relies on password_auth::verify_password: `Ok` exactly when the hash parses
/// and the password verifies against it; the result depends on the two
/// strings alone, since the salt is part of the hash. An empty hash does not
/// parse.
#[verifier::external_body]
fn verify_password(password: &str, hash: &str) -> (r: bool)
    ensures
        r == password_matches(password@, hash@),
        hash@.len() == 0 ==> !r,
{
    password_auth::verify_password(password, hash).is_ok()
}

/// Whether `password` verifies against the hash looked up for the user, where
/// a user was found.
pub open spec fn credentials_match(password: Seq<char>, stored_hash: Option<&str>) -> bool {
    stored_hash matches Some(h) && password_matches(password, h@)
}

/// The sign-in request body.
pub struct SigninReq {
    pub username: String,
    pub password: String,
}

impl StrFields for SigninReq {
    open spec fn str_fields(&self) -> Seq<(Seq<char>, Seq<char>)> {
        seq![("username"@, self.username@), ("password"@, self.password@)]
    }

    fn str_field_list(&self) -> (r: Vec<(&'static str, &str)>) {
        vec![("username", self.username.as_str()), ("password", self.password.as_str())]
    }
}

/// The sign-in response body.
pub struct Token {
    pub token: String,
}

/// Whether every text field of a sign-in request is non-empty.
pub open spec fn signin_fields_set(username: Seq<char>, password: Seq<char>) -> bool {
    username.len() > 0 && password.len() > 0
}

/// The record issued to `username` under `token` at instant `now`.
pub open spec fn issued(token: Seq<char>, username: Seq<char>, now: int) -> SessionView {
    SessionView {
        token,
        username,
        created_on: now as i128,
        duration: (SESSION_MINUTES * crate::time::NANOS_PER_MINUTE) as i128,
    }
}

/// Whether `t` has the shape of an issued bearer token.
pub open spec fn token_shaped(t: Seq<char>) -> bool {
    t.len() == TOKEN_LENGTH && forall|i: int| 0 <= i < t.len() ==> is_alphanumeric_char(#[trigger] t[i])
}

/// Signs a user in at instant `now`. `stored_hash` is the password hash found
/// for `req.username`, or `None` where no such user exists. On success a fresh
/// token is issued and its session persisted; every failure leaves the store
/// as it was, but a store fault while persisting.
pub fn signin_at(
    store: &mut SessionStore,
    req: &SigninReq,
    stored_hash: Option<&str>,
    now: Timestamp,
) -> (r: Result<Token, Rejection>)
    ensures
        !signin_fields_set(req.username@, req.password@) ==> r == Err::<Token, Rejection>(
            Rejection::BadRequest,
        ),
        signin_fields_set(req.username@, req.password@) && !credentials_match(
            req.password@,
            stored_hash,
        ) ==> r == Err::<Token, Rejection>(Rejection::Unauthorized),
        credentials_match(req.password@, stored_hash) && signin_fields_set(
            req.username@,
            req.password@,
        ) ==> r is Ok || r == Err::<Token, Rejection>(Rejection::InternalError),
        r is Err && r != Err::<Token, Rejection>(Rejection::InternalError)
            ==> final(store).contents() == old(store).contents(),
        r matches Ok(t) ==> token_shaped(t.token@) && final(store).contents()
            == old(store).contents().insert(
            token_key(t.token@),
            encode(issued(t.token@, req.username@, now.nanosecond as int)),
        ),
{
    if req.username.as_str().is_empty() || req.password.as_str().is_empty() {
        return Err(Rejection::BadRequest);
    }
    let verified = match stored_hash {
        Some(h) => verify_password(req.password.as_str(), h),
        None => false,
    };
    if !verified {
        return Err(Rejection::Unauthorized);
    }
    let token = generate_random_token::<TOKEN_LENGTH>();
    let record = Session {
        token: token.clone(),
        username: req.username.clone(),
        created_on: now,
        duration: SignedDuration::from_mins(SESSION_MINUTES),
    };
    match store.insert(token.as_str(), &record) {
        Ok(()) => Ok(Token { token }),
        Err(_) => Err(Rejection::InternalError),
    }
}

/// The store after the record of `username` was issued under `token` at
/// instant `issued_at`.
pub open spec fn after_issue(
    contents: Map<Seq<u8>, Seq<u8>>,
    token: Seq<char>,
    username: Seq<char>,
    issued_at: int,
) -> Map<Seq<u8>, Seq<u8>> {
    contents.insert(token_key(token), encode(issued(token, username, issued_at)))
}

/// Whether `t` is an instant that a `Timestamp` can hold.
pub open spec fn instant(t: int) -> bool {
    i128::MIN <= t <= i128::MAX
}

/// An issued token, presented before its validity window closes, resolves to
/// the record it was issued with, so mandatory extraction yields the user who
/// signed in; only a store I/O fault can intervene, and nothing is deleted.
pub proof fn lemma_issued_token_resolves(
    contents: Map<Seq<u8>, Seq<u8>>,
    after: Map<Seq<u8>, Seq<u8>>,
    token: Seq<char>,
    username: Seq<char>,
    issued_at: int,
    at: int,
    r: Resolution,
)
    requires
        fits(issued(token, username, issued_at)),
        instant(issued_at),
        at < issued_at + SESSION_MINUTES * crate::time::NANOS_PER_MINUTE,
        resolves(after_issue(contents, token, username, issued_at), after, token, at, r),
    ensures
        verdict(stored(after_issue(contents, token, username, issued_at), token), at)
            == Verdict::Valid(issued(token, username, issued_at)),
        r is StoreFault || (r.spec_required() matches Ok(s) && s@ == issued(
            token,
            username,
            issued_at,
        ) && s.username@ == username),
        after == after_issue(contents, token, username, issued_at),
{
    lemma_decode_encode(issued(token, username, issued_at));
}

/// An issued token presented at or after the end of its validity window is
/// rejected as unauthorized by mandatory extraction (unless the store faults),
/// and once its deletion has taken effect a lookup of the token finds nothing.
pub proof fn lemma_expired_token_rejected(
    contents: Map<Seq<u8>, Seq<u8>>,
    after: Map<Seq<u8>, Seq<u8>>,
    token: Seq<char>,
    username: Seq<char>,
    issued_at: int,
    at: int,
    r: Resolution,
)
    requires
        fits(issued(token, username, issued_at)),
        instant(issued_at),
        at >= issued_at + SESSION_MINUTES * crate::time::NANOS_PER_MINUTE,
        resolves(after_issue(contents, token, username, issued_at), after, token, at, r),
    ensures
        verdict(stored(after_issue(contents, token, username, issued_at), token), at)
            is Expired,
        r is StoreFault || r.spec_required() == Err::<Session, Rejection>(Rejection::Unauthorized),
        r matches Resolution::Expired { purged } && purged ==> stored(after, token) is None,
{
    lemma_decode_encode(issued(token, username, issued_at));
}

/// Two extractions of one expired token, one after the other, leave the store
/// consistent: once the first has deleted the record, the second finds
/// nothing, deletes nothing and is rejected, and deleting the key again would
/// change nothing.
pub proof fn lemma_repeated_expiry_consistent(
    before: Map<Seq<u8>, Seq<u8>>,
    mid: Map<Seq<u8>, Seq<u8>>,
    after: Map<Seq<u8>, Seq<u8>>,
    token: Seq<char>,
    at1: int,
    at2: int,
    r1: Resolution,
    r2: Resolution,
)
    requires
        resolves(before, mid, token, at1, r1),
        r1 matches Resolution::Expired { purged } && purged,
        resolves(mid, after, token, at2, r2),
    ensures
        r2 is NotFound || r2 is StoreFault,
        after == mid,
        mid.remove(token_key(token)) == mid,
        r2.spec_required() is Err,
{
    assert(mid.remove(token_key(token)) =~= mid);
}

/// Optional extraction downgrades exactly the unauthorized outcomes of
/// mandatory extraction to "no identity"; an internal error is never
/// downgraded, and a record that does not decode rejects the request with an
/// internal error in both modes.
pub proof fn lemma_optional_keeps_faults(
    before: Map<Seq<u8>, Seq<u8>>,
    after: Map<Seq<u8>, Seq<u8>>,
    token: Seq<char>,
    now: int,
    r: Resolution,
)
    requires
        resolves(before, after, token, now, r),
    ensures
        r.spec_optional() == Err::<Option<Session>, Rejection>(Rejection::InternalError)
            <==> r.spec_required() == Err::<Session, Rejection>(Rejection::InternalError),
        r.spec_optional() == Ok::<Option<Session>, Rejection>(None) <==> r.spec_required() == Err::<
            Session,
            Rejection,
        >(Rejection::Unauthorized),
        corrupt(before, token) ==> r.spec_optional() == Err::<Option<Session>, Rejection>(
            Rejection::InternalError,
        ),
{
}

/// The head of an HTTP request (method, URI, headers), held opaque.
#[verifier::external_type_specification]
#[verifier::external_body]
pub struct ExParts(axum::http::request::Parts);

/// The bearer credential that a request head presents, if any.
pub uninterp spec fn bearer_of(parts: axum::http::request::Parts) -> Option<Seq<char>>;

/// Relies on axum_auth's `AuthBearer` decoding: the text after `Bearer ` in the
/// `Authorization` header, or nothing where the header is absent, not visible
/// ASCII, or of another scheme. It only reads the request head, so the result
/// depends on the head alone.
#[verifier::external_body]
fn bearer_token(parts: &mut axum::http::request::Parts) -> (r: Option<String>)
    ensures
        *final(parts) == *old(parts),
        r is None <==> bearer_of(*old(parts)) is None,
        r matches Some(t) ==> bearer_of(*old(parts)) == Some(t@),
{
    <axum_auth::AuthBearer as axum_auth::AuthBearerCustom>::decode_request_parts(parts).ok().map(
        |b| b.0,
    )
}

/// Whether `r` is the outcome of resolving the presented credential `token`
/// at instant `now`, from a store that held `before` and now holds `after`.
pub open spec fn resolved_at(
    before: Map<Seq<u8>, Seq<u8>>,
    after: Map<Seq<u8>, Seq<u8>>,
    token: Option<Seq<char>>,
    now: int,
    r: Resolution,
) -> bool {
    match token {
        None => r is NoCredential && after == before,
        Some(t) => resolves(before, after, t, now, r),
    }
}

/// Whether `r` is the outcome of resolving the presented credential `token`
/// at some instant, from a store that held `before` and now holds `after`.
pub open spec fn resolved_with(
    before: Map<Seq<u8>, Seq<u8>>,
    after: Map<Seq<u8>, Seq<u8>>,
    token: Option<Seq<char>>,
    r: Resolution,
) -> bool {
    exists|now: int| #[trigger] resolved_at(before, after, token, now, r)
}

/// Resolves the bearer credential of a request head at the current instant.
pub fn resolve_request(parts: &mut axum::http::request::Parts, store: &mut SessionStore) -> (r:
    Resolution)
    ensures
        *final(parts) == *old(parts),
        resolved_with(old(store).contents(), final(store).contents(), bearer_of(*old(parts)), r),
{
    let token = bearer_token(parts);
    let now = Timestamp::now();
    let r = match &token {
        Some(t) => resolve(store, Some(t.as_str()), now),
        None => resolve(store, None, now),
    };
    proof {
        assert(resolved_at(
            old(store).contents(),
            store.contents(),
            bearer_of(*old(parts)),
            now.nanosecond as int,
            r,
        ));
    }
    r
}

impl Session {
    /// Mandatory extraction of the session of a request.
    pub fn from_request_parts(
        parts: &mut axum::http::request::Parts,
        store: &mut SessionStore,
    ) -> (r: Result<Session, Rejection>)
        ensures
            *final(parts) == *old(parts),
            exists|res: Resolution|
                resolved_with(
                    old(store).contents(),
                    final(store).contents(),
                    bearer_of(*old(parts)),
                    res,
                ) && r
                    == res.spec_required(),
    {
        resolve_request(parts, store).required()
    }

    /// Optional extraction of the session of a request.
    pub fn from_request_parts_optional(
        parts: &mut axum::http::request::Parts,
        store: &mut SessionStore,
    ) -> (r: Result<Option<Session>, Rejection>)
        ensures
            *final(parts) == *old(parts),
            exists|res: Resolution|
                resolved_with(
                    old(store).contents(),
                    final(store).contents(),
                    bearer_of(*old(parts)),
                    res,
                ) && r
                    == res.spec_optional(),
    {
        resolve_request(parts, store).optional()
    }
}

pub open spec fn spec_gate(extracted: Result<Option<Session>, Rejection>) -> Result<(), Rejection> {
    match extracted {
        Ok(Some(_)) => Ok(()),
        Ok(None) => Err(Rejection::Unauthorized),
        Err(e) => Err(e),
    }
}

/// Whether a request to a protected route may proceed: it needs an identity;
/// without one it is unauthorized, and an extraction error is kept.
pub fn gate(extracted: &Result<Option<Session>, Rejection>) -> (r: Result<(), Rejection>)
    ensures
        r == spec_gate(*extracted),
{
    match extracted {
        Ok(Some(_)) => Ok(()),
        Ok(None) => Err(Rejection::Unauthorized),
        Err(e) => Err(*e),
    }
}

/// Gates a request to a protected route on its bearer credential.
pub fn protect_routes(parts: &mut axum::http::request::Parts, store: &mut SessionStore) -> (r:
    Result<(), Rejection>)
    ensures
        *final(parts) == *old(parts),
        exists|res: Resolution|
            resolved_with(
                    old(store).contents(),
                    final(store).contents(),
                    bearer_of(*old(parts)),
                    res,
                ) && r
                == spec_gate(res.spec_optional()),
{
    let extracted = Session::from_request_parts_optional(parts, store);
    gate(&extracted)
}

/// Signs a user in at the current instant; see `signin_at`.
pub fn signin(store: &mut SessionStore, req: &SigninReq, stored_hash: Option<&str>) -> (r: Result<
    Token,
    Rejection,
>)
    ensures
        !signin_fields_set(req.username@, req.password@) ==> r == Err::<Token, Rejection>(
            Rejection::BadRequest,
        ),
        signin_fields_set(req.username@, req.password@) && !credentials_match(
            req.password@,
            stored_hash,
        ) ==> r == Err::<Token, Rejection>(Rejection::Unauthorized),
        credentials_match(req.password@, stored_hash) && signin_fields_set(
            req.username@,
            req.password@,
        ) ==> r is Ok || r == Err::<Token, Rejection>(Rejection::InternalError),
        r is Err && r != Err::<Token, Rejection>(Rejection::InternalError)
            ==> final(store).contents() == old(store).contents(),
        r matches Ok(t) ==> token_shaped(t.token@) && exists|now: int|
            final(store).contents() == #[trigger] after_issue(
                old(store).contents(),
                t.token@,
                req.username@,
                now,
            ),
{
    let now = Timestamp::now();
    let r = signin_at(store, req, stored_hash, now);
    proof {
        if let Ok(t) = &r {
            let _ = after_issue(old(store).contents(), t.token@, req.username@, now.nanosecond as int);
        }
    }
    r
}

/// Longest password, in bytes, that the hashing scheme accepts.
pub const MAX_PASSWORD_BYTES: usize = 0xFFFF_FFFF;

/// Relies on password_auth::generate_hash: a hash of `password` under a fresh
/// random salt, which is kept in the hash, so that verify_password accepts
/// `password` against it. It panics on passwords longer than argon2 accepts.
#[verifier::external_body]
fn generate_hash(password: &str) -> (r: String)
    requires
        encode_utf8(password@).len() <= MAX_PASSWORD_BYTES,
    ensures
        password_matches(password@, r@),
{
    password_auth::generate_hash(password)
}

/// The sign-up request body.
pub struct SignupParams {
    pub mail: String,
    pub first_name: Option<String>,
    pub last_name: Option<String>,
    pub username: String,
    pub password: String,
    pub password2: String,
}

impl StrFields for SignupParams {
    open spec fn str_fields(&self) -> Seq<(Seq<char>, Seq<char>)> {
        seq![
            ("mail"@, self.mail@),
            ("username"@, self.username@),
            ("password"@, self.password@),
            ("password2"@, self.password2@),
        ]
    }

    fn str_field_list(&self) -> (r: Vec<(&'static str, &str)>) {
        vec![
            ("mail", self.mail.as_str()),
            ("username", self.username.as_str()),
            ("password", self.password.as_str()),
            ("password2", self.password2.as_str()),
        ]
    }
}

/// The user record to create on sign-up, with the password hashed.
pub struct NewUser {
    pub username: String,
    pub mail: String,
    pub password_hash: String,
    pub first_name: Option<String>,
    pub last_name: Option<String>,
}

/// Whether every text field of a sign-up request is non-empty.
pub open spec fn signup_fields_set(p: SignupParams) -> bool {
    p.mail@.len() > 0 && p.username@.len() > 0 && p.password@.len() > 0 && p.password2@.len() > 0
}

/// The user record that a sign-up request asks for: a bad request where a
/// text field is empty or the two passwords differ once trimmed; an internal
/// error where the password is too long to hash.
pub fn new_user(params: SignupParams) -> (r: Result<NewUser, Rejection>)
    ensures
        !signup_fields_set(params) ==> r == Err::<NewUser, Rejection>(Rejection::BadRequest),
        signup_fields_set(params) && trimmed(params.password@) != trimmed(params.password2@)
            ==> r == Err::<NewUser, Rejection>(Rejection::BadRequest),
        signup_fields_set(params) && trimmed(params.password@) == trimmed(params.password2@) ==> (
        r is Ok <==> encode_utf8(params.password@).len() <= MAX_PASSWORD_BYTES),
        r is Err ==> r == Err::<NewUser, Rejection>(Rejection::BadRequest) || r == Err::<
            NewUser,
            Rejection,
        >(Rejection::InternalError),
        r matches Ok(u) ==> u.username@ == params.username@ && u.mail@ == params.mail@
            && u.first_name == params.first_name && u.last_name == params.last_name
            && password_matches(params.password@, u.password_hash@),
{
    if params.mail.as_str().is_empty() || params.username.as_str().is_empty()
        || params.password.as_str().is_empty() || params.password2.as_str().is_empty() {
        return Err(Rejection::BadRequest);
    }
    let first = trim(params.password.as_str()).to_owned();
    let second = trim(params.password2.as_str()).to_owned();
    if first != second {
        return Err(Rejection::BadRequest);
    }
    if params.password.as_str().as_bytes().len() > MAX_PASSWORD_BYTES {
        return Err(Rejection::InternalError);
    }
    let password_hash = generate_hash(params.password.as_str());
    Ok(
        NewUser {
            username: params.username,
            mail: params.mail,
            password_hash,
            first_name: params.first_name,
            last_name: params.last_name,
        },
    )
}

/// A user created from a sign-up request can sign in with the same username
/// and password: the stored hash verifies the password, so signing in issues a
/// token unless the session store faults.
pub proof fn lemma_signup_then_signin(params: SignupParams, user: NewUser, req: SigninReq, hash: &str)
    requires
        signup_fields_set(params),
        user.username@ == params.username@,
        password_matches(params.password@, user.password_hash@),
        req.username@ == user.username@,
        req.password@ == params.password@,
        hash@ == user.password_hash@,
    ensures
        signin_fields_set(req.username@, req.password@),
        credentials_match(req.password@, Some(hash)),
{
}

} // verus!
