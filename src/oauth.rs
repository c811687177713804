//! The OAuth2 credential and the decisions of the authorization-code flow
//! with PKCE: token expiry, when a refresh is due, the single pending
//! verifier, and reading the redirect callback.
use vstd::prelude::*;

use crate::query::{opt_view, pairs_view};

verus! {

/// The authorization endpoint.
pub const AUTH_URL: &'static str = "https://accounts.google.com/o/oauth2/v2/auth";

/// The token endpoint.
pub const TOKEN_URL: &'static str = "https://www.googleapis.com/oauth2/v3/token";

/// The revocation endpoint.
pub const REVOKE_URL: &'static str = "https://oauth2.googleapis.com/revoke";

/// The scope of calendar access.
pub const CALENDAR_SCOPE: &'static str = "https://www.googleapis.com/auth/calendar";

/// The scope of the user's profile.
pub const PROFILE_SCOPE: &'static str = "https://www.googleapis.com/auth/userinfo.profile";

/// The scope of the user's e-mail address.
pub const EMAIL_SCOPE: &'static str = "https://www.googleapis.com/auth/userinfo.email";

/// The safety margin taken off a declared lifetime, in seconds.
pub const EXPIRY_MARGIN_SECS: u64 = 60;

/// A failure of the authorization flow.
#[derive(Debug, Clone, PartialEq, Eq)]
pub enum AuthError {
    /// A code was exchanged with no pending verifier: no authorization URL
    /// was made, or its verifier was used already.
    MissingVerifier,
    /// A refresh was due but the token holds no refresh token.
    MissingRefreshToken,
    /// The token endpoint refused the exchange or could not be reached.
    Exchange(String),
    /// The redirect callback could not be received or read.
    Callback(String),
}

/// A bearer credential: the access token, an optional refresh token, and
/// when it expires, in seconds since the Unix epoch (none: never).
#[derive(Default, Debug, Clone, PartialEq, Eq)]
pub struct OToken {
    pub access: String,
    pub refresh: Option<String>,
    pub expires_at: Option<u128>,
}

/// The parameters that the redirect callback carries.
#[derive(Default, Debug, Clone, PartialEq, Eq)]
pub struct OAuthRequest {
    pub code: String,
    pub state: String,
    pub scope: String,
}

/// The seconds for which a token with declared lifetime `l` is used: the
/// lifetime less the margin, never below zero.
pub open spec fn usable_secs(l: u64) -> nat {
    if l >= EXPIRY_MARGIN_SECS {
        (l - EXPIRY_MARGIN_SECS) as nat
    } else {
        0
    }
}

/// When a token issued at `now` expires: with a declared lifetime, `now`
/// plus the lifetime less the margin (never before `now`); with none, never.
pub open spec fn expiry_of(expires_in: Option<u64>, now: u64) -> Option<u128> {
    match expires_in {
        Some(l) => Some((now + usable_secs(l)) as u128),
        None => None,
    }
}

/// When a token issued at `now` with lifetime `expires_in` (seconds)
/// expires, in seconds since the Unix epoch; none (never) when the server
/// declares no lifetime.
pub fn compute_expiration(expires_in: Option<u64>, now: u64) -> (r: Option<u128>)
    ensures
        r == expiry_of(expires_in, now),
        ({
            match expires_in {
                Some(l) => (l >= 60 ==> r == Some((now + (l - 60)) as u128)) && (l < 60 ==> r
                    == Some(now as u128)),
                None => r is None,
            }
        }),
{
    match expires_in {
        Some(l) => {
            let secs: u64 = if l >= EXPIRY_MARGIN_SECS {
                l - EXPIRY_MARGIN_SECS
            } else {
                0
            };
            Some(now as u128 + secs as u128)
        },
        None => None,
    }
}

/// Relies on std's `SystemTime::now` and `duration_since(UNIX_EPOCH)`: the
/// whole seconds since the epoch, none when the clock is before it.
#[verifier::external_body]
fn unix_now() -> (r: Option<u64>) {
    std::time::SystemTime::now().duration_since(std::time::UNIX_EPOCH).ok().map(|d| d.as_secs())
}

/// The current time in whole seconds since the Unix epoch; zero when the
/// clock is before the epoch.
pub fn now_secs() -> (r: u64) {
    match unix_now() {
        Some(s) => s,
        None => 0,
    }
}

impl OToken {
    /// Whether the token has expired at `now`: its expiry is present and
    /// not after `now`.
    pub open spec fn expired_at(&self, now: u64) -> bool {
        match self.expires_at {
            Some(t) => t <= now as u128,
            None => false,
        }
    }

    /// A token just issued at `now` with the declared lifetime.
    pub fn issued(access: String, refresh: Option<String>, expires_in: Option<u64>, now: u64) -> (r:
        OToken)
        ensures
            r.access == access,
            r.refresh == refresh,
            r.expires_at == expiry_of(expires_in, now),
    {
        OToken { access, refresh, expires_at: compute_expiration(expires_in, now) }
    }

    /// Whether the token has expired at `now`.
    pub fn is_expired_at(&self, now: u64) -> (r: bool)
        ensures
            r == self.expired_at(now),
    {
        match self.expires_at {
            Some(t) => t <= now as u128,
            None => false,
        }
    }

    /// Whether the token has expired now. A token without expiry never
    /// expires.
    pub fn is_expired(&self) -> (r: bool)
        ensures
            exists|now: u64| r == self.expired_at(now),
            self.expires_at is None ==> !r,
    {
        let now = now_secs();
        let r = self.is_expired_at(now);
        assert(r == self.expired_at(now));
        r
    }

    /// Takes over the access token, refresh token and expiry of `token`.
    pub fn take_over(&mut self, token: OToken)
        ensures
            *final(self) == token,
    {
        self.access = token.access;
        self.refresh = token.refresh;
        self.expires_at = token.expires_at;
    }

    /// The first step of a refresh at `now`. When the token has not
    /// expired, nothing changes and no exchange is due (`Ok(None)`). When
    /// it has, its refresh token is taken out and returned for the exchange;
    /// without one the refresh fails with `MissingRefreshToken` and nothing
    /// changes.
    pub fn begin_refresh(&mut self, now: u64) -> (r: Result<Option<String>, AuthError>)
        ensures
            !old(self).expired_at(now) ==> r == Ok::<Option<String>, AuthError>(None) && *final(self)
                == *old(self),
            old(self).expired_at(now) && old(self).refresh is None ==> r == Err::<
                Option<String>,
                AuthError,
            >(AuthError::MissingRefreshToken) && *final(self) == *old(self),
            old(self).expired_at(now) && old(self).refresh is Some ==> r == Ok::<
                Option<String>,
                AuthError,
            >(old(self).refresh) && *final(self) == (OToken { refresh: None, ..*old(self) }),
    {
        if !self.is_expired_at(now) {
            return Ok(None);
        }
        match self.refresh.take() {
            Some(t) => Ok(Some(t)),
            None => Err(AuthError::MissingRefreshToken),
        }
    }
}

/// The pending PKCE verifier of an authorization flow: at most one at a
/// time, set when an authorization URL is made, used up by the exchange of
/// the code.
#[derive(Default, Debug, Clone, PartialEq, Eq)]
pub struct VerifierSlot {
    pub verifier: Option<String>,
}

/// What a take of the pending verifier does: it empties the slot, returns
/// the verifier when there was one, and fails with `MissingVerifier` when
/// there was none.
pub open spec fn take_outcome(before: VerifierSlot, after: VerifierSlot, r: Result<String, AuthError>) -> bool {
    &&& after.verifier is None
    &&& match before.verifier {
        Some(v) => r == Ok::<String, AuthError>(v),
        None => r == Err::<String, AuthError>(AuthError::MissingVerifier),
    }
}

impl VerifierSlot {
    /// An empty slot.
    pub fn new() -> (r: VerifierSlot)
        ensures
            r.verifier is None,
    {
        VerifierSlot { verifier: None }
    }

    /// Makes `verifier` the pending one, replacing any that was not used.
    pub fn store(&mut self, verifier: String)
        ensures
            final(self).verifier == Some(verifier),
    {
        self.verifier = Some(verifier);
    }

    /// Takes the pending verifier for an exchange; fails with
    /// `MissingVerifier` when there is none. The slot is empty afterwards.
    pub fn take(&mut self) -> (r: Result<String, AuthError>)
        ensures
            final(self).verifier is None,
            take_outcome(*old(self), *final(self), r),
    {
        match self.verifier.take() {
            Some(v) => Ok(v),
            None => Err(AuthError::MissingVerifier),
        }
    }
}

/// A verifier is used once: when an exchange has taken the verifier and a
/// second exchange takes from the slot it left, the second one fails with
/// `MissingVerifier`.
pub proof fn lemma_verifier_single_use(
    first: VerifierSlot,
    between: VerifierSlot,
    after: VerifierSlot,
    r1: Result<String, AuthError>,
    r2: Result<String, AuthError>,
)
    requires
        take_outcome(first, between, r1),
        take_outcome(between, after, r2),
    ensures
        r2 == Err::<String, AuthError>(AuthError::MissingVerifier),
        after.verifier is None,
{
}

/// Whether a character is white space (Unicode's White_Space property,
/// as `char::is_whitespace` documents it).
pub open spec fn is_space(c: char) -> bool {
    let u = c as u32;
    (0x09 <= u <= 0x0D) || u == 0x20 || u == 0x85 || u == 0xA0 || u == 0x1680 || (0x2000 <= u
        <= 0x200A) || u == 0x2028 || u == 0x2029 || u == 0x202F || u == 0x205F || u == 0x3000
}

/// The text after the leading white space.
pub open spec fn drop_space(s: Seq<char>) -> Seq<char>
    decreases s.len(),
{
    if s.len() > 0 && is_space(s[0]) {
        drop_space(s.drop_first())
    } else {
        s
    }
}

/// The length of the leading run of non-space characters.
pub open spec fn word_len(s: Seq<char>) -> nat
    decreases s.len(),
{
    if s.len() == 0 || is_space(s[0]) {
        0
    } else {
        1 + word_len(s.drop_first())
    }
}

/// The second whitespace-separated word of a line (the target of an HTTP
/// request line).
pub open spec fn second_word(line: Seq<char>) -> Option<Seq<char>> {
    let first = drop_space(line);
    let rest = drop_space(first.skip(word_len(first) as int));
    if rest.len() == 0 {
        None
    } else {
        Some(rest.take(word_len(rest) as int))
    }
}

fn space_char(c: char) -> (r: bool)
    ensures
        r == is_space(c),
{
    let u = c as u32;
    (0x09 <= u && u <= 0x0D) || u == 0x20 || u == 0x85 || u == 0xA0 || u == 0x1680 || (0x2000 <= u
        && u <= 0x200A) || u == 0x2028 || u == 0x2029 || u == 0x202F || u == 0x205F || u == 0x3000
}

/// The index past the white space that starts at `i`.
fn skip_space(line: &str, n: usize, i: usize) -> (r: usize)
    requires
        n == line@.len(),
        i <= n,
    ensures
        i <= r <= n,
        drop_space(line@.skip(i as int)) == line@.skip(r as int),
{
    let mut j = i;
    while j < n
        invariant
            n == line@.len(),
            i <= j <= n,
            drop_space(line@.skip(i as int)) == drop_space(line@.skip(j as int)),
        decreases n - j,
    {
        let c = line.get_char(j);
        assert(line@.skip(j as int)[0] == c);
        if !space_char(c) {
            return j;
        }
        assert(line@.skip(j as int).drop_first() =~= line@.skip(j + 1));
        j = j + 1;
    }
    assert(line@.skip(n as int) =~= Seq::<char>::empty());
    j
}

/// The index past the word that starts at `i`.
fn skip_word(line: &str, n: usize, i: usize) -> (r: usize)
    requires
        n == line@.len(),
        i <= n,
    ensures
        i <= r <= n,
        word_len(line@.skip(i as int)) == r - i,
{
    let mut j = i;
    while j < n
        invariant
            n == line@.len(),
            i <= j <= n,
            word_len(line@.skip(i as int)) == (j - i) + word_len(line@.skip(j as int)),
        decreases n - j,
    {
        let c = line.get_char(j);
        assert(line@.skip(j as int)[0] == c);
        if space_char(c) {
            return j;
        }
        assert(line@.skip(j as int).drop_first() =~= line@.skip(j + 1));
        j = j + 1;
    }
    assert(line@.skip(n as int) =~= Seq::<char>::empty());
    j
}

/// The second whitespace-separated word of `line`.
fn request_target(line: &str) -> (r: Option<String>)
    ensures
        opt_view(r) == second_word(line@),
{
    let n = line.unicode_len();
    let a = skip_space(line, n, 0);
    assert(line@.skip(0) =~= line@);
    let b = skip_word(line, n, a);
    let c = skip_space(line, n, b);
    assert(line@.skip(a as int).skip((b - a) as int) =~= line@.skip(b as int));
    if c == n {
        assert(line@.skip(n as int) =~= Seq::<char>::empty());
        return None;
    }
    let d = skip_word(line, n, c);
    assert(line@.skip(c as int).take((d - c) as int) =~= line@.subrange(c as int, d as int));
    Some(String::from_str(line.substring_char(c, d)))
}

/// The decoded query pairs of an absolute URL, in order; none when the URL
/// does not parse.
pub uninterp spec fn parsed_query_pairs(url: Seq<char>) -> Option<Seq<(Seq<char>, Seq<char>)>>;

/// Relies on url's `Url::parse` and `query_pairs`, which splits the query
/// at `&` and `=` and decodes `+` and percent escapes.
#[verifier::external_body]
fn url_query_pairs(url: &str) -> (r: Option<Vec<(String, String)>>)
    ensures
        match r {
            Some(v) => parsed_query_pairs(url@) == Some(pairs_view(v@)),
            None => parsed_query_pairs(url@) is None,
        },
{
    url::Url::parse(url).ok().map(|u| u.query_pairs().map(|(k, v)| (k.into_owned(), v.into_owned())).collect())
}

/// The value of the first pair named `key`.
pub open spec fn first_value(ps: Seq<(Seq<char>, Seq<char>)>, key: Seq<char>) -> Option<Seq<char>>
    decreases ps.len(),
{
    if ps.len() == 0 {
        None
    } else if ps[0].0 == key {
        Some(ps[0].1)
    } else {
        first_value(ps.drop_first(), key)
    }
}

/// The code, state and scope among the pairs, when all three are there.
pub open spec fn callback_params(ps: Seq<(Seq<char>, Seq<char>)>) -> Option<
    (Seq<char>, Seq<char>, Seq<char>),
> {
    match (first_value(ps, "code"@), first_value(ps, "state"@), first_value(ps, "scope"@)) {
        (Some(c), Some(st), Some(sc)) => Some((c, st, sc)),
        _ => None,
    }
}

/// What a callback request line carries: its target, read as a path and
/// query on `http://localhost`, must give a code, a state and a scope.
pub open spec fn callback_of(line: Seq<char>) -> Option<(Seq<char>, Seq<char>, Seq<char>)> {
    match second_word(line) {
        Some(t) => match parsed_query_pairs("http://localhost"@ + t) {
            Some(ps) => callback_params(ps),
            None => None,
        },
        None => None,
    }
}

/// The value of the first pair named `key`.
pub fn find_value(pairs: &Vec<(String, String)>, key: &str) -> (r: Option<String>)
    ensures
        opt_view(r) == first_value(pairs_view(pairs@), key@),
{
    let n = pairs.len();
    let wanted = String::from_str(key);
    let mut i: usize = 0;
    let ghost ps = pairs_view(pairs@);
    assert(ps.skip(0) =~= ps);
    while i < n
        invariant
            n == pairs@.len(),
            ps == pairs_view(pairs@),
            wanted@ == key@,
            i <= n,
            first_value(ps, key@) == first_value(ps.skip(i as int), key@),
        decreases n - i,
    {
        assert(ps.skip(i as int)[0] == ps[i as int]);
        assert(ps.skip(i as int).drop_first() =~= ps.skip(i + 1));
        assert(ps[i as int] == (pairs@[i as int].0@, pairs@[i as int].1@));
        if pairs[i].0 == wanted {
            return Some(pairs[i].1.clone());
        }
        i = i + 1;
    }
    None
}

/// The callback parameters among the decoded query pairs: the first code,
/// state and scope, none when one of them is missing.
pub fn callback_from_pairs(pairs: &Vec<(String, String)>) -> (r: Option<OAuthRequest>)
    ensures
        match r {
            Some(req) => callback_params(pairs_view(pairs@)) == Some((req.code@, req.state@, req.scope@)),
            None => callback_params(pairs_view(pairs@)) is None,
        },
{
    let code = find_value(pairs, "code");
    let state = find_value(pairs, "state");
    let scope = find_value(pairs, "scope");
    match (code, state, scope) {
        (Some(code), Some(state), Some(scope)) => Some(OAuthRequest { code, state, scope }),
        _ => None,
    }
}

/// Reads the redirect callback from the request line of the HTTP request
/// that the browser makes: none when the line has no target, the target
/// does not parse, or the code, state or scope is missing.
pub fn parse_callback(request_line: &str) -> (r: Option<OAuthRequest>)
    ensures
        match r {
            Some(req) => callback_of(request_line@) == Some((req.code@, req.state@, req.scope@)),
            None => callback_of(request_line@) is None,
        },
{
    let target = match request_target(request_line) {
        Some(t) => t,
        None => return None,
    };
    let url = String::from_str("http://localhost").concat(target.as_str());
    match url_query_pairs(url.as_str()) {
        Some(pairs) => callback_from_pairs(&pairs),
        None => None,
    }
}

} // verus!
