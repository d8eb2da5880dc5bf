//! Session tokens: what they claim, how they are sealed and opened, and when
//! a request that presents one is let through.
//!
//! A token is sealed with a secret that the service alone holds. It claims who
//! signed in, with which role, from which device, and the span of seconds in
//! which it is good. Nothing is kept on the side of the service: a token ends
//! when its span ends.

use vstd::prelude::*;
use crate::database::model::{opt_text, Permission};
use crate::server::payload::{payload_claims, payload_of};
use crate::server::user::{opt_peer_view, LocalPeer, LocalPeerView};
use crate::server::bearer::{bearer_token, read_bearer};
use crate::server::{Response, StatusCode};

verus! {

/// The seconds for which a user's token is good: thirty days.
pub const USER_TOKEN_SECONDS: u64 = 2_592_000;

/// The seconds for which a token of the administration panel is good: thirty
/// days.
pub const MANAGE_TOKEN_SECONDS: u64 = 2_592_000;

/// The algorithm with which tokens are signed, by its name in a token's
/// header: HMAC with SHA-512.
pub const ALGORITHM: &'static str = "HS512";

/// The token that `jsonwebtoken::encode` makes of a payload under a secret
/// with the algorithm of that name, if it makes one. The name stands for calls
/// in a row, each a function of what it is given: `serde_json::from_str` reads
/// the payload, `Algorithm::from_str` the algorithm's name, and
/// `jsonwebtoken::encode` signs.
pub uninterp spec fn sealed(payload: Seq<char>, secret: Seq<u8>, algorithm: Seq<char>) -> Option<
    Seq<char>,
>;

/// The payload that `jsonwebtoken::decode` finds in a token under a secret, if
/// it accepts the token as signed with the algorithm of that name. The crate's
/// own check of the expiry is off in this reading, so that the clock has no
/// say: when a token is good is decided by `admitted`.
pub uninterp spec fn opened(token: Seq<char>, secret: Seq<u8>, algorithm: Seq<char>) -> Option<
    Seq<char>,
>;

/// `chrono::Utc::now` and `DateTime::timestamp`: the seconds since 1970 on
/// this machine's clock. Trusted: the number is not negative; chrono gives up
/// on a clock that stands before 1970.
#[verifier::external_body]
fn unix_now() -> (r: i64)
    ensures
        r >= 0,
{
    chrono::Utc::now().timestamp()
}

/// `jsonwebtoken::encode` with a header for the algorithm that
/// `Algorithm::from_str` reads from its name, on the payload read as JSON by
/// `serde_json::from_str`. Trusted: whether a token is made, and which, depends
/// on payload, secret and the algorithm's name alone.
#[verifier::external_body]
fn seal(payload: &str, secret: &[u8], algorithm: &str) -> (r: Option<String>)
    ensures
        opt_text(r) == sealed(payload@, secret@, algorithm@),
{
    let claims: serde_json::Value = serde_json::from_str(payload).ok()?;
    let header = jsonwebtoken::Header::new(algorithm.parse().ok()?);
    let key = jsonwebtoken::EncodingKey::from_secret(secret);
    jsonwebtoken::encode(&header, &claims, &key).ok()
}

/// `jsonwebtoken::decode` for the algorithm that `Algorithm::from_str` reads
/// from its name, with the crate's own check of the expiry switched off, and
/// the payload written back as JSON text. Trusted: whether the token is
/// accepted, and the payload found, depend on token, secret and the
/// algorithm's name alone. The clock plays no part in the result, though
/// jsonwebtoken reads it and gives up where it stands before 1970.
#[verifier::external_body]
fn open(token: &str, secret: &[u8], algorithm: &str) -> (r: Option<String>)
    ensures
        opt_text(r) == opened(token@, secret@, algorithm@),
{
    let mut rules = jsonwebtoken::Validation::new(algorithm.parse().ok()?);
    rules.validate_exp = false;
    let key = jsonwebtoken::DecodingKey::from_secret(secret);
    let data = jsonwebtoken::decode::<serde_json::Value>(token, &key, &rules).ok()?;
    Some(data.claims.to_string())
}

/// The second, counted from 1970 in UTC, that this machine's clock shows. A
/// clock that stands before 1970 is outside what is promised here: chrono
/// gives up on it instead of answering.
pub fn current_timestamp() -> (r: u64)
    ensures
        r <= i64::MAX,
{
    let now = unix_now();
    now as u64
}

/// The two kinds of token: a user's, bound to a device, and the
/// administration panel's, which carries a name and a role only.
#[derive(Clone, Copy, Debug, PartialEq, Eq, Structural)]
pub enum TokenFamily {
    User,
    Management,
}

/// What a token claims.
#[derive(Clone, Debug, PartialEq, Eq)]
pub struct Claims {
    /// The last second in which the token is good.
    pub exp: u64,
    /// The second in which the token was issued.
    pub iat: u64,
    /// The name of the account that signed in.
    pub iss: String,
    /// The first second in which the token is good.
    pub nbf: u64,
    /// The device a user's token is bound to; none in a token of the
    /// administration panel.
    pub local_peer: Option<LocalPeer>,
    /// The role of the account that signed in.
    pub perm: Permission,
}

/// What the claims of a token hold.
pub struct ClaimsView {
    pub exp: u64,
    pub iat: u64,
    pub iss: Seq<char>,
    pub nbf: u64,
    pub local_peer: Option<LocalPeerView>,
    pub perm: Permission,
}

impl View for Claims {
    type V = ClaimsView;

    open spec fn view(&self) -> ClaimsView {
        ClaimsView {
            exp: self.exp,
            iat: self.iat,
            iss: self.iss@,
            nbf: self.nbf,
            local_peer: opt_peer_view(self.local_peer),
            perm: self.perm,
        }
    }
}

/// What optional claims hold.
pub open spec fn opt_claims_view(c: Option<Claims>) -> Option<ClaimsView> {
    match c {
        Some(claims) => Some(claims@),
        None => None,
    }
}

impl ClaimsView {
    /// The kind of token that carries these claims.
    pub open spec fn family(self) -> TokenFamily {
        if self.local_peer is Some {
            TokenFamily::User
        } else {
            TokenFamily::Management
        }
    }

    /// Whether the claims have the shape of one of the two kinds: only a
    /// user's token is bound to a device.
    pub open spec fn well_shaped(self) -> bool {
        self.local_peer is Some ==> self.perm == Permission::User
    }

    /// Whether the token is good in the second `now`: from its first second
    /// to its last, both included.
    pub open spec fn good_at(self, now: u64) -> bool {
        self.nbf <= now <= self.exp
    }

    /// The claims of a token issued in the second `now` and good for
    /// `validity` seconds.
    pub open spec fn issued(
        subject: Seq<char>,
        perm: Permission,
        local_peer: Option<LocalPeerView>,
        now: u64,
        validity: u64,
    ) -> ClaimsView {
        ClaimsView {
            exp: (now + validity) as u64,
            iat: now,
            iss: subject,
            nbf: now,
            local_peer: local_peer,
            perm: perm,
        }
    }
}

/// What is let through of the claims found in a token, in the second `now`:
/// the claims themselves while the token is good, nothing before its first
/// second and nothing after its last.
pub open spec fn admitted(found: Option<ClaimsView>, now: u64) -> Option<ClaimsView> {
    match found {
        Some(c) => if c.good_at(now) {
            Some(c)
        } else {
            None
        },
        None => None,
    }
}

/// After its last second a token is always refused; in its last second, and in
/// every second from its first on before that, it is let through unchanged.
pub proof fn lemma_expiry_boundary(c: ClaimsView, now: u64)
    ensures
        now > c.exp ==> admitted(Some(c), now) is None,
        now < c.nbf ==> admitted(Some(c), now) is None,
        c.nbf <= now <= c.exp ==> admitted(Some(c), now) == Some(c),
{
}

/// A token issued in the second `now` is let through in that second, one
/// second before its last, and in its last second; one second later it is
/// refused.
pub proof fn lemma_issued_window(
    subject: Seq<char>,
    perm: Permission,
    local_peer: Option<LocalPeerView>,
    now: u64,
    validity: u64,
)
    requires
        1 <= validity,
        now + validity < u64::MAX,
    ensures
        ({
            let c = ClaimsView::issued(subject, perm, local_peer, now, validity);
            &&& c.exp == now + validity
            &&& admitted(Some(c), now) == Some(c)
            &&& admitted(Some(c), (c.exp - 1) as u64) == Some(c)
            &&& admitted(Some(c), c.exp) == Some(c)
            &&& admitted(Some(c), (c.exp + 1) as u64) is None
        }),
{
}

impl Claims {
    /// A copy of the claims.
    pub fn copy(&self) -> (r: Claims)
        ensures
            r@ == self@,
    {
        Claims {
            exp: self.exp,
            iat: self.iat,
            iss: self.iss.clone(),
            nbf: self.nbf,
            local_peer: match &self.local_peer {
                Some(lp) => Some(lp.copy()),
                None => None,
            },
            perm: self.perm,
        }
    }

    /// The kind of token that carries these claims.
    pub fn family(&self) -> (r: TokenFamily)
        ensures
            r == self@.family(),
    {
        match &self.local_peer {
            Some(_) => TokenFamily::User,
            None => TokenFamily::Management,
        }
    }

    /// Whether the token is good in the second `now`: from its first second
    /// to its last, both included.
    pub fn good_at(&self, now: u64) -> (r: bool)
        ensures
            r == self@.good_at(now),
    {
        self.nbf <= now && now <= self.exp
    }

    /// The claims of a token issued in the second `now` for the account
    /// `subject`: good from that second on for the span of its kind. `None`
    /// where a device is given for another role than a user's, or the span
    /// would end after the last second that can be counted.
    pub fn issue(subject: &str, perm: Permission, local_peer: Option<&LocalPeer>, now: u64) -> (r:
        Option<Claims>)
        ensures
            opt_claims_view(r) == ({
                let lp = match local_peer {
                    Some(p) => Some(p@),
                    None => None,
                };
                let validity = if lp is Some {
                    USER_TOKEN_SECONDS
                } else {
                    MANAGE_TOKEN_SECONDS
                };
                if (lp is Some && perm != Permission::User) || now + validity > u64::MAX {
                    None
                } else {
                    Some(ClaimsView::issued(subject@, perm, lp, now, validity))
                }
            }),
    {
        let validity = match local_peer {
            Some(_) => USER_TOKEN_SECONDS,
            None => MANAGE_TOKEN_SECONDS,
        };
        if now > u64::MAX - validity {
            return None;
        }
        let bound = match local_peer {
            Some(p) => {
                if perm != Permission::User {
                    return None;
                }
                Some(p.copy())
            },
            None => None,
        };
        Some(
            Claims {
                exp: now + validity,
                iat: now,
                iss: subject.to_owned(),
                nbf: now,
                local_peer: bound,
                perm: perm,
            },
        )
    }

    /// What is let through of the claims found in a token, in the second
    /// `now`: the claims themselves while the token is good, nothing before
    /// its first second and nothing after its last.
    pub fn accept(found: Option<Claims>, now: u64) -> (r: Option<Claims>)
        ensures
            opt_claims_view(r) == admitted(opt_claims_view(found), now),
    {
        match found {
            Some(c) => if c.good_at(now) {
                Some(c)
            } else {
                None
            },
            None => None,
        }
    }
}

/// Seals and opens tokens with the secret of the service.
pub struct TokenCodec {
    secret: Vec<u8>,
}

impl TokenCodec {
    /// The secret with which tokens are sealed.
    pub closed spec fn secret(&self) -> Seq<u8> {
        self.secret@
    }

    /// The token of these claims, if one can be made.
    pub open spec fn token_of(&self, c: ClaimsView) -> Option<Seq<char>> {
        sealed(payload_of(c), self.secret(), ALGORITHM@)
    }

    /// What a token shows in the second `now`: the claims it carries, where it
    /// was sealed with the secret, carries claims and is good in that second.
    pub open spec fn verified(&self, token: Seq<char>, now: u64) -> Option<ClaimsView> {
        match opened(token, self.secret(), ALGORITHM@) {
            Some(doc) => admitted(payload_claims(doc), now),
            None => None,
        }
    }

    /// A token that is let through in one second carries claims of one of
    /// the two kinds, is let through with the same claims in every second
    /// from its first to its last, and is refused in every other: before its
    /// first second and after its last.
    pub proof fn lemma_token_window(&self, token: Seq<char>, seen: u64, now: u64)
        requires
            self.verified(token, seen) is Some,
        ensures
            ({
                let c = self.verified(token, seen)->0;
                &&& c.well_shaped()
                &&& c.nbf <= seen <= c.exp
                &&& c.nbf <= now <= c.exp ==> self.verified(token, now) == Some(c)
                &&& now > c.exp ==> self.verified(token, now) is None
                &&& now < c.nbf ==> self.verified(token, now) is None
            }),
    {
    }

    /// There is no way back: a token that was let through once and is refused
    /// in a later second is refused in every second after that.
    pub proof fn lemma_no_way_back(
        &self,
        token: Seq<char>,
        seen: u64,
        refused: u64,
        later: u64,
    )
        requires
            self.verified(token, seen) is Some,
            seen <= refused <= later,
            self.verified(token, refused) is None,
        ensures
            self.verified(token, later) is None,
    {
    }

    /// A codec that seals with `secret`.
    pub fn new(secret: Vec<u8>) -> (r: TokenCodec)
        ensures
            r.secret() == secret@,
    {
        TokenCodec { secret: secret }
    }

    /// The token of these claims, sealed with the secret.
    pub fn encode(&self, claims: &Claims) -> (r: Option<String>)
        ensures
            opt_text(r) == self.token_of(claims@),
    {
        seal(claims.to_payload().as_str(), self.secret.as_slice(), ALGORITHM)
    }

    /// Issues a token in the second `now` for the account `subject`: issued
    /// and good from that second, and good for the span of its kind.
    pub fn issue(
        &self,
        subject: &str,
        perm: Permission,
        local_peer: Option<&LocalPeer>,
        now: u64,
    ) -> (r: Option<String>)
        ensures
            opt_text(r) == ({
                let lp = match local_peer {
                    Some(p) => Some(p@),
                    None => None,
                };
                let validity = if lp is Some {
                    USER_TOKEN_SECONDS
                } else {
                    MANAGE_TOKEN_SECONDS
                };
                if (lp is Some && perm != Permission::User) || now + validity > u64::MAX {
                    None
                } else {
                    self.token_of(ClaimsView::issued(subject@, perm, lp, now, validity))
                }
            }),
    {
        match Claims::issue(subject, perm, local_peer, now) {
            Some(claims) => self.encode(&claims),
            None => None,
        }
    }

    /// Checks a token in the second `now`. The claims come back where the
    /// token was sealed with the secret, carries claims of one of the two
    /// kinds and is good in that second. Every other token is refused, and
    /// nothing tells the reasons apart. A clock of this machine that stands
    /// before 1970 is outside what is promised here: jsonwebtoken reads the
    /// clock while it opens a token and gives up on such a one.
    pub fn verify(&self, token: &str, now: u64) -> (r: Option<Claims>)
        ensures
            opt_claims_view(r) == self.verified(token@, now),
    {
        match open(token, self.secret.as_slice(), ALGORITHM) {
            Some(doc) => Claims::accept(Claims::from_payload(doc.as_str()), now),
            None => None,
        }
    }
}

/// Why a request is turned away, with the status that says so.
pub type Rejection = (StatusCode, Response<()>);

/// What is said where a request presents no token.
pub const MSG_TOKEN_MISSING: &'static str = "输入token无效，请重新登录";

/// What is said where the token of a request is refused.
pub const MSG_TOKEN_REFUSED: &'static str = "token格式错误，请重新登录";

/// What a request with this header is in the second `now`: the claims of its
/// token where the header presents a token that the codec lets through and,
/// where a kind is asked for, is of that kind.
pub open spec fn authorized(
    codec: &TokenCodec,
    header: Option<Seq<char>>,
    family: Option<TokenFamily>,
    now: u64,
) -> Option<ClaimsView> {
    match header {
        None => None,
        Some(h) => match bearer_token(h) {
            None => None,
            Some(token) => match codec.verified(token, now) {
                None => None,
                Some(c) => if family is Some && family != Some(c.family()) {
                    None
                } else {
                    Some(c)
                },
            },
        },
    }
}

impl Claims {
    /// The token for a user who signed in from a device in the second `now`:
    /// bound to that device and good for thirty days.
    pub fn gen_user_token(
        codec: &TokenCodec,
        username: &str,
        local_peer: &LocalPeer,
        now: u64,
    ) -> (r: Option<String>)
        ensures
            opt_text(r) == if now + USER_TOKEN_SECONDS > u64::MAX {
                None
            } else {
                codec.token_of(
                    ClaimsView::issued(
                        username@,
                        Permission::User,
                        Some(local_peer@),
                        now,
                        USER_TOKEN_SECONDS,
                    ),
                )
            },
    {
        codec.issue(username, Permission::User, Some(local_peer), now)
    }

    /// The token for someone who signed in to the administration panel in the
    /// second `now`, with the role they signed in with.
    pub fn gen_manage_token(codec: &TokenCodec, username: &str, perm: Permission, now: u64) -> (r:
        Option<String>)
        ensures
            opt_text(r) == if now + MANAGE_TOKEN_SECONDS > u64::MAX {
                None
            } else {
                codec.token_of(
                    ClaimsView::issued(username@, perm, None, now, MANAGE_TOKEN_SECONDS),
                )
            },
    {
        codec.issue(username, perm, None, now)
    }

    /// The claims of the token that a request presents in its `Authorization`
    /// header, in the second `now`. A request without the header is turned
    /// away with one message; one whose header is no bearer credential, or
    /// whose token is refused for whatever reason, or is of another kind than
    /// the one asked for, with another. Both are turned away as unauthorized.
    /// As with `TokenCodec::verify`, a clock of this machine that stands
    /// before 1970 is outside what is promised.
    pub fn from_request(
        codec: &TokenCodec,
        header: Option<&str>,
        family: Option<TokenFamily>,
        now: u64,
    ) -> (r: Result<Claims, Rejection>)
        ensures
            match r {
                Ok(claims) => authorized(
                    codec,
                    match header {
                        Some(h) => Some(h@),
                        None => None,
                    },
                    family,
                    now,
                ) == Some(claims@),
                Err(rejection) => {
                    &&& rejection.0 == StatusCode::Unauthorized
                    &&& authorized(
                        codec,
                        match header {
                            Some(h) => Some(h@),
                            None => None,
                        },
                        family,
                        now,
                    ) is None
                    &&& header is None ==> rejection.1.fails_with(MSG_TOKEN_MISSING@)
                    &&& header is Some ==> rejection.1.fails_with(MSG_TOKEN_REFUSED@)
                },
            },
    {
        let text = match header {
            Some(h) => h,
            None => {
                return Err((StatusCode::Unauthorized, Response::error(MSG_TOKEN_MISSING)));
            },
        };
        let found = match read_bearer(text) {
            Some(token) => codec.verify(token, now),
            None => None,
        };
        match found {
            Some(claims) => {
                let fits = match family {
                    Some(f) => f == claims.family(),
                    None => true,
                };
                if fits {
                    Ok(claims)
                } else {
                    Err((StatusCode::Unauthorized, Response::error(MSG_TOKEN_REFUSED)))
                }
            },
            None => Err((StatusCode::Unauthorized, Response::error(MSG_TOKEN_REFUSED))),
        }
    }
}

} // verus!
