//! The endpoints for users and their devices.

use vstd::prelude::*;
use crate::database::model::{Permission, User as Account, UserView};
use crate::database::tables::StoreError;
use crate::database::DbPool;
use crate::server::guard::{check, decision, Denial, MSG_ANOMALY};
use crate::server::jwt::{
    Claims, ClaimsView, TokenCodec, USER_TOKEN_SECONDS,
};
use crate::server::{Response, StatusCode};

verus! {

/// The device from which a user signs in: its name on the network and the
/// identifier of the installation.
#[derive(Clone, Debug, Eq)]
pub struct LocalPeer {
    pub id: String,
    pub uuid: u128,
}

/// What a device identity holds.
pub struct LocalPeerView {
    pub id: Seq<char>,
    pub uuid: u128,
}

impl View for LocalPeer {
    type V = LocalPeerView;

    open spec fn view(&self) -> LocalPeerView {
        LocalPeerView { id: self.id@, uuid: self.uuid }
    }
}

impl PartialEq for LocalPeer {
    fn eq(&self, other: &LocalPeer) -> (r: bool) {
        self.uuid == other.uuid && self.id == other.id
    }
}

impl vstd::std_specs::cmp::PartialEqSpecImpl for LocalPeer {
    open spec fn obeys_eq_spec() -> bool {
        true
    }

    open spec fn eq_spec(&self, other: &LocalPeer) -> bool {
        self.uuid == other.uuid && self.id@ == other.id@
    }
}

impl LocalPeer {
    /// A copy of the identity.
    pub fn copy(&self) -> (r: LocalPeer)
        ensures
            r@ == self@,
    {
        LocalPeer { id: self.id.clone(), uuid: self.uuid }
    }
}

/// What an optional device identity holds.
pub open spec fn opt_peer_view(p: Option<LocalPeer>) -> Option<LocalPeerView> {
    match p {
        Some(lp) => Some(lp@),
        None => None,
    }
}

/// What is said where name and password answer to no account.
pub const MSG_BAD_CREDENTIALS: &'static str = "用户名或密码错误";

/// What is said to a user whose account is disabled.
pub const MSG_DISABLED: &'static str = "该账号已被禁用,请联系管理员";

/// What is said where signing in failed on the side of the service.
pub const MSG_SERVER_ERROR: &'static str = "服务器发生错误";

/// A user's request to sign in from a device.
#[derive(Clone, Debug, PartialEq, Eq)]
pub struct Login {
    pub username: String,
    pub password: String,
    pub local_peer: LocalPeer,
}

/// The user that a reply speaks of.
#[derive(Clone, Debug, PartialEq, Eq)]
pub struct User {
    pub name: String,
}

/// What a user gets who signed in: the token for later requests, and who they
/// are.
#[derive(Clone, Debug, PartialEq, Eq)]
pub struct LoginResponse {
    pub access_token: String,
    pub user: User,
}

/// Lets a user's request through or turns it away as unauthorized: the token
/// must be a user's, and where the request names its device and the token is
/// bound to one, the two must be the same.
pub fn check_perm<T>(claims: &Claims, lp: Option<&LocalPeer>) -> (r: Result<
    (),
    (StatusCode, Response<T>),
>)
    ensures
        match r {
            Ok(_) => decision(
                claims@,
                Permission::User,
                match lp {
                    Some(d) => Some(d@),
                    None => None,
                },
            ) is Ok,
            Err(rejection) => {
                &&& decision(
                    claims@,
                    Permission::User,
                    match lp {
                        Some(d) => Some(d@),
                        None => None,
                    },
                ) is Err
                &&& rejection.0 == StatusCode::Unauthorized
                &&& rejection.1.fails_with(MSG_ANOMALY@)
            },
        },
{
    match check(claims, Permission::User, lp) {
        Ok(_) => Ok(()),
        Err(denial) => Err((StatusCode::Unauthorized, Response::error(denial.message()))),
    }
}

/// What a user who tried to sign in is told, in the second `now`, given what
/// the look-up of name and password found. An enabled account gets a token
/// bound to the device; a disabled one is told so; a failed look-up says
/// nothing of whether the name or the password was wrong.
pub open spec fn login_answer(
    codec: &TokenCodec,
    found: Result<UserView, StoreError>,
    device: LocalPeerView,
    now: u64,
    reply: Response<LoginResponse>,
) -> bool {
    match found {
        Ok(account) => if account.disabled {
            reply.fails_with(MSG_DISABLED@)
        } else if now + USER_TOKEN_SECONDS > u64::MAX {
            reply.fails_with(MSG_SERVER_ERROR@)
        } else {
            match codec.token_of(
                ClaimsView::issued(
                    account.username,
                    Permission::User,
                    Some(device),
                    now,
                    USER_TOKEN_SECONDS,
                ),
            ) {
                Some(token) => {
                    &&& reply.error is None
                    &&& reply.data matches Some(d)
                    &&& d.access_token@ == token
                    &&& d.user.name@ == account.username
                },
                None => reply.fails_with(MSG_SERVER_ERROR@),
            }
        },
        Err(StoreError::NotFound) => reply.fails_with(MSG_BAD_CREDENTIALS@),
        Err(_) => reply.fails_with(MSG_SERVER_ERROR@),
    }
}

/// Answers a user who tried to sign in, given what the look-up of name and
/// password found.
pub fn login_reply(
    codec: &TokenCodec,
    found: Result<Account, StoreError>,
    local_peer: &LocalPeer,
    now: u64,
) -> (r: Response<LoginResponse>)
    ensures
        login_answer(
            codec,
            match found {
                Ok(u) => Ok(u@),
                Err(e) => Err(e),
            },
            local_peer@,
            now,
            r,
        ),
{
    match found {
        Ok(account) => {
            if account.disabled {
                Response::error(MSG_DISABLED)
            } else {
                match Claims::gen_user_token(codec, account.username.as_str(), local_peer, now) {
                    Some(token) => Response::ok(
                        LoginResponse { access_token: token, user: User { name: account.username } },
                    ),
                    None => Response::error(MSG_SERVER_ERROR),
                }
            }
        },
        Err(StoreError::NotFound) => Response::error(MSG_BAD_CREDENTIALS),
        Err(_) => Response::error(MSG_SERVER_ERROR),
    }
}

/// Signs a user in: looks the account up among the users by name and
/// password and answers as `login_reply` does.
pub fn login(pool: &DbPool, codec: &TokenCodec, request: &Login, now: u64) -> (r: Response<
    LoginResponse,
>)
    requires
        pool.wf(),
    ensures
        login_answer(
            codec,
            pool@.found(request.username@, request.password@, Permission::User),
            request.local_peer@,
            now,
            r,
        ),
{
    let found = pool.query_user(request.username.as_str(), request.password.as_str(), Permission::User);
    login_reply(codec, found, &request.local_peer, now)
}

/// Tells a user who they are. The token must be a user's and, where it is
/// bound to a device, the request must come from that device.
pub fn current_user(lp: &LocalPeer, claims: &Claims) -> (r: (StatusCode, Response<User>))
    ensures
        match decision(claims@, Permission::User, Some(lp@)) {
            Ok(_) => {
                &&& r.0 == StatusCode::Success
                &&& r.1.error is None
                &&& r.1.data matches Some(u)
                &&& u.name@ == claims@.iss
            },
            Err(_) => r.0 == StatusCode::Unauthorized && r.1.fails_with(MSG_ANOMALY@),
        },
{
    match check_perm::<User>(claims, Some(lp)) {
        Ok(_) => (StatusCode::Success, Response::ok(User { name: claims.iss.clone() })),
        Err(rejection) => rejection,
    }
}

/// Signs a user out. Nothing is kept on the side of the service, so nothing
/// changes: the token stays good until it expires.
pub fn logout(_local_peer: &LocalPeer, _claims: &Claims) -> (r: Response<()>)
    ensures
        r.error is None,
        r.data is None,
{
    Response::empty()
}

/// Whatever token the codec lets through: where it is bound to one device, a
/// request that names another device is denied, and the question who the user
/// is gets no answer but the denial.
pub proof fn lemma_bound_token_denied_elsewhere(
    codec: &TokenCodec,
    token: Seq<char>,
    now: u64,
    device: LocalPeerView,
)
    requires
        codec.verified(token, now) is Some,
        codec.verified(token, now)->0.local_peer is Some,
        codec.verified(token, now)->0.local_peer != Some(device),
    ensures
        codec.verified(token, now)->0.perm == Permission::User,
        decision(codec.verified(token, now)->0, Permission::User, Some(device)) == Err::<
            (),
            Denial,
        >(Denial::PeerMismatch),
{
    codec.lemma_token_window(token, now, now);
}

} // verus!
