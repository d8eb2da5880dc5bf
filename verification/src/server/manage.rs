//! The endpoints of the administration panel: signing in, changing one's
//! password, and, for administrators, keeping the accounts.

use vstd::prelude::*;
use crate::database::model::{Permission, User as Account, UserView};
use crate::database::tables::StoreError;
use crate::database::DbPool;
use crate::server::guard::{check, MSG_NOT_ADMIN};
use crate::server::jwt::{Claims, ClaimsView, TokenCodec, MANAGE_TOKEN_SECONDS};
use crate::server::user::MSG_BAD_CREDENTIALS;
use crate::server::{Response, StatusCode};

verus! {

/// What is said where signing in failed on the side of the service.
pub const MSG_LOGIN_FAILED: &'static str = "登录时发生错误，请重试或联系管理员";

/// What is said where the old password is not the account's.
pub const MSG_OLD_PASSWORD: &'static str = "旧密码错误";

/// What is said where the password could not be changed.
pub const MSG_PASSWORD_FAILED: &'static str = "修改密码时发生错误，请重试或联系管理员";

/// What is said where the accounts could not be listed.
pub const MSG_LIST_FAILED: &'static str = "获取用户列表时出现错误，请重试或联系管理员";

/// What is said where an account of that name and role exists already.
pub const MSG_DUPLICATE: &'static str = "已存在相同用户名与权限用户";

/// What is said where the account could not be created.
pub const MSG_CREATE_FAILED: &'static str = "创建用户时发生错误，请重试或联系管理员";

/// What is said where no account of that name and role exists.
pub const MSG_USER_MISSING: &'static str = "未找到该用户";

/// What is said where the account could not be deleted.
pub const MSG_DELETE_FAILED: &'static str = "删除用户时发生错误，请重试或联系管理员";

/// What is said where the account could not be changed.
pub const MSG_UPDATE_FAILED: &'static str = "更新用户时发生错误，请重试或联系管理员";

/// A request to sign in to the panel, as a user or as an administrator.
#[derive(Clone, Debug, PartialEq, Eq)]
pub struct Login {
    pub username: String,
    pub password: String,
    pub perm: Permission,
}

/// What someone gets who signed in to the panel: the token for later
/// requests, and the role they signed in with.
#[derive(Clone, Debug, PartialEq, Eq)]
pub struct LoginResponse {
    pub access_token: String,
    pub perm: Permission,
}

/// A request to change the password of the account that the token names.
#[derive(Clone, Debug, PartialEq, Eq)]
pub struct ChangePassword {
    pub old_password: String,
    pub new_password: String,
}

/// A request to delete an account.
#[derive(Clone, Debug, PartialEq, Eq)]
pub struct DeleteUser {
    pub username: String,
    pub perm: Permission,
}

/// A request to disable or enable an account.
#[derive(Clone, Debug, PartialEq, Eq)]
pub struct UpdateUser {
    pub username: String,
    pub perm: Permission,
    pub disabled: bool,
}

/// An account as the panel shows it: without its password.
#[derive(Clone, Debug, PartialEq, Eq)]
pub struct User {
    pub username: String,
    pub perm: Permission,
    pub disabled: bool,
}

/// The accounts as the panel shows them.
#[derive(Clone, Debug, PartialEq, Eq)]
pub struct Users {
    pub users: Vec<User>,
}

/// Whether an entry of the panel shows this account.
pub open spec fn shows(entry: User, account: UserView) -> bool {
    &&& entry.username@ == account.username
    &&& entry.perm == account.perm
    &&& entry.disabled == account.disabled
}

/// Whether the entries show these accounts, one by one and in their order.
pub open spec fn lists(entries: Seq<User>, accounts: Seq<UserView>) -> bool {
    &&& entries.len() == accounts.len()
    &&& forall|i: int| 0 <= i < entries.len() ==> shows(#[trigger] entries[i], accounts[i])
}

/// Lets an administrator's request through or turns it away as unauthorized.
pub fn check_admin<T>(claims: &Claims) -> (r: Result<(), (StatusCode, Response<T>)>)
    ensures
        match r {
            Ok(_) => claims@.perm == Permission::Admin,
            Err(rejection) => {
                &&& claims@.perm != Permission::Admin
                &&& rejection.0 == StatusCode::Unauthorized
                &&& rejection.1.fails_with(MSG_NOT_ADMIN@)
            },
        },
{
    match check(claims, Permission::Admin, None) {
        Ok(_) => Ok(()),
        Err(denial) => Err((StatusCode::Unauthorized, Response::error(denial.message()))),
    }
}

/// What someone who tried to sign in to the panel is told, in the second
/// `now`, given what the look-up of name, password and role found. A failed
/// look-up says nothing of whether the name or the password was wrong.
pub open spec fn login_answer(
    codec: &TokenCodec,
    found: Result<UserView, StoreError>,
    now: u64,
    reply: Response<LoginResponse>,
) -> bool {
    match found {
        Ok(account) => if now + MANAGE_TOKEN_SECONDS > u64::MAX {
            reply.fails_with(MSG_LOGIN_FAILED@)
        } else {
            match codec.token_of(
                ClaimsView::issued(account.username, account.perm, None, now, MANAGE_TOKEN_SECONDS),
            ) {
                Some(token) => {
                    &&& reply.error is None
                    &&& reply.data matches Some(d)
                    &&& d.access_token@ == token
                    &&& d.perm == account.perm
                },
                None => reply.fails_with(MSG_LOGIN_FAILED@),
            }
        },
        Err(StoreError::NotFound) => reply.fails_with(MSG_BAD_CREDENTIALS@),
        Err(_) => reply.fails_with(MSG_LOGIN_FAILED@),
    }
}

/// Answers someone who tried to sign in to the panel, given what the look-up
/// found.
pub fn login_reply(codec: &TokenCodec, found: Result<Account, StoreError>, now: u64) -> (r:
    Response<LoginResponse>)
    ensures
        login_answer(
            codec,
            match found {
                Ok(u) => Ok(u@),
                Err(e) => Err(e),
            },
            now,
            r,
        ),
{
    match found {
        Ok(account) => match Claims::gen_manage_token(
            codec,
            account.username.as_str(),
            account.perm,
            now,
        ) {
            Some(token) => Response::ok(LoginResponse { access_token: token, perm: account.perm }),
            None => Response::error(MSG_LOGIN_FAILED),
        },
        Err(StoreError::NotFound) => Response::error(MSG_BAD_CREDENTIALS),
        Err(_) => Response::error(MSG_LOGIN_FAILED),
    }
}

/// Signs someone in to the panel with the role they ask for.
pub fn login(pool: &DbPool, codec: &TokenCodec, request: &Login, now: u64) -> (r: Response<
    LoginResponse,
>)
    requires
        pool.wf(),
    ensures
        login_answer(
            codec,
            pool@.found(request.username@, request.password@, request.perm),
            now,
            r,
        ),
{
    let found = pool.query_user(
        request.username.as_str(),
        request.password.as_str(),
        request.perm,
    );
    login_reply(codec, found, now)
}

/// What the holder of a token is told who asked for a new password, given how
/// the change ended.
pub open spec fn password_answer(outcome: Result<(), StoreError>, reply: Response<()>) -> bool {
    match outcome {
        Ok(_) => reply.error is None && reply.data == Some(()),
        Err(StoreError::NotFound) => reply.fails_with(MSG_OLD_PASSWORD@),
        Err(_) => reply.fails_with(MSG_PASSWORD_FAILED@),
    }
}

/// Answers the holder of a token who asked for a new password, given how the
/// change ended.
pub fn change_password_reply(outcome: Result<(), StoreError>) -> (r: Response<()>)
    ensures
        password_answer(outcome, r),
{
    match outcome {
        Ok(_) => Response::ok(()),
        Err(StoreError::NotFound) => Response::error(MSG_OLD_PASSWORD),
        Err(_) => Response::error(MSG_PASSWORD_FAILED),
    }
}

/// Changes the password of the account that the token names, with the role
/// that the token names, if the old password is the account's.
pub fn change_password(claims: &Claims, request: &ChangePassword, pool: &mut DbPool) -> (r:
    Response<()>)
    requires
        old(pool).wf(),
    ensures
        final(pool).wf(),
        final(pool)@ == old(pool)@.rekeyed(
            claims@.iss,
            request.old_password@,
            request.new_password@,
            claims@.perm,
        ),
        password_answer(
            if old(pool)@.accepts(claims@.iss, request.old_password@, claims@.perm) {
                Ok(())
            } else {
                Err(StoreError::NotFound)
            },
            r,
        ),
{
    let outcome = pool.update_user_password(
        claims.iss.as_str(),
        request.old_password.as_str(),
        request.new_password.as_str(),
        claims.perm,
    );
    change_password_reply(outcome)
}

/// The accounts as the panel shows them: each without its password, in the
/// order given.
pub fn project(accounts: &Vec<Account>) -> (r: Vec<User>)
    ensures
        r@.len() == accounts@.len(),
        forall|i: int| 0 <= i < r@.len() ==> shows(#[trigger] r@[i], accounts@[i]@),
{
    let mut out: Vec<User> = Vec::new();
    let mut i: usize = 0;
    while i < accounts.len()
        invariant
            i <= accounts.len(),
            out.len() == i,
            forall|k: int| 0 <= k < i ==> shows(#[trigger] out@[k], accounts@[k]@),
        decreases accounts.len() - i,
    {
        out.push(
            User {
                username: accounts[i].username.clone(),
                perm: accounts[i].perm,
                disabled: accounts[i].disabled,
            },
        );
        i = i + 1;
    }
    out
}

/// Answers an administrator who asked for the accounts, given what the
/// tables gave.
pub fn get_users_reply(outcome: Result<Vec<Account>, StoreError>) -> (r: (
    StatusCode,
    Response<Users>,
))
    ensures
        match outcome {
            Ok(accounts) => {
                &&& r.0 == StatusCode::Success
                &&& r.1.error is None
                &&& r.1.data matches Some(d)
                &&& d.users@.len() == accounts@.len()
                &&& forall|i: int|
                    0 <= i < d.users@.len() ==> shows(#[trigger] d.users@[i], accounts@[i]@)
            },
            Err(_) => r.0 == StatusCode::InternalServerError && r.1.fails_with(MSG_LIST_FAILED@),
        },
{
    match outcome {
        Ok(accounts) => (StatusCode::Success, Response::ok(Users { users: project(&accounts) })),
        Err(_) => (StatusCode::InternalServerError, Response::error(MSG_LIST_FAILED)),
    }
}

/// Lists all accounts for an administrator, in the order in which they were
/// created and without their passwords.
pub fn get_users(claims: &Claims, pool: &DbPool) -> (r: (StatusCode, Response<Users>))
    ensures
        if claims@.perm == Permission::Admin {
            &&& r.0 == StatusCode::Success
            &&& r.1.error is None
            &&& r.1.data matches Some(d)
            &&& lists(d.users@, pool@.users)
        } else {
            r.0 == StatusCode::Unauthorized && r.1.fails_with(MSG_NOT_ADMIN@)
        },
{
    if let Err(rejection) = check_admin::<Users>(claims) {
        return rejection;
    }
    get_users_reply(Ok(pool.get_users()))
}

/// What an administrator is told who asked for a change of the accounts,
/// given how it ended. Success is told as such. The one error that the request
/// itself can cause, `known`, gets its own status and message. Every other
/// error is a failure of the storage: it gets the status of a server error and
/// a message that asks to try again.
pub open spec fn change_answer(
    outcome: Result<(), StoreError>,
    known: StoreError,
    status: StatusCode,
    message: Seq<char>,
    retry: Seq<char>,
    reply: (StatusCode, Response<()>),
) -> bool {
    match outcome {
        Ok(_) => reply.0 == StatusCode::Success && reply.1.error is None && reply.1.data == Some(()),
        Err(e) => if e == known {
            reply.0 == status && reply.1.fails_with(message)
        } else {
            reply.0 == StatusCode::InternalServerError && reply.1.fails_with(retry)
        },
    }
}

/// Answers an administrator who asked for a new account, given how the
/// creation ended: an account that exists already is a bad request, any other
/// error a failure of the storage.
pub fn crate_user_reply(outcome: Result<(), StoreError>) -> (r: (StatusCode, Response<()>))
    ensures
        change_answer(
            outcome,
            StoreError::Duplicate,
            StatusCode::BadRequest,
            MSG_DUPLICATE@,
            MSG_CREATE_FAILED@,
            r,
        ),
{
    match outcome {
        Ok(_) => (StatusCode::Success, Response::ok(())),
        Err(StoreError::Duplicate) => (StatusCode::BadRequest, Response::error(MSG_DUPLICATE)),
        Err(_) => (StatusCode::InternalServerError, Response::error(MSG_CREATE_FAILED)),
    }
}

/// Creates an account for an administrator; with a user account its empty
/// address book, written at the second `now`. A request that is turned away
/// changes nothing.
pub fn crate_user(user: &Account, claims: &Claims, pool: &mut DbPool, now: u64) -> (r: (
    StatusCode,
    Response<()>,
))
    requires
        old(pool).wf(),
    ensures
        final(pool).wf(),
        if claims@.perm == Permission::Admin {
            &&& final(pool)@ == old(pool)@.created(user@, now)
            &&& change_answer(
                if old(pool)@.has_user(user@.username, user@.perm) {
                    Err(StoreError::Duplicate)
                } else {
                    Ok(())
                },
                StoreError::Duplicate,
                StatusCode::BadRequest,
                MSG_DUPLICATE@,
                MSG_CREATE_FAILED@,
                r,
            )
        } else {
            &&& final(pool)@ == old(pool)@
            &&& r.0 == StatusCode::Unauthorized
            &&& r.1.fails_with(MSG_NOT_ADMIN@)
        },
{
    if let Err(rejection) = check_admin::<()>(claims) {
        return rejection;
    }
    let outcome = pool.create_user(
        user.username.as_str(),
        user.password.as_str(),
        user.perm,
        user.disabled,
        now,
    );
    crate_user_reply(outcome)
}

/// Answers an administrator who asked for an account to be deleted, given how
/// the deletion ended: a missing account is told as not found, any other error
/// as a failure of the storage.
pub fn delete_user_reply(outcome: Result<(), StoreError>) -> (r: (StatusCode, Response<()>))
    ensures
        change_answer(
            outcome,
            StoreError::NotFound,
            StatusCode::NotFound,
            MSG_USER_MISSING@,
            MSG_DELETE_FAILED@,
            r,
        ),
{
    match outcome {
        Ok(_) => (StatusCode::Success, Response::ok(())),
        Err(StoreError::NotFound) => (StatusCode::NotFound, Response::error(MSG_USER_MISSING)),
        Err(_) => (StatusCode::InternalServerError, Response::error(MSG_DELETE_FAILED)),
    }
}

/// Deletes an account for an administrator, and with a user account its
/// address book. A request that is turned away changes nothing.
pub fn delete_user(user: &DeleteUser, claims: &Claims, pool: &mut DbPool) -> (r: (
    StatusCode,
    Response<()>,
))
    requires
        old(pool).wf(),
    ensures
        final(pool).wf(),
        if claims@.perm == Permission::Admin {
            &&& final(pool)@ == old(pool)@.deleted(user.username@, user.perm)
            &&& change_answer(
                if old(pool)@.has_user(user.username@, user.perm) {
                    Ok(())
                } else {
                    Err(StoreError::NotFound)
                },
                StoreError::NotFound,
                StatusCode::NotFound,
                MSG_USER_MISSING@,
                MSG_DELETE_FAILED@,
                r,
            )
        } else {
            &&& final(pool)@ == old(pool)@
            &&& r.0 == StatusCode::Unauthorized
            &&& r.1.fails_with(MSG_NOT_ADMIN@)
        },
{
    if let Err(rejection) = check_admin::<()>(claims) {
        return rejection;
    }
    let outcome = pool.delete_user(user.username.as_str(), user.perm);
    delete_user_reply(outcome)
}

/// Answers an administrator who asked for an account to be disabled or
/// enabled, given how the change ended: a missing account is told as not
/// found, any other error as a failure of the storage.
pub fn update_user_reply(outcome: Result<(), StoreError>) -> (r: (StatusCode, Response<()>))
    ensures
        change_answer(
            outcome,
            StoreError::NotFound,
            StatusCode::NotFound,
            MSG_USER_MISSING@,
            MSG_UPDATE_FAILED@,
            r,
        ),
{
    match outcome {
        Ok(_) => (StatusCode::Success, Response::ok(())),
        Err(StoreError::NotFound) => (StatusCode::NotFound, Response::error(MSG_USER_MISSING)),
        Err(_) => (StatusCode::InternalServerError, Response::error(MSG_UPDATE_FAILED)),
    }
}

/// Disables or enables an account for an administrator. A request that is
/// turned away changes nothing.
pub fn update_user(user: &UpdateUser, claims: &Claims, pool: &mut DbPool) -> (r: (
    StatusCode,
    Response<()>,
))
    requires
        old(pool).wf(),
    ensures
        final(pool).wf(),
        if claims@.perm == Permission::Admin {
            &&& final(pool)@ == old(pool)@.switched(user.username@, user.perm, user.disabled)
            &&& change_answer(
                if old(pool)@.has_user(user.username@, user.perm) {
                    Ok(())
                } else {
                    Err(StoreError::NotFound)
                },
                StoreError::NotFound,
                StatusCode::NotFound,
                MSG_USER_MISSING@,
                MSG_UPDATE_FAILED@,
                r,
            )
        } else {
            &&& final(pool)@ == old(pool)@
            &&& r.0 == StatusCode::Unauthorized
            &&& r.1.fails_with(MSG_NOT_ADMIN@)
        },
{
    if let Err(rejection) = check_admin::<()>(claims) {
        return rejection;
    }
    let outcome = pool.update_user(user.username.as_str(), user.perm, user.disabled);
    update_user_reply(outcome)
}

} // verus!
