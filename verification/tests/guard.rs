use hbba::database::model::Permission;
use hbba::server::guard::{check, Denial, MSG_ANOMALY, MSG_NOT_ADMIN};
use hbba::server::jwt::Claims;
use hbba::server::manage::check_admin;
use hbba::server::user::{check_perm, LocalPeer};
use hbba::server::{Response, StatusCode};

fn claims(perm: Permission, peer: Option<LocalPeer>) -> Claims {
    Claims { exp: 200, iat: 100, iss: "alice".to_string(), nbf: 100, local_peer: peer, perm }
}

fn device(id: &str, uuid: u128) -> LocalPeer {
    LocalPeer { id: id.to_string(), uuid }
}

#[test]
fn admin_required_and_user_token_is_insufficient() {
    let c = claims(Permission::User, Some(device("d1", 1)));
    assert_eq!(check(&c, Permission::Admin, None), Err(Denial::InsufficientPermission));
}

#[test]
fn admin_required_and_admin_token_passes() {
    let c = claims(Permission::Admin, None);
    assert_eq!(check(&c, Permission::Admin, None), Ok(()));
}

#[test]
fn user_required_and_admin_token_is_an_anomaly() {
    let c = claims(Permission::Admin, None);
    assert_eq!(check(&c, Permission::User, None), Err(Denial::PermissionAnomaly));
}

#[test]
fn role_is_judged_before_the_device() {
    let c = claims(Permission::Admin, Some(device("d1", 1)));
    let other = device("d2", 2);
    assert_eq!(check(&c, Permission::User, Some(&other)), Err(Denial::PermissionAnomaly));
}

#[test]
fn same_device_passes() {
    let c = claims(Permission::User, Some(device("d1", 1)));
    let same = device("d1", 1);
    assert_eq!(check(&c, Permission::User, Some(&same)), Ok(()));
}

#[test]
fn other_device_name_is_denied() {
    let c = claims(Permission::User, Some(device("d1", 1)));
    let other = device("d2", 1);
    assert_eq!(check(&c, Permission::User, Some(&other)), Err(Denial::PeerMismatch));
}

#[test]
fn other_device_identifier_is_denied() {
    let c = claims(Permission::User, Some(device("d1", 1)));
    let other = device("d1", 2);
    assert_eq!(check(&c, Permission::User, Some(&other)), Err(Denial::PeerMismatch));
}

#[test]
fn request_without_device_is_not_held_against_the_token() {
    let c = claims(Permission::User, Some(device("d1", 1)));
    assert_eq!(check(&c, Permission::User, None), Ok(()));
}

#[test]
fn token_without_device_is_not_held_against_the_request() {
    let c = claims(Permission::User, None);
    let asked = device("d1", 1);
    assert_eq!(check(&c, Permission::User, Some(&asked)), Ok(()));
}

#[test]
fn denial_messages() {
    assert_eq!(Denial::InsufficientPermission.message(), "权限不足");
    assert_eq!(Denial::PermissionAnomaly.message(), "用户权限异常，请重新登录");
    assert_eq!(Denial::PeerMismatch.message(), "用户权限异常，请重新登录");
    assert_eq!(MSG_NOT_ADMIN, "权限不足");
    assert_eq!(MSG_ANOMALY, "用户权限异常，请重新登录");
}

#[test]
fn check_perm_turns_away_as_unauthorized() {
    let c = claims(Permission::Admin, None);
    let r: Result<(), (StatusCode, Response<u8>)> = check_perm(&c, None);
    let denied = Err((
        StatusCode::Unauthorized,
        Response { error: Some("用户权限异常，请重新登录".to_string()), data: None },
    ));
    assert_eq!(r, denied);
    let u = claims(Permission::User, Some(device("d1", 1)));
    let ok: Result<(), (StatusCode, Response<u8>)> = check_perm(&u, Some(&device("d1", 1)));
    assert_eq!(ok, Ok(()));
    let bad: Result<(), (StatusCode, Response<u8>)> = check_perm(&u, Some(&device("d9", 1)));
    assert_eq!(bad, denied);
}

#[test]
fn check_admin_turns_users_away_as_unauthorized() {
    let u = claims(Permission::User, None);
    let r: Result<(), (StatusCode, Response<u8>)> = check_admin(&u);
    assert_eq!(
        r,
        Err((
            StatusCode::Unauthorized,
            Response { error: Some("权限不足".to_string()), data: None }
        ))
    );
    let a = claims(Permission::Admin, None);
    let ok: Result<(), (StatusCode, Response<u8>)> = check_admin(&a);
    assert_eq!(ok, Ok(()));
}

#[test]
fn status_numbers() {
    assert_eq!(StatusCode::Success.as_u16(), 200);
    assert_eq!(StatusCode::BadRequest.as_u16(), 400);
    assert_eq!(StatusCode::Unauthorized.as_u16(), 401);
    assert_eq!(StatusCode::NotFound.as_u16(), 404);
    assert_eq!(StatusCode::InternalServerError.as_u16(), 500);
}
