//! Who may do what: the decision that stands before every protected
//! operation.

use vstd::prelude::*;
use crate::database::model::Permission;
use crate::server::jwt::{Claims, ClaimsView};
use crate::server::user::{LocalPeer, LocalPeerView};

verus! {

/// What is said to a caller who is no administrator.
pub const MSG_NOT_ADMIN: &'static str = "权限不足";

/// What is said to a caller whose token does not fit the request.
pub const MSG_ANOMALY: &'static str = "用户权限异常，请重新登录";

/// Why a request is denied.
#[derive(Clone, Copy, Debug, PartialEq, Eq, Structural)]
pub enum Denial {
    /// An administrator is required and the token is not one's.
    InsufficientPermission,
    /// A user is required and the token is not one's.
    PermissionAnomaly,
    /// The token is bound to another device than the one that asks.
    PeerMismatch,
}

impl Denial {
    /// What the caller is told.
    pub open spec fn message_spec(self) -> Seq<char> {
        match self {
            Denial::InsufficientPermission => MSG_NOT_ADMIN@,
            Denial::PermissionAnomaly => MSG_ANOMALY@,
            Denial::PeerMismatch => MSG_ANOMALY@,
        }
    }

    /// What the caller is told.
    pub fn message(self) -> (r: &'static str)
        ensures
            r@ == self.message_spec(),
    {
        match self {
            Denial::InsufficientPermission => MSG_NOT_ADMIN,
            Denial::PermissionAnomaly => MSG_ANOMALY,
            Denial::PeerMismatch => MSG_ANOMALY,
        }
    }
}

/// The decision on a request, by three rules in this order: where an
/// administrator is required, the token must be an administrator's; where a
/// user is required, the token must be a user's; and where the request names
/// its device and the token is bound to one, the two must be the same. A
/// request that names no device is not held against the device of its token.
pub open spec fn decision(
    claims: ClaimsView,
    required: Permission,
    device: Option<LocalPeerView>,
) -> Result<(), Denial> {
    if required == Permission::Admin && claims.perm != Permission::Admin {
        Err(Denial::InsufficientPermission)
    } else if required == Permission::User && claims.perm != Permission::User {
        Err(Denial::PermissionAnomaly)
    } else if device is Some && claims.local_peer is Some && device != claims.local_peer {
        Err(Denial::PeerMismatch)
    } else {
        Ok(())
    }
}

/// Decides on a request that presents `claims`, needs the role `required` and
/// may name its device.
pub fn check(claims: &Claims, required: Permission, device: Option<&LocalPeer>) -> (r: Result<
    (),
    Denial,
>)
    ensures
        r == decision(
            claims@,
            required,
            match device {
                Some(d) => Some(d@),
                None => None,
            },
        ),
{
    if required == Permission::Admin && claims.perm != Permission::Admin {
        return Err(Denial::InsufficientPermission);
    }
    if required == Permission::User && claims.perm != Permission::User {
        return Err(Denial::PermissionAnomaly);
    }
    match (device, &claims.local_peer) {
        (Some(asked), Some(bound)) => {
            if asked == bound {
                Ok(())
            } else {
                Err(Denial::PeerMismatch)
            }
        },
        _ => Ok(()),
    }
}

/// A request that names no device passes or fails by the role alone, whatever
/// device its token is bound to.
pub proof fn lemma_unnamed_device_unchecked(claims: ClaimsView, required: Permission)
    ensures
        decision(claims, required, None) is Ok <==> claims.perm == required,
{
}

/// A user's token that is bound to one device is denied to a request that
/// names another.
pub proof fn lemma_other_device_denied(claims: ClaimsView, device: LocalPeerView)
    requires
        claims.perm == Permission::User,
        claims.local_peer is Some,
        claims.local_peer != Some(device),
    ensures
        decision(claims, Permission::User, Some(device)) == Err::<(), Denial>(Denial::PeerMismatch),
{
}

} // verus!
