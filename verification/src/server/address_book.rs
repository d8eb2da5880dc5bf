//! The endpoints through which a user reads and writes their own address
//! book. A token names its account, and no request can name another: a user
//! reaches no book but their own.

use vstd::prelude::*;
use crate::database::model::{AddressBook, AddressBookView, Permission};
use crate::database::tables::StoreError;
use crate::database::DbPool;
use crate::server::guard::MSG_ANOMALY;
use crate::server::jwt::Claims;
use crate::server::user::check_perm;
use crate::server::{Response, StatusCode};

verus! {

/// What is said where no address book is kept for the user.
pub const MSG_BOOK_MISSING: &'static str = "未找到地址簿信息，请联系管理员";

/// What is said where the address book could not be read.
pub const MSG_BOOK_UNREADABLE: &'static str = "获取地址簿失败，请联系管理员";

/// What is said where the address book could not be written.
pub const MSG_BOOK_UNWRITTEN: &'static str = "更新失败，请重试";

/// An address book as it travels in a request or a reply.
#[derive(Clone, Debug, PartialEq, Eq)]
pub struct AddressBookData {
    pub data: AddressBook,
}

/// What a user who asked for their address book is told, given what the
/// look-up found.
pub open spec fn book_answer(
    found: Result<AddressBookView, StoreError>,
    reply: Response<AddressBookData>,
) -> bool {
    match found {
        Ok(book) => {
            &&& reply.error is None
            &&& reply.data matches Some(d)
            &&& d.data@ == book
        },
        Err(StoreError::NotFound) => reply.fails_with(MSG_BOOK_MISSING@),
        Err(_) => reply.fails_with(MSG_BOOK_UNREADABLE@),
    }
}

/// Answers a user who asked for their address book, given what the look-up
/// found.
pub fn address_book_reply(found: Result<AddressBook, StoreError>) -> (r: Response<AddressBookData>)
    ensures
        book_answer(
            match found {
                Ok(book) => Ok(book@),
                Err(e) => Err(e),
            },
            r,
        ),
{
    match found {
        Ok(data) => Response::ok(AddressBookData { data: data }),
        Err(StoreError::NotFound) => Response::error(MSG_BOOK_MISSING),
        Err(_) => Response::error(MSG_BOOK_UNREADABLE),
    }
}

/// Reads the address book of the user that the token names. The token must be
/// a user's; the device it is bound to is not looked at. A request that is
/// turned away is told so as unauthorized; one that is let through gets its
/// answer, good or bad, in the envelope.
pub fn get_address_book(claims: &Claims, pool: &DbPool) -> (r: (
    StatusCode,
    Response<AddressBookData>,
))
    requires
        pool.wf(),
    ensures
        if claims@.perm == Permission::User {
            r.0 == StatusCode::Success && book_answer(pool@.book_of(claims@.iss), r.1)
        } else {
            r.0 == StatusCode::Unauthorized && r.1.fails_with(MSG_ANOMALY@)
        },
{
    if let Err(rejection) = check_perm::<AddressBookData>(claims, None) {
        return rejection;
    }
    (StatusCode::Success, address_book_reply(pool.get_address_book(claims.iss.as_str())))
}

/// What a user who wrote their address book is told, given how the write
/// ended.
pub open spec fn update_answer(outcome: Result<(), StoreError>, reply: Response<()>) -> bool {
    match outcome {
        Ok(_) => reply.error is None && reply.data == Some(()),
        Err(_) => reply.fails_with(MSG_BOOK_UNWRITTEN@),
    }
}

/// Answers a user who wrote their address book, given how the write ended.
pub fn update_reply(outcome: Result<(), StoreError>) -> (r: Response<()>)
    ensures
        update_answer(outcome, r),
{
    match outcome {
        Ok(_) => Response::ok(()),
        Err(_) => Response::error(MSG_BOOK_UNWRITTEN),
    }
}

/// Replaces the address book of the user that the token names with the labels
/// and devices given, at the second `now`. The token must be a user's; the
/// device it is bound to is not looked at. A request that is turned away is
/// told so as unauthorized and changes nothing.
pub fn update_address_book(
    request: &AddressBookData,
    claims: &Claims,
    pool: &mut DbPool,
    now: u64,
) -> (r: (StatusCode, Response<()>))
    requires
        old(pool).wf(),
    ensures
        final(pool).wf(),
        if claims@.perm == Permission::User {
            &&& final(pool)@ == old(pool)@.rewritten(
                claims@.iss,
                request.data@.tags,
                request.data@.peers,
                now,
            )
            &&& r.0 == StatusCode::Success
            &&& r.1.error is None
            &&& r.1.data == Some(())
        } else {
            &&& final(pool)@ == old(pool)@
            &&& r.0 == StatusCode::Unauthorized
            &&& r.1.fails_with(MSG_ANOMALY@)
        },
{
    if let Err(rejection) = check_perm::<()>(claims, None) {
        return rejection;
    }
    let outcome = pool.update_address_book(
        claims.iss.as_str(),
        request.data.tags.as_slice(),
        request.data.peers.as_slice(),
        now,
    );
    (StatusCode::Success, update_reply(outcome))
}

} // verus!
