//! What the two tables hold, what each operation makes of them, and the rules
//! that every operation keeps.

use vstd::prelude::*;
use crate::database::model::{AddressBookView, PeerView, Permission, UserView};

verus! {

/// Why an operation on the tables did not do its work.
#[derive(Clone, Copy, Debug, PartialEq, Eq, Structural)]
pub enum StoreError {
    /// No row answers the request.
    NotFound,
    /// An account of that name and role exists already.
    Duplicate,
    /// The storage below failed.
    Failure,
}

/// What goes wrong in the storage below, as the storage tells it.
#[derive(Clone, Copy, Debug, PartialEq, Eq, Structural)]
pub enum Fault {
    /// A row was asked for and none answered.
    RowNotFound,
    /// The database refused a statement, with its result code where it gave
    /// one.
    Database(Option<i64>),
    /// Anything else: the connection, the pool, a row that cannot be read.
    Other,
}

/// The result code with which SQLite refuses a row whose primary key is taken.
pub const CONSTRAINT_PRIMARYKEY: i64 = 1555;

/// The result code with which SQLite refuses a row that breaks a rule of
/// uniqueness.
pub const CONSTRAINT_UNIQUE: i64 = 2067;

impl StoreError {
    /// What a fault of the storage means to the caller.
    pub open spec fn classified(fault: Fault) -> StoreError {
        match fault {
            Fault::RowNotFound => StoreError::NotFound,
            Fault::Database(Some(code)) => if code == CONSTRAINT_PRIMARYKEY || code
                == CONSTRAINT_UNIQUE {
                StoreError::Duplicate
            } else {
                StoreError::Failure
            },
            _ => StoreError::Failure,
        }
    }

    /// What a fault of the storage means to the caller: a missing row is not
    /// found, a row refused because its key is taken is a duplicate, and
    /// everything else is a failure of the storage.
    pub fn classify(fault: Fault) -> (r: StoreError)
        ensures
            r == Self::classified(fault),
    {
        match fault {
            Fault::RowNotFound => StoreError::NotFound,
            Fault::Database(Some(code)) => {
                if code == CONSTRAINT_PRIMARYKEY || code == CONSTRAINT_UNIQUE {
                    StoreError::Duplicate
                } else {
                    StoreError::Failure
                }
            },
            _ => StoreError::Failure,
        }
    }

    /// How a statement that is to change the one row of a key ended, by the
    /// number of rows it changed: done where it changed that row, not found
    /// where it changed none, and a failure of the storage where it changed
    /// more, which the key forbids.
    pub fn one_row_changed(rows: u64) -> (r: Result<(), StoreError>)
        ensures
            r == if rows == 1 {
                Ok::<(), StoreError>(())
            } else if rows == 0 {
                Err::<(), StoreError>(StoreError::NotFound)
            } else {
                Err::<(), StoreError>(StoreError::Failure)
            },
    {
        if rows == 1 {
            Ok(())
        } else if rows == 0 {
            Err(StoreError::NotFound)
        } else {
            Err(StoreError::Failure)
        }
    }
}

/// What a row of the address-book table holds.
pub struct BookRowView {
    pub username: Seq<char>,
    pub book: AddressBookView,
}

/// What the two tables hold, in the order in which the rows were written.
pub struct StoreView {
    pub users: Seq<UserView>,
    pub books: Seq<BookRowView>,
}

/// Whether a row is the account of that name and role.
pub open spec fn is_account(u: UserView, name: Seq<char>, perm: Permission) -> bool {
    u.username == name && u.perm == perm
}

/// Whether a row is the account of that name and role and holds that password.
pub open spec fn has_credentials(
    u: UserView,
    name: Seq<char>,
    password: Seq<char>,
    perm: Permission,
) -> bool {
    is_account(u, name, perm) && u.password == password
}

impl StoreView {
    /// Two empty tables.
    pub open spec fn empty() -> StoreView {
        StoreView { users: Seq::empty(), books: Seq::empty() }
    }

    /// Whether the account of that name and role exists.
    pub open spec fn has_user(self, name: Seq<char>, perm: Permission) -> bool {
        exists|i: int| 0 <= i < self.users.len() && is_account(#[trigger] self.users[i], name, perm)
    }

    /// Where the account of that name and role stands.
    pub open spec fn user_index(self, name: Seq<char>, perm: Permission) -> int {
        choose|i: int| 0 <= i < self.users.len() && is_account(#[trigger] self.users[i], name, perm)
    }

    /// Whether the account of that name and role exists and holds that password.
    pub open spec fn accepts(self, name: Seq<char>, password: Seq<char>, perm: Permission) -> bool {
        exists|i: int|
            0 <= i < self.users.len() && has_credentials(
                #[trigger] self.users[i],
                name,
                password,
                perm,
            )
    }

    /// Whether an address book is kept under that name.
    pub open spec fn has_book(self, name: Seq<char>) -> bool {
        exists|i: int| 0 <= i < self.books.len() && (#[trigger] self.books[i]).username == name
    }

    /// Where the address book kept under that name stands.
    pub open spec fn book_index(self, name: Seq<char>) -> int {
        choose|i: int| 0 <= i < self.books.len() && (#[trigger] self.books[i]).username == name
    }

    /// No two accounts share name and role, no two books share a name, and a
    /// book is kept under a name exactly when a user account of that name exists.
    pub open spec fn wf(self) -> bool {
        &&& forall|i: int, j: int|
            #![trigger self.users[i], self.users[j]]
            0 <= i < j < self.users.len() ==> !is_account(
                self.users[j],
                self.users[i].username,
                self.users[i].perm,
            )
        &&& forall|i: int, j: int|
            #![trigger self.books[i], self.books[j]]
            0 <= i < j < self.books.len() ==> self.books[i].username != self.books[j].username
        &&& forall|i: int|
            0 <= i < self.books.len() ==> self.has_user(
                (#[trigger] self.books[i]).username,
                Permission::User,
            )
        &&& forall|i: int|
            0 <= i < self.users.len() && (#[trigger] self.users[i]).perm == Permission::User
                ==> self.has_book(self.users[i].username)
    }

    /// The tables after the account `u` was added at the second `now`: the
    /// account comes last, and with a user account comes its empty book.
    pub open spec fn created(self, u: UserView, now: u64) -> StoreView {
        if self.has_user(u.username, u.perm) {
            self
        } else if u.perm == Permission::User {
            StoreView {
                users: self.users.push(u),
                books: self.books.push(
                    BookRowView { username: u.username, book: AddressBookView::empty_at(now) },
                ),
            }
        } else {
            StoreView { users: self.users.push(u), books: self.books }
        }
    }

    /// The tables after the account of that name and role was removed, and with
    /// a user account its book.
    pub open spec fn deleted(self, name: Seq<char>, perm: Permission) -> StoreView {
        if !self.has_user(name, perm) {
            self
        } else if perm == Permission::User && self.has_book(name) {
            StoreView {
                users: self.users.remove(self.user_index(name, perm)),
                books: self.books.remove(self.book_index(name)),
            }
        } else {
            StoreView { users: self.users.remove(self.user_index(name, perm)), books: self.books }
        }
    }

    /// The tables after the account that holds the password `old` was given the
    /// password `new`.
    pub open spec fn rekeyed(
        self,
        name: Seq<char>,
        old: Seq<char>,
        new: Seq<char>,
        perm: Permission,
    ) -> StoreView {
        if self.accepts(name, old, perm) {
            let i = self.user_index(name, perm);
            StoreView {
                users: self.users.update(i, UserView { password: new, ..self.users[i] }),
                books: self.books,
            }
        } else {
            self
        }
    }

    /// The tables after the account of that name and role was disabled or
    /// enabled.
    pub open spec fn switched(self, name: Seq<char>, perm: Permission, disabled: bool) -> StoreView {
        if self.has_user(name, perm) {
            let i = self.user_index(name, perm);
            StoreView {
                users: self.users.update(i, UserView { disabled: disabled, ..self.users[i] }),
                books: self.books,
            }
        } else {
            self
        }
    }

    /// The tables after the book kept under `name` was replaced at the second
    /// `now`.
    pub open spec fn rewritten(
        self,
        name: Seq<char>,
        tags: Seq<Seq<char>>,
        peers: Seq<PeerView>,
        now: u64,
    ) -> StoreView {
        if self.has_book(name) {
            StoreView {
                users: self.users,
                books: self.books.update(
                    self.book_index(name),
                    BookRowView {
                        username: name,
                        book: AddressBookView { updated_at: Some(now), tags: tags, peers: peers },
                    },
                ),
            }
        } else {
            self
        }
    }

    /// What a look-up by name, password and role finds.
    pub open spec fn found(
        self,
        name: Seq<char>,
        password: Seq<char>,
        perm: Permission,
    ) -> Result<UserView, StoreError> {
        if self.accepts(name, password, perm) {
            Ok(self.users[self.user_index(name, perm)])
        } else {
            Err(StoreError::NotFound)
        }
    }

    /// What a look-up of the book kept under `name` finds.
    pub open spec fn book_of(self, name: Seq<char>) -> Result<AddressBookView, StoreError> {
        if self.has_book(name) {
            Ok(self.books[self.book_index(name)].book)
        } else {
            Err(StoreError::NotFound)
        }
    }
}

/// In well-formed tables an account stands where its name and role are found.
pub proof fn lemma_user_index(s: StoreView, i: int, name: Seq<char>, perm: Permission)
    requires
        s.wf(),
        0 <= i < s.users.len(),
        is_account(s.users[i], name, perm),
    ensures
        s.has_user(name, perm),
        s.user_index(name, perm) == i,
{
}

/// In well-formed tables a book stands where its owner's name is found.
pub proof fn lemma_book_index(s: StoreView, i: int, name: Seq<char>)
    requires
        s.wf(),
        0 <= i < s.books.len(),
        s.books[i].username == name,
    ensures
        s.has_book(name),
        s.book_index(name) == i,
{
}

/// A book is kept under a name exactly when the user account of that name
/// exists.
pub proof fn lemma_book_iff_user(s: StoreView, name: Seq<char>)
    requires
        s.wf(),
    ensures
        s.has_book(name) <==> s.has_user(name, Permission::User),
{
}

/// Adding an account keeps the tables well-formed.
pub proof fn lemma_created_wf(s: StoreView, u: UserView, now: u64)
    requires
        s.wf(),
    ensures
        s.created(u, now).wf(),
{
    let t = s.created(u, now);
    if !s.has_user(u.username, u.perm) {
        let n = s.users.len() as int;
        assert forall|i: int| 0 <= i < n implies t.users[i] == s.users[i] by {}
        assert forall|i: int, j: int|
            #![trigger t.users[i], t.users[j]]
            0 <= i < j < t.users.len() implies !is_account(
            t.users[j],
            t.users[i].username,
            t.users[i].perm,
        ) by {}
        lemma_book_iff_user(s, u.username);
        assert forall|i: int, j: int|
            #![trigger t.books[i], t.books[j]]
            0 <= i < j < t.books.len() implies t.books[i].username != t.books[j].username by {}
        assert forall|i: int| 0 <= i < t.books.len() implies t.has_user(
            (#[trigger] t.books[i]).username,
            Permission::User,
        ) by {
            if i < s.books.len() {
                let k = s.user_index(s.books[i].username, Permission::User);
                assert(is_account(t.users[k], t.books[i].username, Permission::User));
            } else {
                assert(is_account(t.users[n], t.books[i].username, Permission::User));
            }
        }
        assert forall|i: int|
            0 <= i < t.users.len() && (#[trigger] t.users[i]).perm
                == Permission::User implies t.has_book(t.users[i].username) by {
            if i < n {
                let k = s.book_index(s.users[i].username);
                assert(t.books[k].username == t.users[i].username);
            } else {
                let k = s.books.len() as int;
                assert(t.books[k].username == t.users[i].username);
            }
        }
    }
}

/// Removing an account keeps the tables well-formed.
pub proof fn lemma_deleted_wf(s: StoreView, name: Seq<char>, perm: Permission)
    requires
        s.wf(),
    ensures
        s.deleted(name, perm).wf(),
{
    let t = s.deleted(name, perm);
    if s.has_user(name, perm) {
        let k = s.user_index(name, perm);
        lemma_book_iff_user(s, name);
        // where each row of the new tables stood in the old ones
        let up = |i: int| if i < k { i } else { i + 1 };
        assert forall|i: int| 0 <= i < t.users.len() implies #[trigger] t.users[i] == s.users[up(i)] by {}
        assert forall|i: int, j: int|
            #![trigger t.users[i], t.users[j]]
            0 <= i < j < t.users.len() implies !is_account(
            t.users[j],
            t.users[i].username,
            t.users[i].perm,
        ) by {}
        if perm == Permission::User {
            let b = s.book_index(name);
            let upb = |i: int| if i < b { i } else { i + 1 };
            assert forall|i: int| 0 <= i < t.books.len() implies #[trigger] t.books[i]
                == s.books[upb(i)] by {}
            assert forall|i: int, j: int|
                #![trigger t.books[i], t.books[j]]
                0 <= i < j < t.books.len() implies t.books[i].username != t.books[j].username by {}
            assert forall|i: int| 0 <= i < t.books.len() implies t.has_user(
                (#[trigger] t.books[i]).username,
                Permission::User,
            ) by {
                let owner = s.books[upb(i)].username;
                let j = s.user_index(owner, Permission::User);
                let down = if j < k { j } else { j - 1 };
                assert(is_account(t.users[down], owner, Permission::User));
            }
            assert forall|i: int|
                0 <= i < t.users.len() && (#[trigger] t.users[i]).perm
                    == Permission::User implies t.has_book(t.users[i].username) by {
                let owner = s.users[up(i)].username;
                let j = s.book_index(owner);
                let down = if j < b { j } else { j - 1 };
                assert(t.books[down] == s.books[j]);
            }
        } else {
            assert forall|i: int| 0 <= i < t.books.len() implies t.has_user(
                (#[trigger] t.books[i]).username,
                Permission::User,
            ) by {
                let owner = s.books[i].username;
                let j = s.user_index(owner, Permission::User);
                let down = if j < k { j } else { j - 1 };
                assert(is_account(t.users[down], owner, Permission::User));
            }
            assert forall|i: int|
                0 <= i < t.users.len() && (#[trigger] t.users[i]).perm
                    == Permission::User implies t.has_book(t.users[i].username) by {
                let j = s.book_index(s.users[up(i)].username);
                assert(t.books[j].username == t.users[i].username);
            }
        }
    }
}

/// Tables whose accounts keep their names and roles, and whose books keep
/// their owners, stay well-formed.
pub proof fn lemma_same_keys_wf(s: StoreView, t: StoreView)
    requires
        s.wf(),
        t.users.len() == s.users.len(),
        t.books.len() == s.books.len(),
        forall|i: int|
            0 <= i < s.users.len() ==> (#[trigger] t.users[i]).username == s.users[i].username
                && t.users[i].perm == s.users[i].perm,
        forall|i: int|
            0 <= i < s.books.len() ==> (#[trigger] t.books[i]).username == s.books[i].username,
    ensures
        t.wf(),
{
    assert forall|i: int, j: int|
        #![trigger t.users[i], t.users[j]]
        0 <= i < j < t.users.len() implies !is_account(
        t.users[j],
        t.users[i].username,
        t.users[i].perm,
    ) by {}
    assert forall|i: int, j: int|
        #![trigger t.books[i], t.books[j]]
        0 <= i < j < t.books.len() implies t.books[i].username != t.books[j].username by {}
    assert forall|i: int| 0 <= i < t.books.len() implies t.has_user(
        (#[trigger] t.books[i]).username,
        Permission::User,
    ) by {
        let j = s.user_index(s.books[i].username, Permission::User);
        assert(is_account(t.users[j], t.books[i].username, Permission::User));
    }
    assert forall|i: int|
        0 <= i < t.users.len() && (#[trigger] t.users[i]).perm
            == Permission::User implies t.has_book(t.users[i].username) by {
        let j = s.book_index(s.users[i].username);
        assert(t.books[j].username == t.users[i].username);
    }
}

/// A new password keeps the tables well-formed.
pub proof fn lemma_rekeyed_wf(
    s: StoreView,
    name: Seq<char>,
    old: Seq<char>,
    new: Seq<char>,
    perm: Permission,
)
    requires
        s.wf(),
    ensures
        s.rekeyed(name, old, new, perm).wf(),
{
    if s.accepts(name, old, perm) {
        lemma_accepts_has_user(s, name, old, perm);
        lemma_same_keys_wf(s, s.rekeyed(name, old, new, perm));
    }
}

/// Disabling or enabling an account keeps the tables well-formed.
pub proof fn lemma_switched_wf(s: StoreView, name: Seq<char>, perm: Permission, disabled: bool)
    requires
        s.wf(),
    ensures
        s.switched(name, perm, disabled).wf(),
{
    if s.has_user(name, perm) {
        lemma_same_keys_wf(s, s.switched(name, perm, disabled));
    }
}

/// Replacing a book keeps the tables well-formed.
pub proof fn lemma_rewritten_wf(
    s: StoreView,
    name: Seq<char>,
    tags: Seq<Seq<char>>,
    peers: Seq<PeerView>,
    now: u64,
)
    requires
        s.wf(),
    ensures
        s.rewritten(name, tags, peers, now).wf(),
{
    if s.has_book(name) {
        lemma_same_keys_wf(s, s.rewritten(name, tags, peers, now));
    }
}

/// An account that holds a password exists, and in well-formed tables it is
/// the one found under its name and role.
pub proof fn lemma_accepts_has_user(
    s: StoreView,
    name: Seq<char>,
    password: Seq<char>,
    perm: Permission,
)
    requires
        s.wf(),
        s.accepts(name, password, perm),
    ensures
        s.has_user(name, perm),
        s.users[s.user_index(name, perm)].password == password,
{
    let i = choose|i: int|
        0 <= i < s.users.len() && has_credentials(#[trigger] s.users[i], name, password, perm);
    lemma_user_index(s, i, name, perm);
}

/// In well-formed tables a password is accepted exactly when the account exists
/// and holds it.
pub proof fn lemma_accepts_iff(s: StoreView, name: Seq<char>, password: Seq<char>, perm: Permission)
    requires
        s.wf(),
    ensures
        s.accepts(name, password, perm) <==> s.has_user(name, perm) && s.users[s.user_index(
            name,
            perm,
        )].password == password,
{
    if s.accepts(name, password, perm) {
        lemma_accepts_has_user(s, name, password, perm);
    }
}

/// Creating an account that did not exist and then deleting it leaves the
/// tables exactly as they were: no account and no address book is left behind.
pub proof fn lemma_create_then_delete(s: StoreView, u: UserView, now: u64)
    requires
        s.wf(),
        !s.has_user(u.username, u.perm),
    ensures
        s.created(u, now).deleted(u.username, u.perm) == s,
{
    let t = s.created(u, now);
    lemma_created_wf(s, u, now);
    let n = s.users.len() as int;
    lemma_user_index(t, n, u.username, u.perm);
    assert(t.users.remove(n) =~= s.users);
    if u.perm == Permission::User {
        let m = s.books.len() as int;
        lemma_book_index(t, m, u.username);
        assert(t.books.remove(m) =~= s.books);
    }
}

/// After a book was replaced, reading it gives the labels and devices that
/// were written, in their order, and the second of the write.
pub proof fn lemma_update_then_get(
    s: StoreView,
    name: Seq<char>,
    tags: Seq<Seq<char>>,
    peers: Seq<PeerView>,
    now: u64,
)
    requires
        s.wf(),
        s.has_book(name),
    ensures
        s.rewritten(name, tags, peers, now).book_of(name) == Ok::<AddressBookView, StoreError>(
            AddressBookView { updated_at: Some(now), tags: tags, peers: peers },
        ),
{
    let t = s.rewritten(name, tags, peers, now);
    lemma_rewritten_wf(s, name, tags, peers, now);
    let b = s.book_index(name);
    lemma_book_index(t, b, name);
}

/// A look-up fails in one and the same way whether no account of that name and
/// role exists or the account holds another password.
pub proof fn lemma_lookup_failures_alike(
    absent: StoreView,
    present: StoreView,
    name: Seq<char>,
    password: Seq<char>,
    perm: Permission,
)
    requires
        absent.wf(),
        present.wf(),
        !absent.has_user(name, perm),
        present.has_user(name, perm),
        present.users[present.user_index(name, perm)].password != password,
    ensures
        absent.found(name, password, perm) == Err::<UserView, StoreError>(StoreError::NotFound),
        present.found(name, password, perm) == absent.found(name, password, perm),
{
    lemma_accepts_iff(absent, name, password, perm);
    lemma_accepts_iff(present, name, password, perm);
}

/// A password changes once: after the account that held `old` was given
/// another password, `old` is no longer accepted and a second change from `old`
/// leaves the tables as they are.
pub proof fn lemma_password_changes_once(
    s: StoreView,
    name: Seq<char>,
    old: Seq<char>,
    new: Seq<char>,
    other: Seq<char>,
    perm: Permission,
)
    requires
        s.wf(),
        s.accepts(name, old, perm),
        old != new,
    ensures
        s.rekeyed(name, old, new, perm).accepts(name, new, perm),
        !s.rekeyed(name, old, new, perm).accepts(name, old, perm),
        s.rekeyed(name, old, new, perm).rekeyed(name, old, other, perm) == s.rekeyed(
            name,
            old,
            new,
            perm,
        ),
{
    let t = s.rekeyed(name, old, new, perm);
    lemma_accepts_has_user(s, name, old, perm);
    lemma_rekeyed_wf(s, name, old, new, perm);
    let i = s.user_index(name, perm);
    lemma_user_index(t, i, name, perm);
    lemma_accepts_iff(t, name, old, perm);
    lemma_accepts_iff(t, name, new, perm);
}

} // verus!
