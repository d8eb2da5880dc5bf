//! The tables of accounts and address books.
//!
//! An account is known by its name together with its role: one name may belong
//! to an administrator and to a user at once, and these are two accounts. Every
//! user account owns exactly one address book, and no book exists without its
//! user account.

pub mod model;
pub mod tables;

use vstd::prelude::*;
use crate::database::model::{
    copy_peers, copy_strings, peer_views, texts, AddressBook, AddressBookView, Peer, Permission,
    User, UserView,
};
use crate::database::tables::{
    is_account, lemma_accepts_iff, lemma_book_index, lemma_created_wf,
    lemma_deleted_wf, lemma_rekeyed_wf, lemma_rewritten_wf, lemma_switched_wf, lemma_user_index,
    BookRowView, StoreError, StoreView,
};

verus! {

/// An address book with the name of its owner.
struct BookRow {
    username: String,
    book: AddressBook,
}

impl View for BookRow {
    type V = BookRowView;

    closed spec fn view(&self) -> BookRowView {
        BookRowView { username: self.username@, book: self.book@ }
    }
}

/// The two tables, held in memory.
pub struct DbPool {
    users: Vec<User>,
    books: Vec<BookRow>,
}

impl View for DbPool {
    type V = StoreView;

    closed spec fn view(&self) -> StoreView {
        StoreView {
            users: Seq::new(self.users.len() as nat, |i: int| self.users[i]@),
            books: Seq::new(self.books.len() as nat, |i: int| self.books[i]@),
        }
    }
}

impl DbPool {
    /// Whether the tables keep their rules.
    pub open spec fn wf(&self) -> bool {
        self@.wf()
    }

    /// Two empty tables.
    pub fn empty() -> (r: DbPool)
        ensures
            r@ == StoreView::empty(),
            r.wf(),
    {
        let r = DbPool { users: Vec::new(), books: Vec::new() };
        assert(r@.users =~= Seq::empty());
        assert(r@.books =~= Seq::empty());
        r
    }

    /// The tables as the service starts with them at the second `now`: one
    /// administrator and one user, both named `admin` with the password
    /// `admin`, and the user's empty address book.
    pub fn new(now: u64) -> (r: DbPool)
        ensures
            r@ == StoreView::empty().created(
                UserView {
                    username: "admin"@,
                    password: "admin"@,
                    perm: Permission::Admin,
                    disabled: false,
                },
                now,
            ).created(
                UserView {
                    username: "admin"@,
                    password: "admin"@,
                    perm: Permission::User,
                    disabled: false,
                },
                now,
            ),
            r.wf(),
    {
        let mut pool = DbPool::empty();
        pool.init(now);
        pool
    }

    /// Adds the two accounts that the service starts with, where they are
    /// missing.
    fn init(&mut self, now: u64)
        requires
            old(self).wf(),
        ensures
            final(self).wf(),
            final(self)@ == old(self)@.created(
                UserView {
                    username: "admin"@,
                    password: "admin"@,
                    perm: Permission::Admin,
                    disabled: false,
                },
                now,
            ).created(
                UserView {
                    username: "admin"@,
                    password: "admin"@,
                    perm: Permission::User,
                    disabled: false,
                },
                now,
            ),
    {
        let _ = self.create_user("admin", "admin", Permission::Admin, false, now);
        let _ = self.create_user("admin", "admin", Permission::User, false, now);
    }

    /// Where the account of that name and role stands, if it exists.
    fn find_user(&self, username: &String, perm: Permission) -> (r: Option<usize>)
        ensures
            match r {
                Some(i) => i < self@.users.len() && is_account(
                    self@.users[i as int],
                    username@,
                    perm,
                ),
                None => !self@.has_user(username@, perm),
            },
    {
        let mut i: usize = 0;
        while i < self.users.len()
            invariant
                i <= self.users.len(),
                forall|k: int| 0 <= k < i ==> !is_account(#[trigger] self@.users[k], username@, perm),
            decreases self.users.len() - i,
        {
            if self.users[i].perm == perm && self.users[i].username == *username {
                return Some(i);
            }
            i = i + 1;
        }
        None
    }

    /// Where the book kept under that name stands, if there is one.
    fn find_book(&self, username: &String) -> (r: Option<usize>)
        ensures
            match r {
                Some(i) => i < self@.books.len() && self@.books[i as int].username == username@,
                None => !self@.has_book(username@),
            },
    {
        let mut i: usize = 0;
        while i < self.books.len()
            invariant
                i <= self.books.len(),
                forall|k: int| 0 <= k < i ==> (#[trigger] self@.books[k]).username != username@,
            decreases self.books.len() - i,
        {
            if self.books[i].username == *username {
                return Some(i);
            }
            i = i + 1;
        }
        None
    }

    /// The account of that name and role, if it holds that password. The
    /// password is compared as it is stored. A missing account and a wrong
    /// password give the same error.
    pub fn query_user(&self, username: &str, password: &str, perm: Permission) -> (r: Result<
        User,
        StoreError,
    >)
        requires
            self.wf(),
        ensures
            match r {
                Ok(u) => Ok::<UserView, StoreError>(u@) == self@.found(username@, password@, perm),
                Err(e) => Err::<UserView, StoreError>(e) == self@.found(username@, password@, perm),
            },
    {
        let name = username.to_owned();
        let given = password.to_owned();
        proof {
            lemma_accepts_iff(self@, username@, password@, perm);
        }
        match self.find_user(&name, perm) {
            Some(i) => {
                proof {
                    lemma_user_index(self@, i as int, username@, perm);
                }
                if self.users[i].password == given {
                    Ok(self.users[i].copy())
                } else {
                    Err(StoreError::NotFound)
                }
            },
            None => Err(StoreError::NotFound),
        }
    }

    /// Adds an account. With a user account its empty address book, written at
    /// the second `now`, is added in the same step. Nothing changes where an
    /// account of that name and role exists.
    pub fn create_user(
        &mut self,
        username: &str,
        password: &str,
        perm: Permission,
        disabled: bool,
        now: u64,
    ) -> (r: Result<(), StoreError>)
        requires
            old(self).wf(),
        ensures
            final(self).wf(),
            final(self)@ == old(self)@.created(
                UserView {
                    username: username@,
                    password: password@,
                    perm: perm,
                    disabled: disabled,
                },
                now,
            ),
            r == if old(self)@.has_user(username@, perm) {
                Err::<(), StoreError>(StoreError::Duplicate)
            } else {
                Ok::<(), StoreError>(())
            },
    {
        let name = username.to_owned();
        let ghost u = UserView {
            username: username@,
            password: password@,
            perm: perm,
            disabled: disabled,
        };
        proof {
            lemma_created_wf(self@, u, now);
        }
        if self.find_user(&name, perm).is_some() {
            return Err(StoreError::Duplicate);
        }
        self.users.push(
            User {
                username: username.to_owned(),
                password: password.to_owned(),
                perm: perm,
                disabled: disabled,
            },
        );
        if perm.owns_book() {
            let book = AddressBook { updated_at: Some(now), tags: Vec::new(), peers: Vec::new() };
            assert(book@.tags =~= Seq::empty());
            assert(book@.peers =~= Seq::empty());
            self.books.push(BookRow { username: name, book: book });
        }
        assert(self@.users =~= old(self)@.created(u, now).users);
        assert(self@.books =~= old(self)@.created(u, now).books);
        Ok(())
    }

    /// Removes an account, and with a user account its address book in the
    /// same step.
    pub fn delete_user(&mut self, username: &str, perm: Permission) -> (r: Result<(), StoreError>)
        requires
            old(self).wf(),
        ensures
            final(self).wf(),
            final(self)@ == old(self)@.deleted(username@, perm),
            r == if old(self)@.has_user(username@, perm) {
                Ok::<(), StoreError>(())
            } else {
                Err::<(), StoreError>(StoreError::NotFound)
            },
    {
        let name = username.to_owned();
        proof {
            lemma_deleted_wf(self@, username@, perm);
        }
        match self.find_user(&name, perm) {
            None => Err(StoreError::NotFound),
            Some(i) => {
                proof {
                    lemma_user_index(self@, i as int, username@, perm);
                }
                if perm.owns_book() {
                    match self.find_book(&name) {
                        Some(b) => {
                            proof {
                                lemma_book_index(self@, b as int, username@);
                            }
                            self.books.remove(b);
                        },
                        None => {},
                    }
                }
                self.users.remove(i);
                assert(self@.users =~= old(self)@.deleted(username@, perm).users);
                assert(self@.books =~= old(self)@.deleted(username@, perm).books);
                Ok(())
            },
        }
    }

    /// Gives the account a new password if it holds the old one. The error is
    /// the same whether the account is missing or the old password is wrong.
    pub fn update_user_password(
        &mut self,
        username: &str,
        old_password: &str,
        new_password: &str,
        perm: Permission,
    ) -> (r: Result<(), StoreError>)
        requires
            old(self).wf(),
        ensures
            final(self).wf(),
            final(self)@ == old(self)@.rekeyed(username@, old_password@, new_password@, perm),
            r == if old(self)@.accepts(username@, old_password@, perm) {
                Ok::<(), StoreError>(())
            } else {
                Err::<(), StoreError>(StoreError::NotFound)
            },
    {
        let name = username.to_owned();
        let given = old_password.to_owned();
        proof {
            lemma_accepts_iff(self@, username@, old_password@, perm);
            lemma_rekeyed_wf(self@, username@, old_password@, new_password@, perm);
        }
        match self.find_user(&name, perm) {
            None => Err(StoreError::NotFound),
            Some(i) => {
                proof {
                    lemma_user_index(self@, i as int, username@, perm);
                }
                if self.users[i].password == given {
                    let row = User {
                        username: name,
                        password: new_password.to_owned(),
                        perm: perm,
                        disabled: self.users[i].disabled,
                    };
                    self.users.set(i, row);
                    assert(self@.users =~= old(self)@.rekeyed(
                        username@,
                        old_password@,
                        new_password@,
                        perm,
                    ).users);
                    Ok(())
                } else {
                    Err(StoreError::NotFound)
                }
            },
        }
    }

    /// Disables or enables the account of that name and role.
    pub fn update_user(&mut self, username: &str, perm: Permission, disabled: bool) -> (r: Result<
        (),
        StoreError,
    >)
        requires
            old(self).wf(),
        ensures
            final(self).wf(),
            final(self)@ == old(self)@.switched(username@, perm, disabled),
            r == if old(self)@.has_user(username@, perm) {
                Ok::<(), StoreError>(())
            } else {
                Err::<(), StoreError>(StoreError::NotFound)
            },
    {
        let name = username.to_owned();
        proof {
            lemma_switched_wf(self@, username@, perm, disabled);
        }
        match self.find_user(&name, perm) {
            None => Err(StoreError::NotFound),
            Some(i) => {
                proof {
                    lemma_user_index(self@, i as int, username@, perm);
                }
                let row = User {
                    username: name,
                    password: self.users[i].password.clone(),
                    perm: perm,
                    disabled: disabled,
                };
                self.users.set(i, row);
                assert(self@.users =~= old(self)@.switched(username@, perm, disabled).users);
                Ok(())
            },
        }
    }

    /// All accounts, in the order in which they were created.
    pub fn get_users(&self) -> (r: Vec<User>)
        ensures
            r@.len() == self@.users.len(),
            forall|i: int| 0 <= i < r@.len() ==> (#[trigger] r@[i])@ == self@.users[i],
    {
        let mut out: Vec<User> = Vec::new();
        let mut i: usize = 0;
        while i < self.users.len()
            invariant
                i <= self.users.len(),
                out.len() == i,
                forall|k: int| 0 <= k < i ==> (#[trigger] out@[k])@ == self@.users[k],
            decreases self.users.len() - i,
        {
            out.push(self.users[i].copy());
            i = i + 1;
        }
        out
    }

    /// The address book kept under that name.
    pub fn get_address_book(&self, username: &str) -> (r: Result<AddressBook, StoreError>)
        requires
            self.wf(),
        ensures
            match r {
                Ok(book) => Ok::<AddressBookView, StoreError>(book@) == self@.book_of(username@),
                Err(e) => Err::<AddressBookView, StoreError>(e) == self@.book_of(username@),
            },
    {
        let name = username.to_owned();
        match self.find_book(&name) {
            Some(b) => {
                proof {
                    lemma_book_index(self@, b as int, username@);
                }
                Ok(self.books[b].book.copy())
            },
            None => Err(StoreError::NotFound),
        }
    }

    /// Replaces the labels and devices of the book kept under that name and
    /// marks it as written at the second `now`. The devices keep the order in
    /// which they are given. Where no book is kept under that name nothing
    /// changes; that is no error.
    pub fn update_address_book(
        &mut self,
        username: &str,
        tags: &[String],
        peers: &[Peer],
        now: u64,
    ) -> (r: Result<(), StoreError>)
        requires
            old(self).wf(),
        ensures
            final(self).wf(),
            final(self)@ == old(self)@.rewritten(username@, texts(tags@), peer_views(peers@), now),
            r == Ok::<(), StoreError>(()),
    {
        let name = username.to_owned();
        proof {
            lemma_rewritten_wf(self@, username@, texts(tags@), peer_views(peers@), now);
        }
        match self.find_book(&name) {
            Some(b) => {
                proof {
                    lemma_book_index(self@, b as int, username@);
                }
                let book = AddressBook {
                    updated_at: Some(now),
                    tags: copy_strings(tags),
                    peers: copy_peers(peers),
                };
                self.books.set(b, BookRow { username: name, book: book });
                assert(self@.books =~= old(self)@.rewritten(
                    username@,
                    texts(tags@),
                    peer_views(peers@),
                    now,
                ).books);
            },
            None => {},
        }
        Ok(())
    }
}

} // verus!
