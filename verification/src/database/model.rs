//! The rows of the two tables, and what they stand for in contracts.

use vstd::prelude::*;
use vstd::string::StringExecFns;

verus! {

/// The role of an account, and of the tokens issued for it.
#[derive(Clone, Copy, Debug, PartialEq, Eq, Hash, Structural)]
pub enum Permission {
    Admin,
    User,
}

impl Permission {
    /// The number under which the role is stored.
    pub open spec fn code_spec(self) -> u8 {
        match self {
            Permission::Admin => 0,
            Permission::User => 1,
        }
    }

    /// The number under which the role is stored: 0 for an administrator, 1 for a user.
    pub fn code(self) -> (r: u8)
        ensures
            r == self.code_spec(),
    {
        match self {
            Permission::Admin => 0,
            Permission::User => 1,
        }
    }

    /// The role stored under a number, if there is one.
    pub open spec fn from_code_spec(code: u8) -> Option<Permission> {
        if code == 0 {
            Some(Permission::Admin)
        } else if code == 1 {
            Some(Permission::User)
        } else {
            None
        }
    }

    /// The role stored under `code`; `None` for a number that stands for no role.
    pub fn from_code(code: u8) -> (r: Option<Permission>)
        ensures
            r == Self::from_code_spec(code),
    {
        if code == 0 {
            Some(Permission::Admin)
        } else if code == 1 {
            Some(Permission::User)
        } else {
            None
        }
    }

    /// The name of the role as the panel shows it.
    pub open spec fn name_spec(self) -> Seq<char> {
        match self {
            Permission::User => "普通用户"@,
            Permission::Admin => "管理员"@,
        }
    }

    /// The name of the role as the panel shows it.
    pub fn name(&self) -> (r: &'static str)
        ensures
            r@ == self.name_spec(),
    {
        match self {
            Permission::User => "普通用户",
            Permission::Admin => "管理员",
        }
    }

    /// Whether an account of this role owns an address book: a user's does,
    /// an administrator's does not.
    pub fn owns_book(self) -> (r: bool)
        ensures
            r == (self == Permission::User),
    {
        self == Permission::User
    }

    /// The word for the role in a token and in a request.
    pub open spec fn word_spec(self) -> Seq<char> {
        match self {
            Permission::Admin => "Admin"@,
            Permission::User => "User"@,
        }
    }

    /// The word for the role in a token and in a request: `Admin` or `User`.
    pub fn word(self) -> (r: &'static str)
        ensures
            r@ == self.word_spec(),
    {
        match self {
            Permission::Admin => "Admin",
            Permission::User => "User",
        }
    }

    /// The role that a word names, if it names one.
    pub open spec fn from_word_spec(word: Seq<char>) -> Option<Permission> {
        if word == "Admin"@ {
            Some(Permission::Admin)
        } else if word == "User"@ {
            Some(Permission::User)
        } else {
            None
        }
    }

    /// The role that `word` names; `None` for any word but `Admin` and `User`.
    pub fn from_word(word: &String) -> (r: Option<Permission>)
        ensures
            r == Self::from_word_spec(word@),
    {
        let admin = String::from_str("Admin");
        let user = String::from_str("User");
        if *word == admin {
            Some(Permission::Admin)
        } else if *word == user {
            Some(Permission::User)
        } else {
            None
        }
    }
}

/// What a list of strings holds.
pub open spec fn texts(v: Seq<String>) -> Seq<Seq<char>> {
    Seq::new(v.len(), |i: int| v[i]@)
}

/// What an optional string holds.
pub open spec fn opt_text(s: Option<String>) -> Option<Seq<char>> {
    match s {
        Some(t) => Some(t@),
        None => None,
    }
}

/// A copy of an optional string.
pub fn copy_opt_string(s: &Option<String>) -> (r: Option<String>)
    ensures
        opt_text(r) == opt_text(*s),
{
    match s {
        Some(t) => Some(t.clone()),
        None => None,
    }
}

/// A copy of a list of strings, in the same order.
pub fn copy_strings(v: &[String]) -> (r: Vec<String>)
    ensures
        texts(r@) == texts(v@),
{
    let mut out: Vec<String> = Vec::new();
    let mut i: usize = 0;
    while i < v.len()
        invariant
            i <= v.len(),
            out.len() == i,
            forall|k: int| 0 <= k < i ==> out[k]@ == v[k]@,
        decreases v.len() - i,
    {
        out.push(v[i].clone());
        i = i + 1;
    }
    out
}

/// An account row.
#[derive(Clone, Debug, PartialEq, Eq)]
pub struct User {
    pub username: String,
    pub password: String,
    pub perm: Permission,
    pub disabled: bool,
}

/// What an account row holds.
pub struct UserView {
    pub username: Seq<char>,
    pub password: Seq<char>,
    pub perm: Permission,
    pub disabled: bool,
}

impl View for User {
    type V = UserView;

    open spec fn view(&self) -> UserView {
        UserView {
            username: self.username@,
            password: self.password@,
            perm: self.perm,
            disabled: self.disabled,
        }
    }
}

impl User {
    /// A copy of the row.
    pub fn copy(&self) -> (r: User)
        ensures
            r@ == self@,
    {
        User {
            username: self.username.clone(),
            password: self.password.clone(),
            perm: self.perm,
            disabled: self.disabled,
        }
    }
}

/// A device listed in an address book.
#[derive(Clone, Debug, PartialEq, Eq)]
pub struct Peer {
    pub id: String,
    pub username: Option<String>,
    pub hostname: Option<String>,
    pub platform: Option<String>,
    pub alias: Option<String>,
    pub tags: Vec<String>,
}

/// What a device record holds.
pub struct PeerView {
    pub id: Seq<char>,
    pub username: Option<Seq<char>>,
    pub hostname: Option<Seq<char>>,
    pub platform: Option<Seq<char>>,
    pub alias: Option<Seq<char>>,
    pub tags: Seq<Seq<char>>,
}

impl View for Peer {
    type V = PeerView;

    open spec fn view(&self) -> PeerView {
        PeerView {
            id: self.id@,
            username: opt_text(self.username),
            hostname: opt_text(self.hostname),
            platform: opt_text(self.platform),
            alias: opt_text(self.alias),
            tags: texts(self.tags@),
        }
    }
}

impl Peer {
    /// A copy of the record.
    pub fn copy(&self) -> (r: Peer)
        ensures
            r@ == self@,
    {
        Peer {
            id: self.id.clone(),
            username: copy_opt_string(&self.username),
            hostname: copy_opt_string(&self.hostname),
            platform: copy_opt_string(&self.platform),
            alias: copy_opt_string(&self.alias),
            tags: copy_strings(&self.tags),
        }
    }
}

/// What a list of device records holds.
pub open spec fn peer_views(v: Seq<Peer>) -> Seq<PeerView> {
    Seq::new(v.len(), |i: int| v[i]@)
}

/// A copy of a list of device records, in the same order.
pub fn copy_peers(v: &[Peer]) -> (r: Vec<Peer>)
    ensures
        peer_views(r@) == peer_views(v@),
{
    let mut out: Vec<Peer> = Vec::new();
    let mut i: usize = 0;
    while i < v.len()
        invariant
            i <= v.len(),
            out.len() == i,
            forall|k: int| 0 <= k < i ==> out[k]@ == v[k]@,
        decreases v.len() - i,
    {
        out.push(v[i].copy());
        i = i + 1;
    }
    out
}

/// The address book of one user account: labels, and devices in the order the
/// owner gave them.
#[derive(Clone, Debug, PartialEq, Eq)]
pub struct AddressBook {
    /// The second, counted from 1970 in UTC, of the last write.
    pub updated_at: Option<u64>,
    pub tags: Vec<String>,
    pub peers: Vec<Peer>,
}

/// What an address book holds.
pub struct AddressBookView {
    pub updated_at: Option<u64>,
    pub tags: Seq<Seq<char>>,
    pub peers: Seq<PeerView>,
}

impl View for AddressBook {
    type V = AddressBookView;

    open spec fn view(&self) -> AddressBookView {
        AddressBookView {
            updated_at: self.updated_at,
            tags: texts(self.tags@),
            peers: peer_views(self.peers@),
        }
    }
}

impl AddressBookView {
    /// The book that a new user account starts with, written at `now`.
    pub open spec fn empty_at(now: u64) -> AddressBookView {
        AddressBookView { updated_at: Some(now), tags: Seq::empty(), peers: Seq::empty() }
    }
}

impl AddressBook {
    /// A copy of the book.
    pub fn copy(&self) -> (r: AddressBook)
        ensures
            r@ == self@,
    {
        AddressBook {
            updated_at: self.updated_at,
            tags: copy_strings(&self.tags),
            peers: copy_peers(&self.peers),
        }
    }
}

impl Default for AddressBook {
    /// A book with no labels and no devices that was never written.
    fn default() -> (r: AddressBook)
        ensures
            r@ == (AddressBookView { updated_at: None, tags: Seq::empty(), peers: Seq::empty() }),
    {
        let r = AddressBook { updated_at: None, tags: Vec::new(), peers: Vec::new() };
        assert(r@.tags =~= Seq::empty());
        assert(r@.peers =~= Seq::empty());
        r
    }
}

} // verus!
