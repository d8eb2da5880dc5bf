//! The state of the panel and the steps that change it.

use vstd::prelude::*;
use vstd::string::StringExecFns;
use crate::database::model::{opt_text, Permission};

verus! {

/// How many lines the panel keeps in its log.
pub const MESSAGE_LIMIT: usize = 5;

/// The milliseconds the panel waits after a change of the accounts before it
/// asks for the list again.
pub const REFRESH_DELAY: u64 = 300;

/// What the panel asked the service to do.
#[derive(Clone, Copy, Debug, PartialEq, Eq, Hash, Structural)]
pub enum Operation {
    Default,
    Login,
    ChangePassword,
    GetUserList,
    CreateUser,
    DeleteUser,
}

/// The method of a request.
#[derive(Clone, Copy, Debug, PartialEq, Eq, Structural)]
pub enum Method {
    Get,
    Post,
    Delete,
}

impl Operation {
    /// The word that stands before a line of the log.
    pub open spec fn tag_spec(self) -> Seq<char> {
        match self {
            Operation::Default => "默认"@,
            Operation::Login => "登录"@,
            Operation::ChangePassword => "修改密码"@,
            Operation::GetUserList => "获取用户列表"@,
            Operation::CreateUser => "创建用户"@,
            Operation::DeleteUser => "删除用户"@,
        }
    }

    /// The word that stands before a line of the log.
    pub fn tag(&self) -> (r: &'static str)
        ensures
            r@ == self.tag_spec(),
    {
        match self {
            Operation::Default => "默认",
            Operation::Login => "登录",
            Operation::ChangePassword => "修改密码",
            Operation::GetUserList => "获取用户列表",
            Operation::CreateUser => "创建用户",
            Operation::DeleteUser => "删除用户",
        }
    }

    /// The method and the path of the request for an operation.
    pub open spec fn request_info_spec(self) -> (Method, Seq<char>) {
        match self {
            Operation::Login => (Method::Post, "/manage/login"@),
            Operation::ChangePassword => (Method::Post, "/manage/change_password"@),
            Operation::GetUserList => (Method::Get, "/manage/user"@),
            Operation::CreateUser => (Method::Post, "/manage/user"@),
            _ => (Method::Delete, "/manage/user"@),
        }
    }

    /// The method and the path of the request for an operation. The operation
    /// that stands for none has no request.
    pub fn request_info(&self) -> (r: (Method, &'static str))
        requires
            *self != Operation::Default,
        ensures
            r.0 == self.request_info_spec().0,
            r.1@ == self.request_info_spec().1,
    {
        match self {
            Operation::Login => (Method::Post, "/manage/login"),
            Operation::ChangePassword => (Method::Post, "/manage/change_password"),
            Operation::GetUserList => (Method::Get, "/manage/user"),
            Operation::CreateUser => (Method::Post, "/manage/user"),
            _ => (Method::Delete, "/manage/user"),
        }
    }
}

impl Default for Operation {
    /// The operation that stands for none.
    fn default() -> (r: Operation)
        ensures
            r == Operation::Default,
    {
        Operation::Default
    }
}

/// An account as the service lists it.
#[derive(Clone, Debug, PartialEq, Eq)]
pub struct UserInfo {
    pub username: String,
    pub perm: Permission,
    pub disabled: bool,
}

/// What a listed account holds.
pub struct UserInfoView {
    pub username: Seq<char>,
    pub perm: Permission,
    pub disabled: bool,
}

impl View for UserInfo {
    type V = UserInfoView;

    open spec fn view(&self) -> UserInfoView {
        UserInfoView { username: self.username@, perm: self.perm, disabled: self.disabled }
    }
}

/// What a list of accounts holds.
pub open spec fn infos(v: Seq<UserInfo>) -> Seq<UserInfoView> {
    Seq::new(v.len(), |i: int| v[i]@)
}

/// What the service sent with a success.
#[derive(Clone, Debug, PartialEq, Eq)]
pub enum ResponseBody {
    Login { access_token: String },
    Users { users: Vec<UserInfo> },
    Empty {  },
}

/// What the body of an answer holds.
pub enum ResponseBodyView {
    Login { access_token: Seq<char> },
    Users { users: Seq<UserInfoView> },
    Empty,
}

impl View for ResponseBody {
    type V = ResponseBodyView;

    open spec fn view(&self) -> ResponseBodyView {
        match self {
            ResponseBody::Login { access_token } => ResponseBodyView::Login {
                access_token: access_token@,
            },
            ResponseBody::Users { users } => ResponseBodyView::Users { users: infos(users@) },
            ResponseBody::Empty {  } => ResponseBodyView::Empty,
        }
    }
}

/// An answer of the service, with the operation it answers.
#[derive(Clone, Debug, PartialEq, Eq)]
pub struct Response {
    pub op: Operation,
    pub ignore_ok: bool,
    pub error: Option<String>,
    pub data: Option<ResponseBody>,
}

/// What an answer holds.
pub struct ResponseView {
    pub op: Operation,
    pub ignore_ok: bool,
    pub error: Option<Seq<char>>,
    pub data: Option<ResponseBodyView>,
}

impl View for Response {
    type V = ResponseView;

    open spec fn view(&self) -> ResponseView {
        ResponseView {
            op: self.op,
            ignore_ok: self.ignore_ok,
            error: opt_text(self.error),
            data: match self.data {
                Some(body) => Some(body@),
                None => None,
            },
        }
    }
}

impl Response {
    /// The answer that stands for a request that failed.
    pub fn error(op: Operation, error: &str) -> (r: Response)
        ensures
            r@ == (ResponseView { op: op, ignore_ok: false, error: Some(error@), data: None }),
    {
        Response { op: op, ignore_ok: false, error: Some(String::from_str(error)), data: None }
    }
}

/// Whether a line of the log reports a failure or a success.
#[derive(Clone, Copy, Debug, PartialEq, Eq, Structural)]
pub enum Tone {
    Error,
    Info,
}

/// What the panel asks the service for.
#[derive(Clone, Debug, PartialEq, Eq)]
pub enum Request {
    Login { username: String, password: String, perm: Permission },
    ChangePassword { old_password: String, new_password: String },
    GetUserList,
    CreateUser { username: String, password: String, perm: Permission, disabled: bool },
    DeleteUser { username: String, perm: Permission },
}

/// What a request holds.
pub enum RequestView {
    Login { username: Seq<char>, password: Seq<char>, perm: Permission },
    ChangePassword { old_password: Seq<char>, new_password: Seq<char> },
    GetUserList,
    CreateUser { username: Seq<char>, password: Seq<char>, perm: Permission, disabled: bool },
    DeleteUser { username: Seq<char>, perm: Permission },
}

impl View for Request {
    type V = RequestView;

    open spec fn view(&self) -> RequestView {
        match self {
            Request::Login { username, password, perm } => RequestView::Login {
                username: username@,
                password: password@,
                perm: *perm,
            },
            Request::ChangePassword { old_password, new_password } => RequestView::ChangePassword {
                old_password: old_password@,
                new_password: new_password@,
            },
            Request::GetUserList => RequestView::GetUserList,
            Request::CreateUser { username, password, perm, disabled } => RequestView::CreateUser {
                username: username@,
                password: password@,
                perm: *perm,
                disabled: *disabled,
            },
            Request::DeleteUser { username, perm } => RequestView::DeleteUser {
                username: username@,
                perm: *perm,
            },
        }
    }
}

/// What an optional request holds.
pub open spec fn opt_request(r: Option<Request>) -> Option<RequestView> {
    match r {
        Some(q) => Some(q@),
        None => None,
    }
}

impl Request {
    /// The operation that the request stands for.
    pub fn op(&self) -> (r: Operation)
        ensures
            r != Operation::Default,
            r == match self@ {
                RequestView::Login { .. } => Operation::Login,
                RequestView::ChangePassword { .. } => Operation::ChangePassword,
                RequestView::GetUserList => Operation::GetUserList,
                RequestView::CreateUser { .. } => Operation::CreateUser,
                RequestView::DeleteUser { .. } => Operation::DeleteUser,
            },
    {
        match self {
            Request::Login { .. } => Operation::Login,
            Request::ChangePassword { .. } => Operation::ChangePassword,
            Request::GetUserList => Operation::GetUserList,
            Request::CreateUser { .. } => Operation::CreateUser,
            Request::DeleteUser { .. } => Operation::DeleteUser,
        }
    }
}

/// What is logged where the service no longer accepts the token.
pub const MSG_EXPIRED: &'static str = "当前用户授权已过期或无效，请重新登录";

/// What is logged where an operation succeeded.
pub const MSG_DONE: &'static str = "操作成功";

/// What is logged where name or password is missing.
pub const MSG_NAME_OR_PASSWORD_EMPTY: &'static str = "用户名或密码不能为空";

/// What is logged where one of the three passwords is missing.
pub const MSG_PASSWORDS_EMPTY: &'static str = "当前密码、修改密码、确认密码均不能为空";

/// What is logged where the new password and its repetition differ.
pub const MSG_PASSWORDS_DIFFER: &'static str = "修改密码与确认密码不相同";

/// The line of the log for a message about an operation.
pub open spec fn line_text(op: Operation, message: Seq<char>) -> Seq<char> {
    op.tag_spec() + ": "@ + message
}

/// The log after a line was added: the oldest line leaves where the log is
/// full.
pub open spec fn logged(log: Seq<(Tone, Seq<char>)>, tone: Tone, text: Seq<char>) -> Seq<
    (Tone, Seq<char>),
> {
    if log.len() >= MESSAGE_LIMIT {
        log.drop_first().push((tone, text))
    } else {
        log.push((tone, text))
    }
}

/// What the log holds.
pub open spec fn log_view(log: Seq<(Tone, String)>) -> Seq<(Tone, Seq<char>)> {
    Seq::new(log.len(), |i: int| (log[i].0, log[i].1@))
}

/// The form for a new account.
#[derive(Clone, Debug, PartialEq, Eq)]
pub struct NewUser {
    pub username: String,
    pub password: String,
    pub perm: Permission,
    pub disabled: bool,
}

/// What the form for a new account holds.
pub struct NewUserView {
    pub username: Seq<char>,
    pub password: Seq<char>,
    pub perm: Permission,
    pub disabled: bool,
}

impl View for NewUser {
    type V = NewUserView;

    open spec fn view(&self) -> NewUserView {
        NewUserView {
            username: self.username@,
            password: self.password@,
            perm: self.perm,
            disabled: self.disabled,
        }
    }
}

/// The panel: the forms as they are filled in, the token once signed in, the
/// accounts as last listed, and the log.
#[derive(Clone, Debug, PartialEq, Eq)]
pub struct User {
    pub username: String,
    pub password: String,
    pub pwd_current: String,
    pub pwd_new1: String,
    pub pwd_new2: String,
    pub perm: Permission,
    pub remembered: bool,
    pub access_token: Option<String>,
    pub create_user: NewUser,
    pub users: Vec<UserInfo>,
    /// The millisecond in which the accounts changed, while the list is due.
    pub refer_user: Option<u64>,
    pub message: Vec<(Tone, String)>,
}

/// What the panel holds.
pub struct PanelView {
    pub username: Seq<char>,
    pub password: Seq<char>,
    pub pwd_current: Seq<char>,
    pub pwd_new1: Seq<char>,
    pub pwd_new2: Seq<char>,
    pub perm: Permission,
    pub remembered: bool,
    pub access_token: Option<Seq<char>>,
    pub create_user: NewUserView,
    pub users: Seq<UserInfoView>,
    pub refer_user: Option<u64>,
    pub message: Seq<(Tone, Seq<char>)>,
}

impl View for User {
    type V = PanelView;

    open spec fn view(&self) -> PanelView {
        PanelView {
            username: self.username@,
            password: self.password@,
            pwd_current: self.pwd_current@,
            pwd_new1: self.pwd_new1@,
            pwd_new2: self.pwd_new2@,
            perm: self.perm,
            remembered: self.remembered,
            access_token: opt_text(self.access_token),
            create_user: self.create_user@,
            users: infos(self.users@),
            refer_user: self.refer_user,
            message: log_view(self.message@),
        }
    }
}

impl PanelView {
    /// The panel as it starts: empty forms, a user's role, not signed in.
    pub open spec fn start() -> PanelView {
        PanelView {
            username: Seq::empty(),
            password: Seq::empty(),
            pwd_current: Seq::empty(),
            pwd_new1: Seq::empty(),
            pwd_new2: Seq::empty(),
            perm: Permission::User,
            remembered: true,
            access_token: None,
            create_user: NewUserView {
                username: Seq::empty(),
                password: Seq::empty(),
                perm: Permission::User,
                disabled: false,
            },
            users: Seq::empty(),
            refer_user: None,
            message: Seq::empty(),
        }
    }

    /// The panel after a line was added to its log.
    pub open spec fn noted(self, tone: Tone, op: Operation, message: Seq<char>) -> PanelView {
        PanelView { message: logged(self.message, tone, line_text(op, message)), ..self }
    }

    /// The panel after an answer of the service came in at the millisecond
    /// `now`. An answer with the status 401 signs the user out. A failure is
    /// logged. A token signs the user in, and an administrator's list is then
    /// due. A list replaces the one shown. An empty success is logged unless
    /// the request asked for silence.
    pub open spec fn received(self, code: u16, answer: ResponseView, now: u64) -> PanelView {
        if code == 401 {
            PanelView { access_token: None, ..self.noted(Tone::Error, answer.op, MSG_EXPIRED@) }
        } else if answer.error is Some {
            self.noted(Tone::Error, answer.op, answer.error->0)
        } else {
            match answer.data {
                Some(ResponseBodyView::Login { access_token }) => PanelView {
                    password: if self.remembered {
                        self.password
                    } else {
                        Seq::empty()
                    },
                    access_token: Some(access_token),
                    refer_user: if self.perm == Permission::Admin {
                        Some(now)
                    } else {
                        self.refer_user
                    },
                    ..self
                },
                Some(ResponseBodyView::Users { users }) => PanelView { users: users, ..self },
                Some(ResponseBodyView::Empty) => if answer.ignore_ok {
                    self
                } else {
                    self.noted(Tone::Info, answer.op, MSG_DONE@)
                },
                None => self,
            }
        }
    }

    /// Whether the list of accounts is due at the millisecond `now`: the
    /// accounts changed and the delay has passed since.
    pub open spec fn list_due(self, now: u64) -> bool {
        self.refer_user matches Some(since) && now >= since && now - since >= REFRESH_DELAY
    }
}

impl User {
    /// The panel as it starts: empty forms, a user's role, not signed in.
    pub fn new() -> (r: User)
        ensures
            r@ == PanelView::start(),
    {
        let r = User {
            username: String::new(),
            password: String::new(),
            pwd_current: String::new(),
            pwd_new1: String::new(),
            pwd_new2: String::new(),
            perm: Permission::User,
            remembered: true,
            access_token: None,
            create_user: NewUser {
                username: String::new(),
                password: String::new(),
                perm: Permission::User,
                disabled: false,
            },
            users: Vec::new(),
            refer_user: None,
            message: Vec::new(),
        };
        assert(r@.users =~= Seq::empty());
        assert(r@.message =~= Seq::empty());
        r
    }

    /// Whether someone is signed in.
    pub fn login(&self) -> (r: bool)
        ensures
            r == self@.access_token is Some,
    {
        self.access_token.is_some()
    }

    /// Whether the panel shows the accounts: to an administrator who is signed
    /// in.
    pub fn manages(&self) -> (r: bool)
        ensures
            r == (self@.access_token is Some && self@.perm == Permission::Admin),
    {
        self.access_token.is_some() && self.perm == Permission::Admin
    }

    /// Adds a line to the log; the oldest line leaves where the log is full.
    pub fn add_message(&mut self, op: Operation, message: &str, tone: Tone)
        ensures
            final(self)@ == old(self)@.noted(tone, op, message@),
    {
        if self.message.len() >= MESSAGE_LIMIT {
            self.message.remove(0);
        }
        let mut line = String::from_str(op.tag());
        line.append(": ");
        line.append(message);
        self.message.push((tone, line));
        assert(self@.message =~= old(self)@.noted(tone, op, message@).message);
    }

    /// Logs a failure.
    pub fn add_error(&mut self, op: Operation, error: &str)
        ensures
            final(self)@ == old(self)@.noted(Tone::Error, op, error@),
    {
        self.add_message(op, error, Tone::Error);
    }

    /// Logs a success.
    pub fn add_info(&mut self, op: Operation, info: &str)
        ensures
            final(self)@ == old(self)@.noted(Tone::Info, op, info@),
    {
        self.add_message(op, info, Tone::Info);
    }

    /// Takes the line at `index` out of the log; nothing changes where there
    /// is none.
    pub fn dismiss(&mut self, index: usize)
        ensures
            final(self)@ == if index < old(self)@.message.len() {
                PanelView { message: old(self)@.message.remove(index as int), ..old(self)@ }
            } else {
                old(self)@
            },
    {
        if index < self.message.len() {
            self.message.remove(index);
            assert(self@.message =~= old(self)@.message.remove(index as int));
        }
    }

    /// Signs the user out: the token is dropped. The service is not told.
    pub fn sign_out(&mut self)
        ensures
            final(self)@ == (PanelView { access_token: None, ..old(self)@ }),
    {
        self.access_token = None;
    }

    /// Asks for the list of accounts, now or after the delay: with `wait` the
    /// list becomes due from the millisecond `now` and nothing is asked yet.
    pub fn get_user_info(&mut self, wait: bool, now: u64) -> (r: Option<Request>)
        ensures
            wait ==> r is None && final(self)@ == (PanelView {
                refer_user: Some(now),
                ..old(self)@
            }),
            !wait ==> opt_request(r) == Some(RequestView::GetUserList) && final(self)@ == old(
                self,
            )@,
    {
        if wait {
            self.refer_user = Some(now);
            None
        } else {
            Some(Request::GetUserList)
        }
    }

    /// Asks for the list of accounts once it is due at the millisecond `now`.
    pub fn refresh_due(&mut self, now: u64) -> (r: Option<Request>)
        ensures
            old(self)@.list_due(now) ==> opt_request(r) == Some(RequestView::GetUserList)
                && final(self)@ == (PanelView { refer_user: None, ..old(self)@ }),
            !old(self)@.list_due(now) ==> r is None && final(self)@ == old(self)@,
    {
        let due = match self.refer_user {
            Some(since) => now >= since && now - since >= REFRESH_DELAY,
            None => false,
        };
        if due {
            self.refer_user = None;
            Some(Request::GetUserList)
        } else {
            None
        }
    }

    /// Takes in an answer of the service that came with the status `code` at
    /// the millisecond `now`. Gives `true` where the service no longer accepts
    /// the token: the answers that are still waiting are then to be dropped.
    pub fn receive(&mut self, code: u16, answer: Response, now: u64) -> (r: bool)
        ensures
            r == (code == 401),
            final(self)@ == old(self)@.received(code, answer@, now),
    {
        if code == 401 {
            self.access_token = None;
            self.add_error(answer.op, MSG_EXPIRED);
            return true;
        }
        if let Some(error) = answer.error {
            self.add_error(answer.op, error.as_str());
            return false;
        }
        match answer.data {
            Some(ResponseBody::Login { access_token }) => {
                if !self.remembered {
                    self.password = String::new();
                }
                self.access_token = Some(access_token);
                if self.perm == Permission::Admin {
                    self.refer_user = Some(now);
                }
            },
            Some(ResponseBody::Users { users }) => {
                self.users = users;
            },
            Some(ResponseBody::Empty {  }) => {
                if !answer.ignore_ok {
                    self.add_info(answer.op, MSG_DONE);
                }
            },
            None => {},
        }
        false
    }

    /// The request to sign in with the name, password and role filled in.
    /// Where name or password is missing, that is logged and nothing is asked.
    pub fn submit_login(&mut self) -> (r: Option<Request>)
        ensures
            if old(self)@.username.len() == 0 || old(self)@.password.len() == 0 {
                &&& r is None
                &&& final(self)@ == old(self)@.noted(
                    Tone::Error,
                    Operation::Login,
                    MSG_NAME_OR_PASSWORD_EMPTY@,
                )
            } else {
                &&& final(self)@ == old(self)@
                &&& opt_request(r) == Some(
                    RequestView::Login {
                        username: old(self)@.username,
                        password: old(self)@.password,
                        perm: old(self)@.perm,
                    },
                )
            },
    {
        if self.username.as_str().is_empty() || self.password.as_str().is_empty() {
            self.add_error(Operation::Login, MSG_NAME_OR_PASSWORD_EMPTY);
            None
        } else {
            Some(
                Request::Login {
                    username: self.username.clone(),
                    password: self.password.clone(),
                    perm: self.perm,
                },
            )
        }
    }

    /// The request to change the password as filled in; the three fields are
    /// emptied. Where one of them is missing, or the new password and its
    /// repetition differ, that is logged and nothing is asked.
    pub fn submit_password(&mut self) -> (r: Option<Request>)
        ensures
            ({
                let before = old(self)@;
                if before.pwd_current.len() == 0 || before.pwd_new1.len() == 0
                    || before.pwd_new2.len() == 0 {
                    &&& r is None
                    &&& final(self)@ == before.noted(
                        Tone::Error,
                        Operation::ChangePassword,
                        MSG_PASSWORDS_EMPTY@,
                    )
                } else if before.pwd_new1 != before.pwd_new2 {
                    &&& r is None
                    &&& final(self)@ == before.noted(
                        Tone::Error,
                        Operation::ChangePassword,
                        MSG_PASSWORDS_DIFFER@,
                    )
                } else {
                    &&& opt_request(r) == Some(
                        RequestView::ChangePassword {
                            old_password: before.pwd_current,
                            new_password: before.pwd_new1,
                        },
                    )
                    &&& final(self)@ == (PanelView {
                        pwd_current: Seq::empty(),
                        pwd_new1: Seq::empty(),
                        pwd_new2: Seq::empty(),
                        ..before
                    })
                }
            }),
    {
        if self.pwd_current.as_str().is_empty() || self.pwd_new1.as_str().is_empty()
            || self.pwd_new2.as_str().is_empty() {
            self.add_error(Operation::ChangePassword, MSG_PASSWORDS_EMPTY);
            return None;
        }
        if self.pwd_new1 != self.pwd_new2 {
            self.add_error(Operation::ChangePassword, MSG_PASSWORDS_DIFFER);
            return None;
        }
        let request = Request::ChangePassword {
            old_password: self.pwd_current.clone(),
            new_password: self.pwd_new1.clone(),
        };
        self.pwd_current = String::new();
        self.pwd_new1 = String::new();
        self.pwd_new2 = String::new();
        Some(request)
    }

    /// The request to create the account filled in; the list of accounts
    /// becomes due from the millisecond `now`. Where name or password is
    /// missing, that is logged and nothing is asked.
    pub fn submit_create(&mut self, now: u64) -> (r: Option<Request>)
        ensures
            ({
                let before = old(self)@;
                if before.create_user.username.len() == 0 || before.create_user.password.len()
                    == 0 {
                    &&& r is None
                    &&& final(self)@ == before.noted(
                        Tone::Error,
                        Operation::CreateUser,
                        MSG_NAME_OR_PASSWORD_EMPTY@,
                    )
                } else {
                    &&& opt_request(r) == Some(
                        RequestView::CreateUser {
                            username: before.create_user.username,
                            password: before.create_user.password,
                            perm: before.create_user.perm,
                            disabled: before.create_user.disabled,
                        },
                    )
                    &&& final(self)@ == (PanelView { refer_user: Some(now), ..before })
                }
            }),
    {
        if self.create_user.username.as_str().is_empty()
            || self.create_user.password.as_str().is_empty() {
            self.add_error(Operation::CreateUser, MSG_NAME_OR_PASSWORD_EMPTY);
            return None;
        }
        self.refer_user = Some(now);
        Some(
            Request::CreateUser {
                username: self.create_user.username.clone(),
                password: self.create_user.password.clone(),
                perm: self.create_user.perm,
                disabled: self.create_user.disabled,
            },
        )
    }

    /// The request to delete an account; the list of accounts becomes due from
    /// the millisecond `now`.
    pub fn submit_delete(&mut self, username: &str, perm: Permission, now: u64) -> (r: Request)
        ensures
            r@ == (RequestView::DeleteUser { username: username@, perm: perm }),
            final(self)@ == (PanelView { refer_user: Some(now), ..old(self)@ }),
    {
        self.refer_user = Some(now);
        Request::DeleteUser { username: username.to_owned(), perm: perm }
    }
}

} // verus!
