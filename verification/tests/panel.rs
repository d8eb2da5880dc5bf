use hbba::database::model::Permission;
use hbba::ui::user::{
    Method, NewUser, Operation, Request, Response, ResponseBody, Tone, User, UserInfo,
    MESSAGE_LIMIT, REFRESH_DELAY,
};

fn lines(panel: &User) -> Vec<(Tone, &str)> {
    panel.message.iter().map(|(t, s)| (*t, s.as_str())).collect()
}

fn answer(op: Operation, data: Option<ResponseBody>) -> Response {
    Response { op, ignore_ok: false, error: None, data }
}

#[test]
fn operation_tags() {
    assert_eq!(Operation::Default.tag(), "默认");
    assert_eq!(Operation::Login.tag(), "登录");
    assert_eq!(Operation::ChangePassword.tag(), "修改密码");
    assert_eq!(Operation::GetUserList.tag(), "获取用户列表");
    assert_eq!(Operation::CreateUser.tag(), "创建用户");
    assert_eq!(Operation::DeleteUser.tag(), "删除用户");
    assert_eq!(Operation::default(), Operation::Default);
}

#[test]
fn operation_requests() {
    assert_eq!(Operation::Login.request_info(), (Method::Post, "/manage/login"));
    assert_eq!(Operation::ChangePassword.request_info(), (Method::Post, "/manage/change_password"));
    assert_eq!(Operation::GetUserList.request_info(), (Method::Get, "/manage/user"));
    assert_eq!(Operation::CreateUser.request_info(), (Method::Post, "/manage/user"));
    assert_eq!(Operation::DeleteUser.request_info(), (Method::Delete, "/manage/user"));
}

#[test]
fn failed_answer() {
    assert_eq!(
        Response::error(Operation::Login, "请求出错: x"),
        Response {
            op: Operation::Login,
            ignore_ok: false,
            error: Some("请求出错: x".to_string()),
            data: None
        }
    );
}

#[test]
fn panel_starts_signed_out() {
    let p = User::new();
    assert_eq!(
        p,
        User {
            username: String::new(),
            password: String::new(),
            pwd_current: String::new(),
            pwd_new1: String::new(),
            pwd_new2: String::new(),
            perm: Permission::User,
            remembered: true,
            access_token: None,
            create_user: NewUser {
                username: String::new(),
                password: String::new(),
                perm: Permission::User,
                disabled: false
            },
            users: vec![],
            refer_user: None,
            message: vec![],
        }
    );
    assert!(!p.login());
    assert!(!p.manages());
}

#[test]
fn log_keeps_the_last_five_lines() {
    assert_eq!(MESSAGE_LIMIT, 5);
    let mut p = User::new();
    for (i, text) in ["a", "b", "c", "d", "e", "f", "g"].iter().enumerate() {
        if i % 2 == 0 {
            p.add_error(Operation::Login, text);
        } else {
            p.add_info(Operation::CreateUser, text);
        }
    }
    assert_eq!(
        lines(&p),
        vec![
            (Tone::Error, "登录: c"),
            (Tone::Info, "创建用户: d"),
            (Tone::Error, "登录: e"),
            (Tone::Info, "创建用户: f"),
            (Tone::Error, "登录: g"),
        ]
    );
    p.dismiss(1);
    p.dismiss(9);
    assert_eq!(
        lines(&p),
        vec![
            (Tone::Error, "登录: c"),
            (Tone::Error, "登录: e"),
            (Tone::Info, "创建用户: f"),
            (Tone::Error, "登录: g"),
        ]
    );
    p.add_message(Operation::Default, "x", Tone::Info);
    assert_eq!(lines(&p).len(), 5);
    assert_eq!(lines(&p)[4], (Tone::Info, "默认: x"));
}

#[test]
fn login_needs_name_and_password() {
    let mut p = User::new();
    assert_eq!(p.submit_login(), None);
    p.username = "root".to_string();
    assert_eq!(p.submit_login(), None);
    assert_eq!(
        lines(&p),
        vec![(Tone::Error, "登录: 用户名或密码不能为空"), (Tone::Error, "登录: 用户名或密码不能为空")]
    );
    p.password = "pw".to_string();
    p.perm = Permission::Admin;
    assert_eq!(
        p.submit_login(),
        Some(Request::Login {
            username: "root".to_string(),
            password: "pw".to_string(),
            perm: Permission::Admin
        })
    );
    assert_eq!(lines(&p).len(), 2);
    assert_eq!(p.submit_login().unwrap().op(), Operation::Login);
}

#[test]
fn token_signs_in_and_an_administrators_list_becomes_due() {
    let mut p = User::new();
    p.password = "pw".to_string();
    p.perm = Permission::Admin;
    let body = ResponseBody::Login { access_token: "T".to_string() };
    assert!(!p.receive(200, answer(Operation::Login, Some(body)), 1000));
    assert!(p.login());
    assert!(p.manages());
    assert_eq!(p.access_token, Some("T".to_string()));
    assert_eq!(p.password, "pw");
    assert_eq!(p.refer_user, Some(1000));
    assert_eq!(p.refresh_due(1000 + REFRESH_DELAY - 1), None);
    assert_eq!(p.refer_user, Some(1000));
    assert_eq!(p.refresh_due(999), None);
    assert_eq!(p.refresh_due(1000 + REFRESH_DELAY), Some(Request::GetUserList));
    assert_eq!(p.refer_user, None);
    assert_eq!(p.refresh_due(5000), None);
}

#[test]
fn password_is_forgotten_unless_remembered() {
    let mut p = User::new();
    p.password = "pw".to_string();
    p.remembered = false;
    let body = ResponseBody::Login { access_token: "T".to_string() };
    p.receive(200, answer(Operation::Login, Some(body)), 1000);
    assert_eq!(p.password, "");
    assert_eq!(p.refer_user, None);
    assert!(p.login());
    assert!(!p.manages());
}

#[test]
fn status_401_signs_out() {
    let mut p = User::new();
    p.access_token = Some("T".to_string());
    let body = ResponseBody::Users { users: vec![] };
    assert!(p.receive(401, answer(Operation::GetUserList, Some(body)), 5));
    assert_eq!(p.access_token, None);
    assert_eq!(lines(&p), vec![(Tone::Error, "获取用户列表: 当前用户授权已过期或无效，请重新登录")]);
}

#[test]
fn failure_is_logged() {
    let mut p = User::new();
    p.access_token = Some("T".to_string());
    let failed = Response {
        op: Operation::CreateUser,
        ignore_ok: false,
        error: Some("已存在相同用户名与权限用户".to_string()),
        data: Some(ResponseBody::Empty {}),
    };
    assert!(!p.receive(400, failed, 5));
    assert_eq!(p.access_token, Some("T".to_string()));
    assert_eq!(lines(&p), vec![(Tone::Error, "创建用户: 已存在相同用户名与权限用户")]);
}

#[test]
fn list_replaces_the_accounts_shown() {
    let mut p = User::new();
    let listed = vec![
        UserInfo { username: "a".to_string(), perm: Permission::Admin, disabled: false },
        UserInfo { username: "b".to_string(), perm: Permission::User, disabled: true },
    ];
    p.receive(200, answer(Operation::GetUserList, Some(ResponseBody::Users { users: listed.clone() })), 5);
    assert_eq!(p.users, listed);
    assert_eq!(lines(&p).len(), 0);
}

#[test]
fn empty_success_is_logged_unless_silenced() {
    let mut p = User::new();
    p.receive(200, answer(Operation::DeleteUser, Some(ResponseBody::Empty {})), 5);
    assert_eq!(lines(&p), vec![(Tone::Info, "删除用户: 操作成功")]);
    let silent = Response {
        op: Operation::DeleteUser,
        ignore_ok: true,
        error: None,
        data: Some(ResponseBody::Empty {}),
    };
    p.receive(200, silent, 5);
    p.receive(200, answer(Operation::DeleteUser, None), 5);
    assert_eq!(lines(&p).len(), 1);
}

#[test]
fn password_change_is_checked_before_it_is_asked() {
    let mut p = User::new();
    p.pwd_current = "old".to_string();
    p.pwd_new1 = "new".to_string();
    assert_eq!(p.submit_password(), None);
    p.pwd_new2 = "other".to_string();
    assert_eq!(p.submit_password(), None);
    assert_eq!(
        lines(&p),
        vec![
            (Tone::Error, "修改密码: 当前密码、修改密码、确认密码均不能为空"),
            (Tone::Error, "修改密码: 修改密码与确认密码不相同"),
        ]
    );
    assert_eq!(p.pwd_current, "old");
    p.pwd_new2 = "new".to_string();
    assert_eq!(
        p.submit_password(),
        Some(Request::ChangePassword {
            old_password: "old".to_string(),
            new_password: "new".to_string()
        })
    );
    assert_eq!((p.pwd_current.as_str(), p.pwd_new1.as_str(), p.pwd_new2.as_str()), ("", "", ""));
}

#[test]
fn new_account_needs_name_and_password() {
    let mut p = User::new();
    p.create_user.username = "bob".to_string();
    assert_eq!(p.submit_create(7), None);
    assert_eq!(p.refer_user, None);
    assert_eq!(lines(&p), vec![(Tone::Error, "创建用户: 用户名或密码不能为空")]);
    p.create_user.password = "pw".to_string();
    p.create_user.disabled = true;
    assert_eq!(
        p.submit_create(7),
        Some(Request::CreateUser {
            username: "bob".to_string(),
            password: "pw".to_string(),
            perm: Permission::User,
            disabled: true
        })
    );
    assert_eq!(p.refer_user, Some(7));
}

#[test]
fn deleting_makes_the_list_due() {
    let mut p = User::new();
    let r = p.submit_delete("bob", Permission::User, 40);
    assert_eq!(r, Request::DeleteUser { username: "bob".to_string(), perm: Permission::User });
    assert_eq!(r.op(), Operation::DeleteUser);
    assert_eq!(p.refer_user, Some(40));
    assert_eq!(p.get_user_info(false, 50), Some(Request::GetUserList));
    assert_eq!(p.refer_user, Some(40));
    assert_eq!(p.get_user_info(true, 60), None);
    assert_eq!(p.refer_user, Some(60));
}

#[test]
fn signing_out_drops_the_token() {
    let mut p = User::new();
    p.access_token = Some("T".to_string());
    p.sign_out();
    assert!(!p.login());
}
