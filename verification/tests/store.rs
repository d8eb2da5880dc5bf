use hbba::database::model::{AddressBook, Peer, Permission, User};
use hbba::database::tables::{Fault, StoreError};
use hbba::database::DbPool;

fn peer(id: &str, tags: &[&str]) -> Peer {
    Peer {
        id: id.to_string(),
        username: Some("u".to_string()),
        hostname: None,
        platform: Some("linux".to_string()),
        alias: None,
        tags: tags.iter().map(|t| t.to_string()).collect(),
    }
}

fn names(pool: &DbPool) -> Vec<(String, Permission)> {
    pool.get_users().into_iter().map(|u| (u.username, u.perm)).collect()
}

#[test]
fn empty_tables_hold_nothing() {
    let pool = DbPool::empty();
    assert_eq!(pool.get_users(), vec![]);
    assert_eq!(pool.get_address_book("admin"), Err(StoreError::NotFound));
}

#[test]
fn new_tables_hold_the_two_starting_accounts() {
    let pool = DbPool::new(7);
    assert_eq!(
        pool.get_users(),
        vec![
            User {
                username: "admin".to_string(),
                password: "admin".to_string(),
                perm: Permission::Admin,
                disabled: false
            },
            User {
                username: "admin".to_string(),
                password: "admin".to_string(),
                perm: Permission::User,
                disabled: false
            },
        ]
    );
    assert_eq!(
        pool.get_address_book("admin"),
        Ok(AddressBook { updated_at: Some(7), tags: vec![], peers: vec![] })
    );
}

#[test]
fn create_user_account_adds_an_empty_book() {
    let mut pool = DbPool::empty();
    assert_eq!(pool.create_user("bob", "pw", Permission::User, false, 42), Ok(()));
    assert_eq!(
        pool.get_address_book("bob"),
        Ok(AddressBook { updated_at: Some(42), tags: vec![], peers: vec![] })
    );
}

#[test]
fn create_admin_account_adds_no_book() {
    let mut pool = DbPool::empty();
    assert_eq!(pool.create_user("root", "pw", Permission::Admin, false, 42), Ok(()));
    assert_eq!(pool.get_address_book("root"), Err(StoreError::NotFound));
}

#[test]
fn same_name_may_be_admin_and_user() {
    let mut pool = DbPool::empty();
    assert_eq!(pool.create_user("kim", "a", Permission::Admin, false, 1), Ok(()));
    assert_eq!(pool.create_user("kim", "b", Permission::User, true, 2), Ok(()));
    assert_eq!(
        names(&pool),
        vec![("kim".to_string(), Permission::Admin), ("kim".to_string(), Permission::User)]
    );
    assert_eq!(pool.query_user("kim", "a", Permission::Admin).map(|u| u.disabled), Ok(false));
    assert_eq!(pool.query_user("kim", "b", Permission::User).map(|u| u.disabled), Ok(true));
    assert_eq!(pool.query_user("kim", "a", Permission::User), Err(StoreError::NotFound));
}

#[test]
fn duplicate_account_is_refused_and_changes_nothing() {
    let mut pool = DbPool::empty();
    assert_eq!(pool.create_user("bob", "pw", Permission::User, false, 1), Ok(()));
    assert_eq!(
        pool.create_user("bob", "other", Permission::User, true, 2),
        Err(StoreError::Duplicate)
    );
    assert_eq!(
        pool.get_users(),
        vec![User {
            username: "bob".to_string(),
            password: "pw".to_string(),
            perm: Permission::User,
            disabled: false
        }]
    );
    assert_eq!(
        pool.get_address_book("bob"),
        Ok(AddressBook { updated_at: Some(1), tags: vec![], peers: vec![] })
    );
}

#[test]
fn create_then_delete_restores_the_tables() {
    let mut pool = DbPool::new(5);
    pool.create_user("carol", "x", Permission::Admin, false, 6).unwrap();
    let before_users = pool.get_users();
    let before_book = pool.get_address_book("admin");
    for perm in [Permission::User, Permission::Admin] {
        assert_eq!(pool.create_user("dave", "pw", perm, false, 9), Ok(()));
        assert_eq!(pool.delete_user("dave", perm), Ok(()));
        assert_eq!(pool.get_users(), before_users);
        assert_eq!(pool.get_address_book("dave"), Err(StoreError::NotFound));
        assert_eq!(pool.get_address_book("admin"), before_book);
    }
}

#[test]
fn delete_user_account_leaves_no_orphan_book() {
    let mut pool = DbPool::empty();
    pool.create_user("bob", "pw", Permission::User, false, 1).unwrap();
    pool.create_user("eve", "pw", Permission::User, false, 2).unwrap();
    assert_eq!(pool.delete_user("bob", Permission::User), Ok(()));
    assert_eq!(pool.get_address_book("bob"), Err(StoreError::NotFound));
    assert_eq!(
        pool.get_address_book("eve"),
        Ok(AddressBook { updated_at: Some(2), tags: vec![], peers: vec![] })
    );
    assert_eq!(names(&pool), vec![("eve".to_string(), Permission::User)]);
}

#[test]
fn delete_admin_account_keeps_the_book_of_the_user_of_that_name() {
    let mut pool = DbPool::empty();
    pool.create_user("kim", "a", Permission::Admin, false, 1).unwrap();
    pool.create_user("kim", "b", Permission::User, false, 2).unwrap();
    assert_eq!(pool.delete_user("kim", Permission::Admin), Ok(()));
    assert_eq!(names(&pool), vec![("kim".to_string(), Permission::User)]);
    assert_eq!(
        pool.get_address_book("kim"),
        Ok(AddressBook { updated_at: Some(2), tags: vec![], peers: vec![] })
    );
}

#[test]
fn delete_missing_account_is_not_found() {
    let mut pool = DbPool::new(1);
    assert_eq!(pool.delete_user("nobody", Permission::User), Err(StoreError::NotFound));
    assert_eq!(pool.delete_user("admin", Permission::User), Ok(()));
    assert_eq!(pool.delete_user("admin", Permission::User), Err(StoreError::NotFound));
    assert_eq!(names(&pool), vec![("admin".to_string(), Permission::Admin)]);
}

#[test]
fn authenticate_matches_all_three_fields() {
    let mut pool = DbPool::empty();
    pool.create_user("alice", "pw1", Permission::User, false, 1).unwrap();
    assert_eq!(
        pool.query_user("alice", "pw1", Permission::User),
        Ok(User {
            username: "alice".to_string(),
            password: "pw1".to_string(),
            perm: Permission::User,
            disabled: false
        })
    );
    assert_eq!(pool.query_user("alice", "pw1", Permission::Admin), Err(StoreError::NotFound));
    assert_eq!(pool.query_user("Alice", "pw1", Permission::User), Err(StoreError::NotFound));
}

#[test]
fn password_is_compared_as_stored() {
    let mut pool = DbPool::empty();
    pool.create_user("alice", " Pw1 ", Permission::User, false, 1).unwrap();
    assert_eq!(pool.query_user("alice", "Pw1", Permission::User), Err(StoreError::NotFound));
    assert_eq!(pool.query_user("alice", " pw1 ", Permission::User), Err(StoreError::NotFound));
    assert!(pool.query_user("alice", " Pw1 ", Permission::User).is_ok());
}

#[test]
fn missing_account_and_wrong_password_fail_alike() {
    let mut pool = DbPool::empty();
    pool.create_user("alice", "pw1", Permission::User, false, 1).unwrap();
    let absent = pool.query_user("zed", "pw1", Permission::User);
    let wrong = pool.query_user("alice", "nope", Permission::User);
    assert_eq!(absent, Err(StoreError::NotFound));
    assert_eq!(absent, wrong);
}

#[test]
fn password_changes_exactly_once() {
    let mut pool = DbPool::empty();
    pool.create_user("alice", "old", Permission::User, true, 1).unwrap();
    assert_eq!(pool.update_user_password("alice", "old", "new", Permission::User), Ok(()));
    assert_eq!(
        pool.update_user_password("alice", "old", "new", Permission::User),
        Err(StoreError::NotFound)
    );
    assert_eq!(pool.query_user("alice", "old", Permission::User), Err(StoreError::NotFound));
    assert_eq!(
        pool.query_user("alice", "new", Permission::User),
        Ok(User {
            username: "alice".to_string(),
            password: "new".to_string(),
            perm: Permission::User,
            disabled: true
        })
    );
}

#[test]
fn password_change_on_missing_account_is_not_found() {
    let mut pool = DbPool::empty();
    pool.create_user("alice", "old", Permission::User, false, 1).unwrap();
    assert_eq!(
        pool.update_user_password("bob", "old", "new", Permission::User),
        Err(StoreError::NotFound)
    );
    assert_eq!(
        pool.update_user_password("alice", "old", "new", Permission::Admin),
        Err(StoreError::NotFound)
    );
    assert!(pool.query_user("alice", "old", Permission::User).is_ok());
}

#[test]
fn password_change_touches_one_account_only() {
    let mut pool = DbPool::empty();
    pool.create_user("kim", "same", Permission::Admin, false, 1).unwrap();
    pool.create_user("kim", "same", Permission::User, false, 1).unwrap();
    assert_eq!(pool.update_user_password("kim", "same", "new", Permission::User), Ok(()));
    assert!(pool.query_user("kim", "same", Permission::Admin).is_ok());
    assert!(pool.query_user("kim", "new", Permission::User).is_ok());
}

#[test]
fn accounts_are_listed_in_the_order_of_creation() {
    let mut pool = DbPool::empty();
    pool.create_user("c", "1", Permission::User, false, 1).unwrap();
    pool.create_user("a", "2", Permission::Admin, false, 1).unwrap();
    pool.create_user("b", "3", Permission::User, true, 1).unwrap();
    pool.delete_user("a", Permission::Admin).unwrap();
    pool.create_user("a", "4", Permission::User, false, 1).unwrap();
    assert_eq!(
        names(&pool),
        vec![
            ("c".to_string(), Permission::User),
            ("b".to_string(), Permission::User),
            ("a".to_string(), Permission::User)
        ]
    );
}

#[test]
fn update_then_get_returns_what_was_written() {
    let mut pool = DbPool::empty();
    pool.create_user("bob", "pw", Permission::User, false, 10).unwrap();
    pool.create_user("eve", "pw", Permission::User, false, 11).unwrap();
    let tags = vec!["work".to_string(), "home".to_string()];
    let peers = vec![peer("laptop", &["work"]), peer("desk", &[]), peer("phone", &["home", "work"])];
    assert_eq!(pool.update_address_book("bob", &tags, &peers, 99), Ok(()));
    assert_eq!(
        pool.get_address_book("bob"),
        Ok(AddressBook { updated_at: Some(99), tags: tags.clone(), peers: peers.clone() })
    );
    assert_eq!(
        pool.get_address_book("eve"),
        Ok(AddressBook { updated_at: Some(11), tags: vec![], peers: vec![] })
    );
}

#[test]
fn last_writer_wins() {
    let mut pool = DbPool::empty();
    pool.create_user("bob", "pw", Permission::User, false, 10).unwrap();
    pool.update_address_book("bob", &["a".to_string()], &[peer("desk", &["a"])], 20).unwrap();
    pool.update_address_book("bob", &[], &[peer("tablet", &[])], 30).unwrap();
    assert_eq!(
        pool.get_address_book("bob"),
        Ok(AddressBook { updated_at: Some(30), tags: vec![], peers: vec![peer("tablet", &[])] })
    );
}

#[test]
fn update_of_a_missing_book_changes_nothing() {
    let mut pool = DbPool::empty();
    pool.create_user("root", "pw", Permission::Admin, false, 10).unwrap();
    assert_eq!(pool.update_address_book("root", &["a".to_string()], &[], 20), Ok(()));
    assert_eq!(pool.get_address_book("root"), Err(StoreError::NotFound));
    assert_eq!(names(&pool), vec![("root".to_string(), Permission::Admin)]);
}

#[test]
fn disable_and_enable_an_account() {
    let mut pool = DbPool::empty();
    pool.create_user("bob", "pw", Permission::User, false, 10).unwrap();
    assert_eq!(pool.update_user("bob", Permission::User, true), Ok(()));
    assert_eq!(pool.query_user("bob", "pw", Permission::User).map(|u| u.disabled), Ok(true));
    assert_eq!(pool.update_user("bob", Permission::User, false), Ok(()));
    assert_eq!(pool.query_user("bob", "pw", Permission::User).map(|u| u.disabled), Ok(false));
    assert_eq!(pool.update_user("bob", Permission::Admin, true), Err(StoreError::NotFound));
}

#[test]
fn permission_codes_and_words() {
    assert_eq!(Permission::Admin.code(), 0);
    assert_eq!(Permission::User.code(), 1);
    assert_eq!(Permission::from_code(0), Some(Permission::Admin));
    assert_eq!(Permission::from_code(1), Some(Permission::User));
    assert_eq!(Permission::from_code(2), None);
    assert_eq!(Permission::Admin.word(), "Admin");
    assert_eq!(Permission::User.word(), "User");
    assert_eq!(Permission::from_word(&"Admin".to_string()), Some(Permission::Admin));
    assert_eq!(Permission::from_word(&"User".to_string()), Some(Permission::User));
    assert_eq!(Permission::from_word(&"user".to_string()), None);
    assert_eq!(Permission::User.name(), "普通用户");
    assert_eq!(Permission::Admin.name(), "管理员");
}

#[test]
fn copies_hold_the_same_values() {
    let p = peer("desk", &["a", "b"]);
    assert_eq!(p.copy(), p);
    let book = AddressBook { updated_at: Some(3), tags: vec!["a".to_string()], peers: vec![p] };
    assert_eq!(book.copy(), book);
    assert_eq!(AddressBook::default(), AddressBook { updated_at: None, tags: vec![], peers: vec![] });
}

#[test]
fn only_a_users_account_owns_a_book() {
    assert!(Permission::User.owns_book());
    assert!(!Permission::Admin.owns_book());
}

#[test]
fn faults_of_the_storage_are_told_apart() {
    assert_eq!(StoreError::classify(Fault::RowNotFound), StoreError::NotFound);
    assert_eq!(StoreError::classify(Fault::Database(Some(1555))), StoreError::Duplicate);
    assert_eq!(StoreError::classify(Fault::Database(Some(2067))), StoreError::Duplicate);
    assert_eq!(StoreError::classify(Fault::Database(Some(5))), StoreError::Failure);
    assert_eq!(StoreError::classify(Fault::Database(Some(19))), StoreError::Failure);
    assert_eq!(StoreError::classify(Fault::Database(None)), StoreError::Failure);
    assert_eq!(StoreError::classify(Fault::Other), StoreError::Failure);
}

#[test]
fn a_change_is_judged_by_the_rows_it_reached() {
    assert_eq!(StoreError::one_row_changed(1), Ok(()));
    assert_eq!(StoreError::one_row_changed(0), Err(StoreError::NotFound));
    assert_eq!(StoreError::one_row_changed(2), Err(StoreError::Failure));
}
