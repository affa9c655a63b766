use api::handlers::user::main::{user_delete_reply, user_get_reply, user_patch_reply, user_post_reply};
use api::handlers::user::auth::{
    authenticated_uid, token_from_bytes, auth_get_reply, created_token_text, login_created_reply, login_step, new_token, token_or_uid_text,
    token_query, Account, AccountField, LoginStep, TokenRecord, TOKEN_LENGTH,
};
use api::handlers::user::user_structs::{is_valid_email, UserName, UserPermission, Users, UsersField};
use api::records::{RecordId, Timestamp};

fn user(email: &str, role: Option<&str>, permission: Option<UserPermission>) -> Users {
    Users {
        username: "test_user".to_string(),
        name: UserName { first: "test_first_name".to_string(), last: "test_last_name".to_string() },
        email: email.to_string(),
        password: "test_password".to_string(),
        status: true,
        role: role.map(|r| r.to_string()),
        permission,
    }
}

#[test]
fn e_mail_addresses_follow_the_pattern() {
    let re = regex::Regex::new(r"^[a-zA-Z0-9._%+-]+@[a-zA-Z0-9.-]+\.[a-zA-Z]{2,}$").unwrap();
    let cases = [
        "a@b.cd", "john.doe+tag@mail.example.org", "x@y.z", "@b.cd", "a@.cd", "a@b.c", "a@b.c1",
        "a@@b.cd", "ab.cd", "a@b.cd.", "a@b..cd", "a b@c.de", "a@b-c.DE", "ä@b.cd", "", "a@b.cd\n",
        "a@bcd", "a@b.cde@f.gh", "%@-.xy", "test_email",
    ];
    for c in cases {
        assert_eq!(is_valid_email(c), re.is_match(c), "{:?}", c);
    }
}

#[test]
fn creating_a_user_fills_in_the_defaults() {
    let mut u = user("a@b.cd", None, None);
    let created = u.create();
    assert_eq!(u.role.as_deref(), Some("user"));
    assert_eq!(u.permission, Some(UserPermission { grade: 254, read: true, write: false, update: false, delete: false }));
    assert_eq!(created.base, u);
    let again = u.clone();
    let _ = u.create();
    assert_eq!(u, again);
}

#[test]
fn creating_a_user_keeps_given_role_and_permission() {
    let p = UserPermission { grade: 1, read: true, write: true, update: true, delete: true };
    let mut u = user("a@b.cd", Some("admin"), Some(p));
    let created = u.create();
    assert_eq!(created.base.role.as_deref(), Some("admin"));
    assert_eq!(created.base.permission, Some(p));
    assert_eq!(created.base.name.first, "test_first_name");
    assert_eq!(created.base.password, "test_password");
    assert_eq!(created.base.permission.unwrap().grade, 1);
}

#[test]
fn base_copies() {
    let u = user("a@b.cd", None, None);
    assert_eq!(u.base(), u);
    let a = Account { username: "n".into(), password: "p".into() };
    assert_eq!(a.base(), a);
}

#[test]
fn tokens_are_thirty_letters_and_digits() {
    let t = new_token();
    assert_eq!(t.chars().count(), TOKEN_LENGTH);
    assert!(t.chars().all(|c| c.is_ascii_alphanumeric()));
    assert_ne!(new_token(), new_token());
}

fn record(token: &str, uid: &str) -> TokenRecord {
    TokenRecord { token: token.to_string(), out: RecordId::new("user", uid), created_at: Timestamp { secs: 0, nanos: 0 } }
}

#[test]
fn token_lookup_texts() {
    assert_eq!(token_query("out = user:1"), "SELECT * FROM token WHERE \"out = user:1\"");
    assert_eq!(token_or_uid_text(&vec![record("abc", "42")]), "{\"token\": \"abc\", \"uid\": \"42\"}");
    assert_eq!(token_or_uid_text(&vec![]), "Token Not Found");
    assert_eq!(token_or_uid_text(&vec![record("a", "1"), record("b", "2")]), "Token Not Found");
    assert_eq!(created_token_text(&vec![record("abc", "42")]), "abc");
    assert_eq!(created_token_text(&vec![]), "Error Creating Token");
}

#[test]
fn login_steps() {
    let r = auth_get_reply("Token Not Found".into());
    assert_eq!(r.status.code(), 302);
    match login_step("{\"token\": \"abc\"}".into()) {
        LoginStep::Existing(r) => {
            assert_eq!(r.status.code(), 302);
            assert_eq!(r.body, "{\"token\": \"abc\"}");
        }
        _ => panic!("expected the existing token"),
    }
    assert!(matches!(login_step("Token Not Found".into()), LoginStep::CreateToken));
    assert!(matches!(login_step(String::new()), LoginStep::Existing(_)));
    let r = login_created_reply("tok", "7");
    assert_eq!(r.status.code(), 201);
    assert_eq!(r.body, "{\"token\": \"tok\", \"uid\": \"7\"}");
}

#[test]
fn tokens_are_the_drawn_bytes() {
    assert_eq!(token_from_bytes(&b"aZ09".to_vec()), "aZ09");
    assert_eq!(token_from_bytes(&vec![]), "");
}

#[test]
fn unknown_users_have_an_empty_id() {
    assert_eq!(authenticated_uid(Some("42".into())), "42");
    assert_eq!(authenticated_uid(None), "");
}

#[test]
fn user_handler_replies() {
    let r = user_get_reply(None);
    assert_eq!((r.status.code(), r.body.as_str()), (404, "No Data Found"));
    let r = user_get_reply(Some("{}".into()));
    assert_eq!(r.status.code(), 200);
    let r = user_post_reply(vec!["{}".into()]);
    assert_eq!((r.status.code(), r.body.as_str()), (201, "{}"));
    let r = user_post_reply(vec![]);
    assert_eq!((r.status.code(), r.body.as_str()), (406, "No Data Found"));
    let r = user_patch_reply(Some("{}".into()));
    assert_eq!(r.status.code(), 200);
    let r = user_patch_reply(None);
    assert_eq!((r.status.code(), r.body.as_str()), (404, "No Data Found"));
    assert_eq!(user_delete_reply(true).body, "Data Deleted");
}
