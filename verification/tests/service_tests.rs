use mysql_user_crud::dto::{LoginRequest, RegisterResponse};
use mysql_user_crud::error::AppError;
use mysql_user_crud::json::{Json, JsonNumber};
use mysql_user_crud::permission::ALL;
use mysql_user_crud::services::auth::{
    accept_password, build_login_response, check_registration, default_permissions,
    describe_faults, find_user, generate_jwt, get_permissions, get_permissions_by_id, login,
    new_user, register, TOKEN_TTL,
};
use mysql_user_crud::services::user::{
    deleted, existing_user, name_changes, name_is_free, paginate, user_updated_event,
};
use mysql_user_crud::token::{verify, SECRET_KEY};
use mysql_user_crud::user::Model;

fn model(pass_word_hash: &str) -> Model {
    Model {
        id: 7,
        uuid: "0b5f3c3e-7f0a-4a57-9d3c-2f8a5e1b9c10".to_string(),
        user_name: "alice".to_string(),
        pass_word: pass_word_hash.to_string(),
        email: Some("alice@example.com".to_string()),
        phone: None,
        role: Some("admin".to_string()),
        permissions: Some("3".to_string()),
        image: None,
        binding: None,
        created_at: "2024-01-01 00:00:00 UTC".to_string(),
        updated_at: "2024-01-02 00:00:00 UTC".to_string(),
    }
}

fn request(name: &str, pass_word: &str) -> LoginRequest {
    LoginRequest { user_name: name.to_string(), pass_word: pass_word.to_string() }
}

fn low_cost_hash(pass_word: &str) -> String {
    bcrypt::hash(pass_word, 4).unwrap()
}

#[test]
fn login_with_the_right_password_issues_a_token() {
    let found = Ok(Some(model(&low_cost_hash("secret1"))));
    let data = login(&request("alice", "secret1"), found).unwrap();
    assert_eq!(data.expires_in, 3600);
    assert_eq!(data.user.id, 7);
    assert_eq!(data.user.user_name, "alice");
    assert_eq!(data.user.role, Some("admin".to_string()));
    assert_eq!(data.user.permissions, Some("3".to_string()));
    let claims = verify(&data.access_token, SECRET_KEY).unwrap();
    assert_eq!(claims.user_uuid, "0b5f3c3e-7f0a-4a57-9d3c-2f8a5e1b9c10");
    assert_eq!(claims.user_name, "alice");
    assert_eq!(claims.permissions, Some("3".to_string()));
}

#[test]
fn login_with_the_wrong_password_is_unauthorized() {
    let found = Ok(Some(model(&low_cost_hash("secret1"))));
    match login(&request("alice", "secret2"), found) {
        Err(AppError::Unauthorized(m)) => assert_eq!(m, "用户名或密码错误"),
        other => panic!("got {:?}", other),
    }
    let found = Ok(Some(model("not a hash")));
    assert!(matches!(login(&request("alice", "secret1"), found), Err(AppError::Unauthorized(_))));
}

#[test]
fn login_of_an_unknown_name_is_not_found() {
    match login(&request("nobody", "secret1"), Ok(None)) {
        Err(AppError::NotFound(m)) => assert_eq!(m, "用户名 'nobody' 不存在"),
        other => panic!("got {:?}", other),
    }
}

#[test]
fn login_when_the_directory_fails_is_a_server_error() {
    match login(&request("alice", "secret1"), Err("timeout".to_string())) {
        Err(AppError::InternalServerError(m)) => assert_eq!(m, "检查用户名时发生错误: timeout"),
        other => panic!("got {:?}", other),
    }
}

#[test]
fn login_request_that_breaks_a_rule_is_turned_away_first() {
    match find_user(&request("al", "pw"), Ok(None)) {
        Err(AppError::DeserializeError(m)) => assert_eq!(
            m,
            "user_name: 用户名长度必须在5到100之间\npass_word: 密码长度必须在6到100之间"
        ),
        other => panic!("got {:?}", other),
    }
}

#[test]
fn faults_of_one_field_share_a_line() {
    let faults = vec![
        mysql_user_crud::dto::FieldFault { field: "a", message: "m1" },
        mysql_user_crud::dto::FieldFault { field: "b", message: "m2" },
        mysql_user_crud::dto::FieldFault { field: "b", message: "m3" },
        mysql_user_crud::dto::FieldFault { field: "c", message: "m4" },
    ];
    assert_eq!(describe_faults(&faults), "a: m1\nb: m2, m3\nc: m4");
    assert_eq!(describe_faults(&vec![]), "");
}

#[test]
fn only_a_match_is_accepted() {
    assert!(accept_password(Some(true)).is_ok());
    assert!(matches!(accept_password(Some(false)), Err(AppError::Unauthorized(_))));
    assert!(matches!(accept_password(None), Err(AppError::Unauthorized(_))));
}

#[test]
fn token_of_a_user_states_the_user() {
    let token = generate_jwt(&model("h"), "key", 60).unwrap();
    let claims = verify(&token, "key").unwrap();
    assert_eq!(claims.user_name, "alice");
    assert_eq!(TOKEN_TTL, 3600);
    let data = build_login_response(model("h"), "tok".to_string());
    assert_eq!(data.access_token, "tok");
    assert_eq!(data.user.email, Some("alice@example.com".to_string()));
    assert_eq!(data.user.created_at, "2024-01-01 00:00:00 UTC");
}

#[test]
fn registration_is_checked() {
    let ok = RegisterResponse { user_name: "alice".to_string(), pass_word: "secret".to_string() };
    assert!(check_registration(&ok, Ok(0)).is_ok());
    match check_registration(&ok, Ok(1)) {
        Err(AppError::Conflict(m)) => assert_eq!(m, "用户名已存在"),
        other => panic!("got {:?}", other),
    }
    match check_registration(&ok, Err("down".to_string())) {
        Err(AppError::InternalServerError(m)) => assert_eq!(m, "服务器内部错误"),
        other => panic!("got {:?}", other),
    }
    let bad = RegisterResponse { user_name: "al".to_string(), pass_word: "secret".to_string() };
    match check_registration(&bad, Ok(5)) {
        Err(AppError::DeserializeError(m)) => {
            assert_eq!(m, "user_name: 用户名长度必须在5到100之间")
        }
        other => panic!("got {:?}", other),
    }
}

#[test]
fn new_user_holds_every_permission() {
    let request =
        RegisterResponse { user_name: "alice".to_string(), pass_word: "secret".to_string() };
    let user =
        new_user(&request, "id-1".to_string(), Some("hash".to_string()), "now".to_string())
            .unwrap();
    assert_eq!(user.uuid, "id-1");
    assert_eq!(user.user_name, "alice");
    assert_eq!(user.pass_word, "hash");
    assert_eq!(user.permissions, Some("18446744073709551615".to_string()));
    assert_eq!(user.permissions, Some(ALL.to_string()));
    assert_eq!(user.created_at, "now");
    assert_eq!(user.updated_at, "now");
    match new_user(&request, "id-1".to_string(), None, "now".to_string()) {
        Err(AppError::InternalServerError(m)) => assert_eq!(m, "密码加密失败"),
        other => panic!("got {:?}", other),
    }
}

#[test]
fn register_hashes_the_password() {
    let request =
        RegisterResponse { user_name: "alice".to_string(), pass_word: "secret".to_string() };
    let user = register(&request, Ok(0)).unwrap();
    assert_ne!(user.pass_word, "secret");
    assert!(bcrypt::verify("secret", &user.pass_word).unwrap());
    assert!(!bcrypt::verify("other", &user.pass_word).unwrap());
    assert_eq!(user.uuid.len(), 36);
    assert_eq!(user.created_at, user.updated_at);
    assert!(matches!(register(&request, Ok(3)), Err(AppError::Conflict(_))));
}

#[test]
fn permissions_of_a_mask() {
    assert_eq!(default_permissions(), "0");
    assert_eq!(get_permissions_by_id("0").unwrap(), Vec::<String>::new());
    assert_eq!(get_permissions_by_id("3").unwrap(), vec!["READ_ARTICLE", "WRITE_ARTICLE"]);
    assert_eq!(get_permissions_by_id("18446744073709551615").unwrap().len(), 16);
    match get_permissions_by_id("three") {
        Err(AppError::BadRequest(m)) => assert_eq!(m, "权限ID格式错误"),
        other => panic!("got {:?}", other),
    }
}

#[test]
fn listed_permissions_are_the_single_ones() {
    let list = get_permissions();
    assert_eq!(list.len(), 16);
    assert_eq!(list[0].name, "READ_ARTICLE");
    assert_eq!(list[0].description, "读取文章权限");
    assert_eq!(list[15].name, "WRITE_MESSAGE");
    assert_eq!(list[15].description, "写入消息权限");
    assert!(list.iter().all(|p| !p.name.starts_with("READ_WRITE") && p.name != "ALL"));
}

#[test]
fn a_page_of_rows() {
    let rows = vec![Json::Object(vec![
        ("id".to_string(), Json::Number(JsonNumber::Unsigned(1))),
        ("pass_word".to_string(), Json::Text("h".to_string())),
    ])];
    let window = mysql_user_crud::common::page_window(Some(2), Some(1));
    let page = paginate(&rows, &vec!["pass_word".to_string()], 3, window);
    assert_eq!(page.data.len(), 1);
    assert!(page.data[0].get("pass_word").is_none());
    assert!(page.data[0].get("id").is_some());
    assert_eq!(page.pagination.total, 3);
    assert_eq!(page.pagination.total_pages, 3);
    assert_eq!(page.pagination.current_page, 2);
    assert_eq!(page.pagination.limit, 1);
    assert!(page.pagination.has_next);
    assert!(page.pagination.has_previous);
}

#[test]
fn user_to_work_on() {
    assert_eq!(existing_user(Ok(Some(model("h"))), 7).unwrap().id, 7);
    match existing_user(Ok(None), -12) {
        Err(AppError::NotFound(m)) => assert_eq!(m, "ID为-12的用户不存在"),
        other => panic!("got {:?}", other),
    }
    match existing_user(Err("down".to_string()), 7) {
        Err(AppError::InternalServerError(m)) => assert_eq!(m, "获取用户信息失败"),
        other => panic!("got {:?}", other),
    }
}

#[test]
fn renaming_a_user() {
    assert!(!name_changes(&model("h"), "alice"));
    assert!(name_changes(&model("h"), "Alice"));
    assert!(name_is_free("bob", Ok(0)).is_ok());
    match name_is_free("bob", Ok(2)) {
        Err(AppError::Conflict(m)) => assert_eq!(m, "用户名'bob'已存在"),
        other => panic!("got {:?}", other),
    }
    match name_is_free("bob", Err("down".to_string())) {
        Err(AppError::InternalServerError(m)) => assert_eq!(m, "用户名检查失败: down"),
        other => panic!("got {:?}", other),
    }
}

#[test]
fn deleting_a_user() {
    assert_eq!(deleted(Ok(1), 42).unwrap(), "用户 42 已删除");
    match deleted(Ok(0), 42) {
        Err(AppError::NotFound(m)) => assert_eq!(m, "ID为42的用户不存在"),
        other => panic!("got {:?}", other),
    }
    match deleted(Err("down".to_string()), 42) {
        Err(AppError::InternalServerError(m)) => assert_eq!(m, "删除用户失败"),
        other => panic!("got {:?}", other),
    }
}

#[test]
fn update_event_names_what_changed() {
    let permissions = Some(vec!["READ_ARTICLE".to_string(), "WRITE_ARTICLE".to_string()]);
    let event = user_updated_event(7, "alice", &permissions);
    assert!(matches!(event.get("event"), Some(Json::Text(kind)) if kind == "user_updated"));
    let data = event.get("data").unwrap();
    assert!(matches!(data.get("user_id"), Some(Json::Number(JsonNumber::Unsigned(7)))));
    let updated = data.get("updated_fields").unwrap();
    assert!(matches!(updated.get("username"), Some(Json::Text(name)) if name == "alice"));
    match updated.get("permissions") {
        Some(Json::Array(items)) => {
            assert_eq!(items.len(), 2);
            assert!(matches!(&items[1], Json::Text(p) if p == "WRITE_ARTICLE"));
        }
        other => panic!("got {:?}", other),
    }
}

#[test]
fn update_event_without_permissions() {
    let event = user_updated_event(-3, "bob", &None);
    let data = event.get("data").unwrap();
    assert!(matches!(data.get("user_id"), Some(Json::Number(JsonNumber::Signed(-3)))));
    let updated = data.get("updated_fields").unwrap();
    assert!(matches!(updated.get("permissions"), Some(Json::Null)));
    assert!(matches!(updated.get("username"), Some(Json::Text(name)) if name == "bob"));
    assert!(matches!(event.get("event"), Some(Json::Text(kind)) if kind == "user_updated"));
}
