use mysql_user_crud::categories::{CategoryRequest, CreateTagRequest};
use mysql_user_crud::dto::{
    has_length_within, CreateUserRequest, FieldFault, LoginRequest, RegisterResponse,
    UpdateUserRequest,
};
use mysql_user_crud::serde::{deserialize_enum, join, EnumDeserialize, Type};

fn fields(outcome: Result<(), Vec<FieldFault>>) -> Vec<(String, String)> {
    match outcome {
        Ok(()) => Vec::new(),
        Err(faults) => {
            faults.iter().map(|f| (f.field.to_string(), f.message.to_string())).collect()
        }
    }
}

#[test]
fn length_is_counted_in_characters() {
    assert!(has_length_within("abcde", 5, 100));
    assert!(!has_length_within("abcd", 5, 100));
    assert!(has_length_within("用户名称一", 5, 100));
    assert!(!has_length_within("用户名称", 5, 100));
    assert!(has_length_within(&"x".repeat(100), 5, 100));
    assert!(!has_length_within(&"x".repeat(101), 5, 100));
    assert!(has_length_within("", 0, 0));
}

#[test]
fn login_request_rules() {
    let ok = LoginRequest { user_name: "alice".to_string(), pass_word: "secret".to_string() };
    assert!(ok.validate().is_ok());
    let short = LoginRequest { user_name: "al".to_string(), pass_word: "pw".to_string() };
    assert_eq!(
        fields(short.validate()),
        vec![
            ("user_name".to_string(), "用户名长度必须在5到100之间".to_string()),
            ("pass_word".to_string(), "密码长度必须在6到100之间".to_string()),
        ]
    );
    let long = LoginRequest { user_name: "alice".to_string(), pass_word: "p".repeat(101) };
    assert_eq!(
        fields(long.validate()),
        vec![("pass_word".to_string(), "密码长度必须在6到100之间".to_string())]
    );
}

#[test]
fn register_request_rules() {
    let ok = RegisterResponse { user_name: "alice".to_string(), pass_word: "secret".to_string() };
    assert!(ok.validate().is_ok());
    let bad = RegisterResponse { user_name: "".to_string(), pass_word: "secret".to_string() };
    assert_eq!(
        fields(bad.validate()),
        vec![("user_name".to_string(), "用户名长度必须在5到100之间".to_string())]
    );
}

#[test]
fn update_request_rules() {
    let ok = UpdateUserRequest { user_name: "alice".to_string(), image: None, permissions: None };
    assert!(ok.validate().is_ok());
    let bad = UpdateUserRequest { user_name: "al".to_string(), image: None, permissions: None };
    assert_eq!(fields(bad.validate()).len(), 1);
}

#[test]
fn create_user_request_rules() {
    let mut request = CreateUserRequest::default();
    request.user_name = "alice-the-first".to_string();
    request.email = "alice@example.com".to_string();
    request.pass_word = "secret".to_string();
    assert!(request.validate().is_ok());

    request.user_name = "alice".to_string();
    request.email = "".to_string();
    request.pass_word = "pw".to_string();
    assert_eq!(
        fields(request.validate()),
        vec![
            ("user_name".to_string(), "用户名长度必须在5到100之间".to_string()),
            ("email".to_string(), "电子邮件是必需的".to_string()),
            ("email".to_string(), "电子邮件无效".to_string()),
            ("pass_word".to_string(), "密码长度必须在6到100之间".to_string()),
        ]
    );

    request.user_name = "alice-the-first".to_string();
    request.pass_word = "secret".to_string();
    for email in ["alice", "alice@", "@example.com", "a b@example.com", "alice@exa mple.com"] {
        request.email = email.to_string();
        assert_eq!(
            fields(request.validate()),
            vec![("email".to_string(), "电子邮件无效".to_string())],
            "{:?}",
            email
        );
    }
    for email in ["a@b.io", "first.last+tag@sub.example.org"] {
        request.email = email.to_string();
        assert!(request.validate().is_ok(), "{:?}", email);
    }
}

#[test]
fn type_is_read_from_its_name() {
    assert_eq!(Type::from_str("Article"), Ok(Type::Article));
    assert_eq!(Type::from_str("Library"), Ok(Type::Library));
    assert_eq!(Type::from_str("article"), Err(()));
    assert_eq!(Type::from_str(""), Err(()));
    assert_eq!(Type::valid_values(), vec!["Article", "Library"]);
}

#[test]
fn deserialize_enum_lists_the_names() {
    assert_eq!(deserialize_enum::<Type>("Article"), Ok(Type::Article));
    assert_eq!(deserialize_enum::<Type>("Library"), Ok(Type::Library));
    assert_eq!(
        deserialize_enum::<Type>("Book"),
        Err("Book 不在Article或Library 范围里面".to_string())
    );
    assert_eq!(deserialize_enum::<Type>(""), Err(" 不在Article或Library 范围里面".to_string()));
}

#[test]
fn join_puts_the_separator_between() {
    assert_eq!(join(&vec![], "或"), "");
    assert_eq!(join(&vec!["a"], "或"), "a");
    assert_eq!(join(&vec!["a", "b", "c"], ", "), "a, b, c");
    assert_eq!(join(&vec!["", ""], "-"), "-");
}

#[test]
fn category_and_tag_requests() {
    let c = CategoryRequest::from_parts("news".to_string(), "Article").unwrap();
    assert_eq!(c.name, "news");
    assert_eq!(c.kind, Type::Article);
    let t = CreateTagRequest::from_parts("rust".to_string(), "Library").unwrap();
    assert_eq!(t.name, "rust");
    assert_eq!(t.kind, Type::Library);
    assert_eq!(
        CategoryRequest::from_parts("x".to_string(), "Other").unwrap_err(),
        "Other 不在Article或Library 范围里面"
    );
    assert!(CreateTagRequest::from_parts("x".to_string(), "").is_err());
}
