use mysql_user_crud::data_processing::{deep_filter_data, filter_value, is_excluded};
use mysql_user_crud::json::{Json, JsonNumber};

fn text(s: &str) -> Json {
    Json::Text(s.to_string())
}

fn object(fields: Vec<(&str, Json)>) -> Json {
    Json::Object(fields.into_iter().map(|(k, v)| (k.to_string(), v)).collect())
}

fn show(json: &Json) -> String {
    format!("{:?}", json)
}

#[test]
fn get_finds_the_first_member_of_that_name() {
    let json = object(vec![("a", text("1")), ("b", Json::Null), ("a", text("2"))]);
    assert_eq!(show(json.get("a").unwrap()), show(&text("1")));
    assert_eq!(show(json.get("b").unwrap()), show(&Json::Null));
    assert!(json.get("c").is_none());
    assert!(json.get("").is_none());
    assert!(Json::Array(vec![text("a")]).get("a").is_none());
    assert!(text("a").get("a").is_none());
}

#[test]
fn duplicate_is_the_same_value() {
    let json = object(vec![
        ("n", Json::Number(JsonNumber::Signed(-3))),
        ("r", Json::Number(JsonNumber::Real("1.5".to_string()))),
        ("list", Json::Array(vec![Json::Bool(true), object(vec![("x", Json::Null)])])),
    ]);
    assert_eq!(show(&json.duplicate()), show(&json));
}

#[test]
fn filter_takes_members_off_an_object() {
    let user = object(vec![
        ("id", Json::Number(JsonNumber::Unsigned(7))),
        ("user_name", text("alice")),
        ("pass_word", text("hash")),
    ]);
    let exclude = vec!["pass_word".to_string()];
    let kept = filter_value(&user, &exclude);
    let expected =
        object(vec![("id", Json::Number(JsonNumber::Unsigned(7))), ("user_name", text("alice"))]);
    assert_eq!(show(&kept), show(&expected));
}

#[test]
fn filter_does_not_reach_into_members() {
    let nested = object(vec![("inner", object(vec![("pass_word", text("hash"))]))]);
    let exclude = vec!["pass_word".to_string()];
    assert_eq!(show(&filter_value(&nested, &exclude)), show(&nested));
}

#[test]
fn filter_treats_each_item_of_an_array() {
    let list = Json::Array(vec![
        object(vec![("id", text("1")), ("size", text("big"))]),
        Json::Array(vec![object(vec![("size", text("x")), ("k", Json::Null)])]),
        text("size"),
    ]);
    let exclude = vec!["size".to_string(), "id".to_string()];
    let expected = Json::Array(vec![
        object(vec![]),
        Json::Array(vec![object(vec![("k", Json::Null)])]),
        text("size"),
    ]);
    assert_eq!(show(&filter_value(&list, &exclude)), show(&expected));
}

#[test]
fn filter_leaves_scalars_alone() {
    let exclude = vec!["a".to_string()];
    for json in [Json::Null, Json::Bool(false), text("a"), Json::Number(JsonNumber::Unsigned(1))] {
        assert_eq!(show(&filter_value(&json, &exclude)), show(&json));
    }
}

#[test]
fn deep_filter_treats_every_row() {
    let rows = vec![
        object(vec![("id", text("1")), ("name", text("a"))]),
        object(vec![("name", text("b")), ("id", text("2"))]),
    ];
    let kept = deep_filter_data(&rows, &vec!["id".to_string()]);
    assert_eq!(kept.len(), 2);
    assert_eq!(show(&kept[0]), show(&object(vec![("name", text("a"))])));
    assert_eq!(show(&kept[1]), show(&object(vec![("name", text("b"))])));
    assert!(deep_filter_data(&vec![], &vec![]).is_empty());
}

#[test]
fn excluded_names_are_matched_exactly() {
    let exclude = vec!["id".to_string(), "pass_word".to_string()];
    assert!(is_excluded(&exclude, "id"));
    assert!(is_excluded(&exclude, "pass_word"));
    assert!(!is_excluded(&exclude, "Id"));
    assert!(!is_excluded(&exclude, ""));
    assert!(!is_excluded(&vec![], "id"));
}
