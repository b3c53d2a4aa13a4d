use mysql_user_crud::common_guard::{ParamGuard, ParamGuardBuilder};
use mysql_user_crud::error::AppError;
use mysql_user_crud::permission_guard::RequestContext;

type Check = fn(&str, &str) -> bool;

fn is_number(_name: &str, value: &str) -> bool {
    !value.is_empty() && value.chars().all(|c| c.is_ascii_digit())
}

fn anything(_name: &str, _value: &str) -> bool {
    true
}

fn nothing(_name: &str, _value: &str) -> bool {
    false
}

fn context() -> RequestContext {
    RequestContext { authorization: Some("Bearer t".to_string()), error: None }
}

fn guard() -> ParamGuard<Check> {
    ParamGuard::<Check>::builder()
        .validate("page", is_number as Check)
        .validate_or_default("limit", is_number as Check, "10".to_string())
        .build()
}

#[test]
fn declared_parameters_that_pass() {
    let mut ctx = context();
    assert!(guard().check("page=2&limit=10", &mut ctx));
    assert!(ctx.error.is_none());
    assert!(guard().check("limit=&page=2", &mut ctx));
    assert!(guard().check("page=1&page=2&limit=5", &mut ctx));
    assert_eq!(ctx.authorization, Some("Bearer t".to_string()));
}

#[test]
fn undeclared_parameter_is_forbidden_by_name() {
    let mut ctx = context();
    assert!(!guard().check("page=2&limit=10&sort=asc&order=x", &mut ctx));
    match &ctx.error {
        Some(AppError::Forbidden(m)) => assert_eq!(m, "未声明参数: sort"),
        other => panic!("got {:?}", other),
    }
    let mut ctx = context();
    assert!(!guard().check("%E5%90%8D=1", &mut ctx));
    match &ctx.error {
        Some(AppError::Forbidden(m)) => assert_eq!(m, "未声明参数: 名"),
        other => panic!("got {:?}", other),
    }
}

#[test]
fn missing_parameter_fails_without_a_word() {
    let mut ctx = context();
    assert!(!guard().check("page=2", &mut ctx));
    assert!(ctx.error.is_none());
    assert!(!guard().check("", &mut ctx));
    assert!(ctx.error.is_none());
}

#[test]
fn failed_check_fails_without_a_word() {
    let mut ctx = context();
    assert!(!guard().check("page=two&limit=10", &mut ctx));
    assert!(ctx.error.is_none());
    assert!(!guard().check("page=&limit=10", &mut ctx));
    assert!(!guard().check("page=2&limit=ten", &mut ctx));
    assert!(!guard().check("page=2&page=x&limit=1", &mut ctx));
    assert!(ctx.error.is_none());
}

#[test]
fn later_rule_replaces_the_earlier_one_of_its_name() {
    let guard = ParamGuardBuilder::<Check>::new()
        .validate("q", nothing as Check)
        .validate("p", anything as Check)
        .validate("q", anything as Check)
        .build();
    assert_eq!(guard.rules.len(), 2);
    let mut ctx = context();
    assert!(guard.check("q=1&p=2", &mut ctx));
}

#[test]
fn guard_without_rules_takes_only_the_empty_query() {
    let guard = ParamGuard::<Check>::builder().build();
    let mut ctx = context();
    assert!(guard.check("", &mut ctx));
    assert!(!guard.check("a=1", &mut ctx));
    assert!(matches!(ctx.error, Some(AppError::Forbidden(_))));
}

#[test]
fn parsed_pairs_are_judged_alike() {
    let pairs = vec![("page".to_string(), "3".to_string()), ("limit".to_string(), "".to_string())];
    let mut ctx = context();
    assert!(guard().check_pairs(&pairs, &mut ctx));
    let pairs = vec![("page".to_string(), "3".to_string())];
    assert!(!guard().check_pairs(&pairs, &mut ctx));
}
