use mysql_user_crud::error::AppError;
use mysql_user_crud::error_handler::add_error_header;
use mysql_user_crud::permission::{Permission, ALL, READ_ARTICLE, READ_WRITE_ARTICLE, WRITE_ARTICLE};
use mysql_user_crud::permission_guard::{PermissionGuard, RequestContext};
use mysql_user_crud::token::{issue, TokenClaims, TokenError, SECRET_KEY};

fn claims(permissions: Option<&str>) -> TokenClaims {
    TokenClaims {
        user_uuid: "u".to_string(),
        user_name: "n".to_string(),
        permissions: permissions.map(|p| p.to_string()),
        exp: u64::MAX,
    }
}

fn forbidden(finding: Result<bool, AppError>) -> String {
    match finding {
        Err(AppError::Forbidden(message)) => message,
        other => panic!("got {:?}", other),
    }
}

#[test]
fn guard_keeps_its_mask() {
    let guard = PermissionGuard::new(Permission::from_bits(WRITE_ARTICLE));
    assert_eq!(guard.required_permission, Permission::from_bits(2));
}

#[test]
fn write_guard_rejects_read_only_and_accepts_all() {
    let guard = PermissionGuard::new(Permission::from_bits(WRITE_ARTICLE));
    let read_only = READ_ARTICLE.to_string();
    assert_eq!(forbidden(guard.judge(Ok(claims(Some(&read_only))))), "insufficient permission");
    let all = ALL.to_string();
    assert_eq!(guard.judge(Ok(claims(Some(&all)))).unwrap(), true);
}

#[test]
fn guard_is_any_of() {
    let guard = PermissionGuard::new(Permission::from_bits(READ_WRITE_ARTICLE));
    assert!(guard.judge(Ok(claims(Some("1")))).is_ok());
    assert!(guard.judge(Ok(claims(Some("2")))).is_ok());
    assert!(guard.judge(Ok(claims(Some("+3")))).is_ok());
    assert_eq!(forbidden(guard.judge(Ok(claims(Some("4"))))), "insufficient permission");
    assert_eq!(forbidden(guard.judge(Ok(claims(Some("0"))))), "insufficient permission");
}

#[test]
fn guard_names_each_failure() {
    let guard = PermissionGuard::new(Permission::from_bits(WRITE_ARTICLE));
    assert_eq!(forbidden(guard.judge(Ok(claims(None)))), "permissions empty");
    for text in ["", "abc", "-1", "1.5", " 2", "2 ", "18446744073709551616", "0x2", "+"] {
        assert_eq!(
            forbidden(guard.judge(Ok(claims(Some(text))))),
            "malformed permission string",
            "{:?}",
            text
        );
    }
    assert_eq!(forbidden(guard.judge(Err(TokenError::Expired))), "ExpiredSignature");
    assert_eq!(forbidden(guard.judge(Err(TokenError::MalformedClaims))), "InvalidToken");
    assert_eq!(
        forbidden(guard.judge(Err(TokenError::Rejected("InvalidSignature".to_string())))),
        "InvalidSignature"
    );
}

#[test]
fn check_permission_needs_a_token() {
    let guard = PermissionGuard::new(Permission::from_bits(WRITE_ARTICLE));
    assert_eq!(forbidden(guard.check_permission(None)), "token not found");
    assert_eq!(forbidden(guard.check_permission(Some("Basic x"))), "token not found");
    assert_eq!(forbidden(guard.check_permission(Some("Bearer a.b"))), "InvalidToken");
}

#[test]
fn check_permission_reads_the_token() {
    let guard = PermissionGuard::new(Permission::from_bits(WRITE_ARTICLE));
    let writer = issue("u", "n", Some("2"), 60, SECRET_KEY).unwrap();
    assert_eq!(guard.check_permission(Some(&format!("Bearer {}", writer))).unwrap(), true);
    let reader = issue("u", "n", Some("1"), 60, SECRET_KEY).unwrap();
    assert_eq!(
        forbidden(guard.check_permission(Some(&format!("Bearer {}", reader)))),
        "insufficient permission"
    );
    let nobody = issue("u", "n", None, 60, SECRET_KEY).unwrap();
    assert_eq!(
        forbidden(guard.check_permission(Some(&format!("Bearer {}", nobody)))),
        "permissions empty"
    );
}

#[test]
fn failed_check_leaves_the_error_in_the_context() {
    let guard = PermissionGuard::new(Permission::from_bits(WRITE_ARTICLE));
    let mut ctx = RequestContext { authorization: None, error: None };
    assert!(!guard.check(&mut ctx));
    assert_eq!(ctx.authorization, None);
    match &ctx.error {
        Some(AppError::Forbidden(message)) => assert_eq!(message, "token not found"),
        other => panic!("got {:?}", other),
    }
    let reply = add_error_header(&ctx).unwrap();
    assert_eq!(reply.status, 403);
    assert_eq!(reply.message, "禁止访问: token not found");
}

#[test]
fn passed_check_leaves_the_context_alone() {
    let guard = PermissionGuard::new(Permission::from_bits(WRITE_ARTICLE));
    let token = issue("u", "n", Some("65535"), 60, SECRET_KEY).unwrap();
    let header = format!("Bearer {}", token);
    let mut ctx = RequestContext { authorization: Some(header.clone()), error: None };
    assert!(guard.check(&mut ctx));
    assert_eq!(ctx.authorization, Some(header));
    assert!(ctx.error.is_none());
    assert!(add_error_header(&ctx).is_none());
}

#[test]
fn error_stage_maps_kinds_to_statuses() {
    let cases = vec![
        (AppError::Forbidden("f".to_string()), 403, "禁止访问: f"),
        (AppError::Unauthorized("u".to_string()), 401, "权限不足: u"),
        (AppError::NotFound("n".to_string()), 404, "资源未找到: n"),
        (AppError::BadRequest("b".to_string()), 400, "缺少参数: b"),
        (AppError::DeserializeError("d".to_string()), 400, "请求体解析错误: d"),
        (AppError::Conflict("c".to_string()), 409, "数据存在: c"),
        (AppError::InternalServerError("i".to_string()), 500, "服务器错误: i"),
        (AppError::DatabaseError("x".to_string()), 500, "数据库错误: x"),
        (AppError::TokenNotFound, 401, "令牌未找到"),
        (AppError::InvalidTokenFormat, 401, "令牌格式不正确"),
        (AppError::PermissionsEmpty, 403, "权限字符串为空"),
    ];
    for (error, status, message) in cases {
        let ctx = RequestContext { authorization: None, error: Some(error) };
        let reply = add_error_header(&ctx).unwrap();
        assert_eq!(reply.status, status);
        assert_eq!(reply.message, message);
    }
}
