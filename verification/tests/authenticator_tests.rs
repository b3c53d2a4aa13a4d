use base64::Engine;
use mysql_user_crud::authenticator::{
    bind_secret, binding_subject, generate_2fa_secret, otp_uri, qr_png, setup_for,
    two_factor_setup, verify_2fa, Verify2FARequest, SECRET_LENGTH,
};
use mysql_user_crud::error::AppError;
use mysql_user_crud::token::{issue, TokenClaims, TokenError, SECRET_KEY};
use mysql_user_crud::user::Model;

fn claims() -> TokenClaims {
    TokenClaims {
        user_uuid: "uuid-1".to_string(),
        user_name: "alice".to_string(),
        permissions: None,
        exp: u64::MAX,
    }
}

#[test]
fn test_generate_2fa_secret() {
    let setup = generate_2fa_secret().unwrap();

    let secret = setup.secret.as_str();
    assert_eq!(secret.len(), 32);

    let otp_uri = setup.qr_code.as_str();
    assert!(otp_uri.starts_with("data:image/png;base64,"));

    let base64_data = otp_uri.split(",").nth(1).unwrap();
    let png_bytes = base64::engine::general_purpose::STANDARD.decode(base64_data).unwrap();
    let img = image::load_from_memory(&png_bytes).unwrap();
    // The side depends on the secret that was drawn: 8 pixels for each module of the code and
    // of its margin of 4 on either side; a code has 21 modules or 4, 8, 12, ... more.
    assert_eq!(img.width(), img.height());
    assert_eq!(img.width() % 8, 0);
    let modules = img.width() / 8 - 8;
    assert!(modules >= 21 && (modules - 21) % 4 == 0);
}

#[test]
fn picture_of_a_given_secret() {
    let setup = setup_for("I3VFM3JKMNDJCDH5BMBEEQAW6KJ6NOE3".to_string()).unwrap();
    assert_eq!(setup.secret, "I3VFM3JKMNDJCDH5BMBEEQAW6KJ6NOE3");
    let base64_data = setup.qr_code.strip_prefix("data:image/png;base64,").unwrap();
    let png_bytes = base64::engine::general_purpose::STANDARD.decode(base64_data).unwrap();
    let img = image::load_from_memory(&png_bytes).unwrap();
    assert_eq!(img.width(), 360);
    assert_eq!(img.height(), 360);
    let again = setup_for("I3VFM3JKMNDJCDH5BMBEEQAW6KJ6NOE3".to_string()).unwrap();
    assert_eq!(again.qr_code, setup.qr_code);
}

#[test]
fn picture_is_written_as_png() {
    let png = qr_png("otpauth://totp/MyApp:UserAccount?secret=AAAA&issuer=MyApp").unwrap();
    assert_eq!(&png[..8], b"\x89PNG\r\n\x1a\n");
    assert!(qr_png(&"x".repeat(8000)).is_err());
}

#[test]
fn secret_is_drawn_from_the_base_32_alphabet() {
    let setup = generate_2fa_secret().unwrap();
    assert_eq!(SECRET_LENGTH, 32);
    assert!(setup.secret.chars().all(|c| "ABCDEFGHIJKLMNOPQRSTUVWXYZ234567".contains(c)));
}

#[test]
fn two_secrets_differ() {
    let a = generate_2fa_secret().unwrap();
    let b = generate_2fa_secret().unwrap();
    assert_ne!(a.secret, b.secret);
    assert_ne!(a.qr_code, b.qr_code);
}

#[test]
fn address_of_a_secret() {
    assert_eq!(
        otp_uri("I3VFM3JKMNDJCDH5BMBEEQAW6KJ6NOE3"),
        "otpauth://totp/MyApp:UserAccount?secret=I3VFM3JKMNDJCDH5BMBEEQAW6KJ6NOE3&issuer=MyApp"
    );
    assert_eq!(otp_uri(""), "otpauth://totp/MyApp:UserAccount?secret=&issuer=MyApp");
}

#[test]
fn setup_from_a_picture() {
    let setup = two_factor_setup("S".to_string(), Ok(vec![1, 2, 3])).unwrap();
    assert_eq!(setup.secret, "S");
    assert_eq!(setup.qr_code, "data:image/png;base64,AQID");
    let setup = two_factor_setup("S".to_string(), Ok(vec![])).unwrap();
    assert_eq!(setup.qr_code, "data:image/png;base64,");
    match two_factor_setup("S".to_string(), Err("too long".to_string())) {
        Err(AppError::InternalServerError(m)) => assert_eq!(m, "too long"),
        other => panic!("got {:?}", other),
    }
}

#[test]
fn who_asks_to_bind() {
    assert_eq!(binding_subject(true, Some(Ok(claims()))).unwrap(), "uuid-1");
    match binding_subject(false, Some(Ok(claims()))) {
        Err(AppError::BadRequest(m)) => assert_eq!(m, "无效的验证码"),
        other => panic!("got {:?}", other),
    }
    match binding_subject(true, None) {
        Err(AppError::Unauthorized(m)) => assert_eq!(m, "请求未包含认证Token"),
        other => panic!("got {:?}", other),
    }
    match binding_subject(true, Some(Err(TokenError::Expired))) {
        Err(AppError::Unauthorized(m)) => assert_eq!(m, "ExpiredSignature"),
        other => panic!("got {:?}", other),
    }
}

#[test]
fn binding_checks_the_code_against_the_clock() {
    let secret = "I3VFM3JKMNDJCDH5BMBEEQAW6KJ6NOE3";
    let token = issue("uuid-1", "alice", None, 60, SECRET_KEY).unwrap();
    let header = format!("Bearer {}", token);

    let stale = Verify2FARequest { secret: secret.to_string(), code: "12345".to_string() };
    assert!(matches!(verify_2fa(&stale, Some(&header)), Err(AppError::BadRequest(_))));

    let code = google_authenticator::GoogleAuthenticator::new().get_code(secret, 0).unwrap();
    let current = Verify2FARequest { secret: secret.to_string(), code };
    assert_eq!(verify_2fa(&current, Some(&header)).unwrap(), "uuid-1");
    assert!(matches!(verify_2fa(&current, None), Err(AppError::Unauthorized(_))));
}

#[test]
fn secret_is_bound_to_the_user() {
    let user = Model {
        id: 1,
        uuid: "uuid-1".to_string(),
        user_name: "alice".to_string(),
        pass_word: "h".to_string(),
        email: None,
        phone: None,
        role: None,
        permissions: None,
        image: None,
        binding: None,
        created_at: "t".to_string(),
        updated_at: "t".to_string(),
    };
    let bound = bind_secret(Some(user), "S".to_string()).unwrap();
    assert_eq!(bound.binding, Some("S".to_string()));
    assert_eq!(bound.user_name, "alice");
    match bind_secret(None, "S".to_string()) {
        Err(AppError::NotFound(m)) => assert_eq!(m, "用户不存在"),
        other => panic!("got {:?}", other),
    }
}
