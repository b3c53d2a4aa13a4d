//! The second factor: binding an authenticator to a user, and the secret
//! with its picture that the user scans.

use crate::error::{AppError, ErrorView};
use crate::token::{
    bearer_token, checked_at, decoded_payload, error_text, extract_token, has_permission,
    issue_view, str_view, verdict_view, ClaimsView, TokenClaims, TokenError, TokenErrorView,
    SECRET_KEY,
};
use crate::user::Model;
use vstd::prelude::*;
use vstd::string::StringExecFns;

verus! {

/// How many characters a new secret has.
pub const SECRET_LENGTH: u8 = 32;

/// The body of a request to bind an authenticator.
#[derive(Debug)]
pub struct Verify2FARequest {
    pub secret: String,
    pub code: String,
}

/// The secret of an authenticator and the picture to scan, as a data URL.
#[derive(Debug)]
pub struct TwoFactorSetup {
    pub secret: String,
    pub qr_code: String,
}

/// Calls `create_secret` on `GoogleAuthenticator::new()`: as many
/// characters as asked for, each drawn at random from the base-32 alphabet.
/// The contract states the length and nothing else.
#[verifier::external_body]
fn create_secret(length: u8) -> (secret: String)
    ensures
        secret@.len() == length,
{
    google_authenticator::GoogleAuthenticator::new().create_secret(length)
}

/// How many time slices before and after the present one a code may stem
/// from.
pub const DISCREPANCY: u64 = 1;

/// The time slice that stands for the present time.
pub const PRESENT: u64 = 0;

/// Calls `verify_code` on `GoogleAuthenticator::new()`. The function adds
/// one to the discrepancy, so the greatest number is left out; with the
/// time slice zero it reads the clock, which it expects not to stand before
/// the Unix epoch. Nothing is claimed of the answer.
#[verifier::external_body]
fn code_is_current(secret: &str, code: &str, discrepancy: u64, time_slice: u64) -> bool
    requires
        discrepancy < u64::MAX,
{
    google_authenticator::GoogleAuthenticator::new().verify_code(
        secret,
        code,
        discrepancy,
        time_slice,
    )
}

/// The picture of a QR code before it is written in a format: its width and
/// its height in pixels and the grey value of each pixel, row by row.
#[derive(Debug)]
pub struct Pixels {
    pub width: u32,
    pub height: u32,
    pub grey: Vec<u8>,
}

/// The picture that `qrcode` draws of the QR code of `text`, as its width,
/// its height and its grey values, or the text of the failure to build the
/// code.
pub uninterp spec fn qr_pixels(text: Seq<char>) -> Result<(u32, u32, Seq<u8>), Seq<char>>;

/// The PNG file that `image` writes for a grey picture of this width and
/// height with these values, or the text of the failure.
pub uninterp spec fn png_file(width: u32, height: u32, grey: Seq<u8>) -> Result<
    Seq<u8>,
    Seq<char>,
>;

/// A picture or a failure, by their views.
pub open spec fn pixels_view(drawn: Result<Pixels, String>) -> Result<
    (u32, u32, Seq<u8>),
    Seq<char>,
> {
    match drawn {
        Ok(p) => Ok((p.width, p.height, p.grey@)),
        Err(failure) => Err(failure@),
    }
}

/// Bytes or a failure, by their views.
pub open spec fn bytes_view(written: Result<Vec<u8>, String>) -> Result<Seq<u8>, Seq<char>> {
    match written {
        Ok(bytes) => Ok(bytes@),
        Err(failure) => Err(failure@),
    }
}

/// Calls `qrcode::QrCode::new` on the bytes of `text` and hands out the
/// picture that the code's own renderer draws of it in `image::Luma<u8>`
/// with its default settings, as plain values. The contract gives the
/// result a name and claims nothing else of it.
#[verifier::external_body]
fn draw_qr(text: &str) -> (drawn: Result<Pixels, String>)
    ensures
        pixels_view(drawn) == qr_pixels(text@),
{
    let code = qrcode::QrCode::new(text.as_bytes()).map_err(|e| e.to_string())?;
    let picture = code.render::<image::Luma<u8>>().build();
    Ok(Pixels { width: picture.width(), height: picture.height(), grey: picture.into_raw() })
}

/// Calls `image::ImageBuffer::write_to` for PNG on the grey picture that
/// `ImageBuffer::from_raw` makes of the plain values; where `from_raw`
/// takes the values for too few, the failure has an empty text. The
/// contract gives the result a name and claims nothing else of it.
#[verifier::external_body]
fn write_png(pixels: &Pixels) -> (written: Result<Vec<u8>, String>)
    ensures
        bytes_view(written) == png_file(pixels.width, pixels.height, pixels.grey@),
{
    let grey = pixels.grey.clone();
    let picture = image::GrayImage::from_raw(pixels.width, pixels.height, grey);
    let picture = picture.ok_or_else(String::new)?;
    let mut bytes = Vec::new();
    match picture.write_to(&mut std::io::Cursor::new(&mut bytes), image::ImageFormat::Png) {
        Ok(()) => Ok(bytes),
        Err(e) => Err(e.to_string()),
    }
}

/// The PNG picture of the QR code of `text`, or the text of the failure to
/// draw or to write it.
pub open spec fn qr_picture(text: Seq<char>) -> Result<Seq<u8>, Seq<char>> {
    match qr_pixels(text) {
        Ok(p) => png_file(p.0, p.1, p.2),
        Err(failure) => Err(failure),
    }
}

/// Draws the QR code of `text` and writes the picture as PNG.
pub fn qr_png(text: &str) -> (picture: Result<Vec<u8>, String>)
    ensures
        bytes_view(picture) == qr_picture(text@),
{
    match draw_qr(text) {
        Ok(pixels) => write_png(&pixels),
        Err(failure) => Err(failure),
    }
}

/// The text that the standard base-64 alphabet with padding writes for
/// `bytes`, as `base64::engine::general_purpose::STANDARD` encodes them.
pub uninterp spec fn base64_text(bytes: Seq<u8>) -> Seq<char>;

/// Calls `Engine::encode` on `base64::engine::general_purpose::STANDARD`.
/// The contract gives the result a name and claims nothing else of it.
#[verifier::external_body]
fn base64_encode(bytes: &Vec<u8>) -> (text: String)
    ensures
        text@ == base64_text(bytes@),
{
    base64::Engine::encode(&base64::engine::general_purpose::STANDARD, bytes)
}

/// The address that an authenticator reads the secret from.
pub open spec fn otp_address(secret: Seq<char>) -> Seq<char> {
    "otpauth://totp/MyApp:UserAccount?secret="@ + secret + "&issuer=MyApp"@
}

/// The address that an authenticator reads the secret from.
pub fn otp_uri(secret: &str) -> (uri: String)
    ensures
        uri@ == otp_address(secret@),
{
    let mut uri = "otpauth://totp/MyApp:UserAccount?secret=".to_owned();
    uri.append(secret);
    uri.append("&issuer=MyApp");
    uri
}

/// The setup for a secret, given the picture of its address where one
/// could be made: the picture is handed out as a PNG data URL in base 64;
/// a failure is a server error with its text.
pub fn two_factor_setup(secret: String, picture: Result<Vec<u8>, String>) -> (outcome: Result<
    TwoFactorSetup,
    AppError,
>)
    ensures
        match picture {
            Ok(bytes) => outcome matches Ok(setup) && setup.secret == secret && setup.qr_code@
                == "data:image/png;base64,"@ + base64_text(bytes@),
            Err(failure) => outcome matches Err(error) && error@
                == ErrorView::InternalServerError(failure@),
        },
{
    match picture {
        Err(failure) => Err(AppError::InternalServerError(failure)),
        Ok(bytes) => {
            let qr_code = "data:image/png;base64,".to_owned().concat(
                base64_encode(&bytes).as_str(),
            );
            Ok(TwoFactorSetup { secret, qr_code })
        },
    }
}

/// Whether `shown` is what the setup for `secret` gives: the data URL of
/// the picture of its address, or the server error of the failure to make
/// the picture.
pub open spec fn setup_shows(secret: Seq<char>, shown: Result<Seq<char>, ErrorView>) -> bool {
    match qr_picture(otp_address(secret)) {
        Ok(bytes) => shown == Ok::<Seq<char>, ErrorView>(
            "data:image/png;base64,"@ + base64_text(bytes),
        ),
        Err(failure) => shown == Err::<Seq<char>, ErrorView>(
            ErrorView::InternalServerError(failure),
        ),
    }
}

/// The setup for `secret`: the picture of its address as a PNG data URL in
/// base 64, or the server error of the failure to make the picture.
pub fn setup_for(secret: String) -> (outcome: Result<TwoFactorSetup, AppError>)
    ensures
        match outcome {
            Ok(setup) => setup.secret == secret && setup_shows(secret@, Ok(setup.qr_code@)),
            Err(error) => setup_shows(secret@, Err(error@)),
        },
{
    let uri = otp_uri(secret.as_str());
    let picture = qr_png(uri.as_str());
    two_factor_setup(secret, picture)
}

/// A new secret with the picture of its address. The secret has
/// `SECRET_LENGTH` characters; the picture is that of the address of the
/// secret.
pub fn generate_2fa_secret() -> (outcome: Result<TwoFactorSetup, AppError>)
    ensures
        match outcome {
            Ok(setup) => setup.secret@.len() == SECRET_LENGTH && setup_shows(
                setup.secret@,
                Ok(setup.qr_code@),
            ),
            Err(error) => exists|secret: Seq<char>|
                secret.len() == SECRET_LENGTH && #[trigger] setup_shows(secret, Err(error@)),
        },
{
    let secret = create_secret(SECRET_LENGTH);
    let ghost kept = secret@;
    let outcome = setup_for(secret);
    proof {
        if outcome is Err {
            assert(setup_shows(kept, Err(outcome->Err_0@)));
        }
    }
    outcome
}

/// Who asks to bind an authenticator, given whether the code is current and
/// the verdict on the bearer token where the request carries one: a code
/// that is not current is a bad request; a request without token and a
/// token that is refused are unauthorized, the latter with the text of the
/// refusal; else the subject of the token asks.
pub open spec fn binding_outcome(
    current: bool,
    verdict: Option<Result<ClaimsView, TokenErrorView>>,
) -> Result<Seq<char>, ErrorView> {
    if !current {
        Err(ErrorView::BadRequest("无效的验证码"@))
    } else {
        match verdict {
            None => Err(ErrorView::Unauthorized("请求未包含认证Token"@)),
            Some(Err(refusal)) => Err(ErrorView::Unauthorized(error_text(refusal))),
            Some(Ok(claims)) => Ok(claims.user_uuid),
        }
    }
}

/// A verdict where there is one, by its views.
pub open spec fn optional_verdict_view(verdict: Option<Result<TokenClaims, TokenError>>) -> Option<
    Result<ClaimsView, TokenErrorView>,
> {
    match verdict {
        None => None,
        Some(v) => Some(verdict_view(v)),
    }
}

/// Who asks to bind an authenticator, given whether the code is current and
/// the verdict on the bearer token where the request carries one.
pub fn binding_subject(current: bool, verdict: Option<Result<TokenClaims, TokenError>>)
    -> (outcome: Result<String, AppError>)
    ensures
        issue_view(outcome) == binding_outcome(current, optional_verdict_view(verdict)),
{
    if !current {
        return Err(AppError::BadRequest("无效的验证码".to_owned()));
    }
    match verdict {
        None => Err(AppError::Unauthorized("请求未包含认证Token".to_owned())),
        Some(Err(refusal)) => Err(AppError::Unauthorized(refusal.to_text())),
        Some(Ok(claims)) => Ok(claims.user_uuid),
    }
}

/// The verdict at the second `now` on the bearer token of a request, where
/// it carries one.
pub open spec fn bearer_verdict(authorization: Option<Seq<char>>, now: u64) -> Option<
    Result<ClaimsView, TokenErrorView>,
> {
    match bearer_token(authorization) {
        None => None,
        Some(token) => Some(checked_at(decoded_payload(token, SECRET_KEY@), now)),
    }
}

/// The first steps of binding an authenticator: the code is checked against
/// the secret at the present time, then the bearer token is read. The
/// result is the identifier of the user to bind, or the error: that of
/// `binding_outcome` for some answer on the code and at some second.
pub fn verify_2fa(request: &Verify2FARequest, authorization: Option<&str>) -> (outcome: Result<
    String,
    AppError,
>)
    ensures
        exists|current: bool, now: u64|
            issue_view(outcome) == #[trigger] binding_outcome(
                current,
                bearer_verdict(str_view(authorization), now),
            ),
{
    let current = code_is_current(
        request.secret.as_str(),
        request.code.as_str(),
        DISCREPANCY,
        PRESENT,
    );
    match extract_token(authorization) {
        Some(token) => {
            let verdict = has_permission(token.as_str());
            let ghost now = choose|now: u64|
                verdict_view(verdict) == checked_at(decoded_payload(token@, SECRET_KEY@), now);
            let outcome = binding_subject(current, Some(verdict));
            assert(issue_view(outcome) == binding_outcome(
                current,
                bearer_verdict(str_view(authorization), now),
            ));
            outcome
        },
        None => {
            let outcome = binding_subject(current, None);
            assert(issue_view(outcome) == binding_outcome(
                current,
                bearer_verdict(str_view(authorization), 0),
            ));
            outcome
        },
    }
}

/// The user with the secret bound, given what the directory said when it
/// was asked for the user: a user that is not there is not found.
pub fn bind_secret(found: Option<Model>, secret: String) -> (outcome: Result<Model, AppError>)
    ensures
        match found {
            None => outcome matches Err(error) && error@ == ErrorView::NotFound("用户不存在"@),
            Some(user) => outcome matches Ok(bound) && bound == (Model {
                binding: Some(secret),
                ..user
            }),
        },
{
    match found {
        None => Err(AppError::NotFound("用户不存在".to_owned())),
        Some(user) => {
            let mut bound = user;
            bound.binding = Some(secret);
            Ok(bound)
        },
    }
}

} // verus!
