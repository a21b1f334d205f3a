use synkronized::auth::{authenticate, check_signature};
use synkronized::error::PipelineError;
use synkronized::webhook::{accept_delivery, Delivery};

const SECRET: &[u8] = b"It's a Secret to Everybody";

fn header_for(body: &[u8], secret: &[u8]) -> String {
    format!("sha256={}", hex::encode(hmac_sha256::HMAC::mac(body, secret)))
}

#[test]
fn own_signature_is_accepted() {
    let body = b"Hello, World!";
    let header = header_for(body, SECRET);
    assert_eq!(
        header,
        "sha256=757107ea0eb2509fc211221cce984b8a37570b6d7586c22c46f4379c8b043e17"
    );
    assert_eq!(authenticate(body, Some(&header), SECRET), Ok(()));
}

#[test]
fn signature_over_another_body_is_a_mismatch() {
    let header = header_for(b"first body", SECRET);
    assert_eq!(
        authenticate(b"second body", Some(&header), SECRET),
        Err(PipelineError::SignatureMismatch)
    );
}

#[test]
fn signature_under_another_secret_is_a_mismatch() {
    let header = header_for(b"body", b"other secret");
    assert_eq!(
        authenticate(b"body", Some(&header), SECRET),
        Err(PipelineError::SignatureMismatch)
    );
}

#[test]
fn missing_signature() {
    assert_eq!(authenticate(b"body", None, SECRET), Err(PipelineError::SignatureMissing));
}

#[test]
fn signature_without_prefix_is_malformed() {
    let header = header_for(b"body", SECRET);
    let bare = header.trim_start_matches("sha256=");
    assert_eq!(
        authenticate(b"body", Some(bare), SECRET),
        Err(PipelineError::SignatureMalformed)
    );
    assert_eq!(
        authenticate(b"body", Some("sha1=00"), SECRET),
        Err(PipelineError::SignatureMalformed)
    );
}

#[test]
fn signature_with_bad_hex_is_malformed() {
    assert_eq!(
        authenticate(b"body", Some("sha256=zz"), SECRET),
        Err(PipelineError::SignatureMalformed)
    );
    assert_eq!(
        authenticate(b"body", Some("sha256=abc"), SECRET),
        Err(PipelineError::SignatureMalformed)
    );
}

#[test]
fn upper_case_hex_is_accepted() {
    let header = header_for(b"body", SECRET);
    let upper = format!("sha256={}", header["sha256=".len()..].to_uppercase());
    assert_eq!(authenticate(b"body", Some(&upper), SECRET), Ok(()));
}

#[test]
fn check_against_given_mac() {
    assert_eq!(check_signature(Some("sha256=00ff10"), &[0x00, 0xff, 0x10]), Ok(()));
    assert_eq!(
        check_signature(Some("sha256=00ff10"), &[0x00, 0xff, 0x11]),
        Err(PipelineError::SignatureMismatch)
    );
    assert_eq!(
        check_signature(Some("sha256=00ff"), &[0x00, 0xff, 0x10]),
        Err(PipelineError::SignatureMismatch)
    );
    assert_eq!(check_signature(Some("sha256="), &[]), Ok(()));
    assert_eq!(check_signature(None, &[]), Err(PipelineError::SignatureMissing));
}

#[test]
fn ping_short_circuits_before_signature_check() {
    assert_eq!(
        accept_delivery(Some("ping"), Some("sha256=bad"), b"{not json", SECRET),
        Ok(Delivery::Ping)
    );
    assert_eq!(accept_delivery(Some("ping"), None, b"", SECRET), Ok(Delivery::Ping));
}

#[test]
fn delivery_without_event_header_is_rejected() {
    let header = header_for(b"{}", SECRET);
    assert_eq!(
        accept_delivery(None, Some(&header), b"{}", SECRET),
        Err(PipelineError::EventHeaderMissing)
    );
}

#[test]
fn signed_event_is_accepted_and_unsigned_rejected() {
    let body = b"{\"action\":\"published\"}";
    let header = header_for(body, SECRET);
    assert_eq!(
        accept_delivery(Some("registry_package"), Some(&header), body, SECRET),
        Ok(Delivery::Event)
    );
    assert_eq!(
        accept_delivery(Some("registry_package"), None, body, SECRET),
        Err(PipelineError::SignatureMissing)
    );
    assert_eq!(
        accept_delivery(Some("registry_package"), Some(&header), b"tampered", SECRET),
        Err(PipelineError::SignatureMismatch)
    );
}

#[test]
fn rejections_are_answered_with_bad_request() {
    assert_eq!(PipelineError::SignatureMismatch.status(), 400);
    assert_eq!(PipelineError::SignatureMismatch.message(), "Bad signature.");
    assert_eq!(PipelineError::SignatureMissing.message(), "Signature is missing.");
    assert_eq!(PipelineError::EventHeaderMissing.message(), "Expected X-Github-Event");
    assert_eq!(PipelineError::TemplateNotFound.status(), 400);
}
