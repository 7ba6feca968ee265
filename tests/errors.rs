use dkim_lookup::{DKIMError, Status};

fn verification_errors(text: &str) -> Vec<DKIMError> {
    vec![
        DKIMError::UnsupportedHashAlgorithm(text.to_string()),
        DKIMError::UnsupportedCanonicalizationType(text.to_string()),
        DKIMError::SignatureSyntaxError(text.to_string()),
        DKIMError::SignatureMissingRequiredTag("d"),
        DKIMError::IncompatibleVersion,
        DKIMError::DomainMismatch,
        DKIMError::FromFieldNotSigned,
        DKIMError::SignatureExpired,
        DKIMError::UnacceptableSignatureHeader,
        DKIMError::UnsupportedQueryMethod,
        DKIMError::KeyUnavailable(text.to_string()),
        DKIMError::UnknownInternalError(text.to_string()),
        DKIMError::NoKeyForSignature,
        DKIMError::KeySyntaxError,
        DKIMError::KeyIncompatibleVersion,
        DKIMError::InappropriateKeyAlgorithm,
        DKIMError::SignatureDidNotVerify,
        DKIMError::BodyHashDidNotVerify,
        DKIMError::MalformedBody,
    ]
}

fn expected_status(e: &DKIMError) -> Status {
    match e {
        DKIMError::KeyUnavailable(_) | DKIMError::UnknownInternalError(_) => Status::Tempfail,
        _ => Status::Permfail,
    }
}

#[test]
fn every_verification_error_is_classified() {
    for e in verification_errors("x") {
        assert_eq!(e.clone().status(), expected_status(&e), "{:?}", e);
    }
}

#[test]
fn classification_ignores_payload_and_repeats() {
    let short = verification_errors("");
    let long = verification_errors("a much longer diagnostic, with punctuation: ;=()");
    for (a, b) in short.into_iter().zip(long) {
        let first = a.clone().status();
        assert_eq!(first, a.clone().status());
        assert_eq!(first, b.status());
    }
}

#[test]
fn retrieval_classification() {
    assert_eq!(DKIMError::NoKeyForSignature.status(), Status::Permfail);
    assert_eq!(DKIMError::KeyUnavailable("timeout".to_string()).status(), Status::Tempfail);
    assert_eq!(DKIMError::UnknownInternalError(String::new()).status(), Status::Tempfail);
    assert_eq!(DKIMError::SignatureDidNotVerify.status(), Status::Permfail);
}

#[test]
fn messages_render_kind_and_payload() {
    let x = "x".to_string();
    let cases = vec![
        (DKIMError::UnsupportedHashAlgorithm(x.clone()), "unsupported hash algorithm: x"),
        (DKIMError::UnsupportedCanonicalizationType(x.clone()), "unsupported canonicalization: x"),
        (DKIMError::SignatureSyntaxError(x.clone()), "signature syntax error: x"),
        (DKIMError::SignatureMissingRequiredTag("bh"), "signature missing required tag (bh)"),
        (DKIMError::IncompatibleVersion, "incompatible version"),
        (DKIMError::DomainMismatch, "domain mismatch"),
        (DKIMError::FromFieldNotSigned, "From field not signed"),
        (DKIMError::SignatureExpired, "signature expired"),
        (DKIMError::UnacceptableSignatureHeader, "unacceptable signature header"),
        (DKIMError::UnsupportedQueryMethod, "unsupported query method"),
        (DKIMError::KeyUnavailable(x.clone()), "key unavailable: x"),
        (DKIMError::UnknownInternalError(x.clone()), "internal error: x"),
        (DKIMError::NoKeyForSignature, "no key for signature"),
        (DKIMError::KeySyntaxError, "key syntax error"),
        (DKIMError::KeyIncompatibleVersion, "key incompatible version"),
        (DKIMError::InappropriateKeyAlgorithm, "inappropriate key algorithm"),
        (DKIMError::SignatureDidNotVerify, "signature did not verify"),
        (DKIMError::BodyHashDidNotVerify, "body hash did not verify"),
        (DKIMError::MalformedBody, "malformed email body"),
        (DKIMError::FailedToSign(x.clone()), "failed to sign: x"),
        (DKIMError::BuilderError("header"), "failed to build object: header"),
    ];
    for (e, expected) in cases {
        assert_eq!(e.message(), expected);
    }
}

#[test]
fn messages_tell_every_kind_apart() {
    let mut all = verification_errors("");
    all.push(DKIMError::FailedToSign(String::new()));
    all.push(DKIMError::BuilderError(""));
    let mut messages: Vec<String> = all.iter().map(|e| e.message()).collect();
    let n = messages.len();
    messages.sort();
    messages.dedup();
    assert_eq!(messages.len(), n);
}

#[test]
fn messages_tell_payloads_apart() {
    let a = DKIMError::KeyUnavailable("a".to_string()).message();
    let b = DKIMError::KeyUnavailable("b".to_string()).message();
    assert_ne!(a, b);
    assert_ne!(
        DKIMError::SignatureMissingRequiredTag("d").message(),
        DKIMError::SignatureMissingRequiredTag("s").message()
    );
}
