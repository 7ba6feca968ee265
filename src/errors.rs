use vstd::prelude::*;

verus! {

/// How a mail system must act on a failed verification.
#[derive(Debug, Clone, Copy, PartialEq, Eq, Structural)]
pub enum Status {
    /// The outcome will not change on retry.
    Permfail,
    /// The outcome may change on retry; judgment is deferred.
    Tempfail,
}

/// Every failure that DKIM signing or verification can report.
#[derive(Debug, Clone, PartialEq)]
pub enum DKIMError {
    UnsupportedHashAlgorithm(String),
    UnsupportedCanonicalizationType(String),
    SignatureSyntaxError(String),
    SignatureMissingRequiredTag(&'static str),
    IncompatibleVersion,
    DomainMismatch,
    FromFieldNotSigned,
    SignatureExpired,
    UnacceptableSignatureHeader,
    UnsupportedQueryMethod,
    KeyUnavailable(String),
    UnknownInternalError(String),
    NoKeyForSignature,
    KeySyntaxError,
    KeyIncompatibleVersion,
    InappropriateKeyAlgorithm,
    SignatureDidNotVerify,
    BodyHashDidNotVerify,
    MalformedBody,
    FailedToSign(String),
    BuilderError(&'static str),
}

impl DKIMError {
    /// The two kinds that only the signing path produces.
    pub open spec fn is_signing_only(self) -> bool {
        self is FailedToSign || self is BuilderError
    }

    /// The position of the variant in the declaration, payload left aside.
    pub open spec fn variant_index(self) -> nat {
        match self {
            DKIMError::UnsupportedHashAlgorithm(_) => 0,
            DKIMError::UnsupportedCanonicalizationType(_) => 1,
            DKIMError::SignatureSyntaxError(_) => 2,
            DKIMError::SignatureMissingRequiredTag(_) => 3,
            DKIMError::IncompatibleVersion => 4,
            DKIMError::DomainMismatch => 5,
            DKIMError::FromFieldNotSigned => 6,
            DKIMError::SignatureExpired => 7,
            DKIMError::UnacceptableSignatureHeader => 8,
            DKIMError::UnsupportedQueryMethod => 9,
            DKIMError::KeyUnavailable(_) => 10,
            DKIMError::UnknownInternalError(_) => 11,
            DKIMError::NoKeyForSignature => 12,
            DKIMError::KeySyntaxError => 13,
            DKIMError::KeyIncompatibleVersion => 14,
            DKIMError::InappropriateKeyAlgorithm => 15,
            DKIMError::SignatureDidNotVerify => 16,
            DKIMError::BodyHashDidNotVerify => 17,
            DKIMError::MalformedBody => 18,
            DKIMError::FailedToSign(_) => 19,
            DKIMError::BuilderError(_) => 20,
        }
    }

    /// Retrieval failures that may clear up are temporary; every other failure
    /// of the verification path is permanent.
    pub open spec fn spec_status(self) -> Status {
        match self {
            DKIMError::KeyUnavailable(_) | DKIMError::UnknownInternalError(_) => Status::Tempfail,
            _ => Status::Permfail,
        }
    }

    /// Classifies a failure of the verification path. The signing-only kinds
    /// have no classification: passing one is a caller bug, and reaching that
    /// arm at run time panics.
    pub fn status(self) -> (r: Status)
        requires
            !self.is_signing_only(),
        ensures
            r == self.spec_status(),
    {
        match self {
            DKIMError::SignatureSyntaxError(_)
            | DKIMError::SignatureMissingRequiredTag(_)
            | DKIMError::IncompatibleVersion
            | DKIMError::DomainMismatch
            | DKIMError::FromFieldNotSigned
            | DKIMError::SignatureExpired
            | DKIMError::UnacceptableSignatureHeader
            | DKIMError::UnsupportedQueryMethod
            | DKIMError::NoKeyForSignature
            | DKIMError::KeySyntaxError
            | DKIMError::KeyIncompatibleVersion
            | DKIMError::InappropriateKeyAlgorithm
            | DKIMError::SignatureDidNotVerify
            | DKIMError::BodyHashDidNotVerify
            | DKIMError::MalformedBody
            | DKIMError::UnsupportedCanonicalizationType(_)
            | DKIMError::UnsupportedHashAlgorithm(_) => Status::Permfail,
            DKIMError::KeyUnavailable(_) | DKIMError::UnknownInternalError(_) => Status::Tempfail,
            DKIMError::BuilderError(_) | DKIMError::FailedToSign(_) => unreached(),
        }
    }
    /// The log line of an error: a fixed head naming the kind, then the payload.
    pub open spec fn message_spec(self) -> Seq<char> {
        match self {
            DKIMError::UnsupportedHashAlgorithm(v) => "unsupported hash algorithm: "@ + v@,
            DKIMError::UnsupportedCanonicalizationType(v) => "unsupported canonicalization: "@ + v@,
            DKIMError::SignatureSyntaxError(v) => "signature syntax error: "@ + v@,
            DKIMError::SignatureMissingRequiredTag(n) => "signature missing required tag ("@ + n@
                + ")"@,
            DKIMError::IncompatibleVersion => "incompatible version"@,
            DKIMError::DomainMismatch => "domain mismatch"@,
            DKIMError::FromFieldNotSigned => "From field not signed"@,
            DKIMError::SignatureExpired => "signature expired"@,
            DKIMError::UnacceptableSignatureHeader => "unacceptable signature header"@,
            DKIMError::UnsupportedQueryMethod => "unsupported query method"@,
            DKIMError::KeyUnavailable(v) => "key unavailable: "@ + v@,
            DKIMError::UnknownInternalError(v) => "internal error: "@ + v@,
            DKIMError::NoKeyForSignature => "no key for signature"@,
            DKIMError::KeySyntaxError => "key syntax error"@,
            DKIMError::KeyIncompatibleVersion => "key incompatible version"@,
            DKIMError::InappropriateKeyAlgorithm => "inappropriate key algorithm"@,
            DKIMError::SignatureDidNotVerify => "signature did not verify"@,
            DKIMError::BodyHashDidNotVerify => "body hash did not verify"@,
            DKIMError::MalformedBody => "malformed email body"@,
            DKIMError::FailedToSign(v) => "failed to sign: "@ + v@,
            DKIMError::BuilderError(n) => "failed to build object: "@ + n@,
        }
    }

    /// The text an error carries; empty for the kinds without one.
    pub open spec fn payload(self) -> Seq<char> {
        match self {
            DKIMError::UnsupportedHashAlgorithm(v) => v@,
            DKIMError::UnsupportedCanonicalizationType(v) => v@,
            DKIMError::SignatureSyntaxError(v) => v@,
            DKIMError::SignatureMissingRequiredTag(n) => n@,
            DKIMError::KeyUnavailable(v) => v@,
            DKIMError::UnknownInternalError(v) => v@,
            DKIMError::FailedToSign(v) => v@,
            DKIMError::BuilderError(n) => n@,
            _ => Seq::empty(),
        }
    }

    /// Renders the error for a log line.
    pub fn message(&self) -> (r: String)
        ensures
            r@ == self.message_spec(),
    {
        match self {
            DKIMError::UnsupportedHashAlgorithm(v) => with_payload(
                "unsupported hash algorithm: ",
                v.as_str(),
            ),
            DKIMError::UnsupportedCanonicalizationType(v) => with_payload(
                "unsupported canonicalization: ",
                v.as_str(),
            ),
            DKIMError::SignatureSyntaxError(v) => with_payload("signature syntax error: ", v.as_str()),
            DKIMError::SignatureMissingRequiredTag(n) => {
                let mut r = with_payload("signature missing required tag (", n);
                r.append(")");
                r
            },
            DKIMError::IncompatibleVersion => String::from_str("incompatible version"),
            DKIMError::DomainMismatch => String::from_str("domain mismatch"),
            DKIMError::FromFieldNotSigned => String::from_str("From field not signed"),
            DKIMError::SignatureExpired => String::from_str("signature expired"),
            DKIMError::UnacceptableSignatureHeader => String::from_str(
                "unacceptable signature header",
            ),
            DKIMError::UnsupportedQueryMethod => String::from_str("unsupported query method"),
            DKIMError::KeyUnavailable(v) => with_payload("key unavailable: ", v.as_str()),
            DKIMError::UnknownInternalError(v) => with_payload("internal error: ", v.as_str()),
            DKIMError::NoKeyForSignature => String::from_str("no key for signature"),
            DKIMError::KeySyntaxError => String::from_str("key syntax error"),
            DKIMError::KeyIncompatibleVersion => String::from_str("key incompatible version"),
            DKIMError::InappropriateKeyAlgorithm => String::from_str(
                "inappropriate key algorithm",
            ),
            DKIMError::SignatureDidNotVerify => String::from_str("signature did not verify"),
            DKIMError::BodyHashDidNotVerify => String::from_str("body hash did not verify"),
            DKIMError::MalformedBody => String::from_str("malformed email body"),
            DKIMError::FailedToSign(v) => with_payload("failed to sign: ", v.as_str()),
            DKIMError::BuilderError(n) => with_payload("failed to build object: ", n),
        }
    }
}

/// `head` followed by `payload`, as a new string.
fn with_payload(head: &str, payload: &str) -> (r: String)
    ensures
        r@ == head@ + payload@,
{
    let mut r = String::from_str(head);
    r.append(payload);
    r
}

/// The characters at positions 0, 2, 4, 10 and 12 of a rendering.
pub open spec fn head_marks(s: Seq<char>) -> (char, char, char, char, char) {
    (s[0], s[2], s[4], s[10], s[12])
}

impl DKIMError {
    /// What `head_marks` reads from the fixed head of each kind's rendering.
    pub open spec fn expected_marks(self) -> (char, char, char, char, char) {
        match self {
            DKIMError::UnsupportedHashAlgorithm(_) => ('u', 's', 'p', 'd', 'h'),
            DKIMError::UnsupportedCanonicalizationType(_) => ('u', 's', 'p', 'd', 'c'),
            DKIMError::SignatureSyntaxError(_) => ('s', 'g', 'a', 's', 'n'),
            DKIMError::SignatureMissingRequiredTag(_) => ('s', 'g', 'a', 'm', 's'),
            DKIMError::IncompatibleVersion => ('i', 'c', 'm', 'l', ' '),
            DKIMError::DomainMismatch => ('d', 'm', 'i', 'm', 't'),
            DKIMError::FromFieldNotSigned => ('F', 'o', ' ', ' ', 'o'),
            DKIMError::SignatureExpired => ('s', 'g', 'a', 'e', 'p'),
            DKIMError::UnacceptableSignatureHeader => ('u', 'a', 'c', 'l', ' '),
            DKIMError::UnsupportedQueryMethod => ('u', 's', 'p', 'd', 'q'),
            DKIMError::KeyUnavailable(_) => ('k', 'y', 'u', 'l', 'b'),
            DKIMError::UnknownInternalError(_) => ('i', 't', 'r', 'r', 'o'),
            DKIMError::NoKeyForSignature => ('n', ' ', 'e', ' ', 'i'),
            DKIMError::KeySyntaxError => ('k', 'y', 's', ' ', 'r'),
            DKIMError::KeyIncompatibleVersion => ('k', 'y', 'i', 'a', 'i'),
            DKIMError::InappropriateKeyAlgorithm => ('i', 'a', 'p', 'a', 'e'),
            DKIMError::SignatureDidNotVerify => ('s', 'g', 'a', 'd', 'd'),
            DKIMError::BodyHashDidNotVerify => ('b', 'd', ' ', 'd', 'd'),
            DKIMError::MalformedBody => ('m', 'l', 'o', 'e', 'a'),
            DKIMError::FailedToSign(_) => ('f', 'i', 'e', 's', 'g'),
            DKIMError::BuilderError(_) => ('f', 'i', 'e', 'b', 'i'),
        }
    }

    /// The length of the fixed head that precedes the payload.
    pub open spec fn head_len(self) -> int {
        match self {
            DKIMError::UnsupportedHashAlgorithm(_) => 28,
            DKIMError::UnsupportedCanonicalizationType(_) => 30,
            DKIMError::SignatureSyntaxError(_) => 24,
            DKIMError::SignatureMissingRequiredTag(_) => 32,
            DKIMError::KeyUnavailable(_) => 17,
            DKIMError::UnknownInternalError(_) => 16,
            DKIMError::FailedToSign(_) => 16,
            DKIMError::BuilderError(_) => 24,
            _ => self.message_spec().len() as int,
        }
    }

    /// The text that a rendering holds after its fixed head.
    pub open spec fn tail_of(self, s: Seq<char>) -> Seq<char> {
        if self is SignatureMissingRequiredTag {
            s.subrange(self.head_len(), s.len() - 1)
        } else {
            s.subrange(self.head_len(), s.len() as int)
        }
    }
}

proof fn lemma_message_layout(e: DKIMError)
    ensures
        e.message_spec().len() >= 15,
        head_marks(e.message_spec()) == e.expected_marks(),
        e.tail_of(e.message_spec()) == e.payload(),
{
    reveal_strlit("unsupported hash algorithm: ");
    reveal_strlit("unsupported canonicalization: ");
    reveal_strlit("signature syntax error: ");
    reveal_strlit("signature missing required tag (");
    reveal_strlit(")");
    reveal_strlit("incompatible version");
    reveal_strlit("domain mismatch");
    reveal_strlit("From field not signed");
    reveal_strlit("signature expired");
    reveal_strlit("unacceptable signature header");
    reveal_strlit("unsupported query method");
    reveal_strlit("key unavailable: ");
    reveal_strlit("internal error: ");
    reveal_strlit("no key for signature");
    reveal_strlit("key syntax error");
    reveal_strlit("key incompatible version");
    reveal_strlit("inappropriate key algorithm");
    reveal_strlit("signature did not verify");
    reveal_strlit("body hash did not verify");
    reveal_strlit("malformed email body");
    reveal_strlit("failed to sign: ");
    reveal_strlit("failed to build object: ");
    let m = e.message_spec();
    match e {
        DKIMError::SignatureMissingRequiredTag(n) => {
            assert(e.tail_of(m) =~= n@);
        },
        _ => {
            assert(e.tail_of(m) =~= e.payload());
        },
    }
}

/// The classification of a verification-path failure depends on its kind
/// alone: two failures of one kind, whatever text they carry, are classified
/// alike.
pub proof fn lemma_status_ignores_payload(a: DKIMError, b: DKIMError)
    requires
        !a.is_signing_only(),
        !b.is_signing_only(),
        a.variant_index() == b.variant_index(),
    ensures
        a.spec_status() == b.spec_status(),
{
}

/// A log line tells every failure apart: two errors that render alike are of
/// one kind and carry the same text.
pub proof fn lemma_message_identifies_error(a: DKIMError, b: DKIMError)
    requires
        a.message_spec() == b.message_spec(),
    ensures
        a.variant_index() == b.variant_index(),
        a.payload() == b.payload(),
{
    lemma_message_layout(a);
    lemma_message_layout(b);
}

} // verus!
