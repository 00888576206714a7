use vstd::prelude::*;

verus! {

/// The kinds of failure a conversion can report.
#[derive(Clone, Copy, Debug, PartialEq, Eq, Structural)]
pub enum ErrorKind {
    /// The input bytes are not UTF-8 text.
    Utf8Invalid,
    /// No base64 alphabet variant accepts the text.
    Base64Invalid,
    /// The bytes are not one well-formed CBOR item.
    BinaryMalformed,
    /// The text is not valid JSON.
    TextMalformed,
    /// A CBOR value has no JSON rendering (a non-scalar map key).
    UnrepresentableValue,
}

/// A failure with its kind and, where one exists, the underlying cause.
#[derive(Debug)]
pub struct CbdError {
    pub kind: ErrorKind,
    pub cause: Option<String>,
}

impl CbdError {
    pub fn new(kind: ErrorKind, cause: Option<String>) -> (r: CbdError)
        ensures
            r.kind == kind,
            r.cause == cause,
    {
        CbdError { kind, cause }
    }

    pub fn kind(&self) -> (r: ErrorKind)
        ensures
            r == self.kind,
    {
        self.kind
    }

    /// The description of the failure, fixed by its kind.
    pub fn describe(&self) -> (r: &'static str)
        ensures
            r@ == describe_kind(self.kind),
    {
        proof {
            reveal_strlit("Failed to decode input as utf8");
            reveal_strlit("Failed to decode base64");
            reveal_strlit("Failed to decode CBOR");
            reveal_strlit("Failed to decode JSON");
            reveal_strlit("Failed to encode JSON");
        }
        match self.kind {
            ErrorKind::Utf8Invalid => "Failed to decode input as utf8",
            ErrorKind::Base64Invalid => "Failed to decode base64",
            ErrorKind::BinaryMalformed => "Failed to decode CBOR",
            ErrorKind::TextMalformed => "Failed to decode JSON",
            ErrorKind::UnrepresentableValue => "Failed to encode JSON",
        }
    }

    /// The underlying cause, when the failure came from a lower layer.
    pub fn cause(&self) -> (r: Option<&String>)
        ensures
            r == match self.cause {
                Some(c) => Some(&c),
                None => None::<&String>,
            },
    {
        match &self.cause {
            Some(c) => Some(c),
            None => None,
        }
    }
}

pub open spec fn describe_kind(k: ErrorKind) -> Seq<char> {
    match k {
        ErrorKind::Utf8Invalid => "Failed to decode input as utf8"@,
        ErrorKind::Base64Invalid => "Failed to decode base64"@,
        ErrorKind::BinaryMalformed => "Failed to decode CBOR"@,
        ErrorKind::TextMalformed => "Failed to decode JSON"@,
        ErrorKind::UnrepresentableValue => "Failed to encode JSON"@,
    }
}

} // verus!
