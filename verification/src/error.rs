//! The error type shared by byte conversion, providers and conversions.
use std::string::FromUtf8Error;
use vstd::prelude::*;
use vstd::std_specs::convert::FromSpecImpl;
use vstd::utf8::valid_utf8;

use crate::traits::utf8_error_text;

verus! {

/// The errors that byte conversion, the security providers and model
/// conversion can report. Each variant carries a human-readable detail.
#[derive(Debug)]
pub enum Error {
    ByteConversion(String),
    Wincode(String),
    Indexing(String),
    Encryption(String),
    Decryption(String),
    Hashing(String),
    Signing(String),
    SignatureVerification(String),
    Mac(String),
    MacVerification(String),
    Digest(String),
}

impl Error {
    /// The detail text that the variant carries.
    pub open spec fn detail(self) -> Seq<char> {
        match self {
            Error::ByteConversion(m) => m@,
            Error::Wincode(m) => m@,
            Error::Indexing(m) => m@,
            Error::Encryption(m) => m@,
            Error::Decryption(m) => m@,
            Error::Hashing(m) => m@,
            Error::Signing(m) => m@,
            Error::SignatureVerification(m) => m@,
            Error::Mac(m) => m@,
            Error::MacVerification(m) => m@,
            Error::Digest(m) => m@,
        }
    }

    /// The position of the variant in the declaration.
    pub open spec fn kind(self) -> nat {
        match self {
            Error::ByteConversion(_) => 0,
            Error::Wincode(_) => 1,
            Error::Indexing(_) => 2,
            Error::Encryption(_) => 3,
            Error::Decryption(_) => 4,
            Error::Hashing(_) => 5,
            Error::Signing(_) => 6,
            Error::SignatureVerification(_) => 7,
            Error::Mac(_) => 8,
            Error::MacVerification(_) => 9,
            Error::Digest(_) => 10,
        }
    }

    /// The fixed text that introduces the detail of each variant.
    pub open spec fn prefix(self) -> Seq<char> {
        match self {
            Error::ByteConversion(_) => "Byte conversion error: "@,
            Error::Wincode(_) => "Wincode codec error: "@,
            Error::Indexing(_) => "Indexing failed: "@,
            Error::Encryption(_) => "Encryption failed: "@,
            Error::Decryption(_) => "Decryption failed: "@,
            Error::Hashing(_) => "Hashing error: "@,
            Error::Signing(_) => "Signing failed: "@,
            Error::SignatureVerification(_) => "Signature verification failed: "@,
            Error::Mac(_) => "MAC tagging failed: "@,
            Error::MacVerification(_) => "MAC verification failed: "@,
            Error::Digest(_) => "Digest failed: "@,
        }
    }

    /// The human-readable rendering of the error: the variant's prefix
    /// followed by its detail.
    pub fn message(&self) -> (r: String)
        ensures
            r@ == self.prefix() + self.detail(),
    {
        let (prefix, detail): (&str, &String) = match self {
            Error::ByteConversion(m) => ("Byte conversion error: ", m),
            Error::Wincode(m) => ("Wincode codec error: ", m),
            Error::Indexing(m) => ("Indexing failed: ", m),
            Error::Encryption(m) => ("Encryption failed: ", m),
            Error::Decryption(m) => ("Decryption failed: ", m),
            Error::Hashing(m) => ("Hashing error: ", m),
            Error::Signing(m) => ("Signing failed: ", m),
            Error::SignatureVerification(m) => ("Signature verification failed: ", m),
            Error::Mac(m) => ("MAC tagging failed: ", m),
            Error::MacVerification(m) => ("MAC verification failed: ", m),
            Error::Digest(m) => ("Digest failed: ", m),
        };
        let mut r = prefix.to_owned();
        r.append(detail.as_str());
        r
    }
}

/// Different errors have different messages: the message of an error
/// determines its variant and its detail.
pub proof fn lemma_message_determines_error(e1: Error, e2: Error)
    requires
        e1.prefix() + e1.detail() == e2.prefix() + e2.detail(),
    ensures
        e1.kind() == e2.kind(),
        e1.detail() == e2.detail(),
{
    reveal_strlit("Byte conversion error: ");
    reveal_strlit("Wincode codec error: ");
    reveal_strlit("Indexing failed: ");
    reveal_strlit("Encryption failed: ");
    reveal_strlit("Decryption failed: ");
    reveal_strlit("Hashing error: ");
    reveal_strlit("Signing failed: ");
    reveal_strlit("Signature verification failed: ");
    reveal_strlit("MAC tagging failed: ");
    reveal_strlit("MAC verification failed: ");
    reveal_strlit("Digest failed: ");
    let m1 = e1.prefix() + e1.detail();
    let m2 = e2.prefix() + e2.detail();
    assert(m1[0] == e1.prefix()[0] && m1[1] == e1.prefix()[1] && m1[4] == e1.prefix()[4]);
    assert(m2[0] == e2.prefix()[0] && m2[1] == e2.prefix()[1] && m2[4] == e2.prefix()[4]);
    assert(e1.kind() == e2.kind());
    assert(e1.prefix() == e2.prefix());
    assert(e1.detail() =~= m1.skip(e1.prefix().len() as int));
    assert(e2.detail() =~= m2.skip(e2.prefix().len() as int));
}

#[verifier::external_type_specification]
#[verifier::external_body]
pub struct ExFromUtf8Error(FromUtf8Error);

/// Holds of std's description of some bytes that are not valid UTF-8.
pub open spec fn describes_invalid_utf8(text: Seq<char>) -> bool {
    exists|b: Seq<u8>| !valid_utf8(b) && #[trigger] utf8_error_text(b) == text
}

/// Calls `to_string` on std's UTF-8 error (its `Display`). The error comes
/// from bytes that are not valid UTF-8, and its text is std's text for those
/// bytes; which bytes they were is not claimed, as the error is opaque here.
#[verifier::external_body]
fn utf8_error_description(e: &FromUtf8Error) -> (r: String)
    ensures
        describes_invalid_utf8(r@),
{
    e.to_string()
}

impl From<FromUtf8Error> for Error {
    /// Bytes that are not valid UTF-8 are a byte conversion error that
    /// carries std's description of the problem.
    fn from(value: FromUtf8Error) -> (r: Self)
        ensures
            r is ByteConversion,
            describes_invalid_utf8(r->ByteConversion_0@),
    {
        Error::ByteConversion(utf8_error_description(&value))
    }
}

impl FromSpecImpl<FromUtf8Error> for Error {
    /// The detail text is std's description of bytes that are not valid
    /// UTF-8 (see `from`); the bytes are not known here.
    open spec fn obeys_from_spec() -> bool {
        false
    }

    open spec fn from_spec(v: FromUtf8Error) -> Error {
        Error::ByteConversion(vstd::pervasive::arbitrary())
    }
}

} // verus!
