//! Detached signatures: the archive of a release is installed only if its
//! signature verifies against the public key that the application carries.

use crate::updater::{Base64Error, Error, SignatureError};
use vstd::prelude::*;
use vstd::string::*;
use vstd::utf8::{decode_utf8, encode_utf8_decode_utf8, valid_utf8};

verus! {

/// A Minisign public key, as `minisign_verify` holds it.
#[verifier::external_type_specification]
#[verifier::external_body]
pub struct ExPublicKey(minisign_verify::PublicKey);

/// A Minisign signature, as `minisign_verify` holds it.
#[verifier::external_type_specification]
#[verifier::external_body]
pub struct ExSignature(minisign_verify::Signature);

/// What `base64::decode` makes of a text: the bytes that the text encodes in
/// the standard alphabet with padding, or the reason why it encodes none.
pub uninterp spec fn base64_decoded(input: Seq<char>) -> Result<Seq<u8>, Base64Error>;

/// What `minisign_verify::PublicKey::decode` makes of the text of a public
/// key file.
pub uninterp spec fn minisign_public_key(text: Seq<char>) -> Result<
    minisign_verify::PublicKey,
    SignatureError,
>;

/// What `minisign_verify::Signature::decode` makes of the text of a
/// signature file.
pub uninterp spec fn minisign_signature(text: Seq<char>) -> Result<
    minisign_verify::Signature,
    SignatureError,
>;

/// What `minisign_verify::PublicKey::verify` says of data and a signature.
pub uninterp spec fn minisign_verified(
    key: minisign_verify::PublicKey,
    data: Seq<u8>,
    signature: minisign_verify::Signature,
) -> Result<(), SignatureError>;

/// Decodes base64: `base64::decode`.
///
/// Trusted: the outcome is a function of the text alone, named
/// [`base64_decoded`]; the three ways in which the crate refuses a text are
/// passed on one for one.
#[verifier::external_body]
pub(crate) fn base64_decode(input: &str) -> (r: Result<Vec<u8>, Base64Error>)
    ensures
        match r {
            Ok(bytes) => base64_decoded(input@) == Ok::<Seq<u8>, Base64Error>(bytes@),
            Err(e) => base64_decoded(input@) == Err::<Seq<u8>, Base64Error>(e),
        },
{
    match base64::decode(input) {
        Ok(bytes) => Ok(bytes),
        Err(base64::DecodeError::InvalidByte(at, byte)) => Err(Base64Error::InvalidByte(at, byte)),
        Err(base64::DecodeError::InvalidLength) => Err(Base64Error::InvalidLength),
        Err(base64::DecodeError::InvalidLastSymbol(at, byte)) => Err(
            Base64Error::InvalidLastSymbol(at, byte),
        ),
    }
}

/// Reads bytes as text: `core::str::from_utf8`.
///
/// Trusted: the bytes are accepted exactly when they are valid UTF-8, and
/// the text then has those bytes.
#[verifier::external_body]
pub(crate) fn from_utf8(bytes: &[u8]) -> (r: Option<&str>)
    ensures
        match r {
            Some(text) => valid_utf8(bytes@) && text.spec_bytes() == bytes@,
            None => !valid_utf8(bytes@),
        },
{
    core::str::from_utf8(bytes).ok()
}

/// Whether a byte is one of the sixty-four symbols of base64.
pub open spec fn is_base64_symbol(byte: u8) -> bool {
    ||| 0x41 <= byte <= 0x5a
    ||| 0x61 <= byte <= 0x7a
    ||| 0x30 <= byte <= 0x39
    ||| byte == 0x2b
    ||| byte == 0x2f
}

/// Whether a line of base64 breaks off within its padding: it is symbols
/// that lack two padding signs to a whole group, and one padding sign. No
/// such line encodes anything.
pub open spec fn is_short_padded(line: Seq<u8>) -> bool {
    &&& line.len() % 4 == 3
    &&& line.last() == 0x3d
    &&& forall|i: int| 0 <= i < line.len() - 1 ==> is_base64_symbol(#[trigger] line[i])
}

/// Where the line that holds `from` ends: at the next line feed, or at the
/// end of the text.
pub open spec fn line_end(text: Seq<u8>, from: int) -> int
    decreases text.len() - from,
{
    if from < 0 || from >= text.len() || text[from] == 0x0a {
        from
    } else {
        line_end(text, from + 1)
    }
}

/// Where line `n` of a text begins, counted from nought: behind the line
/// feed that ends the line before it.
pub open spec fn line_start(text: Seq<u8>, n: nat) -> int
    decreases n,
{
    if n == 0 {
        0
    } else {
        line_end(text, line_start(text, (n - 1) as nat)) + 1
    }
}

/// Line `n` of a text, without its line feed; empty where the text has no
/// such line.
pub open spec fn line_of(text: Seq<u8>, n: nat) -> Seq<u8> {
    let start = line_start(text, n);
    if start <= text.len() {
        text.subrange(start, line_end(text, start))
    } else {
        Seq::empty()
    }
}

/// A line without the carriage return at its end, if it has one.
pub open spec fn without_return(line: Seq<u8>) -> Seq<u8> {
    if line.len() > 0 && line.last() == 0x0d {
        line.drop_last()
    } else {
        line
    }
}

/// Whether line `n` of a text breaks off within its padding, with or
/// without the carriage return at its end.
pub open spec fn lacks_padding(text: Seq<u8>, n: nat) -> bool {
    is_short_padded(line_of(text, n)) || is_short_padded(without_return(line_of(text, n)))
}

/// Where the line that holds `from` ends.
fn find_line_end(text: &[u8], from: usize) -> (end: usize)
    requires
        from <= text@.len(),
    ensures
        end == line_end(text@, from as int),
        from <= end <= text@.len(),
{
    let mut at: usize = from;
    while at < text.len() && text[at] != 0x0a
        invariant
            from <= at <= text@.len(),
            line_end(text@, from as int) == line_end(text@, at as int),
        decreases text@.len() - at,
    {
        at += 1;
    }
    at
}

/// Where line `n` of a text begins and ends, if the text has such a line.
fn find_line(text: &[u8], n: usize) -> (bounds: Option<(usize, usize)>)
    ensures
        match bounds {
            Some((start, end)) => start == line_start(text@, n as nat) && end == line_end(
                text@,
                start as int,
            ) && start <= end <= text@.len(),
            None => line_start(text@, n as nat) > text@.len(),
        },
{
    let mut start: usize = 0;
    let mut k: usize = 0;
    while k < n
        invariant
            k <= n,
            start <= text@.len(),
            start == line_start(text@, k as nat),
        decreases n - k,
    {
        let end: usize = find_line_end(text, start);
        if end == text.len() {
            proof {
                lemma_line_start_beyond(text@, (k + 1) as nat, n as nat);
            }
            return None;
        }
        start = end + 1;
        k += 1;
    }
    let end: usize = find_line_end(text, start);
    Some((start, end))
}

/// Once a line begins beyond the end of the text, so does every later one.
proof fn lemma_line_start_beyond(text: Seq<u8>, k: nat, n: nat)
    requires
        k <= n,
        line_start(text, k) > text.len(),
    ensures
        line_start(text, n) > text.len(),
    decreases n - k,
{
    if k < n {
        assert(line_end(text, line_start(text, k)) == line_start(text, k));
        lemma_line_start_beyond(text, k + 1, n);
    }
}

/// Whether the bytes from `start` to `end` break off within their padding.
fn short_padded(text: &[u8], start: usize, end: usize) -> (b: bool)
    requires
        start <= end <= text@.len(),
    ensures
        b == is_short_padded(text@.subrange(start as int, end as int)),
{
    let ghost line = text@.subrange(start as int, end as int);
    if (end - start) % 4 != 3 || text[end - 1] != 0x3d {
        assert(line.len() > 0 ==> line.last() == text@[end - 1]);
        return false;
    }
    assert(line.last() == text@[end - 1]);
    let mut at: usize = start;
    while at < end - 1
        invariant
            start <= at <= end - 1,
            end <= text@.len(),
            line == text@.subrange(start as int, end as int),
            forall|i: int| 0 <= i < at - start ==> is_base64_symbol(#[trigger] line[i]),
        decreases end - at,
    {
        let byte: u8 = text[at];
        let symbol = (0x41 <= byte && byte <= 0x5a) || (0x61 <= byte && byte <= 0x7a) || (0x30
            <= byte && byte <= 0x39) || byte == 0x2b || byte == 0x2f;
        if !symbol {
            assert(line[at - start] == byte);
            return false;
        }
        assert(line[at - start] == byte);
        at += 1;
    }
    true
}

/// Whether line `n` of a text breaks off within its padding, with or
/// without the carriage return at its end.
pub fn line_lacks_padding(text: &[u8], n: usize) -> (b: bool)
    ensures
        b == lacks_padding(text@, n as nat),
{
    match find_line(text, n) {
        None => {
            assert(line_of(text@, n as nat) =~= Seq::<u8>::empty());
            false
        },
        Some((start, end)) => {
            let ghost line = text@.subrange(start as int, end as int);
            assert(line_of(text@, n as nat) == line);
            if short_padded(text, start, end) {
                return true;
            }
            if end > start && text[end - 1] == 0x0d {
                assert(line.last() == 0x0d);
                assert(line.drop_last() =~= text@.subrange(start as int, end - 1));
                short_padded(text, start, end - 1)
            } else {
                assert(line.len() > 0 ==> line.last() == text@[end - 1]);
                false
            }
        },
    }
}

/// Reads a public key: `minisign_verify::PublicKey::decode`.
///
/// Trusted: the outcome is a function of the text alone, named
/// [`minisign_public_key`]; the errors of the crate are passed on one for
/// one. A text whose second line breaks off within its padding is left
/// out: on such a line the crate reads beyond the end.
#[verifier::external_body]
pub(crate) fn decode_public_key(text: &str) -> (r: Result<
    minisign_verify::PublicKey,
    SignatureError,
>)
    requires
        !lacks_padding(text.spec_bytes(), 1),
    ensures
        r == minisign_public_key(text@),
{
    match minisign_verify::PublicKey::decode(text) {
        Ok(key) => Ok(key),
        Err(minisign_verify::Error::InvalidEncoding) => Err(SignatureError::InvalidEncoding),
        Err(minisign_verify::Error::InvalidSignature) => Err(SignatureError::InvalidSignature),
        Err(minisign_verify::Error::IoError(_)) => Err(SignatureError::IoError),
        Err(minisign_verify::Error::UnexpectedAlgorithm) => Err(SignatureError::UnexpectedAlgorithm),
        Err(minisign_verify::Error::UnexpectedKeyId) => Err(SignatureError::UnexpectedKeyId),
        Err(minisign_verify::Error::UnsupportedAlgorithm) => Err(
            SignatureError::UnsupportedAlgorithm,
        ),
    }
}

/// Reads a signature: `minisign_verify::Signature::decode`.
///
/// Trusted: the outcome is a function of the text alone, named
/// [`minisign_signature`]; the errors of the crate are passed on one for
/// one. A text whose second or fourth line breaks off within its padding
/// is left out: on such a line the crate reads beyond the end.
#[verifier::external_body]
pub(crate) fn decode_signature(text: &str) -> (r: Result<
    minisign_verify::Signature,
    SignatureError,
>)
    requires
        !lacks_padding(text.spec_bytes(), 1),
        !lacks_padding(text.spec_bytes(), 3),
    ensures
        r == minisign_signature(text@),
{
    match minisign_verify::Signature::decode(text) {
        Ok(signature) => Ok(signature),
        Err(minisign_verify::Error::InvalidEncoding) => Err(SignatureError::InvalidEncoding),
        Err(minisign_verify::Error::InvalidSignature) => Err(SignatureError::InvalidSignature),
        Err(minisign_verify::Error::IoError(_)) => Err(SignatureError::IoError),
        Err(minisign_verify::Error::UnexpectedAlgorithm) => Err(SignatureError::UnexpectedAlgorithm),
        Err(minisign_verify::Error::UnexpectedKeyId) => Err(SignatureError::UnexpectedKeyId),
        Err(minisign_verify::Error::UnsupportedAlgorithm) => Err(
            SignatureError::UnsupportedAlgorithm,
        ),
    }
}

/// Verifies a signature: `minisign_verify::PublicKey::verify`.
///
/// Trusted: the outcome is a function of the key, the data and the
/// signature alone, named [`minisign_verified`]; the errors of the crate
/// are passed on one for one.
#[verifier::external_body]
pub(crate) fn verify_with_key(
    key: &minisign_verify::PublicKey,
    data: &[u8],
    signature: &minisign_verify::Signature,
) -> (r: Result<(), SignatureError>)
    ensures
        r == minisign_verified(*key, data@, *signature),
{
    match key.verify(data, signature) {
        Ok(()) => Ok(()),
        Err(minisign_verify::Error::InvalidEncoding) => Err(SignatureError::InvalidEncoding),
        Err(minisign_verify::Error::InvalidSignature) => Err(SignatureError::InvalidSignature),
        Err(minisign_verify::Error::IoError(_)) => Err(SignatureError::IoError),
        Err(minisign_verify::Error::UnexpectedAlgorithm) => Err(SignatureError::UnexpectedAlgorithm),
        Err(minisign_verify::Error::UnexpectedKeyId) => Err(SignatureError::UnexpectedKeyId),
        Err(minisign_verify::Error::UnsupportedAlgorithm) => Err(
            SignatureError::UnsupportedAlgorithm,
        ),
    }
}

/// The text that a base64 text encodes: the error tells a text that is no
/// base64 from one whose bytes are no UTF-8.
pub open spec fn decoded_text(input: Seq<char>) -> Result<Seq<char>, Error> {
    match base64_decoded(input) {
        Err(e) => Err(Error::Base64(e)),
        Ok(bytes) => if valid_utf8(bytes) {
            Ok(decode_utf8(bytes))
        } else {
            Err(Error::Utf8)
        },
    }
}

/// Decodes a base64 text that encodes a text.
pub fn base64_to_string(base64_string: &str) -> (r: Result<String, Error>)
    ensures
        match (r, decoded_text(base64_string@)) {
            (Ok(text), Ok(expected)) => text@ == expected,
            (Err(e), Err(expected)) => e == expected,
            _ => false,
        },
{
    let decoded = match base64_decode(base64_string) {
        Ok(bytes) => bytes,
        Err(e) => {
            return Err(Error::Base64(e));
        },
    };
    match from_utf8(decoded.as_slice()) {
        Some(text) => {
            proof {
                encode_utf8_decode_utf8(text@);
            }
            Ok(String::from_str(text))
        },
        None => Err(Error::Utf8),
    }
}

/// The bytes of the text that a base64 text encodes.
pub open spec fn decoded_bytes(input: Seq<char>) -> Result<Seq<u8>, Error> {
    match base64_decoded(input) {
        Err(e) => Err(Error::Base64(e)),
        Ok(bytes) => if valid_utf8(bytes) {
            Ok(bytes)
        } else {
            Err(Error::Utf8)
        },
    }
}

/// The public key that the text of a key file holds. The key stands in
/// base64 on the second line; a line that breaks off within its padding is
/// an invalid encoding.
pub open spec fn public_key_read(text: Seq<u8>) -> Result<minisign_verify::PublicKey, Error> {
    if lacks_padding(text, 1) {
        Err(Error::Minisign(SignatureError::InvalidEncoding))
    } else {
        match minisign_public_key(decode_utf8(text)) {
            Ok(key) => Ok(key),
            Err(e) => Err(Error::Minisign(e)),
        }
    }
}

/// The signature that the text of a signature file holds. Its two parts
/// stand in base64 on the second and the fourth line; a line that breaks
/// off within its padding is an invalid encoding.
pub open spec fn signature_read(text: Seq<u8>) -> Result<minisign_verify::Signature, Error> {
    if lacks_padding(text, 1) || lacks_padding(text, 3) {
        Err(Error::Minisign(SignatureError::InvalidEncoding))
    } else {
        match minisign_signature(decode_utf8(text)) {
            Ok(signature) => Ok(signature),
            Err(e) => Err(Error::Minisign(e)),
        }
    }
}

/// Whether an archive verifies, or the first reason why it does not.
///
/// The public key is decoded and read first, then the signature, then the
/// archive must have been readable, and then the signature is verified
/// against the key.
pub open spec fn signature_verdict(
    archive: Result<Seq<u8>, String>,
    release_signature: Seq<char>,
    pub_key: Seq<char>,
) -> Result<(), Error> {
    match decoded_bytes(pub_key) {
        Err(e) => Err(e),
        Ok(key_text) => match public_key_read(key_text) {
            Err(e) => Err(e),
            Ok(key) => match decoded_bytes(release_signature) {
                Err(e) => Err(e),
                Ok(signature_text) => match signature_read(signature_text) {
                    Err(e) => Err(e),
                    Ok(signature) => match archive {
                        Err(cause) => Err(Error::Io(cause)),
                        Ok(data) => match minisign_verified(key, data, signature) {
                            Err(e) => Err(Error::Minisign(e)),
                            Ok(()) => Ok(()),
                        },
                    },
                },
            },
        },
    }
}

/// Decodes a base64 text that encodes a text, and leaves the text in
/// bytes.
fn base64_to_bytes(base64_string: &str) -> (r: Result<Vec<u8>, Error>)
    ensures
        match (r, decoded_bytes(base64_string@)) {
            (Ok(bytes), Ok(expected)) => bytes@ == expected,
            (Err(e), Err(expected)) => e == expected,
            _ => false,
        },
{
    let decoded = match base64_decode(base64_string) {
        Ok(bytes) => bytes,
        Err(e) => {
            return Err(Error::Base64(e));
        },
    };
    match from_utf8(decoded.as_slice()) {
        Some(_) => Ok(decoded),
        None => Err(Error::Utf8),
    }
}

/// Reads the public key that the text of a key file holds.
fn read_public_key(text: &Vec<u8>) -> (r: Result<minisign_verify::PublicKey, Error>)
    requires
        valid_utf8(text@),
    ensures
        r == public_key_read(text@),
{
    if line_lacks_padding(text.as_slice(), 1) {
        return Err(Error::Minisign(SignatureError::InvalidEncoding));
    }
    match from_utf8(text.as_slice()) {
        Some(key_text) => {
            proof {
                encode_utf8_decode_utf8(key_text@);
            }
            match decode_public_key(key_text) {
                Ok(key) => Ok(key),
                Err(e) => Err(Error::Minisign(e)),
            }
        },
        None => Err(Error::Utf8),
    }
}

/// Reads the signature that the text of a signature file holds.
fn read_signature(text: &Vec<u8>) -> (r: Result<minisign_verify::Signature, Error>)
    requires
        valid_utf8(text@),
    ensures
        r == signature_read(text@),
{
    if line_lacks_padding(text.as_slice(), 1) || line_lacks_padding(text.as_slice(), 3) {
        return Err(Error::Minisign(SignatureError::InvalidEncoding));
    }
    match from_utf8(text.as_slice()) {
        Some(signature_text) => {
            proof {
                encode_utf8_decode_utf8(signature_text@);
            }
            match decode_signature(signature_text) {
                Ok(signature) => Ok(signature),
                Err(e) => Err(Error::Minisign(e)),
            }
        },
        None => Err(Error::Utf8),
    }
}

/// The bytes of an archive that was read.
pub open spec fn archive_view(archive: Result<Vec<u8>, String>) -> Result<Seq<u8>, String> {
    match archive {
        Ok(data) => Ok(data@),
        Err(cause) => Err(cause),
    }
}

/// Verifies the archive of a release against its announced signature and
/// the public key of the application, both base64 texts of Minisign files.
///
/// `archive` is the outcome of reading the archive: its bytes, or why it
/// could not be read. The answer is `Ok(true)` exactly when key and
/// signature decode, the archive was read and the signature verifies;
/// otherwise it is the first failure, in that order.
pub fn verify_signature(
    archive: Result<Vec<u8>, String>,
    release_signature: String,
    pub_key: &str,
) -> (r: Result<bool, Error>)
    ensures
        match signature_verdict(archive_view(archive), release_signature@, pub_key@) {
            Ok(()) => r == Ok::<bool, Error>(true),
            Err(e) => r == Err::<bool, Error>(e),
        },
{
    let key_text = match base64_to_bytes(pub_key) {
        Ok(text) => text,
        Err(e) => {
            return Err(e);
        },
    };
    let public_key = match read_public_key(&key_text) {
        Ok(key) => key,
        Err(e) => {
            return Err(e);
        },
    };
    let signature_text = match base64_to_bytes(release_signature.as_str()) {
        Ok(text) => text,
        Err(e) => {
            return Err(e);
        },
    };
    let signature = match read_signature(&signature_text) {
        Ok(signature) => signature,
        Err(e) => {
            return Err(e);
        },
    };
    let data = match archive {
        Ok(data) => data,
        Err(cause) => {
            return Err(Error::Io(cause));
        },
    };
    match verify_with_key(&public_key, data.as_slice(), &signature) {
        Ok(()) => Ok(true),
        Err(e) => Err(Error::Minisign(e)),
    }
}

} // verus!
