use vstd::prelude::*;
use vstd::string::StrSliceExecFns;
use vstd::utf8::{decode_utf8, encode_utf8, valid_utf8};

use base64::Engine;

use crate::game_types::Instruction;

verus! {

/// A message between the two players: the script one of them has planned.
#[derive(Debug)]
pub enum Packet {
    Moves(Vec<Instruction>),
}

/// Why a pasted host code could not be read.
#[derive(Clone, Copy, Debug, PartialEq, Eq, Structural)]
pub enum HostCodeError {
    /// The code is not standard padded base64.
    InvalidBase64,
    /// The decoded bytes are not UTF-8 text.
    InvalidUtf8,
}

#[verifier::external_type_specification]
#[verifier::external_body]
pub struct ExDecodeError(base64::DecodeError);

/// The text that the standard padded base64 engine of the `base64` crate
/// makes of `bytes`.
pub uninterp spec fn base64_standard_encoding(bytes: Seq<u8>) -> Seq<char>;

/// The bytes that the standard padded base64 engine of the `base64` crate
/// reads from `text`, or `None` where it reports an error.
pub uninterp spec fn base64_standard_decoding(text: Seq<char>) -> Option<Seq<u8>>;

/// Whether `c` has the Unicode `White_Space` property, by which
/// `char::is_whitespace` and `str::trim` decide what white space is.
pub open spec fn is_white_space(c: char) -> bool {
    let u = c as u32;
    ||| 0x09 <= u <= 0x0D
    ||| u == 0x20
    ||| u == 0x85
    ||| u == 0xA0
    ||| u == 0x1680
    ||| 0x2000 <= u <= 0x200A
    ||| u == 0x2028
    ||| u == 0x2029
    ||| u == 0x202F
    ||| u == 0x205F
    ||| u == 0x3000
}

/// Whether every character of `s` is white space.
pub open spec fn all_white_space(s: Seq<char>) -> bool {
    forall|i: int| 0 <= i < s.len() ==> is_white_space(#[trigger] s[i])
}

/// `s` without its leading white space.
pub open spec fn trim_start(s: Seq<char>) -> Seq<char>
    decreases s.len(),
{
    if s.len() > 0 && is_white_space(s[0]) {
        trim_start(s.drop_first())
    } else {
        s
    }
}

/// `s` without its trailing white space.
pub open spec fn trim_end(s: Seq<char>) -> Seq<char>
    decreases s.len(),
{
    if s.len() > 0 && is_white_space(s.last()) {
        trim_end(s.drop_last())
    } else {
        s
    }
}

/// `text` without its leading and trailing white space, as `str::trim` gives it.
pub open spec fn trimmed(text: Seq<char>) -> Seq<char> {
    trim_end(trim_start(text))
}

/// `base64::engine::general_purpose::STANDARD.encode`: the padded standard
/// base64 text of `bytes`, four characters for every three bytes or part of
/// three. The call fails where that length overflows `usize`, which
/// `requires` leaves out.
#[verifier::external_body]
fn base64_encode(bytes: &[u8]) -> (encoded: String)
    requires
        4 * ((bytes@.len() + 2) / 3) <= usize::MAX,
    ensures
        encoded@ == base64_standard_encoding(bytes@),
        encoded@.len() == 4 * ((bytes@.len() + 2) / 3),
{
    base64::engine::general_purpose::STANDARD.encode(bytes)
}

/// `base64::engine::general_purpose::STANDARD.decode`: the bytes that
/// `text` encodes, or the crate's error. Text produced by the same engine's
/// `encode` decodes to the bytes it was made from.
#[verifier::external_body]
fn base64_decode(text: &str) -> (decoded: Result<Vec<u8>, base64::DecodeError>)
    ensures
        (match decoded {
            Ok(v) => base64_standard_decoding(text@) == Some(v@),
            Err(_) => base64_standard_decoding(text@) is None,
        }),
        forall|b: Seq<u8>|
            text@ == #[trigger] base64_standard_encoding(b) ==> decoded is Ok && decoded->Ok_0@
                == b,
{
    base64::engine::general_purpose::STANDARD.decode(text)
}

/// `str::trim`: `text` with leading and trailing white space (the Unicode
/// `White_Space` characters) removed. Base64 text holds no white space, so
/// base64 text with white space around it trims to the base64 text alone.
#[verifier::external_body]
fn trim_str<'a>(text: &'a str) -> (t: &'a str)
    ensures
        t@ == trimmed(text@),
        forall|b: Seq<u8>, lead: Seq<char>, tail: Seq<char>|
            #![trigger lead + base64_standard_encoding(b) + tail]
            all_white_space(lead) && all_white_space(tail) && text@ == lead
                + base64_standard_encoding(b) + tail ==> t@ == base64_standard_encoding(b),
{
    text.trim()
}

/// `String::from_utf8`: the text that `bytes` encode when they are valid
/// UTF-8, else `None`.
#[verifier::external_body]
pub(crate) fn string_from_utf8(bytes: Vec<u8>) -> (s: Option<String>)
    ensures
        (match s {
            Some(t) => valid_utf8(bytes@) && t@ == decode_utf8(bytes@),
            None => !valid_utf8(bytes@),
        }),
{
    match String::from_utf8(bytes) {
        Ok(t) => Some(t),
        Err(_) => None,
    }
}

/// The host code that stands for `text`: its UTF-8 bytes in standard base64.
pub open spec fn host_code_for(text: Seq<char>) -> Seq<char> {
    base64_standard_encoding(encode_utf8(text))
}

/// What a pasted host code reads as: the trimmed code is decoded from base64,
/// and the bytes must be UTF-8 text.
pub open spec fn host_code_text(code: Seq<char>) -> Result<Seq<char>, HostCodeError> {
    match base64_standard_decoding(trimmed(code)) {
        None => Err(HostCodeError::InvalidBase64),
        Some(bytes) => if valid_utf8(bytes) {
            Ok(decode_utf8(bytes))
        } else {
            Err(HostCodeError::InvalidUtf8)
        },
    }
}

/// The code a host shows so that the other player can reach it: the host's
/// address text in standard base64.
pub fn encode_host_code(addr_json: &str) -> (code: String)
    requires
        4 * ((encode_utf8(addr_json@).len() + 2) / 3) <= usize::MAX,
    ensures
        code@ == host_code_for(addr_json@),
{
    base64_encode(addr_json.as_bytes())
}

/// The host-code text carried by the bytes decoded from a code: `None` (the
/// code was not base64) gives `InvalidBase64`; bytes that are not UTF-8 give
/// `InvalidUtf8`; otherwise the text they encode.
pub fn host_code_text_from_bytes(decoded: Option<Vec<u8>>) -> (text: Result<String, HostCodeError>)
    ensures
        (match decoded {
            None => text == Err::<String, HostCodeError>(HostCodeError::InvalidBase64),
            Some(bytes) => if valid_utf8(bytes@) {
                text matches Ok(t) && t@ == decode_utf8(bytes@)
            } else {
                text == Err::<String, HostCodeError>(HostCodeError::InvalidUtf8)
            },
        }),
{
    match decoded {
        None => Err(HostCodeError::InvalidBase64),
        Some(bytes) => match string_from_utf8(bytes) {
            Some(t) => Ok(t),
            None => Err(HostCodeError::InvalidUtf8),
        },
    }
}

/// Reads the address text back from a pasted host code; see
/// `host_code_text`. Any code made by `encode_host_code` reads back as the
/// text it was made from, also with white space around it (as a line read
/// from a terminal has), and so does any code that trims to such a code.
pub fn decode_host_code(code: &str) -> (text: Result<String, HostCodeError>)
    ensures
        (match text {
            Ok(t) => host_code_text(code@) == Ok::<Seq<char>, HostCodeError>(t@),
            Err(e) => host_code_text(code@) == Err::<Seq<char>, HostCodeError>(e),
        }),
        forall|source_text: Seq<char>|
            code@ == #[trigger] host_code_for(source_text) ==> (text matches Ok(t) && t@
                == source_text),
        forall|source_text: Seq<char>, lead: Seq<char>, tail: Seq<char>|
            #![trigger lead + host_code_for(source_text) + tail]
            all_white_space(lead) && all_white_space(tail) && code@ == lead + host_code_for(
                source_text,
            ) + tail ==> (text matches Ok(t) && t@ == source_text),
        forall|source_text: Seq<char>|
            trimmed(code@) == #[trigger] host_code_for(source_text) ==> (text matches Ok(t)
                && t@ == source_text),
{
    broadcast use vstd::utf8::encode_utf8_valid_utf8, vstd::utf8::encode_utf8_decode_utf8;

    let trimmed_code = trim_str(code);
    let decoded = match base64_decode(trimmed_code) {
        Ok(bytes) => Some(bytes),
        Err(_) => None,
    };
    proof {
        assert forall|source_text: Seq<char>, lead: Seq<char>, tail: Seq<char>|
            all_white_space(lead) && all_white_space(tail) && code@ == lead + host_code_for(
                source_text,
            ) + tail implies (decoded matches Some(b) && b@ == encode_utf8(source_text)) by {
            assert(trimmed_code@ == base64_standard_encoding(encode_utf8(source_text)));
        }
        assert forall|source_text: Seq<char>| code@ == #[trigger] host_code_for(source_text) implies (
        decoded matches Some(b) && b@ == encode_utf8(source_text)) by {
            let empty = Seq::<char>::empty();
            assert(code@ =~= empty + host_code_for(source_text) + empty);
            assert(all_white_space(empty));
        }
        assert forall|source_text: Seq<char>|
            trimmed(code@) == #[trigger] host_code_for(source_text) implies (decoded matches Some(
            b) && b@ == encode_utf8(source_text)) by {
            assert(trimmed_code@ == host_code_for(source_text));
        }
    }
    host_code_text_from_bytes(decoded)
}

/// Whether a trimmed answer chooses to host: it is the single letter `h` in
/// either case.
pub fn is_host_answer(answer: &str) -> (host: bool)
    ensures
        host == (answer@ == seq!['h'] || answer@ == seq!['H']),
{
    if answer.unicode_len() != 1 {
        return false;
    }
    let c = answer.get_char(0);
    let host = c == 'h' || c == 'H';
    proof {
        if c == 'h' {
            assert(answer@ =~= seq!['h']);
        }
        if c == 'H' {
            assert(answer@ =~= seq!['H']);
        }
    }
    host
}

/// Whether a typed answer chooses to host: after trimming it is the single
/// letter `h` in either case.
pub fn is_host_choice(input: &str) -> (host: bool)
    ensures
        host == (trimmed(input@) == seq!['h'] || trimmed(input@) == seq!['H']),
{
    is_host_answer(trim_str(input))
}

/// The player number of each side: the host plays as 0, the client as 1.
pub fn player_id_for(is_host: bool) -> (id: u8)
    ensures
        id == (if is_host {
            0u8
        } else {
            1u8
        }),
{
    if is_host {
        0
    } else {
        1
    }
}

} // verus!
