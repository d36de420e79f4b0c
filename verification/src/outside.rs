//! What this crate takes from other crates and from `std` on trust: each item
//! names the function behind it and states what is believed of it.

use crate::text;
use vstd::prelude::*;
use vstd::utf8::{decode_utf8, valid_utf8};

verus! {

// ---- std -----------------------------------------------------------------

/// `String::push` appends one character.
pub assume_specification[ String::push ](s: &mut String, c: char)
    ensures
        final(s)@ == old(s)@.push(c),
;

/// The `Debug` form of a text: quoted, with escapes.
pub uninterp spec fn quoted_text(s: Seq<char>) -> Seq<char>;

/// `<str as Debug>::fmt`, through `format!`. The form is determined by the
/// text; nothing more is said of its escapes.
#[verifier::external_body]
pub(crate) fn quoted(s: &str) -> (r: String)
    ensures
        r@ == quoted_text(s@),
{
    format!("{:?}", s)
}

/// The text of a byte string in which bytes that are not UTF-8 are replaced.
pub uninterp spec fn lossy_text(bytes: Seq<u8>) -> Seq<char>;

/// `String::from_utf8_lossy`. The text is determined by the bytes, and is their
/// decoding where they are UTF-8; nothing more is said of the replacements.
#[verifier::external_body]
pub(crate) fn from_lossy(bytes: &[u8]) -> (r: String)
    ensures
        r@ == lossy_text(bytes@),
        valid_utf8(bytes@) ==> r@ == decode_utf8(bytes@),
{
    String::from_utf8_lossy(bytes).into_owned()
}

// ---- reqwest -------------------------------------------------------------

/// The text of an HTTP status: its number and its standard reason phrase.
pub uninterp spec fn status_text(code: u16) -> Seq<char>;

/// `reqwest::StatusCode::from_u16` and the `Display` form of what it returns.
/// The text is determined by the number, and a status is written as its number,
/// a space and its reason phrase. The table of reason phrases is not stated.
#[verifier::external_body]
pub(crate) fn status_name(code: u16) -> (r: String)
    ensures
        r@ == status_text(code),
        100 <= code <= 999 ==> (text::decimal(code as nat) + " "@).is_prefix_of(r@),
{
    match reqwest::StatusCode::from_u16(code) {
        Ok(status) => status.to_string(),
        Err(invalid) => invalid.to_string(),
    }
}

// ---- sha2 and hex --------------------------------------------------------

/// The SHA-256 hash of a byte string.
pub uninterp spec fn sha256_of(data: Seq<u8>) -> Seq<u8>;

/// `sha2::Sha256::digest`: 32 bytes, determined by the data.
#[verifier::external_body]
pub(crate) fn sha256(data: &[u8]) -> (r: Vec<u8>)
    requires
        data@.len() < 0x2000_0000_0000_0000,
    ensures
        r@ == sha256_of(data@),
        r@.len() == 32,
{
    <sha2::Sha256 as sha2::Digest>::digest(data).to_vec()
}

/// A `sha2::Sha256` that is being fed.
#[verifier::external_body]
pub struct Sha256Stream {
    inner: sha2::Sha256,
}

/// The bytes that a hasher has been fed so far.
pub uninterp spec fn fed(h: Sha256Stream) -> Seq<u8>;

/// `sha2::Sha256::new`: a hasher that has been fed nothing.
#[verifier::external_body]
pub(crate) fn stream_new() -> (r: Sha256Stream)
    ensures
        fed(r) == Seq::<u8>::empty(),
{
    Sha256Stream { inner: sha2::Digest::new() }
}

/// `sha2::Sha256::update`: feeds the hasher `data`. SHA-256 is defined below
/// 2^64 bits.
#[verifier::external_body]
pub(crate) fn stream_update(h: &mut Sha256Stream, data: &[u8])
    requires
        fed(*old(h)).len() + data@.len() < 0x2000_0000_0000_0000,
    ensures
        fed(*final(h)) == fed(*old(h)) + data@,
{
    sha2::Digest::update(&mut h.inner, data)
}

/// `sha2::Sha256::finalize`: the hash of everything that the hasher was fed,
/// the same as hashing it in one piece.
#[verifier::external_body]
pub(crate) fn stream_finish(h: Sha256Stream) -> (r: Vec<u8>)
    requires
        fed(h).len() < 0x2000_0000_0000_0000,
    ensures
        r@ == sha256_of(fed(h)),
        r@.len() == 32,
{
    sha2::Digest::finalize(h.inner).to_vec()
}

/// A hexadecimal digit, in lower case.
pub open spec fn hex_digit(n: int) -> char {
    if n < 10 {
        (48 + n) as char
    } else {
        (87 + n) as char
    }
}

/// Two hexadecimal digits for each byte, the high half first.
pub open spec fn hex_text(data: Seq<u8>) -> Seq<char> {
    Seq::new(
        2 * data.len(),
        |i: int|
            hex_digit(
                if i % 2 == 0 {
                    data[i / 2] as int / 16
                } else {
                    data[i / 2] as int % 16
                },
            ),
    )
}

/// `hex::encode`: lower-case hexadecimal.
#[verifier::external_body]
pub(crate) fn to_hex(data: &[u8]) -> (r: String)
    requires
        2 * data@.len() <= usize::MAX,
    ensures
        r@ == hex_text(data@),
{
    hex::encode(data)
}

// ---- serde_json ----------------------------------------------------------

/// The map that a list of entries stands for; a later entry wins.
pub open spec fn entries_map(l: Seq<(String, String)>) -> Map<Seq<char>, Seq<char>>
    decreases l.len(),
{
    if l.len() == 0 {
        Map::empty()
    } else {
        entries_map(l.drop_last()).insert(l.last().0@, l.last().1@)
    }
}

/// The JSON object that stands for a map of texts.
pub uninterp spec fn json_of(m: Map<Seq<char>, Seq<char>>) -> Seq<u8>;

/// The map of texts that a JSON text stands for, if it is one.
pub uninterp spec fn map_of_json(bytes: Seq<u8>) -> Option<Map<Seq<char>, Seq<char>>>;

/// `serde_json::to_vec` on a map of strings to strings, which cannot fail: the
/// bytes are determined by the map, since its keys come out in order; they read
/// back as that map, and hold no line feed (the writer is compact and escapes
/// control characters). The map is given by entries with distinct keys.
#[verifier::external_body]
pub(crate) fn to_json(entries: &Vec<(String, String)>) -> (r: Vec<u8>)
    requires
        forall|i: int, j: int|
            0 <= i < j < entries@.len() ==> #[trigger] entries@[i].0@ != #[trigger] entries@[j].0@,
    ensures
        r@ == json_of(entries_map(entries@)),
        map_of_json(r@) == Some(entries_map(entries@)),
        !r@.contains(10u8),
{
    let map: std::collections::BTreeMap<String, String> = entries.iter().cloned().collect();
    serde_json::to_vec(&map).unwrap()
}

/// `serde_json::from_slice` at a map of strings to strings: the entries of the
/// map, or nothing where the bytes are not such an object.
#[verifier::external_body]
pub(crate) fn from_json(bytes: &[u8]) -> (r: Option<Vec<(String, String)>>)
    ensures
        match r {
            Some(l) => map_of_json(bytes@) == Some(entries_map(l@)),
            None => map_of_json(bytes@) is None,
        },
{
    let parsed: Option<std::collections::BTreeMap<String, String>> = serde_json::from_slice(bytes).ok();
    parsed.map(|m| m.into_iter().collect())
}

} // verus!
