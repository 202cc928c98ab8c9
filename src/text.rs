//! Text helpers: hexadecimal digits and UUID text, and the calls into the
//! URL, form-encoding, UUID and randomness crates that the logic relies on.

use vstd::prelude::*;
use vstd::string::StrSliceExecFns;

verus! {

/// The text of the URL parsed from `url` after its path is set to `path`;
/// `None` where `url` does not parse.
pub uninterp spec fn url_with_path(url: Seq<char>, path: Seq<char>) -> Option<Seq<char>>;

/// The text of the URL parsed from `url` after its query is set to `query`;
/// `None` where `url` does not parse.
pub uninterp spec fn url_with_query(url: Seq<char>, query: Seq<char>) -> Option<Seq<char>>;

/// The most characters that the parts of a URL may hold together. The URL
/// crate panics once a URL's text passes `u32::MAX` bytes; percent-encoding
/// turns a character into at most twelve bytes, so this bound stays below.
pub const MAX_URL_CHARS: usize = 0x1000_0000;

/// The uppercase hexadecimal digit of a value below sixteen.
pub open spec fn upper_hex_digit(n: u8) -> char {
    if n < 10 {
        ((n + 48) as u8) as char
    } else {
        ((n + 55) as u8) as char
    }
}

/// One byte in `application/x-www-form-urlencoded` form: ASCII letters,
/// digits and `*-._` stay, a space becomes `+`, any other byte `%XX`.
pub open spec fn form_byte(b: u8) -> Seq<char> {
    if (0x30 <= b <= 0x39) || (0x41 <= b <= 0x5a) || (0x61 <= b <= 0x7a) || b == 0x2a || b == 0x2d
        || b == 0x2e || b == 0x5f {
        seq![b as char]
    } else if b == 0x20 {
        seq!['+']
    } else {
        seq!['%', upper_hex_digit(b / 16), upper_hex_digit(b % 16)]
    }
}

/// Bytes in `application/x-www-form-urlencoded` form.
pub open spec fn form_bytes(bytes: Seq<u8>) -> Seq<char>
    decreases bytes.len(),
{
    if bytes.len() == 0 {
        Seq::empty()
    } else {
        form_bytes(bytes.drop_last()) + form_byte(bytes.last())
    }
}

/// One pair: its name's UTF-8 bytes encoded, `=`, its value's likewise.
pub open spec fn form_pair(p: (Seq<char>, Seq<char>)) -> Seq<char> {
    form_bytes(vstd::utf8::encode_utf8(p.0)) + seq!['='] + form_bytes(vstd::utf8::encode_utf8(p.1))
}

/// The `application/x-www-form-urlencoded` text of a sequence of pairs: the
/// pairs encoded and joined by `&`.
pub open spec fn form_text(pairs: Seq<(Seq<char>, Seq<char>)>) -> Seq<char>
    decreases pairs.len(),
{
    if pairs.len() == 0 {
        Seq::empty()
    } else if pairs.len() == 1 {
        form_pair(pairs[0])
    } else {
        form_text(pairs.drop_last()) + seq!['&'] + form_pair(pairs.last())
    }
}

/// The text of a byte sequence, with invalid UTF-8 replaced.
pub uninterp spec fn utf8_lossy(bytes: Seq<u8>) -> Seq<char>;

/// The lowercase hexadecimal digit of a value below sixteen.
pub open spec fn hex_digit(n: u8) -> char {
    if n < 10 {
        ((n + 48) as u8) as char
    } else {
        ((n + 87) as u8) as char
    }
}

/// The lowercase hexadecimal digit of a value below sixteen.
pub fn hex_char(n: u8) -> (r: char)
    requires
        n < 16,
    ensures
        r == hex_digit(n),
{
    if n < 10 {
        (n + 48) as char
    } else {
        (n + 87) as char
    }
}

/// Digit `j` of the 32 hexadecimal digits of `v`, from the most significant.
pub open spec fn nibble(v: u128, j: int) -> u8 {
    ((v >> ((4 * (31 - j)) as u128)) & 0xf) as u8
}

/// The 32 hexadecimal digits of `v`, zero-padded.
pub open spec fn hex32(v: u128) -> Seq<char> {
    Seq::new(32, |j: int| hex_digit(nibble(v, j)))
}

/// The 32 lowercase hexadecimal digits of `v`, zero-padded.
pub fn hex32_chars(v: u128) -> (r: Vec<char>)
    ensures
        r@ == hex32(v),
{
    let mut digits: Vec<char> = Vec::new();
    let mut j: u32 = 0;
    while j < 32
        invariant
            j <= 32,
            digits@.len() == j,
            forall|k: int| 0 <= k < j ==> digits@[k] == hex_digit(nibble(v, k)),
        decreases 32 - j,
    {
        let shift: u128 = (4 * (31 - j)) as u128;
        let n: u8 = ((v >> shift) & 0xf) as u8;
        assert(((v >> shift) & 0xf) < 16) by (bit_vector);
        digits.push(hex_char(n));
        j = j + 1;
    }
    assert(digits@ =~= hex32(v));
    digits
}

/// The hyphenated lowercase text of a UUID with the 128-bit value `v`.
pub open spec fn hyphenated(v: u128) -> Seq<char> {
    let h = hex32(v);
    h.subrange(0, 8) + seq!['-'] + h.subrange(8, 12) + seq!['-'] + h.subrange(12, 16) + seq!['-']
        + h.subrange(16, 20) + seq!['-'] + h.subrange(20, 32)
}

/// The value of a UUID read from text; `None` where the text is no UUID.
pub uninterp spec fn uuid_parsed(s: Seq<char>) -> Option<u128>;

/// Relies on the Display of uuid::Uuid built with from_u128: the hyphenated
/// lowercase hexadecimal text of the value.
#[verifier::external_body]
pub(crate) fn uuid_text(v: u128) -> (r: String)
    ensures
        r@ == hyphenated(v),
{
    uuid::Uuid::from_u128(v).to_string()
}

/// Relies on uuid::Uuid::parse_str and as_u128: the value depends on the
/// text alone.
#[verifier::external_body]
pub(crate) fn parse_uuid(s: &str) -> (r: Option<u128>)
    ensures
        r == uuid_parsed(s@),
{
    match uuid::Uuid::parse_str(s) {
        Ok(u) => Some(u.as_u128()),
        Err(_) => None,
    }
}

/// The value of bytes read in big-endian order.
pub open spec fn be_value(b: Seq<u8>) -> int
    decreases b.len(),
{
    if b.len() == 0 {
        0
    } else {
        be_value(b.drop_last()) * 256 + b.last() as int
    }
}

/// The random UUID made of sixteen random bytes: version 4 in the high
/// nibble of byte 6, the variant bits `10` at the top of byte 8.
pub open spec fn uuid_v4_value(b: Seq<u8>) -> int {
    be_value(b.update(6, (b[6] & 0x0f) | 0x40).update(8, (b[8] & 0x3f) | 0x80))
}

/// Relies on uuid::Builder::from_random_bytes and Uuid::as_u128: the bytes
/// with the version and variant bits set, read in big-endian order.
#[verifier::external_body]
pub(crate) fn uuid_v4_of(bytes: [u8; 16]) -> (r: u128)
    ensures
        r as int == uuid_v4_value(bytes@),
{
    uuid::Builder::from_random_bytes(bytes).into_uuid().as_u128()
}

/// Relies on getrandom::getrandom: `n` bytes from the system's source of
/// randomness, `None` where it fails. Nothing is promised of the bytes.
#[verifier::external_body]
pub(crate) fn random_bytes(n: usize) -> (r: Option<Vec<u8>>)
    ensures
        r matches Some(v) ==> v@.len() == n,
{
    let mut b = vec![0u8; n];
    match getrandom::getrandom(&mut b) {
        Ok(()) => Some(b),
        Err(_) => None,
    }
}

/// A new random UUID; `None` where the system's randomness fails.
pub fn random_uuid() -> (r: Option<u128>)
    ensures
        r matches Some(v) ==> exists|b: Seq<u8>| b.len() == 16 && v as int == uuid_v4_value(b),
{
    let v = random_bytes(16)?;
    let b: [u8; 16] = [
        v[0], v[1], v[2], v[3], v[4], v[5], v[6], v[7], v[8], v[9], v[10], v[11], v[12], v[13],
        v[14], v[15],
    ];
    let u = uuid_v4_of(b);
    assert(b@.len() == 16);
    Some(u)
}

/// The two lowercase hexadecimal digits of each byte, in order.
pub open spec fn hex_of(bytes: Seq<u8>) -> Seq<char> {
    Seq::new(
        2 * bytes.len(),
        |i: int|
            if i % 2 == 0 {
                hex_digit(bytes[i / 2] / 16)
            } else {
                hex_digit(bytes[i / 2] % 16)
            },
    )
}

/// The two lowercase hexadecimal digits of each byte, in order.
pub fn hex_chars(bytes: &[u8]) -> (r: Vec<char>)
    ensures
        r@ == hex_of(bytes@),
{
    let mut out: Vec<char> = Vec::new();
    let mut i: usize = 0;
    while i < bytes.len()
        invariant
            i <= bytes@.len(),
            out@.len() == 2 * i,
            forall|k: int| 0 <= k < 2 * i ==> out@[k] == hex_of(bytes@)[k],
        decreases bytes@.len() - i,
    {
        let b = bytes[i];
        out.push(hex_char(b / 16));
        out.push(hex_char(b % 16));
        i = i + 1;
    }
    assert(out@ =~= hex_of(bytes@));
    out
}

/// The views of a sequence of string pairs.
pub open spec fn pair_views(pairs: Seq<(String, String)>) -> Seq<(Seq<char>, Seq<char>)> {
    pairs.map_values(|p: (String, String)| (p.0@, p.1@))
}

/// `p` occurs in `s` starting at index `i`.
pub open spec fn occurs_at(s: Seq<char>, p: Seq<char>, i: int) -> bool {
    0 <= i && i + p.len() <= s.len() && s.subrange(i, i + p.len()) == p
}

/// Relies on url::Url::parse and url::Url::set_path: the text of the result
/// depends on the two texts alone.
#[verifier::external_body]
pub(crate) fn url_set_path(url: &str, path: &str) -> (r: Option<String>)
    requires
        url@.len() + path@.len() <= MAX_URL_CHARS,
    ensures
        r matches Some(s) ==> url_with_path(url@, path@) == Some(s@),
        r is None ==> url_with_path(url@, path@) is None,
{
    match url::Url::parse(url) {
        Ok(mut u) => {
            u.set_path(path);
            Some(u.to_string())
        },
        Err(_) => None,
    }
}

/// Relies on url::Url::parse and url::Url::set_query: the text of the
/// result depends on the two texts alone.
#[verifier::external_body]
pub(crate) fn url_set_query(url: &str, query: &str) -> (r: Option<String>)
    requires
        url@.len() + query@.len() <= MAX_URL_CHARS,
    ensures
        r matches Some(s) ==> url_with_query(url@, query@) == Some(s@),
        r is None ==> url_with_query(url@, query@) is None,
{
    match url::Url::parse(url) {
        Ok(mut u) => {
            u.set_query(Some(query));
            Some(u.to_string())
        },
        Err(_) => None,
    }
}

/// The two texts hold at most `MAX_URL_CHARS` characters together.
pub fn fits_url(a: &str, b: &str) -> (r: bool)
    ensures
        r == (a@.len() + b@.len() <= MAX_URL_CHARS),
{
    let n = a.unicode_len();
    let m = b.unicode_len();
    n <= MAX_URL_CHARS && m <= MAX_URL_CHARS - n
}

/// Relies on serde_urlencoded::to_string over a sequence of string pairs,
/// which appends each pair through form_urlencoded's append_pair and never
/// fails on strings.
#[verifier::external_body]
pub(crate) fn form_encode(pairs: &Vec<(String, String)>) -> (r: Option<String>)
    ensures
        r is Some,
        r matches Some(s) ==> s@ == form_text(pair_views(pairs@)),
{
    serde_urlencoded::to_string(pairs).ok()
}

/// Relies on String::from_utf8_lossy: valid UTF-8 is decoded unchanged.
#[verifier::external_body]
pub(crate) fn lossy_text(bytes: &[u8]) -> (r: String)
    ensures
        r@ == utf8_lossy(bytes@),
        vstd::utf8::valid_utf8(bytes@) ==> r@ == vstd::utf8::decode_utf8(bytes@),
{
    String::from_utf8_lossy(bytes).into_owned()
}

/// Relies on str::replacen with a count of one: the first occurrence of
/// `from` is replaced by `to`.
#[verifier::external_body]
pub(crate) fn replace_first(s: &str, from: &str, to: &str) -> (r: String)
    ensures
        occurs_at(s@, from@, 0) ==> r@ == to@ + s@.subrange(from@.len() as int, s@.len() as int),
        (forall|i: int| !occurs_at(s@, from@, i)) ==> r@ == s@,
{
    s.replacen(from, to, 1)
}

/// Relies on collecting characters into a String: the text is the characters.
#[verifier::external_body]
pub(crate) fn string_of_chars(chars: &Vec<char>) -> (r: String)
    ensures
        r@ == chars@,
{
    chars.iter().collect()
}

} // verus!
