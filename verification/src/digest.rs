//! Digests and their hexadecimal form.

use vstd::prelude::*;

use crate::text::string_of;

verus! {

/// The BLAKE3 hash of bytes.
pub uninterp spec fn blake3_hash(bytes: Seq<u8>) -> Seq<u8>;

/// The BLAKE3 keyed hash of bytes.
pub uninterp spec fn blake3_keyed(key: Seq<u8>, bytes: Seq<u8>) -> Seq<u8>;

/// The key that BLAKE3 derives from key material in a context.
pub uninterp spec fn blake3_derived(context: Seq<char>, material: Seq<u8>) -> Seq<u8>;

/// `blake3::hash`: a digest of 32 bytes that depends on the input alone.
#[verifier::external_body]
pub(crate) fn hash(bytes: &[u8]) -> (result: Vec<u8>)
    ensures
        result@ == blake3_hash(bytes@),
        result@.len() == 32,
{
    blake3::hash(bytes).as_bytes().to_vec()
}

/// `blake3::keyed_hash`: a digest of 32 bytes that depends on the key and the input alone.
#[verifier::external_body]
pub(crate) fn keyed_hash(key: &[u8; 32], bytes: &[u8]) -> (result: Vec<u8>)
    ensures
        result@ == blake3_keyed(key@, bytes@),
        result@.len() == 32,
{
    blake3::keyed_hash(key, bytes).as_bytes().to_vec()
}

/// `blake3::derive_key`: a key of 32 bytes that depends on the context and the material alone.
#[verifier::external_body]
pub(crate) fn derive_key(context: &str, material: &[u8]) -> (result: [u8; 32])
    ensures
        result@ == blake3_derived(context@, material@),
{
    blake3::derive_key(context, material)
}

/// `getrandom::fill`: random bytes, or an error of the system. Which bytes they are depends on
/// chance.
#[verifier::external_body]
pub(crate) fn random_bytes(count: usize) -> (result: Result<Vec<u8>, String>)
    requires
        count <= 64,
    ensures
        result matches Ok(bytes) ==> bytes@.len() == count,
{
    let mut bytes = vec![0u8; count];
    getrandom::fill(&mut bytes).map_err(|error| error.to_string())?;
    Ok(bytes)
}

/// The number that the first eight bytes spell, the least significant byte first.
pub open spec fn first_number(bytes: Seq<u8>) -> nat {
    (bytes[0] as nat + 0x100 * bytes[1] as nat + 0x1_0000 * bytes[2] as nat + 0x100_0000
        * bytes[3] as nat + 0x1_0000_0000 * bytes[4] as nat + 0x100_0000_0000 * bytes[5] as nat
        + 0x1_0000_0000_0000 * bytes[6] as nat + 0x100_0000_0000_0000 * bytes[7] as nat)
}

pub fn first_u64(bytes: &[u8]) -> (result: u64)
    requires
        bytes@.len() >= 8,
    ensures
        result == first_number(bytes@),
{
    bytes[0] as u64 + 0x100 * bytes[1] as u64 + 0x1_0000 * bytes[2] as u64 + 0x100_0000
        * bytes[3] as u64 + 0x1_0000_0000 * bytes[4] as u64 + 0x100_0000_0000 * bytes[5] as u64
        + 0x1_0000_0000_0000 * bytes[6] as u64 + 0x100_0000_0000_0000 * bytes[7] as u64
}

/// The hexadecimal digit of a value below 16.
pub open spec fn hex_digit(n: u8) -> char {
    if n < 10 {
        (48 + n) as u8 as char
    } else {
        (87 + n) as u8 as char
    }
}

/// Two lower case hexadecimal digits for each byte.
pub open spec fn hex(bytes: Seq<u8>) -> Seq<char> {
    Seq::new(
        bytes.len() * 2,
        |i: int|
            if i % 2 == 0 {
                hex_digit(bytes[i / 2] / 16)
            } else {
                hex_digit(bytes[i / 2] % 16)
            },
    )
}

fn digit_of(n: u8) -> (result: char)
    requires
        n < 16,
    ensures
        result == hex_digit(n),
{
    if n < 10 {
        (48 + n) as char
    } else {
        (87 + n) as char
    }
}

pub fn hex_text(bytes: &[u8]) -> (result: String)
    ensures
        result@ == hex(bytes@),
{
    let mut chars: Vec<char> = Vec::new();
    let mut i: usize = 0;
    while i < bytes.len()
        invariant
            i <= bytes@.len(),
            chars@.len() == 2 * i,
            forall|j: int| 0 <= j < chars@.len() ==> #[trigger] chars@[j] == hex(bytes@)[j],
        decreases bytes@.len() - i,
    {
        let byte: u8 = bytes[i];
        chars.push(digit_of(byte / 16));
        chars.push(digit_of(byte % 16));
        i += 1;
    }
    assert(chars@ =~= hex(bytes@));
    string_of(&chars)
}

/// The text of bytes that were drawn: their hexadecimal form, or the error of the draw.
pub fn drawn_text(drawn: Result<Vec<u8>, String>) -> (result: Result<String, String>)
    ensures
        match drawn {
            Ok(bytes) => result matches Ok(text) && text@ == hex(bytes@),
            Err(error) => result == Err::<String, String>(error),
        },
{
    match drawn {
        Ok(bytes) => Ok(hex_text(&bytes)),
        Err(error) => Err(error),
    }
}

/// The value of a hexadecimal digit of either case.
pub open spec fn hex_value(c: char) -> Option<u8> {
    if '0' <= c && c <= '9' {
        Some((c as u32 - 48) as u8)
    } else if 'a' <= c && c <= 'f' {
        Some((c as u32 - 87) as u8)
    } else if 'A' <= c && c <= 'F' {
        Some((c as u32 - 55) as u8)
    } else {
        None
    }
}

fn value_of(c: char) -> (result: Option<u8>)
    ensures
        result == hex_value(c),
        result matches Some(value) ==> value < 16,
{
    let code: u32 = c as u32;
    if '0' <= c && c <= '9' {
        Some((code - 48) as u8)
    } else if 'a' <= c && c <= 'f' {
        Some((code - 87) as u8)
    } else if 'A' <= c && c <= 'F' {
        Some((code - 55) as u8)
    } else {
        None
    }
}

/// The text is the hexadecimal form of `bytes`, in either case.
pub open spec fn is_hex_of(s: Seq<char>, bytes: Seq<u8>) -> bool {
    s.len() == bytes.len() * 2 && forall|i: int|
        0 <= i < bytes.len() ==> hex_value(s[2 * i]) == Some((#[trigger] bytes[i] / 16) as u8)
            && hex_value(s[2 * i + 1]) == Some((bytes[i] % 16) as u8)
}

/// Reads the hexadecimal form of exactly `count` bytes.
pub fn parse_hex(chars: &[char], count: usize) -> (result: Option<Vec<u8>>)
    ensures
        match result {
            Some(bytes) => bytes@.len() == count && is_hex_of(chars@, bytes@),
            None => forall|bytes: Seq<u8>| bytes.len() == count ==> !is_hex_of(chars@, bytes),
        },
{
    if chars.len() % 2 != 0 || chars.len() / 2 != count {
        return None;
    }
    let mut bytes: Vec<u8> = Vec::new();
    let mut i: usize = 0;
    while i < count
        invariant
            i <= count,
            chars@.len() == count * 2,
            chars@.len() <= usize::MAX,
            bytes@.len() == i,
            forall|j: int|
                0 <= j < i ==> hex_value(chars@[2 * j]) == Some((#[trigger] bytes@[j] / 16) as u8)
                    && hex_value(chars@[2 * j + 1]) == Some((bytes@[j] % 16) as u8),
        decreases count - i,
    {
        let high = value_of(chars[2 * i]);
        let low = value_of(chars[2 * i + 1]);
        match (high, low) {
            (Some(high), Some(low)) => {
                let byte: u8 = high * 16 + low;
                assert(byte / 16 == high && byte % 16 == low);
                bytes.push(byte);
            },
            _ => {
                assert forall|other: Seq<u8>| other.len() == count implies !is_hex_of(
                    chars@,
                    other,
                ) by {
                    if is_hex_of(chars@, other) {
                        assert(other[i as int] / 16 <= 255);
                        assert(hex_value(chars@[2 * i as int]) is Some);
                    }
                }
                return None;
            },
        }
        i += 1;
    }
    Some(bytes)
}

proof fn hex_digit_value(n: u8)
    requires
        n < 16,
    ensures
        hex_value(hex_digit(n)) == Some(n),
{
}

/// Reading the written form of bytes gives the bytes back.
pub proof fn hex_round_trip(bytes: Seq<u8>)
    ensures
        is_hex_of(hex(bytes), bytes),
{
    assert forall|i: int| 0 <= i < bytes.len() implies hex_value(hex(bytes)[2 * i]) == Some(
        (#[trigger] bytes[i] / 16) as u8,
    ) && hex_value(hex(bytes)[2 * i + 1]) == Some((bytes[i] % 16) as u8) by {
        hex_digit_value(bytes[i] / 16);
        hex_digit_value(bytes[i] % 16);
        assert((2 * i) / 2 == i && (2 * i + 1) / 2 == i);
    }
}

/// A text is the hexadecimal form of at most one sequence of bytes.
pub proof fn hex_reads_one_way(s: Seq<char>, a: Seq<u8>, b: Seq<u8>)
    requires
        is_hex_of(s, a),
        is_hex_of(s, b),
    ensures
        a == b,
{
    assert forall|i: int| 0 <= i < a.len() implies #[trigger] a[i] == b[i] by {
        assert(a[i] / 16 == b[i] / 16);
        assert(a[i] % 16 == b[i] % 16);
    }
    assert(a =~= b);
}

} // verus!
