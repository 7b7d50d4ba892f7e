//! The format of an image that a user turn carries in base64: it is told by
//! the first bytes of the image.

use crate::error::PromptError;
use crate::text::to_chars;
use vstd::prelude::*;

verus! {

/// The six bits that a character of the base64 alphabet stands for.
pub open spec fn sextet_of(c: char) -> Option<u8> {
    let n = c as u32;
    if 0x41 <= n <= 0x5a {
        Some((n - 0x41) as u8)
    } else if 0x61 <= n <= 0x7a {
        Some((n - 0x61 + 26) as u8)
    } else if 0x30 <= n <= 0x39 {
        Some((n - 0x30 + 52) as u8)
    } else if n == 0x2b {
        Some(62u8)
    } else if n == 0x2f {
        Some(63u8)
    } else {
        None
    }
}

/// The six bits that a character of the base64 alphabet stands for.
fn sextet(c: char) -> (bits: Option<u8>)
    ensures
        bits == sextet_of(c),
        bits matches Some(b) ==> b < 64,
{
    let n: u32 = c as u32;
    if 0x41 <= n && n <= 0x5a {
        Some((n - 0x41) as u8)
    } else if 0x61 <= n && n <= 0x7a {
        Some((n - 0x61 + 26) as u8)
    } else if 0x30 <= n && n <= 0x39 {
        Some((n - 0x30 + 52) as u8)
    } else if n == 0x2b {
        Some(62u8)
    } else if n == 0x2f {
        Some(63u8)
    } else {
        None
    }
}

/// How many characters of an image are looked at: they hold its first
/// twelve bytes.
pub const SNIFFED: usize = 16;

/// The sextets of the characters of `text` before index `i`, as far as they
/// all belong to the base64 alphabet.
pub open spec fn sextets_before(text: Seq<char>, i: int) -> Seq<u8>
    decreases i,
{
    if i <= 0 || i > text.len() {
        seq![]
    } else {
        let before = sextets_before(text, i - 1);
        match sextet_of(text[i - 1]) {
            Some(bits) => if before.len() == i - 1 {
                before.push(bits)
            } else {
                before
            },
            None => before,
        }
    }
}

/// The sextets at the start of `text`: those of its first [`SNIFFED`]
/// characters, up to the first that is not of the base64 alphabet.
pub open spec fn leading_sextets(text: Seq<char>) -> Seq<u8> {
    sextets_before(
        text,
        if text.len() < SNIFFED {
            text.len() as int
        } else {
            SNIFFED as int
        },
    )
}

/// The byte at index `i` of the bytes that the given sextets encode.
pub open spec fn byte_of(sextets: Seq<u8>, i: int) -> int {
    let q = i / 3 * 4;
    if i % 3 == 0 {
        sextets[q] * 4 + sextets[q + 1] / 16
    } else if i % 3 == 1 {
        sextets[q + 1] % 16 * 16 + sextets[q + 2] / 4
    } else {
        sextets[q + 2] % 4 * 64 + sextets[q + 3]
    }
}

/// The bytes that the given sextets encode in full.
pub open spec fn bytes_of(sextets: Seq<u8>) -> Seq<int> {
    Seq::new((sextets.len() * 3 / 4) as nat, |i: int| byte_of(sextets, i))
}

/// Whether `bytes` begin with `magic`.
pub open spec fn begins_with(bytes: Seq<int>, magic: Seq<int>) -> bool {
    magic.len() <= bytes.len() && bytes.subrange(0, magic.len() as int) == magic
}

/// The format of the image whose first bytes are `bytes`, by its magic
/// number: `png`, `jpeg`, `gif`, `bmp` or `webp`.
pub open spec fn format_of_bytes(bytes: Seq<int>) -> Option<Seq<char>> {
    if begins_with(bytes, seq![0x89, 0x50, 0x4e, 0x47, 0x0d, 0x0a, 0x1a, 0x0a]) {
        Some("png"@)
    } else if begins_with(bytes, seq![0xff, 0xd8, 0xff]) {
        Some("jpeg"@)
    } else if begins_with(bytes, seq![0x47, 0x49, 0x46, 0x38, 0x37, 0x61]) || begins_with(
        bytes,
        seq![0x47, 0x49, 0x46, 0x38, 0x39, 0x61],
    ) {
        Some("gif"@)
    } else if begins_with(bytes, seq![0x42, 0x4d]) {
        Some("bmp"@)
    } else if begins_with(bytes, seq![0x52, 0x49, 0x46, 0x46]) && bytes.len() >= 12
        && bytes.subrange(8, 12) == seq![0x57int, 0x45, 0x42, 0x50] {
        Some("webp"@)
    } else {
        None
    }
}

/// The format of the image that `text` holds in base64.
pub open spec fn image_format(text: Seq<char>) -> Option<Seq<char>> {
    format_of_bytes(bytes_of(leading_sextets(text)))
}

/// The first bytes of the image that `text` holds in base64.
fn leading_bytes(text: &Vec<char>) -> (bytes: Vec<u8>)
    ensures
        bytes@.map_values(|b: u8| b as int) == bytes_of(leading_sextets(text@)),
{
    let limit: usize = if text.len() < SNIFFED {
        text.len()
    } else {
        SNIFFED
    };
    let mut sextets: Vec<u8> = Vec::new();
    let mut i: usize = 0;
    let mut open: bool = true;
    while i < limit
        invariant
            i <= limit <= text.len(),
            sextets@ == sextets_before(text@, i as int),
            open == (sextets@.len() == i),
            sextets@.len() <= i,
            forall|k: int| 0 <= k < sextets@.len() ==> sextets@[k] < 64,
        decreases limit - i,
    {
        match sextet(text[i]) {
            Some(bits) => {
                if open {
                    sextets.push(bits);
                }
            },
            None => {
                open = false;
            },
        }
        i = i + 1;
    }
    let count: usize = sextets.len() * 3 / 4;
    let mut bytes: Vec<u8> = Vec::new();
    let mut j: usize = 0;
    while j < count
        invariant
            j <= count,
            count == sextets@.len() * 3 / 4,
            sextets@.len() <= SNIFFED,
            forall|k: int| 0 <= k < sextets@.len() ==> sextets@[k] < 64,
            bytes@.len() == j,
            forall|k: int| 0 <= k < j ==> bytes@[k] as int == byte_of(sextets@, k),
        decreases count - j,
    {
        let q: usize = j / 3 * 4;
        let byte: u8 = if j % 3 == 0 {
            sextets[q] * 4 + sextets[q + 1] / 16
        } else if j % 3 == 1 {
            sextets[q + 1] % 16 * 16 + sextets[q + 2] / 4
        } else {
            sextets[q + 2] % 4 * 64 + sextets[q + 3]
        };
        bytes.push(byte);
        j = j + 1;
    }
    bytes
}

/// Whether `bytes` hold `magic` from index `at` on.
fn holds_at(bytes: &Vec<u8>, at: usize, magic: &[u8]) -> (b: bool)
    requires
        at + magic@.len() <= usize::MAX,
    ensures
        b == (at + magic@.len() <= bytes@.len() && bytes@.map_values(|b: u8| b as int).subrange(
            at as int,
            at + magic@.len(),
        ) == magic@.map_values(|b: u8| b as int)),
{
    if magic.len() > bytes.len() || at > bytes.len() - magic.len() {
        return false;
    }
    let ghost have = bytes@.map_values(|b: u8| b as int).subrange(
        at as int,
        at + magic@.len(),
    );
    let ghost want = magic@.map_values(|b: u8| b as int);
    let mut i: usize = 0;
    while i < magic.len()
        invariant
            i <= magic@.len(),
            at + magic@.len() <= bytes@.len() <= usize::MAX,
            have == bytes@.map_values(|b: u8| b as int).subrange(at as int, at + magic@.len()),
            want == magic@.map_values(|b: u8| b as int),
            forall|k: int| 0 <= k < i ==> have[k] == want[k],
        decreases magic@.len() - i,
    {
        if bytes[at + i] != magic[i] {
            assert(have[i as int] != want[i as int]);
            return false;
        }
        i = i + 1;
    }
    assert(have =~= want);
    true
}

/// The format of the image that `base64_str` holds in base64, by the magic
/// number in its first bytes: `png`, `jpeg`, `gif`, `bmp` or `webp`. Any
/// other text is an error.
pub fn get_image_format(base64_str: &str) -> (r: Result<String, PromptError>)
    ensures
        match image_format(base64_str@) {
            Some(format) => r matches Ok(name) && name@ == format,
            None => r == Err::<String, PromptError>(PromptError::BadImageFormat),
        },
{
    let text = to_chars(base64_str);
    let bytes = leading_bytes(&text);
    let png: [u8; 8] = [0x89, 0x50, 0x4e, 0x47, 0x0d, 0x0a, 0x1a, 0x0a];
    let jpeg: [u8; 3] = [0xff, 0xd8, 0xff];
    let gif87: [u8; 6] = [0x47, 0x49, 0x46, 0x38, 0x37, 0x61];
    let gif89: [u8; 6] = [0x47, 0x49, 0x46, 0x38, 0x39, 0x61];
    let bmp: [u8; 2] = [0x42, 0x4d];
    let riff: [u8; 4] = [0x52, 0x49, 0x46, 0x46];
    let webp: [u8; 4] = [0x57, 0x45, 0x42, 0x50];
    assert(png@.map_values(|b: u8| b as int) =~= seq![
        0x89int,
        0x50,
        0x4e,
        0x47,
        0x0d,
        0x0a,
        0x1a,
        0x0a,
    ]);
    assert(jpeg@.map_values(|b: u8| b as int) =~= seq![0xffint, 0xd8, 0xff]);
    assert(gif87@.map_values(|b: u8| b as int) =~= seq![0x47int, 0x49, 0x46, 0x38, 0x37, 0x61]);
    assert(gif89@.map_values(|b: u8| b as int) =~= seq![0x47int, 0x49, 0x46, 0x38, 0x39, 0x61]);
    assert(bmp@.map_values(|b: u8| b as int) =~= seq![0x42int, 0x4d]);
    assert(riff@.map_values(|b: u8| b as int) =~= seq![0x52int, 0x49, 0x46, 0x46]);
    assert(webp@.map_values(|b: u8| b as int) =~= seq![0x57int, 0x45, 0x42, 0x50]);
    if holds_at(&bytes, 0, png.as_slice()) {
        Ok(String::from_str("png"))
    } else if holds_at(&bytes, 0, jpeg.as_slice()) {
        Ok(String::from_str("jpeg"))
    } else if holds_at(&bytes, 0, gif87.as_slice()) || holds_at(&bytes, 0, gif89.as_slice()) {
        Ok(String::from_str("gif"))
    } else if holds_at(&bytes, 0, bmp.as_slice()) {
        Ok(String::from_str("bmp"))
    } else if holds_at(&bytes, 0, riff.as_slice()) && holds_at(&bytes, 8, webp.as_slice()) {
        Ok(String::from_str("webp"))
    } else {
        Err(PromptError::BadImageFormat)
    }
}

} // verus!
