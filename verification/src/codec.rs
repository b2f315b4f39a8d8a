//! How keys are spelled, and where chance comes in: the calls that this crate leaves to others.

use vstd::prelude::*;

verus! {

/// The lower-case hexadecimal digit that stands for `d`.
pub open spec fn hex_digit(d: int) -> char {
    if d < 10 {
        (d + 48) as char
    } else {
        (d + 87) as char
    }
}

/// `bytes` as lower-case hexadecimal digits, the high half of each byte first.
pub open spec fn hex_text(bytes: Seq<u8>) -> Seq<char> {
    Seq::new(
        bytes.len() * 2,
        |i: int|
            if i % 2 == 0 {
                hex_digit(bytes[i / 2] as int / 16)
            } else {
                hex_digit(bytes[i / 2] as int % 16)
            },
    )
}

/// `hex::encode`: two lower-case digits for each byte, the high half first. Values so long that
/// their digits might not fit the memory of a small machine are left out.
#[verifier::external_body]
pub(crate) fn hex_encode(bytes: &[u8]) -> (r: String)
    requires
        bytes@.len() <= 0x1000_0000,
    ensures
        r@ == hex_text(bytes@),
{
    hex::encode(bytes)
}

/// The character that stands for six bits in standard base64.
pub open spec fn sextet_char(v: int) -> char {
    if v < 26 {
        (v + 65) as char
    } else if v < 52 {
        (v + 71) as char
    } else if v < 62 {
        (v - 4) as char
    } else if v == 62 {
        '+'
    } else {
        '/'
    }
}

/// The byte at `k`; zero behind the last.
pub open spec fn byte_or_zero(bytes: Seq<u8>, k: int) -> int {
    if k < bytes.len() {
        bytes[k] as int
    } else {
        0
    }
}

/// Character `j` of the four that stand for the three bytes of group `g`: six bits each, from the
/// front, with padding for a byte that is not there.
pub open spec fn group_char(bytes: Seq<u8>, g: int, j: int) -> char {
    let (x, y, z) = (
        byte_or_zero(bytes, 3 * g),
        byte_or_zero(bytes, 3 * g + 1),
        byte_or_zero(bytes, 3 * g + 2),
    );
    if j == 0 {
        sextet_char(x / 4)
    } else if j == 1 {
        sextet_char(x % 4 * 16 + y / 16)
    } else if j == 2 {
        if 3 * g + 1 < bytes.len() {
            sextet_char(y % 16 * 4 + z / 64)
        } else {
            '='
        }
    } else if 3 * g + 2 < bytes.len() {
        sextet_char(z % 64)
    } else {
        '='
    }
}

/// The padded standard base64 spelling of `bytes`.
pub open spec fn base64_text(bytes: Seq<u8>) -> Seq<char> {
    Seq::new(
        ((bytes.len() + 2) / 3 * 4) as nat,
        |i: int| group_char(bytes, i / 4, i % 4),
    )
}

#[verifier::external_type_specification]
#[verifier::external_body]
pub struct ExDecodeError(base64::DecodeError);

/// A text that is no base64, with what is wrong with it.
#[derive(Debug)]
pub struct NotBase64(pub base64::DecodeError);

/// `base64::engine::general_purpose::STANDARD.decode`: bytes whose padded spelling is the text, or an
/// error where the text is the padded spelling of none.
#[verifier::external_body]
fn standard_decode(text: &str) -> (r: Result<Vec<u8>, base64::DecodeError>)
    ensures
        match r {
            Ok(bytes) => base64_text(bytes@) == text@,
            Err(_) => forall|b: Seq<u8>| #[trigger] base64_text(b) != text@,
        },
{
    base64::Engine::decode(&base64::engine::general_purpose::STANDARD, text)
}

/// `base64::engine::general_purpose::STANDARD.encode`: the padded spelling. Longer values than a
/// sixteenth of the address space of a small machine are left out, so that the spelling always fits.
#[verifier::external_body]
fn standard_encode(bytes: &[u8]) -> (r: String)
    requires
        bytes@.len() <= 0x1000_0000,
    ensures
        r@ == base64_text(bytes@),
{
    base64::Engine::encode(&base64::engine::general_purpose::STANDARD, bytes)
}

/// The bytes that `s` spells.
pub fn base64_decode(s: &str) -> (r: Result<Vec<u8>, NotBase64>)
    ensures
        match r {
            Ok(bytes) => base64_text(bytes@) == s@,
            Err(_) => forall|b: Seq<u8>| #[trigger] base64_text(b) != s@,
        },
{
    match standard_decode(s) {
        Ok(bytes) => Ok(bytes),
        Err(e) => Err(NotBase64(e)),
    }
}

/// The keys of a server: the one that clients write with, and the hashes of all four.
pub struct ApiKeySet {
    pub primary_rw: [u8; 32],
    pub primary_rw_hash: [u8; 32],
    pub secondary_rw_hash: [u8; 32],
    pub primary_ro_hash: [u8; 32],
    pub secondary_ro_hash: [u8; 32],
}

/// One entry of the key file: a name and the hash it stands for.
pub open spec fn key_line(name: Seq<char>, hash: Seq<u8>) -> Seq<char> {
    name + " = \""@ + hex_text(hash) + "\"\n"@
}

/// What a server's key file holds.
pub open spec fn key_file(keys: ApiKeySet) -> Seq<char> {
    "[keys]\n"@ + key_line("primary_rw"@, keys.primary_rw_hash@) + key_line(
        "secondary_rw"@,
        keys.secondary_rw_hash@,
    ) + key_line("primary_ro"@, keys.primary_ro_hash@) + key_line(
        "secondary_ro"@,
        keys.secondary_ro_hash@,
    )
}

fn push_key_line(out: &mut String, name: &str, hash: &[u8; 32])
    ensures
        final(out)@ == old(out)@ + key_line(name@, hash@),
{
    out.append(name);
    out.append(" = \"");
    let digits: String = hex_encode(hash.as_slice());
    out.append(digits.as_str());
    out.append("\"\n");
    assert(out@ =~= old(out)@ + key_line(name@, hash@));
}

/// What a server's key file holds: the hashes of the keys, and none of the keys themselves.
pub fn create_api_keys_file(keys: &ApiKeySet) -> (r: String)
    ensures
        r@ == key_file(*keys),
{
    let mut out: String = "[keys]\n".to_owned();
    push_key_line(&mut out, "primary_rw", &keys.primary_rw_hash);
    push_key_line(&mut out, "secondary_rw", &keys.secondary_rw_hash);
    push_key_line(&mut out, "primary_ro", &keys.primary_ro_hash);
    push_key_line(&mut out, "secondary_ro", &keys.secondary_ro_hash);
    out
}

/// The key that clients write with, as they show it.
pub fn api_key_text(keys: &ApiKeySet) -> (r: String)
    ensures
        r@ == base64_text(keys.primary_rw@),
{
    standard_encode(keys.primary_rw.as_slice())
}

proof fn lemma_sextets_differ(c: int, d: int)
    requires
        0 <= c < 64,
        0 <= d < 64,
        sextet_char(c) == sextet_char(d),
    ensures
        c == d,
        sextet_char(c) != '=',
{
    assert(sextet_char(c) as int == if c < 26 {
        c + 65
    } else if c < 52 {
        c + 71
    } else if c < 62 {
        c - 4
    } else if c == 62 {
        43
    } else {
        47
    });
    assert(sextet_char(d) as int == if d < 26 {
        d + 65
    } else if d < 52 {
        d + 71
    } else if d < 62 {
        d - 4
    } else if d == 62 {
        43
    } else {
        47
    });
}

/// Where one spelling is not longer than the other, its bytes are not fewer.
proof fn lemma_padding_tells_the_length(a: Seq<u8>, b: Seq<u8>)
    requires
        base64_text(a) == base64_text(b),
    ensures
        a.len() >= b.len(),
{
    if a.len() < b.len() {
        let g = (a.len() + 2) / 3 - 1;
        assert(base64_text(a).len() == (a.len() + 2) / 3 * 4);
        assert(base64_text(b).len() == (b.len() + 2) / 3 * 4);
        assert((a.len() + 2) / 3 == (b.len() + 2) / 3);
        let j = a.len() - 3 * g + 1;
        let i = 4 * g + j;
        assert(i / 4 == g && i % 4 == j);
        assert(base64_text(a)[i] == base64_text(b)[i]);
        assert(base64_text(a)[i] == group_char(a, g, j));
        assert(base64_text(b)[i] == group_char(b, g, j));
        let y = byte_or_zero(b, 3 * g + 1);
        let z = byte_or_zero(b, 3 * g + 2);
        let v = if j == 2 {
            y % 16 * 4 + z / 64
        } else {
            z % 64
        };
        lemma_sextets_differ(v, v);
    }
}

/// Two byte strings with the same base64 spelling are the same: what was spelled is read back.
pub proof fn base64_text_tells_the_bytes(a: Seq<u8>, b: Seq<u8>)
    requires
        base64_text(a) == base64_text(b),
    ensures
        a == b,
{
    lemma_padding_tells_the_length(a, b);
    lemma_padding_tells_the_length(b, a);
    assert forall|k: int| 0 <= k < a.len() implies a[k] == b[k] by {
        let g = k / 3;
        let (x, y, z) = (
            byte_or_zero(a, 3 * g),
            byte_or_zero(a, 3 * g + 1),
            byte_or_zero(a, 3 * g + 2),
        );
        let (u, v, w) = (
            byte_or_zero(b, 3 * g),
            byte_or_zero(b, 3 * g + 1),
            byte_or_zero(b, 3 * g + 2),
        );
        assert forall|j: int| 0 <= j < 4 implies #[trigger] group_char(a, g, j) == group_char(
            b,
            g,
            j,
        ) by {
            let i = 4 * g + j;
            assert(i / 4 == g && i % 4 == j);
            assert(base64_text(a).len() == (a.len() + 2) / 3 * 4);
            assert(base64_text(a)[i] == group_char(a, g, j));
            assert(base64_text(b)[i] == group_char(b, g, j));
        }
        assert(group_char(a, g, 0) == group_char(b, g, 0));
        assert(group_char(a, g, 1) == group_char(b, g, 1));
        lemma_sextets_differ(x / 4, u / 4);
        lemma_sextets_differ(x % 4 * 16 + y / 16, u % 4 * 16 + v / 16);
        assert(x == u && y / 16 == v / 16);
        if 3 * g + 1 < a.len() {
            assert(group_char(a, g, 2) == group_char(b, g, 2));
            lemma_sextets_differ(y % 16 * 4 + z / 64, v % 16 * 4 + w / 64);
            assert(y == v && z / 64 == w / 64);
        }
        if 3 * g + 2 < a.len() {
            assert(group_char(a, g, 3) == group_char(b, g, 3));
            lemma_sextets_differ(z % 64, w % 64);
            assert(z == w);
        }
        assert(k == 3 * g || k == 3 * g + 1 || k == 3 * g + 2);
    }
    assert(a =~= b);
}

/// Two sets with the same hashes have the same file: it says nothing of the key itself.
pub proof fn key_file_holds_hashes_only(a: ApiKeySet, b: ApiKeySet)
    requires
        a.primary_rw_hash@ == b.primary_rw_hash@,
        a.secondary_rw_hash@ == b.secondary_rw_hash@,
        a.primary_ro_hash@ == b.primary_ro_hash@,
        a.secondary_ro_hash@ == b.secondary_ro_hash@,
    ensures
        key_file(a) == key_file(b),
{
}

proof fn lemma_digits_differ(c: int, d: int)
    requires
        0 <= c < 16,
        0 <= d < 16,
        hex_digit(c) == hex_digit(d),
    ensures
        c == d,
{
    assert(hex_digit(c) as int == if c < 10 {
        c + 48
    } else {
        c + 87
    });
    assert(hex_digit(d) as int == if d < 10 {
        d + 48
    } else {
        d + 87
    });
}

/// Two byte strings with the same digits are the same.
pub proof fn hex_text_tells_the_bytes(a: Seq<u8>, b: Seq<u8>)
    requires
        hex_text(a) == hex_text(b),
    ensures
        a == b,
{
    assert(hex_text(a).len() == a.len() * 2);
    assert(hex_text(b).len() == b.len() * 2);
    assert forall|i: int| 0 <= i < a.len() implies a[i] == b[i] by {
        assert((2 * i) / 2 == i && (2 * i + 1) / 2 == i);
        assert((2 * i) % 2 == 0 && (2 * i + 1) % 2 == 1);
        assert(hex_text(a)[2 * i] == hex_text(b)[2 * i]);
        assert(hex_text(a)[2 * i + 1] == hex_text(b)[2 * i + 1]);
        assert(hex_text(a)[2 * i] == hex_digit(a[i] as int / 16));
        assert(hex_text(b)[2 * i] == hex_digit(b[i] as int / 16));
        assert(hex_text(a)[2 * i + 1] == hex_digit(a[i] as int % 16));
        assert(hex_text(b)[2 * i + 1] == hex_digit(b[i] as int % 16));
        lemma_digits_differ(a[i] as int / 16, b[i] as int / 16);
        lemma_digits_differ(a[i] as int % 16, b[i] as int % 16);
    }
    assert(a =~= b);
}

/// `rand::random`: any number at all.
#[verifier::external_body]
pub(crate) fn random_id() -> (r: u128)
{
    rand::random()
}

/// A text in lower case.
pub uninterp spec fn lowercased(text: Seq<char>) -> Seq<char>;

/// `str::to_lowercase`: the lower-case equivalent, which is told by the text alone.
#[verifier::external_body]
pub(crate) fn to_lower(text: &str) -> (r: String)
    ensures
        r@ == lowercased(text@),
{
    text.to_lowercase()
}

/// What `String::from_utf8_lossy` makes of bytes.
pub uninterp spec fn lossily_read(bytes: Seq<u8>) -> Seq<char>;

/// `String::from_utf8_lossy`: the text that the bytes spell, with a replacement character where they
/// spell none. It is told by the bytes alone.
#[verifier::external_body]
pub(crate) fn read_lossily(bytes: &Vec<u8>) -> (r: String)
    ensures
        r@ == lossily_read(bytes@),
{
    String::from_utf8_lossy(bytes).into_owned()
}

} // verus!
