//! The digests with which user names and passwords are sent.

use vstd::prelude::*;
use vstd::string::*;

verus! {

/// What becomes of the last character of a digest.
///
/// Cameras always zero the last byte. Legacy login messages carry a 32-byte
/// buffer and so send that zero byte; modern ones carry XML, where the value
/// simply ends before it.
#[derive(Debug, Clone, Copy, PartialEq, Eq, Structural)]
pub enum Md5Trunc {
    /// The last character becomes a NUL character.
    ZeroLast,
    /// The last character is dropped.
    Truncate,
}

/// The MD5 digest of `data`, as the `md5` crate computes it.
pub uninterp spec fn md5_digest(data: Seq<u8>) -> Seq<u8>;

/// The upper-case hexadecimal digit for `n`, for `n` below 16.
pub open spec fn hex_digit(n: int) -> char {
    if n < 10 {
        (48 + n) as char
    } else {
        (55 + n) as char
    }
}

/// Two upper-case hexadecimal digits for each byte.
pub open spec fn upper_hex(bytes: Seq<u8>) -> Seq<char> {
    Seq::new(
        2 * bytes.len(),
        |i: int|
            if i % 2 == 0 {
                hex_digit(bytes[i / 2] as int / 16)
            } else {
                hex_digit(bytes[i / 2] as int % 16)
            },
    )
}

/// The first 31 of the 32 hexadecimal digits of a digest, and what `trunc`
/// puts in the place of the last one.
pub open spec fn mangled(digest: Seq<u8>, trunc: Md5Trunc) -> Seq<char> {
    upper_hex(digest).take(31) + match trunc {
        Md5Trunc::ZeroLast => seq!['\0'],
        Md5Trunc::Truncate => seq![],
    }
}

/// Calls `md5::compute`. Its result is named and not described further: it is
/// the MD5 digest of the bytes, sixteen bytes long.
#[verifier::external_body]
fn md5_compute(data: &[u8]) -> (digest: [u8; 16])
    ensures
        digest@ == md5_digest(data@),
{
    md5::compute(data).0
}

/// Formats a digest through the `UpperHex` impl of `md5::Digest`, which writes
/// each byte as two upper-case hexadecimal digits.
#[verifier::external_body]
fn md5_upper_hex(digest: &[u8; 16]) -> (text: String)
    ensures
        text@ == upper_hex(digest@),
{
    format!("{:X}", md5::Digest(*digest))
}

/// Renders a digest the way the camera compares it.
pub fn mangle_digest(digest: &[u8; 16], trunc: Md5Trunc) -> (text: String)
    ensures
        text@ == mangled(digest@, trunc),
{
    let hex = md5_upper_hex(digest);
    let mut text = hex.as_str().substring_char(0, 31).to_owned();
    if trunc == Md5Trunc::ZeroLast {
        proof {
            reveal_strlit("\0");
        }
        text.append("\0");
    }
    assert(text@ =~= mangled(digest@, trunc));
    text
}

/// Whether `c` is an upper-case hexadecimal digit.
pub open spec fn is_hex_digit(c: char) -> bool {
    '0' <= c <= '9' || 'A' <= c <= 'F'
}

/// The digest of a user name or a password, as login messages carry it.
///
/// Whatever the input, 31 upper-case hexadecimal digits come first: those of
/// the MD5 digest of its bytes, without the last one. With
/// [`Md5Trunc::ZeroLast`] a NUL character follows them, and nothing otherwise.
pub fn md5_string(input: &str, trunc: Md5Trunc) -> (text: String)
    ensures
        text@ == mangled(md5_digest(input.spec_bytes()), trunc),
        md5_digest(input.spec_bytes()).len() == 16,
        text@.len() == match trunc {
            Md5Trunc::ZeroLast => 32int,
            Md5Trunc::Truncate => 31,
        },
        forall|i: int| 0 <= i < 31 ==> is_hex_digit(#[trigger] text@[i]),
        text@ == match trunc {
            Md5Trunc::ZeroLast => upper_hex(md5_digest(input.spec_bytes())).drop_last().push('\0'),
            Md5Trunc::Truncate => upper_hex(md5_digest(input.spec_bytes())).drop_last(),
        },
{
    let digest = md5_compute(input.as_bytes());
    proof {
        law_renderings_differ_in_the_last_character(digest@);
    }
    mangle_digest(&digest, trunc)
}

/// The two renderings of a digest agree but for the NUL character that ends
/// one of them. What they share are 31 upper-case hexadecimal digits: all but
/// the last one of the digest.
pub proof fn law_renderings_differ_in_the_last_character(digest: Seq<u8>)
    requires
        digest.len() == 16,
    ensures
        mangled(digest, Md5Trunc::ZeroLast) == mangled(digest, Md5Trunc::Truncate).push('\0'),
        mangled(digest, Md5Trunc::Truncate).len() == 31,
        mangled(digest, Md5Trunc::Truncate) == upper_hex(digest).drop_last(),
        forall|i: int|
            0 <= i < 31 ==> is_hex_digit(#[trigger] mangled(digest, Md5Trunc::Truncate)[i]),
{
    let cut = mangled(digest, Md5Trunc::Truncate);
    assert(mangled(digest, Md5Trunc::ZeroLast) =~= cut.push('\0'));
    assert(cut =~= upper_hex(digest).drop_last());
    assert forall|i: int| 0 <= i < 31 implies is_hex_digit(#[trigger] cut[i]) by {
        let byte = digest[i / 2] as int;
        assert(0 <= byte / 16 < 16 && 0 <= byte % 16 < 16);
    }
}

/// The hexadecimal text of some bytes can be read back: the two digits at twice
/// an index have the value of the byte there, and they are in upper case.
pub proof fn law_hex_text_reads_back(bytes: Seq<u8>, i: int)
    requires
        0 <= i < bytes.len(),
    ensures
        upper_hex(bytes).len() == 2 * bytes.len(),
        ({
            let high = upper_hex(bytes)[2 * i];
            let low = upper_hex(bytes)[2 * i + 1];
            let high_value = if high <= '9' {
                high as int - '0' as int
            } else {
                high as int - 'A' as int + 10
            };
            let low_value = if low <= '9' {
                low as int - '0' as int
            } else {
                low as int - 'A' as int + 10
            };
            &&& '0' <= high <= '9' || 'A' <= high <= 'F'
            &&& '0' <= low <= '9' || 'A' <= low <= 'F'
            &&& 16 * high_value + low_value == bytes[i]
        }),
{
    let byte = bytes[i] as int;
    assert((2 * i) / 2 == i && (2 * i) % 2 == 0);
    assert((2 * i + 1) / 2 == i && (2 * i + 1) % 2 == 1);
    assert(0 <= byte / 16 < 16 && 0 <= byte % 16 < 16);
}

/// Whoever knows a rendering knows the first 15 bytes of the digest: digests
/// that differ there are rendered differently.
pub proof fn law_renderings_tell_digests_apart(one: Seq<u8>, other: Seq<u8>, trunc: Md5Trunc)
    requires
        one.len() == 16,
        other.len() == 16,
        mangled(one, trunc) == mangled(other, trunc),
    ensures
        forall|i: int| 0 <= i < 15 ==> one[i] == other[i],
{
    law_renderings_differ_in_the_last_character(one);
    law_renderings_differ_in_the_last_character(other);
    assert forall|i: int| 0 <= i < 15 implies one[i] == other[i] by {
        law_hex_text_reads_back(one, i);
        law_hex_text_reads_back(other, i);
        assert(mangled(one, trunc)[2 * i] == upper_hex(one)[2 * i]);
        assert(mangled(one, trunc)[2 * i + 1] == upper_hex(one)[2 * i + 1]);
        assert(mangled(other, trunc)[2 * i] == upper_hex(other)[2 * i]);
        assert(mangled(other, trunc)[2 * i + 1] == upper_hex(other)[2 * i + 1]);
    }
}

} // verus!
