use vstd::prelude::*;
use vstd::string::StrSliceExecFns;
use vstd::string::StringExecFns;
use sha2::Digest;
use sha2::Sha256;

verus! {

/// The SHA-256 digest that the `sha2` crate computes for a message.
pub uninterp spec fn sha256(msg: Seq<u8>) -> Seq<u8>;

/// Number of bytes in a SHA-256 digest.
pub const SHA256_LEN: usize = 32;

/// The sixteen hexadecimal digits, lower case.
pub open spec fn hex_digits() -> Seq<char> {
    seq!['0', '1', '2', '3', '4', '5', '6', '7', '8', '9', 'a', 'b', 'c', 'd', 'e', 'f']
}

/// The hexadecimal digit for a value below sixteen.
pub open spec fn hex_digit(n: int) -> char {
    hex_digits()[n]
}

/// Lower-case hexadecimal form of a byte string: two digits per byte, the
/// high half first.
pub open spec fn hex_string(bytes: Seq<u8>) -> Seq<char> {
    Seq::new(
        2 * bytes.len(),
        |i: int|
            if i % 2 == 0 {
                hex_digit(bytes[i / 2] as int / 16)
            } else {
                hex_digit(bytes[i / 2] as int % 16)
            },
    )
}

/// The padding that stands for the hidden middle when none is given.
pub open spec fn default_padding() -> Seq<char> {
    "..."@
}

/// Abridged hexadecimal form of a byte string: `0x`, the digits of the
/// first `hl` bytes, the padding, the digits of the last `el` bytes. When
/// `hl` and `el` together cover the whole string, nothing is hidden and no
/// padding is shown.
pub open spec fn hide_hex(bytes: Seq<u8>, hl: int, el: int, pad: Seq<char>) -> Seq<char> {
    let hex = hex_string(bytes);
    let n = bytes.len() as int;
    if hl + el >= n {
        "0x"@ + hex
    } else {
        "0x"@ + hex.subrange(0, 2 * hl) + pad + hex.subrange(2 * (n - el), 2 * n)
    }
}

/// Every character of a hexadecimal form is a digit, so the form is ASCII.
pub proof fn lemma_hex_string_ascii(bytes: Seq<u8>)
    ensures
        vstd::utf8::is_ascii_chars(hex_string(bytes)),
        hex_string(bytes).len() == 2 * bytes.len(),
{
    let hex = hex_string(bytes);
    assert forall|i: int| 0 <= i < hex.len() implies '\0' <= #[trigger] hex[i] <= '\u{7f}' by {
        let b = bytes[i / 2] as int;
        assert(0 <= b / 16 < 16 && 0 <= b % 16 < 16);
        let n = if i % 2 == 0 {
            b / 16
        } else {
            b % 16
        };
        assert(hex[i] == hex_digits()[n]);
        assert(forall|k: int| 0 <= k < 16 ==> '\0' <= #[trigger] hex_digits()[k] <= '\u{7f}');
    }
}

/// SHA-256 digest of `msg`.
///
/// Calls `Sha256::digest` of the `sha2` crate. The digest is taken on trust
/// as that crate's result for the message; its length is the output size
/// the crate declares for `Sha256`.
#[verifier::external_body]
pub fn sha2_hash256(msg: &[u8]) -> (digest: Vec<u8>)
    ensures
        digest@ == sha256(msg@),
        digest@.len() == SHA256_LEN,
{
    Sha256::digest(msg).to_vec()
}

/// Calls `hex::encode`, which writes for each byte the digit of its high
/// half and then the digit of its low half, in lower case.
#[verifier::external_body]
fn hex_encode(bytes: &[u8]) -> (hex: String)
    ensures
        hex@ == hex_string(bytes@),
{
    hex::encode(bytes)
}

/// Abridged hexadecimal form of `bytes` for logs: `0x`, the digits of the
/// first `hl` bytes, the padding (`...` when none is given), the digits of
/// the last `el` bytes; the whole string without padding when `hl` and
/// `el` together cover it.
pub fn bytes_to_hide_hex(bytes: &[u8], hl: usize, el: usize, padding: Option<&str>) -> (out: String)
    ensures
        out@ == hide_hex(
            bytes@,
            hl as int,
            el as int,
            match padding {
                Some(pad) => pad@,
                None => default_padding(),
            },
        ),
{
    let length = bytes.len();
    let hex = hex_encode(bytes);
    let digits = hex.as_str();
    proof {
        lemma_hex_string_ascii(bytes@);
    }
    let total = digits.unicode_len();
    let mut out = String::from_str("0x");
    if hl > length || el >= length - hl {
        out.append(digits);
    } else {
        let pad = match padding {
            Some(pad) => pad,
            None => "...",
        };
        out.append(digits.substring_ascii(0, 2 * hl));
        out.append(pad);
        out.append(digits.substring_ascii(2 * (length - el), total));
    }
    out
}

/// Abridged SHA-256 digest of `data` for logs: the first six and the last
/// six bytes of the digest in hexadecimal, `...` between them.
pub fn debug_hash_data(data: &[u8]) -> (out: String)
    ensures
        out@ == hide_hex(sha256(data@), 6, 6, default_padding()),
{
    let digest = sha2_hash256(data);
    bytes_to_hide_hex(digest.as_slice(), 6, 6, None)
}

/// The abridged digest always shows twelve digits on each side of the
/// padding: of a digest's thirty-two bytes, six and six leave a middle to
/// hide.
pub proof fn lemma_debug_hash_shape(digest: Seq<u8>)
    requires
        digest.len() == SHA256_LEN,
    ensures
        hide_hex(digest, 6, 6, default_padding()) == "0x"@ + hex_string(digest).subrange(0, 12)
            + "..."@ + hex_string(digest).subrange(52, 64),
        hide_hex(digest, 6, 6, default_padding()).len() == 29,
{
    reveal_strlit("0x");
    reveal_strlit("...");
}

} // verus!
