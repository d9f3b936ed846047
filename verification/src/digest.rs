//! The digest of a result: SHA-384 over the raw bytes, written as lowercase
//! hexadecimal text.

use sha2::{Digest, Sha384};
use vstd::prelude::*;
use vstd::string::StringExecFns;

verus! {

/// The sixteen lowercase hexadecimal digits, in order.
pub open spec fn hex_digits() -> Seq<char> {
    seq!['0', '1', '2', '3', '4', '5', '6', '7', '8', '9', 'a', 'b', 'c', 'd', 'e', 'f']
}

/// The `i`-th character of the hexadecimal text of `bytes`: the high half
/// of a byte comes before its low half.
pub open spec fn hex_char_at(bytes: Seq<u8>, i: int) -> char {
    if i % 2 == 0 {
        hex_digits()[bytes[i / 2] as int / 16]
    } else {
        hex_digits()[bytes[i / 2] as int % 16]
    }
}

/// The lowercase hexadecimal text of `bytes`, two characters per byte.
pub open spec fn hex_lower(bytes: Seq<u8>) -> Seq<char> {
    Seq::new(2 * bytes.len(), |i: int| hex_char_at(bytes, i))
}

/// The SHA-384 hash of `data`.
pub uninterp spec fn sha384(data: Seq<u8>) -> Seq<u8>;

/// The digest text of `data`: its SHA-384 hash in lowercase hexadecimal.
pub open spec fn digest_text(data: Seq<u8>) -> Seq<char> {
    hex_lower(sha384(data))
}

/// `Sha384::digest`: the SHA-384 hash of `data`, which has 48 bytes.
#[verifier::external_body]
fn sha384_hash(data: &[u8]) -> (hash: Vec<u8>)
    ensures
        hash@ == sha384(data@),
        hash@.len() == 48,
{
    Sha384::digest(data).to_vec()
}

/// The one-character text of the hexadecimal digit for `nibble`.
fn hex_digit_text(nibble: u8) -> (text: &'static str)
    requires
        nibble < 16,
    ensures
        text@ == seq![hex_digits()[nibble as int]],
{
    proof {
        reveal_strlit("0");
        reveal_strlit("1");
        reveal_strlit("2");
        reveal_strlit("3");
        reveal_strlit("4");
        reveal_strlit("5");
        reveal_strlit("6");
        reveal_strlit("7");
        reveal_strlit("8");
        reveal_strlit("9");
        reveal_strlit("a");
        reveal_strlit("b");
        reveal_strlit("c");
        reveal_strlit("d");
        reveal_strlit("e");
        reveal_strlit("f");
    }
    let text = match nibble {
        0 => "0",
        1 => "1",
        2 => "2",
        3 => "3",
        4 => "4",
        5 => "5",
        6 => "6",
        7 => "7",
        8 => "8",
        9 => "9",
        10 => "a",
        11 => "b",
        12 => "c",
        13 => "d",
        14 => "e",
        _ => "f",
    };
    assert(text@ =~= seq![hex_digits()[nibble as int]]);
    text
}

/// Writes `bytes` as lowercase hexadecimal text.
pub fn hex_encode(bytes: &[u8]) -> (text: String)
    ensures
        text@ == hex_lower(bytes@),
        text@.len() == 2 * bytes@.len(),
{
    let mut text = String::new();
    let mut i: usize = 0;
    while i < bytes.len()
        invariant
            i <= bytes@.len(),
            text@ == hex_lower(bytes@.subrange(0, i as int)),
        decreases bytes@.len() - i,
    {
        let byte = bytes[i];
        let ghost before = text@;
        text.append(hex_digit_text(byte / 16));
        text.append(hex_digit_text(byte % 16));
        proof {
            let done = bytes@.subrange(0, i as int);
            let next = bytes@.subrange(0, i + 1);
            assert forall|k: int| 0 <= k < 2 * next.len() implies text@[k] == hex_char_at(
                next,
                k,
            ) by {
                if k < 2 * i {
                    assert(before[k] == hex_char_at(done, k));
                    assert(done[k / 2] == next[k / 2]);
                } else {
                    assert(next[k / 2] == byte);
                }
            }
            assert(text@ =~= hex_lower(next));
        }
        i += 1;
    }
    assert(bytes@.subrange(0, i as int) =~= bytes@);
    text
}

/// The digest of `data`: 96 lowercase hexadecimal digits that spell its
/// SHA-384 hash.
pub fn digest_sha384(data: &[u8]) -> (digest: String)
    ensures
        digest@ == digest_text(data@),
        digest@.len() == 96,
{
    let hash = sha384_hash(data);
    hex_encode(hash.as_slice())
}

/// Hexadecimal text determines the bytes it spells.
pub proof fn lemma_hex_lower_injective(a: Seq<u8>, b: Seq<u8>)
    requires
        hex_lower(a) == hex_lower(b),
    ensures
        a == b,
{
    assert(hex_lower(a).len() == 2 * a.len());
    assert(hex_lower(b).len() == 2 * b.len());
    assert forall|i: int| 0 <= i < a.len() implies a[i] == b[i] by {
        let high = hex_lower(a)[2 * i];
        let low = hex_lower(a)[2 * i + 1];
        assert(high == hex_char_at(b, 2 * i));
        assert(low == hex_char_at(b, 2 * i + 1));
        lemma_hex_digit_injective(a[i] / 16, b[i] / 16);
        lemma_hex_digit_injective(a[i] % 16, b[i] % 16);
    }
    assert(a =~= b);
}

/// Two digests are the same text exactly when the hashes behind them are the
/// same: the hexadecimal form neither merges nor splits hashes.
pub proof fn lemma_digest_matches_iff_hash_matches(a: Seq<u8>, b: Seq<u8>)
    ensures
        digest_text(a) == digest_text(b) <==> sha384(a) == sha384(b),
{
    if digest_text(a) == digest_text(b) {
        lemma_hex_lower_injective(sha384(a), sha384(b));
    }
}

/// Distinct values below sixteen have distinct hexadecimal digits.
proof fn lemma_hex_digit_injective(x: u8, y: u8)
    requires
        x < 16,
        y < 16,
        hex_digits()[x as int] == hex_digits()[y as int],
    ensures
        x == y,
{
}

} // verus!
