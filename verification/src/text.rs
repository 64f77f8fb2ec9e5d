//! Text of numbers and digests, and what it takes to put messages together.

use vstd::arithmetic::div_mod::lemma_div_denominator;
use vstd::arithmetic::power::{lemma_pow0, lemma_pow1, lemma_pow_positive, pow};
use vstd::prelude::*;
use vstd::string::StringExecFns;

verus! {

/// The character of a decimal digit.
pub open spec fn decimal_digit(d: nat) -> char {
    (48 + d) as char
}

/// Decimal notation of `n`, without leading zeros.
pub open spec fn decimal(n: nat) -> Seq<char>
    decreases n,
{
    if n < 10 {
        seq![decimal_digit(n)]
    } else {
        decimal(n / 10).push(decimal_digit(n % 10))
    }
}

/// The lower-case character of a hexadecimal digit.
pub open spec fn hex_digit(d: int) -> char {
    if d < 10 {
        (48 + d) as char
    } else {
        (87 + d) as char
    }
}

/// Lower-case hexadecimal notation of `bytes`: two digits per byte, the high
/// one first, in the order of the bytes.
pub open spec fn lower_hex(bytes: Seq<u8>) -> Seq<char> {
    Seq::new(
        2 * bytes.len(),
        |i: int|
            if i % 2 == 0 {
                hex_digit(bytes[i / 2] as int / 16)
            } else {
                hex_digit(bytes[i / 2] as int % 16)
            },
    )
}

/// The digit that stands `place` places from the right is the one that counts
/// the powers of ten of that place.
pub proof fn law_decimal_places(n: nat, place: nat)
    requires
        place < decimal(n).len(),
    ensures
        decimal(n)[decimal(n).len() - 1 - place] == "0123456789"@[(n as int / pow(10, place)) % 10],
    decreases n,
{
    reveal_strlit("0123456789");
    lemma_decimal_len(n);
    lemma_pow0(10);
    if n >= 10 && place > 0 {
        let shorter = decimal(n / 10);
        let next = (place - 1) as nat;
        assert(decimal(n)[decimal(n).len() - 1 - place] == shorter[shorter.len() - 1 - next]);
        law_decimal_places(n / 10, next);
        lemma_pow_positive(10, next);
        lemma_div_denominator(n as int, 10, pow(10, next));
        assert(pow(10, place) == 10 * pow(10, next)) by {
            reveal(pow);
        }
    }
}

/// A number has as many digits as it takes and no leading zero: zero has one
/// digit, and any other number is at least the power of ten of its first place
/// and less than that of the place before.
pub proof fn law_decimal_length(n: nat)
    ensures
        decimal(n).len() >= 1,
        n < pow(10, decimal(n).len()),
        n > 0 ==> pow(10, (decimal(n).len() - 1) as nat) <= n,
        n == 0 ==> decimal(n).len() == 1,
    decreases n,
{
    lemma_decimal_len(n);
    lemma_pow0(10);
    lemma_pow1(10);
    if n >= 10 {
        law_decimal_length(n / 10);
        let len = decimal(n / 10).len();
        assert(decimal(n).len() == len + 1);
        assert(pow(10, (len + 1) as nat) == 10 * pow(10, len)) by {
            reveal(pow);
        }
        assert(pow(10, len) == 10 * pow(10, (len - 1) as nat)) by {
            reveal(pow);
        }
    }
}

/// Each byte is written as two digits, that of its sixteens and that of its
/// ones, where the bytes stand.
pub proof fn law_lower_hex_digits(bytes: Seq<u8>, i: int)
    requires
        0 <= i < bytes.len(),
    ensures
        lower_hex(bytes).len() == 2 * bytes.len(),
        lower_hex(bytes)[2 * i] == "0123456789abcdef"@[bytes[i] as int / 16],
        lower_hex(bytes)[2 * i + 1] == "0123456789abcdef"@[bytes[i] as int % 16],
{
    reveal_strlit("0123456789abcdef");
}

/// No two sequences of bytes have the same text: the text of a digest tells
/// which one it is.
pub proof fn law_lower_hex_tells_bytes_apart(a: Seq<u8>, b: Seq<u8>)
    requires
        lower_hex(a) == lower_hex(b),
    ensures
        a == b,
{
    assert(lower_hex(a).len() == 2 * a.len());
    assert(lower_hex(b).len() == 2 * b.len());
    assert forall|i: int| 0 <= i < a.len() implies a[i] == b[i] by {
        assert(lower_hex(a)[2 * i] == hex_digit(a[i] as int / 16));
        assert(lower_hex(b)[2 * i] == hex_digit(b[i] as int / 16));
        assert(lower_hex(a)[2 * i + 1] == hex_digit(a[i] as int % 16));
        assert(lower_hex(b)[2 * i + 1] == hex_digit(b[i] as int % 16));
    }
    assert(a =~= b);
}

/// No two numbers have the same decimal notation.
pub proof fn law_decimal_tells_numbers_apart(a: nat, b: nat)
    requires
        decimal(a) == decimal(b),
    ensures
        a == b,
    decreases a,
{
    lemma_decimal_len(a);
    lemma_decimal_len(b);
    assert(decimal(a).last() == decimal_digit(a % 10));
    assert(decimal(b).last() == decimal_digit(b % 10));
    if a >= 10 && b >= 10 {
        assert(decimal(a).drop_last() =~= decimal(a / 10));
        assert(decimal(b).drop_last() =~= decimal(b / 10));
        law_decimal_tells_numbers_apart(a / 10, b / 10);
    }
}

/// Two texts that end in parts of the same length are equal only if the parts
/// are.
pub(crate) proof fn lemma_same_end(a: Seq<char>, a_end: Seq<char>, b: Seq<char>, b_end: Seq<char>)
    requires
        a + a_end == b + b_end,
        a_end.len() == b_end.len(),
    ensures
        a == b,
        a_end == b_end,
{
    let whole = a + a_end;
    assert(whole.len() == b.len() + b_end.len());
    assert(a =~= whole.take(a.len() as int));
    assert(b =~= whole.take(b.len() as int));
    assert(a_end =~= whole.skip(a.len() as int));
    assert(b_end =~= whole.skip(b.len() as int));
}

/// Two texts that begin alike are equal only if the rest is.
pub(crate) proof fn lemma_same_start(start: Seq<char>, a: Seq<char>, b: Seq<char>)
    requires
        start + a == start + b,
    ensures
        a == b,
{
    assert((start + a).len() == start.len() + a.len());
    assert((start + b).len() == start.len() + b.len());
    lemma_same_end(start, a, start, b);
}

proof fn lemma_decimal_len(n: nat)
    ensures
        decimal(n).len() >= 1,
        decimal(n).len() == 1 <==> n < 10,
    decreases n,
{
    if n >= 10 {
        lemma_decimal_len(n / 10);
    }
}

fn digit_text(d: u64) -> (text: &'static str)
    requires
        d < 10,
    ensures
        text@ == seq![decimal_digit(d as nat)],
{
    proof {
        reveal_strlit("0");
        reveal_strlit("1");
        reveal_strlit("2");
        reveal_strlit("3");
        reveal_strlit("4");
        reveal_strlit("5");
        reveal_strlit("6");
        reveal_strlit("7");
        reveal_strlit("8");
        reveal_strlit("9");
    }
    let text = match d {
        0 => "0",
        1 => "1",
        2 => "2",
        3 => "3",
        4 => "4",
        5 => "5",
        6 => "6",
        7 => "7",
        8 => "8",
        _ => "9",
    };
    assert(text@ =~= seq![decimal_digit(d as nat)]);
    text
}

/// Writes `n` in decimal notation.
pub fn decimal_text(n: u64) -> (text: String)
    ensures
        text@ == decimal(n as nat),
    decreases n,
{
    if n < 10 {
        digit_text(n).to_owned()
    } else {
        let mut text = decimal_text(n / 10);
        text.append(digit_text(n % 10));
        assert(text@ =~= decimal(n as nat));
        text
    }
}

/// `Display` of [`secp256k1::hashes::sha256::Hash`] on the digest that holds
/// `bytes`: its bytes in lower-case hexadecimal, first byte first.
#[verifier::external_body]
pub(crate) fn sha256_text(bytes: &[u8; 32]) -> (text: String)
    ensures
        text@ == lower_hex(bytes@),
{
    let digest: secp256k1::hashes::sha256::Hash = secp256k1::hashes::Hash::from_inner(*bytes);
    format!("{}", digest)
}

} // verus!
