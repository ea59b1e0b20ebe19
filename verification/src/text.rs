//! Comparisons on strings, stated over their characters and computed on
//! their UTF-8 bytes.

use vstd::prelude::*;
use vstd::string::*;
use vstd::utf8::*;

verus! {

/// `s` ends with the characters of `suffix`.
pub open spec fn ends_with(s: Seq<char>, suffix: Seq<char>) -> bool {
    suffix.len() <= s.len() && s.subrange(s.len() - suffix.len(), s.len() as int) == suffix
}

/// The same relation on bytes.
pub open spec fn bytes_end_with(s: Seq<u8>, suffix: Seq<u8>) -> bool {
    suffix.len() <= s.len() && s.subrange(s.len() - suffix.len(), s.len() as int) == suffix
}

/// Encoding a concatenation is concatenating the encodings.
pub proof fn lemma_encode_concat(a: Seq<char>, b: Seq<char>)
    ensures
        encode_utf8(a + b) == encode_utf8(a) + encode_utf8(b),
    decreases a.len(),
{
    if a.len() == 0 {
        assert(a + b =~= b);
        assert(encode_utf8(a) + encode_utf8(b) =~= encode_utf8(b));
    } else {
        assert((a + b).drop_first() =~= a.drop_first() + b);
        lemma_encode_concat(a.drop_first(), b);
        assert(encode_utf8(a + b) =~= encode_utf8(a) + encode_utf8(b));
    }
}

/// A string ends with a suffix exactly when its encoding ends with the
/// encoding of the suffix: no character's encoding can start in the middle
/// of another's.
pub proof fn lemma_suffix_by_bytes(s: Seq<char>, suffix: Seq<char>)
    ensures
        ends_with(s, suffix) <==> bytes_end_with(encode_utf8(s), encode_utf8(suffix)),
{
    let sb = encode_utf8(s);
    let xb = encode_utf8(suffix);
    if ends_with(s, suffix) {
        let head = s.subrange(0, s.len() - suffix.len());
        assert(s =~= head + suffix);
        lemma_encode_concat(head, suffix);
        assert((encode_utf8(head) + xb).subrange(sb.len() - xb.len(), sb.len() as int) =~= xb);
    }
    if bytes_end_with(sb, xb) {
        let cut = sb.len() - xb.len();
        encode_utf8_valid_utf8(s);
        encode_utf8_valid_utf8(suffix);
        encode_utf8_decode_utf8(s);
        encode_utf8_decode_utf8(suffix);
        if xb.len() == 0 {
            assert(suffix.len() == 0) by {
                if suffix.len() > 0 {
                    encode_utf8_first_scalar(suffix);
                }
            }
            assert(s.subrange(s.len() - suffix.len(), s.len() as int) =~= suffix);
        } else {
            assert(is_char_boundary(xb, 0));
            is_char_boundary_iff_not_is_continuation_byte(xb, 0);
            assert(sb[cut] == xb[0]);
            is_char_boundary_iff_not_is_continuation_byte(sb, cut);
            decode_utf8_split(sb, cut);
            let front = decode_utf8(sb.subrange(0, cut));
            assert(s =~= front + suffix);
            assert(s.subrange(s.len() - suffix.len(), s.len() as int) =~= suffix);
        }
    }
}

/// Whether two byte slices hold the same bytes.
pub fn bytes_eq(a: &[u8], b: &[u8]) -> (same: bool)
    ensures
        same == (a@ == b@),
{
    if a.len() != b.len() {
        return false;
    }
    let mut i: usize = 0;
    while i < a.len()
        invariant
            a.len() == b.len(),
            i <= a.len(),
            forall|j: int| 0 <= j < i ==> a@[j] == b@[j],
        decreases a.len() - i,
    {
        if a[i] != b[i] {
            return false;
        }
        i += 1;
    }
    assert(a@ =~= b@);
    true
}

/// Whether two strings hold the same characters.
pub fn str_eq(a: &str, b: &str) -> (same: bool)
    ensures
        same == (a@ == b@),
{
    let same = bytes_eq(a.as_bytes(), b.as_bytes());
    proof {
        encode_utf8_decode_utf8(a@);
        encode_utf8_decode_utf8(b@);
    }
    same
}

/// Whether `s` ends with `suffix`.
pub fn str_ends_with(s: &str, suffix: &str) -> (found: bool)
    ensures
        found == ends_with(s@, suffix@),
{
    let sb = s.as_bytes();
    let xb = suffix.as_bytes();
    proof {
        lemma_suffix_by_bytes(s@, suffix@);
    }
    if xb.len() > sb.len() {
        return false;
    }
    let cut: usize = sb.len() - xb.len();
    let mut i: usize = 0;
    while i < xb.len()
        invariant
            cut + xb.len() == sb.len(),
            i <= xb.len(),
            forall|j: int| 0 <= j < i ==> sb@[cut + j] == xb@[j],
            ends_with(s@, suffix@) <==> bytes_end_with(sb@, xb@),
        decreases xb.len() - i,
    {
        if sb[cut + i] != xb[i] {
            assert(sb@.subrange(cut as int, sb@.len() as int)[i as int] != xb@[i as int]);
            return false;
        }
        i += 1;
    }
    assert(sb@.subrange(cut as int, sb@.len() as int) =~= xb@);
    true
}

/// The character of a decimal digit.
pub open spec fn digit(d: nat) -> char
    recommends
        d < 10,
{
    if d == 0 {
        '0'
    } else if d == 1 {
        '1'
    } else if d == 2 {
        '2'
    } else if d == 3 {
        '3'
    } else if d == 4 {
        '4'
    } else if d == 5 {
        '5'
    } else if d == 6 {
        '6'
    } else if d == 7 {
        '7'
    } else if d == 8 {
        '8'
    } else {
        '9'
    }
}

/// The decimal digits of a natural number, without leading zeros.
pub open spec fn digits(n: nat) -> Seq<char>
    decreases n,
{
    if n < 10 {
        seq![digit(n)]
    } else {
        digits(n / 10) + seq![digit(n % 10)]
    }
}

/// An integer in decimal, with a minus sign where it is negative.
pub open spec fn decimal(n: int) -> Seq<char> {
    if n < 0 {
        seq!['-'] + digits((-n) as nat)
    } else {
        digits(n as nat)
    }
}

/// The text of one decimal digit.
fn digit_text(d: u64) -> (text: &'static str)
    requires
        d < 10,
    ensures
        text@ == seq![digit(d as nat)],
{
    proof {
        reveal_strlit("0");
        reveal_strlit("1");
        reveal_strlit("2");
        reveal_strlit("3");
        reveal_strlit("4");
        reveal_strlit("5");
        reveal_strlit("6");
        reveal_strlit("7");
        reveal_strlit("8");
        reveal_strlit("9");
    }
    let text = if d == 0 {
        "0"
    } else if d == 1 {
        "1"
    } else if d == 2 {
        "2"
    } else if d == 3 {
        "3"
    } else if d == 4 {
        "4"
    } else if d == 5 {
        "5"
    } else if d == 6 {
        "6"
    } else if d == 7 {
        "7"
    } else if d == 8 {
        "8"
    } else {
        "9"
    };
    assert(text@ =~= seq![digit(d as nat)]);
    text
}

/// Writes a natural number in decimal.
fn digits_text(n: u64) -> (text: String)
    ensures
        text@ == digits(n as nat),
    decreases n,
{
    if n < 10 {
        digit_text(n).to_owned()
    } else {
        digits_text(n / 10).concat(digit_text(n % 10))
    }
}

/// Writes an integer in decimal.
pub fn decimal_text(n: i32) -> (text: String)
    ensures
        text@ == decimal(n as int),
{
    if n < 0 {
        let magnitude: u64 = (-(n as i64)) as u64;
        proof {
            reveal_strlit("-");
        }
        let text = "-".to_owned().concat(digits_text(magnitude).as_str());
        assert(text@ =~= decimal(n as int));
        text
    } else {
        digits_text(n as u64)
    }
}

} // verus!
