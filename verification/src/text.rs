//! Verified text utilities: reading a token as a numeric id, and trimming
//! names before they are stored.

use vstd::prelude::*;
use vstd::string::StrSliceExecFns;

verus! {

/// A decimal digit.
pub open spec fn spec_is_digit(c: char) -> bool {
    48 <= c as u32 <= 57
}

/// The numeric value of a digit sequence, most significant digit first.
pub open spec fn spec_digits_value(s: Seq<char>) -> int
    decreases s.len(),
{
    if s.len() == 0 {
        0
    } else {
        spec_digits_value(s.drop_last()) * 10 + (s.last() as u32 - 48)
    }
}

/// Whether the token is one or more decimal digits and nothing else.
pub open spec fn spec_all_digits(s: Seq<char>) -> bool {
    s.len() > 0 && forall|i: int| 0 <= i < s.len() ==> spec_is_digit(#[trigger] s[i])
}

/// The id a token denotes, if any: a run of decimal digits whose value fits
/// an `i64` is read as a direct id; every other token is read as a name.
pub open spec fn spec_token_id(s: Seq<char>) -> Option<i64> {
    if spec_all_digits(s) && spec_digits_value(s) <= i64::MAX {
        Some(spec_digits_value(s) as i64)
    } else {
        None
    }
}

proof fn lemma_digits_value_nonneg(s: Seq<char>)
    requires
        forall|i: int| 0 <= i < s.len() ==> spec_is_digit(#[trigger] s[i]),
    ensures
        spec_digits_value(s) >= 0,
    decreases s.len(),
{
    if s.len() > 0 {
        lemma_digits_value_nonneg(s.drop_last());
    }
}

/// Appending digits never shrinks the value: the value of any digit prefix
/// bounds the value of the whole run from below.
proof fn lemma_digits_value_prefix(s: Seq<char>, i: int)
    requires
        forall|k: int| 0 <= k < s.len() ==> spec_is_digit(#[trigger] s[k]),
        0 <= i <= s.len(),
    ensures
        spec_digits_value(s.take(i)) <= spec_digits_value(s),
    decreases s.len() - i,
{
    if i < s.len() {
        let a = s.take(i);
        let b = s.take(i + 1);
        assert(b.drop_last() =~= a);
        lemma_digits_value_nonneg(a);
        assert(spec_digits_value(a) <= spec_digits_value(a) * 10 + (b.last() as u32 - 48))
            by (nonlinear_arith)
            requires
                spec_digits_value(a) >= 0,
                48 <= b.last() as u32 <= 57,
        ;
        lemma_digits_value_prefix(s, i + 1);
    } else {
        assert(s.take(i) =~= s);
    }
}

/// Reads a token as a direct id: one or more decimal digits whose value
/// fits an `i64`. Anything else — a sign, other characters, or a value out
/// of range — is not an id.
pub fn parse_token_id(s: &str) -> (r: Option<i64>)
    ensures
        r == spec_token_id(s@),
{
    let n = s.unicode_len();
    if n == 0 {
        return None;
    }
    let mut acc: i64 = 0;
    let mut i: usize = 0;
    while i < n
        invariant
            0 < n == s@.len(),
            0 <= i <= n,
            forall|j: int| 0 <= j < i ==> spec_is_digit(#[trigger] s@[j]),
            0 <= acc,
            acc as int == spec_digits_value(s@.take(i as int)),
        decreases n - i,
    {
        let c = s.get_char(i);
        let u = c as u32;
        if u < 48 || u > 57 {
            assert(!spec_all_digits(s@));
            return None;
        }
        let d = (u - 48) as i64;
        proof {
            let a = s@.take(i as int);
            let b = s@.take(i as int + 1);
            assert(b.drop_last() =~= a);
            assert(b.last() == s@[i as int]);
        }
        if acc > (i64::MAX - d) / 10 {
            proof {
                assert(acc * 10 + d > i64::MAX) by (nonlinear_arith)
                    requires
                        acc > (i64::MAX - d) / 10,
                        0 <= d <= 9,
                ;
                if spec_all_digits(s@) {
                    lemma_digits_value_prefix(s@, i as int + 1);
                }
            }
            return None;
        }
        proof {
            assert(acc * 10 + d <= i64::MAX) by (nonlinear_arith)
                requires
                    acc <= (i64::MAX - d) / 10,
                    0 <= acc,
                    0 <= d <= 9,
            ;
        }
        acc = acc * 10 + d;
        i = i + 1;
    }
    proof {
        assert(s@.take(n as int) =~= s@);
    }
    Some(acc)
}

// ── Rendering ids ────────────────────────────────────────────────────────

/// The character of one decimal digit.
pub open spec fn spec_digit_char(d: nat) -> char {
    if d == 0 {
        '0'
    } else if d == 1 {
        '1'
    } else if d == 2 {
        '2'
    } else if d == 3 {
        '3'
    } else if d == 4 {
        '4'
    } else if d == 5 {
        '5'
    } else if d == 6 {
        '6'
    } else if d == 7 {
        '7'
    } else if d == 8 {
        '8'
    } else {
        '9'
    }
}

/// The decimal digits of a nonnegative number, most significant first and
/// without leading zeros.
pub open spec fn spec_nat_digits(n: nat) -> Seq<char>
    decreases n,
{
    if n < 10 {
        seq![spec_digit_char(n)]
    } else {
        spec_nat_digits(n / 10).push(spec_digit_char(n % 10))
    }
}

/// The decimal rendering of an id, with a leading minus for negatives.
pub open spec fn spec_i64_string(n: int) -> Seq<char> {
    if n >= 0 {
        spec_nat_digits(n as nat)
    } else {
        seq!['-'] + spec_nat_digits((-n) as nat)
    }
}

/// Relies on `i64`'s `Display`: the decimal rendering of a row id, used
/// where an error must carry the id it could not find.
#[verifier::external_body]
pub fn id_string(n: i64) -> (r: String)
    ensures
        r@ == spec_i64_string(n as int),
{
    n.to_string()
}

// ── Trimming ─────────────────────────────────────────────────────────────

/// A character of the Unicode White_Space set — exactly what `str::trim`
/// strips from either end.
pub open spec fn spec_is_space(c: char) -> bool {
    ||| c == ' '
    ||| c == '\t'
    ||| c == '\n'
    ||| c == '\r'
    ||| c as u32 == 0x0B
    ||| c as u32 == 0x0C
    ||| c as u32 == 0x85
    ||| c as u32 == 0xA0
    ||| c as u32 == 0x1680
    ||| (0x2000 <= c as u32 <= 0x200A)
    ||| c as u32 == 0x2028
    ||| c as u32 == 0x2029
    ||| c as u32 == 0x202F
    ||| c as u32 == 0x205F
    ||| c as u32 == 0x3000
}

/// The sequence with its leading whitespace removed.
pub open spec fn spec_trim_front(s: Seq<char>) -> Seq<char>
    decreases s.len(),
{
    if s.len() > 0 && spec_is_space(s[0]) {
        spec_trim_front(s.skip(1))
    } else {
        s
    }
}

/// The sequence with its trailing whitespace removed.
pub open spec fn spec_trim_back(s: Seq<char>) -> Seq<char>
    decreases s.len(),
{
    if s.len() > 0 && spec_is_space(s.last()) {
        spec_trim_back(s.drop_last())
    } else {
        s
    }
}

/// The sequence with whitespace removed from both ends.
pub open spec fn spec_trim(s: Seq<char>) -> Seq<char> {
    spec_trim_back(spec_trim_front(s))
}

/// Relies on `str::trim`: strips Unicode whitespace from both ends of the
/// string and nothing else.
#[verifier::external_body]
pub fn trim_str(s: &str) -> (r: String)
    ensures
        r@ == spec_trim(s@),
{
    s.trim().to_owned()
}

// ── Case folding and containment, for search ─────────────────────────────

/// The lowercase form of a character sequence. What Unicode lowercasing
/// returns takes pages to state, so the result is only named here; the
/// name is given meaning by the wrapper below and nothing else.
pub uninterp spec fn lower_of(s: Seq<char>) -> Seq<char>;

/// Relies on `str::to_lowercase`: the lowercase form, a function of the
/// characters alone.
#[verifier::external_body]
pub fn lowercase(s: &str) -> (r: String)
    ensures
        r@ == lower_of(s@),
{
    s.to_lowercase()
}

/// One sequence occurs somewhere inside the other.
pub open spec fn spec_contains(hay: Seq<char>, needle: Seq<char>) -> bool {
    exists|i: int|
        0 <= i <= hay.len() - needle.len() && #[trigger] hay.subrange(i, i + needle.len())
            == needle
}

/// Relies on `str::contains` with a string pattern: substring containment.
#[verifier::external_body]
pub fn contains_sub(hay: &str, needle: &str) -> (r: bool)
    ensures
        r == spec_contains(hay@, needle@),
{
    hay.contains(needle)
}

} // verus!
