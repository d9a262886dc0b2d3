//! Character-sequence utilities: decimal rendering and parsing of `u64`
//! values and first-occurrence search, each tied to a spec-level model.

use vstd::prelude::*;
use vstd::string::StrSliceExecFns;
use vstd::string::StringExecFns;

verus! {

/// A decimal digit character.
pub open spec fn spec_is_digit(c: char) -> bool {
    '0' <= c && c <= '9'
}

/// Numeric value of a digit character.
pub open spec fn spec_digit_val(c: char) -> int {
    c as int - 48
}

/// Digit character for a value in `0 .. 10`.
pub open spec fn spec_digit_char(d: int) -> char
    recommends
        0 <= d < 10,
{
    if d == 0 {
        '0'
    } else if d == 1 {
        '1'
    } else if d == 2 {
        '2'
    } else if d == 3 {
        '3'
    } else if d == 4 {
        '4'
    } else if d == 5 {
        '5'
    } else if d == 6 {
        '6'
    } else if d == 7 {
        '7'
    } else if d == 8 {
        '8'
    } else {
        '9'
    }
}

/// Decimal rendering of a non-negative integer, most significant digit first.
pub open spec fn spec_dec_digits(n: int) -> Seq<char>
    recommends
        n >= 0,
    decreases n,
{
    if n < 10 {
        seq![spec_digit_char(n)]
    } else {
        spec_dec_digits(n / 10).push(spec_digit_char(n % 10))
    }
}

/// Every character of `s` is a decimal digit.
pub open spec fn spec_all_digits(s: Seq<char>) -> bool {
    forall|i: int| 0 <= i < s.len() ==> spec_is_digit(#[trigger] s[i])
}

/// A non-empty, all-digit sequence.
pub open spec fn spec_is_num(s: Seq<char>) -> bool {
    s.len() > 0 && spec_all_digits(s)
}

/// A number without a superfluous leading zero.
pub open spec fn spec_is_canon_num(s: Seq<char>) -> bool {
    spec_is_num(s) && (s.len() == 1 || s[0] != '0')
}

/// The integer denoted by a digit sequence (0 for the empty sequence).
pub open spec fn seq_to_int(s: Seq<char>) -> int
    decreases s.len(),
{
    if s.len() == 0 {
        0
    } else {
        seq_to_int(s.drop_last()) * 10 + spec_digit_val(s.last())
    }
}

/// Index of the first occurrence of `c` in `s`, or -1 when absent.
pub open spec fn spec_idx_of(s: Seq<char>, c: char) -> int
    decreases s.len(),
{
    if s.len() == 0 {
        -1
    } else if s[0] == c {
        0
    } else if spec_idx_of(s.drop_first(), c) < 0 {
        -1
    } else {
        spec_idx_of(s.drop_first(), c) + 1
    }
}

/// `spec_idx_of` names the first occurrence of `c` in `s`, when there is one.
pub proof fn lemma_idx_of(s: Seq<char>, c: char)
    ensures
        spec_idx_of(s, c) < 0 ==> forall|j: int| 0 <= j < s.len() ==> s[j] != c,
        spec_idx_of(s, c) >= 0 ==> {
            &&& spec_idx_of(s, c) < s.len()
            &&& s[spec_idx_of(s, c)] == c
            &&& forall|j: int| 0 <= j < spec_idx_of(s, c) ==> s[j] != c
        },
    decreases s.len(),
{
    if s.len() > 0 && s[0] != c {
        lemma_idx_of(s.drop_first(), c);
        assert forall|j: int| 0 <= j < s.len() && spec_idx_of(s, c) < 0 implies s[j] != c by {
            if j > 0 {
                assert(s.drop_first()[j - 1] == s[j]);
            }
        }
        if spec_idx_of(s, c) >= 0 {
            let i = spec_idx_of(s.drop_first(), c);
            assert(s.drop_first()[i] == s[i + 1]);
            assert forall|j: int| 0 <= j < spec_idx_of(s, c) implies s[j] != c by {
                if j > 0 {
                    assert(s.drop_first()[j - 1] == s[j]);
                }
            }
        }
    }
}

/// The denoted value of an all-digit sequence is non-negative.
pub proof fn lemma_seq_to_int_nonneg(s: Seq<char>)
    requires
        spec_all_digits(s),
    ensures
        seq_to_int(s) >= 0,
    decreases s.len(),
{
    if s.len() > 0 {
        assert(spec_all_digits(s.drop_last())) by {
            assert(forall|i: int|
                0 <= i < s.len() - 1 ==> #[trigger] s.drop_last()[i] == s[i]);
        }
        lemma_seq_to_int_nonneg(s.drop_last());
        assert(spec_is_digit(s.last()));
    }
}

/// Extending an all-digit sequence never decreases its denoted value.
pub proof fn lemma_seq_to_int_prefix(s: Seq<char>, i: int)
    requires
        spec_all_digits(s),
        0 <= i <= s.len(),
    ensures
        seq_to_int(s.take(i)) <= seq_to_int(s),
    decreases s.len() - i,
{
    if i < s.len() {
        lemma_seq_to_int_prefix(s, i + 1);
        let t = s.take(i + 1);
        assert(t.drop_last() =~= s.take(i));
        assert(t.last() == s[i]);
        assert(spec_all_digits(s.take(i))) by {
            assert(forall|j: int|
                0 <= j < i ==> #[trigger] s.take(i)[j] == s[j]);
        }
        lemma_seq_to_int_nonneg(s.take(i));
        assert(spec_is_digit(s[i]));
        assert(seq_to_int(t) == seq_to_int(s.take(i)) * 10 + spec_digit_val(s[i]));
        assert(seq_to_int(s.take(i)) <= seq_to_int(s.take(i)) * 10) by (nonlinear_arith)
            requires
                seq_to_int(s.take(i)) >= 0,
        ;
    } else {
        assert(s.take(i) =~= s);
    }
}

/// First index of `c` in `s`, as `spec_idx_of` names it.
pub fn find_char(s: &str, c: char) -> (r: Option<usize>)
    ensures
        r is None <==> spec_idx_of(s@, c) < 0,
        r is None ==> forall|j: int| 0 <= j < s@.len() ==> s@[j] != c,
        r matches Some(i) ==> {
            &&& i as int == spec_idx_of(s@, c)
            &&& i < s@.len()
            &&& s@[i as int] == c
            &&& forall|j: int| 0 <= j < i ==> s@[j] != c
        },
{
    let n = s.unicode_len();
    let mut i: usize = 0;
    while i < n
        invariant
            n == s@.len(),
            0 <= i <= n,
            forall|j: int| 0 <= j < i ==> s@[j] != c,
        decreases n - i,
    {
        if s.get_char(i) == c {
            proof {
                lemma_idx_of(s@, c);
            }
            return Some(i);
        }
        i = i + 1;
    }
    proof {
        lemma_idx_of(s@, c);
    }
    None
}

/// The single-character string for a digit value.
fn digit_str(d: u64) -> (r: &'static str)
    requires
        d < 10,
    ensures
        r@ == seq![spec_digit_char(d as int)],
{
    proof {
        reveal_strlit("0");
        reveal_strlit("1");
        reveal_strlit("2");
        reveal_strlit("3");
        reveal_strlit("4");
        reveal_strlit("5");
        reveal_strlit("6");
        reveal_strlit("7");
        reveal_strlit("8");
        reveal_strlit("9");
    }
    if d == 0 {
        proof { assert("0"@ =~= seq![spec_digit_char(0)]); }
        "0"
    } else if d == 1 {
        proof { assert("1"@ =~= seq![spec_digit_char(1)]); }
        "1"
    } else if d == 2 {
        proof { assert("2"@ =~= seq![spec_digit_char(2)]); }
        "2"
    } else if d == 3 {
        proof { assert("3"@ =~= seq![spec_digit_char(3)]); }
        "3"
    } else if d == 4 {
        proof { assert("4"@ =~= seq![spec_digit_char(4)]); }
        "4"
    } else if d == 5 {
        proof { assert("5"@ =~= seq![spec_digit_char(5)]); }
        "5"
    } else if d == 6 {
        proof { assert("6"@ =~= seq![spec_digit_char(6)]); }
        "6"
    } else if d == 7 {
        proof { assert("7"@ =~= seq![spec_digit_char(7)]); }
        "7"
    } else if d == 8 {
        proof { assert("8"@ =~= seq![spec_digit_char(8)]); }
        "8"
    } else {
        proof { assert("9"@ =~= seq![spec_digit_char(9)]); }
        "9"
    }
}

/// `base`, a slash, and `rest`.
pub fn join_path(base: &str, rest: &str) -> (r: String)
    ensures
        r@ == base@ + "/"@ + rest@,
{
    let mut r = String::from_str(base);
    r.append("/");
    r.append(rest);
    proof {
        assert(r@ =~= base@ + "/"@ + rest@);
    }
    r
}

/// Decimal rendering of `n`.
pub fn u64_to_string(n: u64) -> (r: String)
    ensures
        r@ == spec_dec_digits(n as int),
    decreases n,
{
    if n < 10 {
        String::from_str(digit_str(n))
    } else {
        let prefix = u64_to_string(n / 10);
        let r = prefix.concat(digit_str(n % 10));
        proof {
            assert(r@ =~= spec_dec_digits(n as int));
        }
        r
    }
}

/// Parse a decimal `u64`: succeeds exactly on non-empty all-digit strings
/// whose value fits.
pub fn parse_u64(s: &str) -> (r: Option<u64>)
    ensures
        r matches Some(v) ==> spec_is_num(s@) && seq_to_int(s@) == v as int,
        r is None ==> !(spec_is_num(s@) && seq_to_int(s@) <= u64::MAX),
{
    let n = s.unicode_len();
    if n == 0 {
        return None;
    }
    let mut acc: u64 = 0;
    let mut i: usize = 0;
    while i < n
        invariant
            n == s@.len(),
            0 <= i <= n,
            spec_all_digits(s@.take(i as int)),
            acc as int == seq_to_int(s@.take(i as int)),
        decreases n - i,
    {
        let c = s.get_char(i);
        let u = c as u32;
        if u < 48 || u > 57 {
            proof {
                assert(!spec_is_digit(s@[i as int]));
            }
            return None;
        }
        let d = (u - 48) as u64;
        let step = match acc.checked_mul(10) {
            Some(m) => m.checked_add(d),
            None => None,
        };
        match step {
            Some(next) => {
                proof {
                    assert(s@.take(i + 1).drop_last() =~= s@.take(i as int));
                    assert(s@.take(i + 1).last() == s@[i as int]);
                    assert(spec_all_digits(s@.take(i + 1))) by {
                        assert(forall|j: int|
                            0 <= j < i + 1 ==> #[trigger] s@.take(i + 1)[j] == s@[j]);
                    }
                }
                acc = next;
                i = i + 1;
            },
            None => {
                proof {
                    assert(s@.take(i + 1).drop_last() =~= s@.take(i as int));
                    assert(s@.take(i + 1).last() == s@[i as int]);
                    assert(seq_to_int(s@.take(i + 1)) > u64::MAX);
                    if spec_all_digits(s@) {
                        lemma_seq_to_int_prefix(s@, i + 1);
                    }
                }
                return None;
            },
        }
    }
    proof {
        assert(s@.take(n as int) =~= s@);
    }
    Some(acc)
}

} // verus!
