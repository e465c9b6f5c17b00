// Decimal conversions for the one numeric value the engine computes with:
// the LIMIT of a range query. Parsing and printing are specified against a
// single digit-sequence model so that a round trip is provable.

use vstd::prelude::*;

verus! {

pub open spec fn spec_is_digit(c: char) -> bool {
    '0' <= c && c <= '9'
}

pub open spec fn spec_digit_val(c: char) -> nat {
    (c as nat - '0' as nat) as nat
}

pub open spec fn spec_all_digits(s: Seq<char>) -> bool {
    forall|i: int| 0 <= i < s.len() ==> spec_is_digit(#[trigger] s[i])
}

/// The value of a digit string, most significant digit first.
pub open spec fn spec_dec_val(s: Seq<char>) -> nat
    decreases s.len(),
{
    if s.len() == 0 {
        0
    } else {
        spec_dec_val(s.drop_last()) * 10 + spec_digit_val(s.last())
    }
}

/// What `parse_u64` returns: the numeric value of a non-empty all-digit
/// string whose value fits in a `u64`, and nothing else.
pub open spec fn spec_parse_u64(s: Seq<char>) -> Option<u64> {
    if s.len() > 0 && spec_all_digits(s) && spec_dec_val(s) <= u64::MAX {
        Some(spec_dec_val(s) as u64)
    } else {
        None
    }
}

/// The decimal digit string of `n`, without sign or leading zeros
/// (except for the single digit of zero itself).
pub open spec fn spec_u64_digits(n: nat) -> Seq<char>
    decreases n,
{
    if n < 10 {
        seq![spec_digit_char(n)]
    } else {
        spec_u64_digits(n / 10).push(spec_digit_char(n % 10))
    }
}

pub open spec fn spec_digit_char(d: nat) -> char {
    (('0' as nat + d) as u8) as char
}

proof fn lemma_dec_val_prefix_step(s: Seq<char>, i: int)
    requires
        0 <= i < s.len(),
    ensures
        spec_dec_val(s.subrange(0, i + 1)) == spec_dec_val(s.subrange(0, i)) * 10 + spec_digit_val(
            s[i],
        ),
{
    let t = s.subrange(0, i + 1);
    assert(t.drop_last() =~= s.subrange(0, i));
    assert(t.last() == s[i]);
}

proof fn lemma_dec_val_monotonic(s: Seq<char>, i: int)
    requires
        0 <= i <= s.len(),
        spec_all_digits(s),
    ensures
        spec_dec_val(s.subrange(0, i)) <= spec_dec_val(s),
    decreases s.len() - i,
{
    if i == s.len() {
        assert(s.subrange(0, i) =~= s);
    } else {
        lemma_dec_val_prefix_step(s, i);
        lemma_dec_val_monotonic(s, i + 1);
    }
}

/// Parse a non-negative decimal integer, rejecting anything that is not a
/// plain digit string or does not fit in a `u64`.
pub fn parse_u64(s: &str) -> (r: Option<u64>)
    ensures
        r == spec_parse_u64(s@),
{
    let n: usize = s.unicode_len();
    if n == 0 {
        return None;
    }
    let mut acc: u64 = 0;
    let mut i: usize = 0;
    while i < n
        invariant
            n == s@.len(),
            0 < n,
            i <= n,
            spec_all_digits(s@.subrange(0, i as int)),
            acc == spec_dec_val(s@.subrange(0, i as int)),
        decreases n - i,
    {
        let c = s.get_char(i);
        if c < '0' || c > '9' {
            assert(!spec_is_digit(s@[i as int]));
            return None;
        }
        let d: u64 = (c as u32 as u64) - ('0' as u32 as u64);
        assert(d == spec_digit_val(s@[i as int]));
        if acc > (u64::MAX - d) / 10 {
            proof {
                lemma_dec_val_prefix_step(s@, i as int);
                assert(spec_dec_val(s@.subrange(0, i as int + 1)) > u64::MAX) by (nonlinear_arith)
                    requires
                        spec_dec_val(s@.subrange(0, i as int + 1)) == acc * 10 + d,
                        acc > (u64::MAX - d) / 10,
                        d <= 9,
                ;
                if spec_all_digits(s@) {
                    lemma_dec_val_monotonic(s@, i as int + 1);
                }
            }
            return None;
        }
        proof {
            lemma_dec_val_prefix_step(s@, i as int);
            assert(acc * 10 + d <= u64::MAX) by (nonlinear_arith)
                requires
                    acc <= (u64::MAX - d) / 10,
                    d <= 9,
            ;
        }
        acc = acc * 10 + d;
        i += 1;
    }
    assert(s@.subrange(0, n as int) =~= s@);
    Some(acc)
}

/// The decimal model is coherent: printing a value and reading it back
/// yields the value itself.
pub proof fn lemma_dec_round_trip(n: u64)
    ensures
        spec_parse_u64(spec_u64_digits(n as nat)) == Some(n),
    decreases n,
{
    lemma_digits_value(n as nat);
    lemma_digits_all_digits(n as nat);
    assert(spec_u64_digits(n as nat).len() > 0);
}

proof fn lemma_digit_char_val(d: nat)
    requires
        d < 10,
    ensures
        spec_digit_val(spec_digit_char(d)) == d,
{
    assert(('0' as nat) + d < 256);
    assert(((('0' as nat) + d) as u8) as nat == ('0' as nat) + d);
    assert((((('0' as nat) + d) as u8) as char) as nat == ((('0' as nat) + d) as u8) as nat);
}

proof fn lemma_digits_value(n: nat)
    ensures
        spec_dec_val(spec_u64_digits(n)) == n,
    decreases n,
{
    if n < 10 {
        lemma_digit_char_val(n);
        let ds = spec_u64_digits(n);
        assert(ds.drop_last() =~= Seq::<char>::empty());
        assert(spec_dec_val(Seq::<char>::empty()) == 0);
        assert(ds.last() == spec_digit_char(n));
        assert(spec_dec_val(ds) == spec_dec_val(ds.drop_last()) * 10 + spec_digit_val(ds.last()));
        assert(spec_dec_val(ds) == n);
    } else {
        lemma_digit_char_val(n % 10);
        lemma_digits_value(n / 10);
        let ds = spec_u64_digits(n);
        assert(ds.drop_last() =~= spec_u64_digits(n / 10));
        assert(ds.last() == spec_digit_char(n % 10));
        assert(spec_digit_val(spec_digit_char(n % 10)) == n % 10);
        assert((n / 10) * 10 + n % 10 == n) by (nonlinear_arith);
        assert(spec_dec_val(ds) == spec_dec_val(ds.drop_last()) * 10 + spec_digit_val(ds.last()));
        assert(spec_dec_val(ds) == n);
    }
}

proof fn lemma_digits_all_digits(n: nat)
    ensures
        spec_all_digits(spec_u64_digits(n)),
    decreases n,
{
    if n < 10 {
        lemma_digit_char_val(n);
        assert(spec_is_digit(spec_digit_char(n)));
    } else {
        lemma_digit_char_val(n % 10);
        lemma_digits_all_digits(n / 10);
        let ds = spec_u64_digits(n);
        assert(ds.drop_last() =~= spec_u64_digits(n / 10));
        assert(spec_is_digit(spec_digit_char(n % 10)));
        assert forall|i: int| 0 <= i < ds.len() implies spec_is_digit(#[trigger] ds[i]) by {
            if i < ds.len() - 1 {
                assert(ds[i] == spec_u64_digits(n / 10)[i]);
            }
        }
    }
}

fn digit_str(d: u64) -> (r: &'static str)
    requires
        d < 10,
    ensures
        r@ =~= seq![spec_digit_char(d as nat)],
{
    proof {
        reveal_strlit("0");
        reveal_strlit("1");
        reveal_strlit("2");
        reveal_strlit("3");
        reveal_strlit("4");
        reveal_strlit("5");
        reveal_strlit("6");
        reveal_strlit("7");
        reveal_strlit("8");
        reveal_strlit("9");
    }
    if d == 0 {
        "0"
    } else if d == 1 {
        "1"
    } else if d == 2 {
        "2"
    } else if d == 3 {
        "3"
    } else if d == 4 {
        "4"
    } else if d == 5 {
        "5"
    } else if d == 6 {
        "6"
    } else if d == 7 {
        "7"
    } else if d == 8 {
        "8"
    } else {
        "9"
    }
}

/// Print `n` in decimal.
pub fn u64_to_dec_string(n: u64) -> (r: String)
    ensures
        r@ == spec_u64_digits(n as nat),
    decreases n,
{
    if n < 10 {
        digit_str(n).to_owned()
    } else {
        let mut s = u64_to_dec_string(n / 10);
        s.append(digit_str(n % 10));
        assert(s@ =~= spec_u64_digits(n as nat));
        s
    }
}

} // verus!
