//! Reading completion percentages out of the extraction tool's output lines.
use vstd::prelude::*;
use vstd::string::StringSliceAdditionalSpecFns;

verus! {

pub open spec fn is_digit(b: u8) -> bool {
    48 <= b && b <= 57
}

pub const PERCENT_SIGN: u8 = 37;

/// Number of ASCII digits immediately before position `i` of `s`.
pub open spec fn digits_before(s: Seq<u8>, i: int) -> nat
    decreases i,
{
    if 0 < i && i <= s.len() && is_digit(s[i - 1]) {
        1 + digits_before(s, i - 1)
    } else {
        0
    }
}

/// The decimal value of a run of ASCII digits.
pub open spec fn decimal_value(d: Seq<u8>) -> int
    decreases d.len(),
{
    if d.len() == 0 {
        0
    } else {
        decimal_value(d.drop_last()) * 10 + (d.last() as int - 48)
    }
}

/// The percentage announced at position `i`: a `%` right after a run of digits
/// whose value is at most 100.
pub open spec fn percent_at(s: Seq<u8>, i: int) -> Option<u8> {
    let k = digits_before(s, i) as int;
    let v = decimal_value(s.subrange(i - k, i));
    if s[i] == PERCENT_SIGN && k > 0 && v <= 100 {
        Some(v as u8)
    } else {
        None
    }
}

/// The first percentage announced at or after position `i`.
pub open spec fn first_percent_from(s: Seq<u8>, i: int) -> Option<u8>
    decreases s.len() - i,
{
    if i < 0 || i >= s.len() {
        None
    } else {
        match percent_at(s, i) {
            Some(p) => Some(p),
            None => first_percent_from(s, i + 1),
        }
    }
}

/// The percentage a tool output line reports, if any: the first `%` that follows
/// a run of digits of value at most 100.
pub open spec fn progress_of(s: Seq<u8>) -> Option<u8> {
    first_percent_from(s, 0)
}

proof fn lemma_decimal_nonneg(d: Seq<u8>)
    requires
        forall|j: int| 0 <= j < d.len() ==> is_digit(#[trigger] d[j]),
    ensures
        decimal_value(d) >= 0,
    decreases d.len(),
{
    if d.len() > 0 {
        lemma_decimal_nonneg(d.drop_last());
    }
}

proof fn lemma_digits_are_digits(s: Seq<u8>, i: int)
    requires
        0 <= i <= s.len(),
    ensures
        digits_before(s, i) <= i,
        forall|j: int|
            i - digits_before(s, i) <= j < i ==> is_digit(#[trigger] s[j]),
    decreases i,
{
    if 0 < i && is_digit(s[i - 1]) {
        lemma_digits_are_digits(s, i - 1);
    }
}

/// Parses one line of the extraction tool's output into a percentage.
pub fn parse_progress(line: &str) -> (r: Option<u8>)
    ensures
        r == progress_of(line.spec_bytes()),
        r matches Some(p) ==> p <= 100,
{
    let b = line.as_bytes();
    let ghost s = b@;
    let mut i: usize = 0;
    let mut run: usize = 0;
    let mut val: u8 = 0;
    while i < b.len()
        invariant
            s == b@,
            s == line.spec_bytes(),
            0 <= i <= s.len(),
            run as int == digits_before(s, i as int),
            val <= 101,
            val as int == (if decimal_value(s.subrange(i - run, i as int)) > 101 {
                101
            } else {
                decimal_value(s.subrange(i - run, i as int))
            }),
            first_percent_from(s, 0) == first_percent_from(s, i as int),
        decreases s.len() - i,
    {
        proof {
            lemma_digits_are_digits(s, i as int);
        }
        let c = b[i];
        if c == PERCENT_SIGN && run > 0 && val <= 100 {
            assert(percent_at(s, i as int) == Some(val));
            return Some(val);
        }
        assert(percent_at(s, i as int) is None);
        if 48 <= c && c <= 57 {
            proof {
                let a = s.subrange(i - run, i as int);
                let a2 = s.subrange(i - run, i + 1);
                assert(a2.drop_last() =~= a);
                assert(forall|j: int| 0 <= j < a.len() ==> #[trigger] a[j] == s[i - run + j]);
                lemma_decimal_nonneg(a);
                let x = decimal_value(a);
                let d = c as int - 48;
                assert(decimal_value(a2) == x * 10 + d);
                assert((if x > 101 { 101 } else { x }) * 10 + d > 101 <==> x * 10 + d > 101)
                    by (nonlinear_arith)
                    requires
                        x >= 0,
                        0 <= d <= 9,
                ;
            }
            let nv: u8 = if val > 10 { 101 } else if val * 10 + (c - 48) > 101 { 101 } else { val * 10 + (c - 48) };
            val = nv;
            run = run + 1;
        } else {
            run = 0;
            val = 0;
            proof {
                assert(s.subrange(i + 1, i + 1) =~= Seq::<u8>::empty());
            }
        }
        i = i + 1;
    }
    None
}

} // verus!
