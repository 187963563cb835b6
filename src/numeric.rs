//! Parsing of the unsigned integers and decimals that listing pages print.
use vstd::prelude::*;
use crate::text::chars_of;

verus! {

pub open spec fn is_digit(c: char) -> bool {
    '0' as u32 <= c as u32 <= '9' as u32
}

pub open spec fn all_digits(s: Seq<char>) -> bool {
    forall|i: int| 0 <= i < s.len() ==> is_digit(#[trigger] s[i])
}

/// The number that a run of decimal digits denotes.
pub open spec fn digits_value(s: Seq<char>) -> nat
    decreases s.len(),
{
    if s.len() == 0 {
        0
    } else {
        digits_value(s.drop_last()) * 10 + (s.last() as u32 - '0' as u32) as nat
    }
}

/// `s` as an unsigned integer no larger than `max`: an optional `+`, then one or more digits.
pub open spec fn unsigned_of(s: Seq<char>, max: nat) -> Option<nat> {
    let d = if s.len() > 0 && s[0] == '+' {
        s.drop_first()
    } else {
        s
    };
    if d.len() > 0 && all_digits(d) && digits_value(d) <= max {
        Some(digits_value(d))
    } else {
        None
    }
}

proof fn lemma_digits_prefix(s: Seq<char>, k: int)
    requires
        0 <= k <= s.len(),
        all_digits(s),
    ensures
        digits_value(s.subrange(0, k)) <= digits_value(s),
    decreases s.len(),
{
    if k < s.len() {
        assert(s.drop_last().subrange(0, k) =~= s.subrange(0, k));
        lemma_digits_prefix(s.drop_last(), k);
    } else {
        assert(s.subrange(0, k) =~= s);
    }
}

/// The value of `d` when it is all digits and at most `max`.
fn digits_value_exec(d: &[char], max: u64) -> (r: Option<u64>)
    ensures
        r == (if all_digits(d@) && digits_value(d@) <= max {
            Some(digits_value(d@) as u64)
        } else {
            None::<u64>
        }),
{
    let mut acc: u64 = 0;
    let mut i: usize = 0;
    assert(d@.subrange(0, 0) =~= Seq::<char>::empty());
    while i < d.len()
        invariant
            i <= d@.len(),
            all_digits(d@.subrange(0, i as int)),
            acc == digits_value(d@.subrange(0, i as int)),
            acc <= max,
        decreases d@.len() - i,
    {
        let c = d[i];
        let ghost pre = d@.subrange(0, i as int);
        assert(d@.subrange(0, i + 1).drop_last() =~= pre);
        if (c as u32) < ('0' as u32) || (c as u32) > ('9' as u32) {
            assert(!is_digit(d@[i as int]));
            return None;
        }
        let dig: u64 = (c as u32 - '0' as u32) as u64;
        i += 1;
        assert(all_digits(d@.subrange(0, i as int)));
        let next: Option<u64> = match acc.checked_mul(10) {
            Some(t) => t.checked_add(dig),
            None => None,
        };
        match next {
            Some(n) if n <= max => {
                acc = n;
            },
            _ => {
                proof {
                    if all_digits(d@) {
                        lemma_digits_prefix(d@, i as int);
                    }
                }
                return None;
            },
        }
    }
    assert(d@.subrange(0, i as int) =~= d@);
    Some(acc)
}

/// `s` as an unsigned integer no larger than `max`, the way `u32::from_str` reads one.
pub fn parse_unsigned(s: &[char], max: u64) -> (r: Option<u64>)
    requires
        max <= u32::MAX,
    ensures
        r matches Some(v) ==> unsigned_of(s@, max as nat) == Some(v as nat),
        r is None ==> unsigned_of(s@, max as nat) is None,
{
    let start: usize = if s.len() > 0 && s[0] == '+' {
        1
    } else {
        0
    };
    let ghost d = if s@.len() > 0 && s@[0] == '+' {
        s@.drop_first()
    } else {
        s@
    };
    assert(s@.subrange(start as int, s@.len() as int) =~= d);
    if start == s.len() {
        return None;
    }
    let (_, digits) = s.split_at(start);
    assert(digits@ =~= d);
    digits_value_exec(digits, max)
}

/// A decimal number: `mantissa / 10^scale`, negated when `negative` is set.
#[derive(Clone, Copy, Debug, PartialEq, Eq, Structural)]
pub struct Decimal {
    pub negative: bool,
    pub mantissa: u64,
    pub scale: u32,
}

/// Position `k` holds the first `.` of `b`.
pub open spec fn is_first_dot(b: Seq<char>, k: int) -> bool {
    &&& 0 <= k < b.len()
    &&& b[k] == '.'
    &&& forall|j: int| 0 <= j < k ==> #[trigger] b[j] != '.'
}

/// The digits before and after the first `.` of `b` (all of `b` and nothing, without one).
pub open spec fn decimal_parts(b: Seq<char>) -> (Seq<char>, Seq<char>) {
    if exists|k: int| is_first_dot(b, k) {
        let k = choose|k: int| is_first_dot(b, k);
        (b.subrange(0, k), b.subrange(k + 1, b.len() as int))
    } else {
        (b, Seq::empty())
    }
}

pub open spec fn sign_len(s: Seq<char>) -> int {
    if s.len() > 0 && (s[0] == '-' || s[0] == '+') {
        1
    } else {
        0
    }
}

/// `s` as a decimal: an optional sign, digits, and optionally a `.` followed by more digits,
/// with at least one digit in all, and a mantissa that fits in 64 bits.
pub open spec fn decimal_of(s: Seq<char>) -> Option<Decimal> {
    let b = s.subrange(sign_len(s), s.len() as int);
    let ip = decimal_parts(b).0;
    let fp = decimal_parts(b).1;
    let d = ip + fp;
    if d.len() > 0 && all_digits(d) && digits_value(d) <= u64::MAX && fp.len() <= u32::MAX {
        Some(
            Decimal {
                negative: s.len() > 0 && s[0] == '-',
                mantissa: digits_value(d) as u64,
                scale: fp.len() as u32,
            },
        )
    } else {
        None
    }
}

/// `s` as a decimal number.
pub fn parse_decimal(s: &[char]) -> (r: Option<Decimal>)
    ensures
        r == decimal_of(s@),
{
    let negative = s.len() > 0 && s[0] == '-';
    let start: usize = if s.len() > 0 && (s[0] == '-' || s[0] == '+') {
        1
    } else {
        0
    };
    let ghost b = s@.subrange(sign_len(s@), s@.len() as int);
    let mut k: usize = start;
    while k < s.len() && s[k] != '.'
        invariant
            start <= k <= s@.len(),
            start == sign_len(s@),
            forall|j: int| start <= j < k ==> s@[j] != '.',
        decreases s@.len() - k,
    {
        k += 1;
    }
    let mut d: Vec<char> = crate::text::sub_vec(s, start, k);
    let frac_len: usize;
    if k < s.len() {
        assert(is_first_dot(b, k - start));
        assert forall|j: int| #![auto] is_first_dot(b, j) implies j == k - start by {
            if j < k - start {
                assert(b[j] == s@[j + start]);
            } else if j > k - start {
                assert(b[k - start] == '.');
            }
        }
        let fp = crate::text::sub_vec(s, k + 1, s.len());
        assert(decimal_parts(b).0 =~= d@);
        assert(decimal_parts(b).1 =~= fp@);
        frac_len = fp.len();
        let mut i: usize = 0;
        let ghost d0 = d@;
        while i < fp.len()
            invariant
                i <= fp@.len(),
                d@ == d0 + fp@.subrange(0, i as int),
            decreases fp@.len() - i,
        {
            d.push(fp[i]);
            i += 1;
            assert(d@ =~= d0 + fp@.subrange(0, i as int));
        }
        assert(fp@.subrange(0, i as int) =~= fp@);
    } else {
        assert forall|j: int| !is_first_dot(b, j) by {
            if 0 <= j < b.len() {
                assert(b[j] == s@[j + start]);
            }
        }
        assert(decimal_parts(b).0 =~= d@);
        assert(d@ + Seq::<char>::empty() =~= d@);
        frac_len = 0;
    }
    if d.len() == 0 || frac_len > u32::MAX as usize {
        return None;
    }
    match digits_value_exec(d.as_slice(), u64::MAX) {
        Some(m) => Some(Decimal { negative, mantissa: m, scale: frac_len as u32 }),
        None => None,
    }
}

impl Decimal {
    /// `s` as a decimal number.
    pub fn parse(s: &str) -> (r: Option<Decimal>)
        ensures
            r == decimal_of(s@),
    {
        let cs = chars_of(s);
        parse_decimal(cs.as_slice())
    }
}

} // verus!
