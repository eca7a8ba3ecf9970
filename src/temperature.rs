//! Sampling temperature, held as the decimal text it was written in.
use vstd::prelude::*;
use vstd::string::*;

verus! {

pub open spec fn is_digit(c: char) -> bool {
    '0' <= c && c <= '9'
}

pub open spec fn all_digits(d: Seq<char>) -> bool {
    forall|i: int| 0 <= i < d.len() ==> is_digit(#[trigger] d[i])
}

/// The value of a string of decimal digits.
pub open spec fn digits_value(d: Seq<char>) -> nat
    decreases d.len(),
{
    if d.len() == 0 {
        0
    } else {
        digits_value(d.drop_last()) * 10 + ((d.last() as nat) - ('0' as nat)) as nat
    }
}

pub open spec fn pow10(e: nat) -> nat
    decreases e,
{
    if e == 0 {
        1
    } else {
        10 * pow10((e - 1) as nat)
    }
}

/// Whether the text starts with a minus sign.
pub open spec fn is_negative(s: Seq<char>) -> bool {
    s.len() > 0 && s[0] == '-'
}

/// The text without its minus sign.
pub open spec fn unsigned_part(s: Seq<char>) -> Seq<char> {
    if is_negative(s) {
        s.skip(1)
    } else {
        s
    }
}

/// `b` is digits, a point at `k`, and digits again.
pub open spec fn point_at(b: Seq<char>, k: int) -> bool {
    1 <= k && k + 1 < b.len() && b[k] == '.' && all_digits(b.take(k)) && all_digits(b.skip(k + 1))
}

/// A decimal literal: an optional minus sign, one or more digits, and
/// optionally a point followed by one or more digits.
pub open spec fn is_decimal(s: Seq<char>) -> bool {
    let b = unsigned_part(s);
    b.len() > 0 && (all_digits(b) || exists|k: int| point_at(b, k))
}

/// The digits before the point.
pub open spec fn whole_digits(s: Seq<char>) -> Seq<char> {
    let b = unsigned_part(s);
    if all_digits(b) {
        b
    } else {
        b.take(choose|k: int| point_at(b, k))
    }
}

/// The digits after the point (none where there is no point).
pub open spec fn fraction_digits(s: Seq<char>) -> Seq<char> {
    let b = unsigned_part(s);
    if all_digits(b) {
        Seq::empty()
    } else {
        b.skip((choose|k: int| point_at(b, k)) + 1)
    }
}

/// The decimal's value lies in the closed interval from 0 to 2: with `w` the
/// whole part, `f` the fraction digits read as an integer and `n` their
/// count, `0 <= ±(w + f / 10^n) <= 2`.
pub open spec fn temperature_in_range(s: Seq<char>) -> bool {
    let w = digits_value(whole_digits(s));
    let f = digits_value(fraction_digits(s));
    let p = pow10(fraction_digits(s).len());
    (is_negative(s) ==> w == 0 && f == 0) && w * p + f <= 2 * p
}

proof fn lemma_digits_step(d: Seq<char>, c: char)
    ensures
        digits_value(d.push(c)) == digits_value(d) * 10 + ((c as nat) - ('0' as nat)) as nat,
{
    assert(d.push(c).drop_last() =~= d);
}

proof fn lemma_fraction_below_pow(d: Seq<char>)
    requires
        all_digits(d),
    ensures
        digits_value(d) < pow10(d.len()),
    decreases d.len(),
{
    if d.len() > 0 {
        let e = d.drop_last();
        assert(all_digits(e)) by {
            assert forall|i: int| 0 <= i < e.len() implies is_digit(#[trigger] e[i]) by {
                assert(e[i] == d[i]);
            }
        }
        lemma_fraction_below_pow(e);
        assert(is_digit(d[d.len() - 1]));
        let x = digits_value(e);
        let q = pow10(e.len());
        assert(x + 1 <= q);
        assert(x * 10 + 10 <= q * 10) by (nonlinear_arith)
            requires
                x + 1 <= q,
        ;
    }
}

proof fn lemma_pow_positive(e: nat)
    ensures
        pow10(e) >= 1,
    decreases e,
{
    if e > 0 {
        lemma_pow_positive((e - 1) as nat);
    }
}

proof fn lemma_range_by_parts(w: nat, f: nat, p: nat)
    requires
        f < p,
        p >= 1,
    ensures
        (w * p + f <= 2 * p) == (w < 2 || (w == 2 && f == 0)),
{
    if w >= 3 {
        assert(w * p >= 3 * p) by (nonlinear_arith)
            requires
                w >= 3,
                p >= 1,
        ;
    } else if w == 2 {
        assert(w * p == 2 * p);
    } else if w == 1 {
        assert(w * p == p);
    } else {
        assert(w * p == 0);
    }
}

/// Reads the text once; `None` where it is no decimal literal, otherwise
/// whether its value lies in the allowed range.
fn scan_decimal(s: &str) -> (r: Option<bool>)
    ensures
        r is Some == is_decimal(s@),
        r is Some ==> r.unwrap() == temperature_in_range(s@),
{
    let n = s.unicode_len();
    let ghost t = s@;
    let neg = n > 0 && s.get_char(0) == '-';
    let start: usize = if neg {
        1
    } else {
        0
    };
    let ghost b = unsigned_part(t);
    assert(b =~= t.subrange(start as int, n as int));
    let mut i: usize = start;
    let mut whole: u64 = 0;
    while i < n && '0' <= s.get_char(i) && s.get_char(i) <= '9'
        invariant
            start <= i <= n,
            n == t.len(),
            t == s@,
            b == t.subrange(start as int, n as int),
            all_digits(t.subrange(start as int, i as int)),
            whole as nat == if digits_value(t.subrange(start as int, i as int)) < 3 {
                digits_value(t.subrange(start as int, i as int))
            } else {
                3
            },
        decreases n - i,
    {
        let c = s.get_char(i);
        let ghost pre = t.subrange(start as int, i as int);
        proof {
            lemma_digits_step(pre, c);
            assert(t.subrange(start as int, i + 1) =~= pre.push(c));
        }
        let d = (c as u32 - '0' as u32) as u64;
        whole = if whole * 10 + d < 3 {
            whole * 10 + d
        } else {
            3
        };
        i = i + 1;
    }
    let ghost wd = t.subrange(start as int, i as int);
    if i == start {
        assert(b.len() == 0 || !is_digit(b[0]));
        assert(!is_decimal(t)) by {
            if b.len() > 0 {
                assert(!all_digits(b));
                assert forall|k: int| !point_at(b, k) by {
                    if point_at(b, k) {
                        assert(b.take(k)[0] == b[0]);
                    }
                }
            }
        }
        return None;
    }
    if i == n {
        assert(wd =~= b);
        proof {
            reveal_with_fuel(pow10, 1);
            assert(fraction_digits(t) =~= Seq::<char>::empty());
            lemma_range_by_parts(digits_value(wd), 0, 1);
        }
        let r = (!neg || whole == 0) && whole <= 2;
        return Some(r);
    }
    let ghost k = (i - start) as int;
    if s.get_char(i) != '.' {
        assert(!is_decimal(t)) by {
            assert(!is_digit(b[k]));
            assert(!all_digits(b));
            assert forall|k2: int| !point_at(b, k2) by {
                if point_at(b, k2) {
                    if k2 < k {
                        assert(b.skip(k2 + 1)[k - k2 - 1] == b[k]);
                    } else if k2 > k {
                        assert(b.take(k2)[k] == b[k]);
                    }
                }
            }
        }
        return None;
    }
    let mut j: usize = i + 1;
    let mut zero: bool = true;
    while j < n && '0' <= s.get_char(j) && s.get_char(j) <= '9'
        invariant
            i + 1 <= j <= n,
            n == t.len(),
            t == s@,
            all_digits(t.subrange(i + 1, j as int)),
            zero == (digits_value(t.subrange(i + 1, j as int)) == 0),
        decreases n - j,
    {
        let c = s.get_char(j);
        let ghost pre = t.subrange(i + 1, j as int);
        proof {
            lemma_digits_step(pre, c);
            assert(t.subrange(i + 1, j + 1) =~= pre.push(c));
        }
        zero = zero && c == '0';
        j = j + 1;
    }
    let ghost fd = t.subrange(i + 1, j as int);
    if j == i + 1 || j < n {
        assert(!is_decimal(t)) by {
            assert(!is_digit(b[k]));
            assert(!all_digits(b));
            assert forall|k2: int| !point_at(b, k2) by {
                if point_at(b, k2) {
                    if k2 < k {
                        assert(b.skip(k2 + 1)[k - k2 - 1] == b[k]);
                    } else if k2 > k {
                        assert(b.take(k2)[k] == b[k]);
                    } else if j == i + 1 {
                        assert(b.skip(k2 + 1)[0] == b[k + 1]);
                    } else {
                        assert(b.skip(k2 + 1)[j - i - 1] == t[j as int]);
                    }
                }
            }
        }
        return None;
    }
    proof {
        assert(b.take(k) =~= wd);
        assert(b.skip(k + 1) =~= fd);
        assert(point_at(b, k));
        assert(!all_digits(b)) by {
            assert(!is_digit(b[k]));
        }
        let k2 = choose|k2: int| point_at(b, k2);
        assert(k2 == k) by {
            if k2 < k {
                assert(b.take(k)[k2] == b[k2]);
            } else if k2 > k {
                assert(b.take(k2)[k] == b[k]);
            }
        }
        lemma_fraction_below_pow(fd);
        lemma_pow_positive(fd.len());
        lemma_range_by_parts(digits_value(wd), digits_value(fd), pow10(fd.len()));
    }
    let r = (!neg || (whole == 0 && zero)) && (whole < 2 || (whole == 2 && zero));
    Some(r)
}

/// A sampling temperature, kept as the decimal literal it was written in.
#[derive(Debug)]
pub struct Temperature {
    text: String,
}

impl View for Temperature {
    type V = Seq<char>;

    closed spec fn view(&self) -> Seq<char> {
        self.text@
    }
}

impl Temperature {
    pub open spec fn wf(&self) -> bool {
        is_decimal(self@)
    }

    /// Takes a decimal literal; `None` where the text is not one.
    pub fn parse(s: &str) -> (r: Option<Temperature>)
        ensures
            r is Some == is_decimal(s@),
            r is Some ==> r.unwrap()@ == s@ && r.unwrap().wf(),
    {
        match scan_decimal(s) {
            Some(_) => Some(Temperature { text: String::from_str(s) }),
            None => None,
        }
    }

    /// Whether the value lies between 0 and 2, both included.
    pub fn in_range(&self) -> (r: bool)
        requires
            self.wf(),
        ensures
            r == temperature_in_range(self@),
    {
        scan_decimal(self.text.as_str()).unwrap()
    }

    /// The decimal literal.
    pub fn as_str(&self) -> (r: &str)
        ensures
            r@ == self@,
    {
        self.text.as_str()
    }
}

} // verus!
