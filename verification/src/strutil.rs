//! Verified text helpers: prefix test, first occurrence of a pattern, and
//! substring containment, over the character view of `str`.

use vstd::prelude::*;

verus! {

/// The pattern occurs in `s` starting at position `i`.
pub open spec fn occurs_at(s: Seq<char>, pat: Seq<char>, i: int) -> bool {
    &&& 0 <= i
    &&& i + pat.len() <= s.len()
    &&& forall|k: int| 0 <= k < pat.len() ==> s[i + k] == pat[k]
}

/// The pattern occurs somewhere in `s`.
pub open spec fn occurs(s: Seq<char>, pat: Seq<char>) -> bool {
    exists|i: int| occurs_at(s, pat, i)
}

/// Whether `s` begins with `prefix`.
pub fn str_starts_with(s: &str, prefix: &str) -> (b: bool)
    ensures
        b == occurs_at(s@, prefix@, 0),
{
    let n = s.unicode_len();
    let m = prefix.unicode_len();
    if m > n {
        return false;
    }
    let mut k: usize = 0;
    while k < m
        invariant
            0 <= k <= m,
            m <= n,
            n == s@.len(),
            m == prefix@.len(),
            forall|j: int| 0 <= j < k ==> s@[j] == prefix@[j],
        decreases m - k,
    {
        if s.get_char(k) != prefix.get_char(k) {
            return false;
        }
        k = k + 1;
    }
    true
}

/// The position of the first occurrence of `pat` in `s`, if any.
pub fn str_find(s: &str, pat: &str) -> (r: Option<usize>)
    ensures
        match r {
            Some(i) => occurs_at(s@, pat@, i as int) && forall|j: int|
                0 <= j < i ==> !occurs_at(s@, pat@, j),
            None => !occurs(s@, pat@),
        },
{
    let n = s.unicode_len();
    let m = pat.unicode_len();
    if m > n {
        assert(forall|i: int| occurs_at(s@, pat@, i) ==> i + pat@.len() <= s@.len());
        return None;
    }
    let mut i: usize = 0;
    while i <= n - m
        invariant
            0 <= i <= n - m + 1,
            m <= n,
            n == s@.len(),
            m == pat@.len(),
            forall|j: int| 0 <= j < i ==> !occurs_at(s@, pat@, j),
        decreases n + 1 - i,
    {
        let mut k: usize = 0;
        let mut hit = true;
        while k < m
            invariant
                0 <= k <= m,
                i + m <= n,
                n == s@.len(),
                m == pat@.len(),
                hit ==> forall|j: int| 0 <= j < k ==> s@[i + j] == pat@[j],
                !hit ==> !occurs_at(s@, pat@, i as int),
            decreases m - k,
        {
            if s.get_char(i + k) != pat.get_char(k) {
                assert(s@[i + k] != pat@[k as int]);
                assert(!occurs_at(s@, pat@, i as int));
                hit = false;
                k = m;
            } else {
                k = k + 1;
            }
        }
        if hit {
            return Some(i);
        }
        i = i + 1;
    }
    assert(forall|j: int| occurs_at(s@, pat@, j) ==> 0 <= j <= n - m);
    None
}

/// Whether two strings hold the same characters.
pub fn str_eq(a: &str, b: &str) -> (r: bool)
    ensures
        r == (a@ == b@),
{
    let n = a.unicode_len();
    let m = b.unicode_len();
    if n != m {
        return false;
    }
    let mut i: usize = 0;
    while i < n
        invariant
            0 <= i <= n,
            n == a@.len(),
            n == b@.len(),
            forall|j: int| 0 <= j < i ==> a@[j] == b@[j],
        decreases n - i,
    {
        if a.get_char(i) != b.get_char(i) {
            return false;
        }
        i = i + 1;
    }
    proof {
        assert(a@ =~= b@);
    }
    true
}

/// Whether `pat` occurs somewhere in `s`.
pub fn str_contains(s: &str, pat: &str) -> (b: bool)
    ensures
        b == occurs(s@, pat@),
{
    str_find(s, pat).is_some()
}

/// The value of a sequence of decimal digits.
pub open spec fn dec_val(s: Seq<char>) -> int
    decreases s.len(),
{
    if s.len() == 0 {
        0
    } else {
        dec_val(s.drop_last()) * 10 + (s.last() as int - '0' as int)
    }
}

/// Every character is a decimal digit.
pub open spec fn all_digits(s: Seq<char>) -> bool {
    forall|i: int| 0 <= i < s.len() ==> '0' <= #[trigger] s[i] <= '9'
}

/// Ten to the `n`.
pub open spec fn pow10(n: nat) -> int
    decreases n,
{
    if n == 0 {
        1
    } else {
        10 * pow10((n - 1) as nat)
    }
}

/// `s` is the canonical decimal numeral of `n`: the right digits and no
/// leading zero, behind a minus sign when `n` is negative.
pub open spec fn is_decimal_of(s: Seq<char>, n: int) -> bool {
    if n >= 0 {
        s.len() > 0 && all_digits(s) && dec_val(s) == n && (s.len() == 1 || s[0] != '0')
    } else {
        s.len() > 1 && s[0] == '-' && all_digits(s.drop_first()) && dec_val(s.drop_first()) == -n
            && (s.drop_first().len() == 1 || s.drop_first()[0] != '0')
    }
}

/// A sequence of digits has a non-negative value.
pub proof fn lemma_dec_val_nonneg(s: Seq<char>)
    requires
        all_digits(s),
    ensures
        dec_val(s) >= 0,
    decreases s.len(),
{
    if s.len() > 0 {
        assert(all_digits(s.drop_last())) by {
            assert(forall|j: int| 0 <= j < s.len() - 1 ==> #[trigger] s.drop_last()[j] == s[j]);
        }
        lemma_dec_val_nonneg(s.drop_last());
    }
}

/// Within a sequence of digits, a prefix never has a larger value than the
/// whole.
pub proof fn lemma_dec_val_prefix_le(s: Seq<char>, i: int)
    requires
        0 <= i <= s.len(),
        all_digits(s),
    ensures
        dec_val(s.take(i)) <= dec_val(s),
    decreases s.len() - i,
{
    if i == s.len() {
        assert(s.take(i) =~= s);
    } else {
        lemma_dec_val_prefix_le(s, i + 1);
        assert(s.take(i + 1).drop_last() =~= s.take(i));
        assert(all_digits(s.take(i))) by {
            assert(forall|j: int| 0 <= j < i ==> #[trigger] s.take(i)[j] == s[j]);
        }
        lemma_dec_val_nonneg(s.take(i));
        assert(s.take(i + 1).last() == s[i]);
        assert(dec_val(s.take(i + 1)) == dec_val(s.take(i)) * 10 + (s.take(i + 1).last() as int
            - '0' as int));
    }
}

/// Putting a digit in front multiplies its value by ten to the length of what
/// follows.
proof fn lemma_dec_val_prepend(c: char, s: Seq<char>)
    ensures
        dec_val(seq![c] + s) == (c as int - '0' as int) * pow10(s.len()) + dec_val(s),
    decreases s.len(),
{
    let t = seq![c] + s;
    if s.len() == 0 {
        assert(t =~= seq![c]);
        assert(t.len() == 1);
        assert(t.last() == c);
        assert(t.drop_last() =~= Seq::<char>::empty());
        assert(dec_val(Seq::<char>::empty()) == 0);
        assert(dec_val(t) == dec_val(t.drop_last()) * 10 + (t.last() as int - '0' as int));
        assert(pow10(s.len()) == 1);
    } else {
        assert(t.drop_last() =~= seq![c] + s.drop_last());
        lemma_dec_val_prepend(c, s.drop_last());
        assert(t.last() == s.last());
        let d = c as int - '0' as int;
        let p = pow10(s.drop_last().len());
        let a = dec_val(s.drop_last());
        assert(s.drop_last().len() == (s.len() - 1) as nat);
        assert(pow10(s.len()) == 10 * p);
        assert(dec_val(t) == dec_val(t.drop_last()) * 10 + (t.last() as int - '0' as int));
        assert(dec_val(t.drop_last()) == d * p + a);
        assert((d * p + a) * 10 == d * (10 * p) + a * 10) by (nonlinear_arith);
        assert(dec_val(s) == a * 10 + (s.last() as int - '0' as int));
    }
}

/// One decimal digit as text.
fn digit_str(d: u32) -> (r: &'static str)
    requires
        d < 10,
    ensures
        r@.len() == 1,
        r@[0] as int == '0' as int + d,
        '0' <= r@[0] <= '9',
{
    proof {
        reveal_strlit("0");
        reveal_strlit("1");
        reveal_strlit("2");
        reveal_strlit("3");
        reveal_strlit("4");
        reveal_strlit("5");
        reveal_strlit("6");
        reveal_strlit("7");
        reveal_strlit("8");
        reveal_strlit("9");
        assert("0"@.len() == 1 && "0"@[0] == '0');
        assert("1"@.len() == 1 && "1"@[0] == '1');
        assert("2"@.len() == 1 && "2"@[0] == '2');
        assert("3"@.len() == 1 && "3"@[0] == '3');
        assert("4"@.len() == 1 && "4"@[0] == '4');
        assert("5"@.len() == 1 && "5"@[0] == '5');
        assert("6"@.len() == 1 && "6"@[0] == '6');
        assert("7"@.len() == 1 && "7"@[0] == '7');
        assert("8"@.len() == 1 && "8"@[0] == '8');
        assert("9"@.len() == 1 && "9"@[0] == '9');
    }
    match d {
        0 => "0",
        1 => "1",
        2 => "2",
        3 => "3",
        4 => "4",
        5 => "5",
        6 => "6",
        7 => "7",
        8 => "8",
        _ => "9",
    }
}

/// Renders a number as its canonical decimal numeral.
pub fn decimal_string(n: u32) -> (r: String)
    ensures
        is_decimal_of(r@, n as int),
{
    if n == 0 {
        let r = String::from_str("0");
        proof {
            reveal_strlit("0");
            assert(r@.len() == 1 && r@[0] == '0');
            assert(r@.last() == '0');
            assert(r@.drop_last() =~= Seq::<char>::empty());
            assert(dec_val(Seq::<char>::empty()) == 0);
            assert(dec_val(r@) == dec_val(r@.drop_last()) * 10 + (r@.last() as int - '0' as int));
        }
        return r;
    }
    let mut out = String::new();
    let mut rest = n;
    while rest > 0
        invariant
            dec_val(out@) + (rest as int) * pow10(out@.len()) == n as int,
            all_digits(out@),
            rest == 0 ==> out@.len() > 0 && out@[0] != '0',
        decreases rest,
    {
        let d = rest % 10;
        let ds = digit_str(d);
        let ghost before = out@;
        out = ds.to_owned().concat(out.as_str());
        proof {
            assert(out@ =~= seq![ds@[0]] + before);
            lemma_dec_val_prepend(ds@[0], before);
            let p = pow10(before.len());
            assert(pow10(out@.len()) == 10 * p);
            assert((rest / 10) as int * (10 * p) + (d as int) * p == (rest as int) * p)
                by (nonlinear_arith)
                requires
                    rest as int == 10 * ((rest / 10) as int) + d as int,
            {
            }
            assert(all_digits(out@)) by {
                assert(forall|j: int|
                    1 <= j < out@.len() ==> #[trigger] out@[j] == before[j - 1]);
            }
            if rest / 10 == 0 {
                assert(out@[0] as int == '0' as int + d);
                assert(d > 0);
            }
        }
        rest = rest / 10;
    }
    out
}

/// Renders a signed number as its canonical decimal numeral.
pub fn decimal_string_i32(n: i32) -> (r: String)
    ensures
        is_decimal_of(r@, n as int),
{
    if n >= 0 {
        decimal_string(n as u32)
    } else {
        let magnitude: u32 = (-(n as i64)) as u32;
        let digits = decimal_string(magnitude);
        let r = String::from_str("-").concat(digits.as_str());
        proof {
            reveal_strlit("-");
            assert("-"@.len() == 1 && "-"@[0] == '-');
            assert(r@.len() == 1 + digits@.len());
            assert(r@[0] == '-');
            assert(r@.drop_first() =~= digits@);
        }
        r
    }
}

} // verus!
