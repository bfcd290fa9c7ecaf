//! Character-level helpers: decimal numbers as text, both ways, and the
//! string-building primitives that the rest of the library writes with.

use vstd::prelude::*;
use vstd::string::*;

verus! {

/// An ASCII decimal digit.
pub open spec fn is_digit(c: char) -> bool {
    '0' <= c && c <= '9'
}

/// The value of an ASCII decimal digit.
pub open spec fn digit_value(c: char) -> int {
    c as int - '0' as int
}

/// The ASCII digit for a value below ten.
pub open spec fn digit_char(d: int) -> char {
    if d == 0 {
        '0'
    } else if d == 1 {
        '1'
    } else if d == 2 {
        '2'
    } else if d == 3 {
        '3'
    } else if d == 4 {
        '4'
    } else if d == 5 {
        '5'
    } else if d == 6 {
        '6'
    } else if d == 7 {
        '7'
    } else if d == 8 {
        '8'
    } else {
        '9'
    }
}

pub open spec fn all_digits(s: Seq<char>) -> bool {
    forall|i: int| 0 <= i < s.len() ==> is_digit(#[trigger] s[i])
}

/// The number that a run of decimal digits spells, most significant first.
pub open spec fn digits_value(s: Seq<char>) -> nat
    decreases s.len(),
{
    if s.len() == 0 {
        0
    } else {
        (digits_value(s.drop_last()) * 10 + digit_value(s.last())) as nat
    }
}

/// What the standard library's unsigned integer parsing reads from `s`,
/// before any bound: an optional leading `+`, then one or more ASCII digits.
pub open spec fn unsigned_text_value(s: Seq<char>) -> Option<nat> {
    let t = if s.len() > 0 && s[0] == '+' {
        s.drop_first()
    } else {
        s
    };
    if t.len() > 0 && all_digits(t) {
        Some(digits_value(t))
    } else {
        None
    }
}

/// Unsigned parsing into a type whose largest value is `max`: the value,
/// or `None` for malformed text or a value that does not fit.
pub open spec fn parse_unsigned(s: Seq<char>, max: nat) -> Option<nat> {
    match unsigned_text_value(s) {
        Some(v) => if v <= max {
            Some(v)
        } else {
            None
        },
        None => None,
    }
}

/// The shortest decimal spelling of `n`.
pub open spec fn decimal(n: nat) -> Seq<char>
    decreases n,
{
    if n < 10 {
        seq![digit_char(n as int)]
    } else {
        decimal(n / 10).push(digit_char((n % 10) as int))
    }
}

pub open spec fn zeros(k: nat) -> Seq<char> {
    Seq::new(k, |_i: int| '0')
}

/// `n` in decimal, padded on the left with zeros to at least `width` characters.
pub open spec fn zero_padded(n: nat, width: nat) -> Seq<char> {
    let d = decimal(n);
    if d.len() >= width {
        d
    } else {
        zeros((width - d.len()) as nat) + d
    }
}

pub open spec fn pow10(w: nat) -> nat
    decreases w,
{
    if w == 0 {
        1
    } else {
        10 * pow10((w - 1) as nat)
    }
}

pub proof fn lemma_digit_char(d: int)
    requires
        0 <= d < 10,
    ensures
        is_digit(digit_char(d)),
        digit_value(digit_char(d)) == d,
{
}

pub proof fn lemma_decimal(n: nat)
    ensures
        decimal(n).len() >= 1,
        all_digits(decimal(n)),
        digits_value(decimal(n)) == n,
    decreases n,
{
    if n < 10 {
        lemma_digit_char(n as int);
        assert(decimal(n).drop_last() =~= Seq::<char>::empty());
        assert(digits_value(Seq::<char>::empty()) == 0);
    } else {
        lemma_decimal(n / 10);
        lemma_digit_char((n % 10) as int);
        let d = decimal(n);
        assert(d.drop_last() =~= decimal(n / 10));
        assert(d.last() == digit_char((n % 10) as int));
        assert((n / 10) * 10 + n % 10 == n);
        assert forall|i: int| 0 <= i < d.len() implies is_digit(#[trigger] d[i]) by {
            if i < d.len() - 1 {
                assert(d[i] == decimal(n / 10)[i]);
            }
        }
    }
}

pub proof fn lemma_decimal_len(n: nat, w: nat)
    requires
        n < pow10(w),
        w >= 1,
    ensures
        decimal(n).len() <= w,
    decreases n,
{
    if n >= 10 {
        assert(w >= 2) by {
            if w == 1 {
                assert(pow10(0) == 1);
            }
        }
        assert(pow10(w) == 10 * pow10((w - 1) as nat));
        lemma_decimal_len(n / 10, (w - 1) as nat);
    }
}

pub proof fn lemma_pow10_20()
    ensures
        pow10(20) == 100000000000000000000nat,
        pow10(4) == 10000,
        pow10(2) == 100,
{
    reveal_with_fuel(pow10, 21);
}

pub proof fn lemma_zeros_value(z: nat, s: Seq<char>)
    ensures
        digits_value(zeros(z) + s) == digits_value(s),
    decreases s.len(), z,
{
    if s.len() == 0 {
        assert(zeros(z) + s =~= zeros(z));
        if z > 0 {
            assert(zeros(z).drop_last() =~= zeros((z - 1) as nat));
            lemma_zeros_value((z - 1) as nat, s);
            assert(zeros((z - 1) as nat) + s =~= zeros((z - 1) as nat));
        }
    } else {
        assert((zeros(z) + s).drop_last() =~= zeros(z) + s.drop_last());
        lemma_zeros_value(z, s.drop_last());
    }
}

/// The digits of a zero-padded number read back as that number.
pub proof fn lemma_zero_padded(n: nat, width: nat)
    ensures
        all_digits(zero_padded(n, width)),
        digits_value(zero_padded(n, width)) == n,
        zero_padded(n, width).len() >= width,
        zero_padded(n, width).len() >= 1,
        width >= 1 && n < pow10(width) ==> zero_padded(n, width).len() == width,
{
    lemma_decimal(n);
    let d = decimal(n);
    if d.len() < width {
        lemma_zeros_value((width - d.len()) as nat, d);
        let p = zero_padded(n, width);
        assert forall|i: int| 0 <= i < p.len() implies is_digit(#[trigger] p[i]) by {
            if i >= width - d.len() {
                assert(p[i] == d[i - (width - d.len())]);
            }
        }
    }
    if width >= 1 && n < pow10(width) {
        lemma_decimal_len(n, width);
    }
}

/// A run of decimal digits reads below the next power of ten.
pub proof fn lemma_digits_value_bound(s: Seq<char>)
    requires
        all_digits(s),
    ensures
        digits_value(s) < pow10(s.len()),
    decreases s.len(),
{
    if s.len() > 0 {
        let t = s.drop_last();
        assert(all_digits(t)) by {
            assert forall|i: int| 0 <= i < t.len() implies is_digit(#[trigger] t[i]) by {
                assert(t[i] == s[i]);
            }
        }
        lemma_digits_value_bound(t);
        assert(is_digit(s[s.len() - 1]));
        assert(pow10(s.len()) == 10 * pow10((s.len() - 1) as nat));
    }
}

/// Reads `chars[start..end]` as a run of decimal digits (nothing else
/// allowed), or `None`.
pub fn read_digits(chars: &Vec<char>, start: usize, end: usize) -> (r: Option<u32>)
    requires
        start <= end <= chars.len(),
        end - start <= 9,
    ensures
        match r {
            Some(v) => all_digits(chars@.subrange(start as int, end as int)) && v == digits_value(
                chars@.subrange(start as int, end as int),
            ),
            None => !all_digits(chars@.subrange(start as int, end as int)),
        },
{
    let ghost s = chars@.subrange(start as int, end as int);
    let mut i = start;
    let mut value: u32 = 0;
    while i < end
        invariant
            start <= i <= end,
            end <= chars.len(),
            end - start <= 9,
            s == chars@.subrange(start as int, end as int),
            all_digits(chars@.subrange(start as int, i as int)),
            value == digits_value(chars@.subrange(start as int, i as int)),
        decreases end - i,
    {
        let c = chars[i];
        if !('0' <= c && c <= '9') {
            assert(s[i - start] == c);
            assert(!is_digit(s[i - start]));
            return None;
        }
        let ghost prefix = chars@.subrange(start as int, i as int);
        let ghost next = chars@.subrange(start as int, i + 1);
        assert(next.drop_last() =~= prefix);
        assert(next.last() == c);
        assert(all_digits(next)) by {
            assert forall|j: int| 0 <= j < next.len() implies is_digit(#[trigger] next[j]) by {
                if j < prefix.len() {
                    assert(next[j] == prefix[j]);
                }
            }
        }
        proof {
            lemma_digits_value_bound(prefix);
            lemma_pow10_9(prefix.len());
        }
        value = value * 10 + (c as u32 - '0' as u32);
        i = i + 1;
    }
    Some(value)
}

proof fn lemma_pow10_9(k: nat)
    requires
        k <= 8,
    ensures
        pow10(k) <= 100000000,
    decreases k,
{
    reveal_with_fuel(pow10, 10);
    if k > 0 {
        lemma_pow10_9((k - 1) as nat);
    }
}

/// `a` comes no later than `b` in dictionary order of characters.
pub open spec fn text_le(a: Seq<char>, b: Seq<char>) -> bool
    decreases a.len(),
{
    if a.len() == 0 {
        true
    } else if b.len() == 0 {
        false
    } else if (a[0] as int) < (b[0] as int) {
        true
    } else if a[0] == b[0] {
        text_le(a.drop_first(), b.drop_first())
    } else {
        false
    }
}

/// A shared prefix does not change the order.
pub proof fn lemma_text_le_prefix(p: Seq<char>, x: Seq<char>, y: Seq<char>)
    ensures
        text_le(p + x, p + y) == text_le(x, y),
    decreases p.len(),
{
    if p.len() > 0 {
        assert((p + x).drop_first() =~= p.drop_first() + x);
        assert((p + y).drop_first() =~= p.drop_first() + y);
        assert((p + x)[0] == p[0]);
        assert((p + y)[0] == p[0]);
        lemma_text_le_prefix(p.drop_first(), x, y);
    } else {
        assert(p + x =~= x);
        assert(p + y =~= y);
    }
}

/// Two different texts of one length keep their order whatever follows them.
pub proof fn lemma_text_le_extend(a: Seq<char>, b: Seq<char>, x: Seq<char>, y: Seq<char>)
    requires
        a.len() == b.len(),
        a != b,
        text_le(a, b),
    ensures
        text_le(a + x, b + y),
    decreases a.len(),
{
    if a.len() == 0 {
        assert(a =~= b);
    } else {
        assert((a + x)[0] == a[0]);
        assert((b + y)[0] == b[0]);
        if a[0] == b[0] {
            assert(a.drop_first() != b.drop_first()) by {
                if a.drop_first() == b.drop_first() {
                    assert(a =~= b) by {
                        assert forall|i: int| 0 <= i < a.len() implies a[i] == b[i] by {
                            if i > 0 {
                                assert(a[i] == a.drop_first()[i - 1]);
                                assert(b[i] == b.drop_first()[i - 1]);
                            }
                        }
                    }
                }
            }
            assert((a + x).drop_first() =~= a.drop_first() + x);
            assert((b + y).drop_first() =~= b.drop_first() + y);
            lemma_text_le_extend(a.drop_first(), b.drop_first(), x, y);
        }
    }
}

proof fn lemma_all_digits_drop_first(s: Seq<char>)
    requires
        s.len() > 0,
        all_digits(s),
    ensures
        all_digits(s.drop_first()),
{
    let t = s.drop_first();
    assert forall|i: int| 0 <= i < t.len() implies is_digit(#[trigger] t[i]) by {
        assert(t[i] == s[i + 1]);
    }
}

/// Reading a run of digits from the front.
pub proof fn lemma_digits_front(s: Seq<char>)
    requires
        s.len() > 0,
        all_digits(s),
    ensures
        digits_value(s) == digit_value(s[0]) * pow10((s.len() - 1) as nat) + digits_value(
            s.drop_first(),
        ),
    decreases s.len(),
{
    let k = (s.len() - 1) as nat;
    if s.len() == 1 {
        assert(s.drop_last() =~= Seq::<char>::empty());
        assert(s.drop_first() =~= Seq::<char>::empty());
        assert(digits_value(Seq::<char>::empty()) == 0);
        assert(pow10(0) == 1);
    } else {
        let t = s.drop_last();
        assert(all_digits(t)) by {
            assert forall|i: int| 0 <= i < t.len() implies is_digit(#[trigger] t[i]) by {
                assert(t[i] == s[i]);
            }
        }
        lemma_digits_front(t);
        assert(t.drop_first() =~= s.drop_first().drop_last());
        assert(s.drop_first().last() == s.last());
        assert(t[0] == s[0]);
        let p = pow10((k - 1) as nat);
        assert(pow10(k) == 10 * p);
        let d0 = digit_value(s[0]);
        let r = digits_value(t.drop_first());
        assert((d0 * p + r) * 10 == d0 * (10 * p) + r * 10) by (nonlinear_arith);
    }
}

/// Among digit runs of one length, the smaller number comes first.
pub proof fn lemma_digits_order(a: Seq<char>, b: Seq<char>)
    requires
        a.len() == b.len(),
        all_digits(a),
        all_digits(b),
        digits_value(a) <= digits_value(b),
    ensures
        text_le(a, b),
    decreases a.len(),
{
    if a.len() > 0 {
        let k = (a.len() - 1) as nat;
        lemma_digits_front(a);
        lemma_digits_front(b);
        lemma_all_digits_drop_first(a);
        lemma_all_digits_drop_first(b);
        lemma_digits_value_bound(a.drop_first());
        lemma_digits_value_bound(b.drop_first());
        let p = pow10(k);
        let a0 = digit_value(a[0]);
        let b0 = digit_value(b[0]);
        assert(is_digit(a[0]) && is_digit(b[0]));
        if a0 > b0 {
            assert(a0 * p >= (b0 + 1) * p) by (nonlinear_arith)
                requires
                    a0 >= b0 + 1,
                    p >= 0,
            ;
            assert((b0 + 1) * p == b0 * p + p) by (nonlinear_arith);
            assert(false);
        } else if a0 == b0 {
            assert(a[0] == b[0]);
            lemma_digits_order(a.drop_first(), b.drop_first());
        }
    }
}

/// `String::push`: appends one character.
#[verifier::external_body]
pub(crate) fn push_char(s: &mut String, c: char)
    ensures
        final(s)@ == old(s)@.push(c),
{
    s.push(c)
}

/// The characters of `s`, one by one.
pub fn chars_of(s: &str) -> (r: Vec<char>)
    ensures
        r@ == s@,
{
    let n = s.unicode_len();
    let mut r: Vec<char> = Vec::new();
    let mut i: usize = 0;
    while i < n
        invariant
            n == s@.len(),
            i <= n,
            r@ == s@.subrange(0, i as int),
        decreases n - i,
    {
        r.push(s.get_char(i));
        i = i + 1;
    }
    assert(r@ =~= s@);
    r
}

/// A new string holding the characters of `s`.
pub fn string_of(s: &str) -> (r: String)
    ensures
        r@ == s@,
{
    <String as StringExecFns>::from_str(s)
}

/// Appends the characters of `t` to `s`.
pub fn push_str(s: &mut String, t: &str)
    ensures
        final(s)@ == old(s)@ + t@,
{
    s.append(t)
}

/// Whether `a` and `b` hold the same characters.
pub fn str_equal(a: &str, b: &str) -> (r: bool)
    ensures
        r == (a@ == b@),
{
    let n = a.unicode_len();
    if n != b.unicode_len() {
        return false;
    }
    let mut i: usize = 0;
    while i < n
        invariant
            n == a@.len(),
            n == b@.len(),
            i <= n,
            forall|j: int| 0 <= j < i ==> a@[j] == b@[j],
        decreases n - i,
    {
        if a.get_char(i) != b.get_char(i) {
            return false;
        }
        i = i + 1;
    }
    assert(a@ =~= b@);
    true
}

/// Whether `s` begins with the characters of `prefix`.
pub fn str_starts_with(s: &str, prefix: &str) -> (r: bool)
    ensures
        r == (prefix@.len() <= s@.len() && s@.subrange(0, prefix@.len() as int) == prefix@),
{
    let n = prefix.unicode_len();
    if n > s.unicode_len() {
        return false;
    }
    let mut i: usize = 0;
    while i < n
        invariant
            n == prefix@.len(),
            n <= s@.len(),
            i <= n,
            forall|j: int| 0 <= j < i ==> s@[j] == prefix@[j],
        decreases n - i,
    {
        if s.get_char(i) != prefix.get_char(i) {
            assert(s@.subrange(0, n as int)[i as int] != prefix@[i as int]);
            return false;
        }
        i = i + 1;
    }
    assert(s@.subrange(0, n as int) =~= prefix@);
    true
}

/// Appends `n` in decimal.
pub fn push_decimal(out: &mut String, n: u64)
    ensures
        final(out)@ == old(out)@ + decimal(n as nat),
    decreases n,
{
    if n >= 10 {
        push_decimal(out, n / 10);
    }
    let d = n % 10;
    let c = if d == 0 {
        '0'
    } else if d == 1 {
        '1'
    } else if d == 2 {
        '2'
    } else if d == 3 {
        '3'
    } else if d == 4 {
        '4'
    } else if d == 5 {
        '5'
    } else if d == 6 {
        '6'
    } else if d == 7 {
        '7'
    } else if d == 8 {
        '8'
    } else {
        '9'
    };
    push_char(out, c);
    proof {
        if n < 10 {
            assert(decimal(n as nat) =~= seq![c]);
        } else {
            assert(decimal(n as nat) == decimal((n / 10) as nat).push(c));
        }
    }
    assert(final(out)@ =~= old(out)@ + decimal(n as nat));
}

/// The number of characters in the decimal spelling of `n`.
pub fn decimal_len(n: u64) -> (r: usize)
    ensures
        r == decimal(n as nat).len(),
    decreases n,
{
    if n < 10 {
        1
    } else {
        let k = decimal_len(n / 10);
        proof {
            lemma_pow10_20();
            lemma_decimal_len(n as nat, 20);
        }
        k + 1
    }
}

/// Appends `n` in decimal, padded on the left with zeros to `width` characters.
pub fn push_zero_padded(out: &mut String, n: u64, width: usize)
    ensures
        final(out)@ == old(out)@ + zero_padded(n as nat, width as nat),
{
    let len = decimal_len(n);
    let ghost start = out@;
    if len < width {
        let mut k: usize = 0;
        while k < width - len
            invariant
                k <= width - len,
                len < width,
                out@ == start + zeros(k as nat),
            decreases width - len - k,
        {
            push_char(out, '0');
            assert(zeros((k + 1) as nat) =~= zeros(k as nat).push('0'));
            k = k + 1;
        }
    }
    push_decimal(out, n);
    assert(out@ =~= start + zero_padded(n as nat, width as nat));
}

/// Reads `chars[start..end]` as the standard library's unsigned parsing does,
/// for a type whose largest value is `max`.
pub fn parse_unsigned_range(chars: &Vec<char>, start: usize, end: usize, max: u64) -> (r: Option<
    u64,
>)
    requires
        start <= end <= chars.len(),
    ensures
        r == (match parse_unsigned(chars@.subrange(start as int, end as int), max as nat) {
            Some(v) => Some(v as u64),
            None => None,
        }),
{
    let ghost s = chars@.subrange(start as int, end as int);
    let mut i = start;
    if start < end && chars[start] == '+' {
        i = start + 1;
    }
    let ghost t = chars@.subrange(i as int, end as int);
    assert(t =~= (if s.len() > 0 && s[0] == '+' {
        s.drop_first()
    } else {
        s
    }));
    if i == end {
        return None;
    }
    let first = i;
    let mut value: u64 = 0;
    let mut overflow = false;
    while i < end
        invariant
            first <= i <= end,
            end <= chars.len(),
            t == chars@.subrange(first as int, end as int),
            s == chars@.subrange(start as int, end as int),
            t == (if s.len() > 0 && s[0] == '+' {
                s.drop_first()
            } else {
                s
            }),
            forall|j: int| first <= j < i ==> is_digit(#[trigger] chars@[j]),
            !overflow ==> value == digits_value(chars@.subrange(first as int, i as int)),
            !overflow ==> value <= max,
            overflow ==> digits_value(chars@.subrange(first as int, i as int)) > max,
        decreases end - i,
    {
        let c = chars[i];
        if !('0' <= c && c <= '9') {
            assert(t[i - first] == c);
            assert(!is_digit(t[i - first]));
            return None;
        }
        let ghost prefix = chars@.subrange(first as int, i as int);
        let ghost next = chars@.subrange(first as int, i + 1);
        assert(next.drop_last() =~= prefix);
        assert(next.last() == c);
        let d: u64 = (c as u32 - '0' as u32) as u64;
        if !overflow {
            if d > max || value > (max - d) / 10 {
                overflow = true;
            } else {
                value = value * 10 + d;
            }
        }
        i = i + 1;
    }
    assert(chars@.subrange(first as int, end as int) =~= t);
    assert(all_digits(t));
    if overflow {
        None
    } else {
        Some(value)
    }
}

} // verus!
