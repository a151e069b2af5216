use vstd::prelude::*;

verus! {

// The grammar of decimal number tokens, as `f64::from_str` documents it:
//
//   Float  ::= Sign? ( 'inf' | 'infinity' | 'nan' | Number )
//   Number ::= ( Digit+ | Digit+ '.' Digit* | Digit* '.' Digit+ ) Exp?
//   Exp    ::= 'e' Sign? Digit+
//   Sign   ::= [+-]
//   Digit  ::= [0-9]
//
// matched after ASCII lowercasing.

pub open spec fn is_ascii_digit(c: char) -> bool {
    '0' <= c && c <= '9'
}

pub open spec fn is_sign(c: char) -> bool {
    c == '+' || c == '-'
}

/// `c` is the lowercase ASCII letter `lower` or its uppercase form.
pub open spec fn same_letter(c: char, lower: char) -> bool {
    c == lower || (c as u32) + 32 == (lower as u32)
}

/// `s` spells the lowercase ASCII word `word`, in any letter case.
pub open spec fn spells(s: Seq<char>, word: Seq<char>) -> bool {
    s.len() == word.len() && forall|i: int| 0 <= i < s.len() ==> same_letter(#[trigger] s[i], word[i])
}

/// A run of digits with at most one decimal point and at least one digit.
pub open spec fn is_mantissa(m: Seq<char>) -> bool {
    &&& forall|i: int| 0 <= i < m.len() ==> is_ascii_digit(#[trigger] m[i]) || m[i] == '.'
    &&& forall|i: int, j: int| #![trigger m[i], m[j]] 0 <= i < j < m.len() ==> !(m[i] == '.' && m[j] == '.')
    &&& exists|i: int| 0 <= i < m.len() && is_ascii_digit(#[trigger] m[i])
}

pub open spec fn all_digits(d: Seq<char>) -> bool {
    forall|i: int| 0 <= i < d.len() ==> is_ascii_digit(#[trigger] d[i])
}

/// `'e'` (either case), an optional sign, and at least one digit.
pub open spec fn is_exponent(e: Seq<char>) -> bool {
    &&& e.len() >= 2
    &&& same_letter(e[0], 'e')
    &&& {
        let digits = if is_sign(e[1]) { e.skip(2) } else { e.skip(1) };
        digits.len() > 0 && all_digits(digits)
    }
}

/// Where the exponent of `b` would start: its first `'e'` or `'E'`, or its end.
pub open spec fn exponent_start(b: Seq<char>) -> int {
    if exists|k: int| 0 <= k < b.len() && same_letter(b[k], 'e') && (forall|j: int| 0 <= j < k ==> !same_letter(b[j], 'e')) {
        choose|k: int| 0 <= k < b.len() && same_letter(b[k], 'e') && (forall|j: int| 0 <= j < k ==> !same_letter(b[j], 'e'))
    } else {
        b.len() as int
    }
}

/// A mantissa, optionally followed by an exponent.
pub open spec fn is_decimal(b: Seq<char>) -> bool {
    let k = exponent_start(b);
    is_mantissa(b.take(k)) && (k == b.len() || is_exponent(b.skip(k)))
}

/// `t` without a leading sign.
pub open spec fn unsigned_part(t: Seq<char>) -> Seq<char> {
    if t.len() > 0 && is_sign(t[0]) {
        t.drop_first()
    } else {
        t
    }
}

/// Whether `t` is a number in the grammar above.
pub open spec fn is_number(t: Seq<char>) -> bool {
    let b = unsigned_part(t);
    ||| spells(b, seq!['i', 'n', 'f'])
    ||| spells(b, seq!['i', 'n', 'f', 'i', 'n', 'i', 't', 'y'])
    ||| spells(b, seq!['n', 'a', 'n'])
    ||| is_decimal(b)
}

fn char_is_digit(c: char) -> (b: bool)
    ensures
        b == is_ascii_digit(c),
{
    '0' <= c && c <= '9'
}

fn char_is_letter(c: char, lower: char) -> (b: bool)
    requires
        'a' <= lower <= 'z',
    ensures
        b == same_letter(c, lower),
{
    c == lower || (c as u32) + 32 == (lower as u32)
}

/// Whether `s` spells the lowercase ASCII `word`, in any letter case.
fn spells_word(s: &[char], word: &[char]) -> (b: bool)
    requires
        forall|i: int| 0 <= i < word@.len() ==> 'a' <= #[trigger] word@[i] <= 'z',
    ensures
        b == spells(s@, word@),
{
    if s.len() != word.len() {
        return false;
    }
    let mut i: usize = 0;
    while i < s.len()
        invariant
            s@.len() == word@.len(),
            forall|j: int| 0 <= j < word@.len() ==> 'a' <= #[trigger] word@[j] <= 'z',
            i <= s@.len(),
            forall|j: int| 0 <= j < i ==> same_letter(#[trigger] s@[j], word@[j]),
        decreases s@.len() - i,
    {
        if !char_is_letter(s[i], word[i]) {
            return false;
        }
        i = i + 1;
    }
    true
}

/// Whether `b` (a token without its sign) is a mantissa with an optional exponent.
fn is_decimal_text(b: &[char]) -> (ok: bool)
    ensures
        ok == is_decimal(b@),
{
    let mut k: usize = 0;
    let mut seen_dot = false;
    let mut dot_at: usize = 0;
    let mut seen_digit = false;
    let mut digit_at: usize = 0;
    let mut valid = true;
    while k < b.len() && !char_is_letter(b[k], 'e')
        invariant
            k <= b@.len(),
            forall|j: int| 0 <= j < k ==> !same_letter(#[trigger] b@[j], 'e'),
            valid == ((forall|i: int| 0 <= i < k ==> is_ascii_digit(#[trigger] b@[i]) || b@[i] == '.')
                && (forall|i: int, j: int| #![trigger b@[i], b@[j]] 0 <= i < j < k ==> !(b@[i] == '.' && b@[j] == '.'))),
            seen_dot ==> dot_at < k && b@[dot_at as int] == '.',
            !seen_dot ==> forall|i: int| 0 <= i < k ==> #[trigger] b@[i] != '.',
            seen_digit ==> digit_at < k && is_ascii_digit(b@[digit_at as int]),
            !seen_digit ==> forall|i: int| 0 <= i < k ==> !is_ascii_digit(#[trigger] b@[i]),
        decreases b@.len() - k,
    {
        let ghost old_valid = valid;
        let ghost old_seen_dot = seen_dot;
        let ghost old_dot_at = dot_at;
        let c = b[k];
        if char_is_digit(c) {
            if !seen_digit {
                seen_digit = true;
                digit_at = k;
            }
        } else if c == '.' {
            if seen_dot {
                valid = false;
            }
            seen_dot = true;
            dot_at = k;
        } else {
            valid = false;
        }
        proof {
            let kk = k as int;
            if valid {
                assert forall|i: int| 0 <= i < kk + 1 implies is_ascii_digit(#[trigger] b@[i]) || b@[i] == '.' by {}
                assert forall|i: int, j: int| #![trigger b@[i], b@[j]] 0 <= i < j < kk + 1 implies !(b@[i] == '.' && b@[j] == '.') by {
                    if j == kk && b@[j] == '.' {
                        assert(!old_seen_dot);
                        assert(b@[i] != '.');
                    }
                }
            } else {
                if !old_valid {
                    if !(forall|i: int| 0 <= i < kk ==> is_ascii_digit(#[trigger] b@[i]) || b@[i] == '.') {
                        let i = choose|i: int| 0 <= i < kk && !(is_ascii_digit(#[trigger] b@[i]) || b@[i] == '.');
                        assert(!(is_ascii_digit(b@[i]) || b@[i] == '.'));
                    } else {
                        let (i, j) = choose|i: int, j: int| #![trigger b@[i], b@[j]] 0 <= i < j < kk && (b@[i] == '.' && b@[j] == '.');
                        assert(b@[i] == '.' && b@[j] == '.');
                    }
                } else if !(is_ascii_digit(c) || c == '.') {
                    assert(!(is_ascii_digit(b@[kk]) || b@[kk] == '.'));
                } else {
                    assert(b@[old_dot_at as int] == '.' && b@[kk] == '.');
                }
            }
        }
        k = k + 1;
    }
    let ghost bs = b@;
    proof {
        if k < bs.len() {
            let kk = choose|kk: int| 0 <= kk < bs.len() && same_letter(bs[kk], 'e') && (forall|j: int| 0 <= j < kk ==> !same_letter(bs[j], 'e'));
            if kk < k {
                assert(!same_letter(bs[kk], 'e'));
            }
            if kk > k {
                assert(!same_letter(bs[k as int], 'e'));
            }
        }
        assert(exponent_start(bs) == k);
        let m = bs.take(k as int);
        assert forall|i: int| 0 <= i < k implies m[i] == bs[i] by {}
        if valid && seen_digit {
            assert(is_ascii_digit(m[digit_at as int]));
        }
        if !valid {
            if !(forall|i: int| 0 <= i < k ==> is_ascii_digit(#[trigger] bs[i]) || bs[i] == '.') {
                let i = choose|i: int| 0 <= i < k && !(is_ascii_digit(#[trigger] bs[i]) || bs[i] == '.');
                assert(!(is_ascii_digit(m[i]) || m[i] == '.'));
            } else {
                let (i, j) = choose|i: int, j: int| #![trigger bs[i], bs[j]] 0 <= i < j < k && (bs[i] == '.' && bs[j] == '.');
                assert(m[i] == '.' && m[j] == '.');
            }
            assert(!is_mantissa(m));
        }
        if !seen_digit {
            assert(!is_mantissa(m)) by {
                if exists|i: int| 0 <= i < m.len() && is_ascii_digit(#[trigger] m[i]) {
                    let i = choose|i: int| 0 <= i < m.len() && is_ascii_digit(#[trigger] m[i]);
                    assert(!is_ascii_digit(bs[i]));
                }
            }
        }
        if valid && seen_digit {
            assert(is_mantissa(m));
        }
    }
    if !(valid && seen_digit) {
        return false;
    }
    if k == b.len() {
        return true;
    }
    // An exponent: 'e', an optional sign, then at least one digit.
    if k + 1 >= b.len() {
        return false;
    }
    let mut d: usize = if b[k + 1] == '+' || b[k + 1] == '-' { k + 2 } else { k + 1 };
    let digits_start = d;
    if d >= b.len() {
        proof {
            let e = bs.skip(k as int);
            let digits = if is_sign(e[1]) { e.skip(2) } else { e.skip(1) };
            assert(digits.len() == 0);
        }
        return false;
    }
    while d < b.len()
        invariant
            bs == b@,
            exponent_start(bs) == k,
            is_mantissa(bs.take(k as int)),
            k + 1 < bs.len(),
            digits_start == (if is_sign(bs[k + 1]) { k + 2 } else { k + 1 }),
            k + 1 <= digits_start <= d <= b@.len(),
            forall|i: int| digits_start <= i < d ==> is_ascii_digit(#[trigger] b@[i]),
        decreases b@.len() - d,
    {
        if !char_is_digit(b[d]) {
            proof {
                let e = bs.skip(k as int);
                let digits = if is_sign(e[1]) { e.skip(2) } else { e.skip(1) };
                assert(digits[d - digits_start] == bs[d as int]);
                assert(!all_digits(digits));
            }
            return false;
        }
        d = d + 1;
    }
    proof {
        let e = bs.skip(k as int);
        let digits = if is_sign(e[1]) { e.skip(2) } else { e.skip(1) };
        assert forall|i: int| 0 <= i < digits.len() implies is_ascii_digit(#[trigger] digits[i]) by {
            assert(digits[i] == bs[digits_start + i]);
        }
        assert(same_letter(e[0], 'e'));
    }
    true
}

/// Whether `token` is a decimal number as `f64::from_str` accepts it.
pub fn is_number_token(token: &[char]) -> (ok: bool)
    ensures
        ok == is_number(token@),
{
    let start: usize = if token.len() > 0 && (token[0] == '+' || token[0] == '-') { 1 } else { 0 };
    let mut body: Vec<char> = Vec::new();
    let mut i: usize = start;
    while i < token.len()
        invariant
            start <= i <= token@.len(),
            start <= 1,
            body@ == token@.subrange(start as int, i as int),
        decreases token@.len() - i,
    {
        body.push(token[i]);
        i = i + 1;
        assert(body@ =~= token@.subrange(start as int, i as int));
    }
    assert(body@ =~= unsigned_part(token@));
    let inf = ['i', 'n', 'f'];
    let infinity = ['i', 'n', 'f', 'i', 'n', 'i', 't', 'y'];
    let nan = ['n', 'a', 'n'];
    assert(inf@ =~= seq!['i', 'n', 'f']);
    assert(infinity@ =~= seq!['i', 'n', 'f', 'i', 'n', 'i', 't', 'y']);
    assert(nan@ =~= seq!['n', 'a', 'n']);
    spells_word(body.as_slice(), inf.as_slice()) || spells_word(body.as_slice(), infinity.as_slice())
        || spells_word(body.as_slice(), nan.as_slice()) || is_decimal_text(body.as_slice())
}

/// A run of ASCII digits, as many as it has.
pub open spec fn digit_run(d: Seq<char>) -> bool {
    forall|i: int| 0 <= i < d.len() ==> '0' <= #[trigger] d[i] && d[i] <= '9'
}

/// Text made of digits and at most one `'.'`, with at least one digit, and
/// no `'e'`, reads as its whole self as a mantissa.
proof fn lemma_plain_decimal(b: Seq<char>)
    requires
        forall|i: int| 0 <= i < b.len() ==> ('0' <= #[trigger] b[i] && b[i] <= '9') || b[i] == '.',
        is_mantissa(b),
    ensures
        is_decimal(b),
{
    assert forall|k: int| 0 <= k < b.len() implies !same_letter(#[trigger] b[k], 'e') by {
        assert(('0' <= b[k] && b[k] <= '9') || b[k] == '.');
    }
    assert(exponent_start(b) == b.len());
    assert(b.take(b.len() as int) =~= b);
}

/// Every run of one or more digits, with or without a sign, is a number, of
/// any length.
pub proof fn lemma_digits_are_numbers(d: Seq<char>)
    requires
        d.len() > 0,
        digit_run(d),
    ensures
        is_number(d),
        is_number(seq!['-'] + d),
        is_number(seq!['+'] + d),
{
    assert(is_ascii_digit(d[0]));
    lemma_plain_decimal(d);
    assert((seq!['-'] + d).drop_first() =~= d);
    assert((seq!['+'] + d).drop_first() =~= d);
}

/// Every token `a.c` of digit runs `a` and `c`, not both empty, is a number,
/// with or without a sign, whatever the lengths of `a` and `c`.
pub proof fn lemma_decimal_fractions_are_numbers(a: Seq<char>, c: Seq<char>)
    requires
        digit_run(a),
        digit_run(c),
        a.len() > 0 || c.len() > 0,
    ensures
        is_number(a + seq!['.'] + c),
        is_number(seq!['-'] + a + seq!['.'] + c),
        is_number(seq!['+'] + a + seq!['.'] + c),
{
    let b = a + seq!['.'] + c;
    let p = a.len() as int;
    assert(b[p] == '.');
    assert forall|i: int| 0 <= i < b.len() implies ('0' <= #[trigger] b[i] && b[i] <= '9') || b[i] == '.' by {
        if i < p {
            assert(b[i] == a[i]);
        } else if i > p {
            assert(b[i] == c[i - p - 1]);
        }
    }
    assert forall|i: int, j: int| #![trigger b[i], b[j]] 0 <= i < j < b.len() implies !(b[i] == '.' && b[j] == '.') by {
        if i < p {
            assert(b[i] == a[i]);
        } else if j > p {
            assert(b[j] == c[j - p - 1]);
        }
    }
    if a.len() > 0 {
        assert(b[0] == a[0]);
        assert(is_ascii_digit(b[0]));
    } else {
        assert(b[p + 1] == c[0]);
        assert(is_ascii_digit(b[p + 1]));
    }
    assert(is_mantissa(b));
    lemma_plain_decimal(b);
    if a.len() > 0 {
        assert(b[0] == a[0]);
    } else {
        assert(b[0] == '.');
    }
    assert(!is_sign(b[0]));
    assert(unsigned_part(b) == b);
    assert((seq!['-'] + a + seq!['.'] + c).drop_first() =~= b);
    assert((seq!['+'] + a + seq!['.'] + c).drop_first() =~= b);
}

/// Every token `a` `e` `d` (or with `E`, or with a sign after the `e`) of
/// nonempty digit runs `a` and `d` is a number.
pub proof fn lemma_exponents_are_numbers(a: Seq<char>, d: Seq<char>)
    requires
        digit_run(a),
        digit_run(d),
        a.len() > 0,
        d.len() > 0,
    ensures
        is_number(a + seq!['e'] + d),
        is_number(a + seq!['E'] + seq!['-'] + d),
        is_number(a + seq!['e'] + seq!['+'] + d),
{
    lemma_exponent_form(a, seq!['e'] + d);
    lemma_exponent_form(a, seq!['E', '-'] + d);
    lemma_exponent_form(a, seq!['e', '+'] + d);
    assert(a + seq!['E'] + seq!['-'] + d =~= a + (seq!['E', '-'] + d));
    assert(a + seq!['e'] + seq!['+'] + d =~= a + (seq!['e', '+'] + d));
    assert(a + seq!['e'] + d =~= a + (seq!['e'] + d));
    let e1 = seq!['e'] + d;
    assert(e1.skip(1) =~= d);
    let e2 = seq!['E', '-'] + d;
    assert(e2.skip(2) =~= d);
    let e3 = seq!['e', '+'] + d;
    assert(e3.skip(2) =~= d);
}

proof fn lemma_exponent_form(a: Seq<char>, e: Seq<char>)
    requires
        digit_run(a),
        a.len() > 0,
        e.len() >= 2,
        same_letter(e[0], 'e'),
        ({
            let digits = if is_sign(e[1]) { e.skip(2) } else { e.skip(1) };
            digits.len() > 0 && digit_run(digits)
        }),
    ensures
        is_number(a + e),
{
    let b = a + e;
    let k = a.len() as int;
    assert(b[k] == e[0]);
    assert forall|j: int| 0 <= j < k implies !same_letter(#[trigger] b[j], 'e') by {
        assert(b[j] == a[j]);
    }
    assert(exponent_start(b) == k);
    assert(b.take(k) =~= a);
    assert(b.skip(k) =~= e);
    assert(is_ascii_digit(a[0]));
    assert(is_mantissa(a));
    let digits = if is_sign(e[1]) { e.skip(2) } else { e.skip(1) };
    assert(all_digits(digits));
    assert(b[0] == a[0]);
    assert(unsigned_part(b) == b);
}

} // verus!
