//! Operations on text as sequences of characters: trimming, searching,
//! replacing and ASCII case folding, each proved against a spec function.

use vstd::prelude::*;

verus! {

/// `String::push` appends one character to the end of the string.
pub assume_specification[ String::push ](s: &mut String, c: char)
    ensures
        final(s)@ == old(s)@.push(c),
;

/// The code points with the Unicode property `White_Space`.
pub open spec fn is_white_space(c: char) -> bool {
    let n = c as u32;
    ||| 0x09 <= n <= 0x0D
    ||| n == 0x20
    ||| n == 0x85
    ||| n == 0xA0
    ||| n == 0x1680
    ||| 0x2000 <= n <= 0x200A
    ||| n == 0x2028
    ||| n == 0x2029
    ||| n == 0x202F
    ||| n == 0x205F
    ||| n == 0x3000
}

/// Number of white-space characters at the start of `s`.
pub open spec fn leading_white_space(s: Seq<char>) -> nat
    decreases s.len(),
{
    if s.len() > 0 && is_white_space(s[0]) {
        1 + leading_white_space(s.drop_first())
    } else {
        0
    }
}

/// Number of white-space characters at the end of `s`.
pub open spec fn trailing_white_space(s: Seq<char>) -> nat
    decreases s.len(),
{
    if s.len() > 0 && is_white_space(s.last()) {
        1 + trailing_white_space(s.drop_last())
    } else {
        0
    }
}

/// `s` without its leading and trailing white space.
pub open spec fn trimmed(s: Seq<char>) -> Seq<char> {
    let rest = s.subrange(leading_white_space(s) as int, s.len() as int);
    rest.subrange(0, rest.len() - trailing_white_space(rest))
}

/// `pat` stands in `s` at index `i`.
pub open spec fn occurs_at(s: Seq<char>, pat: Seq<char>, i: int) -> bool {
    &&& 0 <= i
    &&& i + pat.len() <= s.len()
    &&& s.subrange(i, i + pat.len()) == pat
}

/// The least index at or after `from` where `pat` stands in `s`, or -1.
pub open spec fn find_from(s: Seq<char>, pat: Seq<char>, from: int) -> int
    decreases s.len() + 1 - from,
{
    if from < 0 || from + pat.len() > s.len() {
        -1
    } else if occurs_at(s, pat, from) {
        from
    } else {
        find_from(s, pat, from + 1)
    }
}

/// `s` with every occurrence of `pat` replaced by `to`. Occurrences are taken
/// from left to right and do not overlap. An empty `pat` occurs nowhere.
pub open spec fn replaced(s: Seq<char>, pat: Seq<char>, to: Seq<char>) -> Seq<char>
    decreases s.len(),
{
    let i = find_from(s, pat, 0);
    if pat.len() == 0 || i < 0 || i + pat.len() > s.len() {
        s
    } else {
        s.subrange(0, i) + to + replaced(s.subrange(i + pat.len(), s.len() as int), pat, to)
    }
}

/// ASCII upper-case letters folded to lower case; every other character kept.
pub open spec fn ascii_lower(c: char) -> char {
    if 'A' <= c && c <= 'Z' {
        ((c as u8) + 32) as char
    } else {
        c
    }
}

/// `s` with each character folded by [`ascii_lower`].
pub open spec fn ascii_lowered(s: Seq<char>) -> Seq<char> {
    Seq::new(s.len(), |i: int| ascii_lower(s[i]))
}

/// The decimal digits of `n`, without leading zeros.
pub open spec fn decimal_digits(n: nat) -> Seq<char>
    decreases n,
{
    if n < 10 {
        seq![digit_char(n)]
    } else {
        decimal_digits(n / 10).push(digit_char(n % 10))
    }
}

/// The character of the digit `d`.
pub open spec fn digit_char(d: nat) -> char {
    ((48 + d) as u8) as char
}

/// The decimal digits of `n`, with zeros in front up to `width` characters.
pub open spec fn zero_padded(n: nat, width: nat) -> Seq<char> {
    let digits = decimal_digits(n);
    if digits.len() < width {
        Seq::new((width - digits.len()) as nat, |i: int| '0') + digits
    } else {
        digits
    }
}

/// The text of an optional string.
pub open spec fn option_text(o: Option<String>) -> Option<Seq<char>> {
    match o {
        Some(s) => Some(s@),
        None => None,
    }
}

/// The first `a` characters of `s` are its whole leading white space.
pub proof fn lemma_leading_white_space(s: Seq<char>, a: int)
    requires
        0 <= a <= s.len(),
        forall|k: int| 0 <= k < a ==> is_white_space(#[trigger] s[k]),
        a == s.len() || !is_white_space(s[a]),
    ensures
        leading_white_space(s) == a,
    decreases s.len(),
{
    if a > 0 {
        let rest = s.drop_first();
        assert forall|k: int| 0 <= k < a - 1 implies is_white_space(#[trigger] rest[k]) by {
            assert(rest[k] == s[k + 1]);
        }
        lemma_leading_white_space(rest, a - 1);
    }
}

/// The characters of `s` from `b` on are its whole trailing white space.
pub proof fn lemma_trailing_white_space(s: Seq<char>, b: int)
    requires
        0 <= b <= s.len(),
        forall|k: int| b <= k < s.len() ==> is_white_space(#[trigger] s[k]),
        b == 0 || !is_white_space(s[b - 1]),
    ensures
        trailing_white_space(s) == s.len() - b,
    decreases s.len(),
{
    if b < s.len() {
        let rest = s.drop_last();
        assert forall|k: int| b <= k < rest.len() implies is_white_space(#[trigger] rest[k]) by {
            assert(rest[k] == s[k]);
        }
        lemma_trailing_white_space(rest, b);
    }
}

/// Trimmed text neither starts nor ends with white space, and trimming it
/// again changes nothing.
pub proof fn lemma_trimmed_is_fixed(s: Seq<char>)
    ensures
        trimmed(s).len() > 0 ==> !is_white_space(trimmed(s).first()) && !is_white_space(
            trimmed(s).last(),
        ),
        trimmed(trimmed(s)) == trimmed(s),
{
    let a = leading_white_space(s) as int;
    lemma_leading_bounds(s);
    let rest = s.subrange(a, s.len() as int);
    lemma_trailing_bounds(rest);
    let t = trimmed(s);
    if t.len() > 0 {
        assert(t.first() == s[a]);
        assert(t.last() == rest[rest.len() - trailing_white_space(rest) - 1]);
        lemma_leading_white_space(t, 0);
        assert(t.subrange(0, t.len() as int) == t);
        lemma_trailing_white_space(t, t.len() as int);
        assert(t.subrange(0, t.len() - 0) == t);
    } else {
        assert(t.subrange(0, 0) == t);
    }
}

/// The leading white space ends at the first other character.
pub proof fn lemma_leading_bounds(s: Seq<char>)
    ensures
        leading_white_space(s) <= s.len(),
        forall|k: int| 0 <= k < leading_white_space(s) ==> is_white_space(#[trigger] s[k]),
        leading_white_space(s) == s.len() || !is_white_space(s[leading_white_space(s) as int]),
    decreases s.len(),
{
    if s.len() > 0 && is_white_space(s[0]) {
        let rest = s.drop_first();
        lemma_leading_bounds(rest);
        assert forall|k: int| 0 <= k < leading_white_space(s) implies is_white_space(
            #[trigger] s[k],
        ) by {
            if k > 0 {
                assert(s[k] == rest[k - 1]);
            }
        }
        if leading_white_space(s) < s.len() {
            assert(s[leading_white_space(s) as int] == rest[leading_white_space(rest) as int]);
        }
    }
}

/// The trailing white space starts after the last other character.
pub proof fn lemma_trailing_bounds(s: Seq<char>)
    ensures
        trailing_white_space(s) <= s.len(),
        forall|k: int|
            s.len() - trailing_white_space(s) <= k < s.len() ==> is_white_space(#[trigger] s[k]),
        trailing_white_space(s) == s.len() || !is_white_space(
            s[s.len() - trailing_white_space(s) - 1],
        ),
    decreases s.len(),
{
    if s.len() > 0 && is_white_space(s.last()) {
        let rest = s.drop_last();
        lemma_trailing_bounds(rest);
        assert forall|k: int|
            s.len() - trailing_white_space(s) <= k < s.len() implies is_white_space(
            #[trigger] s[k],
        ) by {
            if k < s.len() - 1 {
                assert(s[k] == rest[k]);
            }
        }
        if trailing_white_space(s) < s.len() {
            assert(s[s.len() - trailing_white_space(s) - 1] == rest[rest.len()
                - trailing_white_space(rest) - 1]);
        }
    }
}

/// `find_from` gives the least occurrence at or after `from`, if there is one.
pub proof fn lemma_find_from(s: Seq<char>, pat: Seq<char>, from: int)
    requires
        0 <= from,
    ensures
        find_from(s, pat, from) == -1 || (from <= find_from(s, pat, from) && occurs_at(
            s,
            pat,
            find_from(s, pat, from),
        )),
        forall|k: int|
            from <= k && (k < find_from(s, pat, from) || find_from(s, pat, from) == -1)
                ==> !occurs_at(s, pat, k),
    decreases s.len() + 1 - from,
{
    if from + pat.len() <= s.len() && !occurs_at(s, pat, from) {
        lemma_find_from(s, pat, from + 1);
    }
}

/// Where `pat` does not stand at the start of a non-empty `s`, the first
/// character is kept and replacing goes on behind it.
pub proof fn lemma_replaced_skip(s: Seq<char>, pat: Seq<char>, to: Seq<char>)
    requires
        s.len() > 0,
        pat.len() > 0,
        !occurs_at(s, pat, 0),
    ensures
        replaced(s, pat, to) == seq![s[0]] + replaced(s.drop_first(), pat, to),
{
    let rest = s.drop_first();
    let i = find_from(s, pat, 0);
    let j = find_from(rest, pat, 0);
    lemma_find_from(s, pat, 0);
    lemma_find_from(rest, pat, 0);
    assert forall|k: int| occurs_at(rest, pat, k) <==> occurs_at(s, pat, k + 1) by {
        if 0 <= k && k + pat.len() <= rest.len() {
            assert(rest.subrange(k, k + pat.len()) == s.subrange(k + 1, k + 1 + pat.len()));
        }
    }
    // the first occurrence in `s` is the first occurrence in `rest`, one further
    if i >= 0 {
        assert(occurs_at(rest, pat, i - 1));
    }
    if j >= 0 {
        assert(occurs_at(s, pat, j + 1));
    }
    assert(i >= 0 <==> j >= 0);
    if i < 0 {
        assert(s == seq![s[0]] + rest);
    } else {
        assert(i == j + 1);
        let tail = replaced(rest.subrange(j + pat.len(), rest.len() as int), pat, to);
        assert(s.subrange(0, i) == seq![s[0]] + rest.subrange(0, j));
        assert(s.subrange(i + pat.len(), s.len() as int) == rest.subrange(
            j + pat.len(),
            rest.len() as int,
        ));
        assert(seq![s[0]] + (rest.subrange(0, j) + to + tail) == (seq![s[0]] + rest.subrange(0, j))
            + to + tail);
    }
}

/// Where `pat` stands at the start of `s`, it is replaced and replacing goes
/// on behind it.
pub proof fn lemma_replaced_hit(s: Seq<char>, pat: Seq<char>, to: Seq<char>)
    requires
        pat.len() > 0,
        occurs_at(s, pat, 0),
    ensures
        replaced(s, pat, to) == to + replaced(s.subrange(pat.len() as int, s.len() as int), pat, to),
{
    assert(find_from(s, pat, 0) == 0);
    assert(s.subrange(0, 0) + to == to);
}

/// Whether `c` is a white-space character.
pub fn is_whitespace(c: char) -> (b: bool)
    ensures
        b == is_white_space(c),
{
    let n: u32 = c as u32;
    (0x09 <= n && n <= 0x0D) || n == 0x20 || n == 0x85 || n == 0xA0 || n == 0x1680 || (0x2000 <= n
        && n <= 0x200A) || n == 0x2028 || n == 0x2029 || n == 0x202F || n == 0x205F || n
        == 0x3000
}

/// The characters of a string, in order.
pub fn to_chars(s: &str) -> (v: Vec<char>)
    ensures
        v@ == s@,
{
    let mut v: Vec<char> = Vec::new();
    for c in it: s.chars()
        invariant
            v@ == s@.take(it.index() as int),
            it.seq() == s@,
    {
        v.push(c);
    }
    v
}

/// The string made of the characters `v[from..to]`.
pub fn from_chars(v: &Vec<char>, from: usize, to: usize) -> (s: String)
    requires
        from <= to <= v.len(),
    ensures
        s@ == v@.subrange(from as int, to as int),
{
    let mut s = String::new();
    let mut i: usize = from;
    while i < to
        invariant
            from <= i <= to <= v.len(),
            s@ == v@.subrange(from as int, i as int),
        decreases to - i,
    {
        s.push(v[i]);
        i = i + 1;
    }
    s
}

/// The bounds of `v` without its leading and trailing white space.
pub fn trim_bounds(v: &Vec<char>) -> (r: (usize, usize))
    ensures
        r.0 <= r.1 <= v.len(),
        v@.subrange(r.0 as int, r.1 as int) == trimmed(v@),
{
    let n = v.len();
    let mut a: usize = 0;
    while a < n && is_whitespace(v[a])
        invariant
            a <= n == v.len(),
            forall|k: int| 0 <= k < a ==> is_white_space(#[trigger] v@[k]),
        decreases n - a,
    {
        a = a + 1;
    }
    let mut b: usize = n;
    while b > a && is_whitespace(v[b - 1])
        invariant
            a <= b <= n == v.len(),
            forall|k: int| b <= k < n ==> is_white_space(#[trigger] v@[k]),
        decreases b,
    {
        b = b - 1;
    }
    proof {
        lemma_leading_white_space(v@, a as int);
        let rest = v@.subrange(a as int, n as int);
        assert forall|k: int| b - a <= k < rest.len() implies is_white_space(#[trigger] rest[k]) by {
            assert(rest[k] == v@[k + a]);
        }
        lemma_trailing_white_space(rest, b - a);
        assert(rest.subrange(0, b - a) == v@.subrange(a as int, b as int));
    }
    (a, b)
}

/// A copy of `s` without leading and trailing white space.
pub fn trim(s: &str) -> (r: String)
    ensures
        r@ == trimmed(s@),
{
    let v = to_chars(s);
    let (a, b) = trim_bounds(&v);
    from_chars(&v, a, b)
}

/// Whether `pat` stands in `v` at index `i`.
pub fn matches_at(v: &Vec<char>, pat: &Vec<char>, i: usize) -> (b: bool)
    ensures
        b == occurs_at(v@, pat@, i as int),
{
    let m = pat.len();
    if m > v.len() || i > v.len() - m {
        return false;
    }
    let mut k: usize = 0;
    while k < m
        invariant
            k <= m == pat.len(),
            i + m <= v.len(),
            forall|j: int| 0 <= j < k ==> v@[i + j] == pat@[j],
        decreases m - k,
    {
        if v[i + k] != pat[k] {
            proof {
                let window = v@.subrange(i as int, i + m);
                assert(window[k as int] == v@[i + k]);
            }
            return false;
        }
        k = k + 1;
    }
    assert(v@.subrange(i as int, i + m) =~= pat@);
    true
}

/// Whether two character vectors hold the same text.
pub fn same_text(a: &Vec<char>, b: &Vec<char>) -> (r: bool)
    ensures
        r == (a@ == b@),
{
    if a.len() != b.len() {
        return false;
    }
    let r = matches_at(a, b, 0);
    proof {
        assert(a@.subrange(0, a@.len() as int) == a@);
    }
    r
}

/// `text` with every occurrence of `pat` replaced by `to`, on characters.
pub fn replace_chars(text: &Vec<char>, pat: &Vec<char>, to: &Vec<char>) -> (out: Vec<char>)
    ensures
        out@ == replaced(text@, pat@, to@),
{
    let n = text.len();
    let m = pat.len();
    let mut out: Vec<char> = Vec::new();
    if m == 0 {
        let mut i: usize = 0;
        while i < n
            invariant
                i <= n == text.len(),
                out@ == text@.subrange(0, i as int),
            decreases n - i,
        {
            out.push(text[i]);
            i = i + 1;
        }
        assert(text@.subrange(0, n as int) == text@);
        return out;
    }
    let mut i: usize = 0;
    assert(text@.subrange(0, n as int) == text@);
    assert(out@ + replaced(text@, pat@, to@) == replaced(text@, pat@, to@));
    while i < n
        invariant
            i <= n == text.len(),
            0 < m == pat.len(),
            out@ + replaced(text@.subrange(i as int, n as int), pat@, to@) == replaced(
                text@,
                pat@,
                to@,
            ),
        decreases n - i,
    {
        let ghost rest = text@.subrange(i as int, n as int);
        let hit = matches_at(text, pat, i);
        proof {
            assert(occurs_at(rest, pat@, 0) == occurs_at(text@, pat@, i as int)) by {
                if i + m <= n {
                    assert(rest.subrange(0, m as int) == text@.subrange(i as int, i + m));
                }
            }
        }
        if hit {
            let ghost before = out@;
            let mut k: usize = 0;
            while k < to.len()
                invariant
                    k <= to.len(),
                    out@ == before + to@.subrange(0, k as int),
                decreases to.len() - k,
            {
                out.push(to[k]);
                k = k + 1;
            }
            proof {
                assert(to@.subrange(0, to@.len() as int) == to@);
                lemma_replaced_hit(rest, pat@, to@);
                assert(rest.subrange(m as int, rest.len() as int) == text@.subrange(
                    i + m,
                    n as int,
                ));
                let tail = replaced(text@.subrange(i + m, n as int), pat@, to@);
                assert((before + to@) + tail == before + (to@ + tail));
            }
            i = i + m;
        } else {
            let ghost before = out@;
            out.push(text[i]);
            proof {
                lemma_replaced_skip(rest, pat@, to@);
                assert(rest.drop_first() == text@.subrange(i + 1, n as int));
                let tail = replaced(text@.subrange(i + 1, n as int), pat@, to@);
                assert(before.push(text@[i as int]) + tail == before + (seq![rest[0]] + tail));
            }
            i = i + 1;
        }
    }
    proof {
        assert(text@.subrange(n as int, n as int).len() == 0);
        assert(find_from(text@.subrange(n as int, n as int), pat@, 0) == -1);
        assert(out@ + text@.subrange(n as int, n as int) == out@);
    }
    out
}

/// A copy of `text` with every occurrence of `pat` replaced by `to`.
pub fn replace(text: &str, pat: &str, to: &str) -> (r: String)
    ensures
        r@ == replaced(text@, pat@, to@),
{
    let chars = to_chars(text);
    let out = replace_chars(&chars, &to_chars(pat), &to_chars(to));
    let r = from_chars(&out, 0, out.len());
    assert(out@.subrange(0, out@.len() as int) == out@);
    r
}

/// Whether two strings hold the same text.
pub fn str_eq(a: &str, b: &str) -> (r: bool)
    ensures
        r == (a@ == b@),
{
    same_text(&to_chars(a), &to_chars(b))
}

/// The decimal digits of `n`.
pub fn decimal(n: u64) -> (text: String)
    ensures
        text@ == decimal_digits(n as nat),
    decreases n,
{
    if n < 10 {
        let mut text = String::new();
        text.push((48u8 + (n as u8)) as char);
        assert(text@ =~= decimal_digits(n as nat));
        text
    } else {
        let mut text = decimal(n / 10);
        text.push((48u8 + ((n % 10) as u8)) as char);
        text
    }
}

/// The decimal digits of `n`, with zeros in front up to `width` characters.
pub fn decimal_padded(n: u64, width: usize) -> (text: String)
    ensures
        text@ == zero_padded(n as nat, width as nat),
{
    let digits = decimal(n);
    let len = digits.as_str().unicode_len();
    let missing: usize = if len < width {
        width - len
    } else {
        0
    };
    let mut text = String::new();
    let mut i: usize = 0;
    while i < missing
        invariant
            i <= missing,
            text@ == Seq::new(i as nat, |k: int| '0'),
        decreases missing - i,
    {
        text.push('0');
        i = i + 1;
        assert(text@ =~= Seq::new(i as nat, |k: int| '0'));
    }
    let text = text.concat(digits.as_str());
    assert(Seq::new(0, |k: int| '0') + digits@ =~= digits@);
    text
}

/// `c` folded to lower case if it is an ASCII upper-case letter.
pub fn to_ascii_lower(c: char) -> (r: char)
    ensures
        r == ascii_lower(c),
{
    if 'A' <= c && c <= 'Z' {
        ((c as u8) + 32) as char
    } else {
        c
    }
}

} // verus!
