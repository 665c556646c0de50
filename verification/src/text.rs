//! Character-level text operations with exact contracts over `Seq<char>`.
//!
//! Strings cross the public interface as `&str` and `String`; inside, the
//! algorithms work on `Vec<char>`, whose view is the same `Seq<char>`.

use vstd::prelude::*;

verus! {

/// The characters with the Unicode `White_Space` property.
pub open spec fn is_whitespace(c: char) -> bool {
    let n = c as u32;
    ||| 0x09 <= n <= 0x0D
    ||| n == 0x20
    ||| n == 0x85
    ||| n == 0xA0
    ||| n == 0x1680
    ||| 0x2000 <= n <= 0x200A
    ||| n == 0x2028
    ||| n == 0x2029
    ||| n == 0x202F
    ||| n == 0x205F
    ||| n == 0x3000
}

/// ASCII letters and digits.
pub open spec fn is_ascii_alphanumeric(c: char) -> bool {
    ||| '0' <= c <= '9'
    ||| 'a' <= c <= 'z'
    ||| 'A' <= c <= 'Z'
}

/// A set of characters that can be stripped from the ends of a text.
#[derive(Clone, Copy, Debug)]
pub enum CharClass {
    Whitespace,
    Exactly(char),
}

impl CharClass {
    /// Whether `c` belongs to the class.
    pub open spec fn has(self, c: char) -> bool {
        match self {
            CharClass::Whitespace => is_whitespace(c),
            CharClass::Exactly(x) => c == x,
        }
    }

    /// Whether `c` belongs to the class.
    pub fn contains(&self, c: char) -> (r: bool)
        ensures
            r == self.has(c),
    {
        match self {
            CharClass::Whitespace => char_is_whitespace(c),
            CharClass::Exactly(x) => c == *x,
        }
    }
}

/// `s` without its longest prefix of characters in `class`.
pub open spec fn skip_leading(s: Seq<char>, class: CharClass) -> Seq<char>
    decreases s.len(),
{
    if s.len() > 0 && class.has(s[0]) {
        skip_leading(s.drop_first(), class)
    } else {
        s
    }
}

/// `s` without its longest suffix of characters in `class`.
pub open spec fn skip_trailing(s: Seq<char>, class: CharClass) -> Seq<char>
    decreases s.len(),
{
    if s.len() > 0 && class.has(s.last()) {
        skip_trailing(s.drop_last(), class)
    } else {
        s
    }
}

/// `s` with the characters of `class` stripped from both ends.
pub open spec fn trim_class(s: Seq<char>, class: CharClass) -> Seq<char> {
    skip_trailing(skip_leading(s, class), class)
}

/// `s` with whitespace stripped from both ends.
pub open spec fn trim(s: Seq<char>) -> Seq<char> {
    trim_class(s, CharClass::Whitespace)
}

/// `s` begins with `p`.
pub open spec fn has_prefix(s: Seq<char>, p: Seq<char>) -> bool {
    p.len() <= s.len() && s.subrange(0, p.len() as int) == p
}

/// `s` ends with `p`.
pub open spec fn has_suffix(s: Seq<char>, p: Seq<char>) -> bool {
    p.len() <= s.len() && s.subrange(s.len() - p.len(), s.len() as int) == p
}

/// `p` stands in `s` at index `i`.
pub open spec fn occurs_at(s: Seq<char>, p: Seq<char>, i: int) -> bool {
    0 <= i && i + p.len() <= s.len() && s.subrange(i, i + p.len()) == p
}

/// `p` stands somewhere in `s`.
pub open spec fn has_substring(s: Seq<char>, p: Seq<char>) -> bool {
    exists|i: int| occurs_at(s, p, i)
}

/// The index of the first `c` in `s`, or `s.len()` where `s` holds none.
pub open spec fn first_index(s: Seq<char>, c: char) -> int
    decreases s.len(),
{
    if s.len() == 0 || s[0] == c {
        0
    } else {
        1 + first_index(s.drop_first(), c)
    }
}

/// `s` with every `from` replaced by `to`.
pub open spec fn replace_char(s: Seq<char>, from: char, to: char) -> Seq<char> {
    Seq::new(s.len(), |i: int| if s[i] == from { to } else { s[i] })
}

/// The first `n` characters of `s`, or all of `s` where it is shorter.
pub open spec fn prefix(s: Seq<char>, n: int) -> Seq<char> {
    if s.len() <= n {
        s
    } else {
        s.subrange(0, n)
    }
}

/// `s` without one trailing carriage return, if it ends in one.
pub open spec fn strip_cr(s: Seq<char>) -> Seq<char> {
    if s.len() > 0 && s.last() == '\r' {
        s.drop_last()
    } else {
        s
    }
}

/// The lines of `s`: the pieces between line feeds, each without the
/// carriage return that stood before its line feed. A final line feed opens
/// no further line.
pub open spec fn lines(s: Seq<char>) -> Seq<Seq<char>>
    decreases s.len(),
{
    if s.len() == 0 {
        Seq::empty()
    } else {
        let n = first_index(s, '\n');
        if 0 <= n < s.len() {
            seq![strip_cr(s.subrange(0, n))] + lines(s.subrange(n + 1, s.len() as int))
        } else {
            seq![s]
        }
    }
}

/// The digit for a value below sixteen, letters in lower case.
pub open spec fn digit_char(d: int) -> char {
    if d == 0 {
        '0'
    } else if d == 1 {
        '1'
    } else if d == 2 {
        '2'
    } else if d == 3 {
        '3'
    } else if d == 4 {
        '4'
    } else if d == 5 {
        '5'
    } else if d == 6 {
        '6'
    } else if d == 7 {
        '7'
    } else if d == 8 {
        '8'
    } else if d == 9 {
        '9'
    } else if d == 10 {
        'a'
    } else if d == 11 {
        'b'
    } else if d == 12 {
        'c'
    } else if d == 13 {
        'd'
    } else if d == 14 {
        'e'
    } else {
        'f'
    }
}

/// The decimal digits of `n`, most significant first, without leading zeros.
pub open spec fn decimal(n: nat) -> Seq<char>
    decreases n,
{
    if n < 10 {
        seq![digit_char(n as int)]
    } else {
        decimal(n / 10).push(digit_char((n % 10) as int))
    }
}

/// The `width` lowest hexadecimal digits of `n`, most significant first, in
/// lower case.
pub open spec fn hex_tail(n: nat, width: nat) -> Seq<char>
    decreases width,
{
    if width == 0 {
        Seq::empty()
    } else {
        hex_tail(n / 16, (width - 1) as nat).push(digit_char((n % 16) as int))
    }
}

/// The first index lies within the text or at its end, holds `c` where it
/// lies within, and has no `c` before it.
pub proof fn lemma_first_index(s: Seq<char>, c: char)
    ensures
        0 <= first_index(s, c) <= s.len(),
        first_index(s, c) < s.len() ==> s[first_index(s, c)] == c,
        forall|j: int| 0 <= j < first_index(s, c) ==> s[j] != c,
    decreases s.len(),
{
    if s.len() == 0 || s[0] == c {
    } else {
        let t = s.drop_first();
        lemma_first_index(t, c);
        assert forall|j: int| 0 <= j < first_index(s, c) implies s[j] != c by {
            if j > 0 {
                assert(s[j] == t[j - 1]);
            }
        }
    }
}

/// Stripping the end of a text leaves a start of it, which reaches beyond
/// every character that is not of the class.
pub proof fn lemma_skip_trailing_is_prefix(s: Seq<char>, class: CharClass)
    ensures
        skip_trailing(s, class).len() <= s.len(),
        skip_trailing(s, class) == s.subrange(0, skip_trailing(s, class).len() as int),
        forall|i: int| 0 <= i < s.len() && !class.has(s[i]) ==> i < skip_trailing(s, class).len(),
        s.len() > 0 && !class.has(s.last()) ==> skip_trailing(s, class) == s,
    decreases s.len(),
{
    if s.len() > 0 && class.has(s.last()) {
        let t = s.drop_last();
        lemma_skip_trailing_is_prefix(t, class);
        let k = skip_trailing(t, class).len() as int;
        assert(t.subrange(0, k) =~= s.subrange(0, k));
        assert forall|i: int| 0 <= i < s.len() && !class.has(s[i]) implies i < k by {
            assert(s[i] == t[i]);
        }
    } else {
        assert(s.subrange(0, s.len() as int) =~= s);
    }
}

/// The first index is the only one with no `c` before it and `c` at it.
pub proof fn lemma_first_index_is(s: Seq<char>, c: char, i: int)
    requires
        0 <= i <= s.len(),
        i < s.len() ==> s[i] == c,
        forall|j: int| 0 <= j < i ==> s[j] != c,
    ensures
        first_index(s, c) == i,
{
    lemma_first_index(s, c);
    let f = first_index(s, c);
    if f < i {
        assert(s[f] != c);
    } else if i < f {
        assert(s[i] != c);
    }
}

/// Whether `c` is a whitespace character.
pub fn char_is_whitespace(c: char) -> (r: bool)
    ensures
        r == is_whitespace(c),
{
    let n: u32 = c as u32;
    (0x09 <= n && n <= 0x0D) || n == 0x20 || n == 0x85 || n == 0xA0 || n == 0x1680 || (0x2000 <= n
        && n <= 0x200A) || n == 0x2028 || n == 0x2029 || n == 0x202F || n == 0x205F || n == 0x3000
}

/// Whether `c` is an ASCII letter or digit.
pub fn char_is_ascii_alphanumeric(c: char) -> (r: bool)
    ensures
        r == is_ascii_alphanumeric(c),
{
    ('0' <= c && c <= '9') || ('a' <= c && c <= 'z') || ('A' <= c && c <= 'Z')
}

/// The digit for a value below sixteen.
pub fn digit(d: u8) -> (r: char)
    requires
        d < 16,
    ensures
        r == digit_char(d as int),
{
    if d == 0 {
        '0'
    } else if d == 1 {
        '1'
    } else if d == 2 {
        '2'
    } else if d == 3 {
        '3'
    } else if d == 4 {
        '4'
    } else if d == 5 {
        '5'
    } else if d == 6 {
        '6'
    } else if d == 7 {
        '7'
    } else if d == 8 {
        '8'
    } else if d == 9 {
        '9'
    } else if d == 10 {
        'a'
    } else if d == 11 {
        'b'
    } else if d == 12 {
        'c'
    } else if d == 13 {
        'd'
    } else if d == 14 {
        'e'
    } else {
        'f'
    }
}

/// Appends the characters of `s` to `out`.
pub fn push_str(out: &mut Vec<char>, s: &str)
    ensures
        final(out)@ == old(out)@ + s@,
{
    let ghost before = out@;
    for c in it: s.chars()
        invariant
            it.seq() == s@,
            out@ == before + it.seq().subrange(0, it.index()),
    {
        out.push(c);
        assert(out@ == before + it.seq().subrange(0, it.index() + 1));
    }
    assert(s@.subrange(0, s@.len() as int) =~= s@);
}

/// The characters of `s`, in order.
pub fn to_chars(s: &str) -> (r: Vec<char>)
    ensures
        r@ == s@,
{
    let mut out: Vec<char> = Vec::new();
    push_str(&mut out, s);
    out
}

/// Calls `String::from_iter` on the characters of `chars`: the string that
/// holds exactly these characters, in order.
#[verifier::external_body]
pub(crate) fn to_text(chars: &Vec<char>) -> (r: String)
    ensures
        r@ == chars@,
{
    String::from_iter(chars.iter())
}

/// What `str::to_lowercase` makes of a text: its Unicode lower-case form.
pub uninterp spec fn lowercase(s: Seq<char>) -> Seq<char>;

/// Calls `str::to_lowercase`, whose result is a function of the text alone;
/// nothing more is claimed of it than that it is `lowercase` of the text.
#[verifier::external_body]
pub(crate) fn to_lowercase(s: &str) -> (r: String)
    ensures
        r@ == lowercase(s@),
{
    s.to_lowercase()
}

/// The characters of `v` from `from` up to `to`.
pub fn subvec(v: &Vec<char>, from: usize, to: usize) -> (r: Vec<char>)
    requires
        from <= to <= v.len(),
    ensures
        r@ == v@.subrange(from as int, to as int),
{
    let mut out: Vec<char> = Vec::new();
    let mut i: usize = from;
    while i < to
        invariant
            from <= i <= to <= v.len(),
            out@ == v@.subrange(from as int, i as int),
        decreases to - i,
    {
        out.push(v[i]);
        i += 1;
    }
    out
}

/// The first `n` characters of `v`, or all of them where it is shorter.
pub fn take_chars(v: &Vec<char>, n: usize) -> (r: Vec<char>)
    ensures
        r@ == prefix(v@, n as int),
{
    if v.len() <= n {
        let r = subvec(v, 0, v.len());
        assert(v@.subrange(0, v.len() as int) == v@);
        r
    } else {
        subvec(v, 0, n)
    }
}

/// `v` with the characters of `class` stripped from both ends.
pub fn trim_chars(v: &Vec<char>, class: CharClass) -> (r: Vec<char>)
    ensures
        r@ == trim_class(v@, class),
{
    let n = v.len();
    let mut start: usize = 0;
    assert(v@.subrange(0, n as int) == v@);
    while start < n && class.contains(v[start])
        invariant
            n == v.len(),
            start <= n,
            skip_leading(v@, class) == skip_leading(v@.subrange(start as int, n as int), class),
        decreases n - start,
    {
        assert(v@.subrange(start as int, n as int).drop_first() == v@.subrange(
            start + 1,
            n as int,
        ));
        start += 1;
    }
    let mut end: usize = n;
    while end > start && class.contains(v[end - 1])
        invariant
            n == v.len(),
            start <= end <= n,
            skip_leading(v@, class) == v@.subrange(start as int, n as int),
            trim_class(v@, class) == skip_trailing(v@.subrange(start as int, end as int), class),
        decreases end - start,
    {
        assert(v@.subrange(start as int, end as int).drop_last() == v@.subrange(
            start as int,
            end - 1,
        ));
        end -= 1;
    }
    subvec(v, start, end)
}

/// `v` without the characters of `class` at its end.
pub fn trim_end_chars(v: &Vec<char>, class: CharClass) -> (r: Vec<char>)
    ensures
        r@ == skip_trailing(v@, class),
{
    let mut end: usize = v.len();
    assert(v@.subrange(0, end as int) == v@);
    while end > 0 && class.contains(v[end - 1])
        invariant
            end <= v.len(),
            skip_trailing(v@, class) == skip_trailing(v@.subrange(0, end as int), class),
        decreases end,
    {
        assert(v@.subrange(0, end as int).drop_last() == v@.subrange(0, end - 1));
        end -= 1;
    }
    subvec(v, 0, end)
}

/// Whether `p` stands in `v` at the index `at`.
pub fn matches_at(v: &Vec<char>, p: &Vec<char>, at: usize) -> (r: bool)
    ensures
        r == occurs_at(v@, p@, at as int),
{
    if p.len() > v.len() || at > v.len() - p.len() {
        return false;
    }
    let mut k: usize = 0;
    while k < p.len()
        invariant
            k <= p.len(),
            at + p.len() <= v.len(),
            forall|j: int| 0 <= j < k ==> v@[at + j] == p@[j],
        decreases p.len() - k,
    {
        if v[at + k] != p[k] {
            assert(v@.subrange(at as int, at + p.len())[k as int] == v@[at + k]);
            return false;
        }
        k += 1;
    }
    assert(v@.subrange(at as int, at + p.len()) =~= p@);
    true
}

/// Whether `v` begins with `p`.
pub fn starts_with(v: &Vec<char>, p: &Vec<char>) -> (r: bool)
    ensures
        r == has_prefix(v@, p@),
{
    matches_at(v, p, 0)
}

/// Whether `v` ends with `p`.
pub fn ends_with(v: &Vec<char>, p: &Vec<char>) -> (r: bool)
    ensures
        r == has_suffix(v@, p@),
{
    if p.len() > v.len() {
        false
    } else {
        matches_at(v, p, v.len() - p.len())
    }
}

/// Whether `p` stands somewhere in `v`.
pub fn contains_chars(v: &Vec<char>, p: &Vec<char>) -> (r: bool)
    ensures
        r == has_substring(v@, p@),
{
    if p.len() > v.len() {
        return false;
    }
    let last: usize = v.len() - p.len();
    let mut i: usize = 0;
    loop
        invariant
            p.len() <= v.len(),
            last == v.len() - p.len(),
            i <= last,
            forall|j: int| 0 <= j < i ==> !occurs_at(v@, p@, j),
        decreases last - i,
    {
        if matches_at(v, p, i) {
            return true;
        }
        if i == last {
            return false;
        }
        i += 1;
    }
}

/// The position of the first `c` in `v`, if there is one.
pub fn index_of(v: &Vec<char>, c: char) -> (r: Option<usize>)
    ensures
        match r {
            Some(i) => i < v.len() && i == first_index(v@, c),
            None => first_index(v@, c) == v.len(),
        },
{
    let mut i: usize = 0;
    while i < v.len()
        invariant
            i <= v.len(),
            forall|j: int| 0 <= j < i ==> v@[j] != c,
        decreases v.len() - i,
    {
        if v[i] == c {
            proof {
                lemma_first_index_is(v@, c, i as int);
            }
            return Some(i);
        }
        i += 1;
    }
    proof {
        lemma_first_index_is(v@, c, v.len() as int);
    }
    None
}

/// `v` with every `from` replaced by `to`.
pub fn replace_chars(v: &Vec<char>, from: char, to: char) -> (r: Vec<char>)
    ensures
        r@ == replace_char(v@, from, to),
{
    let mut out: Vec<char> = Vec::new();
    let mut i: usize = 0;
    while i < v.len()
        invariant
            i <= v.len(),
            out@.len() == i,
            forall|j: int| 0 <= j < i ==> out@[j] == (if v@[j] == from { to } else { v@[j] }),
        decreases v.len() - i,
    {
        let c = v[i];
        out.push(if c == from { to } else { c });
        i += 1;
    }
    assert(out@ =~= replace_char(v@, from, to));
    out
}

/// The lines of `v`, as `lines` defines them.
pub fn split_lines(v: &Vec<char>) -> (r: Vec<Vec<char>>)
    ensures
        r@.len() == lines(v@).len(),
        forall|i: int| 0 <= i < r@.len() ==> (#[trigger] r@[i])@ == lines(v@)[i],
{
    let n = v.len();
    let mut out: Vec<Vec<char>> = Vec::new();
    let ghost mut done: Seq<Seq<char>> = Seq::empty();
    let mut start: usize = 0;
    assert(v@.subrange(0, n as int) == v@);
    while start < n
        invariant
            n == v.len(),
            start <= n,
            out@.len() == done.len(),
            forall|i: int| 0 <= i < out@.len() ==> (#[trigger] out@[i])@ == done[i],
            lines(v@) == done + lines(v@.subrange(start as int, n as int)),
        decreases n - start,
    {
        let ghost rest = v@.subrange(start as int, n as int);
        let mut stop: usize = start;
        while stop < n && v[stop] != '\n'
            invariant
                n == v.len(),
                start <= stop <= n,
                forall|j: int| start <= j < stop ==> v@[j] != '\n',
            decreases n - stop,
        {
            stop += 1;
        }
        proof {
            lemma_first_index_is(rest, '\n', stop - start);
        }
        if stop < n {
            let mut end: usize = stop;
            if end > start && v[end - 1] == '\r' {
                end -= 1;
            }
            let line = subvec(v, start, end);
            proof {
                let piece = rest.subrange(0, stop - start);
                assert(piece == v@.subrange(start as int, stop as int));
                assert(line@ == strip_cr(piece));
                assert(rest.subrange(stop - start + 1, rest.len() as int) == v@.subrange(
                    stop + 1,
                    n as int,
                ));
                done = done.push(line@);
                assert(lines(v@) == done + lines(v@.subrange(stop + 1, n as int)));
            }
            out.push(line);
            start = stop + 1;
        } else {
            let line = subvec(v, start, n);
            proof {
                done = done.push(line@);
                assert(lines(v@.subrange(n as int, n as int)) == Seq::<Seq<char>>::empty());
                assert(lines(v@) == done + lines(v@.subrange(n as int, n as int)));
            }
            out.push(line);
            start = n;
        }
    }
    proof {
        assert(lines(v@.subrange(n as int, n as int)) == Seq::<Seq<char>>::empty());
        assert(lines(v@) == done);
    }
    out
}

/// Appends the decimal digits of `n` to `out`.
pub fn push_decimal(out: &mut Vec<char>, n: u64)
    ensures
        final(out)@ == old(out)@ + decimal(n as nat),
    decreases n,
{
    if n >= 10 {
        push_decimal(out, n / 10);
    }
    out.push(digit((n % 10) as u8));
    assert(final(out)@ == old(out)@ + decimal(n as nat));
}

/// Appends the `width` lowest hexadecimal digits of `n` to `out`.
pub fn push_hex_tail(out: &mut Vec<char>, n: u128, width: u8)
    ensures
        final(out)@ == old(out)@ + hex_tail(n as nat, width as nat),
    decreases width,
{
    if width > 0 {
        push_hex_tail(out, n / 16, width - 1);
        out.push(digit((n % 16) as u8));
    }
    assert(final(out)@ == old(out)@ + hex_tail(n as nat, width as nat));
}

/// `s` with whitespace stripped from both ends, as a new string.
pub fn trimmed(s: &str) -> (r: String)
    ensures
        r@ == trim(s@),
{
    let chars = to_chars(s);
    let kept = trim_chars(&chars, CharClass::Whitespace);
    to_text(&kept)
}

/// `s`, or `fallback` where `s` is empty.
pub open spec fn or_default(s: Seq<char>, fallback: Seq<char>) -> Seq<char> {
    if s.len() == 0 {
        fallback
    } else {
        s
    }
}

/// `s`, or `fallback` where `s` is empty.
pub fn text_or_default(s: String, fallback: &str) -> (r: String)
    ensures
        r@ == or_default(s@, fallback@),
{
    if s.as_str().is_empty() {
        fallback.to_string()
    } else {
        s
    }
}

/// Whether two texts hold the same characters.
pub fn same_text(a: &str, b: &str) -> (r: bool)
    ensures
        r == (a@ == b@),
{
    let x = to_chars(a);
    let y = to_chars(b);
    if x.len() != y.len() {
        return false;
    }
    let mut i: usize = 0;
    while i < x.len()
        invariant
            x@ == a@,
            y@ == b@,
            x.len() == y.len(),
            i <= x.len(),
            forall|j: int| 0 <= j < i ==> x@[j] == y@[j],
        decreases x.len() - i,
    {
        if x[i] != y[i] {
            assert(x@[i as int] != y@[i as int]);
            return false;
        }
        i += 1;
    }
    assert(x@ =~= y@);
    true
}

/// The texts that the strings of `v` hold, in order.
pub open spec fn texts(v: Seq<String>) -> Seq<Seq<char>> {
    Seq::new(v.len(), |i: int| v[i]@)
}

/// The parts in order, with `sep` between each two.
pub open spec fn join(parts: Seq<Seq<char>>, sep: Seq<char>) -> Seq<char>
    decreases parts.len(),
{
    if parts.len() == 0 {
        Seq::empty()
    } else if parts.len() == 1 {
        parts[0]
    } else {
        join(parts.drop_last(), sep) + sep + parts.last()
    }
}

/// `a` followed by `b`.
pub fn concat2(a: &str, b: &str) -> (r: String)
    ensures
        r@ == a@ + b@,
{
    let mut out = to_chars(a);
    push_str(&mut out, b);
    to_text(&out)
}

/// `a` followed by `b` and `c`.
pub fn concat3(a: &str, b: &str, c: &str) -> (r: String)
    ensures
        r@ == a@ + b@ + c@,
{
    let mut out = to_chars(a);
    push_str(&mut out, b);
    push_str(&mut out, c);
    to_text(&out)
}

/// The first `n` characters of `s`, or all of `s` where it is shorter.
pub fn take_text(s: &str, n: usize) -> (r: String)
    ensures
        r@ == prefix(s@, n as int),
{
    let chars = to_chars(s);
    let kept = take_chars(&chars, n);
    to_text(&kept)
}

/// Appends `s` to `v`.
pub fn push_text(v: &mut Vec<String>, s: String)
    ensures
        texts(final(v)@) == texts(old(v)@).push(s@),
{
    v.push(s);
    assert(texts(v@) =~= texts(old(v)@).push(s@));
}

/// The parts in order, with `sep` between each two.
pub fn join_texts(parts: &Vec<String>, sep: &str) -> (r: String)
    ensures
        r@ == join(texts(parts@), sep@),
{
    let ghost all = texts(parts@);
    let mut out: Vec<char> = Vec::new();
    let mut i: usize = 0;
    assert(all.subrange(0, 0) =~= Seq::<Seq<char>>::empty());
    while i < parts.len()
        invariant
            i <= parts.len(),
            all == texts(parts@),
            out@ == join(all.subrange(0, i as int), sep@),
        decreases parts.len() - i,
    {
        let ghost before = all.subrange(0, i as int);
        let ghost after = all.subrange(0, i + 1);
        assert(after.drop_last() =~= before);
        assert(after.last() == parts@[i as int]@);
        if i > 0 {
            push_str(&mut out, sep);
        } else {
            assert(out@ =~= Seq::<char>::empty());
            assert(out@ + parts@[i as int]@ =~= parts@[i as int]@);
        }
        push_str(&mut out, parts[i].as_str());
        i += 1;
    }
    assert(all.subrange(0, parts.len() as int) =~= all);
    to_text(&out)
}

} // verus!
