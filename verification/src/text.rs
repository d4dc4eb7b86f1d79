use vstd::prelude::*;

verus! {

/// The characters of a text.
pub fn chars_of(s: &str) -> (r: Vec<char>)
    ensures
        r@ == s@,
{
    let mut out: Vec<char> = Vec::new();
    for c in it: s.chars()
        invariant
            out@ == it.seq().take(it.index()),
    {
        out.push(c);
    }
    out
}

/// Collects `chars` into a text with std's `FromIterator<char>` for `String`; the contract
/// claims that the text holds exactly those characters, in their order.
#[verifier::external_body]
pub fn text_from_chars(chars: &[char]) -> (r: String)
    ensures
        r@ == chars@,
{
    chars.iter().collect()
}

/// Whether a text has no characters.
pub fn is_blank(s: &str) -> (r: bool)
    ensures
        r == (s@.len() == 0),
{
    let mut it = s.chars();
    match it.next() {
        Some(_) => false,
        None => true,
    }
}

/// `a` followed by `b`.
pub fn join(a: &str, b: &str) -> (r: String)
    ensures
        r@ == a@ + b@,
{
    let mut out = a.to_owned();
    out.append(b);
    out
}

/// The concatenation of the given pieces.
pub fn join_all(pieces: &[&str]) -> (r: String)
    ensures
        r@ == concat_all(pieces@.map_values(|p: &str| p@)),
{
    let mut out = String::new();
    let ghost views = pieces@.map_values(|p: &str| p@);
    let mut i: usize = 0;
    while i < pieces.len()
        invariant
            i <= pieces@.len(),
            views == pieces@.map_values(|p: &str| p@),
            out@ == concat_all(views.take(i as int)),
        decreases pieces.len() - i,
    {
        assert(views.take(i + 1).drop_last() =~= views.take(i as int));
        out.append(pieces[i]);
        i = i + 1;
    }
    assert(views.take(pieces@.len() as int) =~= views);
    out
}

pub open spec fn concat_all(pieces: Seq<Seq<char>>) -> Seq<char>
    decreases pieces.len(),
{
    if pieces.len() == 0 {
        Seq::empty()
    } else {
        concat_all(pieces.drop_last()) + pieces.last()
    }
}

pub open spec fn digit_char(d: int) -> char {
    if d == 0 {
        '0'
    } else if d == 1 {
        '1'
    } else if d == 2 {
        '2'
    } else if d == 3 {
        '3'
    } else if d == 4 {
        '4'
    } else if d == 5 {
        '5'
    } else if d == 6 {
        '6'
    } else if d == 7 {
        '7'
    } else if d == 8 {
        '8'
    } else {
        '9'
    }
}

/// The decimal digits of a natural number, most significant first.
pub open spec fn decimal_digits(n: nat) -> Seq<char>
    decreases n,
{
    if n < 10 {
        seq![digit_char(n as int)]
    } else {
        decimal_digits(n / 10).push(digit_char((n % 10) as int))
    }
}

/// The decimal notation of an integer, as `Display` writes it.
pub open spec fn decimal(n: int) -> Seq<char> {
    if n < 0 {
        seq!['-'] + decimal_digits((-n) as nat)
    } else {
        decimal_digits(n as nat)
    }
}

fn digit(d: u64) -> (c: char)
    requires
        d < 10,
    ensures
        c == digit_char(d as int),
{
    match d {
        0 => '0',
        1 => '1',
        2 => '2',
        3 => '3',
        4 => '4',
        5 => '5',
        6 => '6',
        7 => '7',
        8 => '8',
        _ => '9',
    }
}

fn digits(n: u64) -> (r: Vec<char>)
    ensures
        r@ == decimal_digits(n as nat),
    decreases n,
{
    if n < 10 {
        let mut v = Vec::new();
        v.push(digit(n));
        v
    } else {
        let mut v = digits(n / 10);
        v.push(digit(n % 10));
        v
    }
}

/// The decimal notation of `n`.
pub fn decimal_text(n: i64) -> (r: String)
    ensures
        r@ == decimal(n as int),
{
    if n < 0 {
        let magnitude: u64 = (0i128 - n as i128) as u64;
        let mut v = Vec::new();
        v.push('-');
        let mut d = digits(magnitude);
        v.append(&mut d);
        assert(v@ =~= seq!['-'] + decimal_digits((-n) as nat));
        text_from_chars(v.as_slice())
    } else {
        let v = digits(n as u64);
        text_from_chars(v.as_slice())
    }
}

/// `s` begins with `prefix`.
pub open spec fn has_prefix(s: Seq<char>, prefix: Seq<char>) -> bool {
    prefix.len() <= s.len() && s.take(prefix.len() as int) == prefix
}

pub fn starts_with(s: &str, prefix: &str) -> (r: bool)
    ensures
        r == has_prefix(s@, prefix@),
{
    let a = chars_of(s);
    let p = chars_of(prefix);
    if p.len() > a.len() {
        return false;
    }
    let mut i: usize = 0;
    while i < p.len()
        invariant
            i <= p@.len(),
            p@.len() <= a@.len(),
            a@ == s@,
            p@ == prefix@,
            forall|k: int| 0 <= k < i ==> a@[k] == p@[k],
        decreases p.len() - i,
    {
        if a[i] != p[i] {
            assert(a@.take(p@.len() as int)[i as int] != p@[i as int]);
            return false;
        }
        i = i + 1;
    }
    assert(a@.take(p@.len() as int) =~= p@);
    true
}

pub open spec fn ascii_lower(c: char) -> char {
    if 'A' <= c <= 'Z' {
        ((c as u32) + 32) as char
    } else {
        c
    }
}

/// The text with its ASCII capitals made small (`str::to_ascii_lowercase`).
pub open spec fn lowered(s: Seq<char>) -> Seq<char> {
    s.map_values(|c: char| ascii_lower(c))
}

pub fn lower_char(c: char) -> (r: char)
    ensures
        r == ascii_lower(c),
{
    if 'A' <= c && c <= 'Z' {
        let b: u8 = c as u8;
        (b + 32) as char
    } else {
        c
    }
}

/// `needle` occurs in `s` at position `i`.
pub open spec fn occurs_at(s: Seq<char>, needle: Seq<char>, i: int) -> bool {
    0 <= i && i + needle.len() <= s.len() && s.subrange(i, i + needle.len()) == needle
}

pub open spec fn contains_text(s: Seq<char>, needle: Seq<char>) -> bool {
    exists|i: int| occurs_at(s, needle, i)
}

/// Whether `needle` occurs in `s` once ASCII capitals are made small.
pub fn contains_ignoring_ascii_case(s: &str, needle: &str) -> (r: bool)
    ensures
        r == contains_text(lowered(s@), needle@),
{
    let raw = chars_of(s);
    let n = chars_of(needle);
    let mut low: Vec<char> = Vec::new();
    let mut k: usize = 0;
    while k < raw.len()
        invariant
            k <= raw@.len(),
            raw@ == s@,
            low@ == lowered(raw@).take(k as int),
        decreases raw.len() - k,
    {
        let c = lower_char(raw[k]);
        low.push(c);
        k = k + 1;
        assert(low@ =~= lowered(raw@).take(k as int));
    }
    assert(low@ =~= lowered(s@));
    if n.len() > low.len() {
        assert forall|i: int| !occurs_at(lowered(s@), needle@, i) by {}
        return false;
    }
    let last: usize = low.len() - n.len();
    let mut i: usize = 0;
    while i <= last
        invariant
            last + n@.len() == low@.len(),
            low@.len() <= usize::MAX,
            i <= last + 1,
            low@ == lowered(s@),
            n@ == needle@,
            forall|j: int| 0 <= j < i ==> !occurs_at(lowered(s@), needle@, j),
        decreases last + 1 - i,
    {
        let mut j: usize = 0;
        let mut same = true;
        while j < n.len()
            invariant
                j <= n@.len(),
                i + n@.len() <= low@.len(),
                low@.len() <= usize::MAX,
                same == (forall|m: int| 0 <= m < j ==> low@[i + m] == n@[m]),
            decreases n.len() - j,
        {
            if low[i + j] != n[j] {
                same = false;
            }
            j = j + 1;
        }
        if same {
            assert(low@.subrange(i as int, i + n@.len()) =~= n@);
            assert(occurs_at(lowered(s@), needle@, i as int));
            return true;
        }
        assert(!occurs_at(lowered(s@), needle@, i as int)) by {
            let m = choose|m: int| 0 <= m < n@.len() && low@[i + m] != n@[m];
            assert(low@.subrange(i as int, i + n@.len())[m] != n@[m]);
        }
        i = i + 1;
    }
    assert forall|j: int| !occurs_at(lowered(s@), needle@, j) by {
        if 0 <= j && j + needle@.len() <= lowered(s@).len() {
            assert(j <= last);
        }
    }
    false
}

/// A character with the Unicode `White_Space` property (`char::is_whitespace`).
pub open spec fn is_space(c: char) -> bool {
    ||| '\u{9}' <= c <= '\u{d}'
    ||| c == ' '
    ||| c == '\u{85}'
    ||| c == '\u{a0}'
    ||| c == '\u{1680}'
    ||| '\u{2000}' <= c <= '\u{200a}'
    ||| c == '\u{2028}'
    ||| c == '\u{2029}'
    ||| c == '\u{202f}'
    ||| c == '\u{205f}'
    ||| c == '\u{3000}'
}

pub fn space_char(c: char) -> (r: bool)
    ensures
        r == is_space(c),
{
    ('\u{9}' <= c && c <= '\u{d}') || c == ' ' || c == '\u{85}' || c == '\u{a0}' || c
        == '\u{1680}' || ('\u{2000}' <= c && c <= '\u{200a}') || c == '\u{2028}' || c
        == '\u{2029}' || c == '\u{202f}' || c == '\u{205f}' || c == '\u{3000}'
}

/// Number of white-space characters that begin `s`.
pub open spec fn leading_space(s: Seq<char>) -> nat
    decreases s.len(),
{
    if s.len() > 0 && is_space(s[0]) {
        1 + leading_space(s.drop_first())
    } else {
        0
    }
}

/// Number of white-space characters that end `s`.
pub open spec fn trailing_space(s: Seq<char>) -> nat
    decreases s.len(),
{
    if s.len() > 0 && is_space(s.last()) {
        1 + trailing_space(s.drop_last())
    } else {
        0
    }
}

/// `s` without the white space at both ends (`str::trim`).
pub open spec fn trimmed(s: Seq<char>) -> Seq<char> {
    if leading_space(s) == s.len() {
        Seq::empty()
    } else {
        s.subrange(leading_space(s) as int, s.len() - trailing_space(s))
    }
}

proof fn lemma_leading_space(s: Seq<char>, i: int)
    requires
        0 <= i <= s.len(),
        forall|k: int| 0 <= k < i ==> is_space(s[k]),
    ensures
        leading_space(s) >= i,
        i < s.len() && !is_space(s[i]) ==> leading_space(s) == i,
        leading_space(s) <= s.len(),
        forall|k: int| 0 <= k < leading_space(s) ==> is_space(s[k]),
        leading_space(s) < s.len() ==> !is_space(s[leading_space(s) as int]),
    decreases s.len(),
{
    if s.len() > 0 && is_space(s[0]) {
        let t = s.drop_first();
        if i > 0 {
            lemma_leading_space(t, i - 1);
        } else {
            lemma_leading_space(t, 0);
        }
        assert forall|k: int| 0 <= k < leading_space(s) implies is_space(s[k]) by {
            if k > 0 {
                assert(s[k] == t[k - 1]);
            }
        }
    }
}

proof fn lemma_trailing_space(s: Seq<char>, i: int)
    requires
        0 <= i <= s.len(),
        forall|k: int| s.len() - i <= k < s.len() ==> is_space(s[k]),
    ensures
        trailing_space(s) >= i,
        i < s.len() && !is_space(s[s.len() - 1 - i]) ==> trailing_space(s) == i,
        trailing_space(s) <= s.len(),
        forall|k: int| s.len() - trailing_space(s) <= k < s.len() ==> is_space(s[k]),
        trailing_space(s) < s.len() ==> !is_space(s[s.len() - 1 - trailing_space(s)]),
    decreases s.len(),
{
    if s.len() > 0 && is_space(s.last()) {
        let t = s.drop_last();
        if i > 0 {
            lemma_trailing_space(t, i - 1);
        } else {
            lemma_trailing_space(t, 0);
        }
        assert forall|k: int| s.len() - trailing_space(s) <= k < s.len() implies is_space(s[k]) by {
            if k < s.len() - 1 {
                assert(s[k] == t[k]);
            }
        }
    }
}

/// `s` without its surrounding white space.
pub fn trim(s: &str) -> (r: String)
    ensures
        r@ == trimmed(s@),
{
    let v = chars_of(s);
    let mut start: usize = 0;
    while start < v.len() && space_char(v[start])
        invariant
            start <= v@.len(),
            v@ == s@,
            forall|k: int| 0 <= k < start ==> is_space(v@[k]),
        decreases v.len() - start,
    {
        start = start + 1;
    }
    proof {
        lemma_leading_space(s@, start as int);
    }
    if start == v.len() {
        return String::new();
    }
    let mut end: usize = v.len();
    while end > start && space_char(v[end - 1])
        invariant
            start < v@.len(),
            start <= end <= v@.len(),
            v@ == s@,
            !is_space(v@[start as int]),
            forall|k: int| end <= k < v@.len() ==> is_space(v@[k]),
        decreases end,
    {
        end = end - 1;
    }
    proof {
        lemma_trailing_space(s@, v@.len() - end);
    }
    let mut out: Vec<char> = Vec::new();
    let mut k: usize = start;
    while k < end
        invariant
            start <= k <= end <= v@.len(),
            out@ == v@.subrange(start as int, k as int),
        decreases end - k,
    {
        out.push(v[k]);
        k = k + 1;
        assert(out@ =~= v@.subrange(start as int, k as int));
    }
    text_from_chars(out.as_slice())
}

/// Whether any character of `s` is white space.
pub fn has_space(s: &str) -> (r: bool)
    ensures
        r == (exists|i: int| 0 <= i < s@.len() && is_space(#[trigger] s@[i])),
{
    let v = chars_of(s);
    let mut i: usize = 0;
    while i < v.len()
        invariant
            i <= v@.len(),
            v@ == s@,
            forall|k: int| 0 <= k < i ==> !is_space(v@[k]),
        decreases v.len() - i,
    {
        if space_char(v[i]) {
            return true;
        }
        i = i + 1;
    }
    false
}

/// The part of `s` after its last `.`, or all of `s` when it has none
/// (the first piece of `str::rsplit('.')`).
pub open spec fn after_last_dot(s: Seq<char>) -> Seq<char>
    decreases s.len(),
{
    if s.len() == 0 {
        s
    } else if s.last() == '.' {
        Seq::empty()
    } else {
        after_last_dot(s.drop_last()).push(s.last())
    }
}

pub fn extension_of(s: &str) -> (r: Vec<char>)
    ensures
        r@ == after_last_dot(s@),
{
    let v = chars_of(s);
    let mut start: usize = v.len();
    assert(v@.take(start as int) =~= v@);
    assert(v@.subrange(start as int, v@.len() as int) =~= Seq::<char>::empty());
    assert(after_last_dot(s@) =~= after_last_dot(v@.take(start as int)) + v@.subrange(start as int, v@.len() as int));
    while start > 0 && v[start - 1] != '.'
        invariant
            start <= v@.len(),
            v@ == s@,
            after_last_dot(s@) == after_last_dot(v@.take(start as int)) + v@.subrange(
                start as int,
                v@.len() as int,
            ),
        decreases start,
    {
        assert(v@.take(start as int).drop_last() =~= v@.take(start - 1));
        assert(v@.subrange(start - 1, v@.len() as int) =~= seq![v@[start - 1]] + v@.subrange(
            start as int,
            v@.len() as int,
        ));
        assert(after_last_dot(v@.take(start as int)) == after_last_dot(v@.take(start - 1)).push(
            v@[start - 1],
        ));
        assert(after_last_dot(v@.take(start - 1)).push(v@[start - 1]) + v@.subrange(
            start as int,
            v@.len() as int,
        ) =~= after_last_dot(v@.take(start - 1)) + v@.subrange(start - 1, v@.len() as int));
        start = start - 1;
    }
    let mut out: Vec<char> = Vec::new();
    let mut k: usize = start;
    while k < v.len()
        invariant
            start <= k <= v@.len(),
            out@ == v@.subrange(start as int, k as int),
        decreases v.len() - k,
    {
        out.push(v[k]);
        k = k + 1;
        assert(out@ =~= v@.subrange(start as int, k as int));
    }
    out
}

/// Whether the characters, with ASCII capitals made small, spell `word`.
pub fn lowered_is(chars: &Vec<char>, word: &str) -> (r: bool)
    ensures
        r == (lowered(chars@) == word@),
{
    let w = chars_of(word);
    if w.len() != chars.len() {
        assert(lowered(chars@).len() != word@.len());
        return false;
    }
    let mut i: usize = 0;
    while i < w.len()
        invariant
            i <= w@.len(),
            w@.len() == chars@.len(),
            w@ == word@,
            forall|k: int| 0 <= k < i ==> lowered(chars@)[k] == w@[k],
        decreases w.len() - i,
    {
        if lower_char(chars[i]) != w[i] {
            return false;
        }
        i = i + 1;
    }
    assert(lowered(chars@) =~= word@);
    true
}

} // verus!
