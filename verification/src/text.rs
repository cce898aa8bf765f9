//! Text as sequences of characters: the small vocabulary that the contracts of
//! the other modules are written in, and the executable functions that meet it.
use vstd::prelude::*;

verus! {

/// An ASCII letter or digit.
pub open spec fn alphanumeric(c: char) -> bool {
    ||| '0' <= c <= '9'
    ||| 'A' <= c <= 'Z'
    ||| 'a' <= c <= 'z'
}

/// What the Web API takes for an id: one or more ASCII letters and digits.
pub open spec fn plausible_id(s: Seq<char>) -> bool {
    s.len() > 0 && forall|i: int| 0 <= i < s.len() ==> alphanumeric(#[trigger] s[i])
}

/// What follows the last `sep` in `s`, or all of `s` where it holds none.
pub open spec fn last_segment(s: Seq<char>, sep: char) -> Seq<char>
    decreases s.len(),
{
    if s.len() == 0 || s.last() == sep {
        Seq::empty()
    } else {
        last_segment(s.drop_last(), sep).push(s.last())
    }
}

/// Behind a `sep`, a text without any is the last segment.
pub proof fn lemma_last_segment(front: Seq<char>, sep: char, segment: Seq<char>)
    requires
        !segment.contains(sep) || plausible_id(segment) && !alphanumeric(sep),
    ensures
        last_segment(front.push(sep) + segment, sep) == segment,
    decreases segment.len(),
{
    let whole = front.push(sep) + segment;
    if segment.len() > 0 {
        assert(segment.contains(segment.last()));
        let shorter = segment.drop_last();
        assert(!shorter.contains(sep)) by {
            assert forall|i: int| 0 <= i < shorter.len() implies shorter[i] != sep by {
                assert(shorter[i] == segment[i]);
                assert(segment.contains(segment[i]));
            }
        }
        lemma_last_segment(front, sep, shorter);
        assert(whole.drop_last() == front.push(sep) + shorter);
        assert(whole.last() == segment.last());
    } else {
        assert(whole == front.push(sep));
    }
}

pub fn same_text(a: &str, b: &str) -> (same: bool)
    ensures
        same == (a@ == b@),
{
    a.to_owned() == b.to_owned()
}

pub fn to_chars(s: &str) -> (chars: Vec<char>)
    ensures
        chars@ == s@,
{
    let mut chars: Vec<char> = Vec::new();
    for c in it: s.chars()
        invariant
            it.seq() == s@,
            chars@ == s@.take(it.index() as int),
    {
        chars.push(c);
    }
    proof {
        assert(s@.take(s@.len() as int) == s@);
    }
    chars
}

fn is_alphanumeric(c: char) -> (yes: bool)
    ensures
        yes == alphanumeric(c),
{
    ('0' <= c && c <= '9') || ('A' <= c && c <= 'Z') || ('a' <= c && c <= 'z')
}

pub fn is_plausible_id(s: &str) -> (yes: bool)
    ensures
        yes == plausible_id(s@),
{
    let chars = to_chars(s);
    let mut i: usize = 0;
    while i < chars.len()
        invariant
            chars@ == s@,
            i <= chars@.len(),
            forall|j: int| 0 <= j < i ==> alphanumeric(#[trigger] s@[j]),
        decreases chars@.len() - i,
    {
        if !is_alphanumeric(chars[i]) {
            return false;
        }
        i = i + 1;
    }
    chars.len() > 0
}

/// The part of `s` behind its last `sep`.
pub fn behind_last(s: &str, sep: char) -> (segment: &str)
    ensures
        segment@ == last_segment(s@, sep),
{
    let chars = to_chars(s);
    let mut start: usize = chars.len();
    proof {
        assert(s@.take(start as int) == s@);
        assert(s@.skip(start as int) == Seq::<char>::empty());
    }
    while start > 0 && chars[start - 1] != sep
        invariant
            chars@ == s@,
            start <= chars@.len(),
            last_segment(s@, sep) == last_segment(s@.take(start as int), sep) + s@.skip(start as int),
        decreases start,
    {
        proof {
            assert(s@.take(start as int).drop_last() == s@.take(start - 1));
            assert(s@.skip(start - 1) == seq![s@[start - 1]] + s@.skip(start as int));
        }
        start = start - 1;
    }
    proof {
        assert(s@.subrange(start as int, s@.len() as int) == s@.skip(start as int));
    }
    s.substring_char(start, chars.len())
}

/// What is left of `s` behind `prefix`, where `s` begins with it.
pub open spec fn behind_prefix(s: Seq<char>, prefix: Seq<char>) -> Option<Seq<char>> {
    if prefix.is_prefix_of(s) {
        Some(s.skip(prefix.len() as int))
    } else {
        None
    }
}

pub open spec fn opt_text(s: Option<String>) -> Option<Seq<char>> {
    match s {
        Some(s) => Some(s@),
        None => None,
    }
}

pub open spec fn opt_str(s: Option<&str>) -> Option<Seq<char>> {
    match s {
        Some(s) => Some(s@),
        None => None,
    }
}

pub fn strip_prefix<'a>(s: &'a str, prefix: &str) -> (rest: Option<&'a str>)
    ensures
        opt_str(rest) == behind_prefix(s@, prefix@),
{
    let len = prefix.unicode_len();
    let whole = s.unicode_len();
    if whole < len {
        return None;
    }
    let head = s.substring_char(0, len);
    if same_text(head, prefix) {
        proof {
            assert(s@.subrange(len as int, whole as int) == s@.skip(len as int));
        }
        Some(s.substring_char(len, whole))
    } else {
        None
    }
}

/// `n` in decimal notation, without leading zeros.
pub open spec fn decimal(n: nat) -> Seq<char>
    decreases n,
{
    if n < 10 {
        seq![digit(n)]
    } else {
        decimal(n / 10).push(digit(n % 10))
    }
}

pub open spec fn digit(n: nat) -> char {
    (('0' as int) + n) as char
}

fn digit_text(n: u64) -> (s: &'static str)
    requires
        n < 10,
    ensures
        s@ == seq![digit(n as nat)],
{
    proof {
        reveal_strlit("0");
        reveal_strlit("1");
        reveal_strlit("2");
        reveal_strlit("3");
        reveal_strlit("4");
        reveal_strlit("5");
        reveal_strlit("6");
        reveal_strlit("7");
        reveal_strlit("8");
        reveal_strlit("9");
    }
    match n {
        0 => "0",
        1 => "1",
        2 => "2",
        3 => "3",
        4 => "4",
        5 => "5",
        6 => "6",
        7 => "7",
        8 => "8",
        _ => "9",
    }
}

pub fn to_decimal(n: u64) -> (s: String)
    ensures
        s@ == decimal(n as nat),
    decreases n,
{
    if n < 10 {
        digit_text(n).to_owned()
    } else {
        let mut s = to_decimal(n / 10);
        s.append(digit_text(n % 10));
        s
    }
}

pub fn concat(a: &str, b: &str) -> (s: String)
    ensures
        s@ == a@ + b@,
{
    let mut s = a.to_owned();
    s.append(b);
    s
}

/// `parts` with `sep` between each two of them.
pub open spec fn joined(parts: Seq<Seq<char>>, sep: Seq<char>) -> Seq<char>
    decreases parts.len(),
{
    if parts.len() == 0 {
        Seq::empty()
    } else if parts.len() == 1 {
        parts[0]
    } else {
        joined(parts.drop_last(), sep) + sep + parts.last()
    }
}

pub open spec fn texts(parts: Seq<String>) -> Seq<Seq<char>> {
    parts.map_values(|s: String| s@)
}

pub fn join(parts: &Vec<String>, sep: &str) -> (s: String)
    ensures
        s@ == joined(texts(parts@), sep@),
{
    let mut s = String::new();
    let mut i: usize = 0;
    while i < parts.len()
        invariant
            i <= parts@.len(),
            s@ == joined(texts(parts@).take(i as int), sep@),
        decreases parts@.len() - i,
    {
        proof {
            assert(texts(parts@).take(i + 1).drop_last() == texts(parts@).take(i as int));
        }
        if i > 0 {
            s.append(sep);
        }
        s.append(parts[i].as_str());
        i = i + 1;
    }
    proof {
        assert(texts(parts@).take(i as int) == texts(parts@));
    }
    s
}

/// A path below `base`: a slash stands between the two unless `base` is empty
/// or ends in one.
pub open spec fn below(base: Seq<char>, name: Seq<char>) -> Seq<char> {
    if base.len() == 0 || base.last() == '/' {
        base + name
    } else {
        base.push('/') + name
    }
}

pub fn path_below(base: &str, name: &str) -> (path: String)
    ensures
        path@ == below(base@, name@),
{
    let chars = to_chars(base);
    let mut path = base.to_owned();
    if chars.len() > 0 && chars[chars.len() - 1] != '/' {
        proof {
            reveal_strlit("/");
            assert(base@ + "/"@ == base@.push('/'));
        }
        path.append("/");
    }
    path.append(name);
    path
}

/// The characters of Unicode's `White_Space` property.
pub open spec fn space(c: char) -> bool {
    ||| '\u{9}' <= c <= '\u{d}'
    ||| c == ' '
    ||| c == '\u{85}'
    ||| c == '\u{a0}'
    ||| c == '\u{1680}'
    ||| '\u{2000}' <= c <= '\u{200a}'
    ||| c == '\u{2028}'
    ||| c == '\u{2029}'
    ||| c == '\u{202f}'
    ||| c == '\u{205f}'
    ||| c == '\u{3000}'
}

fn is_space(c: char) -> (yes: bool)
    ensures
        yes == space(c),
{
    ('\u{9}' <= c && c <= '\u{d}') || c == ' ' || c == '\u{85}' || c == '\u{a0}' || c == '\u{1680}'
        || ('\u{2000}' <= c && c <= '\u{200a}') || c == '\u{2028}' || c == '\u{2029}' || c
        == '\u{202f}' || c == '\u{205f}' || c == '\u{3000}'
}

pub open spec fn trimmed_front(s: Seq<char>) -> Seq<char>
    decreases s.len(),
{
    if s.len() > 0 && space(s[0]) {
        trimmed_front(s.skip(1))
    } else {
        s
    }
}

pub open spec fn trimmed_back(s: Seq<char>) -> Seq<char>
    decreases s.len(),
{
    if s.len() > 0 && space(s.last()) {
        trimmed_back(s.drop_last())
    } else {
        s
    }
}

/// `s` without the white space at its two ends.
pub open spec fn trimmed(s: Seq<char>) -> Seq<char> {
    trimmed_back(trimmed_front(s))
}

pub fn trim(s: &str) -> (inner: &str)
    ensures
        inner@ == trimmed(s@),
{
    let chars = to_chars(s);
    let mut start: usize = 0;
    proof {
        assert(s@.skip(0) == s@);
    }
    while start < chars.len() && is_space(chars[start])
        invariant
            chars@ == s@,
            start <= chars@.len(),
            trimmed_front(s@) == trimmed_front(s@.skip(start as int)),
        decreases chars@.len() - start,
    {
        proof {
            assert(s@.skip(start as int).skip(1) == s@.skip(start + 1));
        }
        start = start + 1;
    }
    let mut end: usize = chars.len();
    proof {
        assert(s@.subrange(start as int, end as int) == s@.skip(start as int));
    }
    while end > start && is_space(chars[end - 1])
        invariant
            chars@ == s@,
            start <= end <= chars@.len(),
            trimmed(s@) == trimmed_back(s@.subrange(start as int, end as int)),
        decreases end,
    {
        proof {
            assert(s@.subrange(start as int, end as int).drop_last() == s@.subrange(
                start as int,
                end - 1,
            ));
        }
        end = end - 1;
    }
    s.substring_char(start, end)
}

/// `s` cut at its first `sep` into what stands before and behind it.
pub open spec fn cut(s: Seq<char>, sep: char) -> Option<(Seq<char>, Seq<char>)>
    decreases s.len(),
{
    if s.len() == 0 {
        None
    } else if s[0] == sep {
        Some((Seq::empty(), s.skip(1)))
    } else {
        match cut(s.skip(1), sep) {
            Some((before, behind)) => Some((seq![s[0]] + before, behind)),
            None => None,
        }
    }
}

pub proof fn lemma_cut(s: Seq<char>, sep: char, at: int)
    requires
        0 <= at <= s.len(),
        forall|i: int| 0 <= i < at ==> s[i] != sep,
    ensures
        at == s.len() ==> cut(s, sep) is None,
        at < s.len() && s[at] == sep ==> cut(s, sep) == Some((s.take(at), s.skip(at + 1))),
    decreases s.len(),
{
    if at > 0 {
        lemma_cut(s.skip(1), sep, at - 1);
        if at < s.len() {
            assert(seq![s[0]] + s.skip(1).take(at - 1) == s.take(at));
            assert(s.skip(1).skip(at) == s.skip(at + 1));
        }
    } else if s.len() > 0 {
        assert(s.take(0) == Seq::<char>::empty());
    }
}

pub open spec fn opt_pair(pair: Option<(&str, &str)>) -> Option<(Seq<char>, Seq<char>)> {
    match pair {
        Some((a, b)) => Some((a@, b@)),
        None => None,
    }
}

pub fn split_once(s: &str, sep: char) -> (pair: Option<(&str, &str)>)
    ensures
        opt_pair(pair) == cut(s@, sep),
{
    let chars = to_chars(s);
    let mut at: usize = 0;
    while at < chars.len()
        invariant
            chars@ == s@,
            at <= chars@.len(),
            forall|i: int| 0 <= i < at ==> s@[i] != sep,
        decreases chars@.len() - at,
    {
        if chars[at] == sep {
            proof {
                lemma_cut(s@, sep, at as int);
                assert(s@.subrange(0, at as int) == s@.take(at as int));
                assert(s@.subrange(at + 1, s@.len() as int) == s@.skip(at + 1));
            }
            return Some((s.substring_char(0, at), s.substring_char(at + 1, chars.len())));
        }
        at = at + 1;
    }
    proof {
        lemma_cut(s@, sep, at as int);
    }
    None
}

/// The pieces into which every `sep` cuts `s`; one more than it holds of them.
pub open spec fn pieces(s: Seq<char>, sep: char) -> Seq<Seq<char>>
    decreases s.len(),
{
    if s.len() == 0 {
        seq![Seq::empty()]
    } else {
        let front = pieces(s.drop_last(), sep);
        if s.last() == sep {
            front.push(Seq::empty())
        } else {
            front.drop_last().push(front.last().push(s.last()))
        }
    }
}

pub fn split(s: &str, sep: char) -> (parts: Vec<String>)
    ensures
        texts(parts@) == pieces(s@, sep),
{
    let chars = to_chars(s);
    let mut parts: Vec<String> = Vec::new();
    let mut start: usize = 0;
    let mut i: usize = 0;
    proof {
        assert(s@.take(0) == Seq::<char>::empty());
        assert(s@.subrange(0, 0) == Seq::<char>::empty());
        assert(texts(parts@).push(Seq::<char>::empty()) == seq![Seq::<char>::empty()]);
    }
    while i < chars.len()
        invariant
            chars@ == s@,
            start <= i <= chars@.len(),
            pieces(s@.take(i as int), sep) == texts(parts@).push(s@.subrange(start as int, i as int)),
        decreases chars@.len() - i,
    {
        let ghost before = texts(parts@);
        proof {
            assert(s@.take(i + 1).drop_last() == s@.take(i as int));
            assert(before.push(s@.subrange(start as int, i as int)).drop_last() == before);
        }
        if chars[i] == sep {
            let part = s.substring_char(start, i).to_owned();
            parts.push(part);
            start = i + 1;
            proof {
                assert(texts(parts@) == before.push(part@));
                assert(s@.subrange(start as int, i + 1) == Seq::<char>::empty());
            }
        } else {
            proof {
                assert(s@.subrange(start as int, i as int).push(s@[i as int]) == s@.subrange(
                    start as int,
                    i + 1,
                ));
            }
        }
        i = i + 1;
    }
    let ghost before = texts(parts@);
    let part = s.substring_char(start, i).to_owned();
    parts.push(part);
    proof {
        assert(texts(parts@) == before.push(part@));
        assert(s@.take(i as int) == s@);
    }
    parts
}

} // verus!
