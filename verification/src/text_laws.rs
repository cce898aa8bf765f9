//! What the words that the other modules are described in mean, in terms of
//! characters and their order alone.
use crate::text::{
    alphanumeric, behind_prefix, below, cut, decimal, digit, joined, last_segment, lemma_cut, pieces,
    plausible_id, space, trimmed, trimmed_back, trimmed_front,
};
use vstd::prelude::*;

verus! {

/// What a row of digits is worth.
pub open spec fn worth(digits: Seq<char>) -> int
    decreases digits.len(),
{
    if digits.len() == 0 {
        0
    } else {
        10 * worth(digits.drop_last()) + (digits.last() as int - 48)
    }
}

/// The digits are the ten characters from zero to nine, in that order.
pub proof fn law_digits_count(n: nat)
    requires
        n < 10,
    ensures
        digit(n) as int == 48 + n,
        '0' <= digit(n) <= '9',
{
}

/// A number in decimal is made of digits that are worth it, and begins with a zero
/// only where it is zero.
pub proof fn law_decimal_is_worth_its_number(n: nat)
    ensures
        worth(decimal(n)) == n,
        decimal(n).len() > 0,
        forall|i: int| 0 <= i < decimal(n).len() ==> '0' <= #[trigger] decimal(n)[i] <= '9',
        n > 0 ==> decimal(n)[0] != '0',
        n == 0 ==> decimal(n).len() == 1,
    decreases n,
{
    let s = decimal(n);
    reveal_with_fuel(worth, 2);
    if n >= 10 {
        law_decimal_is_worth_its_number(n / 10);
        let front = decimal(n / 10);
        assert(s == front.push(digit(n % 10)));
        assert(s.drop_last() == front);
        assert(s[0] == front[0]);
    }
}

/// An id is one or more ASCII digits and letters, and nothing else is.
pub proof fn law_ids_are_letters_and_digits(s: Seq<char>)
    ensures
        plausible_id(s) <==> s.len() > 0 && forall|i: int|
            0 <= i < s.len() ==> 48 <= #[trigger] s[i] as int <= 57 || 65 <= s[i] as int <= 90 || 97
                <= s[i] as int <= 122,
{
    if plausible_id(s) {
        assert forall|i: int| 0 <= i < s.len() implies 48 <= #[trigger] s[i] as int <= 57 || 65
            <= s[i] as int <= 90 || 97 <= s[i] as int <= 122 by {
            assert(alphanumeric(s[i]));
        }
    }
}

/// The last segment is the longest end of a text that holds no separator.
pub proof fn law_the_last_segment_is_the_end(s: Seq<char>, sep: char)
    ensures
        ({
            let segment = last_segment(s, sep);
            let at = s.len() - segment.len();
            &&& at >= 0
            &&& segment == s.skip(at)
            &&& !segment.contains(sep)
            &&& at > 0 ==> s[at - 1] == sep
        }),
    decreases s.len(),
{
    if s.len() > 0 && s.last() != sep {
        let front = s.drop_last();
        law_the_last_segment_is_the_end(front, sep);
        let shorter = last_segment(front, sep);
        let segment = last_segment(s, sep);
        let at = s.len() - segment.len();
        assert(segment == shorter.push(s.last()));
        assert(segment == s.skip(at));
        assert forall|i: int| 0 <= i < segment.len() implies segment[i] != sep by {
            if i < shorter.len() {
                assert(segment[i] == shorter[i]);
                assert(shorter.contains(shorter[i]));
            }
        }
        if at > 0 {
            assert(s[at - 1] == front[at - 1]);
        }
    } else {
        assert(s.skip(s.len() as int) == Seq::<char>::empty());
    }
}

/// What is behind a prefix is all that follows it, and only a text that begins with
/// the prefix has it.
pub proof fn law_a_prefix_is_taken_off(prefix: Seq<char>, rest: Seq<char>, s: Seq<char>)
    ensures
        behind_prefix(prefix + rest, prefix) == Some(rest),
        behind_prefix(s, prefix) matches Some(r) ==> s == prefix + r,
{
    let whole = prefix + rest;
    assert(whole.subrange(0, prefix.len() as int) == prefix);
    assert(prefix.is_prefix_of(whole));
    assert(whole.skip(prefix.len() as int) == rest);
    if prefix.is_prefix_of(s) {
        let r = s.skip(prefix.len() as int);
        assert(s == prefix + r) by {
            assert forall|i: int| 0 <= i < prefix.len() implies s[i] == prefix[i] by {
                assert(s.subrange(0, prefix.len() as int)[i] == prefix[i]);
            }
        }
    }
}

/// Nothing joined is nothing, one part is itself, and two lists joined are the two
/// with one separator between them.
pub proof fn law_joining_puts_one_separator_between(
    a: Seq<Seq<char>>,
    b: Seq<Seq<char>>,
    part: Seq<char>,
    sep: Seq<char>,
)
    ensures
        joined(Seq::empty(), sep).len() == 0,
        joined(seq![part], sep) == part,
        a.len() > 0 && b.len() > 0 ==> joined(a + b, sep) == joined(a, sep) + sep + joined(b, sep),
    decreases b.len(),
{
    if a.len() > 0 && b.len() > 0 {
        let whole = a + b;
        assert(whole.last() == b.last());
        assert(whole.drop_last() == a + b.drop_last());
        if b.len() == 1 {
            assert(b.drop_last() == Seq::<Seq<char>>::empty());
            assert(a + b.drop_last() == a);
            assert(joined(b, sep) == b.last());
        } else {
            law_joining_puts_one_separator_between(a, b.drop_last(), part, sep);
            assert(joined(whole, sep) == joined(a, sep) + sep + joined(b, sep));
        }
    }
}

/// A path below a directory is the directory, one slash and the name; below no
/// directory it is the name.
pub proof fn law_one_slash_stands_before_the_name(base: Seq<char>, name: Seq<char>)
    ensures
        base.len() == 0 ==> below(base, name) == name,
        base.len() > 0 && base.last() != '/' ==> below(base, name) == base + seq!['/'] + name,
        base.len() > 0 && base.last() == '/' ==> below(base, name) == base + name,
{
    if base.len() > 0 && base.last() != '/' {
        assert(base.push('/') == base + seq!['/']);
    }
    if base.len() == 0 {
        assert(base + name == name);
    }
}

/// White space is what Unicode calls so: these twenty-five characters.
pub proof fn law_white_space(c: char)
    ensures
        space(c) <==> seq![
            0x9int,
            0xa,
            0xb,
            0xc,
            0xd,
            0x20,
            0x85,
            0xa0,
            0x1680,
            0x2000,
            0x2001,
            0x2002,
            0x2003,
            0x2004,
            0x2005,
            0x2006,
            0x2007,
            0x2008,
            0x2009,
            0x200a,
            0x2028,
            0x2029,
            0x202f,
            0x205f,
            0x3000,
        ].contains(c as int),
{
    let list = seq![
        0x9int,
        0xa,
        0xb,
        0xc,
        0xd,
        0x20,
        0x85,
        0xa0,
        0x1680,
        0x2000,
        0x2001,
        0x2002,
        0x2003,
        0x2004,
        0x2005,
        0x2006,
        0x2007,
        0x2008,
        0x2009,
        0x200a,
        0x2028,
        0x2029,
        0x202f,
        0x205f,
        0x3000,
    ];
    let n = c as int;
    assert(list[0] == 0x9 && list[1] == 0xa && list[2] == 0xb && list[3] == 0xc && list[4] == 0xd);
    assert(list[5] == 0x20 && list[6] == 0x85 && list[7] == 0xa0 && list[8] == 0x1680);
    assert(list[9] == 0x2000 && list[10] == 0x2001 && list[11] == 0x2002 && list[12] == 0x2003);
    assert(list[13] == 0x2004 && list[14] == 0x2005 && list[15] == 0x2006 && list[16] == 0x2007);
    assert(list[17] == 0x2008 && list[18] == 0x2009 && list[19] == 0x200a && list[20] == 0x2028);
    assert(list[21] == 0x2029 && list[22] == 0x202f && list[23] == 0x205f && list[24] == 0x3000);
}

proof fn lemma_trimmed_front(s: Seq<char>)
    ensures
        ({
            let t = trimmed_front(s);
            let at = s.len() - t.len();
            &&& at >= 0
            &&& t == s.skip(at)
            &&& t.len() > 0 ==> !space(t[0])
            &&& forall|i: int| 0 <= i < at ==> space(#[trigger] s[i])
        }),
    decreases s.len(),
{
    if s.len() > 0 && space(s[0]) {
        let rest = s.skip(1);
        lemma_trimmed_front(rest);
        let at = s.len() - trimmed_front(s).len();
        assert(s.skip(at) == rest.skip(at - 1));
        assert forall|i: int| 0 <= i < at implies space(#[trigger] s[i]) by {
            if i > 0 {
                assert(s[i] == rest[i - 1]);
            }
        }
    } else {
        assert(s.skip(0) == s);
    }
}

proof fn lemma_trimmed_back(s: Seq<char>)
    ensures
        ({
            let t = trimmed_back(s);
            &&& t.len() <= s.len()
            &&& t == s.take(t.len() as int)
            &&& t.len() > 0 ==> !space(t.last())
            &&& forall|i: int| t.len() <= i < s.len() ==> space(#[trigger] s[i])
        }),
    decreases s.len(),
{
    if s.len() > 0 && space(s.last()) {
        let front = s.drop_last();
        lemma_trimmed_back(front);
        let t = trimmed_back(s);
        assert(s.take(t.len() as int) == front.take(t.len() as int));
        assert forall|i: int| t.len() <= i < s.len() implies space(#[trigger] s[i]) by {
            if i < front.len() {
                assert(s[i] == front[i]);
            }
        }
    } else {
        assert(s.take(s.len() as int) == s);
    }
}

/// Trimming takes the white space off both ends, all of it and nothing else.
pub proof fn law_trimming_takes_white_space_off(s: Seq<char>)
    ensures
        exists|from: int, to: int|
            0 <= from <= to <= s.len() && trimmed(s) == #[trigger] s.subrange(from, to) && (forall|
                i: int,
            |
                0 <= i < s.len() && !(from <= i < to) ==> space(#[trigger] s[i])) && (from < to
                ==> !space(s[from]) && !space(s[to - 1])),
{
    lemma_trimmed_front(s);
    let front = trimmed_front(s);
    lemma_trimmed_back(front);
    let t = trimmed(s);
    let from = s.len() - front.len();
    let to = from + t.len();
    assert(t == s.subrange(from, to));
    assert forall|i: int| 0 <= i < s.len() && !(from <= i < to) implies space(#[trigger] s[i]) by {
        if i >= to {
            assert(s[i] == front[i - from]);
        }
    }
    if from < to {
        assert(s[from] == front[0]);
        assert(s[to - 1] == t.last());
    }
}

/// A text is cut at its first separator: what stands before it holds none, and the
/// two parts make the whole. Only a text without any is not cut.
pub proof fn law_a_cut_is_at_the_first_separator(s: Seq<char>, sep: char)
    ensures
        cut(s, sep) matches Some((before, behind)) ==> s == before + seq![sep] + behind
            && !before.contains(sep),
        cut(s, sep) is None <==> !s.contains(sep),
    decreases s.len(),
{
    if s.contains(sep) {
        let i = choose|i: int| 0 <= i < s.len() && s[i] == sep;
        let at = first_of(s, sep, i);
        lemma_cut(s, sep, at);
        let before = s.take(at);
        assert(s == before + seq![sep] + s.skip(at + 1));
    } else {
        assert forall|i: int| 0 <= i < s.len() implies s[i] != sep by {
            assert(s.contains(s[i]));
        }
        lemma_cut(s, sep, s.len() as int);
    }
}

proof fn first_of(s: Seq<char>, sep: char, i: int) -> (at: int)
    requires
        0 <= i < s.len(),
        s[i] == sep,
    ensures
        0 <= at <= i,
        s[at] == sep,
        forall|j: int| 0 <= j < at ==> s[j] != sep,
    decreases i,
{
    if exists|j: int| 0 <= j < i && s[j] == sep {
        let j = choose|j: int| 0 <= j < i && s[j] == sep;
        first_of(s, sep, j)
    } else {
        i
    }
}

/// The pieces of a text hold no separator and, joined by it, are the text again.
pub proof fn law_pieces_make_the_whole(s: Seq<char>, sep: char)
    ensures
        pieces(s, sep).len() > 0,
        joined(pieces(s, sep), seq![sep]) == s,
        forall|i: int| 0 <= i < pieces(s, sep).len() ==> !(#[trigger] pieces(s, sep)[i]).contains(sep),
    decreases s.len(),
{
    let all = pieces(s, sep);
    if s.len() > 0 {
        let c = s.last();
        let front = pieces(s.drop_last(), sep);
        law_pieces_make_the_whole(s.drop_last(), sep);
        assert(s == s.drop_last().push(c));
        if c == sep {
            assert(all.drop_last() == front);
            assert(joined(all, seq![sep]) == s);
        } else {
            let last = front.last();
            assert(front == front.drop_last().push(last));
            assert(all.drop_last() == front.drop_last());
            assert(joined(all, seq![sep]) == joined(front, seq![sep]).push(c));
            assert forall|i: int| 0 <= i < all.len() implies !(#[trigger] all[i]).contains(sep) by {
                if i < all.len() - 1 {
                    assert(all[i] == front[i]);
                } else {
                    assert(!last.contains(sep));
                    assert forall|j: int| 0 <= j < all[i].len() implies all[i][j] != sep by {
                        if j < last.len() {
                            assert(all[i][j] == last[j]);
                            assert(last.contains(last[j]));
                        }
                    }
                }
            }
        }
    }
}

} // verus!
