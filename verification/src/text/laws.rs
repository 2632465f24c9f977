//! What trimming, splitting, joining and writing numbers do to any text.

use vstd::prelude::*;

use crate::text;

verus! {

/// Every character is white space.
pub open spec fn is_blank(s: Seq<char>) -> bool {
    forall|i: int| 0 <= i < s.len() ==> text::is_space(#[trigger] s[i])
}

/// White space is what Unicode gives that property: the control characters
/// from tab to carriage return, next line, and the spaces of every width.
pub proof fn law_white_space_is_unicodes(c: char)
    ensures
        text::is_space(c) <==> seq![
            '\u{9}',
            '\u{a}',
            '\u{b}',
            '\u{c}',
            '\u{d}',
            '\u{20}',
            '\u{85}',
            '\u{a0}',
            '\u{1680}',
            '\u{2000}',
            '\u{2001}',
            '\u{2002}',
            '\u{2003}',
            '\u{2004}',
            '\u{2005}',
            '\u{2006}',
            '\u{2007}',
            '\u{2008}',
            '\u{2009}',
            '\u{200a}',
            '\u{2028}',
            '\u{2029}',
            '\u{202f}',
            '\u{205f}',
            '\u{3000}',
        ].contains(c),
{
    let spaces = seq![
        '\u{9}',
        '\u{a}',
        '\u{b}',
        '\u{c}',
        '\u{d}',
        '\u{20}',
        '\u{85}',
        '\u{a0}',
        '\u{1680}',
        '\u{2000}',
        '\u{2001}',
        '\u{2002}',
        '\u{2003}',
        '\u{2004}',
        '\u{2005}',
        '\u{2006}',
        '\u{2007}',
        '\u{2008}',
        '\u{2009}',
        '\u{200a}',
        '\u{2028}',
        '\u{2029}',
        '\u{202f}',
        '\u{205f}',
        '\u{3000}',
    ];
    if spaces.contains(c) {
        let i = choose|i: int| 0 <= i < spaces.len() && spaces[i] == c;
        assert(text::is_space(spaces[i]));
    }
    if text::is_space(c) {
        assert(exists|i: int| 0 <= i < spaces.len() && spaces[i] == c) by {
            assert(spaces[0] == '\u{9}' && spaces[1] == '\u{a}' && spaces[2] == '\u{b}' && spaces[3]
                == '\u{c}' && spaces[4] == '\u{d}' && spaces[5] == '\u{20}' && spaces[6]
                == '\u{85}' && spaces[7] == '\u{a0}' && spaces[8] == '\u{1680}');
            assert(spaces[9] == '\u{2000}' && spaces[10] == '\u{2001}' && spaces[11] == '\u{2002}'
                && spaces[12] == '\u{2003}' && spaces[13] == '\u{2004}' && spaces[14]
                == '\u{2005}' && spaces[15] == '\u{2006}' && spaces[16] == '\u{2007}'
                && spaces[17] == '\u{2008}' && spaces[18] == '\u{2009}' && spaces[19]
                == '\u{200a}');
            assert(spaces[20] == '\u{2028}' && spaces[21] == '\u{2029}' && spaces[22]
                == '\u{202f}' && spaces[23] == '\u{205f}' && spaces[24] == '\u{3000}');
        }
    }
}

/// White space behind a text that does not end in it is all that trimming its
/// end takes away.
pub proof fn law_end_is_trimmed(s: Seq<char>, tail: Seq<char>)
    requires
        s.len() == 0 || !text::is_space(s.last()),
        is_blank(tail),
    ensures
        text::trim_end(s + tail) == s,
    decreases tail.len(),
{
    if tail.len() == 0 {
        assert(s + tail =~= s);
    } else {
        assert((s + tail).last() == tail[tail.len() - 1]);
        assert((s + tail).drop_last() =~= s + tail.drop_last());
        law_end_is_trimmed(s, tail.drop_last());
    }
}

/// White space before a text that does not begin with it is all that trimming
/// its beginning takes away.
pub proof fn law_beginning_is_trimmed(head: Seq<char>, s: Seq<char>)
    requires
        s.len() == 0 || !text::is_space(s[0]),
        is_blank(head),
    ensures
        text::trim_start(head + s) == s,
    decreases head.len(),
{
    if head.len() == 0 {
        assert(head + s =~= s);
    } else {
        assert((head + s)[0] == head[0]);
        assert((head + s).drop_first() =~= head.drop_first() + s);
        law_beginning_is_trimmed(head.drop_first(), s);
    }
}

/// Trimming takes the white space around a text away and nothing else.
pub proof fn law_white_space_around_is_trimmed(head: Seq<char>, s: Seq<char>, tail: Seq<char>)
    requires
        s.len() > 0 ==> !text::is_space(s[0]) && !text::is_space(s.last()),
        is_blank(head),
        is_blank(tail),
    ensures
        text::trimmed(head + s + tail) == s,
{
    if s.len() == 0 {
        let blank = head + s + tail;
        assert(is_blank(blank));
        assert(blank + s =~= blank);
        law_beginning_is_trimmed(blank, s);
    } else {
        assert((s + tail)[0] == s[0]);
        assert(head + s + tail =~= head + (s + tail));
        law_beginning_is_trimmed(head, s + tail);
        law_end_is_trimmed(s, tail);
    }
}

/// What is trimmed neither begins nor ends with white space.
pub proof fn law_trimmed_has_no_white_space_around(s: Seq<char>)
    ensures
        text::trimmed(s).len() > 0 ==> !text::is_space(text::trimmed(s)[0]) && !text::is_space(
            text::trimmed(s).last(),
        ),
        text::trimmed(s).len() == 0 <==> is_blank(s),
{
    lemma_start(s);
    lemma_end(text::trim_start(s));
}

proof fn lemma_start(s: Seq<char>)
    ensures
        text::trim_start(s).len() > 0 ==> !text::is_space(text::trim_start(s)[0]),
        text::trim_start(s).len() == 0 <==> is_blank(s),
    decreases s.len(),
{
    if s.len() > 0 && text::is_space(s[0]) {
        lemma_start(s.drop_first());
        assert(forall|i: int| 1 <= i < s.len() ==> #[trigger] s[i] == s.drop_first()[i - 1]);
        if is_blank(s) {
            assert forall|i: int| 0 <= i < s.drop_first().len() implies text::is_space(
                #[trigger] s.drop_first()[i],
            ) by {
                assert(s.drop_first()[i] == s[i + 1]);
            }
        }
    } else if s.len() > 0 {
        assert(!text::is_space(s[0]));
    }
}

proof fn lemma_end(s: Seq<char>)
    ensures
        text::trim_end(s).len() > 0 ==> !text::is_space(text::trim_end(s).last())
            && text::trim_end(s)[0] == s[0],
        s.len() > 0 && !text::is_space(s[0]) ==> text::trim_end(s).len() > 0,
        s.len() == 0 ==> text::trim_end(s).len() == 0,
    decreases s.len(),
{
    if s.len() > 0 && text::is_space(s.last()) {
        lemma_end(s.drop_last());
        if s.len() > 1 {
            assert(s.drop_last()[0] == s[0]);
        }
    }
}

/// What stands before the last character that is no white space is kept when
/// the end is trimmed.
pub proof fn lemma_trim_end_behind(s: Seq<char>, tail: Seq<char>)
    requires
        s.len() > 0,
        !text::is_space(s.last()),
    ensures
        text::trim_end(s + tail) == s + text::trim_end(tail),
    decreases tail.len(),
{
    if tail.len() == 0 {
        assert(s + tail =~= s);
        assert(s + text::trim_end(tail) =~= s);
    } else {
        assert((s + tail).last() == tail.last());
        assert((s + tail).drop_last() =~= s + tail.drop_last());
        if text::is_space(tail.last()) {
            lemma_trim_end_behind(s, tail.drop_last());
        }
    }
}

/// Capital letters of the English alphabet become the small ones, letter by
/// letter; every other character stays.
pub proof fn law_lowering_is_by_letter(s: Seq<char>, i: int)
    requires
        0 <= i < s.len(),
    ensures
        text::lower(s).len() == s.len(),
        'A' <= s[i] <= 'Z' ==> text::lower(s)[i] as u32 == s[i] as u32 - 'A' as u32 + 'a' as u32,
        !('A' <= s[i] <= 'Z') ==> text::lower(s)[i] == s[i],
{
    assert(text::lower(s)[i] == text::lower_char(s[i]));
}

/// Splitting cuts a text at every separator and nowhere else: no piece holds
/// the separator, and the pieces joined by it are the text.
pub proof fn law_join_undoes_split(s: Seq<char>, separator: char)
    ensures
        text::join(text::split(s, separator), seq![separator]) == s,
        text::split(s, separator).len() > 0,
        forall|i: int|
            0 <= i < text::split(s, separator).len() ==> !(#[trigger] text::split(
                s,
                separator,
            )[i]).contains(separator),
    decreases s.len(),
{
    let pieces = text::split(s, separator);
    if s.contains(separator) {
        s.index_of_first_ensures(separator);
        let end = s.index_of_first(separator)->0;
        let rest = s.skip(end + 1);
        law_join_undoes_split(rest, separator);
        assert(pieces.drop_first() =~= text::split(rest, separator));
        assert(pieces[0] =~= s.take(end));
        assert(text::join(pieces, seq![separator]) =~= s);
        assert forall|i: int| 0 <= i < pieces.len() implies !(#[trigger] pieces[i]).contains(
            separator,
        ) by {
            if i > 0 {
                assert(pieces[i] == text::split(rest, separator)[i - 1]);
            }
        }
    }
}

/// A line ends at the first line feed, which does not belong to it, nor does
/// a carriage return before it. What follows is lines of its own.
pub proof fn law_lines_end_at_line_feeds(line: Seq<char>, rest: Seq<char>)
    requires
        !line.contains('\n'),
    ensures
        line.len() == 0 || line.last() != '\r' ==> text::lines(line + seq!['\n'] + rest) == seq![
            line,
        ] + text::lines(rest),
        text::lines(line + seq!['\r', '\n'] + rest) == seq![line] + text::lines(rest),
        line.len() > 0 ==> text::lines(line) == seq![line],
        text::lines(Seq::<char>::empty()).len() == 0,
{
    lemma_first_line(line, rest);
    let returned = line.push('\r');
    assert(!returned.contains('\n')) by {
        if returned.contains('\n') {
            let j = returned.index_of('\n');
            assert(returned[j] == '\n');
            assert(line[j] == '\n');
        }
    }
    lemma_first_line(returned, rest);
    assert(returned + seq!['\n'] + rest =~= line + seq!['\r', '\n'] + rest);
    assert(returned.drop_last() =~= line);
}

proof fn lemma_first_line(line: Seq<char>, rest: Seq<char>)
    requires
        !line.contains('\n'),
    ensures
        text::lines(line + seq!['\n'] + rest) == seq![text::without_return(line)] + text::lines(
            rest,
        ),
{
    let whole = line + seq!['\n'] + rest;
    let end = line.len() as int;
    assert(whole[end] == '\n');
    assert(whole.contains('\n'));
    whole.index_of_first_ensures('\n');
    let first = whole.index_of_first('\n')->0;
    assert(first == end) by {
        if first < end {
            assert(line[first] == '\n');
        }
        if first > end {
            assert(whole[end] != '\n');
        }
    }
    assert(whole.take(end) =~= line);
    assert(whole.skip(end + 1) =~= rest);
}

/// Joining puts the separator between neighbouring pieces and nowhere else.
pub proof fn law_join_separates_neighbours(
    left: Seq<Seq<char>>,
    right: Seq<Seq<char>>,
    separator: Seq<char>,
)
    ensures
        left.len() > 0 && right.len() > 0 ==> text::join(left + right, separator) == text::join(
            left,
            separator,
        ) + separator + text::join(right, separator),
        left.len() == 1 ==> text::join(left, separator) == left[0],
        left.len() == 0 ==> text::join(left, separator).len() == 0,
    decreases left.len(),
{
    if left.len() > 0 && right.len() > 0 {
        let all = left + right;
        if left.len() == 1 {
            assert(all.drop_first() =~= right);
        } else {
            assert(all.drop_first() =~= left.drop_first() + right);
            law_join_separates_neighbours(left.drop_first(), right, separator);
        }
        assert(text::join(all, separator) =~= text::join(left, separator) + separator + text::join(
            right,
            separator,
        ));
    }
}

/// A number is written with its last digit last, behind the number without
/// that digit; only zero begins with a zero.
pub proof fn law_numbers_are_written_in_decimal(n: nat, last: nat)
    requires
        last < 10,
    ensures
        text::decimal(last).len() == 1,
        text::decimal(last)[0] as u32 == '0' as u32 + last,
        n > 0 ==> text::decimal(n * 10 + last) == text::decimal(n) + text::decimal(last),
        n > 0 ==> text::decimal(n)[0] != '0' && text::decimal(n).len() > 0,
    decreases n,
{
    if n > 0 {
        let whole = n * 10 + last;
        assert(whole / 10 == n && whole % 10 == last);
        assert(text::decimal(whole) =~= text::decimal(n) + text::decimal(last));
        if n >= 10 {
            law_numbers_are_written_in_decimal(n / 10, 0);
            assert(text::decimal(n)[0] == text::decimal(n / 10)[0]);
        }
    }
}

/// Below a hundred, two digits are written: the tens and the units.
pub proof fn law_two_digits_are_tens_and_units(tens: nat, units: nat)
    requires
        tens < 10,
        units < 10,
    ensures
        text::two_digits(tens * 10 + units).len() == 2,
        text::two_digits(tens * 10 + units)[0] as u32 == '0' as u32 + tens,
        text::two_digits(tens * 10 + units)[1] as u32 == '0' as u32 + units,
{
    law_numbers_are_written_in_decimal(tens, units);
    if tens > 0 {
        law_numbers_are_written_in_decimal(0, tens);
    }
}

/// A text occurs where it was put, and where it occurs its characters stand.
pub proof fn law_text_occurs_where_its_characters_stand(
    before: Seq<char>,
    p: Seq<char>,
    after: Seq<char>,
    s: Seq<char>,
    i: int,
)
    ensures
        text::occurs_at(before + p + after, p, before.len() as int),
        text::contains(before + p + after, p),
        text::occurs_at(s, p, i) <==> 0 <= i && i + p.len() <= s.len() && forall|j: int|
            0 <= j < p.len() ==> s[i + j] == #[trigger] p[j],
        text::contains(s, p) <==> exists|k: int| #[trigger] text::occurs_at(s, p, k),
{
    let whole = before + p + after;
    let at = before.len() as int;
    assert(whole.subrange(at, at + p.len()) =~= p);
    assert(text::occurs_at(whole, p, at));
    if 0 <= i && i + p.len() <= s.len() {
        let window = s.subrange(i, i + p.len());
        assert(forall|j: int| 0 <= j < p.len() ==> window[j] == #[trigger] s[i + j]);
        if forall|j: int| 0 <= j < p.len() ==> s[i + j] == #[trigger] p[j] {
            assert(window =~= p);
        }
        if window == p {
            assert forall|j: int| 0 <= j < p.len() implies s[i + j] == #[trigger] p[j] by {
                assert(window[j] == s[i + j]);
            }
        }
    }
}

} // verus!
