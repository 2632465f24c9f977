//! Keeps credentials out of logs and error messages.
//!
//! Output of source backends is untrusted and can echo signed media URLs,
//! cookies and authorization headers. It is redacted before it is stored.

use vstd::prelude::*;
use vstd::string::*;

use crate::text;
use crate::text::{char_is_space, chars_of, find, join_texts, lowered, matches_at, split_lines};

pub mod laws;
pub mod size;

verus! {

/// A URL begins at index `i`.
pub open spec fn url_at(s: Seq<char>, i: int) -> bool {
    text::occurs_at(s, "http://"@, i) || text::occurs_at(s, "https://"@, i)
}

/// What is left of `s` from its first white space on.
pub open spec fn after_word(s: Seq<char>) -> Seq<char>
    decreases s.len(),
{
    if s.len() == 0 || text::is_space(s[0]) {
        s
    } else {
        after_word(s.drop_first())
    }
}

/// No word is longer than the text that it stands in.
pub proof fn lemma_after_word_shrinks(s: Seq<char>)
    ensures
        after_word(s).len() <= s.len(),
    decreases s.len(),
{
    if s.len() > 0 && !text::is_space(s[0]) {
        lemma_after_word_shrinks(s.drop_first());
    }
}

/// `s` with every URL, up to the next white space, replaced by a mark.
pub open spec fn redacted_urls(s: Seq<char>) -> Seq<char>
    decreases s.len(),
{
    if s.len() == 0 {
        s
    } else if url_at(s, 0) {
        proof {
            lemma_after_word_shrinks(s.drop_first());
        }
        "[REDACTED_URL]"@ + redacted_urls(after_word(s.drop_first()))
    } else {
        seq![s[0]] + redacted_urls(s.drop_first())
    }
}

/// The lowest index at which `p` stands in `s`.
pub open spec fn first_index(s: Seq<char>, p: Seq<char>) -> int {
    choose|i: int| text::first_occurrence(s, p, 0, i)
}

/// `line` names the header `name`, in whatever case.
pub open spec fn has_header(line: Seq<char>, name: Seq<char>) -> bool {
    text::contains(text::lower(line), name)
}

/// `line` names a credential header.
pub open spec fn names_header(line: Seq<char>) -> bool {
    has_header(line, "authorization:"@) || has_header(line, "cookie:"@)
}

/// Where the name of the first credential header in `line` ends.
pub open spec fn header_end(line: Seq<char>) -> int {
    let authorization = first_index(text::lower(line), "authorization:"@);
    let cookie = first_index(text::lower(line), "cookie:"@);
    if has_header(line, "authorization:"@) && (!has_header(line, "cookie:"@) || authorization
        < cookie) {
        authorization + "authorization:"@.len()
    } else {
        cookie + "cookie:"@.len()
    }
}

/// A line without URLs and without anything behind the name of its first
/// credential header.
pub open spec fn redacted_line(line: Seq<char>) -> Seq<char> {
    if names_header(line) {
        redacted_urls(line.take(header_end(line))) + " [REDACTED]"@
    } else {
        redacted_urls(line)
    }
}

/// `input` with every line redacted and lines joined by a line feed.
pub open spec fn redacted(input: Seq<char>) -> Seq<char> {
    text::join(text::lines(input).map_values(|line: Seq<char>| redacted_line(line)), "\n"@)
}

/// Redacts credential-bearing headers and URLs before text is surfaced in logs
/// or operator-facing error messages.
#[must_use]
pub fn redact_sensitive(input: &str) -> (output: String)
    ensures
        output@ == redacted(input@),
{
    let lines: Vec<String> = split_lines(input);
    let mut output: Vec<String> = Vec::new();
    let ghost expected = text::lines(input@).map_values(|line: Seq<char>| redacted_line(line));
    let mut i: usize = 0;
    while i < lines.len()
        invariant
            i <= lines@.len(),
            text::texts(lines@) == text::lines(input@),
            expected == text::lines(input@).map_values(|line: Seq<char>| redacted_line(line)),
            text::texts(output@) == expected.take(i as int),
        decreases lines@.len() - i,
    {
        let line: String = redact_line(lines[i].as_str());
        assert(text::lines(input@)[i as int] == text::texts(lines@)[i as int]);
        let ghost done = text::texts(output@);
        let ghost next = line@;
        output.push(line);
        assert(text::texts(output@) =~= done.push(next));
        assert(expected.take(i + 1) =~= expected.take(i as int).push(expected[i as int]));
        i += 1;
    }
    assert(expected.take(i as int) =~= expected) by {
        assert(lines@.len() == text::texts(lines@).len());
    }
    join_texts(&output, "\n")
}

/// Redacts one line.
pub fn redact_line(line: &str) -> (output: String)
    ensures
        output@ == redacted_line(line@),
{
    let lower: Vec<char> = lowered(line);
    let end: Option<usize> = match (
        find_header(&lower, "authorization:"),
        find_header(&lower, "cookie:"),
    ) {
        (Some(authorization), Some(cookie)) => if authorization.0 < cookie.0 {
            Some(authorization.1)
        } else {
            Some(cookie.1)
        },
        (Some(authorization), None) => Some(authorization.1),
        (None, Some(cookie)) => Some(cookie.1),
        (None, None) => None,
    };
    match end {
        None => redact_urls(line),
        Some(end) => {
            let chars: Vec<char> = chars_of(line);
            let kept: String = text::string_range(&chars, 0, end);
            assert(chars@.subrange(0, end as int) =~= line@.take(end as int));
            let mut output: String = redact_urls(kept.as_str());
            output.append(" [REDACTED]");
            output
        },
    }
}

/// Where a header's name first begins, and where it ends.
fn find_header(lower: &Vec<char>, name: &str) -> (found: Option<(usize, usize)>)
    ensures
        match found {
            Some((begin, end)) => text::contains(lower@, name@) && begin == first_index(
                lower@,
                name@,
            ) && end == begin + name@.len() && end <= lower@.len(),
            None => !text::contains(lower@, name@),
        },
{
    let wanted: Vec<char> = chars_of(name);
    match find(lower, &wanted, 0) {
        None => None,
        Some(begin) => {
            proof {
                lemma_first_index(lower@, name@, begin as int);
            }
            assert(begin + wanted@.len() <= lower.len());
            Some((begin, begin + wanted.len()))
        },
    }
}

/// Replaces every URL in a line.
pub fn redact_urls(line: &str) -> (output: String)
    ensures
        output@ == redacted_urls(line@),
{
    let chars: Vec<char> = chars_of(line);
    let http: Vec<char> = chars_of("http://");
    let https: Vec<char> = chars_of("https://");
    let mut output: String = String::new();
    let mut at: usize = 0;
    assert(chars@.skip(0) =~= chars@);
    while at < chars.len()
        invariant
            at <= chars@.len(),
            http@ == "http://"@,
            https@ == "https://"@,
            output@ + redacted_urls(chars@.skip(at as int)) == redacted_urls(chars@),
        decreases chars@.len() - at,
    {
        let ghost rest = chars@.skip(at as int);
        let ghost before = output@;
        proof {
            lemma_occurs_shift(chars@, "http://"@, at as int);
            lemma_occurs_shift(chars@, "https://"@, at as int);
            assert(rest.drop_first() =~= chars@.skip(at + 1));
        }
        if matches_at(&chars, &http, at) || matches_at(&chars, &https, at) {
            output.append("[REDACTED_URL]");
            let ghost begun = at;
            at += 1;
            while at < chars.len() && !char_is_space(chars[at])
                invariant
                    begun < at <= chars@.len(),
                    after_word(chars@.skip(at as int)) == after_word(rest.drop_first()),
                decreases chars@.len() - at,
            {
                assert(chars@.skip(at as int).drop_first() =~= chars@.skip(at + 1));
                at += 1;
            }
            proof {
                assert(after_word(rest.drop_first()) == chars@.skip(at as int));
                assert(output@ + redacted_urls(chars@.skip(at as int)) =~= before + (
                "[REDACTED_URL]"@ + redacted_urls(chars@.skip(at as int))));
            }
        } else {
            output.push(chars[at]);
            assert(output@ + redacted_urls(chars@.skip(at + 1)) =~= before + (seq![rest[0]]
                + redacted_urls(rest.drop_first())));
            at += 1;
        }
    }
    assert(chars@.skip(at as int) =~= Seq::empty());
    assert(output@ =~= output@ + redacted_urls(chars@.skip(at as int)));
    output
}

proof fn lemma_first_index(s: Seq<char>, p: Seq<char>, i: int)
    requires
        text::first_occurrence(s, p, 0, i),
    ensures
        first_index(s, p) == i,
        text::contains(s, p),
{
    let j = first_index(s, p);
    assert(text::first_occurrence(s, p, 0, j));
    assert(!(i < j));
    assert(!(j < i));
}

proof fn lemma_occurs_shift(s: Seq<char>, p: Seq<char>, at: int)
    requires
        0 <= at <= s.len(),
    ensures
        text::occurs_at(s, p, at) == text::occurs_at(s.skip(at), p, 0),
{
    if at + p.len() <= s.len() {
        assert(s.subrange(at, at + p.len()) =~= s.skip(at).subrange(0, p.len() as int));
    }
}

/// A text that ends before its first URL or `[` comes out of the redaction
/// unchanged that far.
proof fn lemma_redacted_prefix(s: Seq<char>, k: int)
    requires
        0 <= k <= redacted_urls(s).len(),
        !redacted_urls(s).take(k).contains('['),
    ensures
        k <= s.len(),
        redacted_urls(s).take(k) == s.take(k),
    decreases s.len(),
{
    let output = redacted_urls(s);
    if k == 0 {
        assert(output.take(0) =~= s.take(0));
    } else if s.len() == 0 {
    } else if url_at(s, 0) {
        reveal_strlit("[REDACTED_URL]");
        assert(output[0] == '[');
        assert(output.take(k)[0] == '[');
    } else {
        let rest = redacted_urls(s.drop_first());
        assert(output == seq![s[0]] + rest);
        assert(!rest.take(k - 1).contains('[')) by {
            if rest.take(k - 1).contains('[') {
                let j = rest.take(k - 1).index_of('[');
                assert(output.take(k)[j + 1] == '[');
            }
        }
        lemma_redacted_prefix(s.drop_first(), k - 1);
        assert(output.take(k) =~= seq![s[0]] + rest.take(k - 1));
        assert(s.take(k) =~= seq![s[0]] + s.drop_first().take(k - 1));
    }
}

proof fn lemma_no_pattern_survives(s: Seq<char>, p: Seq<char>, i: int)
    requires
        p == "http://"@ || p == "https://"@,
    ensures
        !text::occurs_at(redacted_urls(s), p, i),
    decreases s.len(),
{
    reveal_strlit("http://");
    reveal_strlit("https://");
    reveal_strlit("[REDACTED_URL]");
    let output = redacted_urls(s);
    if text::occurs_at(output, p, i) {
        assert(output.subrange(i, i + p.len())[0] == 'h');
        assert(output[i] == 'h');
        if s.len() == 0 {
        } else if url_at(s, 0) {
            lemma_after_word_shrinks(s.drop_first());
            let rest = redacted_urls(after_word(s.drop_first()));
            let mark = "[REDACTED_URL]"@.len();
            assert(i >= mark);
            assert(rest.subrange(i - mark, i - mark + p.len()) =~= output.subrange(
                i,
                i + p.len(),
            ));
            lemma_no_pattern_survives(after_word(s.drop_first()), p, i - mark);
        } else if i > 0 {
            let rest = redacted_urls(s.drop_first());
            assert(rest.subrange(i - 1, i - 1 + p.len()) =~= output.subrange(i, i + p.len()));
            lemma_no_pattern_survives(s.drop_first(), p, i - 1);
        } else {
            let k = p.len() as int;
            assert(output.take(k) =~= output.subrange(0, k));
            assert(!p.contains('['));
            lemma_redacted_prefix(s, k);
            assert(s.subrange(0, k) =~= s.take(k));
            assert(url_at(s, 0));
        }
    }
}

/// No URL comes out of the redaction of URLs.
pub proof fn law_no_url_survives(s: Seq<char>, i: int)
    ensures
        !url_at(redacted_urls(s), i),
{
    lemma_no_pattern_survives(s, "http://"@, i);
    lemma_no_pattern_survives(s, "https://"@, i);
}

/// Text that holds no URL comes out of the redaction of URLs as it went in.
pub proof fn law_text_without_urls_is_kept(s: Seq<char>)
    requires
        forall|i: int| !#[trigger] url_at(s, i),
    ensures
        redacted_urls(s) == s,
    decreases s.len(),
{
    if s.len() > 0 {
        let rest = s.drop_first();
        assert forall|i: int| !#[trigger] url_at(rest, i) by {
            if url_at(rest, i) {
                let p = if text::occurs_at(rest, "http://"@, i) {
                    "http://"@
                } else {
                    "https://"@
                };
                assert(s.subrange(i + 1, i + 1 + p.len()) =~= rest.subrange(i, i + p.len()));
                assert(url_at(s, i + 1));
            }
        }
        law_text_without_urls_is_kept(rest);
        assert(!url_at(s, 0));
        assert(seq![s[0]] + rest =~= s);
    }
}

/// Redacting URLs twice is redacting them once.
pub proof fn law_url_redaction_is_idempotent(s: Seq<char>)
    ensures
        redacted_urls(redacted_urls(s)) == redacted_urls(s),
{
    assert forall|i: int| !#[trigger] url_at(redacted_urls(s), i) by {
        law_no_url_survives(s, i);
    }
    law_text_without_urls_is_kept(redacted_urls(s));
}

proof fn lemma_contains_first(s: Seq<char>, p: Seq<char>)
    requires
        text::contains(s, p),
    ensures
        text::first_occurrence(s, p, 0, first_index(s, p)),
{
    let i = choose|i: int| text::occurs_at(s, p, i);
    lemma_least_occurrence(s, p, 0, i);
}

proof fn lemma_least_occurrence(s: Seq<char>, p: Seq<char>, from: int, i: int)
    requires
        0 <= from <= i,
        text::occurs_at(s, p, i),
        forall|j: int| 0 <= j < from ==> !text::occurs_at(s, p, j),
    ensures
        exists|k: int| text::first_occurrence(s, p, 0, k),
    decreases i - from,
{
    if text::occurs_at(s, p, from) {
        assert(text::first_occurrence(s, p, 0, from));
    } else {
        lemma_least_occurrence(s, p, from + 1, i);
    }
}

/// The name of the first credential header, and that of the other one, which is
/// not named before it.
proof fn lemma_header_end(line: Seq<char>) -> (names: (Seq<char>, Seq<char>))
    requires
        names_header(line),
    ensures
        names == ("authorization:"@, "cookie:"@) || names == ("cookie:"@, "authorization:"@),
        text::first_occurrence(
            text::lower(line),
            names.0,
            0,
            header_end(line) - names.0.len(),
        ),
        forall|j: int|
            0 <= j < header_end(line) - names.0.len() ==> !text::occurs_at(
                text::lower(line),
                names.1,
                j,
            ),
{
    let lower = text::lower(line);
    if has_header(line, "authorization:"@) {
        lemma_contains_first(lower, "authorization:"@);
    }
    if has_header(line, "cookie:"@) {
        lemma_contains_first(lower, "cookie:"@);
    }
    if has_header(line, "authorization:"@) && (!has_header(line, "cookie:"@) || first_index(
        lower,
        "authorization:"@,
    ) < first_index(lower, "cookie:"@)) {
        ("authorization:"@, "cookie:"@)
    } else {
        ("cookie:"@, "authorization:"@)
    }
}

/// `p` begins at the same index in two texts that agree as far as it reaches.
proof fn lemma_occurs_in_both(s: Seq<char>, t: Seq<char>, p: Seq<char>, n: int, i: int)
    requires
        0 <= n <= s.len(),
        n <= t.len(),
        s.take(n) == t.take(n),
        i + p.len() <= n,
    ensures
        text::occurs_at(s, p, i) == text::occurs_at(t, p, i),
{
    if 0 <= i {
        assert(s.subrange(i, i + p.len()) =~= s.take(n).subrange(i, i + p.len()));
        assert(t.subrange(i, i + p.len()) =~= t.take(n).subrange(i, i + p.len()));
    }
}

/// No name of a credential header reaches over the end of another one that
/// begins behind it.
proof fn lemma_names_do_not_nest(s: Seq<char>, p: Seq<char>, q: Seq<char>, i: int, j: int)
    requires
        p == "authorization:"@ && q == "cookie:"@ || p == "cookie:"@ && q == "authorization:"@,
        text::occurs_at(s, p, i),
        text::occurs_at(s, q, j),
        j < i,
    ensures
        j + q.len() <= i + p.len(),
{
    reveal_strlit("authorization:");
    reveal_strlit("cookie:");
    if j + q.len() > i + p.len() {
        assert(s.subrange(i, i + p.len())[0] == 'c');
        assert(s.subrange(j, j + q.len())[i - j] == 'c');
        assert(!"authorization:"@.contains('c'));
        assert(q[i - j] == 'c');
    }
}

/// Nothing that follows the first credential header reaches the output: lines
/// that agree up to its name's end are redacted to the same text.
pub proof fn law_header_values_are_dropped(line: Seq<char>, other: Seq<char>)
    requires
        names_header(line),
        header_end(line) <= other.len(),
        other.take(header_end(line)) == line.take(header_end(line)),
    ensures
        header_end(other) == header_end(line),
        redacted_line(other) == redacted_line(line),
        redacted_line(line) == redacted_urls(line.take(header_end(line))) + " [REDACTED]"@,
{
    let s = text::lower(line);
    let t = text::lower(other);
    let end = header_end(line);
    let (p, q) = lemma_header_end(line);
    let i = end - p.len();
    assert(text::first_occurrence(s, p, 0, i));
    assert(s.take(end) =~= t.take(end)) by {
        assert forall|k: int| 0 <= k < end implies s[k] == t[k] by {
            assert(line.take(end)[k] == line[k]);
            assert(other.take(end)[k] == other[k]);
        }
    }
    assert forall|j: int| 0 <= j <= i implies text::occurs_at(t, p, j) == text::occurs_at(s, p, j) by {
        lemma_occurs_in_both(s, t, p, end, j);
    }
    assert(text::first_occurrence(t, p, 0, i));
    lemma_first_index(t, p, i);
    assert forall|j: int| 0 <= j < i implies !text::occurs_at(t, q, j) by {
        if text::occurs_at(t, q, j) {
            lemma_names_do_not_nest(t, p, q, i, j);
            lemma_occurs_in_both(s, t, q, end, j);
        }
    }
    if text::contains(t, q) {
        lemma_contains_first(t, q);
        let j = first_index(t, q);
        assert(j != i) by {
            reveal_strlit("authorization:");
            reveal_strlit("cookie:");
            assert(t.subrange(i, i + p.len())[0] == t[i]);
            assert(t.subrange(j, j + q.len())[0] == t[j]);
        }
    }
}

proof fn lemma_join_keeps_out(pieces: Seq<Seq<char>>, p: Seq<char>, i: int)
    requires
        p.len() > 0,
        !p.contains('\n'),
        forall|k: int, j: int|
            0 <= k < pieces.len() ==> !#[trigger] text::occurs_at(pieces[k], p, j),
    ensures
        !text::occurs_at(text::join(pieces, "\n"@), p, i),
    decreases pieces.len(),
{
    reveal_strlit("\n");
    let whole = text::join(pieces, "\n"@);
    if pieces.len() == 0 {
    } else if pieces.len() == 1 {
        assert(!text::occurs_at(pieces[0], p, i));
    } else if text::occurs_at(whole, p, i) {
        let head = pieces[0];
        let tail = text::join(pieces.drop_first(), "\n"@);
        assert(whole =~= head + "\n"@ + tail);
        let window = whole.subrange(i, i + p.len());
        if i + p.len() <= head.len() {
            assert(head.subrange(i, i + p.len()) =~= window);
            assert(!text::occurs_at(pieces[0], p, i));
        } else if i > head.len() {
            let at = i - head.len() - 1;
            assert(tail.subrange(at, at + p.len()) =~= window);
            assert forall|k: int, j: int|
                0 <= k < pieces.drop_first().len() implies !#[trigger] text::occurs_at(
                pieces.drop_first()[k],
                p,
                j,
            ) by {
                assert(!text::occurs_at(pieces[k + 1], p, j));
            }
            lemma_join_keeps_out(pieces.drop_first(), p, at);
        } else {
            assert(window[head.len() - i] == '\n');
            assert(p.contains('\n'));
        }
    }
}

/// What ends in the mark of a hidden value holds a URL only where it did before
/// the mark.
proof fn lemma_mark_adds_no_pattern(s: Seq<char>, p: Seq<char>, i: int)
    requires
        p == "http://"@ || p == "https://"@,
        !text::occurs_at(s, p, i),
    ensures
        !text::occurs_at(s + " [REDACTED]"@, p, i),
{
    reveal_strlit("http://");
    reveal_strlit("https://");
    reveal_strlit(" [REDACTED]");
    let whole = s + " [REDACTED]"@;
    if text::occurs_at(whole, p, i) {
        let window = whole.subrange(i, i + p.len());
        if i + p.len() <= s.len() {
            assert(s.subrange(i, i + p.len()) =~= window);
        } else if i > s.len() {
            assert(window[0] == 'h');
            assert(whole[i] == " [REDACTED]"@[i - s.len()]);
        } else {
            assert(window[s.len() - i] == ' ');
        }
    }
}

/// No URL comes out of the redaction of a line.
pub proof fn law_redacted_line_holds_no_url(line: Seq<char>, i: int)
    ensures
        !url_at(redacted_line(line), i),
{
    if names_header(line) {
        let kept = line.take(header_end(line));
        law_no_url_survives(kept, i);
        lemma_mark_adds_no_pattern(redacted_urls(kept), "http://"@, i);
        lemma_mark_adds_no_pattern(redacted_urls(kept), "https://"@, i);
    } else {
        law_no_url_survives(line, i);
    }
}

/// No URL comes out of the redaction of a text.
pub proof fn law_redacted_text_holds_no_url(input: Seq<char>, i: int)
    ensures
        !url_at(redacted(input), i),
{
    reveal_strlit("http://");
    reveal_strlit("https://");
    let pieces = text::lines(input).map_values(|line: Seq<char>| redacted_line(line));
    assert forall|k: int, j: int| 0 <= k < pieces.len() implies !#[trigger] text::occurs_at(
        pieces[k],
        "http://"@,
        j,
    ) by {
        law_redacted_line_holds_no_url(text::lines(input)[k], j);
    }
    assert forall|k: int, j: int| 0 <= k < pieces.len() implies !#[trigger] text::occurs_at(
        pieces[k],
        "https://"@,
        j,
    ) by {
        law_redacted_line_holds_no_url(text::lines(input)[k], j);
    }
    lemma_join_keeps_out(pieces, "http://"@, i);
    lemma_join_keeps_out(pieces, "https://"@, i);
}

proof fn lemma_after_word_skips(s: Seq<char>, n: int)
    requires
        0 <= n <= s.len(),
        forall|i: int| 0 <= i < n ==> !text::is_space(#[trigger] s[i]),
    ensures
        after_word(s).len() <= s.len() - n,
    decreases n,
{
    if n == 0 {
        lemma_after_word_shrinks(s);
    } else {
        assert(!text::is_space(s[0]));
        let rest = s.drop_first();
        assert forall|i: int| 0 <= i < n - 1 implies !text::is_space(#[trigger] rest[i]) by {
            assert(!text::is_space(s[i + 1]));
        }
        lemma_after_word_skips(rest, n - 1);
    }
}

proof fn lemma_redacted_urls_bounded(s: Seq<char>)
    ensures
        redacted_urls(s).len() <= 2 * s.len(),
    decreases s.len(),
{
    if s.len() == 0 {
    } else if url_at(s, 0) {
        reveal_strlit("http://");
        reveal_strlit("https://");
        reveal_strlit("[REDACTED_URL]");
        let p = if text::occurs_at(s, "http://"@, 0) {
            "http://"@
        } else {
            "https://"@
        };
        let rest = s.drop_first();
        assert forall|i: int| 0 <= i < 6 implies !text::is_space(#[trigger] rest[i]) by {
            assert(s.subrange(0, p.len() as int)[i + 1] == rest[i]);
        }
        lemma_after_word_skips(rest, 6);
        lemma_redacted_urls_bounded(after_word(rest));
    } else {
        lemma_redacted_urls_bounded(s.drop_first());
    }
}

proof fn lemma_redacted_line_bounded(line: Seq<char>)
    ensures
        redacted_line(line).len() <= 4 * line.len(),
{
    lemma_redacted_urls_bounded(line);
    if names_header(line) {
        reveal_strlit("authorization:");
        reveal_strlit("cookie:");
        reveal_strlit(" [REDACTED]");
        let names = lemma_header_end(line);
        lemma_redacted_urls_bounded(line.take(header_end(line)));
    }
}

/// Redaction makes a text at most four times as long.
pub proof fn law_redaction_is_bounded(input: Seq<char>)
    ensures
        redacted(input).len() <= 4 * input.len(),
    decreases input.len(),
{
    let lines = text::lines(input);
    let redact = |line: Seq<char>| redacted_line(line);
    let pieces = lines.map_values(redact);
    if input.len() == 0 {
        assert(pieces.len() == 0);
    } else if input.contains('\n') {
        reveal_strlit("\n");
        input.index_of_first_ensures('\n');
        let end = input.index_of_first('\n')->0;
        let rest = input.skip(end + 1);
        let line = text::without_return(input.take(end));
        law_redaction_is_bounded(rest);
        lemma_redacted_line_bounded(line);
        assert(lines == seq![line] + text::lines(rest));
        assert(pieces[0] == redacted_line(line));
        assert(pieces.drop_first() =~= text::lines(rest).map_values(redact));
        assert(line.len() <= end);
    } else {
        lemma_redacted_line_bounded(input);
        assert(pieces[0] == redacted_line(input));
    }
}

} // verus!
