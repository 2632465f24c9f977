//! What redaction leaves of a text, and what it puts in place of the rest.

use vstd::prelude::*;

use crate::redaction;
use crate::text;

verus! {

/// The text begins with a URL's scheme.
pub open spec fn is_url(s: Seq<char>) -> bool {
    ||| s.len() >= 7 && s.take(7) == seq!['h', 't', 't', 'p', ':', '/', '/']
    ||| s.len() >= 8 && s.take(8) == seq!['h', 't', 't', 'p', 's', ':', '/', '/']
}

proof fn lemma_url_at(s: Seq<char>, i: int)
    requires
        0 <= i <= s.len(),
    ensures
        redaction::url_at(s, i) == is_url(s.skip(i)),
{
    reveal_strlit("http://");
    reveal_strlit("https://");
    let rest = s.skip(i);
    assert("http://"@ =~= seq!['h', 't', 't', 'p', ':', '/', '/']);
    assert("https://"@ =~= seq!['h', 't', 't', 'p', 's', ':', '/', '/']);
    if i + 7 <= s.len() {
        assert(s.subrange(i, i + 7) =~= rest.take(7));
    }
    if i + 8 <= s.len() {
        assert(s.subrange(i, i + 8) =~= rest.take(8));
    }
}

proof fn lemma_word(word: Seq<char>, tail: Seq<char>)
    requires
        forall|i: int| 0 <= i < word.len() ==> !text::is_space(#[trigger] word[i]),
        tail.len() == 0 || text::is_space(tail[0]),
    ensures
        redaction::after_word(word + tail) == tail,
    decreases word.len(),
{
    if word.len() == 0 {
        assert(word + tail =~= tail);
    } else {
        let rest = word.drop_first();
        assert forall|i: int| 0 <= i < rest.len() implies !text::is_space(#[trigger] rest[i]) by {
            assert(rest[i] == word[i + 1]);
        }
        lemma_word(rest, tail);
        assert((word + tail)[0] == word[0]);
        assert((word + tail).drop_first() =~= rest + tail);
    }
}

/// The first URL in a line gives way to the mark, up to the next white space;
/// what stands before it is kept as it is, and what follows is dealt with in
/// the same way.
pub proof fn law_url_gives_way_to_the_mark(before: Seq<char>, url: Seq<char>, tail: Seq<char>)
    requires
        is_url(url),
        forall|i: int| 0 <= i < url.len() ==> !text::is_space(#[trigger] url[i]),
        tail.len() == 0 || text::is_space(tail[0]),
        forall|i: int| 0 <= i < before.len() ==> !is_url(#[trigger] (before + url + tail).skip(i)),
    ensures
        redaction::redacted_urls(before + url + tail) == before + "[REDACTED_URL]"@
            + redaction::redacted_urls(tail),
    decreases before.len(),
{
    let whole = before + url + tail;
    if before.len() == 0 {
        assert(whole =~= url + tail);
        assert(whole.skip(0) =~= whole);
        assert(is_url(whole)) by {
            if url.len() >= 7 {
                assert(whole.take(7) =~= url.take(7));
            }
            if url.len() >= 8 {
                assert(whole.take(8) =~= url.take(8));
            }
        }
        lemma_url_at(whole, 0);
        let rest = url.drop_first();
        assert forall|i: int| 0 <= i < rest.len() implies !text::is_space(#[trigger] rest[i]) by {
            assert(rest[i] == url[i + 1]);
        }
        lemma_word(rest, tail);
        assert(whole.drop_first() =~= rest + tail);
        assert(redaction::redacted_urls(whole) =~= before + "[REDACTED_URL]"@
            + redaction::redacted_urls(tail));
    } else {
        let others = before.drop_first();
        let rest = others + url + tail;
        assert(whole.drop_first() =~= rest);
        assert(!is_url(whole.skip(0)));
        lemma_url_at(whole, 0);
        assert forall|i: int| 0 <= i < others.len() implies !is_url(#[trigger] rest.skip(i)) by {
            assert(rest.skip(i) =~= whole.skip(i + 1));
        }
        law_url_gives_way_to_the_mark(others, url, tail);
        assert(whole[0] == before[0]);
        assert(redaction::redacted_urls(whole) =~= before + "[REDACTED_URL]"@
            + redaction::redacted_urls(tail));
    }
}

/// A line that names no credential header is kept, URLs aside. Where it names
/// one, in whatever case, everything behind the first such name gives way to a
/// mark, and URLs before it to theirs.
pub proof fn law_header_values_give_way_to_the_mark(
    before: Seq<char>,
    name: Seq<char>,
    value: Seq<char>,
)
    requires
        text::lower(name) == "authorization:"@ || text::lower(name) == "cookie:"@,
        forall|i: int|
            0 <= i < before.len() ==> !(#[trigger] text::occurs_at(
                text::lower(before + name + value),
                "authorization:"@,
                i,
            )),
        forall|i: int|
            0 <= i < before.len() ==> !(#[trigger] text::occurs_at(
                text::lower(before + name + value),
                "cookie:"@,
                i,
            )),
    ensures
        redaction::redacted_line(before + name + value) == redaction::redacted_urls(before + name)
            + " [REDACTED]"@,
{
    let line = before + name + value;
    let lower = text::lower(line);
    let at = before.len() as int;
    let found = text::lower(name);
    assert(lower.subrange(at, at + found.len()) =~= found);
    assert(text::occurs_at(lower, found, at));
    assert(text::first_occurrence(lower, found, 0, at));
    redaction::lemma_first_index(lower, found, at);
    let other = if found == "cookie:"@ {
        "authorization:"@
    } else {
        "cookie:"@
    };
    lemma_other_stands_behind(lower, found, other, at);
    assert(line.take(at + found.len()) =~= before + name);
}

proof fn lemma_other_stands_behind(lower: Seq<char>, found: Seq<char>, other: Seq<char>, at: int)
    requires
        found == "authorization:"@ && other == "cookie:"@ || found == "cookie:"@ && other
            == "authorization:"@,
        text::occurs_at(lower, found, at),
        forall|i: int| 0 <= i < at ==> !(#[trigger] text::occurs_at(lower, other, i)),
    ensures
        text::contains(lower, other) ==> redaction::first_index(lower, other) > at,
{
    reveal_strlit("authorization:");
    reveal_strlit("cookie:");
    if text::contains(lower, other) {
        redaction::lemma_contains_first(lower, other);
        let i = redaction::first_index(lower, other);
        if i == at {
            assert(lower.subrange(at, at + found.len())[0] == lower[at]);
            assert(lower.subrange(at, at + other.len())[0] == lower[at]);
            assert(found[0] != other[0]);
        }
    }
}

/// A line without a credential header keeps everything but its URLs.
pub proof fn law_other_lines_are_kept(line: Seq<char>)
    requires
        forall|i: int| !(#[trigger] text::occurs_at(text::lower(line), "authorization:"@, i)),
        forall|i: int| !(#[trigger] text::occurs_at(text::lower(line), "cookie:"@, i)),
    ensures
        redaction::redacted_line(line) == redaction::redacted_urls(line),
        (forall|i: int| !(#[trigger] redaction::url_at(line, i))) ==> redaction::redacted_line(line)
            == line,
{
    if forall|i: int| !(#[trigger] redaction::url_at(line, i)) {
        redaction::law_text_without_urls_is_kept(line);
    }
}

/// Lines are redacted one by one and stay lines: what one holds does not
/// matter to another.
pub proof fn law_lines_are_redacted_one_by_one(line: Seq<char>, rest: Seq<char>)
    requires
        !line.contains('\n'),
        line.len() > 0,
        line.last() != '\r',
    ensures
        redaction::redacted(line) == redaction::redacted_line(line),
        rest.len() > 0 ==> redaction::redacted(line + seq!['\n'] + rest)
            == redaction::redacted_line(line) + seq!['\n'] + redaction::redacted(rest),
        redaction::redacted(line + seq!['\n']) == redaction::redacted_line(line),
        redaction::redacted(Seq::<char>::empty()).len() == 0,
{
    let redact = |line: Seq<char>| redaction::redacted_line(line);
    let none = Seq::<char>::empty();
    reveal_strlit("\n");
    assert("\n"@ =~= seq!['\n']);
    text::laws::law_lines_end_at_line_feeds(line, rest);
    text::laws::law_lines_end_at_line_feeds(line, none);
    assert(text::lines(line).map_values(redact) =~= seq![redaction::redacted_line(line)]);
    assert(line + seq!['\n'] + none =~= line + seq!['\n']);
    assert(text::lines(none) =~= Seq::<Seq<char>>::empty());
    assert(seq![line] + text::lines(none) =~= seq![line]);
    assert(text::lines(none).map_values(redact) =~= Seq::<Seq<char>>::empty());
    let first = seq![redaction::redacted_line(line)];
    let others = text::lines(rest).map_values(redact);
    assert((seq![line] + text::lines(rest)).map_values(redact) =~= first + others);
    if rest.len() > 0 {
        lemma_some_line(rest);
        text::laws::law_join_separates_neighbours(first, others, "\n"@);
    }
}

proof fn lemma_some_line(s: Seq<char>)
    requires
        s.len() > 0,
    ensures
        text::lines(s).len() > 0,
{
}

} // verus!
