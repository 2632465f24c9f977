//! How many bytes the redaction can make of a text.

use vstd::prelude::*;

use crate::redaction;
use crate::text;

verus! {

/// What a text may come to, in bytes: three for every ASCII character and the
/// length of its encoding for any other.
pub open spec fn allowance(s: Seq<char>) -> nat
    decreases s.len(),
{
    if s.len() == 0 {
        0
    } else {
        char_allowance(s[0]) + allowance(s.drop_first())
    }
}

/// What one character may come to.
pub open spec fn char_allowance(c: char) -> nat {
    if (c as u32) < 0x80 {
        3
    } else {
        text::char_bytes(c)
    }
}

proof fn lemma_char_fits(c: char)
    ensures
        1 <= text::char_bytes(c) <= char_allowance(c),
        (c as u32) < 0x80 ==> text::char_bytes(c) == 1,
{
}

proof fn lemma_allowance_concat(a: Seq<char>, b: Seq<char>)
    ensures
        allowance(a + b) == allowance(a) + allowance(b),
    decreases a.len(),
{
    if a.len() == 0 {
        assert(a + b =~= b);
    } else {
        assert((a + b).drop_first() =~= a.drop_first() + b);
        lemma_allowance_concat(a.drop_first(), b);
    }
}

proof fn lemma_part(s: Seq<char>, n: int)
    requires
        0 <= n <= s.len(),
    ensures
        allowance(s) == allowance(s.take(n)) + allowance(s.skip(n)),
{
    assert(s.take(n) + s.skip(n) =~= s);
    lemma_allowance_concat(s.take(n), s.skip(n));
}

/// Trimming frees what the white space takes.
pub proof fn lemma_trimmed_allowance(s: Seq<char>)
    ensures
        allowance(text::trimmed(s)) <= allowance(s),
{
    lemma_trim_start_allowance(s);
    lemma_trim_end_allowance(text::trim_start(s));
}

proof fn lemma_trim_start_allowance(s: Seq<char>)
    ensures
        allowance(text::trim_start(s)) <= allowance(s),
    decreases s.len(),
{
    if s.len() > 0 && text::is_space(s[0]) {
        lemma_trim_start_allowance(s.drop_first());
    }
}

proof fn lemma_trim_end_allowance(s: Seq<char>)
    ensures
        allowance(text::trim_end(s)) <= allowance(s),
    decreases s.len(),
{
    if s.len() > 0 && text::is_space(s.last()) {
        lemma_trim_end_allowance(s.drop_last());
        lemma_part(s, s.len() - 1);
        assert(s.take(s.len() - 1) =~= s.drop_last());
    }
}

proof fn lemma_after_word_allowance(s: Seq<char>, n: int)
    requires
        0 <= n <= s.len(),
        forall|i: int|
            0 <= i < n ==> !text::is_space(#[trigger] s[i]) && (s[i] as u32) < 0x80,
    ensures
        allowance(redaction::after_word(s)) + 3 * n <= allowance(s),
    decreases s.len(),
{
    if s.len() > 0 && !text::is_space(s[0]) {
        let rest = s.drop_first();
        let left = if n > 0 {
            n - 1
        } else {
            0
        };
        assert forall|i: int| 0 <= i < left implies !text::is_space(#[trigger] rest[i]) && (
        rest[i] as u32) < 0x80 by {
            assert(rest[i] == s[i + 1]);
        }
        lemma_after_word_allowance(rest, left);
    } else if n > 0 {
        assert(!text::is_space(s[0]));
    }
}

proof fn lemma_redacted_urls_fit(s: Seq<char>)
    ensures
        text::byte_len(redaction::redacted_urls(s)) <= allowance(s),
    decreases s.len(),
{
    if s.len() == 0 {
    } else if redaction::url_at(s, 0) {
        reveal_strlit("http://");
        reveal_strlit("https://");
        let p = if text::occurs_at(s, "http://"@, 0) {
            "http://"@
        } else {
            "https://"@
        };
        let rest = s.drop_first();
        assert(s[0] == 'h') by {
            assert(s.subrange(0, p.len() as int)[0] == s[0]);
        }
        assert forall|i: int| 0 <= i < 6 implies !text::is_space(#[trigger] rest[i]) && (
        rest[i] as u32) < 0x80 by {
            assert(s.subrange(0, p.len() as int)[i + 1] == rest[i]);
        }
        lemma_after_word_allowance(rest, 6);
        redaction::lemma_after_word_shrinks(rest);
        lemma_redacted_urls_fit(redaction::after_word(rest));
        text::lemma_byte_len_concat(
            "[REDACTED_URL]"@,
            redaction::redacted_urls(redaction::after_word(rest)),
        );
        reveal_strlit("[REDACTED_URL]");
        text::lemma_ascii_byte_len("[REDACTED_URL]"@);
    } else {
        lemma_redacted_urls_fit(s.drop_first());
        lemma_char_fits(s[0]);
        text::lemma_byte_len_concat(seq![s[0]], redaction::redacted_urls(s.drop_first()));
        text::lemma_byte_len_char(s[0]);
    }
}

proof fn lemma_after_word_push(s: Seq<char>, c: char)
    ensures
        redaction::after_word(s).len() == 0 && !text::is_space(c) ==> redaction::after_word(
            s.push(c),
        ).len() == 0,
        redaction::after_word(s).len() > 0 || text::is_space(c) ==> redaction::after_word(s.push(c))
            == redaction::after_word(s).push(c),
    decreases s.len(),
{
    let longer = s.push(c);
    if s.len() == 0 {
        assert(longer.drop_first() =~= s);
        assert(redaction::after_word(longer.drop_first()).len() == 0);
        assert(longer =~= redaction::after_word(s).push(c));
    } else {
        assert(longer[0] == s[0]);
        assert(longer.drop_first() =~= s.drop_first().push(c));
        if !text::is_space(s[0]) {
            lemma_after_word_push(s.drop_first(), c);
        }
    }
}

/// A character that can end no URL's beginning adds its own bytes at most.
proof fn lemma_push_adds_its_bytes(s: Seq<char>, c: char)
    requires
        c != '/',
    ensures
        text::byte_len(redaction::redacted_urls(s.push(c))) <= text::byte_len(
            redaction::redacted_urls(s),
        ) + text::char_bytes(c),
    decreases s.len(),
{
    reveal_strlit("http://");
    reveal_strlit("https://");
    let longer = s.push(c);
    text::lemma_byte_len_char(c);
    if s.len() == 0 {
        assert(!redaction::url_at(longer, 0));
        assert(longer.drop_first() =~= s);
        assert(redaction::redacted_urls(longer.drop_first()).len() == 0);
        assert(redaction::redacted_urls(longer) =~= seq![c]);
    } else if redaction::url_at(s, 0) {
        let rest = s.drop_first();
        let after = redaction::after_word(rest);
        redaction::lemma_after_word_shrinks(rest);
        if text::occurs_at(s, "http://"@, 0) {
            assert(longer.subrange(0, 7) =~= s.subrange(0, 7));
        } else {
            assert(longer.subrange(0, 8) =~= s.subrange(0, 8));
        }
        assert(redaction::url_at(longer, 0));
        assert(longer.drop_first() =~= rest.push(c));
        lemma_after_word_push(rest, c);
        let after_longer = redaction::after_word(rest.push(c));
        let mark = "[REDACTED_URL]"@;
        redaction::lemma_after_word_shrinks(rest.push(c));
        assert(redaction::redacted_urls(longer) == mark + redaction::redacted_urls(after_longer));
        assert(redaction::redacted_urls(s) == mark + redaction::redacted_urls(after));
        text::lemma_byte_len_concat(mark, redaction::redacted_urls(after_longer));
        text::lemma_byte_len_concat(mark, redaction::redacted_urls(after));
        if after.len() > 0 || text::is_space(c) {
            lemma_push_adds_its_bytes(after, c);
        } else {
            assert(redaction::redacted_urls(after_longer).len() == 0);
        }
    } else {
        let rest = s.drop_first();
        assert(longer[0] == s[0]);
        assert(longer.drop_first() =~= rest.push(c));
        assert(!redaction::url_at(longer, 0)) by {
            if text::occurs_at(longer, "http://"@, 0) {
                assert(longer.subrange(0, 7)[6] == '/');
                assert(longer.len() > 7);
                assert(longer.subrange(0, 7) =~= s.subrange(0, 7));
            }
            if text::occurs_at(longer, "https://"@, 0) {
                assert(longer.subrange(0, 8)[7] == '/');
                assert(longer.len() > 8);
                assert(longer.subrange(0, 8) =~= s.subrange(0, 8));
            }
        }
        lemma_push_adds_its_bytes(rest, c);
        text::lemma_byte_len_concat(seq![s[0]], redaction::redacted_urls(rest));
        text::lemma_byte_len_concat(seq![s[0]], redaction::redacted_urls(rest.push(c)));
    }
}

proof fn lemma_name_adds_its_bytes(s: Seq<char>, name: Seq<char>)
    requires
        forall|i: int| 0 <= i < name.len() ==> (#[trigger] name[i] as u32) < 0x80 && name[i] != '/',
    ensures
        text::byte_len(redaction::redacted_urls(s + name)) <= text::byte_len(
            redaction::redacted_urls(s),
        ) + name.len(),
    decreases name.len(),
{
    if name.len() == 0 {
        assert(s + name =~= s);
    } else {
        let before = s + name.drop_last();
        assert(s + name =~= before.push(name.last()));
        assert forall|i: int| 0 <= i < name.drop_last().len() implies (
        #[trigger] name.drop_last()[i] as u32) < 0x80 && name.drop_last()[i] != '/' by {
            assert(name.drop_last()[i] == name[i]);
        }
        lemma_name_adds_its_bytes(s, name.drop_last());
        lemma_push_adds_its_bytes(before, name.last());
        lemma_char_fits(name.last());
    }
}

proof fn lemma_ascii_allowance(s: Seq<char>)
    requires
        forall|i: int| 0 <= i < s.len() ==> (#[trigger] s[i] as u32) < 0x80,
    ensures
        allowance(s) == 3 * s.len(),
    decreases s.len(),
{
    if s.len() > 0 {
        let rest = s.drop_first();
        assert forall|i: int| 0 <= i < rest.len() implies (#[trigger] rest[i] as u32) < 0x80 by {
            assert(rest[i] == s[i + 1]);
        }
        lemma_ascii_allowance(rest);
        assert((s[0] as u32) < 0x80);
    }
}

proof fn lemma_redacted_line_fits(line: Seq<char>)
    ensures
        text::byte_len(redaction::redacted_line(line)) <= allowance(line),
{
    lemma_redacted_urls_fit(line);
    if redaction::names_header(line) {
        reveal_strlit("authorization:");
        reveal_strlit("cookie:");
        let end = redaction::header_end(line);
        let (name, _) = redaction::lemma_header_end(line);
        let begin = end - name.len();
        let lower = text::lower(line);
        let kept = line.take(end);
        let head = line.take(end - 7);
        let tail = line.subrange(end - 7, end);
        assert forall|i: int| 0 <= i < tail.len() implies (#[trigger] tail[i] as u32) < 0x80
            && tail[i] != '/' by {
            let j = end - 7 + i;
            assert(lower[j] == text::lower_char(line[j]));
            assert(lower.subrange(begin, begin + name.len())[j - begin] == lower[j]);
            let written = name[j - begin];
            assert((written as u32) < 0x80 && written != '/');
        }
        assert(head + tail =~= kept);
        lemma_redacted_urls_fit(head);
        lemma_name_adds_its_bytes(head, tail);
        lemma_allowance_concat(head, tail);
        lemma_ascii_allowance(tail);
        lemma_part(line, end);
        text::lemma_byte_len_concat(redaction::redacted_urls(kept), " [REDACTED]"@);
        reveal_strlit(" [REDACTED]");
        text::lemma_ascii_byte_len(" [REDACTED]"@);
    }
}

/// The redaction of a text keeps to what the text may come to in bytes.
pub proof fn law_redaction_keeps_to_the_allowance(input: Seq<char>)
    ensures
        text::byte_len(redaction::redacted(input)) <= allowance(input),
    decreases input.len(),
{
    let lines = text::lines(input);
    let redact = |line: Seq<char>| redaction::redacted_line(line);
    let pieces = lines.map_values(redact);
    if input.len() == 0 {
        assert(pieces.len() == 0);
    } else if input.contains('\n') {
        input.index_of_first_ensures('\n');
        let end = input.index_of_first('\n')->0;
        let rest = input.skip(end + 1);
        let whole = input.take(end);
        let line = text::without_return(whole);
        law_redaction_keeps_to_the_allowance(rest);
        lemma_redacted_line_fits(line);
        if line.len() < whole.len() {
            lemma_part(whole, whole.len() - 1);
            assert(whole.take(whole.len() - 1) =~= line);
        }
        lemma_part(input, end);
        assert(input.skip(end)[0] == '\n');
        assert(input.skip(end).drop_first() =~= rest);
        assert(lines == seq![line] + text::lines(rest));
        assert(pieces[0] == redaction::redacted_line(line));
        assert(pieces.drop_first() =~= text::lines(rest).map_values(redact));
        if pieces.len() > 1 {
            let first = pieces[0];
            let last = redaction::redacted(rest);
            assert(redaction::redacted(input) == first + "\n"@ + last);
            text::lemma_byte_len_concat(first + "\n"@, last);
            text::lemma_byte_len_concat(first, "\n"@);
            reveal_strlit("\n");
            text::lemma_ascii_byte_len("\n"@);
        }
    } else {
        lemma_redacted_line_fits(input);
        assert(pieces[0] == redaction::redacted_line(input));
    }
}

/// Text that bytes encode, with marks in place of what encodes none, may come
/// to three times those bytes.
pub proof fn lemma_lossy_allowance(bytes: Seq<u8>, decoded: Seq<char>)
    requires
        text::decodes_lossily(bytes, decoded),
    ensures
        allowance(decoded) <= 3 * bytes.len(),
{
    let pieces = choose|pieces: Seq<Seq<u8>>|
        pieces.flatten() == bytes && #[trigger] text::stand_for(pieces, decoded);
    lemma_pieces_allowance(pieces, decoded);
}

proof fn lemma_pieces_allowance(pieces: Seq<Seq<u8>>, decoded: Seq<char>)
    requires
        text::stand_for(pieces, decoded),
    ensures
        allowance(decoded) <= 3 * pieces.flatten().len(),
    decreases pieces.len(),
{
    if pieces.len() > 0 {
        let rest = pieces.drop_first();
        let others = decoded.drop_first();
        assert(text::stands_for(pieces[0], decoded[0]));
        assert forall|i: int| 0 <= i < rest.len() implies #[trigger] text::stands_for(
            rest[i],
            others[i],
        ) by {
            assert(text::stands_for(pieces[i + 1], decoded[i + 1]));
        }
        lemma_pieces_allowance(rest, others);
        assert(pieces.flatten() == pieces[0] + rest.flatten());
        lemma_char_fits(decoded[0]);
    }
}

} // verus!
