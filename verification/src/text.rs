//! Character sequences: trimming, searching, line splitting and decimal
//! rendering, stated over `Seq<char>`.

use vstd::prelude::*;
use vstd::string::*;

pub mod laws;

verus! {

/// `String::push` appends one character to the end of the string.
pub assume_specification[ String::push ](s: &mut String, c: char)
    ensures
        final(s)@ == old(s)@.push(c),
;

/// The text that `String::from_utf8_lossy` makes of some bytes.
pub uninterp spec fn utf8_lossy(bytes: Seq<u8>) -> Seq<char>;

/// The bytes stand for the character: they encode it, or they encode nothing
/// and the character is the replacement mark.
pub open spec fn stands_for(piece: Seq<u8>, c: char) -> bool {
    piece.len() > 0 && (piece == vstd::utf8::encode_scalar(c as u32) || c as u32 == 0xfffd)
}

/// Each piece stands for the character at its place.
pub open spec fn stand_for(pieces: Seq<Seq<u8>>, text: Seq<char>) -> bool {
    &&& pieces.len() == text.len()
    &&& forall|i: int| 0 <= i < pieces.len() ==> #[trigger] stands_for(pieces[i], text[i])
}

/// The bytes fall into pieces that stand for the text, one for each character.
pub open spec fn decodes_lossily(bytes: Seq<u8>, text: Seq<char>) -> bool {
    exists|pieces: Seq<Seq<u8>>| pieces.flatten() == bytes && #[trigger] stand_for(pieces, text)
}

/// `String::from_utf8_lossy`: the text that bytes encode, with the replacement
/// mark in place of every sequence of bytes that encodes nothing. Bytes that
/// encode a text come out as that text; how far a sequence that encodes
/// nothing reaches is left unsaid.
#[verifier::external_body]
pub(crate) fn lossy_text(bytes: &[u8]) -> (text: String)
    ensures
        text@ == utf8_lossy(bytes@),
        vstd::utf8::valid_utf8(bytes@) ==> text@ == vstd::utf8::decode_utf8(bytes@),
        decodes_lossily(bytes@, text@),
{
    String::from_utf8_lossy(bytes).into_owned()
}

/// The bytes that encode one character.
pub open spec fn char_bytes(c: char) -> nat {
    vstd::utf8::encode_scalar(c as u32).len()
}

/// The bytes that encode a text.
pub open spec fn byte_len(s: Seq<char>) -> nat {
    vstd::utf8::encode_utf8(s).len()
}

/// A text takes the bytes of its parts.
pub proof fn lemma_byte_len_concat(a: Seq<char>, b: Seq<char>)
    ensures
        byte_len(a + b) == byte_len(a) + byte_len(b),
    decreases a.len(),
{
    if a.len() == 0 {
        assert(a + b =~= b);
    } else {
        assert((a + b).drop_first() =~= a.drop_first() + b);
        lemma_byte_len_concat(a.drop_first(), b);
    }
}

/// A text of one character takes that character's bytes.
pub proof fn lemma_byte_len_char(c: char)
    ensures
        byte_len(seq![c]) == char_bytes(c),
{
    assert(seq![c].drop_first() =~= Seq::empty());
    assert(vstd::utf8::encode_utf8(seq![c].drop_first()).len() == 0);
}

/// An ASCII text takes one byte for each character.
pub proof fn lemma_ascii_byte_len(s: Seq<char>)
    requires
        forall|i: int| 0 <= i < s.len() ==> (#[trigger] s[i] as u32) < 0x80,
    ensures
        byte_len(s) == s.len(),
    decreases s.len(),
{
    if s.len() > 0 {
        let rest = s.drop_first();
        assert((s[0] as u32) < 0x80);
        assert forall|i: int| 0 <= i < rest.len() implies (#[trigger] rest[i] as u32) < 0x80 by {
            assert(rest[i] == s[i + 1]);
        }
        lemma_ascii_byte_len(rest);
    }
}

/// The characters with the Unicode `White_Space` property.
pub open spec fn is_space(c: char) -> bool {
    ||| 0x09 <= c as u32 <= 0x0d
    ||| c as u32 == 0x20
    ||| c as u32 == 0x85
    ||| c as u32 == 0xa0
    ||| c as u32 == 0x1680
    ||| 0x2000 <= c as u32 <= 0x200a
    ||| c as u32 == 0x2028
    ||| c as u32 == 0x2029
    ||| c as u32 == 0x202f
    ||| c as u32 == 0x205f
    ||| c as u32 == 0x3000
}

/// Whether `c` is white space.
pub fn char_is_space(c: char) -> (result: bool)
    ensures
        result == is_space(c),
{
    let u: u32 = c as u32;
    (0x09 <= u && u <= 0x0d) || u == 0x20 || u == 0x85 || u == 0xa0 || u == 0x1680 || (0x2000 <= u
        && u <= 0x200a) || u == 0x2028 || u == 0x2029 || u == 0x202f || u == 0x205f || u == 0x3000
}

/// ASCII capital letters become small letters, every other character stays.
pub open spec fn lower_char(c: char) -> char {
    if 'A' <= c <= 'Z' {
        (c as u8 + 32) as u8 as char
    } else {
        c
    }
}

/// `lower_char` applied to every character.
pub open spec fn lower(s: Seq<char>) -> Seq<char> {
    s.map_values(|c: char| lower_char(c))
}

/// The small form of one character.
pub fn char_lower(c: char) -> (result: char)
    ensures
        result == lower_char(c),
{
    if 'A' <= c && c <= 'Z' {
        ((c as u8) + 32) as char
    } else {
        c
    }
}

/// The characters of a string slice.
pub fn chars_of(s: &str) -> (out: Vec<char>)
    ensures
        out@ == s@,
{
    let mut out: Vec<char> = Vec::new();
    for c in it: s.chars()
        invariant
            it.seq() == s@,
            out@ == s@.take(it.index() as int),
    {
        out.push(c);
    }
    out
}

/// Appends the characters `from..to` of `chars` to `out`.
pub fn push_range(out: &mut String, chars: &Vec<char>, from: usize, to: usize)
    requires
        from <= to <= chars@.len(),
    ensures
        final(out)@ == old(out)@ + chars@.subrange(from as int, to as int),
{
    let mut i: usize = from;
    while i < to
        invariant
            from <= i <= to <= chars@.len(),
            out@ == old(out)@ + chars@.subrange(from as int, i as int),
        decreases to - i,
    {
        out.push(chars[i]);
        i += 1;
    }
}

/// The string made of the characters `from..to` of `chars`.
pub fn string_range(chars: &Vec<char>, from: usize, to: usize) -> (out: String)
    requires
        from <= to <= chars@.len(),
    ensures
        out@ == chars@.subrange(from as int, to as int),
{
    let mut out: String = String::new();
    push_range(&mut out, chars, from, to);
    out
}

/// `s` without its leading white space.
pub open spec fn trim_start(s: Seq<char>) -> Seq<char>
    decreases s.len(),
{
    if s.len() > 0 && is_space(s[0]) {
        trim_start(s.drop_first())
    } else {
        s
    }
}

/// `s` without its trailing white space.
pub open spec fn trim_end(s: Seq<char>) -> Seq<char>
    decreases s.len(),
{
    if s.len() > 0 && is_space(s.last()) {
        trim_end(s.drop_last())
    } else {
        s
    }
}

/// `s` without white space at either end.
pub open spec fn trimmed(s: Seq<char>) -> Seq<char> {
    trim_end(trim_start(s))
}

/// A text that begins with something other than white space is not blank.
pub proof fn lemma_not_blank(s: Seq<char>)
    requires
        s.len() > 0,
        !is_space(s[0]),
    ensures
        trim_end(s).len() > 0,
        trimmed(s).len() > 0,
    decreases s.len(),
{
    if s.len() > 1 && is_space(s.last()) {
        lemma_not_blank(s.drop_last());
    }
}

/// Trimming takes nothing but characters away.
pub proof fn lemma_trimmed_shrinks(s: Seq<char>)
    ensures
        trim_end(s).len() <= s.len(),
        trim_start(s).len() <= s.len(),
        trimmed(s).len() <= s.len(),
    decreases s.len(),
{
    if s.len() > 0 {
        lemma_trimmed_shrinks(s.drop_first());
        lemma_trimmed_shrinks(s.drop_last());
    }
    if trim_start(s).len() < s.len() {
        lemma_trimmed_shrinks(trim_start(s));
    }
}

/// The first index that is not white space, or the length.
fn start_index(chars: &Vec<char>) -> (from: usize)
    ensures
        from <= chars@.len(),
        trim_start(chars@) == chars@.skip(from as int),
{
    let mut from: usize = 0;
    assert(chars@.skip(0) == chars@);
    while from < chars.len() && char_is_space(chars[from])
        invariant
            from <= chars@.len(),
            trim_start(chars@) == trim_start(chars@.skip(from as int)),
        decreases chars@.len() - from,
    {
        assert(chars@.skip(from as int).drop_first() == chars@.skip(from + 1));
        from += 1;
    }
    from
}

/// The end of `chars[from..]` once trailing white space is dropped.
fn end_index(chars: &Vec<char>, from: usize) -> (to: usize)
    requires
        from <= chars@.len(),
    ensures
        from <= to <= chars@.len(),
        trim_end(chars@.skip(from as int)) == chars@.subrange(from as int, to as int),
{
    let mut to: usize = chars.len();
    assert(chars@.skip(from as int) == chars@.subrange(from as int, to as int));
    while from < to && char_is_space(chars[to - 1])
        invariant
            from <= to <= chars@.len(),
            trim_end(chars@.skip(from as int)) == trim_end(
                chars@.subrange(from as int, to as int),
            ),
        decreases to,
    {
        assert(chars@.subrange(from as int, to as int).drop_last() == chars@.subrange(
            from as int,
            to - 1,
        ));
        to -= 1;
    }
    to
}

/// The slice without white space at either end.
pub fn trim(s: &str) -> (result: &str)
    ensures
        result@ == trimmed(s@),
{
    let chars: Vec<char> = chars_of(s);
    let from: usize = start_index(&chars);
    let to: usize = end_index(&chars, from);
    s.substring_char(from, to)
}

/// The slice without trailing white space.
pub fn trim_tail(s: &str) -> (result: &str)
    ensures
        result@ == trim_end(s@),
{
    let chars: Vec<char> = chars_of(s);
    let to: usize = end_index(&chars, 0);
    assert(chars@.skip(0) == chars@);
    s.substring_char(0, to)
}

/// `p` stands in `s` at index `i`.
pub open spec fn occurs_at(s: Seq<char>, p: Seq<char>, i: int) -> bool {
    0 <= i && i + p.len() <= s.len() && s.subrange(i, i + p.len()) == p
}

/// `p` stands somewhere in `s`.
pub open spec fn contains(s: Seq<char>, p: Seq<char>) -> bool {
    exists|i: int| occurs_at(s, p, i)
}

/// `i` is the lowest index from `from` on at which `p` stands in `s`.
pub open spec fn first_occurrence(s: Seq<char>, p: Seq<char>, from: int, i: int) -> bool {
    &&& from <= i
    &&& occurs_at(s, p, i)
    &&& forall|j: int| from <= j < i ==> !occurs_at(s, p, j)
}

/// Whether `pattern` stands in `chars` at `at`.
pub fn matches_at(chars: &Vec<char>, pattern: &Vec<char>, at: usize) -> (result: bool)
    ensures
        result == occurs_at(chars@, pattern@, at as int),
{
    if at > chars.len() || pattern.len() > chars.len() - at {
        return false;
    }
    let mut k: usize = 0;
    while k < pattern.len()
        invariant
            k <= pattern@.len(),
            at + pattern@.len() <= chars.len(),
            forall|j: int| 0 <= j < k ==> chars@[at + j] == #[trigger] pattern@[j],
        decreases pattern@.len() - k,
    {
        if chars[at + k] != pattern[k] {
            proof {
                let window = chars@.subrange(at as int, at + pattern@.len());
                assert(window[k as int] == chars@[at + k]);
            }
            return false;
        }
        k += 1;
    }
    assert(chars@.subrange(at as int, at + pattern@.len()) =~= pattern@);
    true
}

/// The lowest index from `from` on at which `pattern` stands in `chars`.
pub fn find(chars: &Vec<char>, pattern: &Vec<char>, from: usize) -> (result: Option<usize>)
    ensures
        match result {
            Some(i) => first_occurrence(chars@, pattern@, from as int, i as int),
            None => forall|j: int| from <= j ==> !occurs_at(chars@, pattern@, j),
        },
{
    let mut i: usize = from;
    while i <= chars.len()
        invariant
            from <= i,
            from <= chars@.len() ==> i <= chars@.len() + 1,
            forall|j: int| from <= j < i ==> !occurs_at(chars@, pattern@, j),
        decreases chars@.len() + 1 - i,
    {
        if matches_at(chars, pattern, i) {
            return Some(i);
        }
        if i == chars.len() {
            return None;
        }
        i += 1;
    }
    None
}

/// Whether `pattern` stands somewhere in `text`.
pub fn contains_text(text: &str, pattern: &str) -> (result: bool)
    ensures
        result == contains(text@, pattern@),
{
    let chars: Vec<char> = chars_of(text);
    let wanted: Vec<char> = chars_of(pattern);
    match find(&chars, &wanted, 0) {
        Some(_) => true,
        None => false,
    }
}

/// Whether `text` begins with `prefix`.
pub fn starts_with(text: &str, prefix: &str) -> (result: bool)
    ensures
        result == prefix@.is_prefix_of(text@),
{
    let chars: Vec<char> = chars_of(text);
    let wanted: Vec<char> = chars_of(prefix);
    let result: bool = matches_at(&chars, &wanted, 0);
    proof {
        if prefix@.len() <= text@.len() {
            assert(text@.subrange(0, prefix@.len() as int) =~= prefix@ <==> prefix@.is_prefix_of(
                text@,
            ));
        }
    }
    result
}

/// Whether two slices hold the same characters.
pub fn same_text(left: &str, right: &str) -> (result: bool)
    ensures
        result == (left@ == right@),
{
    let l: Vec<char> = chars_of(left);
    let r: Vec<char> = chars_of(right);
    let result: bool = l.len() == r.len() && matches_at(&l, &r, 0);
    proof {
        if left@.len() == right@.len() {
            assert(left@.subrange(0, right@.len() as int) =~= left@);
        }
    }
    result
}

/// Whether `text` holds the character `wanted`.
pub fn contains_char(text: &str, wanted: char) -> (result: bool)
    ensures
        result == text@.contains(wanted),
{
    let chars: Vec<char> = chars_of(text);
    let mut i: usize = 0;
    while i < chars.len()
        invariant
            i <= chars@.len(),
            chars@ == text@,
            forall|j: int| 0 <= j < i ==> chars@[j] != wanted,
        decreases chars@.len() - i,
    {
        if chars[i] == wanted {
            return true;
        }
        i += 1;
    }
    false
}

/// The small form of every character of `text`.
pub fn lowered(text: &str) -> (out: Vec<char>)
    ensures
        out@ == lower(text@),
{
    let chars: Vec<char> = chars_of(text);
    let mut out: Vec<char> = Vec::new();
    let mut i: usize = 0;
    while i < chars.len()
        invariant
            i <= chars@.len(),
            chars@ == text@,
            out@ == lower(text@).take(i as int),
        decreases chars@.len() - i,
    {
        out.push(char_lower(chars[i]));
        assert(lower(text@).take(i + 1) =~= lower(text@).take(i as int).push(lower(text@)[i as int]));
        i += 1;
    }
    assert(lower(text@).take(i as int) =~= lower(text@));
    out
}

/// The lines of `s`. A line ends before `\n` or `\r\n`; the last line end is
/// optional, so no empty line follows it.
pub open spec fn lines(s: Seq<char>) -> Seq<Seq<char>>
    decreases s.len(),
{
    if s.len() == 0 {
        Seq::empty()
    } else if s.contains('\n') {
        proof {
            s.index_of_first_ensures('\n');
        }
        let end = s.index_of_first('\n')->0;
        seq![without_return(s.take(end))] + lines(s.skip(end + 1))
    } else {
        seq![s]
    }
}

/// `s` without one trailing carriage return.
pub open spec fn without_return(s: Seq<char>) -> Seq<char> {
    if s.len() > 0 && s.last() == '\r' {
        s.drop_last()
    } else {
        s
    }
}

/// The pieces of `s` between the occurrences of `separator`; without one, `s`
/// itself.
pub open spec fn split(s: Seq<char>, separator: char) -> Seq<Seq<char>>
    decreases s.len(),
{
    if s.contains(separator) {
        proof {
            s.index_of_first_ensures(separator);
        }
        let end = s.index_of_first(separator)->0;
        seq![s.take(end)] + split(s.skip(end + 1), separator)
    } else {
        seq![s]
    }
}

/// `separator` stands at `end` and nowhere before.
pub proof fn lemma_split_at(s: Seq<char>, separator: char, end: int)
    requires
        0 <= end < s.len(),
        s[end] == separator,
        forall|j: int| 0 <= j < end ==> s[j] != separator,
    ensures
        split(s, separator) == seq![s.take(end)] + split(s.skip(end + 1), separator),
{
    assert(s.contains(separator));
    s.index_of_first_ensures(separator);
    let first = s.index_of_first(separator)->0;
    assert(first == end) by {
        if first < end {
            assert(s[first] != separator);
        }
    }
}

/// The pieces of a text between the occurrences of `separator`.
pub fn split_char(text: &str, separator: char) -> (out: Vec<String>)
    ensures
        texts(out@) == split(text@, separator),
{
    let chars: Vec<char> = chars_of(text);
    let mut out: Vec<String> = Vec::new();
    let mut start: usize = 0;
    assert(chars@.skip(0) =~= chars@);
    assert(texts(out@) + split(chars@.skip(0), separator) =~= split(text@, separator));
    loop
        invariant
            start <= chars@.len(),
            texts(out@) + split(chars@.skip(start as int), separator) == split(text@, separator),
        decreases chars@.len() - start,
    {
        let ghost rest = chars@.skip(start as int);
        let ghost before = texts(out@);
        let mut end: usize = start;
        while end < chars.len() && chars[end] != separator
            invariant
                start <= end <= chars@.len(),
                forall|j: int| start <= j < end ==> chars@[j] != separator,
            decreases chars@.len() - end,
        {
            end += 1;
        }
        out.push(string_range(&chars, start, end));
        let ghost at = (end - start) as int;
        assert(forall|k: int| 0 <= k < at ==> rest[k] != separator);
        assert(chars@.subrange(start as int, end as int) =~= rest.take(at));
        assert(texts(out@) =~= before + seq![rest.take(at)]);
        if end == chars.len() {
            proof {
                assert(rest.take(at) =~= rest);
                assert(!rest.contains(separator));
                assert(texts(out@) =~= before + split(rest, separator));
            }
            return out;
        }
        proof {
            lemma_split_at(rest, separator, at);
            assert(rest.skip(at + 1) =~= chars@.skip(end + 1));
            assert(texts(out@) + split(chars@.skip(end + 1), separator) =~= before + split(
                rest,
                separator,
            ));
        }
        start = end + 1;
    }
}

/// The pieces with `separator` between each two neighbours.
pub open spec fn join(pieces: Seq<Seq<char>>, separator: Seq<char>) -> Seq<char>
    decreases pieces.len(),
{
    if pieces.len() == 0 {
        Seq::empty()
    } else if pieces.len() == 1 {
        pieces[0]
    } else {
        pieces[0] + separator + join(pieces.drop_first(), separator)
    }
}

/// The texts that a vector of strings holds.
pub open spec fn texts(strings: Seq<String>) -> Seq<Seq<char>> {
    strings.map_values(|s: String| s@)
}

/// The decimal digit `n`.
pub open spec fn digit(n: int) -> char {
    if n == 0 {
        '0'
    } else if n == 1 {
        '1'
    } else if n == 2 {
        '2'
    } else if n == 3 {
        '3'
    } else if n == 4 {
        '4'
    } else if n == 5 {
        '5'
    } else if n == 6 {
        '6'
    } else if n == 7 {
        '7'
    } else if n == 8 {
        '8'
    } else {
        '9'
    }
}

/// `n` in decimal, without leading zeros.
pub open spec fn decimal(n: nat) -> Seq<char>
    decreases n,
{
    if n < 10 {
        seq![digit(n as int)]
    } else {
        decimal(n / 10).push(digit((n % 10) as int))
    }
}

/// `n` in decimal, with a leading zero below ten.
pub open spec fn two_digits(n: nat) -> Seq<char> {
    if n < 10 {
        seq!['0'] + decimal(n)
    } else {
        decimal(n)
    }
}

/// The decimal digit `n`.
pub fn digit_char(n: u64) -> (c: char)
    requires
        n < 10,
    ensures
        c == digit(n as int),
{
    match n {
        0 => '0',
        1 => '1',
        2 => '2',
        3 => '3',
        4 => '4',
        5 => '5',
        6 => '6',
        7 => '7',
        8 => '8',
        _ => '9',
    }
}

/// Appends `n` in decimal.
pub fn push_decimal(out: &mut String, n: u64)
    ensures
        final(out)@ == old(out)@ + decimal(n as nat),
    decreases n,
{
    if n >= 10 {
        push_decimal(out, n / 10);
    }
    out.push(digit_char(n % 10));
    assert(out@ =~= old(out)@ + decimal(n as nat));
}

/// Appends `n` in decimal, with a leading zero below ten.
pub fn push_two_digits(out: &mut String, n: u64)
    ensures
        final(out)@ == old(out)@ + two_digits(n as nat),
{
    if n < 10 {
        out.push('0');
    }
    push_decimal(out, n);
    assert(out@ =~= old(out)@ + two_digits(n as nat));
}

/// The lines of `text`.
pub fn split_lines(text: &str) -> (out: Vec<String>)
    ensures
        texts(out@) == lines(text@),
{
    let chars: Vec<char> = chars_of(text);
    let mut out: Vec<String> = Vec::new();
    let mut start: usize = 0;
    assert(chars@.skip(0) =~= chars@);
    assert(texts(out@) + lines(chars@.skip(0)) =~= lines(text@));
    while start < chars.len()
        invariant
            start <= chars@.len(),
            texts(out@) + lines(chars@.skip(start as int)) == lines(text@),
        decreases chars@.len() - start,
    {
        let ghost rest = chars@.skip(start as int);
        let ghost before = texts(out@);
        let mut end: usize = start;
        while end < chars.len() && chars[end] != '\n'
            invariant
                start <= end <= chars@.len(),
                forall|j: int| start <= j < end ==> chars@[j] != '\n',
            decreases chars@.len() - end,
        {
            end += 1;
        }
        if end == chars.len() {
            out.push(string_range(&chars, start, end));
            proof {
                assert(chars@.subrange(start as int, end as int) =~= rest);
                assert(!rest.contains('\n')) by {
                    if rest.contains('\n') {
                        let k = choose|k: int| 0 <= k < rest.len() && rest[k] == '\n';
                        assert(chars@[start + k] == '\n');
                    }
                }
                assert(texts(out@) =~= before + seq![rest]);
                assert(lines(chars@.skip(end as int)) =~= Seq::<Seq<char>>::empty());
                assert(texts(out@) + lines(chars@.skip(end as int)) =~= before + lines(rest));
            }
            start = end;
        } else {
            let cut: usize = if start < end && chars[end - 1] == '\r' {
                end - 1
            } else {
                end
            };
            out.push(string_range(&chars, start, cut));
            proof {
                let at = (end - start) as int;
                assert(rest[at] == '\n');
                assert(rest.contains('\n'));
                assert(forall|k: int| 0 <= k < at ==> rest[k] != '\n');
                rest.index_of_first_ensures('\n');
                let first = rest.index_of_first('\n')->0;
                assert(first == at) by {
                    if first < at {
                        assert(rest[first] != '\n');
                    }
                    if first > at {
                        assert(rest[at] == '\n');
                    }
                }
                assert(chars@.subrange(start as int, cut as int) =~= without_return(rest.take(at)));
                assert(rest.skip(at + 1) =~= chars@.skip(end + 1));
                assert(texts(out@) =~= before + seq![without_return(rest.take(at))]);
                assert(texts(out@) + lines(chars@.skip(end + 1)) =~= before + lines(rest));
            }
            start = end + 1;
        }
    }
    assert(lines(chars@.skip(start as int)) =~= Seq::<Seq<char>>::empty());
    assert(texts(out@) =~= lines(text@));
    out
}

/// Dropping the last piece takes it and its separator off the joined text.
pub proof fn lemma_join_last(pieces: Seq<Seq<char>>, separator: Seq<char>)
    requires
        pieces.len() >= 2,
    ensures
        join(pieces, separator) == join(pieces.drop_last(), separator) + separator + pieces.last(),
    decreases pieces.len(),
{
    if pieces.len() == 2 {
        assert(pieces.drop_first() =~= seq![pieces[1]]);
        assert(join(pieces.drop_first(), separator) =~= pieces[1]);
        assert(join(pieces.drop_last(), separator) =~= pieces[0]);
    } else {
        lemma_join_last(pieces.drop_first(), separator);
        assert(pieces.drop_first().drop_last() =~= pieces.drop_last().drop_first());
        assert(join(pieces, separator) =~= pieces[0] + separator + (join(
            pieces.drop_last().drop_first(),
            separator,
        ) + separator + pieces.last()));
        assert(join(pieces.drop_last(), separator) == pieces[0] + separator + join(
            pieces.drop_last().drop_first(),
            separator,
        ));
        assert(join(pieces, separator) =~= join(pieces.drop_last(), separator) + separator
            + pieces.last());
    }
}

/// The pieces with `separator` between each two neighbours.
pub fn join_texts(pieces: &Vec<String>, separator: &str) -> (out: String)
    ensures
        out@ == join(texts(pieces@), separator@),
{
    let mut out: String = String::new();
    let mut i: usize = 0;
    assert(texts(pieces@).take(0) =~= Seq::<Seq<char>>::empty());
    while i < pieces.len()
        invariant
            i <= pieces@.len(),
            out@ == join(texts(pieces@).take(i as int), separator@),
        decreases pieces@.len() - i,
    {
        let ghost done = texts(pieces@).take(i + 1);
        assert(done.drop_last() =~= texts(pieces@).take(i as int));
        assert(done.last() == pieces@[i as int]@);
        if i > 0 {
            proof {
                lemma_join_last(done, separator@);
            }
            out.append(separator);
        }
        out.append(pieces[i].as_str());
        assert(out@ =~= join(done, separator@));
        i += 1;
    }
    assert(texts(pieces@).take(i as int) =~= texts(pieces@));
    out
}

} // verus!
