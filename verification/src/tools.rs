//! What running an outside program came to.

use vstd::prelude::*;

use crate::text;
use crate::text::{lossy_text, split_lines, trim};

verus! {

/// A run of an outside program.
#[derive(Debug, PartialEq, Eq)]
pub enum ToolRun {
    /// The program could not be run.
    NotStarted(String),
    /// The program reported failure with this status.
    Failed(String),
    /// The program succeeded with this output.
    Finished { stdout: Vec<u8>, stderr: Vec<u8> },
}

/// The first line that is not blank, trimmed.
pub open spec fn first_filled(lines: Seq<Seq<char>>) -> Option<Seq<char>>
    decreases lines.len(),
{
    if lines.len() == 0 {
        None
    } else if text::trimmed(lines[0]).len() > 0 {
        Some(text::trimmed(lines[0]))
    } else {
        first_filled(lines.drop_first())
    }
}

/// The first line that a program wrote and that is not blank: on its standard
/// output, or else on its standard error.
pub open spec fn first_written(stdout: Seq<u8>, stderr: Seq<u8>) -> Option<Seq<char>> {
    first_filled(text::lines(text::utf8_lossy(stdout)) + text::lines(text::utf8_lossy(stderr)))
}

proof fn lemma_first_filled_of_two(first: Seq<Seq<char>>, second: Seq<Seq<char>>)
    ensures
        first_filled(first + second) == match first_filled(first) {
            Some(line) => Some(line),
            None => first_filled(second),
        },
    decreases first.len(),
{
    if first.len() == 0 {
        assert(first + second =~= second);
    } else {
        lemma_first_filled_of_two(first.drop_first(), second);
        assert((first + second).drop_first() =~= first.drop_first() + second);
    }
}

fn first_line_of(output: &Vec<u8>) -> (line: Option<String>)
    ensures
        match line {
            Some(line) => first_filled(text::lines(text::utf8_lossy(output@))) == Some(line@),
            None => first_filled(text::lines(text::utf8_lossy(output@))) is None,
        },
{
    let written: String = lossy_text(output.as_slice());
    let lines: Vec<String> = split_lines(written.as_str());
    let ghost all = text::lines(written@);
    let mut i: usize = 0;
    assert(all.skip(0) =~= all);
    while i < lines.len()
        invariant
            i <= lines@.len(),
            all == text::lines(text::utf8_lossy(output@)),
            text::texts(lines@) == all,
            first_filled(all) == first_filled(all.skip(i as int)),
        decreases lines@.len() - i,
    {
        assert(all.skip(i as int)[0] == text::texts(lines@)[i as int]);
        assert(all.skip(i as int).drop_first() =~= all.skip(i + 1));
        let line: &str = trim(lines[i].as_str());
        if !line.is_empty() {
            return Some(line.to_owned());
        }
        i += 1;
    }
    assert(all.len() == lines@.len());
    None
}

/// The first line that a program wrote and that is not blank.
pub fn first_line(stdout: &Vec<u8>, stderr: &Vec<u8>) -> (line: Option<String>)
    ensures
        match line {
            Some(line) => first_written(stdout@, stderr@) == Some(line@),
            None => first_written(stdout@, stderr@) is None,
        },
{
    proof {
        lemma_first_filled_of_two(
            text::lines(text::utf8_lossy(stdout@)),
            text::lines(text::utf8_lossy(stderr@)),
        );
    }
    match first_line_of(stdout) {
        Some(line) => Some(line),
        None => first_line_of(stderr),
    }
}

/// The line that is taken is the first on the standard output that is not
/// blank, without the white space around it; only if there is none it is that
/// of the standard error.
pub proof fn law_first_filled_line_is_taken(stdout: Seq<u8>, stderr: Seq<u8>)
    ensures
        ({
            let lines = text::lines(text::utf8_lossy(stdout)) + text::lines(
                text::utf8_lossy(stderr),
            );
            match first_written(stdout, stderr) {
                Some(line) => exists|i: int|
                    0 <= i < lines.len() && line == text::trimmed(#[trigger] lines[i])
                        && !text::laws::is_blank(lines[i]) && forall|j: int|
                        0 <= j < i ==> text::laws::is_blank(#[trigger] lines[j]),
                None => forall|i: int|
                    0 <= i < lines.len() ==> text::laws::is_blank(#[trigger] lines[i]),
            }
        }),
{
    lemma_first_filled_stands_first(
        text::lines(text::utf8_lossy(stdout)) + text::lines(text::utf8_lossy(stderr)),
    );
}

proof fn lemma_first_filled_stands_first(lines: Seq<Seq<char>>)
    ensures
        match first_filled(lines) {
            Some(line) => exists|i: int|
                0 <= i < lines.len() && line == text::trimmed(#[trigger] lines[i])
                    && !text::laws::is_blank(lines[i]) && forall|j: int|
                    0 <= j < i ==> text::laws::is_blank(#[trigger] lines[j]),
            None => forall|i: int| 0 <= i < lines.len() ==> text::laws::is_blank(#[trigger] lines[i]),
        },
    decreases lines.len(),
{
    if lines.len() > 0 {
        let rest = lines.drop_first();
        text::laws::law_trimmed_has_no_white_space_around(lines[0]);
        lemma_first_filled_stands_first(rest);
        assert(forall|j: int| 1 <= j < lines.len() ==> #[trigger] lines[j] == rest[j - 1]);
        if text::trimmed(lines[0]).len() > 0 {
            assert(!text::laws::is_blank(lines[0]));
        } else if first_filled(rest) is Some {
            let line = first_filled(rest)->0;
            let i = choose|i: int|
                0 <= i < rest.len() && line == text::trimmed(#[trigger] rest[i])
                    && !text::laws::is_blank(rest[i]) && forall|j: int|
                    0 <= j < i ==> text::laws::is_blank(#[trigger] rest[j]);
            assert(lines[i + 1] == rest[i]);
        }
    }
}

} // verus!
