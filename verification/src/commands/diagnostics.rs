//! `/ping`, `/health` and `/voice`.

use vstd::prelude::*;
use vstd::string::*;

use super::{channel_text, require_member};
use crate::commands;
use crate::commands::playback;
use crate::commands::playback::truncate_chars;
use crate::ids::{ChannelId, GuildId, UserId};
use crate::text::chars_of;
use crate::tools;
use crate::tools::{first_line, ToolRun};

verus! {

/// The most characters of a program's version or error that are shown.
pub const TOOL_VERSION_LIMIT: usize = 120;

/// Answers `/ping`.
pub fn ping() -> (reply: String)
    ensures
        reply@ == "Sonoryn is online."@,
{
    "Sonoryn is online.".to_owned()
}

/// Cuts a text after [`TOOL_VERSION_LIMIT`] characters.
pub fn compact(value: &str) -> (out: String)
    ensures
        out@ == playback::truncated(value@, TOOL_VERSION_LIMIT as nat),
{
    truncate_chars(value, TOOL_VERSION_LIMIT)
}

/// A character that ends inline code or begins a mention gives way to one that
/// only looks like it.
pub open spec fn inline_char(c: char) -> char {
    if c == '`' {
        'ˋ'
    } else if c == '@' {
        '＠'
    } else {
        c
    }
}

/// `s` as it can stand in inline code.
pub open spec fn inline_code(s: Seq<char>) -> Seq<char> {
    s.map_values(|c: char| inline_char(c))
}

/// Makes a text fit to stand in inline code.
pub fn escape_inline_code(value: &str) -> (out: String)
    ensures
        out@ == inline_code(value@),
{
    let chars: Vec<char> = chars_of(value);
    let mut out: String = String::new();
    let mut i: usize = 0;
    while i < chars.len()
        invariant
            i <= chars@.len(),
            chars@ == value@,
            out@ == inline_code(value@).take(i as int),
        decreases chars@.len() - i,
    {
        let c: char = chars[i];
        if c == '`' {
            out.push('ˋ');
        } else if c == '@' {
            out.push('＠');
        } else {
            out.push(c);
        }
        assert(out@ =~= inline_code(value@).take(i + 1));
        i += 1;
    }
    assert(inline_code(value@).take(i as int) =~= inline_code(value@));
    out
}

/// The first line that a program wrote and that is not blank, cut to the
/// limit.
pub open spec fn version_line(stdout: Seq<u8>, stderr: Seq<u8>) -> Option<Seq<char>> {
    match tools::first_written(stdout, stderr) {
        Some(line) => Some(playback::truncated(line, TOOL_VERSION_LIMIT as nat)),
        None => None,
    }
}

/// The first line that a program wrote and that is not blank, cut to the
/// limit.
pub fn first_output_line(stdout: &Vec<u8>, stderr: &Vec<u8>) -> (line: Option<String>)
    ensures
        match line {
            Some(line) => version_line(stdout@, stderr@) == Some(line@),
            None => version_line(stdout@, stderr@) is None,
        },
{
    match first_line(stdout, stderr) {
        Some(line) => Some(compact(line.as_str())),
        None => None,
    }
}

/// The state of a program that was run to ask for its version.
pub open spec fn tool_state(run: ToolRun) -> Seq<char> {
    match run {
        ToolRun::NotStarted(error) => "unavailable ("@ + playback::truncated(
            error@,
            TOOL_VERSION_LIMIT as nat,
        ) + ")"@,
        ToolRun::Failed(status) => "failed ("@ + status@ + ")"@,
        ToolRun::Finished { stdout, stderr } => match version_line(stdout@, stderr@) {
            Some(version) => "available — `"@ + inline_code(version) + "`"@,
            None => "available"@,
        },
    }
}

/// The state of a program that was run to ask for its version.
pub fn tool_health(run: &ToolRun) -> (state: String)
    ensures
        state@ == tool_state(*run),
{
    match run {
        ToolRun::NotStarted(error) => {
            let mut state: String = "unavailable (".to_owned();
            state.append(compact(error.as_str()).as_str());
            state.append(")");
            state
        },
        ToolRun::Failed(status) => {
            let mut state: String = "failed (".to_owned();
            state.append(status.as_str());
            state.append(")");
            state
        },
        ToolRun::Finished { stdout, stderr } => match first_output_line(stdout, stderr) {
            Some(version) => {
                let mut state: String = "available — `".to_owned();
                state.append(escape_inline_code(version.as_str()).as_str());
                state.append("`");
                state
            },
            None => "available".to_owned(),
        },
    }
}

/// Answers `/health`.
pub fn health(ytdlp: &ToolRun, ffmpeg: &ToolRun) -> (reply: String)
    ensures
        reply@ == "**Sonoryn health**\nGateway: online\nyt-dlp: "@ + tool_state(*ytdlp)
            + "\nFFmpeg: "@ + tool_state(*ffmpeg),
{
    let mut reply: String = "**Sonoryn health**\nGateway: online\nyt-dlp: ".to_owned();
    reply.append(tool_health(ytdlp).as_str());
    reply.append("\nFFmpeg: ");
    reply.append(tool_health(ffmpeg).as_str());
    reply
}

/// How `/voice` is answered.
pub open spec fn voice_answer(
    guild_id: Option<GuildId>,
    user_id: Option<UserId>,
    channel_id: Option<ChannelId>,
) -> Seq<char> {
    match commands::refusal(guild_id, user_id) {
        Some(reply) => reply,
        None => match channel_id {
            Some(channel_id) => commands::about_channel(
                "Your cached voice channel is <#"@,
                channel_id,
                ">."@,
            ),
            None => "I do not currently see you in a voice channel."@,
        },
    }
}

/// Answers `/voice`.
pub fn voice(
    guild_id: Option<GuildId>,
    user_id: Option<UserId>,
    channel_id: Option<ChannelId>,
) -> (reply: String)
    ensures
        reply@ == voice_answer(guild_id, user_id, channel_id),
{
    match require_member(guild_id, user_id) {
        Err(reply) => reply,
        Ok(_) => match channel_id {
            Some(channel_id) => channel_text("Your cached voice channel is <#", channel_id, ">."),
            None => "I do not currently see you in a voice channel.".to_owned(),
        },
    }
}

/// Text in inline code neither ends the code nor mentions anyone.
pub proof fn law_inline_code_stays_inline(s: Seq<char>)
    ensures
        !inline_code(s).contains('`'),
        !inline_code(s).contains('@'),
        inline_code(s).len() == s.len(),
{
}

/// Text in inline code differs from the text only where a backtick or an at
/// sign stood.
pub proof fn law_inline_code_reads_as_the_text(s: Seq<char>, i: int)
    requires
        0 <= i < s.len(),
    ensures
        s[i] != '`' && s[i] != '@' ==> inline_code(s)[i] == s[i],
        s[i] == '`' ==> inline_code(s)[i] == 'ˋ',
        s[i] == '@' ==> inline_code(s)[i] == '＠',
{
}

/// A program's state tells whether it could be run and whether it succeeded:
/// with the first line that it wrote, in code, or else with why not.
pub proof fn law_tool_state_tells_the_run(
    error: String,
    status: String,
    stdout: Vec<u8>,
    stderr: Vec<u8>,
)
    ensures
        error@.len() <= 120 ==> tool_state(ToolRun::NotStarted(error)) == "unavailable ("@ + error@
            + ")"@,
        error@.len() > 120 ==> tool_state(ToolRun::NotStarted(error)) == "unavailable ("@
            + error@.take(120).push('…') + ")"@,
        tool_state(ToolRun::Failed(status)) == "failed ("@ + status@ + ")"@,
        match tools::first_written(stdout@, stderr@) {
            None => tool_state(ToolRun::Finished { stdout, stderr }) == "available"@,
            Some(line) => {
                &&& line.len() <= 120 ==> tool_state(ToolRun::Finished { stdout, stderr })
                    == "available — `"@ + inline_code(line) + "`"@
                &&& line.len() > 120 ==> tool_state(ToolRun::Finished { stdout, stderr })
                    == "available — `"@ + inline_code(line.take(120).push('…')) + "`"@
            },
        },
{
}

} // verus!
