//! `/seek` and `/volume`.

use std::time::Duration;

use vstd::prelude::*;
use vstd::string::*;

use super::{channel_text, require_member};
use crate::clock;
use crate::commands;
use crate::gateway_control::{Answer, GatewayControl, PlaybackAction, PlaybackControlResult};
use crate::ids::{ChannelId, GuildId, UserId};
use crate::number;
use crate::number::{format_clock, parse_u64};
use crate::text;
use crate::text::{push_decimal, split_char, trim};

verus! {

/// The number that a part of a clock time stands for.
pub open spec fn part_value(part: Seq<char>) -> Option<nat> {
    match number::number_value(part) {
        Ok(value) => Some(value as nat),
        Err(_) => None,
    }
}

/// The seconds that the parts of a clock time come to. Minutes and seconds
/// behind a larger unit stay below sixty.
pub open spec fn clock_seconds(parts: Seq<Seq<char>>) -> Option<nat> {
    if parts.len() == 1 {
        part_value(parts[0])
    } else if parts.len() == 2 {
        match (part_value(parts[0]), part_value(parts[1])) {
            (Some(minutes), Some(seconds)) => if seconds < 60 {
                Some(minutes * 60 + seconds)
            } else {
                None
            },
            _ => None,
        }
    } else if parts.len() == 3 {
        match (part_value(parts[0]), part_value(parts[1]), part_value(parts[2])) {
            (Some(hours), Some(minutes), Some(seconds)) => if minutes < 60 && seconds < 60 {
                Some(hours * 3_600 + minutes * 60 + seconds)
            } else {
                None
            },
            _ => None,
        }
    } else {
        None
    }
}

/// The position, in seconds, that a text stands for: seconds, `M:SS` or
/// `H:MM:SS`, as far as its milliseconds can be counted in 64 bits.
pub open spec fn seek_seconds(value: Seq<char>) -> Option<nat> {
    match clock_seconds(text::split(text::trimmed(value), ':')) {
        Some(seconds) if seconds * 1_000 <= u64::MAX => Some(seconds),
        _ => None,
    }
}

fn parse_part(part: &String) -> (value: Option<u64>)
    ensures
        match value {
            Some(value) => part_value(part@) == Some(value as nat),
            None => part_value(part@) is None,
        },
{
    match parse_u64(part.as_str()) {
        Ok(value) => Some(value),
        Err(_) => None,
    }
}

fn parse_total(parts: &Vec<String>) -> (total: Option<u64>)
    ensures
        match total {
            Some(total) => clock_seconds(text::texts(parts@)) == Some(total as nat),
            None => clock_seconds(text::texts(parts@)) is None || clock_seconds(
                text::texts(parts@),
            )->0 > u64::MAX,
        },
{
    assert(forall|i: int|
        0 <= i < parts@.len() ==> #[trigger] text::texts(parts@)[i] == parts@[i]@);
    if parts.len() == 1 {
        parse_part(&parts[0])
    } else if parts.len() == 2 {
        match (parse_part(&parts[0]), parse_part(&parts[1])) {
            (Some(minutes), Some(seconds)) => {
                if seconds >= 60 {
                    return None;
                }
                match minutes.checked_mul(60) {
                    Some(total) => total.checked_add(seconds),
                    None => None,
                }
            },
            _ => None,
        }
    } else if parts.len() == 3 {
        match (parse_part(&parts[0]), parse_part(&parts[1]), parse_part(&parts[2])) {
            (Some(hours), Some(minutes), Some(seconds)) => {
                if minutes >= 60 || seconds >= 60 {
                    return None;
                }
                match hours.checked_mul(3_600) {
                    Some(total) => match total.checked_add(minutes * 60) {
                        Some(total) => total.checked_add(seconds),
                        None => None,
                    },
                    None => None,
                }
            },
            _ => None,
        }
    } else {
        None
    }
}

/// The position that a text stands for.
pub fn parse_seek_position(value: &str) -> (position: Option<Duration>)
    ensures
        match position {
            Some(position) => seek_seconds(value@) is Some && clock::duration_nanos(position)
                == seek_seconds(value@)->0 * 1_000_000_000,
            None => seek_seconds(value@) is None,
        },
{
    let parts: Vec<String> = split_char(trim(value), ':');
    match parse_total(&parts) {
        Some(total) => match total.checked_mul(1_000) {
            Some(millis) => Some(Duration::from_millis(millis)),
            None => None,
        },
        None => None,
    }
}

/// Renders a position as a clock shows it.
pub fn format_position(position: Duration) -> (out: String)
    ensures
        out@ == number::clock_text(clock::whole_seconds(position)),
{
    format_clock(position.as_secs())
}

/// Why a playback control does not begin.
pub open spec fn control_refusal(
    guild_id: Option<GuildId>,
    user_id: Option<UserId>,
    channel_id: Option<ChannelId>,
) -> Option<Seq<char>> {
    match commands::refusal(guild_id, user_id) {
        Some(reply) => Some(reply),
        None => if channel_id is None {
            Some("Join my voice channel first to control playback."@)
        } else {
            None
        },
    }
}

/// Where a playback control was invoked, or the reply that ends it.
pub fn require_voice_channel(
    guild_id: Option<GuildId>,
    user_id: Option<UserId>,
    channel_id: Option<ChannelId>,
) -> (result: Result<(GuildId, ChannelId), String>)
    ensures
        match result {
            Ok((guild, channel)) => control_refusal(guild_id, user_id, channel_id) is None
                && guild_id == Some(guild) && channel_id == Some(channel),
            Err(reply) => control_refusal(guild_id, user_id, channel_id) == Some(reply@),
        },
{
    match require_member(guild_id, user_id) {
        Err(reply) => Err(reply),
        Ok((guild, _)) => match channel_id {
            None => Err("Join my voice channel first to control playback.".to_owned()),
            Some(channel) => Ok((guild, channel)),
        },
    }
}

/// `/seek` with a request to send.
#[derive(Debug)]
pub struct SeekCommand {
    pub control: GatewayControl,
    pub position: Duration,
}

/// Why `/seek` does not begin.
pub open spec fn seek_refusal(
    position: Seq<char>,
    guild_id: Option<GuildId>,
    user_id: Option<UserId>,
    channel_id: Option<ChannelId>,
) -> Option<Seq<char>> {
    if seek_seconds(position) is None {
        Some("Use a seek position like `90`, `1:30`, or `1:02:03`."@)
    } else {
        control_refusal(guild_id, user_id, channel_id)
    }
}

/// Begins `/seek`: the request to send to the Gateway task.
pub fn seek(
    position: &str,
    guild_id: Option<GuildId>,
    user_id: Option<UserId>,
    channel_id: Option<ChannelId>,
) -> (result: Result<SeekCommand, String>)
    ensures
        match result {
            Ok(command) => {
                &&& seek_refusal(position@, guild_id, user_id, channel_id) is None
                &&& clock::duration_nanos(command.position) == seek_seconds(position@)->0
                    * 1_000_000_000
                &&& command.control == (GatewayControl::Playback {
                    guild_id: guild_id->0,
                    channel_id: channel_id->0,
                    action: PlaybackAction::Seek {
                        position_millis: (seek_seconds(position@)->0 * 1_000) as u64,
                    },
                })
            },
            Err(reply) => seek_refusal(position@, guild_id, user_id, channel_id) == Some(reply@),
        },
{
    let place: Duration = match parse_seek_position(position) {
        Some(place) => place,
        None => {
            return Err("Use a seek position like `90`, `1:30`, or `1:02:03`.".to_owned());
        },
    };
    let position_millis: u64 = place.as_secs() * 1_000;
    match require_voice_channel(guild_id, user_id, channel_id) {
        Ok((guild_id, channel_id)) => Ok(
            SeekCommand {
                control: GatewayControl::Playback {
                    guild_id,
                    channel_id,
                    action: PlaybackAction::Seek { position_millis },
                },
                position: place,
            },
        ),
        Err(reply) => Err(reply),
    }
}

impl SeekCommand {
    /// How `/seek` is answered.
    pub open spec fn answer(self, result: PlaybackControlResult) -> Seq<char> {
        match result {
            PlaybackControlResult::Accepted => "Seeked to **"@ + number::clock_text(
                clock::whole_seconds(self.position),
            ) + "**."@,
            PlaybackControlResult::NothingPlaying => "Nothing is playing right now."@,
            PlaybackControlResult::NotConnected => "I am not connected to voice here."@,
            PlaybackControlResult::WrongVoiceChannel { channel_id } => commands::about_channel(
                "I am connected to <#"@,
                channel_id,
                ">. Join that channel to control playback."@,
            ),
            PlaybackControlResult::AlreadyPaused | PlaybackControlResult::AlreadyPlaying =>
                "The voice worker rejected the seek request."@,
            PlaybackControlResult::Failed(failure) => failure.message(),
        }
    }

    /// Answers `/seek`.
    pub fn answered(self, answer: Answer<PlaybackControlResult>) -> (reply: String)
        ensures
            reply@ == self.answer(answer.outcome()),
    {
        match answer.playback_result() {
            PlaybackControlResult::Accepted => {
                let mut reply: String = "Seeked to **".to_owned();
                reply.append(format_position(self.position).as_str());
                reply.append("**.");
                reply
            },
            PlaybackControlResult::NothingPlaying => "Nothing is playing right now.".to_owned(),
            PlaybackControlResult::NotConnected => "I am not connected to voice here.".to_owned(),
            PlaybackControlResult::WrongVoiceChannel { channel_id } => channel_text(
                "I am connected to <#",
                channel_id,
                ">. Join that channel to control playback.",
            ),
            PlaybackControlResult::AlreadyPaused | PlaybackControlResult::AlreadyPlaying => {
                "The voice worker rejected the seek request.".to_owned()
            },
            PlaybackControlResult::Failed(failure) => failure.text(),
        }
    }
}

/// `/volume` with a request to send.
#[derive(Debug)]
pub struct VolumeCommand {
    pub control: GatewayControl,
    pub percent: u8,
}

/// Why `/volume` does not begin.
pub open spec fn volume_refusal(
    percent: i64,
    guild_id: Option<GuildId>,
    user_id: Option<UserId>,
    channel_id: Option<ChannelId>,
) -> Option<Seq<char>> {
    if !(0 <= percent <= 100) {
        Some("Volume must be between 0 and 100 percent."@)
    } else {
        control_refusal(guild_id, user_id, channel_id)
    }
}

/// Begins `/volume`: the request to send to the Gateway task.
pub fn volume(
    percent: i64,
    guild_id: Option<GuildId>,
    user_id: Option<UserId>,
    channel_id: Option<ChannelId>,
) -> (result: Result<VolumeCommand, String>)
    ensures
        match result {
            Ok(command) => {
                &&& volume_refusal(percent, guild_id, user_id, channel_id) is None
                &&& command.percent == percent
                &&& command.control == (GatewayControl::Playback {
                    guild_id: guild_id->0,
                    channel_id: channel_id->0,
                    action: PlaybackAction::Volume { percent: command.percent },
                })
            },
            Err(reply) => volume_refusal(percent, guild_id, user_id, channel_id) == Some(reply@),
        },
{
    if percent < 0 || percent > 100 {
        return Err("Volume must be between 0 and 100 percent.".to_owned());
    }
    let percent: u8 = percent as u8;
    match require_voice_channel(guild_id, user_id, channel_id) {
        Ok((guild_id, channel_id)) => Ok(
            VolumeCommand {
                control: GatewayControl::Playback {
                    guild_id,
                    channel_id,
                    action: PlaybackAction::Volume { percent },
                },
                percent,
            },
        ),
        Err(reply) => Err(reply),
    }
}

impl VolumeCommand {
    /// How `/volume` is answered.
    pub open spec fn answer(self, result: PlaybackControlResult) -> Seq<char> {
        let set = "Volume set to **"@ + text::decimal(self.percent as nat);
        match result {
            PlaybackControlResult::Accepted => set + "%**."@,
            PlaybackControlResult::NothingPlaying => set + "%** for the next track."@,
            PlaybackControlResult::NotConnected => "I am not connected to voice here."@,
            PlaybackControlResult::WrongVoiceChannel { channel_id } => commands::about_channel(
                "I am connected to <#"@,
                channel_id,
                ">. Join that channel to control playback."@,
            ),
            PlaybackControlResult::AlreadyPaused | PlaybackControlResult::AlreadyPlaying =>
                "The voice worker rejected the volume request."@,
            PlaybackControlResult::Failed(failure) => failure.message(),
        }
    }

    /// Answers `/volume`.
    pub fn answered(self, answer: Answer<PlaybackControlResult>) -> (reply: String)
        ensures
            reply@ == self.answer(answer.outcome()),
    {
        match answer.playback_result() {
            PlaybackControlResult::Accepted => {
                let mut reply: String = "Volume set to **".to_owned();
                push_decimal(&mut reply, self.percent as u64);
                reply.append("%**.");
                reply
            },
            PlaybackControlResult::NothingPlaying => {
                let mut reply: String = "Volume set to **".to_owned();
                push_decimal(&mut reply, self.percent as u64);
                reply.append("%** for the next track.");
                reply
            },
            PlaybackControlResult::NotConnected => "I am not connected to voice here.".to_owned(),
            PlaybackControlResult::WrongVoiceChannel { channel_id } => channel_text(
                "I am connected to <#",
                channel_id,
                ">. Join that channel to control playback.",
            ),
            PlaybackControlResult::AlreadyPaused | PlaybackControlResult::AlreadyPlaying => {
                "The voice worker rejected the volume request.".to_owned()
            },
            PlaybackControlResult::Failed(failure) => failure.text(),
        }
    }
}

proof fn lemma_two_digits_read_back(n: nat)
    requires
        n < 60,
    ensures
        part_value(text::two_digits(n)) == Some(n),
        forall|i: int|
            0 <= i < text::two_digits(n).len() ==> '0' <= #[trigger] text::two_digits(n)[i] <= '9',
{
    number::law_number_is_read_back(n);
    if n < 10 {
        let written = text::two_digits(n);
        assert(written[0] == '0');
        assert(written != seq!['+']) by {
            assert(seq!['+'][0] == '+');
        }
        assert(written.drop_first() =~= text::decimal(n));
    }
}

proof fn lemma_split_in_two(first: Seq<char>, rest: Seq<char>)
    requires
        forall|i: int| 0 <= i < first.len() ==> '0' <= #[trigger] first[i] <= '9',
    ensures
        text::split(first + ":"@ + rest, ':') == seq![first] + text::split(rest, ':'),
{
    reveal_strlit(":");
    let whole = first + ":"@ + rest;
    let end = first.len() as int;
    assert(whole[end] == ':');
    assert forall|j: int| 0 <= j < end implies whole[j] != ':' by {
        assert(whole[j] == first[j]);
    }
    text::lemma_split_at(whole, ':', end);
    assert(whole.take(end) =~= first);
    assert(whole.skip(end + 1) =~= rest);
}

proof fn lemma_digits_are_trimmed(s: Seq<char>)
    requires
        s.len() > 0,
        !text::is_space(s[0]),
        !text::is_space(s.last()),
    ensures
        text::trimmed(s) == s,
{
}

proof fn lemma_last_part(tail: Seq<char>)
    requires
        tail.len() > 0,
        forall|i: int| 0 <= i < tail.len() ==> '0' <= #[trigger] tail[i] <= '9',
    ensures
        text::split(tail, ':') == seq![tail],
        !text::is_space(tail[0]),
        !text::is_space(tail.last()),
{
    if tail.contains(':') {
        let j = tail.index_of(':');
        assert(tail[j] == ':');
    }
}

/// A clock time with minutes and seconds is read back.
proof fn lemma_minutes_are_read_back(minutes: nat, rest: nat)
    requires
        minutes < 60,
        rest < 60,
    ensures
        ({
            let clock = text::decimal(minutes) + ":"@ + text::two_digits(rest);
            clock_seconds(text::split(text::trimmed(clock), ':')) == Some(minutes * 60 + rest)
        }),
{
    let first = text::decimal(minutes);
    let tail = text::two_digits(rest);
    let clock = first + ":"@ + tail;
    number::law_number_is_read_back(minutes);
    lemma_two_digits_read_back(rest);
    lemma_last_part(tail);
    lemma_last_part(first);
    lemma_split_in_two(first, tail);
    assert(clock[0] == first[0]);
    assert(clock.last() == tail.last());
    lemma_digits_are_trimmed(clock);
    let parts = text::split(clock, ':');
    assert(parts =~= seq![first, tail]);
    assert(parts[0] == first && parts[1] == tail);
}

/// A clock time with hours, minutes and seconds is read back.
proof fn lemma_hours_are_read_back(hours: nat, minutes: nat, rest: nat)
    requires
        hours <= u64::MAX,
        minutes < 60,
        rest < 60,
    ensures
        ({
            let clock = text::decimal(hours) + ":"@ + text::two_digits(minutes) + ":"@
                + text::two_digits(rest);
            clock_seconds(text::split(text::trimmed(clock), ':')) == Some(
                hours * 3_600 + minutes * 60 + rest,
            )
        }),
{
    let first = text::decimal(hours);
    let middle = text::two_digits(minutes);
    let tail = text::two_digits(rest);
    let clock = first + ":"@ + middle + ":"@ + tail;
    number::law_number_is_read_back(hours);
    lemma_two_digits_read_back(minutes);
    lemma_two_digits_read_back(rest);
    lemma_last_part(tail);
    lemma_last_part(first);
    assert(clock =~= first + ":"@ + (middle + ":"@ + tail));
    lemma_split_in_two(first, middle + ":"@ + tail);
    lemma_split_in_two(middle, tail);
    assert(clock[0] == first[0]);
    assert(clock.last() == tail.last());
    lemma_digits_are_trimmed(clock);
    let parts = text::split(clock, ':');
    assert(parts =~= seq![first, middle, tail]);
    assert(parts[0] == first && parts[1] == middle && parts[2] == tail);
}

/// A position that is shown is read back as it was.
pub proof fn law_shown_position_is_read_back(seconds: nat)
    requires
        seconds * 1_000 <= u64::MAX,
    ensures
        seek_seconds(number::clock_text(seconds)) == Some(seconds),
{
    let hours = seconds / 3_600;
    let minutes = (seconds % 3_600) / 60;
    let rest = seconds % 60;
    if hours > 0 {
        lemma_hours_are_read_back(hours, minutes, rest);
    } else {
        lemma_minutes_are_read_back(minutes, rest);
    }
}

/// A plain number of seconds is read as that many seconds, however large, as
/// long as its milliseconds can be counted.
pub proof fn law_plain_seconds_are_read(n: nat)
    requires
        n <= u64::MAX,
    ensures
        n * 1_000 <= u64::MAX ==> seek_seconds(text::decimal(n)) == Some(n),
        n * 1_000 > u64::MAX ==> seek_seconds(text::decimal(n)) is None,
{
    let written = text::decimal(n);
    number::law_number_is_read_back(n);
    lemma_last_part(written);
    lemma_digits_are_trimmed(written);
    assert(seq![written][0] == written);
}

/// The digits of one part are read as their number.
proof fn lemma_part_is_read(part: Seq<char>)
    requires
        part.len() > 0,
        number::all_digits(part),
        number::place_value(part) <= u64::MAX,
    ensures
        part_value(part) == Some(number::place_value(part)),
{
    number::law_digits_stand_for_their_value(part, part);
}

proof fn lemma_two_parts(first: Seq<char>, tail: Seq<char>)
    requires
        first.len() > 0,
        tail.len() > 0,
        number::all_digits(first),
        number::all_digits(tail),
    ensures
        text::split(text::trimmed(first + seq![':'] + tail), ':') == seq![first, tail],
{
    reveal_strlit(":");
    assert(":"@ =~= seq![':']);
    let clock = first + ":"@ + tail;
    lemma_last_part(tail);
    lemma_last_part(first);
    lemma_split_in_two(first, tail);
    assert(clock[0] == first[0]);
    assert(clock.last() == tail.last());
    lemma_digits_are_trimmed(clock);
    assert(text::split(clock, ':') =~= seq![first, tail]);
}

proof fn lemma_three_parts(first: Seq<char>, middle: Seq<char>, tail: Seq<char>)
    requires
        first.len() > 0,
        middle.len() > 0,
        tail.len() > 0,
        number::all_digits(first),
        number::all_digits(middle),
        number::all_digits(tail),
    ensures
        text::split(text::trimmed(first + seq![':'] + middle + seq![':'] + tail), ':') == seq![
            first,
            middle,
            tail,
        ],
{
    reveal_strlit(":");
    assert(":"@ =~= seq![':']);
    let clock = first + ":"@ + middle + ":"@ + tail;
    lemma_last_part(tail);
    lemma_last_part(first);
    assert(clock =~= first + ":"@ + (middle + ":"@ + tail));
    lemma_split_in_two(first, middle + ":"@ + tail);
    lemma_split_in_two(middle, tail);
    assert(clock[0] == first[0]);
    assert(clock.last() == tail.last());
    lemma_digits_are_trimmed(clock);
    assert(text::split(clock, ':') =~= seq![first, middle, tail]);
}

/// Minutes and seconds are read whether or not they are padded, with any
/// number of minutes; sixty seconds or more are refused.
pub proof fn law_minutes_and_seconds_are_read(first: Seq<char>, tail: Seq<char>)
    requires
        first.len() > 0,
        tail.len() > 0,
        number::all_digits(first),
        number::all_digits(tail),
        number::place_value(first) <= u64::MAX,
        number::place_value(tail) <= u64::MAX,
    ensures
        ({
            let total = number::place_value(first) * 60 + number::place_value(tail);
            let read = seek_seconds(first + seq![':'] + tail);
            &&& number::place_value(tail) < 60 && total * 1_000 <= u64::MAX ==> read == Some(total)
            &&& number::place_value(tail) >= 60 || total * 1_000 > u64::MAX ==> read is None
        }),
{
    lemma_two_parts(first, tail);
    lemma_part_is_read(first);
    lemma_part_is_read(tail);
    assert(seq![first, tail][0] == first && seq![first, tail][1] == tail);
}

/// Hours, minutes and seconds are read with any number of hours; sixty minutes
/// or seconds or more are refused.
pub proof fn law_hours_minutes_and_seconds_are_read(
    first: Seq<char>,
    middle: Seq<char>,
    tail: Seq<char>,
)
    requires
        first.len() > 0,
        middle.len() > 0,
        tail.len() > 0,
        number::all_digits(first),
        number::all_digits(middle),
        number::all_digits(tail),
        number::place_value(first) <= u64::MAX,
        number::place_value(middle) <= u64::MAX,
        number::place_value(tail) <= u64::MAX,
    ensures
        ({
            let minutes = number::place_value(middle);
            let seconds = number::place_value(tail);
            let total = number::place_value(first) * 3_600 + minutes * 60 + seconds;
            let read = seek_seconds(first + seq![':'] + middle + seq![':'] + tail);
            &&& minutes < 60 && seconds < 60 && total * 1_000 <= u64::MAX ==> read == Some(total)
            &&& minutes >= 60 || seconds >= 60 || total * 1_000 > u64::MAX ==> read is None
        }),
{
    lemma_three_parts(first, middle, tail);
    lemma_part_is_read(first);
    lemma_part_is_read(middle);
    lemma_part_is_read(tail);
    let parts = seq![first, middle, tail];
    assert(parts[0] == first && parts[1] == middle && parts[2] == tail);
}

/// A position is read only from one to three parts between colons, each of
/// them a number. White space around the whole does not matter.
pub proof fn law_positions_have_up_to_three_parts(
    head: Seq<char>,
    value: Seq<char>,
    tail: Seq<char>,
)
    requires
        value.len() > 0,
        !text::is_space(value[0]),
        !text::is_space(value.last()),
        text::laws::is_blank(head),
        text::laws::is_blank(tail),
    ensures
        seek_seconds(head + value + tail) == seek_seconds(value),
        seek_seconds(value) is Some ==> ({
            let parts = text::split(value, ':');
            &&& 1 <= parts.len() <= 3
            &&& forall|i: int|
                0 <= i < parts.len() ==> number::number_value(#[trigger] parts[i]) is Ok
        }),
{
    text::laws::law_white_space_around_is_trimmed(head, value, tail);
    lemma_digits_are_trimmed(value);
}

/// A volume is taken exactly from zero to a hundred percent, from a member of
/// a server who is in a voice channel. It is asked for as it was given, for
/// that server and channel.
pub proof fn law_volume_is_a_percentage(
    percent: i64,
    guild_id: Option<GuildId>,
    user_id: Option<UserId>,
    channel_id: Option<ChannelId>,
)
    ensures
        volume_refusal(percent, guild_id, user_id, channel_id) is None <==> 0 <= percent <= 100
            && guild_id is Some && user_id is Some && channel_id is Some,
        percent < 0 || percent > 100 ==> volume_refusal(percent, guild_id, user_id, channel_id)
            == Some("Volume must be between 0 and 100 percent."@),
{
}

} // verus!
