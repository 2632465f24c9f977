//! `/queue` and `/nowplaying`.

use vstd::prelude::*;
use vstd::string::*;

use super::require_guild;
use crate::clock;
use crate::ids::GuildId;
use crate::media::track::Track;
use crate::number;
use crate::number::format_clock;
use crate::player::{PlayerManager, PlayerSnapshot, PlayerState};
use crate::text;
use crate::text::{chars_of, push_decimal, trim_tail};

verus! {

/// How many queued tracks are listed.
pub const QUEUE_PREVIEW_LIMIT: usize = 10;

/// The most characters of a title or an artist that are shown.
pub const TRACK_TITLE_LIMIT: usize = 96;

/// The first `limit` characters of `s`, and a mark if there are more.
pub open spec fn truncated(s: Seq<char>, limit: nat) -> Seq<char> {
    if s.len() <= limit {
        s
    } else {
        s.take(limit as int).push('…')
    }
}

/// Cuts a text after `limit` characters.
pub fn truncate_chars(value: &str, limit: usize) -> (out: String)
    ensures
        out@ == truncated(value@, limit as nat),
{
    let chars: Vec<char> = chars_of(value);
    if chars.len() <= limit {
        return value.to_owned();
    }
    let mut out: String = text::string_range(&chars, 0, limit);
    assert(out@ =~= value@.take(limit as int));
    out.push('…');
    out
}

/// The character means something in Discord's markdown.
pub open spec fn is_markup(c: char) -> bool {
    c == '\\' || c == '*' || c == '_' || c == '~' || c == '`' || c == '>' || c == '|'
}

/// `s` with a backslash before every character that means something, and with
/// every at sign cut off from what follows.
pub open spec fn escaped(s: Seq<char>) -> Seq<char>
    decreases s.len(),
{
    if s.len() == 0 {
        s
    } else {
        let before = escaped(s.drop_last());
        if is_markup(s.last()) {
            before.push('\\').push(s.last())
        } else if s.last() == '@' {
            before.push('@').push('\u{200b}')
        } else {
            before.push(s.last())
        }
    }
}

/// Takes the meaning from markdown characters and mentions.
pub fn escape_markdown(value: &str) -> (out: String)
    ensures
        out@ == escaped(value@),
{
    let chars: Vec<char> = chars_of(value);
    let mut out: String = String::new();
    let mut i: usize = 0;
    assert(chars@.take(0) =~= Seq::empty());
    while i < chars.len()
        invariant
            i <= chars@.len(),
            out@ == escaped(chars@.take(i as int)),
        decreases chars@.len() - i,
    {
        assert(chars@.take(i + 1).drop_last() =~= chars@.take(i as int));
        let c: char = chars[i];
        if c == '\\' || c == '*' || c == '_' || c == '~' || c == '`' || c == '>' || c == '|' {
            out.push('\\');
            out.push(c);
        } else if c == '@' {
            out.push('@');
            out.push('\u{200b}');
        } else {
            out.push(c);
        }
        i += 1;
    }
    assert(chars@.take(i as int) =~= value@);
    out
}

/// Renders a length in seconds as `M:SS`, or as `H:MM:SS` from an hour on.
pub fn format_duration(total_seconds: u64) -> (out: String)
    ensures
        out@ == number::clock_text(total_seconds as nat),
{
    format_clock(total_seconds)
}

/// A track in a list: its title, its artist and its length, as far as they are
/// known, and who asked for it.
pub open spec fn track_label(track: Track) -> Seq<char> {
    "**"@ + escaped(truncated(track.metadata.title@, TRACK_TITLE_LIMIT as nat)) + "**"@ + (
    match track.metadata.artist {
        Some(artist) => " — "@ + escaped(truncated(artist@, TRACK_TITLE_LIMIT as nat)),
        None => Seq::empty(),
    }) + (match track.metadata.duration {
        Some(span) => " ("@ + number::clock_text(clock::whole_seconds(span)) + ")"@,
        None => Seq::empty(),
    }) + " · requested by user `"@ + text::decimal(track.requested_by.user_id.0 as nat) + "`"@
}

/// A track in a list.
pub fn format_track(track: &Track) -> (label: String)
    ensures
        label@ == track_label(*track),
{
    let title: String = truncate_chars(track.metadata.title.as_str(), TRACK_TITLE_LIMIT);
    let mut label: String = "**".to_owned();
    label.append(escape_markdown(title.as_str()).as_str());
    label.append("**");
    if let Some(artist) = &track.metadata.artist {
        let artist: String = truncate_chars(artist.as_str(), TRACK_TITLE_LIMIT);
        label.append(" — ");
        label.append(escape_markdown(artist.as_str()).as_str());
    }
    if let Some(span) = &track.metadata.duration {
        label.append(" (");
        label.append(format_duration(span.as_secs()).as_str());
        label.append(")");
    }
    label.append(" · requested by user `");
    push_decimal(&mut label, track.requested_by.user_id.get());
    label.append("`");
    assert(label@ =~= track_label(*track));
    label
}

/// The first `count` tracks of a queue, numbered from one, a line for each.
pub open spec fn listing(queue: Seq<Track>, count: nat) -> Seq<char>
    decreases count,
{
    if count == 0 {
        Seq::empty()
    } else {
        listing(queue, (count - 1) as nat) + text::decimal(count) + ". "@ + track_label(
            queue[count - 1],
        ) + "\n"@
    }
}

/// How many tracks of a queue are listed.
pub open spec fn listed(queue: Seq<Track>) -> nat {
    if queue.len() < QUEUE_PREVIEW_LIMIT {
        queue.len()
    } else {
        QUEUE_PREVIEW_LIMIT as nat
    }
}

/// The reply to `/queue`: the current track, the first queued ones and how
/// many there are beyond them.
pub open spec fn queue_text(now_playing: Option<Track>, queue: Seq<Track>) -> Seq<char> {
    if now_playing is None && queue.len() == 0 {
        "The queue is empty."@
    } else {
        let current = match now_playing {
            Some(track) => "Now playing: "@ + track_label(track) + "\n"@,
            None => Seq::empty(),
        };
        let upcoming = if queue.len() == 0 {
            Seq::empty()
        } else {
            (if current.len() > 0 {
                "\n"@
            } else {
                Seq::empty()
            }) + "Queue:\n"@ + listing(queue, listed(queue)) + (if queue.len()
                > QUEUE_PREVIEW_LIMIT {
                "… and "@ + text::decimal((queue.len() - QUEUE_PREVIEW_LIMIT) as nat) + " more."@
            } else {
                Seq::empty()
            })
        };
        text::trim_end(current + upcoming)
    }
}

/// The reply to `/queue`.
pub fn render_queue(snapshot: &PlayerSnapshot) -> (reply: String)
    ensures
        reply@ == queue_text(snapshot.now_playing, snapshot.queue@),
{
    if snapshot.is_idle() {
        return "The queue is empty.".to_owned();
    }
    let mut output: String = String::new();
    if let Some(track) = &snapshot.now_playing {
        output.append("Now playing: ");
        output.append(format_track(track).as_str());
        output.append("\n");
    }
    let ghost current = output@;
    proof {
        assert(current =~= match snapshot.now_playing {
            Some(track) => "Now playing: "@ + track_label(track) + "\n"@,
            None => Seq::empty(),
        });
    }
    if snapshot.queue.len() > 0 {
        if !output.as_str().is_empty() {
            output.append("\n");
        }
        output.append("Queue:\n");
        let ghost head = output@;
        let mut i: usize = 0;
        while i < snapshot.queue.len() && i < QUEUE_PREVIEW_LIMIT
            invariant
                i <= listed(snapshot.queue@),
                output@ == head + listing(snapshot.queue@, i as nat),
            decreases snapshot.queue@.len() - i,
        {
            let ghost before = output@;
            push_decimal(&mut output, i as u64 + 1);
            output.append(". ");
            output.append(format_track(&snapshot.queue[i]).as_str());
            output.append("\n");
            assert(output@ =~= head + listing(snapshot.queue@, (i + 1) as nat));
            i += 1;
        }
        if snapshot.queue.len() > QUEUE_PREVIEW_LIMIT {
            output.append("… and ");
            push_decimal(&mut output, (snapshot.queue.len() - QUEUE_PREVIEW_LIMIT) as u64);
            output.append(" more.");
        }
        proof {
            let queue = snapshot.queue@;
            let gap: Seq<char> = if current.len() > 0 {
                "\n"@
            } else {
                Seq::empty()
            };
            let more: Seq<char> = if queue.len() > QUEUE_PREVIEW_LIMIT {
                "… and "@ + text::decimal((queue.len() - QUEUE_PREVIEW_LIMIT) as nat) + " more."@
            } else {
                Seq::empty()
            };
            assert(output@ =~= current + (gap + "Queue:\n"@ + listing(queue, listed(queue))
                + more));
        }
    } else {
        assert(output@ =~= current + Seq::<char>::empty());
    }
    trim_tail(output.as_str()).to_owned()
}

/// Answers `/queue`.
pub fn queue(guild_id: Option<GuildId>, players: &PlayerManager) -> (reply: String)
    ensures
        reply@ == match guild_id {
            Some(guild_id) => queue_text(
                players.player(guild_id).now_playing,
                players.player(guild_id).queue,
            ),
            None => "This command can only be used in a server."@,
        },
{
    match require_guild(guild_id) {
        Ok(guild_id) => render_queue(&players.snapshot(guild_id)),
        Err(reply) => reply,
    }
}

/// The reply to `/nowplaying`.
pub open spec fn current_text(player: PlayerState) -> Seq<char> {
    match player.now_playing {
        Some(track) => "Now playing: "@ + track_label(track),
        None => "Nothing is playing right now."@,
    }
}

/// Answers `/nowplaying`.
pub fn nowplaying(guild_id: Option<GuildId>, players: &PlayerManager) -> (reply: String)
    ensures
        reply@ == match guild_id {
            Some(guild_id) => current_text(players.player(guild_id)),
            None => "This command can only be used in a server."@,
        },
{
    match require_guild(guild_id) {
        Ok(guild_id) => match players.snapshot(guild_id).now_playing {
            Some(track) => "Now playing: ".to_owned().concat(format_track(&track).as_str()),
            None => "Nothing is playing right now.".to_owned(),
        },
        Err(reply) => reply,
    }
}

/// No text can mention anyone: every at sign is followed by a character that
/// cuts it off.
pub proof fn law_no_mention_survives(s: Seq<char>, i: int)
    requires
        0 <= i < escaped(s).len(),
        escaped(s)[i] == '@',
    ensures
        i + 1 < escaped(s).len(),
        escaped(s)[i + 1] == '\u{200b}',
    decreases s.len(),
{
    let before = escaped(s.drop_last());
    if i < before.len() {
        law_no_mention_survives(s.drop_last(), i);
    }
}

/// A truncated text holds at most one character more than the limit.
pub proof fn law_truncation_keeps_to_the_limit(s: Seq<char>, limit: nat)
    ensures
        truncated(s, limit).len() <= limit + 1,
        s.len() <= limit ==> truncated(s, limit) == s,
        s.len() > limit ==> truncated(s, limit).last() == '…',
{
}

/// A truncated text begins as the text does, as far as the limit allows.
pub proof fn law_truncation_keeps_the_beginning(s: Seq<char>, limit: nat)
    requires
        s.len() > limit,
    ensures
        truncated(s, limit).take(limit as int) == s.take(limit as int),
        truncated(s, limit) == s.take(limit as int) + seq!['…'],
{
    assert(truncated(s, limit).take(limit as int) =~= s.take(limit as int));
    assert(truncated(s, limit) =~= s.take(limit as int) + seq!['…']);
}

/// Escaping goes character by character: a backslash comes before each of
/// those that mean something, an invisible space behind each at sign, and
/// every other character stays as it is.
pub proof fn law_escaping_is_by_character(left: Seq<char>, c: char, right: Seq<char>)
    ensures
        escaped(left + right) == escaped(left) + escaped(right),
        escaped(Seq::<char>::empty()).len() == 0,
        seq!['\\', '*', '_', '~', '`', '>', '|'].contains(c) ==> escaped(seq![c]) == seq!['\\', c],
        escaped(seq!['@']) == seq!['@', '\u{200b}'],
        !seq!['\\', '*', '_', '~', '`', '>', '|', '@'].contains(c) ==> escaped(seq![c]) == seq![c],
{
    lemma_escaped_concat(left, right);
    lemma_escaped_char(c);
    lemma_escaped_char('@');
    let marks = seq!['\\', '*', '_', '~', '`', '>', '|'];
    let all = seq!['\\', '*', '_', '~', '`', '>', '|', '@'];
    assert(marks[0] == '\\' && marks[1] == '*' && marks[2] == '_' && marks[3] == '~' && marks[4]
        == '`' && marks[5] == '>' && marks[6] == '|');
    assert(all[0] == '\\' && all[1] == '*' && all[2] == '_' && all[3] == '~' && all[4] == '`'
        && all[5] == '>' && all[6] == '|' && all[7] == '@');
    if marks.contains(c) {
        let k = marks.index_of(c);
        assert(marks[k] == c);
    }
}

proof fn lemma_escaped_char(c: char)
    ensures
        is_markup(c) ==> escaped(seq![c]) == seq!['\\', c],
        c == '@' ==> escaped(seq![c]) == seq!['@', '\u{200b}'],
        !is_markup(c) && c != '@' ==> escaped(seq![c]) == seq![c],
{
    assert(seq![c].drop_last() =~= Seq::empty());
    assert(seq![c].last() == c);
    assert(escaped(seq![c].drop_last()) =~= Seq::empty());
    if is_markup(c) {
        assert(escaped(seq![c]) =~= seq!['\\', c]);
    } else if c == '@' {
        assert(escaped(seq![c]) =~= seq!['@', '\u{200b}']);
    } else {
        assert(escaped(seq![c]) =~= seq![c]);
    }
}

proof fn lemma_escaped_concat(left: Seq<char>, right: Seq<char>)
    ensures
        escaped(left + right) == escaped(left) + escaped(right),
    decreases right.len(),
{
    if right.len() == 0 {
        assert(left + right =~= left);
        assert(escaped(left) + escaped(right) =~= escaped(left));
    } else {
        assert((left + right).drop_last() =~= left + right.drop_last());
        assert((left + right).last() == right.last());
        lemma_escaped_concat(left, right.drop_last());
        assert(escaped(left + right) =~= escaped(left) + escaped(right));
    }
}

/// A track is listed by its title in bold letters, by its artist and its length
/// where they are known, and by the user who asked for it.
pub proof fn law_label_tells_the_track(track: Track)
    ensures
        ({
            let label = track_label(track);
            let title = escaped(truncated(track.metadata.title@, 96));
            &&& (seq!['*', '*'] + title + seq!['*', '*']).is_prefix_of(label)
            &&& track.metadata.artist matches Some(artist) ==> text::occurs_at(
                label,
                " — "@ + escaped(truncated(artist@, 96)),
                (title.len() + 4) as int,
            )
            &&& track.metadata.duration matches Some(span) ==> text::contains(
                label,
                seq!['('] + number::clock_text(clock::whole_seconds(span)) + seq![')'],
            )
            &&& (text::decimal(track.requested_by.user_id.0 as nat) + seq!['`']).is_suffix_of(label)
        }),
{
    let label = track_label(track);
    let title = escaped(truncated(track.metadata.title@, 96));
    reveal_strlit("**");
    reveal_strlit("`");
    reveal_strlit(" (");
    reveal_strlit(")");
    reveal_strlit(" — ");
    assert("**"@ =~= seq!['*', '*']);
    let bold = "**"@ + title + "**"@;
    let by: Seq<char> = match track.metadata.artist {
        Some(artist) => " — "@ + escaped(truncated(artist@, TRACK_TITLE_LIMIT as nat)),
        None => Seq::empty(),
    };
    let long: Seq<char> = match track.metadata.duration {
        Some(span) => " ("@ + number::clock_text(clock::whole_seconds(span)) + ")"@,
        None => Seq::empty(),
    };
    let asked = " · requested by user `"@;
    let user = text::decimal(track.requested_by.user_id.0 as nat);
    assert(label =~= bold + by + long + asked + user + "`"@);
    assert(label.take(bold.len() as int) =~= bold);
    assert(bold =~= seq!['*', '*'] + title + seq!['*', '*']);
    assert(bold.is_prefix_of(label));
    assert(label.subrange(bold.len() as int, (bold.len() + by.len()) as int) =~= by);
    if track.metadata.duration is Some {
        let clock = number::clock_text(clock::whole_seconds(track.metadata.duration->0));
        let shown = seq!['('] + clock + seq![')'];
        let at = (bold.len() + by.len() + 1) as int;
        assert(label.subrange(at, at + shown.len()) =~= shown);
        assert(text::occurs_at(label, shown, at));
    }
    let end = user + seq!['`'];
    assert(label.subrange(label.len() - end.len(), label.len() as int) =~= end);
}

proof fn lemma_label_ends_in_text(track: Track)
    ensures
        track_label(track).len() > 0,
        track_label(track).last() == '`',
        !text::is_space('`'),
{
    reveal_strlit("`");
}

/// The queue before the end of the reply is trimmed, with as many tracks as
/// are listed.
spec fn untrimmed(now_playing: Option<Track>, queue: Seq<Track>) -> Seq<char> {
    let current = match now_playing {
        Some(track) => "Now playing: "@ + track_label(track) + "\n"@,
        None => Seq::empty(),
    };
    current + (if current.len() > 0 {
        "\n"@
    } else {
        Seq::empty()
    }) + "Queue:\n"@ + listing(queue, listed(queue))
}

proof fn lemma_listing_is_of_the_beginning(queue: Seq<Track>, other: Seq<Track>, count: nat)
    requires
        count <= queue.len(),
        count <= other.len(),
        queue.take(count as int) == other.take(count as int),
    ensures
        listing(queue, count) == listing(other, count),
    decreases count,
{
    if count > 0 {
        assert(queue[count - 1] == queue.take(count as int)[count - 1]);
        assert(other[count - 1] == other.take(count as int)[count - 1]);
        assert(queue.take(count - 1) =~= queue.take(count as int).take(count - 1));
        assert(other.take(count - 1) =~= other.take(count as int).take(count - 1));
        lemma_listing_is_of_the_beginning(queue, other, (count - 1) as nat);
    }
}

/// Up to ten queued tracks, the reply is all that was listed but the last line
/// feed.
proof fn lemma_short_queue(now_playing: Option<Track>, queue: Seq<Track>)
    requires
        0 < queue.len() <= 10,
    ensures
        queue_text(now_playing, queue) + seq!['\n'] == untrimmed(now_playing, queue),
        queue_text(now_playing, queue).len() > 0,
        queue_text(now_playing, queue).last() == '`',
{
    reveal_strlit("\n");
    reveal_strlit("`");
    let whole = untrimmed(now_playing, queue);
    let shown = whole.drop_last();
    lemma_label_ends_in_text(queue[queue.len() - 1]);
    let last = track_label(queue[queue.len() - 1]);
    let before = listing(queue, (queue.len() - 1) as nat) + text::decimal(queue.len()) + ". "@;
    assert(listing(queue, queue.len()) =~= before + last + "\n"@);
    assert(whole.last() == '\n');
    assert(shown.last() == last.last());
    assert(whole =~= shown + seq!['\n']);
    assert(text::is_space('\n'));
    text::laws::law_end_is_trimmed(shown, seq!['\n']);
    let current: Seq<char> = match now_playing {
        Some(track) => "Now playing: "@ + track_label(track) + "\n"@,
        None => Seq::empty(),
    };
    let gap: Seq<char> = if current.len() > 0 {
        "\n"@
    } else {
        Seq::empty()
    };
    assert(current + (gap + "Queue:\n"@ + listing(queue, listed(queue)) + Seq::<char>::empty())
        =~= whole);
}

/// While a track plays, the reply begins with it, whatever is queued. With
/// nothing queued that is the whole reply. The queue is told to be empty
/// exactly when nothing plays and nothing is queued.
pub proof fn law_queue_reply_begins_with_the_current_track(
    now_playing: Option<Track>,
    queue: Seq<Track>,
)
    ensures
        now_playing matches Some(track) ==> ("Now playing: "@ + track_label(track)).is_prefix_of(
            queue_text(now_playing, queue),
        ),
        now_playing is Some && queue.len() == 0 ==> queue_text(now_playing, queue)
            == "Now playing: "@ + track_label(now_playing->0),
        now_playing is None && queue.len() > 0 ==> "Queue:\n1. "@.is_prefix_of(
            queue_text(now_playing, queue),
        ),
        queue_text(now_playing, queue) == "The queue is empty."@ <==> now_playing is None
            && queue.len() == 0,
{
    reveal_strlit("The queue is empty.");
    reveal_strlit("Now playing: ");
    reveal_strlit("\n");
    reveal_strlit("Queue:\n1. ");
    reveal_strlit("Queue:\n");
    reveal_strlit(". ");
    let reply = queue_text(now_playing, queue);
    let upcoming: Seq<char> = if queue.len() == 0 {
        Seq::empty()
    } else {
        (if now_playing is Some {
            "\n"@
        } else {
            Seq::empty()
        }) + "Queue:\n"@ + listing(queue, listed(queue)) + (if queue.len() > QUEUE_PREVIEW_LIMIT {
            "… and "@ + text::decimal((queue.len() - QUEUE_PREVIEW_LIMIT) as nat) + " more."@
        } else {
            Seq::empty()
        })
    };
    match now_playing {
        Some(track) => {
            let label = track_label(track);
            let first = "Now playing: "@ + label;
            lemma_label_ends_in_text(track);
            assert(first.last() == label.last());
            let rest = "\n"@ + upcoming;
            assert(first + "\n"@ + upcoming =~= first + rest);
            text::laws::lemma_trim_end_behind(first, rest);
            assert(reply == first + text::trim_end(rest));
            assert(reply[0] == 'N');
            if queue.len() == 0 {
                assert(text::is_space('\n'));
                assert(rest =~= Seq::<char>::empty() + seq!['\n']);
                text::laws::law_end_is_trimmed(Seq::<char>::empty(), seq!['\n']);
                assert(reply =~= first);
            }
            assert(reply.take(first.len() as int) =~= first);
        },
        None => if queue.len() > 0 {
            let first = "Queue:\n1. "@;
            let label = track_label(queue[0]);
            lemma_listing_begins(queue, listed(queue));
            lemma_label_ends_in_text(queue[0]);
            let all = listing(queue, listed(queue));
            let item = "1. "@ + label;
            let more = all.skip(item.len() as int) + (if queue.len() > QUEUE_PREVIEW_LIMIT {
                "… and "@ + text::decimal((queue.len() - QUEUE_PREVIEW_LIMIT) as nat) + " more."@
            } else {
                Seq::empty()
            });
            reveal_strlit("1. ");
            let head = first + label;
            assert(head.last() == label.last());
            assert(all =~= item + all.skip(item.len() as int)) by {
                assert(all.subrange(0, item.len() as int) == item);
            }
            assert(head =~= "Queue:\n"@ + item);
            assert(Seq::<char>::empty() + upcoming =~= head + more);
            text::laws::lemma_trim_end_behind(head, more);
            assert(reply.take(first.len() as int) =~= first);
            assert(reply[0] == 'Q');
        },
    }
}

proof fn lemma_listing_begins(queue: Seq<Track>, count: nat)
    requires
        0 < count <= queue.len(),
    ensures
        ("1. "@ + track_label(queue[0])).is_prefix_of(listing(queue, count)),
    decreases count,
{
    reveal_strlit("1. ");
    reveal_strlit(". ");
    let first = "1. "@ + track_label(queue[0]);
    if count == 1 {
        assert(listing(queue, 0) =~= Seq::empty());
        assert(text::decimal(1) =~= seq!['1']);
        assert(listing(queue, 1).take(first.len() as int) =~= first);
    } else {
        lemma_listing_begins(queue, (count - 1) as nat);
        let before = listing(queue, (count - 1) as nat);
        assert(listing(queue, count).take(before.len() as int) =~= before);
        assert(listing(queue, count).take(first.len() as int) =~= before.take(first.len() as int));
    }
}

proof fn lemma_untrimmed_grows(now_playing: Option<Track>, queue: Seq<Track>, track: Track)
    requires
        0 < queue.len() < 10,
    ensures
        untrimmed(now_playing, queue.push(track)) == untrimmed(now_playing, queue) + text::decimal(
            queue.len() + 1,
        ) + seq!['.', ' '] + track_label(track) + seq!['\n'],
{
    reveal_strlit("\n");
    reveal_strlit(". ");
    let longer = queue.push(track);
    assert(longer.take(queue.len() as int) =~= queue.take(queue.len() as int));
    lemma_listing_is_of_the_beginning(longer, queue, queue.len());
    assert(". "@ =~= seq!['.', ' ']);
    assert("\n"@ =~= seq!['\n']);
    assert(longer[queue.len() as int] == track);
    assert(listing(longer, longer.len()) == listing(queue, queue.len()) + text::decimal(
        queue.len() + 1,
    ) + ". "@ + track_label(track) + "\n"@);
    assert(untrimmed(now_playing, longer) =~= untrimmed(now_playing, queue) + text::decimal(
        queue.len() + 1,
    ) + seq!['.', ' '] + track_label(track) + seq!['\n']);
}

proof fn lemma_line_is_added(
    before: Seq<char>,
    after: Seq<char>,
    number: Seq<char>,
    label: Seq<char>,
)
    requires
        after + seq!['\n'] == before + seq!['\n'] + number + seq!['.', ' '] + label + seq!['\n'],
    ensures
        after == before + seq!['\n'] + number + seq!['.', ' '] + label,
{
    assert((after + seq!['\n']).drop_last() =~= after);
    let longer = before + seq!['\n'] + number + seq!['.', ' '] + label;
    assert((longer + seq!['\n']).drop_last() =~= longer);
}

/// A track that joins a queue of fewer than ten is listed on a line of its own
/// behind the others, under the next number.
pub proof fn law_queued_tracks_are_listed_in_order(
    now_playing: Option<Track>,
    queue: Seq<Track>,
    track: Track,
)
    requires
        0 < queue.len() < 10,
    ensures
        queue_text(now_playing, queue.push(track)) == queue_text(now_playing, queue) + seq!['\n']
            + text::decimal(queue.len() + 1) + seq!['.', ' '] + track_label(track),
{
    let longer = queue.push(track);
    lemma_short_queue(now_playing, queue);
    lemma_short_queue(now_playing, longer);
    lemma_untrimmed_grows(now_playing, queue, track);
    lemma_line_is_added(
        queue_text(now_playing, queue),
        queue_text(now_playing, longer),
        text::decimal(queue.len() + 1),
        track_label(track),
    );
}

/// Of a longer queue the first ten tracks are listed, and how many there are
/// beyond them is told at the end.
pub proof fn law_tracks_beyond_ten_are_counted(now_playing: Option<Track>, queue: Seq<Track>)
    requires
        queue.len() > 10,
    ensures
        queue_text(now_playing, queue) == queue_text(now_playing, queue.take(10)) + "\n… and "@
            + text::decimal((queue.len() - 10) as nat) + " more."@,
{
    reveal_strlit("\n");
    reveal_strlit("\n… and ");
    reveal_strlit("… and ");
    reveal_strlit(" more.");
    let first = queue.take(10);
    lemma_short_queue(now_playing, first);
    assert(first.take(10) =~= queue.take(10));
    lemma_listing_is_of_the_beginning(queue, first, 10);
    let more = "… and "@ + text::decimal((queue.len() - 10) as nat) + " more."@;
    let whole = untrimmed(now_playing, first) + more;
    assert(whole.last() == '.');
    assert(!text::is_space('.'));
    let current: Seq<char> = match now_playing {
        Some(track) => "Now playing: "@ + track_label(track) + "\n"@,
        None => Seq::empty(),
    };
    let gap: Seq<char> = if current.len() > 0 {
        "\n"@
    } else {
        Seq::empty()
    };
    assert(current + (gap + "Queue:\n"@ + listing(queue, listed(queue)) + more) =~= whole);
    assert(text::trim_end(whole) == whole);
    assert(queue_text(now_playing, queue) == whole);
    assert(whole =~= queue_text(now_playing, first) + "\n… and "@ + text::decimal(
        (queue.len() - 10) as nat,
    ) + " more."@);
}

/// A single queued track is listed under its heading, behind the current track
/// if one plays.
pub proof fn law_single_queued_track_is_listed(now_playing: Option<Track>, track: Track)
    ensures
        queue_text(now_playing, seq![track]) == (match now_playing {
            Some(current) => "Now playing: "@ + track_label(current) + "\n\n"@,
            None => Seq::empty(),
        }) + "Queue:\n1. "@ + track_label(track),
{
    reveal_strlit("\n");
    reveal_strlit("\n\n");
    reveal_strlit("Queue:\n1. ");
    reveal_strlit("Queue:\n");
    reveal_strlit(". ");
    reveal_strlit("Now playing: ");
    lemma_short_queue(now_playing, seq![track]);
    assert(listing(seq![track], 0) =~= Seq::empty());
    assert(text::decimal(1) =~= seq!['1']);
    let expected = (match now_playing {
        Some(current) => "Now playing: "@ + track_label(current) + "\n\n"@,
        None => Seq::empty(),
    }) + "Queue:\n1. "@ + track_label(track);
    let whole = untrimmed(now_playing, seq![track]);
    let shown = queue_text(now_playing, seq![track]);
    assert(listing(seq![track], 1) =~= seq!['1'] + ". "@ + track_label(track) + "\n"@);
    assert(whole =~= expected + seq!['\n']);
    assert((shown + seq!['\n']).drop_last() =~= shown);
    assert((expected + seq!['\n']).drop_last() =~= expected);
}

/// While a track plays it is what is told to play; otherwise nothing is. What
/// is queued does not matter.
pub proof fn law_current_track_is_told(player: PlayerState)
    ensures
        player.now_playing matches Some(track) ==> current_text(player) == "Now playing: "@
            + track_label(track) && current_text(player) == queue_text(
            player.now_playing,
            Seq::<Track>::empty(),
        ),
        player.now_playing is None ==> current_text(player) == "Nothing is playing right now."@,
{
    law_queue_reply_begins_with_the_current_track(player.now_playing, Seq::<Track>::empty());
}

/// Of a track with neither artist nor length, title and user are all that is
/// told. An artist stands between the title and the rest, a length before the
/// user.
pub proof fn law_label_holds_nothing_else(track: Track)
    ensures
        ({
            let title = "**"@ + escaped(truncated(track.metadata.title@, 96)) + "**"@;
            let user = " · requested by user `"@ + text::decimal(
                track.requested_by.user_id.0 as nat,
            ) + "`"@;
            let artist = match track.metadata.artist {
                Some(artist) => 3 + escaped(truncated(artist@, 96)).len(),
                None => 0,
            };
            let length = match track.metadata.duration {
                Some(span) => 3 + number::clock_text(clock::whole_seconds(span)).len(),
                None => 0,
            };
            &&& track_label(track).len() == title.len() + artist + length + user.len()
            &&& track.metadata.artist is None && track.metadata.duration is None ==> track_label(
                track,
            ) == title + user
            &&& user.is_suffix_of(track_label(track))
        }),
{
    reveal_strlit(" — ");
    reveal_strlit(" (");
    reveal_strlit(")");
    let label = track_label(track);
    let title = "**"@ + escaped(truncated(track.metadata.title@, 96)) + "**"@;
    let user = " · requested by user `"@ + text::decimal(track.requested_by.user_id.0 as nat)
        + "`"@;
    assert(label.subrange(label.len() - user.len(), label.len() as int) =~= user);
    if track.metadata.artist is None && track.metadata.duration is None {
        assert(label =~= title + user);
    }
}

} // verus!
