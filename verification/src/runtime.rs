//! Start-up checks and the bookkeeping of the Gateway loop.

use std::time::Duration;

use vstd::prelude::*;
use vstd::string::*;

use crate::clock;
use crate::ids::{GuildId, UserId};
use crate::metrics::{Metrics, MetricsSnapshot};
use crate::number;
use crate::number::parse_u64;
use crate::text;
use crate::text::chars_of;
use crate::tools;
use crate::tools::{first_line, ToolRun};

verus! {

/// How many control requests may wait for the Gateway task.
pub const GATEWAY_CONTROL_CAPACITY: usize = 64;

/// How many commands may run at once.
pub const COMMAND_CONCURRENCY: usize = 64;

/// The most characters of a program's version that are logged.
pub const TOOL_VERSION_LIMIT: usize = 160;

/// Where slash commands are registered.
#[derive(Debug, Clone, Copy, PartialEq, Eq, Structural)]
pub enum Registration {
    Global,
    Guild(GuildId),
    Skipped,
}

/// Where slash commands are registered, given the development guild from the
/// environment: in that guild, or everywhere where none is set.
pub fn registration_from(dev_guild: Option<&str>) -> (result: Result<Registration, String>)
    ensures
        match dev_guild {
            None => result == Ok::<Registration, String>(Registration::Global),
            Some(value) => match number::number_value(value@) {
                Ok(id) => result == Ok::<Registration, String>(Registration::Guild(GuildId(id))),
                Err(fault) => result is Err && result->Err_0@ == "invalid SONORYN_DEV_GUILD_ID: "@
                    + fault.message(),
            },
        },
{
    match dev_guild {
        None => Ok(Registration::Global),
        Some(value) => match parse_u64(value) {
            Ok(id) => Ok(Registration::Guild(GuildId::new(id))),
            Err(fault) => Err(
                "invalid SONORYN_DEV_GUILD_ID: ".to_owned().concat(fault.text().as_str()),
            ),
        },
    }
}

/// The first `limit` characters of a text.
pub open spec fn beginning(s: Seq<char>, limit: nat) -> Seq<char> {
    if s.len() <= limit {
        s
    } else {
        s.take(limit as int)
    }
}

/// The version line that is logged.
pub open spec fn version_line(stdout: Seq<u8>, stderr: Seq<u8>) -> Option<Seq<char>> {
    match tools::first_written(stdout, stderr) {
        Some(line) => Some(beginning(line, TOOL_VERSION_LIMIT as nat)),
        None => None,
    }
}

/// The first line that a program wrote and that is not blank, cut to the
/// limit.
pub fn first_output_line(stdout: &Vec<u8>, stderr: &Vec<u8>) -> (line: Option<String>)
    ensures
        match line {
            Some(line) => version_line(stdout@, stderr@) == Some(line@),
            None => version_line(stdout@, stderr@) is None,
        },
{
    match first_line(stdout, stderr) {
        Some(line) => {
            let chars: Vec<char> = chars_of(line.as_str());
            if chars.len() <= TOOL_VERSION_LIMIT {
                Some(line)
            } else {
                let cut: String = text::string_range(&chars, 0, TOOL_VERSION_LIMIT);
                assert(cut@ =~= line@.take(TOOL_VERSION_LIMIT as int));
                Some(cut)
            }
        },
        None => None,
    }
}

/// Why a required program cannot be used.
pub open spec fn dependency_fault(binary: Seq<char>, run: ToolRun) -> Option<Seq<char>> {
    match run {
        ToolRun::NotStarted(error) => Some(
            "required runtime dependency `"@ + binary + "` is not available on PATH: "@ + error@,
        ),
        ToolRun::Failed(status) => Some(
            "runtime dependency `"@ + binary + "` failed its startup check with status "@
                + status@,
        ),
        ToolRun::Finished { .. } => None,
    }
}

/// Judges the start-up check of a required program: the version line to log,
/// or the error that ends the start-up.
pub fn verify_runtime_dependency(binary: &str, run: &ToolRun) -> (result: Result<
    Option<String>,
    String,
>)
    ensures
        match result {
            Err(error) => dependency_fault(binary@, *run) == Some(error@),
            Ok(version) => {
                &&& dependency_fault(binary@, *run) is None
                &&& run matches ToolRun::Finished { stdout, stderr }
                &&& match version {
                    Some(line) => version_line(stdout@, stderr@) == Some(line@),
                    None => version_line(stdout@, stderr@) is None,
                }
            },
        },
{
    match run {
        ToolRun::NotStarted(error) => {
            let mut fault: String = "required runtime dependency `".to_owned();
            fault.append(binary);
            fault.append("` is not available on PATH: ");
            fault.append(error.as_str());
            Err(fault)
        },
        ToolRun::Failed(status) => {
            let mut fault: String = "runtime dependency `".to_owned();
            fault.append(binary);
            fault.append("` failed its startup check with status ");
            fault.append(status.as_str());
            Err(fault)
        },
        ToolRun::Finished { stdout, stderr } => Ok(first_output_line(stdout, stderr)),
    }
}

/// The first fault of the programs that the bot needs: `yt-dlp` is judged
/// before `ffmpeg`.
pub open spec fn startup_fault(ytdlp: ToolRun, ffmpeg: ToolRun) -> Option<Seq<char>> {
    match dependency_fault("yt-dlp"@, ytdlp) {
        Some(fault) => Some(fault),
        None => dependency_fault("ffmpeg"@, ffmpeg),
    }
}

/// Judges the start-up checks of both programs that the bot needs.
pub fn verify_runtime_dependencies(ytdlp: &ToolRun, ffmpeg: &ToolRun) -> (result: Result<(), String>)
    ensures
        match result {
            Ok(_) => startup_fault(*ytdlp, *ffmpeg) is None,
            Err(error) => startup_fault(*ytdlp, *ffmpeg) == Some(error@),
        },
        result is Ok <==> ytdlp is Finished && ffmpeg is Finished,
{
    match verify_runtime_dependency("yt-dlp", ytdlp) {
        Err(error) => Err(error),
        Ok(_) => match verify_runtime_dependency("ffmpeg", ffmpeg) {
            Err(error) => Err(error),
            Ok(_) => Ok(()),
        },
    }
}

/// How the start-up goes on.
#[derive(Debug, PartialEq, Eq)]
pub enum StartupStep {
    /// Run this program with this argument.
    Run { binary: &'static str, argument: &'static str },
    /// Everything that the bot needs is there.
    Ready,
    /// The start-up ends with this error.
    Refuse(String),
}

/// Decides how the start-up goes on after the runs that there have been.
/// `ffmpeg` is run only once `yt-dlp` has finished.
pub fn next_startup_step(ytdlp: Option<&ToolRun>, ffmpeg: Option<&ToolRun>) -> (step: StartupStep)
    ensures
        match ytdlp {
            None => step matches StartupStep::Run { binary, argument } && binary@ == "yt-dlp"@
                && argument@ == "--version"@,
            Some(ytdlp) => match ffmpeg {
                None => match dependency_fault("yt-dlp"@, *ytdlp) {
                    None => step matches StartupStep::Run { binary, argument } && binary@
                        == "ffmpeg"@ && argument@ == "-version"@,
                    Some(fault) => step matches StartupStep::Refuse(error) && error@ == fault,
                },
                Some(ffmpeg) => match startup_fault(*ytdlp, *ffmpeg) {
                    None => step is Ready,
                    Some(fault) => step matches StartupStep::Refuse(error) && error@ == fault,
                },
            },
        },
{
    match ytdlp {
        None => StartupStep::Run { binary: "yt-dlp", argument: "--version" },
        Some(ytdlp) => match ffmpeg {
            None => match verify_runtime_dependency("yt-dlp", ytdlp) {
                Ok(_) => StartupStep::Run { binary: "ffmpeg", argument: "-version" },
                Err(error) => StartupStep::Refuse(error),
            },
            Some(ffmpeg) => match verify_runtime_dependencies(ytdlp, ffmpeg) {
                Ok(()) => StartupStep::Ready,
                Err(error) => StartupStep::Refuse(error),
            },
        },
    }
}


/// What became of an event that was handed to the command framework.
#[derive(Debug, Clone, Copy, PartialEq, Eq, Structural)]
pub enum DispatchReport {
    Spawned,
    AtCapacity,
    Unregistered,
    Ignored,
}

/// The Gateway events that the loop itself reacts to.
#[derive(Debug, Clone, Copy, PartialEq, Eq, Structural)]
pub enum GatewayNotice {
    Reconnect,
    InvalidSession,
    Ready { user_id: UserId },
    Other,
}

/// What the Gateway loop remembers.
#[derive(Debug, Clone, Copy, PartialEq, Eq, Structural)]
pub struct GatewayLoop {
    pub synchronized: bool,
    pub bot_user_id: Option<UserId>,
}

impl GatewayLoop {
    /// A loop that has seen nothing yet.
    pub fn new(registration: Registration) -> (state: Self)
        ensures
            state == (GatewayLoop {
                synchronized: registration is Skipped,
                bot_user_id: None,
            }),
    {
        GatewayLoop {
            synchronized: matches!(registration, Registration::Skipped),
            bot_user_id: None,
        }
    }

    /// Takes an event. The result says whether commands have to be
    /// synchronized; [`GatewayLoop::commands_synchronized`] says that they
    /// were.
    pub fn observe(&mut self, notice: GatewayNotice, metrics: &mut Metrics) -> (synchronize: bool)
        ensures
            synchronize == (notice is Ready && !old(self).synchronized),
            *final(self) == match notice {
                GatewayNotice::Ready { user_id } => GatewayLoop {
                    bot_user_id: Some(user_id),
                    ..*old(self)
                },
                _ => *old(self),
            },
            final(metrics)@ == if notice is Reconnect || notice is InvalidSession {
                old(metrics)@.with_reconnect()
            } else {
                old(metrics)@
            },
    {
        match notice {
            GatewayNotice::Reconnect | GatewayNotice::InvalidSession => {
                metrics.increment_reconnects();
                false
            },
            GatewayNotice::Ready { user_id } => {
                self.bot_user_id = Some(user_id);
                !self.synchronized
            },
            GatewayNotice::Other => false,
        }
    }

    /// Remembers that commands are synchronized.
    pub fn commands_synchronized(&mut self)
        ensures
            *final(self) == (GatewayLoop { synchronized: true, ..*old(self) }),
    {
        self.synchronized = true;
    }
}

/// Counts a command that was turned away.
pub fn record_dispatch(metrics: &mut Metrics, report: DispatchReport)
    ensures
        final(metrics)@ == if report is AtCapacity {
            old(metrics)@.with_failure()
        } else {
            old(metrics)@
        },
{
    match report {
        DispatchReport::AtCapacity => metrics.increment_failures(),
        _ => {},
    }
}

/// The counters after a command that took `micros`.
pub open spec fn command_recorded(counters: MetricsSnapshot, micros: u64, failed: bool) ->
    MetricsSnapshot {
    if failed {
        counters.with_failure().with_command(micros)
    } else {
        counters.with_command(micros)
    }
}

/// Counts a command that has ended.
pub fn record_command(metrics: &mut Metrics, elapsed: Duration, failed: bool)
    ensures
        final(metrics)@ == command_recorded(old(metrics)@, clock::whole_micros(elapsed), failed),
{
    if failed {
        metrics.increment_failures();
    }
    metrics.record_command_latency(elapsed);
}

/// A version line is logged up to a hundred and sixty characters, as it was
/// written.
pub proof fn law_version_lines_are_cut(stdout: Seq<u8>, stderr: Seq<u8>)
    ensures
        match tools::first_written(stdout, stderr) {
            None => version_line(stdout, stderr) is None,
            Some(line) => {
                &&& line.len() <= 160 ==> version_line(stdout, stderr) == Some(line)
                &&& line.len() > 160 ==> version_line(stdout, stderr) == Some(line.take(160))
            },
        },
{
}

/// A required program is at fault exactly if it could not be run or failed, and
/// the fault names the program and why. Both programs have to be there, and of
/// two faults the one of `yt-dlp` is told.
pub proof fn law_missing_programs_are_named(
    binary: Seq<char>,
    run: ToolRun,
    ytdlp: ToolRun,
    ffmpeg: ToolRun,
)
    ensures
        dependency_fault(binary, run) is None <==> run is Finished,
        run matches ToolRun::NotStarted(error) ==> dependency_fault(binary, run) == Some(
            "required runtime dependency `"@ + binary + "` is not available on PATH: "@ + error@,
        ),
        run matches ToolRun::Failed(status) ==> dependency_fault(binary, run) == Some(
            "runtime dependency `"@ + binary + "` failed its startup check with status "@
                + status@,
        ),
        startup_fault(ytdlp, ffmpeg) is None <==> ytdlp is Finished && ffmpeg is Finished,
        ytdlp !is Finished ==> startup_fault(ytdlp, ffmpeg) == dependency_fault("yt-dlp"@, ytdlp),
        ytdlp is Finished ==> startup_fault(ytdlp, ffmpeg) == dependency_fault("ffmpeg"@, ffmpeg),
{
}

/// A command that has ended counts as one command with its latency, and as one
/// failure more exactly if it failed.
pub proof fn law_commands_are_counted(counters: MetricsSnapshot, micros: u64, failed: bool)
    requires
        counters.commands < u64::MAX,
        counters.failures < u64::MAX,
        counters.command_latency_micros + micros <= u64::MAX,
    ensures
        ({
            let after = command_recorded(counters, micros, failed);
            &&& after.commands == counters.commands + 1
            &&& after.command_latency_micros == counters.command_latency_micros + micros
            &&& after.command_latency_max_micros >= micros
            &&& after.failures == counters.failures + if failed {
                1int
            } else {
                0
            }
            &&& after.resolves == counters.resolves
            &&& after.startups == counters.startups
            &&& after.skips == counters.skips
            &&& after.underruns == counters.underruns
            &&& after.reconnects == counters.reconnects
        }),
{
}

/// Commands are registered in the development guild that is named by its
/// number, everywhere where none is named, and nowhere where what is named is
/// no number.
pub proof fn law_commands_are_registered_where_named(
    id: u64,
    named: &str,
    other: &str,
    everywhere: Result<Registration, String>,
    guild: Result<Registration, String>,
    refused: Result<Registration, String>,
)
    requires
        named@ == text::decimal(id as nat),
        exists|i: int| 0 <= i < other@.len() && !('0' <= #[trigger] other@[i] <= '9') && other@[i]
            != '+',
        call_ensures(registration_from, (None::<&str>,), everywhere),
        call_ensures(registration_from, (Some(named),), guild),
        call_ensures(registration_from, (Some(other),), refused),
    ensures
        everywhere == Ok::<Registration, String>(Registration::Global),
        guild == Ok::<Registration, String>(Registration::Guild(GuildId(id))),
        refused is Err,
        "invalid SONORYN_DEV_GUILD_ID: "@.is_prefix_of(refused->Err_0@),
{
    number::law_number_is_read_back(id as nat);
    let i = choose|i: int|
        0 <= i < other@.len() && !('0' <= #[trigger] other@[i] <= '9') && other@[i] != '+';
    number::law_digits_stand_for_their_value(text::decimal(id as nat), other@);
    if number::number_value(other@) is Ok {
        if !number::all_digits(other@) {
            assert(i > 0);
            assert(other@.skip(1)[i - 1] == other@[i]);
        }
    }
    let told = refused->Err_0@;
    let head = "invalid SONORYN_DEV_GUILD_ID: "@;
    assert(told.subrange(0, head.len() as int) =~= head);
}

/// The programs are run one after the other, and the bot is ready exactly when
/// both have finished. The first that has not ends the start-up.
pub proof fn law_startup_runs_both_programs(
    ytdlp: &ToolRun,
    ffmpeg: &ToolRun,
    first: StartupStep,
    second: StartupStep,
    last: StartupStep,
)
    requires
        call_ensures(next_startup_step, (None::<&ToolRun>, None::<&ToolRun>), first),
        call_ensures(next_startup_step, (Some(ytdlp), None::<&ToolRun>), second),
        call_ensures(next_startup_step, (Some(ytdlp), Some(ffmpeg)), last),
    ensures
        first is Run && first->binary@ == "yt-dlp"@ && first->argument@ == "--version"@,
        *ytdlp is Finished ==> second is Run && second->binary@ == "ffmpeg"@ && second->argument@
            == "-version"@,
        *ytdlp !is Finished ==> second is Refuse && last is Refuse,
        last is Ready <==> *ytdlp is Finished && *ffmpeg is Finished,
        last !is Ready ==> last is Refuse,
{
}

/// A loop that skips registration counts commands as synchronized; any other
/// has yet to do so, and knows no bot.
pub proof fn law_new_loop_has_seen_nothing(
    guild_id: GuildId,
    skipped: GatewayLoop,
    everywhere: GatewayLoop,
    guild: GatewayLoop,
)
    requires
        call_ensures(GatewayLoop::new, (Registration::Skipped,), skipped),
        call_ensures(GatewayLoop::new, (Registration::Global,), everywhere),
        call_ensures(GatewayLoop::new, (Registration::Guild(guild_id),), guild),
    ensures
        skipped.synchronized && !everywhere.synchronized && !guild.synchronized,
        skipped.bot_user_id is None && everywhere.bot_user_id is None && guild.bot_user_id is None,
{
}

/// A ready Gateway makes the bot known and asks for the commands to be
/// synchronized until they are. A lost connection is counted, and nothing else
/// is.
pub proof fn law_gateway_events_are_noticed(
    ready: &mut GatewayLoop,
    lost: &mut GatewayLoop,
    counting: &mut Metrics,
    recounting: &mut Metrics,
    user_id: UserId,
    notice: GatewayNotice,
    synchronize: bool,
    again: bool,
)
    requires
        notice !is Ready,
        call_ensures(
            GatewayLoop::observe,
            (ready, GatewayNotice::Ready { user_id }, counting),
            synchronize,
        ),
        call_ensures(GatewayLoop::observe, (lost, notice, recounting), again),
    ensures
        final(ready).bot_user_id == Some(user_id),
        final(ready).synchronized == old(ready).synchronized,
        synchronize <==> !old(ready).synchronized,
        final(counting)@ == old(counting)@,
        *final(lost) == *old(lost),
        !again,
        notice is Other ==> final(recounting)@ == old(recounting)@,
        notice !is Other && old(recounting)@.reconnects < u64::MAX
            ==> final(recounting)@.reconnects == old(recounting)@.reconnects + 1,
{
}

/// A command that finds no room is counted as a failure; any other that is
/// dispatched, or not, is not.
pub proof fn law_turned_away_commands_are_failures(
    metrics: &mut Metrics,
    report: DispatchReport,
    done: (),
)
    requires
        old(metrics)@.failures < u64::MAX,
        call_ensures(record_dispatch, (metrics, report), done),
    ensures
        report is AtCapacity ==> final(metrics)@.failures == old(metrics)@.failures + 1
            && final(metrics)@.commands == old(metrics)@.commands,
        report !is AtCapacity ==> final(metrics)@ == old(metrics)@,
{
}

} // verus!
