# Sonoryn

A guild music bot for Discord. The rules of the bot live in a library verified
with Verus; the program around it talks to Discord, `yt-dlp` and FFmpeg.

## Layout

- `src/player.rs`, `src/history.rs`: queue, current track, loop mode and played
  tracks of every guild.
- `src/voice_manager.rs`, `src/voice_session.rs`: who is joined where, and what
  one voice connection does next. Both take what happened and say what to do.
- `src/voice_worker.rs`: playback of one guild with a queue of its own.
- `src/media/`: resolver output, Ogg framing, the decoder's frames.
- `src/commands/`: the slash commands, as steps from one answer to the next.
- `src/redaction.rs`, `src/metrics.rs`, `src/runtime.rs`: what may be logged,
  what is counted, and how the program starts.
- `src/text.rs`, `src/number.rs`, `src/clock.rs`, `src/tools.rs`: the ground the
  rest stands on.
- `app/`: the program: Gateway, voice transport, processes and tasks.

What holds of the library as a whole is stated by the public proof functions
whose names begin with `law_`.

## Running

The program reads `DISCORD_TOKEN` and, where commands are to be registered for
one guild only, `SONORYN_DEV_GUILD_ID`. It needs `yt-dlp` and `ffmpeg`.
