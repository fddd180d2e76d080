# asg-discordbot

A Discord bot for autonomous study groups. It holds votes on the day of the next
meeting, creates the event, records the voice channel and has it transcribed.

## Setup

Set these environment variables, or write them into a `.env` file:

- `DISCORD_TOKEN`: the token of the bot.
- `ASG_NAME`: the name of the group. Events whose names start with `ASG_NAME 第`
  are the group's.
- `BOT_OWNER_ID`: the user who may stop the bot. Where it is not set, everyone may.
- `OPENAI_API_KEY`: the key of the transcription service.
- `OPENAI_TRANSCRIPTION_MODEL`: `whisper-1` where it is not set.
- `RECORDINGS_DIR`: where recordings and transcripts go, `recordings` where it is
  not set.

## Commands

- `/schedule` opens a vote on candidate days. After a week it is added up, the
  event is created, and the voice channel is recorded at event time.
- `/addup` adds up the latest open vote at once.
- `/record` records a voice channel for a number of minutes.
- `/stop` stops the bot.

Recordings are keyed by event. After a restart, events to come are recorded
again, and of events that are under way the rest is. The transcripts of all
recordings of an event are also appended to `event-<event id>.txt`.

## Layout

- `src/` is the library, verified with Verus: dates and time zones, candidate
  days, votes and their results, which events are recorded and when, how voices
  are mixed, how recordings are split, and the texts of messages and answers.
- `app/` connects the library to Discord, to voice, to files and to the
  transcription service. The texts for what fails there (a message that cannot be
  fetched, an event that cannot be created, voice that is not available, a
  recording that cannot be closed) stand there too, and reach the user inside the
  library's error answers, as do the errors of Discord and of the service.
- `tests/` runs the library on examples.

What the library takes from `chrono`, `chrono-tz` and `jpholiday` stands in
functions marked `#[verifier::external_body]`, each with a comment on what is
claimed of the call.
