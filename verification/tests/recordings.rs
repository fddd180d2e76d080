use asg_discordbot::audio::{
    mix_frame, recording_format, samples_per_chunk, AudioFormat, RecorderState, Splitter,
};
use asg_discordbot::calendar::Date;
use asg_discordbot::candidates::ZonedDate;
use asg_discordbot::clock::{Instant, Span};
use asg_discordbot::commands::{
    addup, command_definitions, command_named, manual_label_text, record_now, recording_failed_reply,
    recording_length, saved_reply, stop, CommandName, OptionKind, RecordRequest,
};
use asg_discordbot::config::{load_config, parse_number, BotConfig, Environment};
use asg_discordbot::errors::{BotError, CommandFailure, Rejection};
use asg_discordbot::options::{CommandOption, OptionValue};
use asg_discordbot::recording::{
    is_recordable_event, is_recordable_event_at, plan_event_recording, plan_event_recording_at, EventKind,
    EventStatus, GuildEvent, RecordingTable,
};
use asg_discordbot::transcripts::{
    after_chunk, aggregate_entry_text, aggregate_file_name, chunk_failed, join_transcripts, needs_split,
    transcription_request, txt_file_name, wav_file_name, ChunkStep,
};
use asg_discordbot::vote::{event_name_text, tally, CollectingList, CollectingStatus};
use asg_discordbot::zone::{make_datetime, Zone};

/// 2026-06-06 12:00:00 UTC.
const START: i64 = 1780747200;

fn at(secs: i64) -> Instant {
    Instant { secs, nanos: 0 }
}

fn span(secs: u64, nanos: u32) -> Span {
    Span { secs, nanos }
}

fn event() -> GuildEvent {
    GuildEvent {
        id: 4242,
        guild_id: 5,
        name: "勉強会 第12回".to_string(),
        kind: EventKind::Voice,
        status: EventStatus::Scheduled,
        channel_id: Some(77),
        start_time: at(START),
        end_time: Some(at(START + 7000)),
    }
}

fn recordable(change: fn(&mut GuildEvent)) -> bool {
    let mut e = event();
    change(&mut e);
    is_recordable_event_at(&e, "勉強会", at(START))
}

fn vote(guild_id: u64, message_id: u64) -> CollectingStatus {
    CollectingStatus {
        guild_id,
        channel_id: 6,
        message_id,
        event_number: 1,
        author_text: String::new(),
        website_url: None,
        dates: Vec::new(),
        time_range: (21, 23),
        timezone: Zone::parse("UTC").unwrap(),
        voice_channel_id: 7,
    }
}

fn option(name: &str, value: OptionValue) -> CommandOption {
    CommandOption { name: name.to_string(), value }
}

fn config() -> BotConfig {
    BotConfig {
        asg_name: "勉強会".to_string(),
        owner_id: None,
        openai_api_key: Some("key".to_string()),
        transcription_model: "whisper-1".to_string(),
        recordings_dir: "recordings".to_string(),
    }
}

#[test]
fn events_of_the_group_are_recorded() {
    assert!(recordable(|_| {}));
    assert!(recordable(|e| e.status = EventStatus::Active));
    assert!(recordable(|e| e.end_time = None));
    assert!(!recordable(|e| e.status = EventStatus::Other));
    assert!(!recordable(|e| e.kind = EventKind::Other));
    assert!(!recordable(|e| e.channel_id = None));
    assert!(!recordable(|e| e.name = "勉強会".to_string()));
    assert!(!recordable(|e| e.name = "別の勉強会 第12回".to_string()));
    assert!(!recordable(|e| e.end_time = Some(at(START))));
    assert!(recordable(|e| e.end_time = Some(Instant { secs: START, nanos: 1 })));
}

#[test]
fn events_are_recorded_by_the_clock() {
    let mut e = event();
    e.end_time = Some(at(1000));
    assert!(!is_recordable_event(&e, "勉強会"));
    assert!(plan_event_recording(&e, "勉強会").is_none());
    e.end_time = Some(at(200000000000));
    assert!(is_recordable_event(&e, "勉強会"));
    e.start_time = at(199999990000);
    let plan = plan_event_recording(&e, "勉強会").unwrap();
    assert_eq!(plan.start, at(199999990000));
    assert_eq!(plan.duration, span(10000, 0));
    assert_eq!(plan.label, "event-4242-83071001-164640");
}

#[test]
fn an_event_to_come_is_recorded_whole() {
    let plan = plan_event_recording_at(&event(), "勉強会", at(START - 9000), at(START - 8999)).unwrap();
    assert_eq!(plan.event_id, 4242);
    assert_eq!(plan.guild_id, 5);
    assert_eq!(plan.voice_channel_id, 77);
    assert_eq!(plan.start, at(START));
    assert_eq!(plan.duration, span(7000, 0));
    assert_eq!(plan.label, "event-4242-20260606-120000");
}

#[test]
fn of_an_event_that_has_begun_the_rest_is_recorded() {
    let now = Instant { secs: START + 3600, nanos: 250000000 };
    let plan = plan_event_recording_at(&event(), "勉強会", at(START), now).unwrap();
    assert_eq!(plan.start, now);
    assert_eq!(plan.duration, span(3399, 750000000));
    assert_eq!(plan.label, "event-4242-20260606-130000");
}

#[test]
fn an_event_without_an_end_lasts_two_hours() {
    let mut e = event();
    e.end_time = None;
    let plan = plan_event_recording_at(&e, "勉強会", at(START), at(START + 200)).unwrap();
    assert_eq!(plan.duration, span(7000, 0));
    assert!(plan_event_recording_at(&e, "勉強会", at(START), at(START + 7200)).is_none());
}

#[test]
fn nothing_is_recorded_of_other_events_or_past_ones() {
    let e = event();
    assert!(plan_event_recording_at(&e, "別", at(START), at(START)).is_none());
    assert!(plan_event_recording_at(&e, "勉強会", at(START + 7000), at(START)).is_none());
    assert!(plan_event_recording_at(&e, "勉強会", at(START), at(START + 7000)).is_none());
}

#[test]
fn events_that_votes_decide_on_are_recorded() {
    for number in [-3, 0, 12] {
        let mut e = event();
        e.name = event_name_text("勉強会", number);
        assert!(is_recordable_event_at(&e, "勉強会", at(START)));
    }
}

#[test]
fn a_vote_leads_to_a_recording_in_its_channel_at_its_hours() {
    let mut status = vote(5, 10);
    let date = Date { year: 2026, month: 6, day: 6 };
    let midnight = make_datetime(&status.timezone, date, 0).unwrap();
    status.dates.push(ZonedDate { date, instant: midnight });
    let new = tally(&status, &Vec::new(), "勉強会").unwrap().event;
    let mut e = event();
    e.name = new.name;
    e.channel_id = Some(new.voice_channel_id);
    e.start_time = new.start_time;
    e.end_time = Some(new.end_time);
    let plan = plan_event_recording_at(&e, "勉強会", at(START), at(START)).unwrap();
    assert_eq!(plan.voice_channel_id, 7);
    assert_eq!(plan.start, at(START + 9 * 3600));
    assert_eq!(plan.duration, span(7200, 0));
    assert_eq!(plan.label, "event-4242-20260606-210000");
    e.status = EventStatus::Active;
    let begun = at(START + 10 * 3600);
    let rest = plan_event_recording_at(&e, "勉強会", begun, begun).unwrap();
    assert_eq!(rest.voice_channel_id, 7);
    assert_eq!(rest.start, begun);
    assert_eq!(rest.duration, span(3600, 0));
}

#[test]
fn recordings_are_kept_by_event() {
    let mut table: RecordingTable<&str> = RecordingTable::new();
    assert_eq!(table.remove(1), None);
    assert_eq!(table.insert(1, "a"), None);
    assert_eq!(table.insert(2, "b"), None);
    assert_eq!(table.insert(1, "c"), Some("a"));
    assert_eq!(table.remove(1), Some("c"));
    table.insert_started(1, Some("d"));
    table.insert_started(3, None);
    assert_eq!(table.remove(2), Some("b"));
    assert_eq!(table.remove(3), None);
    assert_eq!(table.remove(1), Some("d"));
    assert_eq!(table.remove(1), None);
}

#[test]
fn files_are_named_after_labels() {
    assert_eq!(wav_file_name("event-1-2"), "event-1-2.wav");
    assert_eq!(txt_file_name("event-1-2"), "event-1-2.txt");
}

#[test]
fn transcripts_of_an_event_go_to_one_file() {
    let mut names = Vec::new();
    for now in [START - 100, START + 1, START + 5000] {
        let plan = plan_event_recording_at(&event(), "勉強会", at(now), at(now)).unwrap();
        names.push(aggregate_file_name(&plan.label));
    }
    assert_eq!(names, vec![Some("event-4242.txt".to_string()); 3]);
    assert_eq!(aggregate_file_name(&manual_label_text(at(START), 0)), None);
    assert_eq!(aggregate_file_name("event-7"), None);
    assert_eq!(aggregate_file_name("event--x"), Some("event-.txt".to_string()));
    assert_eq!(aggregate_file_name("event-日-本-x"), Some("event-日.txt".to_string()));
    assert_eq!(aggregate_file_name("Event-1-2"), None);
    assert_eq!(aggregate_file_name("event"), None);
    assert_eq!(aggregate_entry_text("event-1-2", "はい"), "\n\n===== event-1-2 =====\nはい\n");
}

#[test]
fn long_recordings_are_split() {
    assert!(!needs_split(24 * 1024 * 1024));
    assert!(needs_split(24 * 1024 * 1024 + 1));
    assert_eq!(samples_per_chunk(16000, 1), 9600000);
    assert_eq!(samples_per_chunk(u32::MAX, u16::MAX), 4294967295 * 65535 * 600);
}

#[test]
fn transcripts_of_pieces_are_joined() {
    let texts = vec!["a".to_string(), "b".to_string()];
    assert_eq!(join_transcripts(&texts), "[chunk 1]\na\n\n[chunk 2]\nb");
    assert_eq!(join_transcripts(&Vec::new()), "");
    assert_eq!(chunk_failed(0), "1番目の音声チャンクの文字起こしに失敗しました");
}

#[test]
fn pieces_are_transcribed_one_after_the_other() {
    let one = vec!["あ".to_string()];
    match after_chunk(Vec::new(), 2, Some("あ".to_string())) {
        ChunkStep::Next(texts) => assert_eq!(texts, one),
        step => panic!("{:?}", step),
    }
    match after_chunk(one, 2, Some("い".to_string())) {
        ChunkStep::Done(text) => assert_eq!(text, "[chunk 1]\nあ\n\n[chunk 2]\nい"),
        step => panic!("{:?}", step),
    }
}

#[test]
fn the_first_piece_without_a_transcript_ends_the_transcription() {
    for (texts, message) in [
        (vec![], "1番目の音声チャンクの文字起こしに失敗しました"),
        (vec!["あ".to_string()], "2番目の音声チャンクの文字起こしに失敗しました"),
    ] {
        match after_chunk(texts, 2, None) {
            ChunkStep::Failed(text) => assert_eq!(text, message),
            step => panic!("{:?}", step),
        }
    }
}

#[test]
fn transcription_takes_a_key() {
    let request = transcription_request(&config(), Some("x.wav")).unwrap();
    assert_eq!(request.url, "https://api.openai.com/v1/audio/transcriptions");
    assert_eq!(request.api_key, "key");
    assert_eq!(request.model, "whisper-1");
    assert_eq!(request.language, "ja");
    assert_eq!(request.file_name, "x.wav");
    assert_eq!(request.mime_type, "audio/wav");
    assert_eq!(transcription_request(&config(), None).unwrap().file_name, "recording.wav");
    let mut without = config();
    without.openai_api_key = None;
    let error = transcription_request(&without, None).unwrap_err();
    assert_eq!(error.message(), "OPENAI_API_KEY is not set");
}

#[test]
fn voices_are_mixed() {
    let voices = vec![Some(vec![1, -2, 30000]), None, Some(vec![10, -20, 30000, 7]), Some(vec![])];
    assert_eq!(mix_frame(&voices), vec![11, -22, 32767, 7]);
    assert_eq!(mix_frame(&vec![Some(vec![-32768]), Some(vec![-1])]), vec![-32768]);
    assert_eq!(mix_frame(&vec![None, Some(vec![])]), Vec::<i16>::new());
    assert_eq!(mix_frame(&Vec::new()), Vec::<i16>::new());
}

#[test]
fn voices_are_mixed_in_any_order() {
    let a = vec![Some(vec![20000, 1]), Some(vec![20000, 2, 3]), Some(vec![-30000])];
    let b = vec![a[2].clone(), a[0].clone(), a[1].clone()];
    assert_eq!(mix_frame(&a), vec![10000, 3, 3]);
    assert_eq!(mix_frame(&a), mix_frame(&b));
}

#[test]
fn a_recording_takes_sound_until_it_is_stopped() {
    let voices = vec![Some(vec![5, 6])];
    let mut state = RecorderState::new();
    assert_eq!(state.frame_samples(&voices), vec![5, 6]);
    state.deactivate();
    assert!(state.frame_samples(&voices).is_empty());
    assert!(state.finish());
    assert!(!state.finish());
    assert!(state.frame_samples(&voices).is_empty());
    let mut finished = RecorderState::new();
    assert!(finished.finish());
    assert!(finished.frame_samples(&voices).is_empty());
    assert_eq!(
        recording_format(),
        AudioFormat { channels: 1, sample_rate: 16000, bits_per_sample: 16 }
    );
}

fn pieces(per_chunk: u64, samples: &[i16]) -> Vec<(String, Vec<i16>)> {
    let mut splitter = Splitter::new(per_chunk);
    let mut files: Vec<(String, Vec<i16>)> = Vec::new();
    for sample in samples {
        if let Some(name) = splitter.take_sample("talk") {
            files.push((name, Vec::new()));
        }
        files.last_mut().unwrap().1.push(*sample);
    }
    assert_eq!(splitter.chunks(), files.len() as u64);
    files
}

#[test]
fn a_recording_is_split_into_pieces() {
    let files = pieces(3, &[1, 2, 3, 4, 5, 6, 7]);
    assert_eq!(
        files,
        vec![
            ("talk.part001.wav".to_string(), vec![1, 2, 3]),
            ("talk.part002.wav".to_string(), vec![4, 5, 6]),
            ("talk.part003.wav".to_string(), vec![7]),
        ]
    );
    assert_eq!(pieces(3, &[1, 2, 3]).len(), 1);
    assert_eq!(pieces(3, &[]).len(), 0);
    let single = pieces(0, &[1, 2]);
    assert_eq!(single[1], ("talk.part002.wav".to_string(), vec![2]));
    assert_eq!(pieces(1, &vec![0; 1000])[999].0, "talk.part1000.wav");
}

#[test]
fn settings_follow_from_the_environment() {
    let mut env = Environment {
        discord_token: Some("t".to_string()),
        asg_name: Some("勉強会".to_string()),
        bot_owner_id: Some("42".to_string()),
        openai_api_key: None,
        openai_transcription_model: None,
        recordings_dir: None,
    };
    let (token, config) = load_config(env.clone()).unwrap();
    assert_eq!(token, "t");
    assert_eq!(config.asg_name, "勉強会");
    assert_eq!(config.owner_id, Some(42));
    assert_eq!(config.openai_api_key, None);
    assert_eq!(config.transcription_model, "whisper-1");
    assert_eq!(config.recordings_dir, "recordings");
    env.bot_owner_id = Some("me".to_string());
    env.openai_api_key = Some("k".to_string());
    env.openai_transcription_model = Some("gpt-4o-transcribe".to_string());
    env.recordings_dir = Some("/r".to_string());
    let (_, config) = load_config(env.clone()).unwrap();
    assert_eq!(config.owner_id, None);
    assert_eq!(config.openai_api_key, Some("k".to_string()));
    assert_eq!(config.transcription_model, "gpt-4o-transcribe");
    assert_eq!(config.recordings_dir, "/r");
    env.asg_name = None;
    assert_eq!(load_config(env.clone()).unwrap_err(), BotError::MissingVariable("ASG_NAME"));
    env.discord_token = None;
    assert_eq!(load_config(env).unwrap_err().message(), "DISCORD_TOKEN is not set");
}

#[test]
fn numbers_are_read() {
    for text in [
        "0", "42", "+42", "007", "18446744073709551615", "18446744073709551616", "", "+", "-1", "4 2", " 42",
        "4_2", "99999999999999999999999", "000000000000000000000000000001", "++1", "٣",
    ] {
        assert_eq!(parse_number(text), text.parse::<u64>().ok());
    }
}

#[test]
fn commands_are_registered_and_understood() {
    let commands = command_definitions();
    let names: Vec<&str> = commands.iter().map(|c| c.name).collect();
    assert_eq!(names, vec!["schedule", "addup", "record", "stop"]);
    let required: Vec<&str> =
        commands[0].options.iter().filter(|o| o.required).map(|o| o.name).collect();
    assert_eq!(required, vec!["event_number", "start_date", "end_date", "voice_channel"]);
    assert_eq!(commands[0].options.len(), 10);
    assert_eq!(commands[0].options[9].kind, OptionKind::Boolean);
    assert_eq!(commands[0].options[9].description, "投票期間を3分に短縮します。");
    assert_eq!(commands[1].options[0].name, "message_id");
    assert_eq!(commands[2].options[1].kind, OptionKind::Integer);
    assert_eq!(commands[3].description, "Botを終了します。Bot ownerのみ。");
    assert_eq!(command_named("schedule"), Some(CommandName::Schedule));
    assert_eq!(command_named("addup"), Some(CommandName::Addup));
    assert_eq!(command_named("stop"), Some(CommandName::Stop));
    assert_eq!(command_named("record"), Some(CommandName::Record));
    assert_eq!(command_named("Record"), None);
}

#[test]
fn the_owner_may_stop_the_bot() {
    assert_eq!(stop(Some(1), 1), Ok(()));
    assert_eq!(stop(Some(1), 2), Err(CommandFailure::Rejected(Rejection::OwnerOnly)));
    assert_eq!(stop(None, 2), Ok(()));
}

#[test]
fn recordings_are_asked_for() {
    let options = vec![
        option("voice_channel", OptionValue::Channel(7)),
        option("minutes", OptionValue::Integer(90)),
    ];
    assert_eq!(
        record_now(Some(5), &options),
        Ok(RecordRequest { guild_id: 5, voice_channel_id: 7, minutes: 90 })
    );
    assert_eq!(record_now(None, &options), Err(CommandFailure::Error(BotError::OutsideGuild)));
    assert_eq!(
        record_now(Some(5), &options[1..].to_vec()),
        Err(CommandFailure::Error(BotError::MissingOption("voice_channel")))
    );
    assert_eq!(
        record_now(Some(5), &options[..1].to_vec()),
        Err(CommandFailure::Error(BotError::MissingOption("minutes")))
    );
    for minutes in [0, -5] {
        let options = vec![options[0].clone(), option("minutes", OptionValue::Integer(minutes))];
        assert_eq!(
            record_now(Some(5), &options),
            Err(CommandFailure::Rejected(Rejection::NonPositiveMinutes))
        );
    }
    assert_eq!(recording_length(90), span(5400, 0));
    assert_eq!(manual_label_text(at(START), 32400), "manual-20260606-210000");
    assert_eq!(saved_reply("a/b.txt"), "文字起こしを保存しました: `a/b.txt`");
    assert_eq!(recording_failed_reply("x"), "録音または文字起こしに失敗しました: `x`");
}

#[test]
fn the_latest_open_vote_is_added_up() {
    let mut list = CollectingList::new();
    list.push(vote(1, 10));
    list.push(vote(2, 20));
    let named = vec![option("message_id", OptionValue::Text("10".to_string()))];
    assert_eq!(addup(&named, &mut list, Some(1)).unwrap_err(), BotError::MessageIdUnsupported);
    assert_eq!(addup(&Vec::new(), &mut list, Some(3)).unwrap_err(), BotError::NoActiveVote);
    assert_eq!(addup(&Vec::new(), &mut list, Some(1)).unwrap().message_id, 10);
    list.push(vote(3, 30));
    assert_eq!(addup(&Vec::new(), &mut list, None).unwrap().message_id, 30);
    assert_eq!(addup(&Vec::new(), &mut list, None).unwrap().message_id, 20);
    assert_eq!(addup(&Vec::new(), &mut list, None).unwrap_err(), BotError::NoActiveVote);
}
