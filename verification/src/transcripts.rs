//! Recordings and transcripts as files, and what is sent for transcription.

use vstd::prelude::*;

use crate::config::BotConfig;
use crate::errors::BotError;
use crate::text::{decimal_text, joined_text, starts_with};

verus! {

/// The name of the recording of a label.
pub fn wav_file_name(label: &str) -> (r: String)
    ensures
        r@ == label@ + ".wav"@,
{
    String::from_str(label).concat(".wav")
}

/// The name of the transcript of a label.
pub fn txt_file_name(label: &str) -> (r: String)
    ensures
        r@ == label@ + ".txt"@,
{
    String::from_str(label).concat(".txt")
}

/// What stands before the first place of a character, where it occurs.
pub open spec fn before_first(s: Seq<char>, c: char) -> Option<Seq<char>>
    decreases s.len(),
{
    if s.len() == 0 {
        None
    } else if s[0] == c {
        Some(seq![])
    } else {
        match before_first(s.skip(1), c) {
            Some(t) => Some(seq![s[0]] + t),
            None => None,
        }
    }
}

/// Where a character occurs first at a place, what stands before it is
/// everything up to that place; where it does not occur, nothing does.
proof fn lemma_before_first(s: Seq<char>, c: char, i: int)
    requires
        0 <= i <= s.len(),
        forall|j: int| 0 <= j < i ==> #[trigger] s[j] != c,
        i < s.len() ==> s[i] == c,
    ensures
        before_first(s, c) == (if i < s.len() {
            Some(s.take(i))
        } else {
            None::<Seq<char>>
        }),
    decreases s.len(),
{
    if s.len() > 0 && i > 0 {
        lemma_before_first(s.skip(1), c, i - 1);
        if i < s.len() {
            assert(seq![s[0]] + s.skip(1).take(i - 1) =~= s.take(i));
        }
    } else if s.len() > 0 {
        assert(s.take(0) =~= Seq::<char>::empty());
    }
}

/// The event that a label is of: what stands between `event-` and the next
/// dash.
pub open spec fn label_event(label: Seq<char>) -> Option<Seq<char>> {
    if "event-"@.is_prefix_of(label) {
        before_first(label.skip("event-"@.len() as int), '-')
    } else {
        None
    }
}

/// The name of the transcript of all recordings of an event.
pub open spec fn event_file(event_id: Seq<char>) -> Seq<char> {
    "event-"@ + event_id + ".txt"@
}

/// The name of the transcript that the one of a label is appended to: that of
/// the event, where the label is of one.
pub fn aggregate_file_name(label: &str) -> (r: Option<String>)
    ensures
        match label_event(label@) {
            Some(id) => r matches Some(name) && name@ == event_file(id) && name@ == "event-"@ + id
                + ".txt"@,
            None => r is None,
        },
{
    if !starts_with(label, "event-") {
        return None;
    }
    proof {
        reveal_strlit("event-");
        assert("event-"@.len() == 6);
    }
    let len: usize = label.unicode_len();
    let ghost rest = label@.skip(6);
    let mut i: usize = 6;
    while i < len
        invariant
            6 <= i <= len,
            len == label@.len(),
            rest == label@.skip(6),
            label_event(label@) == before_first(rest, '-'),
            forall|j: int| 0 <= j < i - 6 ==> #[trigger] rest[j] != '-',
        decreases len - i,
    {
        assert(rest[i - 6] == label@[i as int]);
        if label.get_char(i) == '-' {
            proof {
                lemma_before_first(rest, '-', i - 6);
                assert(rest.take(i - 6) =~= label@.subrange(6, i as int));
            }
            return Some(
                String::from_str("event-").concat(label.substring_char(6, i)).concat(".txt"),
            );
        }
        i = i + 1;
    }
    proof {
        lemma_before_first(rest, '-', rest.len() as int);
    }
    None
}

/// What is appended to the transcript of an event.
pub open spec fn aggregate_entry(label: Seq<char>, text: Seq<char>) -> Seq<char> {
    "\n\n===== "@ + label + " =====\n"@ + text + "\n"@
}

/// What is appended to the transcript of an event.
pub fn aggregate_entry_text(label: &str, text: &str) -> (r: String)
    ensures
        r@ == aggregate_entry(label@, text@),
        r@ == "\n\n===== "@ + label@ + " =====\n"@ + text@ + "\n"@,
{
    String::from_str("\n\n===== ").concat(label).concat(" =====\n").concat(text).concat("\n")
}

/// A label is of the event that stands between `event-` and the next dash,
/// whatever stands behind that.
pub proof fn labels_name_their_event(event_id: Seq<char>, rest: Seq<char>)
    requires
        forall|j: int| 0 <= j < event_id.len() ==> #[trigger] event_id[j] != '-',
    ensures
        label_event("event-"@ + event_id + seq!['-'] + rest) == Some(event_id),
        label_event("event-"@ + event_id) is None,
{
    let p = "event-"@.len() as int;
    let label = "event-"@ + event_id + seq!['-'] + rest;
    let tail = label.skip(p);
    assert(label.subrange(0, p) =~= "event-"@);
    assert(tail =~= event_id + seq!['-'] + rest);
    lemma_before_first(tail, '-', event_id.len() as int);
    assert(tail.take(event_id.len() as int) =~= event_id);
    let short = "event-"@ + event_id;
    assert(short.subrange(0, p) =~= "event-"@);
    assert(short.skip(p) =~= event_id);
    lemma_before_first(event_id, '-', event_id.len() as int);
}

/// A label that does not start with `event-` is of no event.
pub proof fn other_labels_are_of_no_event(label: Seq<char>)
    requires
        !"event-"@.is_prefix_of(label),
    ensures
        label_event(label) is None,
{
}

/// However often the recording of an event starts, and whenever, its
/// transcripts go to one file, which is named after the event.
pub proof fn recordings_of_an_event_share_a_transcript(event_id: u64, secs: int)
    ensures
        label_event(crate::recording::event_label(event_id, secs)) == Some(
            crate::text::decimal(event_id as nat),
        ),
{
    let id = crate::text::decimal(event_id as nat);
    let label = crate::recording::event_label(event_id, secs);
    let rest = label.skip("event-"@.len() as int);
    reveal_strlit("-");
    assert("-"@ =~= seq!['-']);
    assert(label.subrange(0, "event-"@.len() as int) =~= "event-"@);
    assert(rest =~= id + seq!['-'] + crate::clock::stamp(secs));
    crate::text::lemma_decimal_digits(event_id as nat);
    assert forall|j: int| 0 <= j < id.len() implies #[trigger] rest[j] != '-' by {
        assert('0' <= id[j]);
    }
    lemma_before_first(rest, '-', id.len() as int);
    assert(rest.take(id.len() as int) =~= id);
}

/// Transcripts of two events go to two files.
pub proof fn events_have_their_own_transcripts(a: u64, b: u64)
    requires
        event_file(crate::text::decimal(a as nat)) == event_file(crate::text::decimal(b as nat)),
    ensures
        a == b,
{
    let x = crate::text::decimal(a as nat);
    let y = crate::text::decimal(b as nat);
    let p = "event-"@.len() as int;
    assert(event_file(x).len() == event_file(y).len());
    assert(event_file(x).subrange(p, p + x.len()) =~= x);
    assert(event_file(y).subrange(p, p + y.len()) =~= y);
    crate::text::decimal_is_injective(a as nat, b as nat);
}

/// Transcripts of recordings that a user asked for are not appended anywhere.
pub proof fn manual_recordings_are_of_no_event(secs: int)
    ensures
        label_event(crate::commands::manual_label(secs)) is None,
{
    let label = crate::commands::manual_label(secs);
    reveal_strlit("manual-");
    reveal_strlit("event-");
    assert("event-"@.len() == 6 && "event-"@[0] == 'e');
    assert("manual-"@.len() == 7 && "manual-"@[0] == 'm');
    assert(label[0] == 'm');
    if "event-"@.is_prefix_of(label) {
        assert(label.subrange(0, 6)[0] == 'e');
    }
}

/// The most bytes of a recording that is transcribed in one piece.
pub const MAX_TRANSCRIPTION_BYTES: u64 = 25165824;

/// Whether a recording is split before it is transcribed.
pub fn needs_split(size: u64) -> (r: bool)
    ensures
        r == (size > MAX_TRANSCRIPTION_BYTES),
        r == (size > 24 * 1024 * 1024),
{
    size > MAX_TRANSCRIPTION_BYTES
}

/// The transcript of a piece of a recording, under its number.
pub open spec fn chunk_transcript(index: int, text: Seq<char>) -> Seq<char> {
    "[chunk "@ + crate::text::decimal((index + 1) as nat) + "]\n"@ + text
}

/// The transcripts of the pieces of a recording, each under its number.
pub open spec fn chunk_transcripts(texts: Seq<Seq<char>>) -> Seq<Seq<char>> {
    Seq::new(texts.len(), |i: int| chunk_transcript(i, texts[i]))
}

/// The transcript of a recording that was split, by those of its pieces.
pub fn join_transcripts(texts: &Vec<String>) -> (r: String)
    ensures
        r@ == crate::text::joined(chunk_transcripts(crate::text::texts(texts@)), "\n\n"@),
{
    let mut parts: Vec<String> = Vec::new();
    let mut i: usize = 0;
    while i < texts.len()
        invariant
            i <= texts.len(),
            parts.len() == i,
            forall|j: int|
                0 <= j < i ==> (#[trigger] parts[j])@ == chunk_transcript(j, texts[j]@),
        decreases texts.len() - i,
    {
        parts.push(
            String::from_str("[chunk ").concat(decimal_text(i as u64 + 1).as_str()).concat(
                "]\n",
            ).concat(texts[i].as_str()),
        );
        i = i + 1;
    }
    assert(crate::text::texts(parts@) =~= chunk_transcripts(crate::text::texts(texts@)));
    joined_text(&parts, "\n\n")
}

/// No transcript is lost, whatever their number: one more is added behind the
/// others and an empty line, whole and under a heading with its number.
pub proof fn transcripts_are_joined_whole_and_in_order(texts: Seq<Seq<char>>, text: Seq<char>)
    ensures
        ({
            let heading = "[chunk "@ + crate::text::decimal(texts.len() + 1) + "]\n"@;
            let before = crate::text::joined(chunk_transcripts(texts), "\n\n"@);
            let after = crate::text::joined(chunk_transcripts(texts.push(text)), "\n\n"@);
            &&& texts.len() == 0 ==> before == Seq::<char>::empty() && after == heading + text
            &&& texts.len() > 0 ==> after == before + "\n\n"@ + heading + text
        }),
{
    let heading = "[chunk "@ + crate::text::decimal(texts.len() + 1) + "]\n"@;
    let parts = chunk_transcripts(texts);
    assert(chunk_transcripts(texts.push(text)) =~= parts.push(heading + text));
    crate::text::joining_adds_parts_at_the_end(parts, "\n\n"@, heading + text);
    if texts.len() == 0 {
        assert(parts =~= Seq::<Seq<char>>::empty());
        assert(parts.push(heading + text) =~= seq![heading + text]);
    } else {
        let before = crate::text::joined(parts, "\n\n"@);
        assert(before + "\n\n"@ + (heading + text) =~= before + "\n\n"@ + heading + text);
    }
}

/// Every transcript stands whole in what all are joined to, behind its heading
/// and behind what the transcripts before it are joined to.
pub proof fn every_transcript_is_found(texts: Seq<Seq<char>>, i: int)
    requires
        0 <= i < texts.len(),
    ensures
        ({
            let whole = crate::text::joined(chunk_transcripts(texts), "\n\n"@);
            let before = crate::text::joined(chunk_transcripts(texts.take(i)), "\n\n"@);
            let heading = "[chunk "@ + crate::text::decimal((i + 1) as nat) + "]\n"@;
            if i == 0 {
                (heading + texts[i]).is_prefix_of(whole)
            } else {
                (before + "\n\n"@ + heading + texts[i]).is_prefix_of(whole)
            }
        }),
    decreases texts.len(),
{
    let front = texts.drop_last();
    assert(front.push(texts.last()) =~= texts);
    transcripts_are_joined_whole_and_in_order(front, texts.last());
    if i == texts.len() - 1 {
        assert(texts.take(i) =~= front);
    } else {
        every_transcript_is_found(front, i);
        assert(front.take(i) =~= texts.take(i));
        let heading = "[chunk "@ + crate::text::decimal((i + 1) as nat) + "]\n"@;
        let before = crate::text::joined(chunk_transcripts(texts.take(i)), "\n\n"@);
        let part = if i == 0 {
            heading + texts[i]
        } else {
            before + "\n\n"@ + heading + texts[i]
        };
        let most = crate::text::joined(chunk_transcripts(front), "\n\n"@);
        let whole = crate::text::joined(chunk_transcripts(texts), "\n\n"@);
        assert(part =~= most.subrange(0, part.len() as int));
        assert(whole.subrange(0, part.len() as int) =~= most.subrange(0, part.len() as int));
    }
}

/// The error where the transcription of a piece of a recording failed.
pub open spec fn chunk_failure(index: int) -> Seq<char> {
    crate::text::decimal((index + 1) as nat) + "番目の音声チャンクの文字起こしに失敗しました"@
}

/// The error where the transcription of a piece of a recording failed.
pub fn chunk_failed(index: usize) -> (r: String)
    requires
        index < usize::MAX,
    ensures
        r@ == chunk_failure(index as int),
        r@ == crate::text::decimal((index + 1) as nat)
            + "番目の音声チャンクの文字起こしに失敗しました"@,
{
    decimal_text((index + 1) as u64).concat("番目の音声チャンクの文字起こしに失敗しました")
}

/// What is done after the transcription of a piece of a recording.
#[derive(Debug)]
pub enum ChunkStep {
    /// The next piece is transcribed. The transcripts so far are kept.
    Next(Vec<String>),
    /// The transcript of the recording is complete.
    Done(String),
    /// The recording has no transcript, and this is why.
    Failed(String),
}

/// What is done after the transcription of a piece of a recording, by the
/// transcripts of the pieces before it, the number of pieces and the transcript
/// of the piece. The first piece that has none ends the transcription, and
/// nothing is kept of the others.
pub fn after_chunk(texts: Vec<String>, chunks: usize, answer: Option<String>) -> (r: ChunkStep)
    requires
        texts.len() < chunks,
    ensures
        answer is None ==> r is Failed && r->Failed_0@ == chunk_failure(texts.len() as int),
        answer is Some && texts.len() + 1 < chunks ==> r is Next && r->Next_0@ == texts@.push(
            answer->0,
        ),
        answer is Some && texts.len() + 1 == chunks ==> r is Done && r->Done_0@
            == crate::text::joined(
            chunk_transcripts(crate::text::texts(texts@).push(answer->0@)),
            "\n\n"@,
        ),
{
    let mut texts = texts;
    match answer {
        None => ChunkStep::Failed(chunk_failed(texts.len())),
        Some(text) => {
            let ghost before = texts@;
            texts.push(text);
            assert(crate::text::texts(texts@) =~= crate::text::texts(before).push(text@));
            if texts.len() < chunks {
                ChunkStep::Next(texts)
            } else {
                ChunkStep::Done(join_transcripts(&texts))
            }
        },
    }
}

/// A request to the transcription service, without the recording itself.
#[derive(Debug)]
pub struct TranscriptionRequest {
    pub url: &'static str,
    pub api_key: String,
    pub model: String,
    pub language: &'static str,
    pub file_name: String,
    pub mime_type: &'static str,
}

/// The request to transcribe a recording. It takes a key.
pub fn transcription_request(config: &BotConfig, file_name: Option<&str>) -> (r: Result<
    TranscriptionRequest,
    BotError,
>)
    ensures
        config.openai_api_key is None ==> r == Err::<TranscriptionRequest, BotError>(
            BotError::MissingVariable("OPENAI_API_KEY"),
        ),
        config.openai_api_key matches Some(key) ==> {
            &&& r matches Ok(q)
            &&& q.url@ == "https://api.openai.com/v1/audio/transcriptions"@
            &&& q.api_key@ == key@
            &&& q.model@ == config.transcription_model@
            &&& q.language@ == "ja"@
            &&& q.file_name@ == (match file_name {
                Some(name) => name@,
                None => "recording.wav"@,
            })
            &&& q.mime_type@ == "audio/wav"@
        },
{
    let api_key = match &config.openai_api_key {
        Some(key) => key.clone(),
        None => {
            return Err(BotError::MissingVariable("OPENAI_API_KEY"));
        },
    };
    let file_name = match file_name {
        Some(name) => String::from_str(name),
        None => String::from_str("recording.wav"),
    };
    Ok(
        TranscriptionRequest {
            url: "https://api.openai.com/v1/audio/transcriptions",
            api_key,
            model: config.transcription_model.clone(),
            language: "ja",
            file_name,
            mime_type: "audio/wav",
        },
    )
}

/// What is appended to the transcript of an event holds the label and the whole
/// text of the recording, and a failure tells the number of the piece.
pub proof fn entries_hold_label_and_text(label: Seq<char>, text: Seq<char>, index: nat)
    ensures
        aggregate_entry(label, text) == "\n\n===== "@ + label + " =====\n"@ + text + "\n"@,
        chunk_failure(index as int) == crate::text::decimal(index + 1)
            + "番目の音声チャンクの文字起こしに失敗しました"@,
        event_file(label) == "event-"@ + label + ".txt"@,
{
}

} // verus!
