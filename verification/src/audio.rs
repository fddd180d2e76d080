//! Recorded sound: how voices are mixed, and how a recording is split.

use vstd::prelude::*;

use crate::text::padded_text;

verus! {

/// How the samples of a recording are stored: as signed integers of a number of
/// bits.
#[derive(Clone, Copy, Debug, PartialEq, Eq, Structural)]
pub struct AudioFormat {
    pub channels: u16,
    pub sample_rate: u32,
    pub bits_per_sample: u16,
}

/// How recordings are stored: one channel, 16 kHz, 16 bits.
pub fn recording_format() -> (r: AudioFormat)
    ensures
        r.channels == 1,
        r.sample_rate == 16000,
        r.bits_per_sample == 16,
{
    AudioFormat { channels: 1, sample_rate: 16000, bits_per_sample: 16 }
}

/// The sample of a voice at a place of a frame, and silence where it has none.
pub open spec fn sample_at(voice: Option<Vec<i16>>, i: int) -> int {
    match voice {
        Some(pcm) => if 0 <= i < pcm@.len() {
            pcm@[i] as int
        } else {
            0
        },
        None => 0,
    }
}

/// The sum of the samples of all voices at a place of a frame.
pub open spec fn voices_sum(voices: Seq<Option<Vec<i16>>>, i: int) -> int
    decreases voices.len(),
{
    if voices.len() == 0 {
        0
    } else {
        voices_sum(voices.drop_last(), i) + sample_at(voices.last(), i)
    }
}

/// The number of samples of a voice.
pub open spec fn voice_len(voice: Option<Vec<i16>>) -> nat {
    match voice {
        Some(pcm) => pcm@.len(),
        None => 0,
    }
}

/// The number of samples of the longest voice.
pub open spec fn longest(voices: Seq<Option<Vec<i16>>>) -> nat
    decreases voices.len(),
{
    if voices.len() == 0 {
        0
    } else if longest(voices.drop_last()) >= voice_len(voices.last()) {
        longest(voices.drop_last())
    } else {
        voice_len(voices.last())
    }
}

/// The sample that is nearest to a sum.
pub open spec fn clamped(sum: int) -> int {
    if sum < i16::MIN {
        i16::MIN as int
    } else if sum > i16::MAX {
        i16::MAX as int
    } else {
        sum
    }
}

/// Whether samples are the mix of voices.
pub open spec fn is_mix(samples: Seq<i16>, voices: Seq<Option<Vec<i16>>>) -> bool {
    &&& samples.len() == longest(voices)
    &&& forall|i: int|
        0 <= i < samples.len() ==> #[trigger] samples[i] == clamped(voices_sum(voices, i))
}

/// The number of samples of the longest voice.
fn longest_len(voices: &Vec<Option<Vec<i16>>>) -> (r: usize)
    ensures
        r == longest(voices@),
{
    let mut max: usize = 0;
    let mut k: usize = 0;
    assert(voices@.take(0) =~= Seq::<Option<Vec<i16>>>::empty());
    while k < voices.len()
        invariant
            k <= voices.len(),
            max == longest(voices@.take(k as int)),
        decreases voices.len() - k,
    {
        assert(voices@.take(k + 1).drop_last() =~= voices@.take(k as int));
        assert(voices@.take(k + 1).last() == voices@[k as int]);
        let len: usize = match &voices[k] {
            Some(pcm) => pcm.len(),
            None => 0,
        };
        if len > max {
            max = len;
        }
        k = k + 1;
    }
    assert(voices@.take(voices.len() as int) =~= voices@);
    max
}

/// The mixed sample at a place of a frame.
fn mixed_sample(voices: &Vec<Option<Vec<i16>>>, i: usize) -> (r: i16)
    ensures
        r == clamped(voices_sum(voices@, i as int)),
{
    let mut sum: i128 = 0;
    let mut k: usize = 0;
    assert(voices@.take(0) =~= Seq::<Option<Vec<i16>>>::empty());
    while k < voices.len()
        invariant
            k <= voices.len(),
            sum == voices_sum(voices@.take(k as int), i as int),
            -32768 * k <= sum <= 32768 * k,
        decreases voices.len() - k,
    {
        assert(voices@.take(k + 1).drop_last() =~= voices@.take(k as int));
        assert(voices@.take(k + 1).last() == voices@[k as int]);
        let sample: i16 = match &voices[k] {
            Some(pcm) => if i < pcm.len() {
                pcm[i]
            } else {
                0
            },
            None => 0,
        };
        sum = sum + sample as i128;
        k = k + 1;
    }
    assert(voices@.take(voices.len() as int) =~= voices@);
    if sum < i16::MIN as i128 {
        i16::MIN
    } else if sum > i16::MAX as i128 {
        i16::MAX
    } else {
        sum as i16
    }
}

/// The mix of the voices of a frame: as long as the longest voice, each sample
/// the sum of the voices' samples, held within 16 bits.
pub fn mix_frame(voices: &Vec<Option<Vec<i16>>>) -> (r: Vec<i16>)
    ensures
        is_mix(r@, voices@),
{
    let len: usize = longest_len(voices);
    let mut samples: Vec<i16> = Vec::new();
    let mut i: usize = 0;
    while i < len
        invariant
            i <= len,
            samples.len() == i,
            forall|j: int|
                0 <= j < i ==> #[trigger] samples[j] == clamped(voices_sum(voices@, j)),
        decreases len - i,
    {
        samples.push(mixed_sample(voices, i));
        i = i + 1;
    }
    samples
}

/// A voice adds its sample to the sum and its length to the longest, wherever
/// it stands.
proof fn lemma_voice_at(voices: Seq<Option<Vec<i16>>>, k: int, i: int)
    requires
        0 <= k < voices.len(),
    ensures
        voices_sum(voices, i) == voices_sum(voices.remove(k), i) + sample_at(voices[k], i),
        longest(voices) == (if longest(voices.remove(k)) >= voice_len(voices[k]) {
            longest(voices.remove(k))
        } else {
            voice_len(voices[k])
        }),
    decreases voices.len(),
{
    if k == voices.len() - 1 {
        assert(voices.remove(k) =~= voices.drop_last());
    } else {
        lemma_voice_at(voices.drop_last(), k, i);
        assert(voices.remove(k).drop_last() =~= voices.drop_last().remove(k));
        assert(voices.remove(k).last() == voices.last());
        assert(voices.drop_last()[k] == voices[k]);
    }
}

/// The order in which the voices of a frame are taken does not matter.
pub proof fn mix_does_not_depend_on_order(
    a: Seq<Option<Vec<i16>>>,
    b: Seq<Option<Vec<i16>>>,
    i: int,
)
    requires
        a.to_multiset() == b.to_multiset(),
    ensures
        voices_sum(a, i) == voices_sum(b, i),
        longest(a) == longest(b),
    decreases a.len(),
{
    broadcast use vstd::seq_lib::group_to_multiset_ensures;

    a.to_multiset_ensures();
    b.to_multiset_ensures();
    assert(a.len() == b.len());
    if a.len() > 0 {
        let x = a[0];
        assert(a.contains(x));
        assert(b.to_multiset().count(x) > 0);
        assert(b.contains(x));
        let k = choose|k: int| 0 <= k < b.len() && b[k] == x;
        assert(a.remove(0).to_multiset() =~= a.to_multiset().remove(x));
        assert(b.remove(k).to_multiset() =~= b.to_multiset().remove(x));
        mix_does_not_depend_on_order(a.remove(0), b.remove(k), i);
        lemma_voice_at(a, 0, i);
        lemma_voice_at(b, k, i);
    }
}

/// A mix is as long as the longest voice: no voice is longer, and some voice is
/// as long, but for a mix of silence, which is empty. Each sample is the sum of
/// the voices at its place where 16 bits can hold it, and otherwise the loudest
/// or lowest that they can hold.
pub proof fn mixes_are_as_long_as_the_longest_voice(
    samples: Seq<i16>,
    voices: Seq<Option<Vec<i16>>>,
)
    requires
        is_mix(samples, voices),
    ensures
        forall|k: int|
            0 <= k < voices.len() && (#[trigger] voices[k]) is Some ==> samples.len()
                >= voices[k]->0@.len(),
        samples.len() > 0 ==> exists|k: int|
            0 <= k < voices.len() && (#[trigger] voices[k]) is Some && voices[k]->0@.len()
                == samples.len(),
        forall|i: int|
            0 <= i < samples.len() ==> {
                let sum = voices_sum(voices, i);
                &&& -32768 <= sum <= 32767 ==> #[trigger] samples[i] == sum
                &&& sum > 32767 ==> samples[i] == 32767
                &&& sum < -32768 ==> samples[i] == -32768
            },
{
    lemma_longest(voices);
}

/// No voice is longer than the longest, and some voice is it.
proof fn lemma_longest(voices: Seq<Option<Vec<i16>>>)
    ensures
        forall|k: int|
            0 <= k < voices.len() && (#[trigger] voices[k]) is Some ==> longest(voices)
                >= voices[k]->0@.len(),
        longest(voices) > 0 ==> exists|k: int|
            0 <= k < voices.len() && (#[trigger] voices[k]) is Some && voices[k]->0@.len()
                == longest(voices),
    decreases voices.len(),
{
    if voices.len() > 0 {
        let front = voices.drop_last();
        lemma_longest(front);
        assert forall|k: int|
            0 <= k < voices.len() && (#[trigger] voices[k]) is Some implies longest(voices)
            >= voices[k]->0@.len() by {
            if k < front.len() {
                assert(front[k] == voices[k]);
            }
        }
        if longest(voices) > 0 {
            if longest(front) >= voice_len(voices.last()) {
                let k = choose|k: int|
                    0 <= k < front.len() && (#[trigger] front[k]) is Some && front[k]->0@.len()
                        == longest(front);
                assert(voices[k] == front[k]);
            } else {
                assert(voices[voices.len() - 1] is Some);
            }
        }
    }
}

/// No voices sum up to silence. One more voice adds its sample at each of its
/// places, and nothing behind its end or where it is silent.
pub proof fn voices_add_their_samples(
    voices: Seq<Option<Vec<i16>>>,
    voice: Option<Vec<i16>>,
    i: int,
)
    requires
        0 <= i,
    ensures
        voices_sum(Seq::<Option<Vec<i16>>>::empty(), i) == 0,
        voice is Some && i < voice->0@.len() ==> voices_sum(voices.push(voice), i) == voices_sum(
            voices,
            i,
        ) + voice->0@[i],
        voice is None || i >= voice->0@.len() ==> voices_sum(voices.push(voice), i) == voices_sum(
            voices,
            i,
        ),
{
    assert(voices.push(voice).drop_last() =~= voices);
}

/// The mix of one voice alone is that voice, sample for sample.
pub proof fn one_voice_is_its_own_mix(samples: Seq<i16>, voice: Vec<i16>)
    ensures
        is_mix(samples, seq![Some(voice)]) <==> samples == voice@,
{
    let none = Seq::<Option<Vec<i16>>>::empty();
    let one = seq![Some(voice)];
    assert(one =~= none.push(Some(voice)));
    assert(one.drop_last() =~= none);
    assert forall|i: int| 0 <= i < voice@.len() implies #[trigger] clamped(voices_sum(one, i))
        == voice@[i] by {
        voices_add_their_samples(none, Some(voice), i);
    }
    assert(longest(none) == 0);
    assert(longest(one) == voice@.len());
    if is_mix(samples, one) {
        assert forall|i: int| 0 <= i < samples.len() implies samples[i] == voice@[i] by {
            assert(samples[i] == clamped(voices_sum(one, i)));
        }
        assert(samples =~= voice@);
    }
}

/// A voice that is silent changes no mix.
pub proof fn silent_voices_change_no_mix(samples: Seq<i16>, voices: Seq<Option<Vec<i16>>>)
    ensures
        is_mix(samples, voices.push(None)) <==> is_mix(samples, voices),
{
    assert(voices.push(None).drop_last() =~= voices);
    assert forall|i: int| 0 <= i < samples.len() implies voices_sum(voices.push(None), i)
        == voices_sum(voices, i) by {
        voices_add_their_samples(voices, None, i);
    }
    if is_mix(samples, voices.push(None)) {
        assert forall|i: int| 0 <= i < samples.len() implies #[trigger] samples[i] == clamped(
            voices_sum(voices, i),
        ) by {
            assert(samples[i] == clamped(voices_sum(voices.push(None), i)));
        }
    }
}

/// A recording that is being made: whether sound is still taken, and whether
/// the file is still open.
#[derive(Clone, Copy, Debug, PartialEq, Eq, Structural)]
pub struct RecorderState {
    pub active: bool,
    pub writing: bool,
}

impl RecorderState {
    /// A recording that starts.
    pub fn new() -> (r: RecorderState)
        ensures
            r.active && r.writing,
    {
        RecorderState { active: true, writing: true }
    }

    /// The samples that are written for a frame: its mix while sound is taken
    /// and the file is open, and none otherwise.
    pub fn frame_samples(&self, voices: &Vec<Option<Vec<i16>>>) -> (r: Vec<i16>)
        ensures
            self.active && self.writing ==> is_mix(r@, voices@),
            !(self.active && self.writing) ==> r.len() == 0,
    {
        if self.active && self.writing {
            mix_frame(voices)
        } else {
            Vec::new()
        }
    }

    /// Takes no more sound.
    pub fn deactivate(&mut self)
        ensures
            *final(self) == (RecorderState { active: false, writing: old(self).writing }),
    {
        self.active = false;
    }

    /// Gives up the file, and says whether it is to be completed: it is at the
    /// first time only.
    pub fn finish(&mut self) -> (r: bool)
        ensures
            r == old(self).writing,
            *final(self) == (RecorderState { active: old(self).active, writing: false }),
    {
        let was_open = self.writing;
        self.writing = false;
        was_open
    }
}

/// The seconds of sound in a piece of a recording.
pub const CHUNK_SECONDS: u32 = 600;

/// The samples in a piece of a recording.
pub fn samples_per_chunk(sample_rate: u32, channels: u16) -> (r: u64)
    ensures
        r == sample_rate * channels * CHUNK_SECONDS,
        r == sample_rate * channels * 600,
{
    assert(sample_rate * channels <= 4294967295 * 65535) by (nonlinear_arith)
        requires
            sample_rate <= 4294967295,
            channels <= 65535,
    ;
    let per_second: u64 = sample_rate as u64 * channels as u64;
    per_second * CHUNK_SECONDS as u64
}

/// The samples that a piece takes before the next one starts. A piece takes one
/// sample at least.
pub open spec fn chunk_capacity(per_chunk: u64) -> int {
    if per_chunk == 0 {
        1
    } else {
        per_chunk as int
    }
}

/// The number of pieces of a recording of `n` samples.
pub open spec fn chunk_count(n: int, capacity: int) -> int {
    if n <= 0 {
        0
    } else {
        (n - 1) / capacity + 1
    }
}

/// A recording has as many pieces as it takes to hold its samples, and no more.
pub proof fn pieces_are_as_few_as_can_be(n: int, capacity: int)
    requires
        n >= 0,
        capacity > 0,
    ensures
        n <= chunk_count(n, capacity) * capacity,
        n > 0 ==> (chunk_count(n, capacity) - 1) * capacity < n,
        n == 0 ==> chunk_count(n, capacity) == 0,
{
    if n > 0 {
        let q = (n - 1) / capacity;
        vstd::arithmetic::div_mod::lemma_fundamental_div_mod(n - 1, capacity);
        assert(q * capacity == capacity * q) by (nonlinear_arith);
        assert((q + 1) * capacity == q * capacity + capacity) by (nonlinear_arith);
    }
}

/// How far the splitting of a recording has come.
#[derive(Clone, Copy, Debug, PartialEq, Eq, Structural)]
pub struct Splitter {
    per_chunk: u64,
    started: bool,
    written: u64,
    chunk_index: u64,
}

/// The name of a piece of a recording.
pub open spec fn chunk_name(stem: Seq<char>, index: int) -> Seq<char> {
    stem + ".part"@ + crate::text::padded(index as nat, 3) + ".wav"@
}

/// A piece takes as many samples as it is made for, and one where it is made for
/// none.
pub proof fn pieces_take_what_they_are_made_for(per_chunk: u64)
    ensures
        per_chunk > 0 ==> chunk_capacity(per_chunk) == per_chunk,
        per_chunk == 0 ==> chunk_capacity(per_chunk) == 1,
{
}

/// Pieces are named after the recording and numbered with three digits at the
/// least, and no two pieces have the same name.
pub proof fn pieces_have_their_own_names(stem: Seq<char>, a: nat, b: nat)
    ensures
        stem.is_prefix_of(chunk_name(stem, a as int)),
        chunk_name(stem, a as int).len() >= stem.len() + ".part"@.len() + 3 + ".wav"@.len(),
        chunk_name(stem, a as int) == stem + ".part"@ + crate::text::padded(a, 3) + ".wav"@,
        chunk_name(stem, a as int) == chunk_name(stem, b as int) ==> a == b,
{
    let x = chunk_name(stem, a as int);
    let y = chunk_name(stem, b as int);
    let p = stem.len() + ".part"@.len();
    let q = ".wav"@.len() as int;
    crate::text::padding_keeps_the_number(a, 3);
    crate::text::padding_keeps_the_number(b, 3);
    assert(x.subrange(0, stem.len() as int) =~= stem);
    assert(x.subrange(p as int, x.len() - q) =~= crate::text::padded(a, 3));
    assert(y.subrange(p as int, y.len() - q) =~= crate::text::padded(b, 3));
}

impl Splitter {
    /// The samples that a piece takes.
    pub closed spec fn capacity(self) -> int {
        chunk_capacity(self.per_chunk)
    }

    /// Whether `n` samples were split.
    pub closed spec fn has_taken(self, n: int) -> bool {
        if n == 0 {
            !self.started && self.written == 0 && self.chunk_index == 0
        } else {
            &&& n > 0
            &&& self.started
            &&& self.chunk_index == chunk_count(n, self.capacity())
            &&& self.written == (n - 1) % self.capacity() + 1
        }
    }

    /// A splitting that starts.
    pub fn new(per_chunk: u64) -> (r: Splitter)
        ensures
            r.capacity() == chunk_capacity(per_chunk),
            per_chunk > 0 ==> r.capacity() == per_chunk,
            per_chunk == 0 ==> r.capacity() == 1,
            r.has_taken(0),
    {
        Splitter { per_chunk, started: false, written: 0, chunk_index: 0 }
    }

    /// The number of pieces so far.
    pub fn chunks(&self) -> (r: u64)
        ensures
            forall|n: int| #[trigger]
                self.has_taken(n) ==> r == chunk_count(n, self.capacity()),
    {
        self.chunk_index
    }

    /// Takes the next sample. Where it starts a new piece, the name of that
    /// piece is returned.
    pub fn take_sample(&mut self, stem: &str) -> (r: Option<String>)
        requires
            exists|n: int| #[trigger]
                old(self).has_taken(n) && chunk_count(n, old(self).capacity()) < u64::MAX,
        ensures
            final(self).capacity() == old(self).capacity(),
            forall|n: int| #[trigger]
                old(self).has_taken(n) ==> {
                    &&& final(self).has_taken(n + 1)
                    &&& r is Some <==> n % old(self).capacity() == 0
                    &&& r matches Some(name) ==> name@ == chunk_name(
                        stem@,
                        n / old(self).capacity() + 1,
                    ) && name@ == stem@ + ".part"@ + crate::text::padded(
                        (n / old(self).capacity() + 1) as nat,
                        3,
                    ) + ".wav"@
                },
    {
        proof {
            let p = self.capacity();
            assert forall|n: int| #[trigger] old(self).has_taken(n) implies {
                &&& n > 0 ==> n == (self.chunk_index - 1) * p + self.written
                &&& n > 0 ==> 1 <= self.written <= p
                &&& n >= 0
            } by {
                if n > 0 {
                    vstd::arithmetic::div_mod::lemma_fundamental_div_mod(n - 1, p);
                    assert((self.chunk_index - 1) * p == p * ((n - 1) / p)) by (nonlinear_arith)
                        requires
                            self.chunk_index - 1 == (n - 1) / p,
                    ;
                }
            }
        }
        let mut name: Option<String> = None;
        let ghost before = *self;
        if !self.started || self.written >= self.per_chunk {
            self.chunk_index = self.chunk_index + 1;
            self.written = 0;
            self.started = true;
            name = Some(
                String::from_str(stem).concat(".part").concat(
                    padded_text(self.chunk_index, 3).as_str(),
                ).concat(".wav"),
            );
        }
        self.written = self.written + 1;
        proof {
            let p = before.capacity();
            assert forall|n: int| #[trigger] before.has_taken(n) implies {
                &&& self.has_taken(n + 1)
                &&& name is Some <==> n % p == 0
                &&& name is Some ==> self.chunk_index == n / p + 1
            } by {
                if n == 0 {
                    vstd::arithmetic::div_mod::lemma_fundamental_div_mod_converse(0, p, 0, 0);
                } else if before.written == p {
                    assert(before.chunk_index * p == (before.chunk_index - 1) * p + p)
                        by (nonlinear_arith);
                    vstd::arithmetic::div_mod::lemma_fundamental_div_mod_converse(
                        n,
                        p,
                        before.chunk_index as int,
                        0,
                    );
                } else {
                    vstd::arithmetic::div_mod::lemma_fundamental_div_mod_converse(
                        n,
                        p,
                        before.chunk_index - 1,
                        before.written as int,
                    );
                }
            }
        }
        name
    }
}

/// The pieces after the first `n` samples: a sample starts a piece wherever the
/// splitting says so, and goes to the end of the last piece otherwise.
pub open spec fn pieces(samples: Seq<i16>, capacity: int, n: nat) -> Seq<Seq<i16>>
    decreases n,
{
    if n == 0 {
        Seq::empty()
    } else {
        let before = pieces(samples, capacity, (n - 1) as nat);
        if (n - 1) % capacity == 0 {
            before.push(seq![samples[n - 1]])
        } else {
            before.update(before.len() - 1, before.last().push(samples[n - 1]))
        }
    }
}

/// The end of a piece: full, or where the recording ends.
pub open spec fn piece_end(k: int, capacity: int, n: int) -> int {
    if (k + 1) * capacity <= n {
        (k + 1) * capacity
    } else {
        n
    }
}

/// Whether a piece is the one at a place: the samples from the end of the piece
/// before it up to its own end, one at least.
pub open spec fn is_piece(
    piece: Seq<i16>,
    samples: Seq<i16>,
    k: int,
    capacity: int,
    n: int,
) -> bool {
    &&& 0 <= k * capacity < piece_end(k, capacity, n) <= n
    &&& piece == samples.subrange(k * capacity, piece_end(k, capacity, n))
}

/// A recording is split into pieces one after the other, without a sample lost,
/// repeated or moved, and each but the last is full.
pub proof fn pieces_make_up_the_recording(samples: Seq<i16>, capacity: int, n: nat)
    requires
        capacity > 0,
        n <= samples.len(),
    ensures
        pieces(samples, capacity, n).len() == chunk_count(n as int, capacity),
        forall|k: int|
            0 <= k < pieces(samples, capacity, n).len() ==> is_piece(
                #[trigger] pieces(samples, capacity, n)[k],
                samples,
                k,
                capacity,
                n as int,
            ),
    decreases n,
{
    if n > 0 {
        let m = (n - 1) as nat;
        let before = pieces(samples, capacity, m);
        let after = pieces(samples, capacity, n);
        pieces_make_up_the_recording(samples, capacity, m);
        let q = m as int / capacity;
        vstd::arithmetic::div_mod::lemma_fundamental_div_mod(m as int, capacity);
        assert(q * capacity == capacity * q) by (nonlinear_arith);
        assert((q + 1) * capacity == q * capacity + capacity) by (nonlinear_arith);
        assert(q >= 0) by (nonlinear_arith)
            requires
                q == m as int / capacity,
                capacity > 0,
                m >= 0,
        ;
        if m > 0 {
            let r = m as int % capacity;
            if r == 0 {
                assert((q - 1) * capacity == q * capacity - capacity) by (nonlinear_arith);
                vstd::arithmetic::div_mod::lemma_fundamental_div_mod_converse(
                    m - 1,
                    capacity,
                    q - 1,
                    capacity - 1,
                );
            } else {
                vstd::arithmetic::div_mod::lemma_fundamental_div_mod_converse(
                    m - 1,
                    capacity,
                    q,
                    r - 1,
                );
            }
        }
        assert(chunk_count(n as int, capacity) == q + 1);
        assert forall|k: int| 0 <= k < after.len() implies is_piece(
            #[trigger] after[k],
            samples,
            k,
            capacity,
            n as int,
        ) by {
            assert(0 <= k * capacity) by (nonlinear_arith)
                requires
                    0 <= k,
                    capacity > 0,
            ;
            assert((k + 1) * capacity == k * capacity + capacity) by (nonlinear_arith);
            if k < q {
                assert((k + 1) * capacity <= q * capacity) by (nonlinear_arith)
                    requires
                        k + 1 <= q,
                        capacity > 0,
                ;
                assert(after[k] == before[k]);
                assert(is_piece(before[k], samples, k, capacity, m as int));
            } else {
                assert(k == q);
                if m as int % capacity != 0 {
                    assert(is_piece(before[k], samples, k, capacity, m as int));
                }
                assert(after[k] =~= samples.subrange(
                    k * capacity,
                    piece_end(k, capacity, n as int),
                ));
            }
        }
    }
}

} // verus!
