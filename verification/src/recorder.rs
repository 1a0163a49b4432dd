//! What a recording has to be before it becomes a voice.
//!
//! Guided capture rather than file upload, for two reasons that happen to
//! agree: reading a known script gives the reference transcript for free, and
//! recording in the application is what makes consent verifiable, since the
//! speaker was present.

use vstd::arithmetic::power2::{lemma2_to64, lemma_pow2_adds, lemma_pow2_pos, pow2};
use vstd::prelude::*;
use vstd::string::*;

use crate::single::{Single, nearest};
use crate::text;

verus! {

/// The words the person is asked to read. Chosen for phonetic spread rather
/// than meaning: varied vowels, plosives, fricatives and nasals, long enough to
/// give ten to twenty seconds of speech.
pub const ENROLMENT_SCRIPT: &'static str = "My name is spoken here, and this is how I sound when I speak \
naturally. The quick brown fox jumps over the lazy dog, while five wizards judge my calm voice. \
I am recording this so the app can learn my accent, my rhythm, and the way I shape my words.";

/// The bits of six seconds, the least a recording may last.
pub const MIN_SECONDS: u32 = 0x40C0_0000;

/// The bits of sixty seconds, the most a recording may last.
pub const MAX_SECONDS: u32 = 0x4270_0000;

/// The bits of the peak below which a recording is too quiet, two hundredths.
pub const MIN_PEAK: u32 = 0x3CA3_D70A;

/// The bits of the peak at which a recording clips, ninety-nine hundredths.
pub const CLIPPING_PEAK: u32 = 0x3F7D_70A4;

/// The bits of fifteen decibels, the least the voice has to stand above the
/// room.
pub const MIN_SNR_DB: u32 = 0x4170_0000;

/// How many frames with any sound in them a recording needs to be measured.
pub const MIN_FRAMES: usize = 10;

/// The number a limit is the bits of.
#[verifier::when_used_as_spec(spec_limit)]
pub fn limit(bits: u32) -> (number: Single)
    ensures
        number == spec_limit(bits),
{
    Single { bits }
}

pub open spec fn spec_limit(bits: u32) -> Single {
    Single { bits }
}

/// What a recording that passed was measured at.
#[derive(Clone, Copy, Debug, PartialEq, Eq, Structural)]
pub struct Quality {
    pub seconds: Single,
    pub snr_db: Single,
}

impl Quality {
    /// The measurements in words.
    pub fn summary(&self) -> (line: String)
        ensures
            line@ == self.seconds.spec_rounded() + "s recorded · "@ + self.snr_db.spec_rounded()
                + " dB signal-to-noise"@,
    {
        let mut line = self.seconds.rounded();
        line.append("s recorded · ");
        line.append(self.snr_db.rounded().as_str());
        line.append(" dB signal-to-noise");
        line
    }
}

/// What is wrong with a recording.
#[derive(Clone, Copy, Debug, PartialEq, Eq, Structural)]
pub enum Flaw {
    Nothing,
    TooShort(Single),
    TooLong(Single),
    TooQuiet,
    Clipping,
    TooShortToCheck,
    TooNoisy(Single),
}

impl Flaw {
    /// The advice that goes with a flaw.
    pub open spec fn spec_advice(self) -> Seq<char> {
        match self {
            Flaw::Nothing => "Nothing was recorded. Check your microphone and try again."@,
            Flaw::TooShort(seconds) => "Only "@ + seconds.spec_rounded()
                + " seconds recorded. Read the whole script — about "@ + limit(MIN_SECONDS).spec_rounded()
                + " seconds minimum."@,
            Flaw::TooLong(seconds) => "That is "@ + seconds.spec_rounded()
                + " seconds. Keep it under "@ + limit(MAX_SECONDS).spec_rounded() + "."@,
            Flaw::TooQuiet => "That was too quiet. Move closer to the microphone and try again."@,
            Flaw::Clipping =>
                "The recording is clipping. Move back from the microphone and try again."@,
            Flaw::TooShortToCheck => "The recording is too short to check. Try again."@,
            Flaw::TooNoisy(snr_db) => "Too much background noise (signal-to-noise "@
                + snr_db.spec_rounded() + " dB). Find a quieter room and try again."@,
        }
    }

    pub fn advice(self) -> (line: String)
        ensures
            line@ == self.spec_advice(),
    {
        match self {
            Flaw::Nothing =>
                "Nothing was recorded. Check your microphone and try again.".to_owned(),
            Flaw::TooShort(seconds) => {
                let mut line = "Only ".to_owned();
                line.append(seconds.rounded().as_str());
                line.append(" seconds recorded. Read the whole script — about ");
                line.append(limit(MIN_SECONDS).rounded().as_str());
                line.append(" seconds minimum.");
                line
            },
            Flaw::TooLong(seconds) => {
                let mut line = "That is ".to_owned();
                line.append(seconds.rounded().as_str());
                line.append(" seconds. Keep it under ");
                line.append(limit(MAX_SECONDS).rounded().as_str());
                line.append(".");
                line
            },
            Flaw::TooQuiet =>
                "That was too quiet. Move closer to the microphone and try again.".to_owned(),
            Flaw::Clipping =>
                "The recording is clipping. Move back from the microphone and try again.".to_owned(),
            Flaw::TooShortToCheck =>
                "The recording is too short to check. Try again.".to_owned(),
            Flaw::TooNoisy(snr_db) => {
                let mut line = "Too much background noise (signal-to-noise ".to_owned();
                line.append(snr_db.rounded().as_str());
                line.append(" dB). Find a quieter room and try again.");
                line
            },
        }
    }
}

/// The quiet and the loud of a recording: the level a tenth of its frames stay
/// below, and the level nine tenths of them do.
#[derive(Clone, Copy, Debug, PartialEq, Eq, Structural)]
pub struct Loudness {
    pub floor: Single,
    pub speech: Single,
}

/// The frames with any sound in them.
pub open spec fn audible(levels: Seq<Single>) -> Seq<Single> {
    levels.filter(|level: Single| level.spec_is_positive())
}

/// Whether one list is another put in order, quiet to loud.
pub open spec fn ordered(sorted: Seq<Single>, levels: Seq<Single>) -> bool {
    &&& sorted.to_multiset() == levels.to_multiset()
    &&& forall|i: int, j: int|
        0 <= i < j < sorted.len() ==> !(#[trigger] sorted[j]).spec_less(#[trigger] sorted[i])
}

/// Whether the quiet and the loud of these frames are these two.
pub open spec fn measures(loudness: Loudness, frames: Seq<Single>) -> bool {
    exists|sorted: Seq<Single>| #[trigger]
        ordered(sorted, frames) && loudness.floor == sorted[(frames.len() / 10) as int]
            && loudness.speech == sorted[(frames.len() * 9 / 10) as int]
}

/// What the length and the peak of a recording say against it.
pub open spec fn spec_first_flaw(samples: nat, seconds: Single, peak: Single) -> Option<Flaw> {
    if samples == 0 {
        Some(Flaw::Nothing)
    } else if seconds.spec_less(limit(MIN_SECONDS)) {
        Some(Flaw::TooShort(seconds))
    } else if limit(MAX_SECONDS).spec_less(seconds) {
        Some(Flaw::TooLong(seconds))
    } else if peak.spec_less(limit(MIN_PEAK)) {
        Some(Flaw::TooQuiet)
    } else if !peak.is_nan() && !peak.spec_less(limit(CLIPPING_PEAK)) {
        Some(Flaw::Clipping)
    } else {
        None
    }
}

/// What speaks against a recording before its noise is weighed, or the quiet
/// and the loud of it. `levels` is the loudness of each frame, in order.
///
/// One bar for a recording and an imported file: a voice brought in from
/// elsewhere is not exempt from the checks that decide whether a clone will
/// sound like anyone.
pub fn measure(
    samples: usize,
    seconds: Single,
    peak: Single,
    levels: &Vec<Single>,
) -> (measured: Result<Loudness, Flaw>)
    ensures
        match spec_first_flaw(samples as nat, seconds, peak) {
            Some(flaw) => measured == Err::<Loudness, Flaw>(flaw),
            None => if audible(levels@).len() < MIN_FRAMES {
                measured == Err::<Loudness, Flaw>(Flaw::TooShortToCheck)
            } else {
                measured matches Ok(loudness) && measures(loudness, audible(levels@))
            },
        },
{
    if samples == 0 {
        return Err(Flaw::Nothing);
    }
    if seconds.less(limit(MIN_SECONDS)) {
        return Err(Flaw::TooShort(seconds));
    }
    if limit(MAX_SECONDS).less(seconds) {
        return Err(Flaw::TooLong(seconds));
    }
    if peak.less(limit(MIN_PEAK)) {
        return Err(Flaw::TooQuiet);
    }
    if peak.bits % crate::single::SIGN <= crate::single::INFINITE && !peak.less(limit(CLIPPING_PEAK)) {
        return Err(Flaw::Clipping);
    }
    let frames = sounding(levels);
    let n = frames.len();
    if n < MIN_FRAMES {
        return Err(Flaw::TooShortToCheck);
    }
    let sorted = in_order(&frames);
    proof {
        sorted@.to_multiset_ensures();
        frames@.to_multiset_ensures();
        assert(ordered(sorted@, frames@));
    }
    let tenth: usize = n / 10;
    let ninth: usize = n - 1 - (n - 1) / 10;
    Ok(Loudness { floor: sorted[tenth], speech: sorted[ninth] })
}

/// What the noise of a recording says, once it has passed everything else.
pub open spec fn spec_settle(seconds: Single, snr_db: Single) -> Result<Quality, Flaw> {
    if snr_db.spec_less(limit(MIN_SNR_DB)) {
        Err(Flaw::TooNoisy(snr_db))
    } else {
        Ok(Quality { seconds, snr_db })
    }
}

pub fn settle(seconds: Single, snr_db: Single) -> (settled: Result<Quality, Flaw>)
    ensures
        settled == spec_settle(seconds, snr_db),
{
    if snr_db.less(limit(MIN_SNR_DB)) {
        Err(Flaw::TooNoisy(snr_db))
    } else {
        Ok(Quality { seconds, snr_db })
    }
}

fn sounding(levels: &Vec<Single>) -> (frames: Vec<Single>)
    ensures
        frames@ == audible(levels@),
        forall|i: int| 0 <= i < frames.len() ==> (#[trigger] frames@[i]).spec_is_positive(),
{
    let mut frames: Vec<Single> = Vec::new();
    let mut i: usize = 0;
    reveal(Seq::filter);
    assert(levels@.take(0) =~= Seq::empty());
    while i < levels.len()
        invariant
            i <= levels.len(),
            frames@ == audible(levels@.take(i as int)),
            forall|j: int| 0 <= j < frames.len() ==> (#[trigger] frames@[j]).spec_is_positive(),
        decreases levels.len() - i,
    {
        reveal(Seq::filter);
        assert(levels@.take(i + 1).drop_last() =~= levels@.take(i as int));
        let level = levels[i];
        if level.is_positive() {
            frames.push(level);
        }
        i = i + 1;
    }
    assert(levels@.take(levels@.len() as int) =~= levels@);
    frames
}

/// Quiet to loud, each put in its place from behind.
fn in_order(frames: &Vec<Single>) -> (sorted: Vec<Single>)
    requires
        forall|i: int| 0 <= i < frames.len() ==> (#[trigger] frames@[i]).spec_is_positive(),
    ensures
        ordered(sorted@, frames@),
{
    let mut sorted: Vec<Single> = Vec::new();
    let mut i: usize = 0;
    assert(frames@.take(0) =~= Seq::empty());
    while i < frames.len()
        invariant
            i <= frames.len(),
            forall|j: int| 0 <= j < frames.len() ==> (#[trigger] frames@[j]).spec_is_positive(),
            forall|j: int| 0 <= j < sorted.len() ==> (#[trigger] sorted@[j]).spec_is_positive(),
            forall|j: int, k: int|
                0 <= j < k < sorted.len() ==> (#[trigger] sorted@[j]).bits <= (
                #[trigger] sorted@[k]).bits,
            sorted@.to_multiset() == frames@.take(i as int).to_multiset(),
        decreases frames.len() - i,
    {
        let frame = frames[i];
        let mut at: usize = sorted.len();
        while at > 0 && frame.bits < sorted[at - 1].bits
            invariant
                at <= sorted.len(),
                forall|j: int| at <= j < sorted.len() ==> frame.bits < (#[trigger] sorted@[j]).bits,
            decreases at,
        {
            at = at - 1;
        }
        proof {
            vstd::seq_lib::to_multiset_insert(sorted@, at as int, frame);
            vstd::seq_lib::to_multiset_build(frames@.take(i as int), frame);
            assert(frames@.take(i + 1) =~= frames@.take(i as int).push(frame));
        }
        sorted.insert(at, frame);
        i = i + 1;
    }
    assert(frames@.take(frames@.len() as int) =~= frames@);
    sorted
}

/// How many samples make a frame of a fiftieth of a second.
pub open spec fn spec_frame_window(sample_rate: u32) -> nat {
    if sample_rate / 50 == 0 {
        1
    } else {
        (sample_rate / 50) as nat
    }
}

pub fn frame_window(sample_rate: u32) -> (samples: u32)
    ensures
        samples == spec_frame_window(sample_rate),
{
    if sample_rate / 50 == 0 {
        1
    } else {
        sample_rate / 50
    }
}

/// How many samples one bar of the meter covers: a fortieth of a second.
pub open spec fn spec_meter_chunk(sample_rate: u32) -> nat {
    if sample_rate / 40 == 0 {
        1
    } else {
        (sample_rate / 40) as nat
    }
}

/// Which samples a bar of the meter shows: the last stretch recorded, cut into
/// bars with the oldest on the left. A bar that nothing has reached yet shows
/// none.
pub open spec fn spec_meter_bar(
    samples: nat,
    sample_rate: u32,
    bars: nat,
    bar: int,
) -> Option<(int, int)> {
    let chunk = spec_meter_chunk(sample_rate) as int;
    let start = if samples <= chunk * bars {
        0
    } else {
        samples - chunk * bars
    };
    let from = start + bar * chunk;
    let to = if start + (bar + 1) * chunk <= samples {
        start + (bar + 1) * chunk
    } else {
        samples as int
    };
    if from < to {
        Some((from, to))
    } else {
        None
    }
}

/// The stretch of samples each bar of the meter shows.
pub fn meter(samples: usize, sample_rate: u32, bars: usize) -> (windows: Vec<
    Option<(usize, usize)>,
>)
    requires
        spec_meter_chunk(sample_rate) * bars <= usize::MAX,
    ensures
        windows.len() == bars,
        forall|i: int|
            0 <= i < bars ==> match (
                #[trigger] windows@[i],
                spec_meter_bar(samples as nat, sample_rate, bars as nat, i),
            ) {
                (Some(a), Some(b)) => a.0 == b.0 && a.1 == b.1,
                (None, None) => true,
                _ => false,
            },
{
    let chunk: usize = if sample_rate / 40 == 0 {
        1
    } else {
        (sample_rate / 40) as usize
    };
    let span: usize = chunk * bars;
    let start: usize = if samples <= span {
        0
    } else {
        samples - span
    };
    let mut windows: Vec<Option<(usize, usize)>> = Vec::new();
    let mut i: usize = 0;
    while i < bars
        invariant
            i <= bars,
            windows.len() == i,
            chunk == spec_meter_chunk(sample_rate),
            span == chunk * bars,
            start == (if samples <= span {
                0
            } else {
                samples - span
            }),
            forall|j: int|
                0 <= j < i ==> match (
                    #[trigger] windows@[j],
                    spec_meter_bar(samples as nat, sample_rate, bars as nat, j),
                ) {
                    (Some(a), Some(b)) => a.0 == b.0 && a.1 == b.1,
                    (None, None) => true,
                    _ => false,
                },
        decreases bars - i,
    {
        assert(i * chunk + chunk == (i + 1) * chunk) by (nonlinear_arith);
        assert((i + 1) * chunk <= chunk * bars) by (nonlinear_arith)
            requires
                i < bars,
        ;
        let offset: usize = i * chunk;
        let left: usize = samples - start;
        // Measured from where the shown stretch begins, so nothing here can
        // run past the end of what was recorded.
        let to: usize = if offset + chunk <= left {
            offset + chunk
        } else {
            left
        };
        if offset < to {
            windows.push(Some((start + offset, start + to)));
        } else {
            windows.push(None);
        }
        i = i + 1;
    }
    windows
}

/// Every bar of the meter shows samples that were recorded, and the bars follow
/// one another.
pub proof fn lemma_the_meter_stays_within_the_recording(
    samples: nat,
    sample_rate: u32,
    bars: nat,
    bar: int,
)
    requires
        0 <= bar < bars,
    ensures
        spec_meter_bar(samples, sample_rate, bars, bar) matches Some((from, to)) ==> 0 <= from < to
            <= samples,
        match (
            spec_meter_bar(samples, sample_rate, bars, bar),
            spec_meter_bar(samples, sample_rate, bars, bar + 1),
        ) {
            (Some(a), Some(b)) => a.1 == b.0,
            (None, Some(_)) => false,
            _ => true,
        },
{
    let chunk = spec_meter_chunk(sample_rate) as int;
    assert(bar * chunk >= 0) by (nonlinear_arith)
        requires
            bar >= 0,
            chunk >= 1,
    ;
    assert((bar + 1) * chunk == bar * chunk + chunk) by (nonlinear_arith);
    assert((bar + 2) * chunk == bar * chunk + 2 * chunk) by (nonlinear_arith);
}

/// What came of asking a file for its next packet.
#[derive(Clone, Debug)]
pub enum Packet {
    /// A packet of this track.
    Read(u32),
    /// The file ended where a packet was looked for.
    UnexpectedEnd,
    ResetRequired,
    Failed(String),
}

/// What came of decoding a packet.
#[derive(Clone, Debug)]
pub enum Decoded {
    Samples { some: bool, sample_rate: u32, channels: usize },
    /// The packet was damaged.
    Damaged,
    Failed(String),
}

/// What to do about the file next.
#[derive(Clone, Debug, PartialEq, Eq)]
pub enum Step {
    Decode,
    Skip,
    Stop,
    Fail(String),
}

/// An audio file being read: which of its tracks, and what has come of it so
/// far.
#[derive(Clone, Copy, Debug, PartialEq, Eq, Structural)]
pub struct Reading {
    pub track: u32,
    /// Whether any samples have been decoded.
    pub heard: bool,
    pub sample_rate: u32,
    pub channels: usize,
}

/// The first track with a codec, of the ids of the tracks and whether each has
/// one.
pub fn audio_track(tracks: &Vec<(u32, bool)>) -> (track: Result<u32, &'static str>)
    ensures
        match track {
            Ok(id) => exists|i: int|
                0 <= i < tracks.len() && (#[trigger] tracks@[i]) == (id, true) && forall|j: int|
                    0 <= j < i ==> !(#[trigger] tracks@[j]).1,
            Err(reason) => reason@ == "that file has no audio in it"@ && forall|i: int|
                0 <= i < tracks.len() ==> !(#[trigger] tracks@[i]).1,
        },
{
    let mut i: usize = 0;
    while i < tracks.len()
        invariant
            i <= tracks.len(),
            forall|j: int| 0 <= j < i ==> !(#[trigger] tracks@[j]).1,
        decreases tracks.len() - i,
    {
        if tracks[i].1 {
            assert(tracks@[i as int] == (tracks@[i as int].0, true));
            return Ok(tracks[i].0);
        }
        i = i + 1;
    }
    Err("that file has no audio in it")
}

/// What is said of a file that fails in the middle.
pub open spec fn spec_undecodable(reason: Seq<char>) -> Seq<char> {
    "that file could not be decoded: "@ + reason
}

fn undecodable(reason: &str) -> (line: String)
    ensures
        line@ == spec_undecodable(reason@),
{
    let mut line = "that file could not be decoded: ".to_owned();
    line.append(reason);
    line
}

impl Step {
    /// Whether this is what to do with what the file gave.
    pub open spec fn follows(self, reading: Reading, packet: Packet) -> bool {
        match packet {
            Packet::Read(track) => self == (if track == reading.track {
                Step::Decode
            } else {
                Step::Skip
            }),
            Packet::UnexpectedEnd | Packet::ResetRequired => self == Step::Stop,
            Packet::Failed(reason) => self matches Step::Fail(line) && line@ == spec_undecodable(
                reason@,
            ),
        }
    }

    /// Whether this is what to do after decoding.
    pub open spec fn goes_on(self, decoded: Decoded) -> bool {
        match decoded {
            Decoded::Samples { .. } => self == Step::Decode,
            Decoded::Damaged => self == Step::Skip,
            Decoded::Failed(reason) => self matches Step::Fail(line) && line@ == spec_undecodable(
                reason@,
            ),
        }
    }
}

impl Reading {
    /// What has come of a file once this was decoded.
    pub open spec fn having(self, decoded: Decoded) -> Reading {
        match decoded {
            Decoded::Samples { some, sample_rate, channels } => Reading {
                track: self.track,
                heard: self.heard || some,
                sample_rate,
                channels,
            },
            _ => self,
        }
    }

    /// The rate of what was read, and how many channels to mix down to one.
    pub open spec fn shape(self) -> (u32, usize) {
        (
            self.sample_rate,
            if self.channels <= 1 {
                1
            } else {
                self.channels
            },
        )
    }

    /// A file about to be read, at the rate its track claims.
    pub fn begin(track: u32, sample_rate: Option<u32>) -> (reading: Self)
        ensures
            reading == (Reading {
                track,
                heard: false,
                sample_rate: match sample_rate {
                    Some(rate) => rate,
                    None => 0,
                },
                channels: 0,
            }),
    {
        Reading {
            track,
            heard: false,
            sample_rate: match sample_rate {
                Some(rate) => rate,
                None => 0,
            },
            channels: 0,
        }
    }

    /// What to do with what the file gave. Running out and needing a reset are
    /// both how a file ends, not how one fails; a packet of another track is
    /// passed over.
    pub fn packet(&self, packet: &Packet) -> (step: Step)
        ensures
            step.follows(*self, *packet),
    {
        match packet {
            Packet::Read(track) => if *track == self.track {
                Step::Decode
            } else {
                Step::Skip
            },
            Packet::UnexpectedEnd => Step::Stop,
            Packet::ResetRequired => Step::Stop,
            Packet::Failed(reason) => Step::Fail(undecodable(reason.as_str())),
        }
    }

    /// What to do after decoding. A damaged packet loses that packet, not the
    /// recording.
    pub fn decoded(&mut self, decoded: &Decoded) -> (step: Step)
        ensures
            *final(self) == old(self).having(*decoded),
            step.goes_on(*decoded),
    {
        match decoded {
            Decoded::Samples { some, sample_rate, channels } => {
                self.heard = self.heard || *some;
                self.sample_rate = *sample_rate;
                self.channels = *channels;
                Step::Decode
            },
            Decoded::Damaged => Step::Skip,
            Decoded::Failed(reason) => Step::Fail(undecodable(reason.as_str())),
        }
    }

    /// Whether what was read is a recording.
    pub open spec fn is_recording(self) -> bool {
        self.heard && self.sample_rate != 0
    }

    /// The rate of the recording, and how many channels to mix down to one:
    /// a stereo reading is still a reading. A file that gave no sound is
    /// refused by the name of its format.
    pub fn finish(&self, extension: Option<&str>) -> (read: Result<(u32, usize), String>)
        ensures
            match read {
                Ok(shape) => self.is_recording() && shape == self.shape(),
                Err(reason) => !self.is_recording() && reason@ == spec_unreadable(
                    match extension {
                        Some(extension) => Some(text::lowercase(extension@)),
                        None => None,
                    },
                ),
            },
    {
        if !self.heard || self.sample_rate == 0 {
            Err(unreadable(extension))
        } else {
            let channels: usize = if self.channels <= 1 {
                1
            } else {
                self.channels
            };
            Ok((self.sample_rate, channels))
        }
    }
}

/// What is said of a file that will not open. It names the format the person
/// chose, because "unsupported" leaves them guessing which part was wrong.
pub open spec fn spec_unreadable(format: Option<Seq<char>>) -> Seq<char> {
    match format {
        Some(format) => "That ."@ + format
            + " file could not be read. Try a wav, m4a, mp3, flac or ogg recording."@,
        None => "That file could not be read. Try a wav, m4a, mp3, flac or ogg recording."@,
    }
}

/// What to say when a file with this extension will not open.
pub fn unreadable(extension: Option<&str>) -> (line: String)
    ensures
        line@ == spec_unreadable(
            match extension {
                Some(extension) => Some(text::lowercase(extension@)),
                None => None,
            },
        ),
{
    match extension {
        Some(extension) => unreadable_format(Some(text::lower(extension).as_str())),
        None => unreadable_format(None),
    }
}

/// What to say when a file of this format will not open.
pub fn unreadable_format(format: Option<&str>) -> (line: String)
    ensures
        line@ == spec_unreadable(
            match format {
                Some(format) => Some(format@),
                None => None,
            },
        ),
{
    match format {
        Some(format) => {
            let mut line = "That .".to_owned();
            line.append(format);
            line.append(" file could not be read. Try a wav, m4a, mp3, flac or ogg recording.");
            line
        },
        None =>
            "That file could not be read. Try a wav, m4a, mp3, flac or ogg recording.".to_owned(),
    }
}

/// A take that passes has cleared every bar: it is neither too short nor too
/// long, neither too quiet nor clipping, and stands far enough above the room.
pub proof fn lemma_a_passing_take_clears_every_bar(
    samples: nat,
    seconds: Single,
    peak: Single,
    snr_db: Single,
)
    requires
        spec_first_flaw(samples, seconds, peak) is None,
        spec_settle(seconds, snr_db) is Ok,
    ensures
        samples > 0,
        !seconds.spec_less(limit(MIN_SECONDS)),
        !limit(MAX_SECONDS).spec_less(seconds),
        !peak.spec_less(limit(MIN_PEAK)),
        peak.is_nan() || peak.spec_less(limit(CLIPPING_PEAK)),
        !snr_db.spec_less(limit(MIN_SNR_DB)),
        spec_settle(seconds, snr_db) == Ok::<Quality, Flaw>(Quality { seconds, snr_db }),
{
}

/// The voice is never measured quieter than the room.
pub proof fn lemma_speech_is_no_quieter_than_the_floor(loudness: Loudness, frames: Seq<Single>)
    requires
        frames.len() > 0,
        measures(loudness, frames),
    ensures
        !loudness.speech.spec_less(loudness.floor),
{
    let sorted = choose|sorted: Seq<Single>| #[trigger]
        ordered(sorted, frames) && loudness.floor == sorted[(frames.len() / 10) as int]
            && loudness.speech == sorted[(frames.len() * 9 / 10) as int];
    sorted.to_multiset_ensures();
    frames.to_multiset_ensures();
    assert(frames.len() / 10 <= frames.len() * 9 / 10 < frames.len());
}

/// What the limits are: six seconds and sixty, two hundredths and ninety-nine
/// hundredths of full scale, to the nearest there is, and fifteen decibels.
pub proof fn lemma_what_the_limits_are()
    ensures
        limit(MIN_SECONDS).steps() == 6 * pow2(149),
        limit(MAX_SECONDS).steps() == 60 * pow2(149),
        limit(MIN_SNR_DB).steps() == 15 * pow2(149),
        -50 * pow2(120) < 100 * limit(MIN_PEAK).steps() - 2 * pow2(149) < 50 * pow2(120),
        -50 * pow2(125) < 100 * limit(CLIPPING_PEAK).steps() - 99 * pow2(149) < 50 * pow2(125),
        MIN_FRAMES == 10,
{
    lemma2_to64();
    lemma_pow2_adds(21, 128);
    lemma_pow2_adds(18, 131);
    lemma_pow2_adds(20, 129);
    lemma_pow2_adds(29, 120);
    lemma_pow2_adds(24, 125);
    assert(limit(MIN_SECONDS).significand() == 0xC0_0000 && limit(MIN_SECONDS).shift() == 128);
    assert(limit(MAX_SECONDS).significand() == 0xF0_0000 && limit(MAX_SECONDS).shift() == 131);
    assert(limit(MIN_SNR_DB).significand() == 0xF0_0000 && limit(MIN_SNR_DB).shift() == 129);
    assert(limit(MIN_PEAK).significand() == 0xA3_D70A && limit(MIN_PEAK).shift() == 120);
    assert(limit(CLIPPING_PEAK).significand() == 0xFD_70A4 && limit(CLIPPING_PEAK).shift() == 125);
    lemma_pow2_pos(120);
    lemma_pow2_pos(125);
}

/// What is said against a take is the first thing that is wrong with it:
/// nothing in it, too short, too long, too quiet, clipping, in that order, and
/// with the length it had where that is what is wrong.
pub proof fn lemma_the_first_thing_wrong_is_said(samples: nat, seconds: Single, peak: Single)
    ensures
        ({
            let flaw = spec_first_flaw(samples, seconds, peak);
            let short = seconds.spec_less(limit(MIN_SECONDS));
            let long = limit(MAX_SECONDS).spec_less(seconds);
            let quiet = peak.spec_less(limit(MIN_PEAK));
            let clips = !peak.is_nan() && !peak.spec_less(limit(CLIPPING_PEAK));
            &&& samples == 0 <==> flaw == Some(Flaw::Nothing)
            &&& samples > 0 && short <==> flaw == Some(Flaw::TooShort(seconds))
            &&& samples > 0 && !short && long <==> flaw == Some(Flaw::TooLong(seconds))
            &&& samples > 0 && !short && !long && quiet <==> flaw == Some(Flaw::TooQuiet)
            &&& samples > 0 && !short && !long && !quiet && clips <==> flaw == Some(Flaw::Clipping)
            &&& samples > 0 && !short && !long && !quiet && !clips <==> flaw is None
        }),
{
}

/// A take that passed everything else is turned away exactly where the voice
/// does not stand far enough above the room, with how far it stood; and what
/// passes keeps the length and the noise it was measured at.
pub proof fn lemma_noise_is_weighed_last(seconds: Single, snr_db: Single)
    ensures
        snr_db.spec_less(limit(MIN_SNR_DB)) ==> spec_settle(seconds, snr_db) == Err::<
            Quality,
            Flaw,
        >(Flaw::TooNoisy(snr_db)),
        !snr_db.spec_less(limit(MIN_SNR_DB)) ==> (spec_settle(seconds, snr_db) matches Ok(quality)
            && quality.seconds == seconds && quality.snr_db == snr_db),
{
}

/// A frame counts where there is any sound in it.
pub proof fn lemma_only_sound_counts(levels: Seq<Single>, level: Single)
    ensures
        audible(Seq::empty()).len() == 0,
        (Single { bits: 0 }).spec_less(level) ==> audible(levels.push(level)) == audible(
            levels,
        ).push(level),
        !(Single { bits: 0 }).spec_less(level) ==> audible(levels.push(level)) == audible(levels),
{
    reveal(Seq::filter);
    assert(levels.push(level).drop_last() =~= levels);
}

/// The floor is where a tenth of the frames have gone by, quiet to loud, and
/// the voice is where nine tenths have: everything before each is no louder,
/// and everything after it is no quieter.
pub proof fn lemma_where_the_floor_and_the_voice_stand(loudness: Loudness, frames: Seq<Single>)
    requires
        frames.len() > 0,
        measures(loudness, frames),
    ensures
        exists|sorted: Seq<Single>, floor: int, voice: int|
            #![trigger sorted[floor], sorted[voice]]
            {
                &&& sorted.to_multiset() == frames.to_multiset()
                &&& 0 <= floor <= voice < frames.len()
                &&& 10 * floor <= frames.len() < 10 * (floor + 1)
                &&& 10 * voice <= 9 * frames.len() < 10 * (voice + 1)
                &&& sorted[floor] == loudness.floor
                &&& sorted[voice] == loudness.speech
                &&& forall|i: int|
                    0 <= i < floor ==> !loudness.floor.spec_less(#[trigger] sorted[i])
                &&& forall|i: int|
                    floor < i < frames.len() ==> !(#[trigger] sorted[i]).spec_less(loudness.floor)
                &&& forall|i: int|
                    0 <= i < voice ==> !loudness.speech.spec_less(#[trigger] sorted[i])
                &&& forall|i: int|
                    voice < i < frames.len() ==> !(#[trigger] sorted[i]).spec_less(loudness.speech)
            },
{
    let sorted = choose|sorted: Seq<Single>| #[trigger]
        ordered(sorted, frames) && loudness.floor == sorted[(frames.len() / 10) as int]
            && loudness.speech == sorted[(frames.len() * 9 / 10) as int];
    sorted.to_multiset_ensures();
    frames.to_multiset_ensures();
    let floor = (frames.len() / 10) as int;
    let voice = (frames.len() * 9 / 10) as int;
    assert(sorted[floor] == loudness.floor && sorted[voice] == loudness.speech);
}

/// A frame is a fiftieth of a second and a bar of the meter a fortieth, in
/// whole samples, and never less than one.
pub proof fn lemma_how_long_a_frame_and_a_bar_are(sample_rate: u32)
    ensures
        sample_rate >= 50 ==> spec_frame_window(sample_rate) * 50 <= sample_rate < (
        spec_frame_window(sample_rate) + 1) * 50,
        sample_rate < 50 ==> spec_frame_window(sample_rate) == 1,
        sample_rate >= 40 ==> spec_meter_chunk(sample_rate) * 40 <= sample_rate < (spec_meter_chunk(
            sample_rate,
        ) + 1) * 40,
        sample_rate < 40 ==> spec_meter_chunk(sample_rate) == 1,
{
}

/// The meter shows the end of what was recorded: with enough of it every bar is
/// full and the last one ends where the recording does; with less, the bars
/// fill from the left and the first begins where the recording does.
pub proof fn lemma_the_meter_shows_the_end_of_the_recording(
    samples: nat,
    sample_rate: u32,
    bars: nat,
    bar: int,
)
    requires
        0 <= bar < bars,
    ensures
        ({
            let chunk = spec_meter_chunk(sample_rate) as int;
            let shown = spec_meter_bar(samples, sample_rate, bars, bar);
            &&& samples >= chunk * bars ==> shown == Some(
                (samples - (bars - bar) * chunk, samples - (bars - bar - 1) * chunk),
            )
            &&& samples <= chunk * bars ==> {
                &&& (bar + 1) * chunk <= samples ==> shown == Some(
                    (bar * chunk, (bar + 1) * chunk),
                )
                &&& bar * chunk < samples < (bar + 1) * chunk ==> shown == Some(
                    (bar * chunk, samples as int),
                )
                &&& samples <= bar * chunk ==> shown is None
            }
        }),
{
    let chunk = spec_meter_chunk(sample_rate) as int;
    assert((bars - bar) * chunk == chunk * bars - bar * chunk) by (nonlinear_arith);
    assert((bars - bar - 1) * chunk == chunk * bars - bar * chunk - chunk) by (nonlinear_arith);
    assert((bar + 1) * chunk == bar * chunk + chunk) by (nonlinear_arith);
    assert((bar + 1) * chunk <= chunk * bars) by (nonlinear_arith)
        requires
            0 <= bar < bars,
            chunk >= 1,
    ;
}

/// What is said of a file that will not open names its format where it has one,
/// and is otherwise the same.
pub proof fn lemma_an_unreadable_file_is_named(format: Seq<char>)
    ensures
        ({
            let named = spec_unreadable(Some(format));
            let plain = spec_unreadable(None);
            &&& named.take(6) == "That ."@
            &&& named.subrange(6, 6 + format.len() as int) == format
            &&& named.skip(6 + format.len() as int) == plain.skip(4)
            &&& plain.take(4) == "That"@
        }),
{
    reveal_strlit("That .");
    reveal_strlit("That");
    reveal_strlit(" file could not be read. Try a wav, m4a, mp3, flac or ogg recording.");
    reveal_strlit("That file could not be read. Try a wav, m4a, mp3, flac or ogg recording.");
    let named = spec_unreadable(Some(format));
    let plain = spec_unreadable(None);
    assert(named.take(6) =~= "That ."@);
    assert(named.subrange(6, 6 + format.len() as int) =~= format);
    assert(named.skip(6 + format.len() as int) =~= plain.skip(4));
    assert(plain.take(4) =~= "That"@);
}

/// What was read is a recording exactly where something was heard at a rate
/// that is known.
pub proof fn lemma_when_what_was_read_is_a_recording(reading: Reading)
    ensures
        reading.is_recording() <==> reading.heard && reading.sample_rate > 0,
{
}

/// The advice on a take quotes what was measured of it and the limit it did not
/// meet: its own length and the six seconds it takes, its own length and the
/// sixty it may last, or how far its voice stood above the room.
pub proof fn lemma_advice_quotes_what_was_measured(figure: Single)
    ensures
        limit(MIN_SECONDS).spec_rounded() == seq!['6'],
        limit(MAX_SECONDS).spec_rounded() == seq!['6', '0'],
        ({
            let quoted = figure.spec_rounded();
            let short = Flaw::TooShort(figure).spec_advice();
            let long = Flaw::TooLong(figure).spec_advice();
            let noisy = Flaw::TooNoisy(figure).spec_advice();
            let n = quoted.len() as int;
            &&& short.take(5) == "Only "@
            &&& short.subrange(5, 5 + n) == quoted
            &&& short.subrange(short.len() - 18, short.len() as int) == seq!['6']
                + " seconds minimum."@
            &&& long.take(8) == "That is "@
            &&& long.subrange(8, 8 + n) == quoted
            &&& long.skip(long.len() - 3) == seq!['6', '0', '.']
            &&& noisy.subrange(43, 43 + n) == quoted
        }),
{
    lemma_what_the_limits_are();
    lemma_pow2_pos(149);
    let unit = pow2(149) as int;
    assert(nearest((6 * unit) as nat, unit as nat) == 6) by {
        vstd::arithmetic::div_mod::lemma_div_multiples_vanish(6, unit);
        vstd::arithmetic::div_mod::lemma_mod_multiples_basic(6, unit);
        assert(6 * unit == unit * 6) by (nonlinear_arith);
    }
    assert(nearest((60 * unit) as nat, unit as nat) == 60) by {
        vstd::arithmetic::div_mod::lemma_div_multiples_vanish(60, unit);
        vstd::arithmetic::div_mod::lemma_mod_multiples_basic(60, unit);
        assert(60 * unit == unit * 60) by (nonlinear_arith);
    }
    reveal_with_fuel(text::decimal, 3);
    assert(limit(MIN_SECONDS).spec_rounded() =~= seq!['6']);
    assert(limit(MAX_SECONDS).spec_rounded() =~= seq!['6', '0']);
    reveal_strlit("Only ");
    reveal_strlit(" seconds minimum.");
    reveal_strlit("That is ");
    reveal_strlit(".");
    reveal_strlit("Too much background noise (signal-to-noise ");
    let quoted = figure.spec_rounded();
    let n = quoted.len() as int;
    let short = Flaw::TooShort(figure).spec_advice();
    let long = Flaw::TooLong(figure).spec_advice();
    assert(short.take(5) =~= "Only "@);
    assert(short.subrange(5, 5 + n) =~= quoted);
    assert(short.subrange(short.len() - 18, short.len() as int) =~= seq!['6']
        + " seconds minimum."@);
    assert(long.take(8) =~= "That is "@);
    assert(long.subrange(8, 8 + n) =~= quoted);
    assert(long.skip(long.len() - 3) =~= seq!['6', '0', '.']);
    assert(Flaw::TooNoisy(figure).spec_advice().subrange(43, 43 + n) =~= quoted);
}

/// A file is read track by track: only packets of the track that was picked are
/// decoded, a file that runs out or needs a reset has ended and not failed, and
/// one that fails says why.
pub proof fn lemma_how_a_file_is_read(reading: Reading, packet: Packet, step: Step)
    requires
        step.follows(reading, packet),
    ensures
        step is Decode <==> (packet matches Packet::Read(track) && track == reading.track),
        step is Skip <==> (packet matches Packet::Read(track) && track != reading.track),
        step is Stop <==> packet is UnexpectedEnd || packet is ResetRequired,
        step is Fail <==> packet is Failed,
{
}

/// What has been heard stays heard, and the newest rate and number of channels
/// are the ones that count; a damaged packet is passed over and loses nothing,
/// and only a failure ends the reading.
pub proof fn lemma_what_was_heard_stays_heard(reading: Reading, decoded: Decoded, step: Step)
    requires
        step.goes_on(decoded),
    ensures
        reading.having(decoded).track == reading.track,
        reading.heard ==> reading.having(decoded).heard,
        decoded matches Decoded::Samples { some, sample_rate, channels } ==> {
            &&& reading.having(decoded).heard <==> reading.heard || some
            &&& reading.having(decoded).sample_rate == sample_rate
            &&& reading.having(decoded).channels == channels
            &&& step is Decode
        },
        !(decoded is Samples) ==> reading.having(decoded) == reading,
        decoded is Damaged <==> step is Skip,
        decoded is Failed <==> step is Fail,
{
}

/// A recording comes at the rate it was read at, mixed down from as many
/// channels as it has, and from one where it claims none.
pub proof fn lemma_what_shape_a_recording_has(reading: Reading)
    ensures
        ({
            let (rate, channels) = reading.shape();
            &&& rate == reading.sample_rate
            &&& reading.channels > 0 ==> channels == reading.channels
            &&& reading.channels == 0 ==> channels == 1
        }),
{
}

} // verus!
