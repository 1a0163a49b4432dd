//! What a recording has to be before it becomes a voice.

use voicestudio::recorder::{
    audio_track, frame_window, measure, meter, settle, unreadable, unreadable_format, Decoded,
    Flaw, Packet, Quality, Reading, Step, MAX_SECONDS, MIN_SNR_DB,
};
use voicestudio::single::Single;

fn single(n: f32) -> Single {
    Single { bits: n.to_bits() }
}

fn float(n: Single) -> f32 {
    f32::from_bits(n.bits)
}

/// The measurements are taken here; the bars are the library's.
fn assess(samples: &[f32], sample_rate: u32) -> Result<Quality, String> {
    let seconds = single(samples.len() as f32 / sample_rate as f32);
    let peak = single(samples.iter().fold(0.0f32, |m, s| m.max(s.abs())));
    let levels: Vec<Single> = samples
        .chunks(frame_window(sample_rate) as usize)
        .map(|c| single((c.iter().map(|s| s * s).sum::<f32>() / c.len() as f32).sqrt()))
        .collect();
    let loudness =
        measure(samples.len(), seconds, peak, &levels).map_err(|flaw| flaw.advice())?;
    let (floor, speech) = (float(loudness.floor), float(loudness.speech));
    let snr_db = if floor > 0.0 { 20.0 * (speech / floor).log10() } else { 0.0 };
    settle(seconds, single(snr_db)).map_err(|flaw| flaw.advice())
}

/// A tone at a given amplitude, which is enough to exercise every check:
/// the bars are about length, peak and the gap between speech and silence.
fn tone(seconds: f32, amplitude: f32, rate: u32) -> Vec<f32> {
    let n = (seconds * rate as f32) as usize;
    (0..n)
        .map(|i| {
            let t = i as f32 / rate as f32;
            (t * 220.0 * std::f32::consts::TAU).sin() * amplitude
        })
        .collect()
}

/// Speech with a noise floor under it, so the signal-to-noise figure has
/// something to measure. Alternating loud and quiet halves of a second.
fn speech_over_noise(seconds: f32, speech: f32, noise: f32, rate: u32) -> Vec<f32> {
    tone(seconds, 1.0, rate)
        .iter()
        .enumerate()
        .map(|(i, s)| {
            let loud = (i / (rate as usize / 2)) % 2 == 0;
            s * if loud { speech } else { noise }
        })
        .collect()
}

#[test]
fn nothing_recorded_is_rejected_by_name() {
    let err = assess(&[], 24_000).unwrap_err();
    assert!(err.contains("microphone"), "{err}");
}

#[test]
fn a_take_shorter_than_the_script_is_rejected() {
    let err = assess(&tone(2.0, 0.4, 24_000), 24_000).unwrap_err();
    assert!(err.contains("seconds recorded"), "{err}");
    assert_eq!(
        err,
        "Only 2 seconds recorded. Read the whole script — about 6 seconds minimum."
    );
}

#[test]
fn a_take_longer_than_the_bar_is_rejected() {
    let longest = f32::from_bits(MAX_SECONDS);
    let err = assess(&tone(longest + 5.0, 0.4, 24_000), 24_000).unwrap_err();
    assert!(err.contains("Keep it under"), "{err}");
    assert_eq!(err, "That is 65 seconds. Keep it under 60.");
}

#[test]
fn a_silent_take_is_rejected_as_too_quiet() {
    let err = assess(&tone(20.0, 0.001, 24_000), 24_000).unwrap_err();
    assert!(err.contains("too quiet"), "{err}");
}

#[test]
fn a_clipping_take_is_rejected() {
    let mut samples = tone(20.0, 0.5, 24_000);
    samples[100] = 1.0;
    let err = assess(&samples, 24_000).unwrap_err();
    assert!(err.contains("clipping"), "{err}");
}

#[test]
fn a_good_take_passes_and_reports_what_it_measured() {
    let quality = speech_over_noise(20.0, 0.5, 0.002, 24_000);
    let quality = assess(&quality, 24_000).expect("a clean take passes");
    assert!((float(quality.seconds) - 20.0).abs() < 0.1, "{}", float(quality.seconds));
    assert!(
        float(quality.snr_db) > f32::from_bits(MIN_SNR_DB),
        "snr {} dB",
        float(quality.snr_db)
    );
}

#[test]
fn a_noisy_room_scores_worse_than_a_quiet_one() {
    let rate = 24_000;
    let quiet = assess(&speech_over_noise(20.0, 0.5, 0.002, rate), rate).unwrap();
    let noisy = assess(&speech_over_noise(20.0, 0.5, 0.05, rate), rate).unwrap();
    assert!(
        float(noisy.snr_db) < float(quiet.snr_db),
        "noisy {} dB should score under quiet {} dB",
        float(noisy.snr_db),
        float(quiet.snr_db)
    );
}

#[test]
fn the_bars_do_not_depend_on_the_sample_rate() {
    // The same twenty seconds at two rates is the same take, and a check
    // written in samples rather than seconds would disagree.
    let low = assess(&speech_over_noise(20.0, 0.5, 0.002, 16_000), 16_000).unwrap();
    let high = assess(&speech_over_noise(20.0, 0.5, 0.002, 48_000), 48_000).unwrap();
    assert!((float(low.seconds) - float(high.seconds)).abs() < 0.1);
}

#[test]
fn a_room_that_is_all_noise_is_rejected_with_its_figure() {
    let err = assess(&tone(20.0, 0.5, 24_000), 24_000).unwrap_err();
    assert_eq!(
        err,
        "Too much background noise (signal-to-noise 0 dB). Find a quieter room and try again."
    );
}

#[test]
fn a_take_with_hardly_any_sound_in_it_cannot_be_checked() {
    let levels: Vec<Single> = (0..9).map(|i| single(0.1 + i as f32)).collect();
    let measured = measure(1_000, single(20.0), single(0.5), &levels);
    assert_eq!(measured, Err(Flaw::TooShortToCheck));
    assert_eq!(
        Flaw::TooShortToCheck.advice(),
        "The recording is too short to check. Try again."
    );
}

#[test]
fn the_quiet_and_the_loud_are_read_off_the_frames_in_order() {
    // Twenty frames with sound, given loud to quiet, and as many without.
    let mut levels: Vec<Single> = (1..=20).rev().map(|i| single(i as f32)).collect();
    levels.extend((0..20).map(|_| single(0.0)));
    let loudness = measure(1_000, single(20.0), single(0.5), &levels).unwrap();
    assert_eq!(float(loudness.floor), 3.0);
    assert_eq!(float(loudness.speech), 19.0);
}

#[test]
fn the_bars_stand_where_they_are_said_to() {
    assert_eq!(measure(1, single(5.99), single(0.5), &vec![]), Err(Flaw::TooShort(single(5.99))));
    assert_eq!(measure(1, single(60.1), single(0.5), &vec![]), Err(Flaw::TooLong(single(60.1))));
    assert_eq!(measure(1, single(60.0), single(0.019), &vec![]), Err(Flaw::TooQuiet));
    assert_eq!(measure(1, single(6.0), single(0.99), &vec![]), Err(Flaw::Clipping));
    assert_eq!(measure(1, single(6.0), single(0.98), &vec![]), Err(Flaw::TooShortToCheck));
    assert!(settle(single(20.0), single(14.9)).is_err());
    assert!(settle(single(20.0), single(15.0)).is_ok());
}

#[test]
fn a_quality_is_summed_up_in_words() {
    let quality = Quality { seconds: single(17.6), snr_db: single(41.2) };
    assert_eq!(quality.summary(), "18s recorded · 41 dB signal-to-noise");
}

#[test]
fn the_meter_shows_the_last_of_the_recording() {
    // At 400 samples a second a bar is ten samples.
    assert_eq!(meter(100, 400, 3), vec![Some((70, 80)), Some((80, 90)), Some((90, 100))]);
    // Not enough yet: the bars fill from the left.
    assert_eq!(meter(15, 400, 3), vec![Some((0, 10)), Some((10, 15)), None]);
    assert_eq!(meter(0, 400, 2), vec![None, None]);
    // A bar is never less than a sample.
    assert_eq!(meter(2, 10, 3), vec![Some((0, 1)), Some((1, 2)), None]);
    assert_eq!(frame_window(24_000), 480);
    assert_eq!(frame_window(10), 1);
}

#[test]
fn a_file_that_will_not_open_is_named_by_its_format() {
    let err = unreadable(Some("TXT"));
    assert!(err.contains(".txt"), "{err}");
    assert!(err.contains("m4a"), "{err}");
    assert_eq!(
        unreadable_format(Some("txt")),
        "That .txt file could not be read. Try a wav, m4a, mp3, flac or ogg recording."
    );
    assert_eq!(
        unreadable(None),
        "That file could not be read. Try a wav, m4a, mp3, flac or ogg recording."
    );
}

#[test]
fn the_first_track_with_a_codec_is_the_one_read() {
    assert_eq!(audio_track(&vec![(1, false), (7, true), (9, true)]), Ok(7));
    assert_eq!(audio_track(&vec![(1, false)]), Err("that file has no audio in it"));
}

#[test]
fn a_file_is_read_to_its_end_and_past_its_damage() {
    let mut reading = Reading::begin(7, Some(8_000));
    assert_eq!(reading.packet(&Packet::Read(3)), Step::Skip);
    assert_eq!(reading.packet(&Packet::Read(7)), Step::Decode);
    assert_eq!(reading.decoded(&Decoded::Damaged), Step::Skip);
    assert!(reading.finish(Some("wav")).is_err(), "nothing has been heard yet");
    let stereo = Decoded::Samples { some: true, sample_rate: 44_100, channels: 2 };
    assert_eq!(reading.decoded(&stereo), Step::Decode);
    assert_eq!(reading.packet(&Packet::UnexpectedEnd), Step::Stop);
    assert_eq!(reading.packet(&Packet::ResetRequired), Step::Stop);
    assert_eq!(reading.finish(Some("wav")), Ok((44_100, 2)));
}

#[test]
fn a_file_that_fails_in_the_middle_says_why() {
    let mut reading = Reading::begin(1, None);
    let wanted = Step::Fail("that file could not be decoded: bad frame".into());
    assert_eq!(reading.packet(&Packet::Failed("bad frame".into())), wanted);
    assert_eq!(reading.decoded(&Decoded::Failed("bad frame".into())), wanted);
}

#[test]
fn a_recording_needs_samples_and_a_rate() {
    let mut reading = Reading::begin(1, None);
    reading.decoded(&Decoded::Samples { some: true, sample_rate: 0, channels: 1 });
    assert!(reading.finish(None).is_err());
    reading.decoded(&Decoded::Samples { some: false, sample_rate: 8_000, channels: 0 });
    assert_eq!(reading.finish(None), Ok((8_000, 1)));
}
