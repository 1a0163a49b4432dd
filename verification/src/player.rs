//! The transport: which sound is loaded, and how far into it the listener is.
//!
//! The position is the player's own rather than a wall clock's, so the bar
//! follows the audio actually played. The two differ whenever the stream
//! stalls or someone pauses. What the output device reports is handed in:
//! whether it is paused, whether its queue is empty, and where it is. Times
//! are nanoseconds.

use vstd::prelude::*;

use crate::text;

verus! {

/// What to do to the sound.
#[derive(Clone, Copy, Debug, PartialEq, Eq, Structural)]
pub enum Transport {
    Play,
    Pause,
}

#[derive(Clone, Copy, Debug, PartialEq, Eq, Structural)]
pub struct AudioPlayer {
    /// How long the loaded clip runs.
    pub duration: u128,
    /// Whether this clip has been asked to play yet. The device only refreshes
    /// its reported position while a sound is being drawn from it, so before
    /// the first play the figure it holds still belongs to the clip before
    /// this one.
    pub started: bool,
}

/// Whether sound is coming out, of what the device reports.
pub open spec fn spec_playing(paused: bool, empty: bool) -> bool {
    !paused && !empty
}

/// What pressing play or pause comes to, of what the device reports.
pub open spec fn spec_asked(paused: bool, empty: bool) -> Transport {
    if !paused && !empty {
        Transport::Pause
    } else {
        Transport::Play
    }
}

impl AudioPlayer {
    /// Nothing loaded.
    pub fn new() -> (player: Self)
        ensures
            player == (AudioPlayer { duration: 0, started: false }),
    {
        AudioPlayer { duration: 0, started: false }
    }

    /// A clip has replaced whatever was queued.
    pub fn load(&mut self, duration: u128)
        ensures
            *final(self) == (AudioPlayer { duration, started: false }),
    {
        self.duration = duration;
        self.started = false;
    }

    pub fn play(&mut self) -> (asked: Transport)
        ensures
            asked == Transport::Play,
            *final(self) == (AudioPlayer { started: true, ..*old(self) }),
    {
        self.started = true;
        Transport::Play
    }

    pub fn pause(&self) -> (asked: Transport)
        ensures
            asked == Transport::Pause,
    {
        Transport::Pause
    }

    /// Playing means running and not finished: an exhausted queue reports
    /// itself as unpaused, which would otherwise show as permanently playing.
    pub fn is_playing(&self, paused: bool, empty: bool) -> (playing: bool)
        ensures
            playing == spec_playing(paused, empty),
    {
        !paused && !empty
    }

    pub fn finished(&self, empty: bool) -> (finished: bool)
        ensures
            finished == empty,
    {
        empty
    }

    /// Pause what is playing, play what is not.
    pub fn toggle(&mut self, paused: bool, empty: bool) -> (asked: Transport)
        ensures
            asked == spec_asked(paused, empty),
            *final(self) == old(self).toggled(paused, empty),
    {
        if self.is_playing(paused, empty) {
            self.pause()
        } else {
            self.play()
        }
    }

    /// The player once what is playing was paused, or what is not was played.
    pub open spec fn toggled(self, paused: bool, empty: bool) -> AudioPlayer {
        AudioPlayer {
            started: self.started || spec_asked(paused, empty) == Transport::Play,
            ..self
        }
    }

    /// How much of how much has been heard.
    pub open spec fn spec_progress(self, reported: nat) -> Option<(u128, u128)> {
        if self.duration == 0 {
            None
        } else {
            Some((self.spec_position(reported) as u128, self.duration))
        }
    }

    /// Where the listener is, of what the device reports.
    pub open spec fn spec_position(self, reported: nat) -> nat {
        if !self.started {
            0
        } else if reported <= self.duration {
            reported
        } else {
            self.duration as nat
        }
    }

    pub fn position(&self, reported: u128) -> (position: u128)
        ensures
            position == self.spec_position(reported as nat),
    {
        if !self.started {
            0
        } else if reported <= self.duration {
            reported
        } else {
            self.duration
        }
    }

    /// The device has jumped to a place in the clip, so its position is this
    /// clip's from here on.
    pub fn seek_to(&mut self)
        ensures
            *final(self) == (AudioPlayer { started: true, ..*old(self) }),
    {
        self.started = true;
    }

    /// How much of how much has been heard, for the progress bar. Nothing,
    /// where the clip has no length to be part of.
    pub fn progress(&self, reported: u128) -> (heard: Option<(u128, u128)>)
        ensures
            heard == self.spec_progress(reported as nat),
    {
        if self.duration == 0 {
            None
        } else {
            Some((self.position(reported), self.duration))
        }
    }
}

/// Minutes and seconds of a number of whole seconds.
pub fn format_time(seconds: u64) -> (written: String)
    ensures
        written@ == text::clock_time(seconds as nat),
{
    text::clock_text(seconds)
}

/// A clip that has just been loaded stands at its beginning, whatever the
/// device still reports of the one before it.
pub proof fn lemma_a_fresh_clip_stands_at_its_beginning(duration: u128, reported: nat)
    ensures
        (AudioPlayer { duration, started: false }).spec_position(reported) == 0,
{
}

/// The position never runs past the end.
pub proof fn lemma_the_position_stays_within_the_clip(player: AudioPlayer, reported: nat)
    ensures
        player.spec_position(reported) <= player.duration,
{
}

/// Once a clip has been started the position is what the device reports, up to
/// the end of the clip; before that it is the beginning.
pub proof fn lemma_the_position_is_what_is_reported(player: AudioPlayer, reported: nat)
    ensures
        player.started && reported <= player.duration ==> player.spec_position(reported)
            == reported,
        player.started && reported >= player.duration ==> player.spec_position(reported)
            == player.duration,
        !player.started ==> player.spec_position(reported) == 0,
{
}

/// Sound comes out only while the device runs and has something left, and that
/// is when pressing pauses it; any other time pressing plays, which starts the
/// clip. Neither changes how long it runs.
pub proof fn lemma_pressing_pauses_what_plays(player: AudioPlayer, paused: bool, empty: bool)
    ensures
        paused || empty ==> !spec_playing(paused, empty),
        !paused && !empty ==> spec_playing(paused, empty),
        spec_asked(paused, empty) == Transport::Pause <==> spec_playing(paused, empty),
        spec_playing(paused, empty) ==> player.toggled(paused, empty) == player,
        !spec_playing(paused, empty) ==> player.toggled(paused, empty).started,
        player.toggled(paused, empty).duration == player.duration,
{
}

/// How much has been heard is told of any clip that has a length, and is
/// nothing before it starts, no more than all of it, and all of it at the end.
pub proof fn lemma_how_much_has_been_heard(player: AudioPlayer, reported: nat)
    ensures
        player.spec_progress(reported) is None <==> player.duration == 0,
        player.spec_progress(reported) matches Some((heard, whole)) ==> {
            &&& whole == player.duration
            &&& heard <= whole
            &&& !player.started ==> heard == 0
            &&& player.started && reported >= whole ==> heard == whole
            &&& player.started && reported <= whole ==> heard == reported
        },
{
}

} // verus!
