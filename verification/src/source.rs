//! The stages that shape decoded audio into what a playback window asks for.

use crate::config::{AudioConfig, PlaybackWindow};
use crate::gain::{Gain, UNITY_BITS};
use crate::time::{TimeSpan, MAX_NANOS};
use vstd::prelude::*;

verus! {

/// One step applied to a stream of decoded samples.
#[derive(Clone, Copy, Debug, PartialEq, Eq, Structural)]
pub enum Stage {
    /// Drop this much playback time from the head of the stream.
    Skip(TimeSpan),
    /// Keep at most this much playback time from where the stream stands.
    Take(TimeSpan),
    /// Scale the amplitude of every sample.
    Amplify(Gain),
}

/// The stages that a playback window calls for, in the order in which they
/// apply: skip, then take, then amplify. A stage that would change nothing
/// is left out: a skip of nothing, a take of all that is left, a gain of 1.0.
pub open spec fn stages(window: PlaybackWindow) -> Seq<Stage> {
    let skip = if window.start_offset != 0 {
        seq![Stage::Skip(TimeSpan::of(window.start_offset))]
    } else {
        Seq::empty()
    };
    let take = if window.play_duration != MAX_NANOS {
        seq![Stage::Take(TimeSpan::of(window.play_duration))]
    } else {
        Seq::empty()
    };
    let amplify = if window.gain.bits != UNITY_BITS {
        seq![Stage::Amplify(window.gain)]
    } else {
        Seq::empty()
    };
    skip + take + amplify
}

/// A window at unit gain has no amplify stage, so it is shaped exactly as
/// it would be with the gain left out of consideration.
pub proof fn lemma_unity_gain_adds_no_stage(window: PlaybackWindow)
    requires
        window.gain.bits == UNITY_BITS,
    ensures
        forall|i: int| 0 <= i < stages(window).len() ==> !(stages(window)[i] is Amplify),
        stages(window).len() <= 2,
{
}

/// A stream that starts at the head of the file, runs to its end and plays
/// at unit gain needs no stage at all.
pub proof fn lemma_default_window_needs_no_stage(window: PlaybackWindow)
    requires
        window.start_offset == 0,
        window.play_duration == MAX_NANOS,
        window.gain.bits == UNITY_BITS,
    ensures
        stages(window) =~= Seq::<Stage>::empty(),
{
}

impl AudioConfig {
    /// The stages to apply to the decoded file, first to last, before the
    /// result is wrapped for replay.
    pub fn generate(&self) -> (plan: Vec<Stage>)
        ensures
            plan@ == stages(self@),
    {
        let start = self.start();
        let duration = self.duration();
        let volume = self.volume();
        proof {
            use_type_invariant(start);
            use_type_invariant(duration);
            TimeSpan::lemma_of_view(start@);
            TimeSpan::lemma_of_view(duration@);
            TimeSpan::lemma_view_injective(start, TimeSpan::of(start@));
            TimeSpan::lemma_view_injective(duration, TimeSpan::of(duration@));
        }
        let mut plan: Vec<Stage> = Vec::new();
        if start.as_nanos() != 0 {
            plan.push(Stage::Skip(start));
        }
        if duration.as_nanos() != MAX_NANOS {
            plan.push(Stage::Take(duration));
        }
        if !volume.is_unity() {
            plan.push(Stage::Amplify(volume));
        }
        assert(plan@ =~= stages(self@));
        plan
    }
}

} // verus!
