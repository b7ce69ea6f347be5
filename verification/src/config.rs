//! Turning raw user input into one unambiguous playback window.

use crate::gain::{Gain, UNITY_BITS};
use crate::time::{TimeSpan, MAX_NANOS};
use vstd::prelude::*;

verus! {

/// What the user asked for, before any of it is reconciled.
#[derive(Debug)]
pub struct Args {
    /// The audio file to play.
    pub audio_file: String,
    /// The volume; 1.0 where unset.
    pub volume: Option<Gain>,
    /// Where in the file playback starts; the beginning where unset.
    pub audio_start: Option<TimeSpan>,
    /// Where in the file playback ends. Excludes `audio_duration`.
    pub audio_end: Option<TimeSpan>,
    /// How long playback lasts from its start. Excludes `audio_end`.
    pub audio_duration: Option<TimeSpan>,
}

/// Why a set of inputs describes no playback window.
#[derive(Clone, Copy, Debug, PartialEq, Eq, Structural)]
pub enum ConfigError {
    /// Both an end and a duration were given.
    EndAndDuration,
    /// The end lies before the start.
    EndBeforeStart,
}

/// The part of a clip to play and the volume to play it at.
#[derive(Debug)]
pub struct AudioConfig {
    file_name: String,
    start: TimeSpan,
    duration: TimeSpan,
    volume: Gain,
}

/// An [`AudioConfig`] as plain values, with times in nanoseconds.
pub struct PlaybackWindow {
    /// The audio file.
    pub source: Seq<char>,
    /// How much playback time is skipped from the head of the file.
    pub start_offset: nat,
    /// How much playback time is played from there. [`MAX_NANOS`] stands
    /// for all that is left of the file.
    pub play_duration: nat,
    /// The volume.
    pub gain: Gain,
}

impl PlaybackWindow {
    /// Whether playback stops before the file does.
    pub open spec fn bounded(self) -> bool {
        self.play_duration != MAX_NANOS
    }
}

/// The nanoseconds of a span that may be missing.
pub open spec fn nanos(t: Option<TimeSpan>) -> Option<nat> {
    match t {
        Some(t) => Some(t@),
        None => None,
    }
}

/// The playback window that the inputs describe, or why they describe none.
///
/// An end and a duration exclude each other, whatever their values. An end
/// is measured from the head of the file and must not lie before the start.
pub open spec fn resolved(
    file: Seq<char>,
    volume: Option<Gain>,
    start: Option<nat>,
    end: Option<nat>,
    duration: Option<nat>,
) -> Result<PlaybackWindow, ConfigError> {
    let start_offset = start.unwrap_or(0);
    if end is Some && duration is Some {
        Err(ConfigError::EndAndDuration)
    } else if end is Some && end->0 < start_offset {
        Err(ConfigError::EndBeforeStart)
    } else {
        Ok(
            PlaybackWindow {
                source: file,
                start_offset,
                play_duration: if end is Some {
                    (end->0 - start_offset) as nat
                } else {
                    duration.unwrap_or(MAX_NANOS as nat)
                },
                gain: volume.unwrap_or(Gain { bits: UNITY_BITS }),
            },
        )
    }
}

impl Args {
    /// What [`resolved`] makes of these inputs.
    pub open spec fn resolved(self) -> Result<PlaybackWindow, ConfigError> {
        resolved(
            self.audio_file@,
            self.volume,
            nanos(self.audio_start),
            nanos(self.audio_end),
            nanos(self.audio_duration),
        )
    }
}

impl View for AudioConfig {
    type V = PlaybackWindow;

    closed spec fn view(&self) -> PlaybackWindow {
        PlaybackWindow {
            source: self.file_name@,
            start_offset: self.start@,
            play_duration: self.duration@,
            gain: self.volume,
        }
    }
}

impl Args {
    /// Whether every span that is set lies within [`MAX_NANOS`], as every
    /// span in running code does.
    pub open spec fn spans_valid(self) -> bool {
        &&& self.audio_start matches Some(t) ==> t.wf()
        &&& self.audio_end matches Some(t) ==> t.wf()
        &&& self.audio_duration matches Some(t) ==> t.wf()
    }
}

impl AudioConfig {
    /// The configuration made from `args`: the one whose view
    /// [`Args::resolved`] gives.
    pub closed spec fn built(args: Args) -> Result<AudioConfig, ConfigError> {
        match args.resolved() {
            Ok(window) => Ok(
                AudioConfig {
                    file_name: args.audio_file,
                    start: TimeSpan::of(window.start_offset),
                    duration: TimeSpan::of(window.play_duration),
                    volume: window.gain,
                },
            ),
            Err(e) => Err(e),
        }
    }

    /// [`AudioConfig::built`] fails as [`Args::resolved`] does, and succeeds
    /// with a configuration whose view is the resolved window.
    pub proof fn lemma_built_view(args: Args)
        requires
            args.spans_valid(),
        ensures
            match AudioConfig::built(args) {
                Ok(config) => args.resolved() == Ok::<PlaybackWindow, ConfigError>(config@),
                Err(e) => args.resolved() == Err::<PlaybackWindow, ConfigError>(e),
            },
    {
        if let Ok(window) = args.resolved() {
            assert(window.start_offset <= MAX_NANOS);
            assert(window.play_duration <= MAX_NANOS);
            TimeSpan::lemma_of_view(window.start_offset);
            TimeSpan::lemma_of_view(window.play_duration);
        }
    }
}

impl AudioConfig {
    /// The audio file.
    pub fn file_name(&self) -> (r: &str)
        ensures
            r@ == self@.source,
    {
        self.file_name.as_str()
    }

    /// How much playback time is skipped from the head of the file.
    pub fn start(&self) -> (r: TimeSpan)
        ensures
            r@ == self@.start_offset,
    {
        self.start
    }

    /// How much playback time is played; [`TimeSpan::max`] stands for all
    /// that is left of the file.
    pub fn duration(&self) -> (r: TimeSpan)
        ensures
            r@ == self@.play_duration,
    {
        self.duration
    }

    /// The volume.
    pub fn volume(&self) -> (r: Gain)
        ensures
            r == self@.gain,
    {
        self.volume
    }
}

/// An end says the same as the duration from the start to that end.
pub proof fn lemma_end_equals_duration(
    file: Seq<char>,
    volume: Option<Gain>,
    start: Option<nat>,
    end: nat,
)
    requires
        end >= start.unwrap_or(0),
    ensures
        resolved(file, volume, start, Some(end), None) == resolved(
            file,
            volume,
            start,
            None,
            Some((end - start.unwrap_or(0)) as nat),
        ),
        resolved(file, volume, start, Some(end), None) is Ok,
{
}

/// An end together with a duration is refused, whatever their values.
pub proof fn lemma_end_excludes_duration(
    file: Seq<char>,
    volume: Option<Gain>,
    start: Option<nat>,
    end: nat,
    duration: nat,
)
    ensures
        resolved(file, volume, start, Some(end), Some(duration)) == Err::<
            PlaybackWindow,
            ConfigError,
        >(ConfigError::EndAndDuration),
{
}

/// An end before the start is refused.
pub proof fn lemma_end_before_start(
    file: Seq<char>,
    volume: Option<Gain>,
    start: nat,
    end: nat,
    duration: Option<nat>,
)
    requires
        end < start,
    ensures
        resolved(file, volume, Some(start), Some(end), duration) is Err,
        duration is None ==> resolved(file, volume, Some(start), Some(end), duration) == Err::<
            PlaybackWindow,
            ConfigError,
        >(ConfigError::EndBeforeStart),
{
}

/// Leaving the volume unset says the same as setting it to 1.0.
pub proof fn lemma_unset_volume_is_unity(
    file: Seq<char>,
    start: Option<nat>,
    end: Option<nat>,
    duration: Option<nat>,
)
    ensures
        resolved(file, None, start, end, duration) == resolved(
            file,
            Some(Gain { bits: UNITY_BITS }),
            start,
            end,
            duration,
        ),
{
}

impl TryFrom<Args> for AudioConfig {
    type Error = ConfigError;

    /// Reconciles start, end, duration and volume into a playback window.
    ///
    /// Fails exactly where [`resolved`] does: with an end and a duration
    /// both set, and with an end before the start.
    fn try_from(args: Args) -> (r: Result<AudioConfig, ConfigError>)
        ensures
            match r {
                Ok(config) => args.resolved() == Ok::<PlaybackWindow, ConfigError>(config@),
                Err(e) => args.resolved() == Err::<PlaybackWindow, ConfigError>(e),
            },
            args.audio_end is Some && args.audio_duration is Some ==> r == Err::<
                AudioConfig,
                ConfigError,
            >(ConfigError::EndAndDuration),
            args.audio_end is Some && args.audio_end->0@ < nanos(args.audio_start).unwrap_or(0)
                ==> r is Err,
    {
        let start = match args.audio_start {
            Some(s) => s,
            None => TimeSpan::zero(),
        };
        let volume = match args.volume {
            Some(v) => v,
            None => Gain::unity(),
        };
        let duration = match (args.audio_end, args.audio_duration) {
            (Some(_), Some(_)) => {
                return Err(ConfigError::EndAndDuration);
            },
            (Some(end), None) => match end.checked_sub(start) {
                Some(d) => d,
                None => {
                    return Err(ConfigError::EndBeforeStart);
                },
            },
            (None, Some(d)) => d,
            (None, None) => TimeSpan::max(),
        };
        proof {
            use_type_invariant(start);
            use_type_invariant(duration);
            TimeSpan::lemma_of_view(start@);
            TimeSpan::lemma_of_view(duration@);
            TimeSpan::lemma_view_injective(start, TimeSpan::of(start@));
            TimeSpan::lemma_view_injective(duration, TimeSpan::of(duration@));
        }
        Ok(AudioConfig { file_name: args.audio_file, start, duration, volume })
    }
}

impl vstd::std_specs::convert::TryFromSpecImpl<Args> for AudioConfig {
    open spec fn obeys_try_from_spec() -> bool {
        true
    }

    open spec fn try_from_spec(args: Args) -> Result<AudioConfig, ConfigError> {
        AudioConfig::built(args)
    }
}

} // verus!
