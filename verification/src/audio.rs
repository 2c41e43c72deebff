//! The shape of the audio loops.
//!
//! Playback and capture are done by the platform. What is decided here is
//! which of the loops run, and the sizes, in frames, of the batches that
//! playback works with.

use vstd::prelude::*;
use crate::connection::{AudioConfig, SessionSettings};

verus! {

/// The frames that `ms` milliseconds take at `sample_rate` frames a
/// second, rounded down; the largest count that fits where there are more.
pub open spec fn frames_in(sample_rate: u32, ms: u64) -> int {
    if sample_rate * ms / 1000 > u64::MAX {
        u64::MAX as int
    } else {
        sample_rate * ms / 1000
    }
}

/// How playback is to run.
#[derive(Debug, Clone, Copy, PartialEq, Eq, Structural)]
pub struct PlaybackPlan {
    pub sample_rate: u32,
    /// Frames handed to the device at a time.
    pub batch_frames_count: u64,
    /// Frames kept in the buffer on average.
    pub average_buffer_frames_count: u64,
}

/// Which audio loops a session runs; a loop that is `None` is replaced by
/// one that only keeps its channel drained or waiting.
#[derive(Debug, Clone, Copy, PartialEq, Eq, Structural)]
pub struct AudioPlan {
    pub playback: Option<PlaybackPlan>,
    /// The sample rate of the microphone, where it is to run.
    pub microphone: Option<u32>,
}

/// The frames that `ms` milliseconds take at `sample_rate`; see
/// `frames_in`.
pub fn frames_count(sample_rate: u32, ms: u64) -> (frames: u64)
    ensures
        frames == frames_in(sample_rate, ms),
{
    assert(sample_rate * ms <= 0xFFFF_FFFF * 0xFFFF_FFFF_FFFF_FFFF) by (nonlinear_arith)
        requires
            sample_rate <= 0xFFFF_FFFF,
            ms <= 0xFFFF_FFFF_FFFF_FFFF,
    ;
    let frames: u128 = sample_rate as u128 * ms as u128 / 1000;
    if frames > u64::MAX as u128 {
        u64::MAX
    } else {
        frames as u64
    }
}

/// The plan for playback of game audio at `sample_rate` with `config`.
pub fn playback_plan(config: &AudioConfig, sample_rate: u32) -> (plan: PlaybackPlan)
    ensures
        plan == (PlaybackPlan {
            sample_rate,
            batch_frames_count: frames_in(sample_rate, config.batch_ms) as u64,
            average_buffer_frames_count: frames_in(sample_rate, config.average_buffering_ms) as u64,
        }),
{
    PlaybackPlan {
        sample_rate,
        batch_frames_count: frames_count(sample_rate, config.batch_ms),
        average_buffer_frames_count: frames_count(sample_rate, config.average_buffering_ms),
    }
}

/// The audio loops of a session: playback where the settings enable game
/// audio, the microphone where they enable it.
pub fn audio_plan(settings: &SessionSettings, game_audio_sample_rate: u32) -> (plan: AudioPlan)
    ensures
        plan.playback == match settings.game_audio {
            Some(config) => Some(
                PlaybackPlan {
                    sample_rate: game_audio_sample_rate,
                    batch_frames_count: frames_in(game_audio_sample_rate, config.batch_ms) as u64,
                    average_buffer_frames_count: frames_in(
                        game_audio_sample_rate,
                        config.average_buffering_ms,
                    ) as u64,
                },
            ),
            None => None,
        },
        plan.microphone == settings.microphone_sample_rate,
{
    let playback: Option<PlaybackPlan> = match &settings.game_audio {
        Some(config) => Some(playback_plan(config, game_audio_sample_rate)),
        None => None,
    };
    AudioPlan { playback, microphone: settings.microphone_sample_rate }
}

} // verus!
