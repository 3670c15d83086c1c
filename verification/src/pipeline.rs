//! What to do with a frame once the detector has seen it.

use vstd::prelude::*;
use crate::compose::Channel;
use crate::detector::MotionDetectionStep;

verus! {

/// How the frames of a run are turned into output.
#[derive(Clone, Copy, Debug, PartialEq, Eq, Structural)]
pub struct PipelineConfig {
    /// A frame is highlighted when its motion level is strictly above this
    /// many millionths.
    pub motion_activation_threshold_ppm: u32,
    /// The channel that the mask is merged into.
    pub highlight_channel: Channel,
    /// Whether frames that are not highlighted are written too.
    pub write_all_frames: bool,
}

impl Default for PipelineConfig {
    /// Highlight in red above 6000 millionths, and write highlighted frames
    /// only.
    fn default() -> (config: Self)
        ensures
            config == (PipelineConfig {
                motion_activation_threshold_ppm: 6000,
                highlight_channel: Channel::Red,
                write_all_frames: false,
            }),
    {
        PipelineConfig {
            motion_activation_threshold_ppm: 6000,
            highlight_channel: Channel::Red,
            write_all_frames: false,
        }
    }
}

/// What becomes of a frame.
#[derive(Clone, Copy, Debug, PartialEq, Eq, Structural)]
pub enum FrameAction {
    /// Nothing is written for the frame.
    Skip,
    /// The frame is written as it was decoded.
    PassThrough,
    /// The frame is written with the mask merged into the highlight
    /// channel.
    Highlight,
}

/// Whether the step reports a motion level above the activation threshold.
pub open spec fn is_active(step: MotionDetectionStep, config: PipelineConfig) -> bool {
    step matches MotionDetectionStep::MotionDetectionFrame { motion_level, .. }
        && motion_level.above(config.motion_activation_threshold_ppm)
}

/// The action that a step calls for.
pub open spec fn action_for(step: MotionDetectionStep, config: PipelineConfig) -> FrameAction {
    if is_active(step, config) {
        FrameAction::Highlight
    } else if config.write_all_frames {
        FrameAction::PassThrough
    } else {
        FrameAction::Skip
    }
}

/// Decides what becomes of a frame: it is highlighted when motion was
/// detected and its level exceeds the activation threshold; otherwise it
/// passes through unmodified or is skipped, as configured.
pub fn frame_action(step: &MotionDetectionStep, config: &PipelineConfig) -> (action: FrameAction)
    ensures
        action == action_for(*step, *config),
{
    let active: bool = match step {
        MotionDetectionStep::MotionDetectionFrame { motion_level, .. } => motion_level.exceeds(
            config.motion_activation_threshold_ppm,
        ),
        MotionDetectionStep::MotionNotDetected => false,
    };
    if active {
        FrameAction::Highlight
    } else if config.write_all_frames {
        FrameAction::PassThrough
    } else {
        FrameAction::Skip
    }
}

} // verus!
