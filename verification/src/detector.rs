//! The adaptive background model.
//!
//! A detector is fed intensity frames in their order. The first frame
//! becomes the background. Every later frame is compared with the
//! background, which, once every few frames, is first nudged towards the
//! frame at hand.

use vstd::prelude::*;
use crate::buffer::{GrayImage, Grid};
use crate::grayscale::{dyn_grayscale, grayscale, DynamicImage};
use crate::ops::{difference, move_towards, moved_towards, thresholded};
use crate::score::{level_of, motion_level, MotionLevel};

verus! {

/// How the background adapts and how frames are compared with it.
#[derive(Clone, Copy, Debug, PartialEq, Eq, Structural)]
pub struct DetectorConfig {
    /// By how much a background sample moves towards the frame when the
    /// background adapts.
    pub background_adapt_step: u8,
    /// Every how many compared frames the background adapts. At least 1.
    pub background_adapt_cadence: usize,
    /// A pixel counts as moving when it differs from the background by more
    /// than this.
    pub diff_threshold: u8,
}

impl DetectorConfig {
    /// The cadence is at least one frame.
    pub open spec fn is_valid(self) -> bool {
        self.background_adapt_cadence >= 1
    }
}

impl Default for DetectorConfig {
    /// Step 5, every 2nd frame, threshold 15.
    fn default() -> (config: Self)
        ensures
            config == (DetectorConfig {
                background_adapt_step: 5,
                background_adapt_cadence: 2,
                diff_threshold: 15,
            }),
    {
        DetectorConfig { background_adapt_step: 5, background_adapt_cadence: 2, diff_threshold: 15 }
    }
}

/// A frame does not have the dimensions of the background it is compared
/// with.
#[derive(Clone, Copy, Debug, PartialEq, Eq, Structural)]
pub struct DimensionMismatchError {
    /// Width of the background.
    pub expected_width: u32,
    /// Height of the background.
    pub expected_height: u32,
    /// Width of the frame.
    pub found_width: u32,
    /// Height of the frame.
    pub found_height: u32,
}

/// What one frame gave.
#[derive(Debug)]
pub enum MotionDetectionStep {
    /// The frame was compared with the background.
    MotionDetectionFrame {
        /// 255 where the frame differs from the background, 0 elsewhere.
        motion_frame: GrayImage,
        /// Share of the pixels of `motion_frame` that are on.
        motion_level: MotionLevel,
    },
    /// The frame was the first one and became the background.
    MotionNotDetected,
}

/// What a detector remembers between frames.
pub struct DetectorState {
    /// The background, once a frame has arrived.
    pub background: Option<Grid<u8>>,
    /// Frames compared since the background last adapted.
    pub counter: nat,
}

impl DetectorState {
    /// Whether the background adapts before the next comparison.
    pub open spec fn adapts(self, config: DetectorConfig) -> bool {
        self.counter + 1 == config.background_adapt_cadence
    }

    /// The background that `frame` is compared with: the stored one, moved
    /// towards `frame` first where the cadence is reached.
    pub open spec fn compared_background(self, config: DetectorConfig, frame: Grid<u8>) -> Grid<
        u8,
    > {
        if self.adapts(config) {
            moved_towards(self.background->0, frame, config.background_adapt_step)
        } else {
            self.background->0
        }
    }

    /// The counter after one more compared frame.
    pub open spec fn next_counter(self, config: DetectorConfig) -> nat {
        if self.adapts(config) {
            0
        } else {
            self.counter + 1
        }
    }
}

/// What observing `frame` in state `pre` leads to: the state `post` and the
/// `outcome` handed back.
///
/// Without a background, the frame becomes the background, the counter is
/// zero, and no motion is reported. With a background of another size, the
/// frame is refused and nothing changes. Otherwise the counter advances,
/// the background adapts where the cadence is reached, and the mask of the
/// frame against that background is handed back with its level.
pub open spec fn observation(
    pre: DetectorState,
    config: DetectorConfig,
    frame: Grid<u8>,
    post: DetectorState,
    outcome: Result<MotionDetectionStep, DimensionMismatchError>,
) -> bool {
    match pre.background {
        None => {
            &&& post.background == Some(frame)
            &&& post.counter == 0
            &&& outcome matches Ok(MotionDetectionStep::MotionNotDetected)
        },
        Some(background) => if background.same_size(frame) {
            &&& post.background == Some(pre.compared_background(config, frame))
            &&& post.counter == pre.next_counter(config)
            &&& outcome matches Ok(
                MotionDetectionStep::MotionDetectionFrame { motion_frame, motion_level },
            )
            &&& motion_frame@ == thresholded(
                frame,
                pre.compared_background(config, frame),
                config.diff_threshold,
            )
            &&& motion_level == level_of(motion_frame@)
            &&& motion_level.in_unit_range()
        } else {
            &&& post == pre
            &&& outcome matches Err(error)
            &&& error.expected_width == background.width
            &&& error.expected_height == background.height
            &&& error.found_width == frame.width
            &&& error.found_height == frame.height
        },
    }
}

/// Whatever frame is observed, the counter stays below the cadence. Once a
/// frame is accepted there is a background, and it has the size of that
/// frame; a frame that is refused leaves the state as it was.
pub proof fn observation_keeps_tracking(
    pre: DetectorState,
    config: DetectorConfig,
    frame: Grid<u8>,
    post: DetectorState,
    outcome: Result<MotionDetectionStep, DimensionMismatchError>,
)
    requires
        config.is_valid(),
        pre.counter < config.background_adapt_cadence,
        observation(pre, config, frame, post, outcome),
    ensures
        post.counter < config.background_adapt_cadence,
        outcome is Ok ==> post.background is Some && post.background->0.same_size(frame),
        outcome is Err ==> post == pre,
        outcome is Err <==> pre.background is Some && !pre.background->0.same_size(frame),
{
}

/// Detects motion in a sequence of frames against an adaptive background.
#[derive(Debug)]
pub struct MotionDetector {
    config: DetectorConfig,
    background: Option<GrayImage>,
    counter: usize,
}

impl View for MotionDetector {
    type V = DetectorState;

    closed spec fn view(&self) -> DetectorState {
        DetectorState {
            background: match self.background {
                Some(image) => Some(image@),
                None => None,
            },
            counter: self.counter as nat,
        }
    }
}

impl MotionDetector {
    #[verifier::type_invariant]
    spec fn well_formed(self) -> bool {
        self.counter < self.config.background_adapt_cadence
    }

    /// The configuration the detector was made with.
    pub closed spec fn spec_config(&self) -> DetectorConfig {
        self.config
    }

    /// A detector without a background, with the default configuration.
    pub fn new() -> (detector: Self)
        ensures
            detector@.background is None,
            detector@.counter == 0,
            detector.spec_config() == (DetectorConfig {
                background_adapt_step: 5,
                background_adapt_cadence: 2,
                diff_threshold: 15,
            }),
    {
        MotionDetector { config: DetectorConfig::default(), background: None, counter: 0 }
    }

    /// A detector without a background, if the configuration is valid.
    pub fn with_config(config: DetectorConfig) -> (detector: Option<Self>)
        ensures
            detector is Some <==> config.is_valid(),
            detector matches Some(d) ==> d@.background is None && d@.counter == 0
                && d.spec_config() == config,
    {
        if config.background_adapt_cadence >= 1 {
            Some(MotionDetector { config, background: None, counter: 0 })
        } else {
            None
        }
    }

    /// The configuration the detector was made with.
    #[verifier::when_used_as_spec(spec_config)]
    pub fn config(&self) -> (config: DetectorConfig)
        ensures
            config == self.spec_config(),
            config.is_valid(),
    {
        proof {
            use_type_invariant(self);
        }
        self.config
    }

    /// The current background, if a frame has arrived.
    pub fn background(&self) -> (background: Option<&GrayImage>)
        ensures
            background is Some <==> self@.background is Some,
            background matches Some(image) ==> self@.background == Some(image@),
    {
        self.background.as_ref()
    }

    /// Frames compared since the background last adapted. Always below the
    /// cadence.
    pub fn counter(&self) -> (counter: usize)
        ensures
            counter == self@.counter,
            counter < self.spec_config().background_adapt_cadence,
    {
        proof {
            use_type_invariant(self);
        }
        self.counter
    }

    /// Feeds the next intensity frame.
    pub fn observe(&mut self, current_frame: GrayImage) -> (outcome: Result<
        MotionDetectionStep,
        DimensionMismatchError,
    >)
        ensures
            final(self).spec_config() == old(self).spec_config(),
            observation(
                old(self)@,
                old(self).spec_config(),
                current_frame@,
                final(self)@,
                outcome,
            ),
    {
        proof {
            use_type_invariant(&*self);
        }
        let (found_width, found_height): (u32, u32) = current_frame.dimensions();
        let expected: Option<(u32, u32)> = match &self.background {
            Some(background) => Some(background.dimensions()),
            None => None,
        };
        let (expected_width, expected_height): (u32, u32) = match expected {
            Some(dimensions) => dimensions,
            None => {
                self.background = Some(current_frame);
                self.counter = 0;
                return Ok(MotionDetectionStep::MotionNotDetected);
            },
        };
        if expected_width != found_width || expected_height != found_height {
            return Err(
                DimensionMismatchError { expected_width, expected_height, found_width, found_height },
            );
        }
        let next: usize = self.counter + 1;
        if next == self.config.background_adapt_cadence {
            let adapted: GrayImage = move_towards(
                self.background.as_ref().unwrap(),
                &current_frame,
                self.config.background_adapt_step,
            );
            self.background = Some(adapted);
            self.counter = 0;
        } else {
            self.counter = next;
        }
        let motion_frame: GrayImage = difference(
            &current_frame,
            self.background.as_ref().unwrap(),
            self.config.diff_threshold,
        );
        let level: MotionLevel = motion_level(&motion_frame);
        Ok(MotionDetectionStep::MotionDetectionFrame { motion_frame, motion_level: level })
    }

    /// Reduces the next frame to its intensity and feeds it.
    pub fn process_frame(&mut self, frame: &DynamicImage) -> (outcome: Result<
        MotionDetectionStep,
        DimensionMismatchError,
    >)
        ensures
            final(self).spec_config() == old(self).spec_config(),
            observation(
                old(self)@,
                old(self).spec_config(),
                grayscale(*frame),
                final(self)@,
                outcome,
            ),
    {
        let current_frame: GrayImage = dyn_grayscale(frame);
        self.observe(current_frame)
    }
}

impl Default for MotionDetector {
    /// The same as `MotionDetector::new`.
    fn default() -> (detector: Self)
        ensures
            detector@.background is None,
            detector@.counter == 0,
            detector.spec_config() == (DetectorConfig {
                background_adapt_step: 5,
                background_adapt_cadence: 2,
                diff_threshold: 15,
            }),
    {
        MotionDetector::new()
    }
}

} // verus!
