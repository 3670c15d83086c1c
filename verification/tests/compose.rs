use motion_detection::buffer::{GrayImage, RgbImage};
use motion_detection::compose::{extract_channel, highlight, replace_channel, Channel};
use motion_detection::detector::MotionDetectionStep;
use motion_detection::pipeline::{frame_action, FrameAction, PipelineConfig};
use motion_detection::score::MotionLevel;

fn rgb(width: u32, height: u32, data: Vec<u8>) -> RgbImage {
    RgbImage::from_raw(width, height, data).expect("dense")
}

fn gray(width: u32, height: u32, data: Vec<u8>) -> GrayImage {
    GrayImage::from_raw(width, height, data).expect("dense")
}

fn step_with(moving: u64, total: u64) -> MotionDetectionStep {
    MotionDetectionStep::MotionDetectionFrame {
        motion_frame: gray(0, 0, vec![]),
        motion_level: MotionLevel { moving, total },
    }
}

#[test]
fn channel_positions_are_red_green_blue() {
    assert_eq!(Channel::Red.index(), 0);
    assert_eq!(Channel::Green.index(), 1);
    assert_eq!(Channel::Blue.index(), 2);
}

#[test]
fn extract_channel_picks_one_sample_per_pixel() {
    let frame = rgb(2, 2, vec![1, 2, 3, 4, 5, 6, 7, 8, 9, 10, 11, 12]);
    assert_eq!(extract_channel(&frame, Channel::Red).as_raw(), &vec![1u8, 4, 7, 10]);
    assert_eq!(extract_channel(&frame, Channel::Green).as_raw(), &vec![2u8, 5, 8, 11]);
    assert_eq!(extract_channel(&frame, Channel::Blue).as_raw(), &vec![3u8, 6, 9, 12]);
    assert_eq!(extract_channel(&frame, Channel::Blue).dimensions(), (2, 2));
}

#[test]
fn replace_channel_keeps_the_other_channels() {
    let frame = rgb(2, 1, vec![1, 2, 3, 4, 5, 6]);
    let plane = gray(2, 1, vec![100, 200]);
    assert_eq!(replace_channel(&frame, &plane, Channel::Red).as_raw(), &vec![100u8, 2, 3, 200, 5, 6]);
    assert_eq!(replace_channel(&frame, &plane, Channel::Green).as_raw(), &vec![1u8, 100, 3, 4, 200, 6]);
    assert_eq!(replace_channel(&frame, &plane, Channel::Blue).as_raw(), &vec![1u8, 2, 100, 4, 5, 200]);
    assert_eq!(replace_channel(&frame, &plane, Channel::Blue).dimensions(), (2, 1));
}

#[test]
fn highlight_saturates_red_where_the_mask_is_on() {
    let frame = rgb(2, 2, vec![10, 20, 30, 40, 50, 60, 250, 1, 2, 0, 0, 0]);
    let mask = gray(2, 2, vec![255, 0, 128, 0]);
    let out = highlight(&frame, &mask, Channel::Red);
    assert_eq!(out.dimensions(), (2, 2));
    assert_eq!(out.as_raw(), &vec![255u8, 20, 30, 40, 50, 60, 250, 1, 2, 0, 0, 0]);
}

#[test]
fn highlight_in_another_channel() {
    let frame = rgb(1, 2, vec![10, 20, 30, 40, 50, 60]);
    let mask = gray(1, 2, vec![255, 55]);
    assert_eq!(highlight(&frame, &mask, Channel::Green).as_raw(), &vec![10u8, 255, 30, 40, 55, 60]);
    assert_eq!(highlight(&frame, &mask, Channel::Blue).as_raw(), &vec![10u8, 20, 255, 40, 50, 60]);
}

#[test]
fn highlight_with_a_blank_mask_changes_nothing() {
    let data: Vec<u8> = (0..48).map(|i| (i * 5) as u8).collect();
    let frame = rgb(4, 4, data.clone());
    let mask = gray(4, 4, vec![0; 16]);
    assert_eq!(highlight(&frame, &mask, Channel::Red).as_raw(), &data);
}

#[test]
fn highlight_of_an_empty_frame_is_empty() {
    let out = highlight(&rgb(0, 0, vec![]), &gray(0, 0, vec![]), Channel::Red);
    assert_eq!(out.dimensions(), (0, 0));
    assert_eq!(out.as_raw().len(), 0);
}

#[test]
fn default_pipeline_highlights_in_red_above_six_thousandths() {
    let config = PipelineConfig::default();
    assert_eq!(config.motion_activation_threshold_ppm, 6000);
    assert_eq!(config.highlight_channel, Channel::Red);
    assert!(!config.write_all_frames);
}

#[test]
fn first_frame_is_skipped_or_passed_through() {
    let mut config = PipelineConfig::default();
    assert_eq!(frame_action(&MotionDetectionStep::MotionNotDetected, &config), FrameAction::Skip);
    config.write_all_frames = true;
    assert_eq!(
        frame_action(&MotionDetectionStep::MotionNotDetected, &config),
        FrameAction::PassThrough
    );
}

#[test]
fn highlighting_needs_a_level_above_the_threshold() {
    let mut config = PipelineConfig::default();
    assert_eq!(frame_action(&step_with(2, 16), &config), FrameAction::Highlight);
    assert_eq!(frame_action(&step_with(6, 1000), &config), FrameAction::Skip);
    assert_eq!(frame_action(&step_with(7, 1000), &config), FrameAction::Highlight);
    assert_eq!(frame_action(&step_with(0, 16), &config), FrameAction::Skip);
    assert_eq!(frame_action(&step_with(0, 0), &config), FrameAction::Skip);
    config.write_all_frames = true;
    assert_eq!(frame_action(&step_with(6, 1000), &config), FrameAction::PassThrough);
    assert_eq!(frame_action(&step_with(0, 0), &config), FrameAction::PassThrough);
    assert_eq!(frame_action(&step_with(7, 1000), &config), FrameAction::Highlight);
}

#[test]
fn an_eighth_triggers_only_below_an_eighth() {
    let mut config = PipelineConfig::default();
    config.motion_activation_threshold_ppm = 1000;
    assert_eq!(frame_action(&step_with(2, 16), &config), FrameAction::Highlight);
    config.motion_activation_threshold_ppm = 124_999;
    assert_eq!(frame_action(&step_with(2, 16), &config), FrameAction::Highlight);
    config.motion_activation_threshold_ppm = 125_000;
    assert_eq!(frame_action(&step_with(2, 16), &config), FrameAction::Skip);
    config.motion_activation_threshold_ppm = 500_000;
    assert_eq!(frame_action(&step_with(2, 16), &config), FrameAction::Skip);
}
