use motion_detection::buffer::{GrayImage, RgbImage};
use motion_detection::detector::{
    DetectorConfig, DimensionMismatchError, MotionDetectionStep, MotionDetector,
};
use motion_detection::grayscale::DynamicImage;
use motion_detection::score::MotionLevel;

fn solid(width: u32, height: u32, value: u8) -> GrayImage {
    let count = (width * height) as usize;
    GrayImage::from_raw(width, height, vec![value; count]).expect("dense")
}

fn gray(width: u32, height: u32, data: Vec<u8>) -> GrayImage {
    GrayImage::from_raw(width, height, data).expect("dense")
}

fn detected(step: MotionDetectionStep) -> (GrayImage, MotionLevel) {
    match step {
        MotionDetectionStep::MotionDetectionFrame { motion_frame, motion_level } => {
            (motion_frame, motion_level)
        }
        MotionDetectionStep::MotionNotDetected => panic!("a mask was expected"),
    }
}

fn ratio(level: MotionLevel) -> f32 {
    if level.total == 0 {
        0.0
    } else {
        level.moving as f32 / level.total as f32
    }
}

#[test]
fn default_configuration_is_step_5_cadence_2_threshold_15() {
    let config = DetectorConfig::default();
    assert_eq!(config.background_adapt_step, 5);
    assert_eq!(config.background_adapt_cadence, 2);
    assert_eq!(config.diff_threshold, 15);
    assert_eq!(MotionDetector::new().config(), config);
    assert_eq!(MotionDetector::default().config(), config);
}

#[test]
fn new_detector_has_no_background() {
    let detector = MotionDetector::new();
    assert!(detector.background().is_none());
    assert_eq!(detector.counter(), 0);
}

#[test]
fn first_frame_becomes_the_background() {
    let mut detector = MotionDetector::new();
    let step = detector.observe(solid(4, 4, 100)).expect("no background to mismatch");
    assert!(matches!(step, MotionDetectionStep::MotionNotDetected));
    let background = detector.background().expect("background is set");
    assert_eq!(background.dimensions(), (4, 4));
    assert_eq!(background.as_raw(), &vec![100u8; 16]);
    assert_eq!(detector.counter(), 0);
}

#[test]
fn second_frame_is_compared_with_an_unchanged_background() {
    let mut detector = MotionDetector::new();
    detector.observe(solid(4, 4, 100)).expect("first frame");
    let step = detector.observe(solid(4, 4, 100)).expect("same size");
    let (mask, level) = detected(step);
    assert_eq!(mask.dimensions(), (4, 4));
    assert_eq!(mask.as_raw(), &vec![0u8; 16]);
    assert_eq!(level, MotionLevel { moving: 0, total: 16 });
    assert_eq!(ratio(level), 0.0);
    assert_eq!(detector.counter(), 1);
    assert_eq!(detector.background().expect("background").as_raw(), &vec![100u8; 16]);
}

#[test]
fn third_frame_is_compared_with_the_adapted_background() {
    let mut detector = MotionDetector::new();
    detector.observe(solid(4, 4, 100)).expect("first frame");
    detector.observe(solid(4, 4, 100)).expect("second frame");
    let step = detector.observe(solid(4, 4, 150)).expect("third frame");
    assert_eq!(detector.counter(), 0);
    assert_eq!(detector.background().expect("background").as_raw(), &vec![105u8; 16]);
    let (mask, level) = detected(step);
    assert_eq!(mask.as_raw(), &vec![255u8; 16]);
    assert_eq!(level, MotionLevel { moving: 16, total: 16 });
    assert_eq!(ratio(level), 1.0);
}

#[test]
fn mask_reflects_the_background_after_the_update() {
    // Against the old background (100) a frame of 118 differs by 18 > 15;
    // against the adapted one (105) it differs by 13 only.
    let mut detector = MotionDetector::new();
    detector.observe(solid(4, 4, 100)).expect("first frame");
    detector.observe(solid(4, 4, 100)).expect("second frame");
    let (mask, level) = detected(detector.observe(solid(4, 4, 118)).expect("third frame"));
    assert_eq!(detector.background().expect("background").as_raw(), &vec![105u8; 16]);
    assert_eq!(mask.as_raw(), &vec![0u8; 16]);
    assert_eq!(level.moving, 0);

    // On the frame before the update the stale background is used.
    let mut stale = MotionDetector::new();
    stale.observe(solid(4, 4, 100)).expect("first frame");
    let (mask, level) = detected(stale.observe(solid(4, 4, 118)).expect("second frame"));
    assert_eq!(stale.background().expect("background").as_raw(), &vec![100u8; 16]);
    assert_eq!(mask.as_raw(), &vec![255u8; 16]);
    assert_eq!(level.moving, 16);
}

#[test]
fn two_moving_pixels_of_sixteen_give_an_eighth() {
    let mut detector = MotionDetector::new();
    detector.observe(solid(4, 4, 100)).expect("first frame");
    let mut data = vec![100u8; 16];
    data[5] = 116;
    data[10] = 84;
    data[0] = 115;
    let (mask, level) = detected(detector.observe(gray(4, 4, data)).expect("second frame"));
    let mut expected = vec![0u8; 16];
    expected[5] = 255;
    expected[10] = 255;
    assert_eq!(mask.as_raw(), &expected);
    assert_eq!(level, MotionLevel { moving: 2, total: 16 });
    assert_eq!(ratio(level), 0.125);
    assert!(level.exceeds(6_000));
    assert!(level.exceeds(1_000));
    assert!(!level.exceeds(125_000));
    assert!(!level.exceeds(200_000));
}

#[test]
fn background_adapts_on_every_second_compared_frame() {
    let mut detector = MotionDetector::new();
    detector.observe(solid(2, 2, 0)).expect("first frame");
    let mut backgrounds = Vec::new();
    let mut counters = Vec::new();
    for _ in 0..6 {
        detector.observe(solid(2, 2, 12)).expect("same size");
        backgrounds.push(detector.background().expect("background").as_raw()[0]);
        counters.push(detector.counter());
    }
    assert_eq!(backgrounds, vec![0, 5, 5, 10, 10, 12]);
    assert_eq!(counters, vec![1, 0, 1, 0, 1, 0]);
}

#[test]
fn a_frame_of_another_size_is_refused_and_changes_nothing() {
    let mut detector = MotionDetector::new();
    detector.observe(solid(4, 4, 100)).expect("first frame");
    detector.observe(solid(4, 4, 100)).expect("second frame");
    let outcome = detector.observe(solid(4, 3, 100));
    match outcome {
        Err(error) => assert_eq!(
            error,
            DimensionMismatchError {
                expected_width: 4,
                expected_height: 4,
                found_width: 4,
                found_height: 3,
            }
        ),
        Ok(_) => panic!("the frame has another size"),
    }
    assert_eq!(detector.counter(), 1);
    assert_eq!(detector.background().expect("background").dimensions(), (4, 4));
    assert_eq!(detector.background().expect("background").as_raw(), &vec![100u8; 16]);
    assert!(detector.observe(solid(2, 8, 100)).is_err());
    assert!(detector.observe(solid(4, 4, 100)).is_ok());
    assert_eq!(detector.counter(), 0);
}

#[test]
fn cadence_zero_is_not_a_configuration() {
    let config = DetectorConfig {
        background_adapt_step: 5,
        background_adapt_cadence: 0,
        diff_threshold: 15,
    };
    assert!(MotionDetector::with_config(config).is_none());
}

#[test]
fn cadence_one_adapts_before_every_comparison() {
    let config = DetectorConfig {
        background_adapt_step: 10,
        background_adapt_cadence: 1,
        diff_threshold: 0,
    };
    let mut detector = MotionDetector::with_config(config).expect("valid configuration");
    assert_eq!(detector.config(), config);
    detector.observe(solid(1, 1, 0)).expect("first frame");
    let (mask, _) = detected(detector.observe(solid(1, 1, 25)).expect("second frame"));
    assert_eq!(detector.background().expect("background").as_raw(), &vec![10u8]);
    assert_eq!(detector.counter(), 0);
    assert_eq!(mask.as_raw(), &vec![255u8]);
    detector.observe(solid(1, 1, 25)).expect("third frame");
    assert_eq!(detector.background().expect("background").as_raw(), &vec![20u8]);
    let (mask, _) = detected(detector.observe(solid(1, 1, 25)).expect("fourth frame"));
    assert_eq!(detector.background().expect("background").as_raw(), &vec![25u8]);
    assert_eq!(mask.as_raw(), &vec![0u8]);
}

#[test]
fn cadence_three_with_its_own_step_and_threshold() {
    let config = DetectorConfig {
        background_adapt_step: 1,
        background_adapt_cadence: 3,
        diff_threshold: 3,
    };
    let mut detector = MotionDetector::with_config(config).expect("valid configuration");
    detector.observe(solid(1, 1, 50)).expect("first frame");
    let mut seen = Vec::new();
    for _ in 0..6 {
        let (mask, _) = detected(detector.observe(solid(1, 1, 54)).expect("same size"));
        seen.push((
            detector.counter(),
            detector.background().expect("background").as_raw()[0],
            mask.as_raw()[0],
        ));
    }
    assert_eq!(seen, vec![(1, 50, 255), (2, 50, 255), (0, 51, 0), (1, 51, 0), (2, 51, 0), (0, 52, 0)]);
}

#[test]
fn process_frame_reduces_the_frame_first() {
    let mut detector = MotionDetector::new();
    let first = DynamicImage::ImageLuma8(solid(4, 4, 100));
    let step = detector.process_frame(&first).expect("first frame");
    assert!(matches!(step, MotionDetectionStep::MotionNotDetected));
    assert_eq!(detector.background().expect("background").as_raw(), &vec![100u8; 16]);

    // Pure green of full strength has the intensity 182.
    let green: Vec<u8> = (0..16).flat_map(|_| [0u8, 255, 0]).collect();
    let second = DynamicImage::ImageRgb8(RgbImage::from_raw(4, 4, green).expect("dense"));
    let (mask, level) = detected(detector.process_frame(&second).expect("same size"));
    assert_eq!(mask.as_raw(), &vec![255u8; 16]);
    assert_eq!(level, MotionLevel { moving: 16, total: 16 });

    let other = DynamicImage::ImageLuma8(solid(3, 3, 100));
    assert!(detector.process_frame(&other).is_err());
}

#[test]
fn empty_frames_are_scored_zero() {
    let mut detector = MotionDetector::new();
    detector.observe(solid(0, 0, 0)).expect("first frame");
    let (mask, level) = detected(detector.observe(solid(0, 0, 0)).expect("second frame"));
    assert_eq!(mask.dimensions(), (0, 0));
    assert_eq!(level, MotionLevel { moving: 0, total: 0 });
    assert_eq!(ratio(level), 0.0);
    assert!(!level.exceeds(0));
}

#[test]
fn one_pixel_frame_round_trip_scores_zero() {
    let mut detector = MotionDetector::new();
    let frame = DynamicImage::ImageLuma8(solid(1, 1, 77));
    detector.process_frame(&frame).expect("first frame");
    let (mask, level) = detected(detector.process_frame(&frame).expect("second frame"));
    assert_eq!(mask.as_raw(), &vec![0u8]);
    assert_eq!(level, MotionLevel { moving: 0, total: 1 });
    assert_eq!(ratio(level), 0.0);
}
