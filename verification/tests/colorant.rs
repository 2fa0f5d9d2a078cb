use colorant::capture::{Capture, CaptureStep};
use colorant::colorant::{
    is_centred, offset_for, plan_commands, Action, ColorantEngine, Config, MouseCommand,
    FRAME_WAIT_MS,
};
use colorant::frame::Frame;
use colorant::mouse::{ArduinoMouse, LinkAction, LinkState, MouseConfig};

const PURPLE: (u8, u8, u8) = (200, 50, 220);

fn frame_with_block(side: u32, from: u32, to: u32) -> Frame {
    let mut data = vec![0u8; (side * side * 3) as usize];
    for y in from..to {
        for x in from..to {
            let at = ((y * side + x) * 3) as usize;
            data[at] = PURPLE.0;
            data[at + 1] = PURPLE.1;
            data[at + 2] = PURPLE.2;
        }
    }
    Frame::from_raw(side, side, data).unwrap()
}

fn armed(config: Config) -> (ColorantEngine, Capture) {
    let mut capture = Capture::with_fov(config.x, config.y, config.x_fov, config.y_fov).unwrap();
    let mut engine = ColorantEngine::new(config);
    assert!(engine.toggle(&mut capture));
    (engine, capture)
}

#[test]
fn default_config() {
    let config = Config::default();
    assert_eq!((config.x, config.y, config.x_fov, config.y_fov), (0, 0, 75, 75));
    assert_eq!(config.ingame_sensitivity, 230);
    assert_eq!(config.move_speed, 435);
    assert_eq!(config.flick_speed, 4628);
    assert_eq!(config.lower_hsv, [140, 120, 180]);
    assert_eq!(config.upper_hsv, [160, 200, 255]);
    let range = config.color_range();
    assert_eq!((range.lower, range.upper), ([140, 120, 180], [160, 200, 255]));
    assert_eq!(FRAME_WAIT_MS, 100);
}

#[test]
fn toggle_arms_and_disarms_and_steers_capture() {
    let mut capture = Capture::with_fov(0, 0, 75, 75).unwrap();
    let mut engine = ColorantEngine::new(Config::default());
    assert!(!engine.is_enabled());
    assert!(!capture.is_paused());
    assert!(engine.toggle(&mut capture));
    assert!(engine.is_enabled());
    assert!(!capture.is_paused());
    assert!(!engine.toggle(&mut capture));
    assert!(!engine.is_enabled());
    assert!(capture.is_paused());
    assert!(engine.toggle(&mut capture));
    assert!(!capture.is_paused());
}

#[test]
fn a_disarmed_engine_gives_no_command() {
    let engine = ColorantEngine::new(Config::default());
    let frame = frame_with_block(75, 0, 10);
    assert_eq!(engine.process_action(Action::Move, Some(&frame)), Vec::new());
    assert_eq!(engine.process_action(Action::Flick, Some(&frame)), Vec::new());
}

#[test]
fn no_frame_and_no_target_give_no_command() {
    let (engine, _capture) = armed(Config::default());
    assert_eq!(engine.process_action(Action::Move, None), Vec::new());
    let dark = frame_with_block(75, 0, 0);
    assert_eq!(engine.find_target_hsv(&dark), None);
    assert_eq!(engine.process_action(Action::Move, Some(&dark)), Vec::new());
    assert_eq!(engine.process_action(Action::Click, Some(&dark)), Vec::new());
    assert_eq!(engine.process_action(Action::Flick, Some(&dark)), Vec::new());
}

#[test]
fn a_block_in_the_middle_gives_a_move_near_zero() {
    let config = Config { move_speed: 434, ..Config::default() };
    let (engine, _capture) = armed(config);
    let frame = frame_with_block(75, 33, 43);
    assert_eq!(engine.find_target_hsv(&frame), Some((37, 37)));
    // half a pixel left of and above the middle, at 0.434 counts per pixel
    assert_eq!(
        engine.process_action(Action::Move, Some(&frame)),
        vec![MouseCommand::Move { x: -217, y: -217 }]
    );
}

#[test]
fn the_move_near_zero_reaches_the_wire_as_minus_one() {
    let config = Config { move_speed: 434, ..Config::default() };
    let (engine, _capture) = armed(config);
    let frame = frame_with_block(75, 33, 43);
    let quiet = MouseConfig { humanize_delay: false, ..MouseConfig::default() };
    let mut link = ArduinoMouse::new(quiet, "COM3".to_string(), 0).unwrap();
    link.connect();
    link.connect_finished(true, 0).unwrap();
    for command in engine.process_action(Action::Move, Some(&frame)) {
        match command {
            MouseCommand::Move { x, y } => match link.move_mouse(x, y, 1) {
                Ok(LinkAction::Write { delay_ms, frame }) => {
                    assert_eq!(delay_ms, 0);
                    assert_eq!(frame, vec![b'M', 255, 255]);
                }
                other => panic!("expected a write, got {:?}", other),
            },
            other => panic!("expected a move, got {:?}", other),
        }
    }
}

#[test]
fn a_move_scales_the_offset_from_the_middle() {
    let (engine, _capture) = armed(Config::default());
    let frame = frame_with_block(75, 50, 51);
    assert_eq!(engine.find_target_hsv(&frame), Some((50, 50)));
    // 12.5 pixels at 0.435 counts per pixel
    assert_eq!(
        engine.process_action(Action::Move, Some(&frame)),
        vec![MouseCommand::Move { x: 5437, y: 5437 }]
    );
    let corner = frame_with_block(75, 0, 1);
    // -37.5 pixels: -16312.5 rounds down
    assert_eq!(
        engine.process_action(Action::Move, Some(&corner)),
        vec![MouseCommand::Move { x: -16313, y: -16313 }]
    );
}

#[test]
fn a_click_needs_a_centred_target() {
    let (engine, _capture) = armed(Config::default());
    let middle = frame_with_block(75, 33, 43);
    assert_eq!(engine.process_action(Action::Click, Some(&middle)), vec![MouseCommand::Click]);
    let corner = frame_with_block(75, 0, 1);
    assert_eq!(engine.process_action(Action::Click, Some(&corner)), Vec::new());
}

#[test]
fn the_click_window_is_four_by_ten_pixels_each_way() {
    let config = Config::default();
    // the middle is 37.5
    assert!(is_centred(&config, (37, 37)));
    assert!(is_centred(&config, (41, 47)));
    assert!(is_centred(&config, (34, 28)));
    assert!(!is_centred(&config, (42, 37)));
    assert!(!is_centred(&config, (33, 37)));
    assert!(!is_centred(&config, (37, 48)));
    assert!(!is_centred(&config, (37, 27)));
    let even = Config { x_fov: 80, y_fov: 80, ..Config::default() };
    assert!(is_centred(&even, (44, 50)));
    assert!(is_centred(&even, (36, 30)));
    assert!(!is_centred(&even, (45, 50)));
    assert!(!is_centred(&even, (44, 51)));
}

#[test]
fn a_flick_goes_there_clicks_and_comes_back() {
    let (engine, _capture) = armed(Config::default());
    let frame = frame_with_block(75, 50, 51);
    // 12.5 pixels at 4.628 counts per pixel
    assert_eq!(
        engine.process_action(Action::Flick, Some(&frame)),
        vec![
            MouseCommand::Flick { x: 57850, y: 57850 },
            MouseCommand::Click,
            MouseCommand::Flick { x: -57850, y: -57850 },
        ]
    );
}

#[test]
fn offsets_are_rounded_down_and_never_overflow() {
    assert_eq!(offset_for(37, 75, 434), -217);
    assert_eq!(offset_for(37, 75, 435), -218);
    assert_eq!(offset_for(38, 75, 435), 217);
    assert_eq!(offset_for(0, 0, 1000), 0);
    assert_eq!(offset_for(10, 0, -1000), -10_000);
    assert_eq!(offset_for(i32::MAX, 0, i32::MAX), 4294967294i64 * 2147483647 / 2);
    assert_eq!(offset_for(i32::MIN, u32::MAX, i32::MIN), 8589934591i64 * 1073741824);
    // -8589934591 * 2147483647 / 2 = -9223372031486066688.5
    assert_eq!(offset_for(i32::MIN, u32::MAX, i32::MAX), -9223372031486066689);
}

#[test]
fn plan_commands_without_a_target_is_empty() {
    let config = Config::default();
    assert_eq!(plan_commands(&config, Action::Move, None), Vec::new());
    assert_eq!(plan_commands(&config, Action::Click, None), Vec::new());
    assert_eq!(plan_commands(&config, Action::Flick, None), Vec::new());
    assert_eq!(
        plan_commands(&config, Action::Move, Some((38, 37))),
        vec![MouseCommand::Move { x: 217, y: -218 }]
    );
}

#[test]
fn close_stops_capture_and_disconnects_the_link() {
    let (mut engine, mut capture) = armed(Config::default());
    let mut link = ArduinoMouse::new(MouseConfig::default(), "COM3".to_string(), 0).unwrap();
    link.connect();
    link.connect_finished(true, 0).unwrap();
    engine.close(&mut capture, &mut link);
    assert!(!capture.is_running());
    assert!(matches!(capture.next_step(), CaptureStep::Exit));
    assert_eq!(link.state(), LinkState::Disconnected);
    assert!(engine.is_enabled());
    engine.close(&mut capture, &mut link);
    assert!(!capture.is_running());
    assert!(!link.is_connected());
}
