//! The engine: from a frame and a requested action to the commands for the
//! pointer device.
//!
//! Speeds are fixed-point numbers in thousandths: a speed of 1000 moves the
//! pointer one count for each pixel of offset.

use crate::capture::{Capture, CaptureStep, SlotView};
use crate::color::ColorRange;
use crate::filter::floor_div;
use crate::frame::Frame;
use crate::locator::{centroid, locate};
use crate::mouse::ArduinoMouse;
use vstd::prelude::*;

verus! {

/// How long `process_action` is meant to wait for a frame, in milliseconds.
pub const FRAME_WAIT_MS: u64 = 100;

/// Twice the horizontal offset, in pixels, within which a target counts as
/// centred for a click.
pub const CLICK_WINDOW_X2: i64 = 8;

/// Twice the vertical offset, in pixels, within which a target counts as
/// centred for a click.
pub const CLICK_WINDOW_Y2: i64 = 20;

/// Settings of the engine: the captured region, the speeds, and the colour
/// range of the target.
#[derive(Clone, Copy, Debug)]
pub struct Config {
    pub x: i32,
    pub y: i32,
    pub x_fov: u32,
    pub y_fov: u32,
    /// In-game sensitivity, in thousandths.
    pub ingame_sensitivity: i32,
    /// Counts per pixel of offset for a move, in thousandths.
    pub move_speed: i32,
    /// Counts per pixel of offset for a flick, in thousandths.
    pub flick_speed: i32,
    pub lower_hsv: [u8; 3],
    pub upper_hsv: [u8; 3],
}

impl Config {
    /// The colour range of the target.
    pub open spec fn range(&self) -> ColorRange {
        ColorRange { lower: self.lower_hsv, upper: self.upper_hsv }
    }

    /// The colour range of the target.
    pub fn color_range(&self) -> (range: ColorRange)
        ensures
            range == self.range(),
    {
        ColorRange { lower: self.lower_hsv, upper: self.upper_hsv }
    }
}

impl Default for Config {
    /// A 75 by 75 region at the origin, sensitivity 0.23 with the speeds
    /// that go with it, and the stock purple range.
    fn default() -> (config: Self)
        ensures
            config.x == 0,
            config.y == 0,
            config.x_fov == 75,
            config.y_fov == 75,
            config.ingame_sensitivity == 230,
            config.move_speed == 435,
            config.flick_speed == 4628,
            config.lower_hsv@ == seq![140u8, 120u8, 180u8],
            config.upper_hsv@ == seq![160u8, 200u8, 255u8],
    {
        Config {
            x: 0,
            y: 0,
            x_fov: 75,
            y_fov: 75,
            ingame_sensitivity: 230,
            move_speed: 435,
            flick_speed: 4628,
            lower_hsv: [140, 120, 180],
            upper_hsv: [160, 200, 255],
        }
    }
}

/// What the engine is asked to do with the target.
#[derive(Clone, Copy, Debug, PartialEq, Eq, Structural)]
pub enum Action {
    /// Move towards it.
    Move,
    /// Click if it is centred.
    Click,
    /// Jump onto it, click, and jump back.
    Flick,
}

/// One command for the pointer device. Deltas are in thousandths of a
/// count.
#[derive(Clone, Copy, Debug, PartialEq, Eq, Structural)]
pub enum MouseCommand {
    Move { x: i64, y: i64 },
    Click,
    Flick { x: i64, y: i64 },
}

/// The delta that takes the pointer from the middle of a side of `fov`
/// pixels to the pixel `target` at `speed`: the offset `target - fov / 2`
/// times the speed, rounded down.
pub open spec fn scaled_offset(target: int, fov: int, speed: int) -> int {
    ((2 * target - fov) * speed) / 2
}

/// The target is within 4 pixels of the middle horizontally and within 10
/// vertically.
pub open spec fn centred(config: Config, target: (int, int)) -> bool {
    &&& -CLICK_WINDOW_X2 <= 2 * target.0 - config.x_fov <= CLICK_WINDOW_X2
    &&& -CLICK_WINDOW_Y2 <= 2 * target.1 - config.y_fov <= CLICK_WINDOW_Y2
}

/// The commands that carry out `action` on a target: none without a
/// target; one move; a click if the target is centred; or a flick to the
/// target, a click and the opposite flick.
pub open spec fn plan(config: Config, action: Action, target: Option<(int, int)>) -> Seq<
    MouseCommand,
> {
    match target {
        None => Seq::empty(),
        Some(t) => match action {
            Action::Move => seq![
                MouseCommand::Move {
                    x: scaled_offset(t.0, config.x_fov as int, config.move_speed as int) as i64,
                    y: scaled_offset(t.1, config.y_fov as int, config.move_speed as int) as i64,
                },
            ],
            Action::Click => if centred(config, t) {
                seq![MouseCommand::Click]
            } else {
                Seq::empty()
            },
            Action::Flick => {
                let fx = scaled_offset(t.0, config.x_fov as int, config.flick_speed as int);
                let fy = scaled_offset(t.1, config.y_fov as int, config.flick_speed as int);
                seq![
                    MouseCommand::Flick { x: fx as i64, y: fy as i64 },
                    MouseCommand::Click,
                    MouseCommand::Flick { x: (-fx) as i64, y: (-fy) as i64 },
                ]
            },
        },
    }
}

/// A scaled offset and its opposite both fit an `i64`.
pub proof fn lemma_scaled_offset_fits(target: i32, fov: u32, speed: i32)
    ensures
        -0x7fff_ffff_ffff_ffff <= scaled_offset(target as int, fov as int, speed as int)
            <= 0x7fff_ffff_ffff_ffff,
{
    let d = 2 * target - fov;
    let p = d * speed;
    assert(-0xffff_ffff_ffff_fffe <= p <= 0xffff_ffff_ffff_fffe) by (nonlinear_arith)
        requires
            -0x1_ffff_ffff <= d <= 0xffff_fffe,
            -0x8000_0000 <= speed <= 0x7fff_ffff,
            p == d * speed,
    ;
}

/// The delta for one axis.
pub fn offset_for(target: i32, fov: u32, speed: i32) -> (delta: i64)
    ensures
        delta == scaled_offset(target as int, fov as int, speed as int),
        -0x7fff_ffff_ffff_ffff <= delta,
{
    let d: i128 = 2 * (target as i128) - (fov as i128);
    proof {
        lemma_scaled_offset_fits(target, fov, speed);
        assert(-0xffff_ffff_ffff_fffe <= d * speed <= 0xffff_ffff_ffff_fffe) by (nonlinear_arith)
            requires
                -0x1_ffff_ffff <= d <= 0xffff_fffe,
                -0x8000_0000 <= speed <= 0x7fff_ffff,
        ;
    }
    let p: i128 = d * (speed as i128);
    floor_div(p, 2) as i64
}

/// Whether a target is close enough to the middle for a click.
pub fn is_centred(config: &Config, target: (i32, i32)) -> (yes: bool)
    ensures
        yes == centred(*config, (target.0 as int, target.1 as int)),
{
    let dx: i64 = 2 * (target.0 as i64) - (config.x_fov as i64);
    let dy: i64 = 2 * (target.1 as i64) - (config.y_fov as i64);
    -CLICK_WINDOW_X2 <= dx && dx <= CLICK_WINDOW_X2 && -CLICK_WINDOW_Y2 <= dy && dy
        <= CLICK_WINDOW_Y2
}

/// The commands that carry out `action` on a target that was found, or on
/// none.
pub fn plan_commands(config: &Config, action: Action, target: Option<(i32, i32)>) -> (commands:
    Vec<MouseCommand>)
    ensures
        commands@ == plan(
            *config,
            action,
            match target {
                Some(t) => Some((t.0 as int, t.1 as int)),
                None => None,
            },
        ),
{
    let mut commands: Vec<MouseCommand> = Vec::new();
    match target {
        None => {},
        Some(t) => match action {
            Action::Move => {
                let x = offset_for(t.0, config.x_fov, config.move_speed);
                let y = offset_for(t.1, config.y_fov, config.move_speed);
                commands.push(MouseCommand::Move { x, y });
            },
            Action::Click => {
                if is_centred(config, t) {
                    commands.push(MouseCommand::Click);
                }
            },
            Action::Flick => {
                let x = offset_for(t.0, config.x_fov, config.flick_speed);
                let y = offset_for(t.1, config.y_fov, config.flick_speed);
                commands.push(MouseCommand::Flick { x, y });
                commands.push(MouseCommand::Click);
                commands.push(MouseCommand::Flick { x: -x, y: -y });
            },
        },
    }
    assert(commands@ =~= plan(
        *config,
        action,
        match target {
            Some(t) => Some((t.0 as int, t.1 as int)),
            None => None,
        },
    ));
    commands
}

/// The engine: its settings and whether it is armed.
#[derive(Debug)]
pub struct ColorantEngine {
    config: Config,
    toggled: bool,
}

impl ColorantEngine {
    /// The settings.
    pub closed spec fn settings(&self) -> Config {
        self.config
    }

    /// Whether the engine is armed.
    pub closed spec fn enabled(&self) -> bool {
        self.toggled
    }

    /// An engine over `config`, not armed.
    pub fn new(config: Config) -> (engine: Self)
        ensures
            engine.settings() == config,
            !engine.enabled(),
    {
        ColorantEngine { config, toggled: false }
    }

    /// The settings.
    pub fn config(&self) -> (config: Config)
        ensures
            config == self.settings(),
    {
        self.config
    }

    /// Arms the engine if it was not armed and disarms it if it was, and
    /// returns the new state. Capture runs exactly while the engine is
    /// armed.
    pub fn toggle(&mut self, capture: &mut Capture) -> (armed: bool)
        ensures
            armed == !old(self).enabled(),
            final(self).enabled() == armed,
            final(self).settings() == old(self).settings(),
            final(capture).region() == old(capture).region(),
            final(capture).slot() == (SlotView { paused: !armed, ..old(capture).slot() }),
    {
        self.toggled = !self.toggled;
        if self.toggled {
            capture.resume();
        } else {
            capture.pause();
        }
        self.toggled
    }

    /// Whether the engine is armed.
    pub fn is_enabled(&self) -> (armed: bool)
        ensures
            armed == self.enabled(),
    {
        self.toggled
    }

    /// The target in `frame`: the centroid of the pixels inside the
    /// configured colour range.
    pub fn find_target_hsv(&self, frame: &Frame) -> (target: Option<(i32, i32)>)
        ensures
            target is None <==> centroid(frame@, self.settings().range()) is None,
            target matches Some(t) ==> centroid(frame@, self.settings().range()) == Some(
                (t.0 as int, t.1 as int),
            ),
    {
        locate(frame, self.config.color_range())
    }

    /// The commands for `action`, given the frame that the caller waited
    /// for (`None` if none came in time). A disarmed engine, a missing
    /// frame and a frame without a target all give no command.
    pub fn process_action(&self, action: Action, frame: Option<&Frame>) -> (commands: Vec<
        MouseCommand,
    >)
        ensures
            commands@ == (if !self.enabled() {
                Seq::empty()
            } else {
                match frame {
                    None => Seq::empty(),
                    Some(f) => plan(
                        self.settings(),
                        action,
                        centroid(f@, self.settings().range()),
                    ),
                }
            }),
    {
        if !self.toggled {
            return Vec::new();
        }
        match frame {
            None => Vec::new(),
            Some(f) => {
                let target = self.find_target_hsv(f);
                plan_commands(&self.config, action, target)
            },
        }
    }

    /// Shuts the pipeline down: the producer is told to leave and the link
    /// is marked disconnected. The caller joins the thread and drops the
    /// serial handle.
    pub fn close(&mut self, capture: &mut Capture, mouse: &mut ArduinoMouse)
        requires
            old(mouse).wf(),
        ensures
            final(self).enabled() == old(self).enabled(),
            final(self).settings() == old(self).settings(),
            final(capture).region() == old(capture).region(),
            final(capture).slot() == (SlotView { running: false, ..old(capture).slot() }),
            final(capture).step_spec() == CaptureStep::Exit,
            final(mouse).wf(),
            final(mouse)@ == old(mouse)@.disconnected(),
    {
        capture.stop();
        mouse.close();
    }
}

} // verus!
