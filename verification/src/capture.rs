//! Region capture: the shared frame slot and the producer's decisions.
//!
//! The producer thread, its sleeps and the screen itself belong to the
//! caller. Each turn of its loop asks `Capture::next_step` what to do, does
//! it, and hands the outcome to `Capture::finish_cycle`.

use crate::frame::{Frame, FrameView, MAX_DIMENSION};
use vstd::prelude::*;

verus! {

/// How long the producer sleeps before it looks at the pause flag again.
pub const PAUSE_POLL_MS: u64 = 100;

/// How long the producer sleeps after the screen could not be reached.
pub const RETRY_DELAY_MS: u64 = 100;

/// How long the producer sleeps between two captures.
pub const FRAME_INTERVAL_MS: u64 = 10;

/// How long a waiting reader sleeps between two looks at the slot.
pub const FRAME_POLL_MS: u64 = 1;

/// The rectangle of the screen that is captured each cycle. The origin may
/// be negative on a desktop that spans several monitors.
#[derive(Clone, Copy, Debug)]
pub struct CaptureConfig {
    pub x: i32,
    pub y: i32,
    pub width: u32,
    pub height: u32,
}

impl CaptureConfig {
    /// Bytes in one frame of this region.
    pub open spec fn byte_len(&self) -> nat {
        (self.width * self.height * 3) as nat
    }

    /// Both sides are positive and at most `MAX_DIMENSION`, and one frame
    /// fits in memory.
    pub open spec fn valid(&self) -> bool {
        &&& 0 < self.width <= MAX_DIMENSION
        &&& 0 < self.height <= MAX_DIMENSION
        &&& self.byte_len() <= usize::MAX
    }

    /// Whether the region can be captured at all.
    pub fn is_valid(&self) -> (ok: bool)
        ensures
            ok == self.valid(),
    {
        if self.width == 0 || self.height == 0 || self.width > MAX_DIMENSION || self.height
            > MAX_DIMENSION {
            return false;
        }
        assert(self.width * self.height * 3 <= 0x3fff_ffff_0000_0001 * 3) by (nonlinear_arith)
            requires
                self.width <= 0x7fff_ffff,
                self.height <= 0x7fff_ffff,
        ;
        let need: u64 = (self.width as u64) * (self.height as u64) * 3;
        need <= usize::MAX as u64
    }

    /// Bytes in one frame of this region.
    pub fn frame_len(&self) -> (len: usize)
        requires
            self.valid(),
        ensures
            len == self.byte_len(),
    {
        assert(self.width * self.height * 3 <= 0x3fff_ffff_0000_0001 * 3) by (nonlinear_arith)
            requires
                self.width <= 0x7fff_ffff,
                self.height <= 0x7fff_ffff,
        ;
        let need: u64 = (self.width as u64) * (self.height as u64) * 3;
        need as usize
    }

    /// Builds the frame of one capture from the bytes the screen gave, which
    /// come in blue-green-red order. Bytes of any other length than
    /// `byte_len` are a failed copy.
    pub fn frame_from_bgr(&self, raw: &Vec<u8>) -> (outcome: Result<Frame, CaptureError>)
        ensures
            outcome is Ok <==> self.width <= MAX_DIMENSION && self.height <= MAX_DIMENSION
                && raw@.len() == self.byte_len(),
            outcome matches Ok(frame) ==> frame@ == (FrameView {
                width: self.width as nat,
                height: self.height as nat,
                bytes: crate::frame::swap_channels(raw@),
            }),
            outcome matches Err(e) ==> e == CaptureError::CopyFailed,
    {
        match Frame::from_bgr(self.width, self.height, raw) {
            Some(frame) => Ok(frame),
            None => Err(CaptureError::CopyFailed),
        }
    }
}

impl Default for CaptureConfig {
    /// A full 1920 by 1080 screen.
    fn default() -> (config: Self)
        ensures
            config.x == 0,
            config.y == 0,
            config.width == 1920,
            config.height == 1080,
    {
        CaptureConfig { x: 0, y: 0, width: 1920, height: 1080 }
    }
}

/// Why a capture, or the set-up of one, did not give a frame.
#[derive(Clone, Copy, Debug, PartialEq, Eq, Structural)]
pub enum CaptureError {
    /// The region is empty or too large.
    InvalidRegion,
    /// The screen could not be reached.
    SurfaceUnavailable,
    /// The screen was reached but its pixels did not arrive whole.
    CopyFailed,
}

/// What a frame slot holds.
pub struct SlotView {
    pub frame: Option<FrameView>,
    pub paused: bool,
    pub running: bool,
}

/// A cell with room for the most recent frame, and the two flags that steer
/// the producer. The last frame published wins; nothing is queued.
#[derive(Debug)]
pub struct FrameSlot {
    frame: Option<Frame>,
    paused: bool,
    running: bool,
}

impl View for FrameSlot {
    type V = SlotView;

    closed spec fn view(&self) -> SlotView {
        SlotView {
            frame: match self.frame {
                Some(f) => Some(f@),
                None => None,
            },
            paused: self.paused,
            running: self.running,
        }
    }
}

impl FrameSlot {
    /// An empty slot for a producer that runs and is not paused.
    pub fn new() -> (slot: Self)
        ensures
            slot@ == (SlotView { frame: None, paused: false, running: true }),
    {
        FrameSlot { frame: None, paused: false, running: true }
    }

    /// Puts `frame` in the slot in place of whatever was there.
    pub fn publish(&mut self, frame: Frame)
        ensures
            final(self)@ == (SlotView { frame: Some(frame@), ..old(self)@ }),
    {
        self.frame = Some(frame);
    }

    /// A copy of the frame in the slot, if there is one. The copy's buffer
    /// holds three bytes for each of its pixels.
    pub fn get_frame(&self) -> (frame: Option<Frame>)
        ensures
            frame is Some <==> self@.frame is Some,
            frame matches Some(f) ==> self@.frame == Some(f@) && f@.wf(),
    {
        match &self.frame {
            Some(f) => Some(f.clone()),
            None => None,
        }
    }

    /// Whether a frame is in the slot.
    pub fn has_frame(&self) -> (full: bool)
        ensures
            full == self@.frame is Some,
    {
        self.frame.is_some()
    }

    /// Asks the producer to stop capturing until `resume`.
    pub fn pause(&mut self)
        ensures
            final(self)@ == (SlotView { paused: true, ..old(self)@ }),
    {
        self.paused = true;
    }

    /// Lets the producer capture again.
    pub fn resume(&mut self)
        ensures
            final(self)@ == (SlotView { paused: false, ..old(self)@ }),
    {
        self.paused = false;
    }

    /// Whether the producer is asked to hold.
    pub fn is_paused(&self) -> (paused: bool)
        ensures
            paused == self@.paused,
    {
        self.paused
    }

    /// Asks the producer to leave its loop. There is no way back.
    pub fn stop(&mut self)
        ensures
            final(self)@ == (SlotView { running: false, ..old(self)@ }),
    {
        self.running = false;
    }

    /// Whether the producer may still run.
    pub fn is_running(&self) -> (running: bool)
        ensures
            running == self@.running,
    {
        self.running
    }
}

/// What the producer does in one turn of its loop.
#[derive(Clone, Copy, Debug)]
pub enum CaptureStep {
    /// Leave the loop.
    Exit,
    /// Sleep this many milliseconds and ask again.
    Wait(u64),
    /// Capture this region and report the outcome to `finish_cycle`.
    Acquire(CaptureConfig),
}

/// What a waiting reader does next.
#[derive(Debug)]
pub enum FramePoll {
    /// A frame was there: this is a copy of it.
    Ready(Frame),
    /// No frame yet: sleep this many milliseconds and ask again.
    Retry(u64),
    /// The time is up.
    TimedOut,
}

/// The state that the producer and its readers share: the region and the
/// slot.
#[derive(Debug)]
pub struct Capture {
    config: CaptureConfig,
    slot: FrameSlot,
}

impl Capture {
    /// The region that is captured.
    pub closed spec fn region(&self) -> CaptureConfig {
        self.config
    }

    /// The slot and its flags.
    pub closed spec fn slot(&self) -> SlotView {
        self.slot@
    }

    /// The step that `next_step` gives in this state.
    pub open spec fn step_spec(&self) -> CaptureStep {
        if !self.slot().running {
            CaptureStep::Exit
        } else if self.slot().paused {
            CaptureStep::Wait(PAUSE_POLL_MS)
        } else {
            CaptureStep::Acquire(self.region())
        }
    }

    /// The state for a producer over `config`: an empty slot, running, not
    /// paused. A region that is not `valid` is refused.
    pub fn new(config: CaptureConfig) -> (made: Result<Self, CaptureError>)
        ensures
            made is Ok <==> config.valid(),
            made matches Ok(c) ==> c.region() == config && c.slot() == (SlotView {
                frame: None,
                paused: false,
                running: true,
            }),
            made matches Err(e) ==> e == CaptureError::InvalidRegion,
    {
        if config.is_valid() {
            Ok(Capture { config, slot: FrameSlot::new() })
        } else {
            Err(CaptureError::InvalidRegion)
        }
    }

    /// As `new`, from the four numbers of the region.
    pub fn with_fov(x: i32, y: i32, width: u32, height: u32) -> (made: Result<Self, CaptureError>)
        ensures
            made is Ok <==> (CaptureConfig { x, y, width, height }).valid(),
            made matches Ok(c) ==> c.region() == (CaptureConfig { x, y, width, height })
                && c.slot() == (SlotView { frame: None, paused: false, running: true }),
            made matches Err(e) ==> e == CaptureError::InvalidRegion,
    {
        Capture::new(CaptureConfig { x, y, width, height })
    }

    /// The region that is captured.
    pub fn config(&self) -> (config: CaptureConfig)
        ensures
            config == self.region(),
    {
        self.config
    }

    /// What the producer does now: leave once stopped, wait while paused,
    /// capture otherwise.
    pub fn next_step(&self) -> (step: CaptureStep)
        ensures
            step == self.step_spec(),
    {
        if !self.slot.is_running() {
            CaptureStep::Exit
        } else if self.slot.is_paused() {
            CaptureStep::Wait(PAUSE_POLL_MS)
        } else {
            CaptureStep::Acquire(self.config)
        }
    }

    /// Takes the outcome of one capture and returns how many milliseconds
    /// the producer sleeps before its next turn. A frame goes into the slot;
    /// after a failure the slot keeps what it had. The flags stay.
    pub fn finish_cycle(&mut self, outcome: Result<Frame, CaptureError>) -> (sleep_ms: u64)
        ensures
            final(self).region() == old(self).region(),
            final(self).slot() == (SlotView {
                frame: match outcome {
                    Ok(frame) => Some(frame@),
                    Err(_) => old(self).slot().frame,
                },
                ..old(self).slot()
            }),
            sleep_ms == (if outcome == Err::<Frame, CaptureError>(CaptureError::SurfaceUnavailable) {
                RETRY_DELAY_MS
            } else {
                FRAME_INTERVAL_MS
            }),
    {
        match outcome {
            Ok(frame) => {
                self.slot.publish(frame);
                FRAME_INTERVAL_MS
            },
            Err(CaptureError::SurfaceUnavailable) => RETRY_DELAY_MS,
            Err(_) => FRAME_INTERVAL_MS,
        }
    }

    /// A copy of the latest frame, if any was captured yet. Never waits.
    pub fn get_frame(&self) -> (frame: Option<Frame>)
        ensures
            frame is Some <==> self.slot().frame is Some,
            frame matches Some(f) ==> self.slot().frame == Some(f@) && f@.wf(),
    {
        self.slot.get_frame()
    }

    /// One look at the slot by a reader that has waited `elapsed_ms` of the
    /// `timeout_ms` it is willing to wait. Once the time is up the answer is
    /// `TimedOut`, whatever the slot holds; before that, a copy of the frame
    /// if there is one, else the wish to be asked again.
    pub fn get_frame_blocking(&self, elapsed_ms: u64, timeout_ms: u64) -> (poll: FramePoll)
        ensures
            elapsed_ms >= timeout_ms ==> poll is TimedOut,
            elapsed_ms < timeout_ms && self.slot().frame is None ==> poll == FramePoll::Retry(
                FRAME_POLL_MS,
            ),
            elapsed_ms < timeout_ms && self.slot().frame is Some ==> (poll matches FramePoll::Ready(
                f,
            ) && self.slot().frame == Some(f@) && f@.wf()),
    {
        if elapsed_ms >= timeout_ms {
            FramePoll::TimedOut
        } else {
            match self.slot.get_frame() {
                Some(frame) => FramePoll::Ready(frame),
                None => FramePoll::Retry(FRAME_POLL_MS),
            }
        }
    }

    /// Holds the producer until `resume`. Pausing twice is pausing once.
    pub fn pause(&mut self)
        ensures
            final(self).region() == old(self).region(),
            final(self).slot() == (SlotView { paused: true, ..old(self).slot() }),
    {
        self.slot.pause();
    }

    /// Lets the producer capture again.
    pub fn resume(&mut self)
        ensures
            final(self).region() == old(self).region(),
            final(self).slot() == (SlotView { paused: false, ..old(self).slot() }),
    {
        self.slot.resume();
    }

    /// Whether the producer is held.
    pub fn is_paused(&self) -> (paused: bool)
        ensures
            paused == self.slot().paused,
    {
        self.slot.is_paused()
    }

    /// Tells the producer to leave: its next `next_step` is `Exit`.
    pub fn stop(&mut self)
        ensures
            final(self).region() == old(self).region(),
            final(self).slot() == (SlotView { running: false, ..old(self).slot() }),
            final(self).step_spec() == CaptureStep::Exit,
    {
        self.slot.stop();
    }

    /// Whether the producer may still run.
    pub fn is_running(&self) -> (running: bool)
        ensures
            running == self.slot().running,
    {
        self.slot.is_running()
    }
}

} // verus!
