//! The state of the emulation thread: why it is paused, whether it was
//! told to stop, which keys are down, and the frame that it last finished.
//! The thread itself, its clock and its sleep belong to the host, which
//! asks this state what to do next.

use vstd::prelude::*;
use crate::buffers::filled;
use crate::memconsts::FRAME_PIXELS;
use crate::touchscreen::{TouchScreen, convertible, adc_of_x, adc_of_y};

verus! {

/// Pause event types
#[derive(Debug, Clone, Copy, PartialEq, Eq, Structural)]
pub enum PauseEvent {
    GameNotStarted,
    LoadingRom,
    OutOfFocus,
    Manual,
}

impl PauseEvent {
    /// The pause status with only the bit of the event set.
    pub open spec fn mask(self) -> u32 {
        match self {
            PauseEvent::GameNotStarted => 1,
            PauseEvent::LoadingRom => 2,
            PauseEvent::OutOfFocus => 4,
            PauseEvent::Manual => 8,
        }
    }

    pub fn mask_exec(self) -> (r: u32)
        ensures
            r == self.mask(),
    {
        match self {
            PauseEvent::GameNotStarted => 1,
            PauseEvent::LoadingRom => 2,
            PauseEvent::OutOfFocus => 4,
            PauseEvent::Manual => 8,
        }
    }
}

/// DS button keys
#[derive(Debug, Clone, Copy, PartialEq, Eq, Structural)]
pub enum DsKeys {
    A,
    B,
    X,
    Y,
    L,
    R,
    Start,
    Select,
    Left,
    Right,
    Up,
    Down,
    Debugging,
}

impl DsKeys {
    /// The key state with only the bit of the key set: the keys count
    /// from bit 0 in the order in which they are listed.
    pub open spec fn mask(self) -> u16 {
        match self {
            DsKeys::A => 0x0001,
            DsKeys::B => 0x0002,
            DsKeys::X => 0x0004,
            DsKeys::Y => 0x0008,
            DsKeys::L => 0x0010,
            DsKeys::R => 0x0020,
            DsKeys::Start => 0x0040,
            DsKeys::Select => 0x0080,
            DsKeys::Left => 0x0100,
            DsKeys::Right => 0x0200,
            DsKeys::Up => 0x0400,
            DsKeys::Down => 0x0800,
            DsKeys::Debugging => 0x1000,
        }
    }

    pub fn mask_exec(self) -> (r: u16)
        ensures
            r == self.mask(),
    {
        match self {
            DsKeys::A => 0x0001,
            DsKeys::B => 0x0002,
            DsKeys::X => 0x0004,
            DsKeys::Y => 0x0008,
            DsKeys::L => 0x0010,
            DsKeys::R => 0x0020,
            DsKeys::Start => 0x0040,
            DsKeys::Select => 0x0080,
            DsKeys::Left => 0x0100,
            DsKeys::Right => 0x0200,
            DsKeys::Up => 0x0400,
            DsKeys::Down => 0x0800,
            DsKeys::Debugging => 0x1000,
        }
    }
}

/// What the thread does next.
#[derive(Debug, Clone, Copy, PartialEq, Eq, Structural)]
pub enum RunStep {
    /// Leave the loop: the thread was told to stop.
    Exit,
    /// Sleep a moment: the thread is paused.
    Sleep,
    /// Emulate one frame.
    Frame,
}

/// Microseconds that one frame takes at sixty frames a second.
pub const FRAME_MICROS: u64 = 16666;

/// Microseconds between two reports of the frame rate.
pub const SECOND_MICROS: u64 = 1000000;

/// How long the thread sleeps after a frame that took `elapsed`
/// microseconds: the rest of the frame time where the frame limiter is on
/// and the frame was faster, else not at all.
pub open spec fn frame_delay_of(elapsed: u64, enable_framelimiter: bool) -> Option<u64> {
    if enable_framelimiter && elapsed < FRAME_MICROS {
        Some((FRAME_MICROS - elapsed) as u64)
    } else {
        None
    }
}

/// As much of `source` as fits copied over the start of `target`.
pub open spec fn overlaid(target: Seq<u32>, source: Seq<u32>) -> Seq<u32> {
    Seq::new(
        target.len(),
        |i: int|
            if i < source.len() {
                source[i]
            } else {
                target[i]
            },
    )
}

fn overlay(target: &mut Vec<u32>, source: &[u32])
    ensures
        final(target)@ == overlaid(old(target)@, source@),
{
    let n = if source.len() < target.len() {
        source.len()
    } else {
        target.len()
    };
    let mut i: usize = 0;
    while i < n
        invariant
            i <= n,
            n <= source@.len(),
            n <= target@.len(),
            target@.len() == old(target)@.len(),
            forall|k: int| 0 <= k < i ==> #[trigger] target@[k] == source@[k],
            forall|k: int| i <= k < target@.len() ==> #[trigger] target@[k] == old(target)@[k],
        decreases n - i,
    {
        target[i] = source[i];
        i = i + 1;
    }
    assert(target@ =~= overlaid(old(target)@, source@));
}

/// Emulation thread structure
pub struct EmuThread {
    /// One bit for each reason to pause; the thread runs while none is
    /// set.
    pub pause_status: u32,
    /// The thread was told to stop.
    pub abort: bool,
    /// One bit for each key that is down.
    pub keys: u16,
    pub touchscreen: TouchScreen,
    pub upper_buffer: Vec<u32>,
    pub lower_buffer: Vec<u32>,
    /// Frames finished since the frame rate was last reported.
    pub frames: u32,
}

impl EmuThread {
    /// Both frame buffers have a full frame.
    pub open spec fn wf(&self) -> bool {
        self.upper_buffer.len() == FRAME_PIXELS && self.lower_buffer.len() == FRAME_PIXELS
    }

    /// What the thread does next: it stops when told to, sleeps while any
    /// reason to pause is set, and else emulates a frame.
    pub open spec fn step(&self) -> RunStep {
        if self.abort {
            RunStep::Exit
        } else if self.pause_status != 0 {
            RunStep::Sleep
        } else {
            RunStep::Frame
        }
    }

    /// The thread as it is made: paused because no game has started, no
    /// key down, the pen up, both frames black.
    pub open spec fn is_new(&self) -> bool {
        &&& self.pause_status == 1
        &&& !self.abort
        &&& self.keys == 0
        &&& self.frames == 0
        &&& self.touchscreen == (TouchScreen {
            control_byte: 0,
            output_coords: 0,
            data_pos: 0,
            press_x: 0,
            press_y: 0,
            pen_down: false,
        })
        &&& self.upper_buffer@ == Seq::new(FRAME_PIXELS as nat, |i: int| 0u32)
        &&& self.lower_buffer@ == Seq::new(FRAME_PIXELS as nat, |i: int| 0u32)
    }

    /// Create a new EmuThread: paused because no game has started, no key
    /// down, both frames black.
    pub fn new() -> (r: Self)
        ensures
            r.wf(),
            r.is_new(),
    {
        EmuThread {
            pause_status: 1,
            abort: false,
            keys: 0,
            touchscreen: TouchScreen::new(),
            upper_buffer: filled(FRAME_PIXELS, 0u32),
            lower_buffer: filled(FRAME_PIXELS, 0u32),
            frames: 0,
        }
    }

    /// Tells the run loop to start over: a request to stop is withdrawn.
    pub fn start(&mut self)
        ensures
            *final(self) == (EmuThread { abort: false, ..*old(self) }),
    {
        self.abort = false;
    }

    /// What the thread does next.
    pub fn next_step(&self) -> (r: RunStep)
        ensures
            r == self.step(),
    {
        if self.abort {
            RunStep::Exit
        } else if self.pause_status != 0 {
            RunStep::Sleep
        } else {
            RunStep::Frame
        }
    }

    /// Takes over a finished frame: each screen as far as the shorter of
    /// the two buffers reaches; the frame counts toward the frame rate.
    pub fn store_frame(&mut self, upper: &[u32], lower: &[u32])
        ensures
            final(self).upper_buffer@ == overlaid(old(self).upper_buffer@, upper@),
            final(self).lower_buffer@ == overlaid(old(self).lower_buffer@, lower@),
            final(self).frames == if old(self).frames == u32::MAX {
                u32::MAX
            } else {
                (old(self).frames + 1) as u32
            },
            final(self).pause_status == old(self).pause_status,
            final(self).abort == old(self).abort,
            final(self).keys == old(self).keys,
            final(self).touchscreen == old(self).touchscreen,
    {
        overlay(&mut self.upper_buffer, upper);
        overlay(&mut self.lower_buffer, lower);
        if self.frames < u32::MAX {
            self.frames = self.frames + 1;
        }
    }

    /// How long to sleep after a frame that took `elapsed` microseconds.
    pub fn frame_delay(elapsed: u64, enable_framelimiter: bool) -> (r: Option<u64>)
        ensures
            r == frame_delay_of(elapsed, enable_framelimiter),
    {
        if enable_framelimiter && elapsed < FRAME_MICROS {
            Some(FRAME_MICROS - elapsed)
        } else {
            None
        }
    }

    /// Reports the frame rate if a second has passed since the last
    /// report: the frames finished since then, and the count starts anew.
    pub fn take_fps(&mut self, since_report: u64) -> (r: Option<u32>)
        ensures
            since_report >= SECOND_MICROS ==> r == Some(old(self).frames) && *final(self) == (
            EmuThread { frames: 0, ..*old(self) }),
            since_report < SECOND_MICROS ==> r.is_none() && *final(self) == *old(self),
    {
        if since_report >= SECOND_MICROS {
            let frames = self.frames;
            self.frames = 0;
            Some(frames)
        } else {
            None
        }
    }

    /// Shutdown the run loop
    pub fn shutdown(&mut self)
        ensures
            *final(self) == (EmuThread { abort: true, ..*old(self) }),
    {
        self.abort = true;
    }

    /// Toggle manual pause bit
    pub fn manual_pause(&mut self)
        ensures
            *final(self) == (EmuThread {
                pause_status: old(self).pause_status ^ PauseEvent::Manual.mask(),
                ..*old(self)
            }),
    {
        self.pause_status = self.pause_status ^ 8;
    }

    /// Pause with specific event
    pub fn pause(&mut self, event: PauseEvent)
        ensures
            *final(self) == (EmuThread {
                pause_status: old(self).pause_status | event.mask(),
                ..*old(self)
            }),
    {
        self.pause_status = self.pause_status | event.mask_exec();
    }

    /// Unpause for specific event
    pub fn unpause(&mut self, event: PauseEvent)
        ensures
            *final(self) == (EmuThread {
                pause_status: old(self).pause_status & !event.mask(),
                ..*old(self)
            }),
    {
        self.pause_status = self.pause_status & !event.mask_exec();
    }

    /// Handle key press events: the key counts as down.
    pub fn press_key(&mut self, key: DsKeys)
        ensures
            *final(self) == (EmuThread { keys: old(self).keys | key.mask(), ..*old(self) }),
    {
        self.keys = self.keys | key.mask_exec();
    }

    /// Handle key release events: the key counts as up. The debug key has
    /// no release.
    pub fn release_key(&mut self, key: DsKeys)
        ensures
            *final(self) == (EmuThread {
                keys: if key == DsKeys::Debugging {
                    old(self).keys
                } else {
                    old(self).keys & !key.mask()
                },
                ..*old(self)
            }),
    {
        match key {
            DsKeys::Debugging => {},
            _ => {
                self.keys = self.keys & !key.mask_exec();
            },
        }
    }

    /// Whether a key is down.
    pub fn is_key_down(&self, key: DsKeys) -> (r: bool)
        ensures
            r == (self.keys & key.mask() != 0),
    {
        self.keys & key.mask_exec() != 0
    }

    /// Touchscreen event: the pen goes down at the point given. A point
    /// that no sample can stand for is ignored.
    pub fn touchscreen_event(&mut self, x: i32, y: i32)
        ensures
            convertible(x) && convertible(y) ==> *final(self) == (EmuThread {
                touchscreen: TouchScreen {
                    press_x: adc_of_x(x),
                    press_y: adc_of_y(y),
                    pen_down: true,
                    ..old(self).touchscreen
                },
                ..*old(self)
            }),
            !(convertible(x) && convertible(y)) ==> *final(self) == *old(self),
    {
        if 0 <= x && x < 0x10_0000 && 0 <= y && y < 0x10_0000 {
            self.touchscreen.press_event(x, y);
        }
    }
}

impl Default for EmuThread {
    fn default() -> (r: EmuThread)
        ensures
            r.wf(),
            r.is_new(),
    {
        EmuThread::new()
    }
}

} // verus!
