//! The state of the emulator window: the frame buffers that it shows, the
//! keys that it maps, and the game that it runs.

use vstd::prelude::*;
use crate::buffers::filled;
use crate::memconsts::{FRAME_PIXELS, SCANLINES};

verus! {

/// DS key codes enumeration
#[derive(Clone, Copy, Debug, PartialEq, Eq, Structural)]
pub enum DSKey {
    /// D-Pad keys
    ButtonUp,
    ButtonDown,
    ButtonLeft,
    ButtonRight,
    /// Face buttons
    ButtonA,
    ButtonB,
    ButtonX,
    ButtonY,
    /// Shoulder buttons
    ButtonL,
    ButtonR,
    /// System buttons
    ButtonStart,
    ButtonSelect,
    /// Debug key
    Debugging,
}

/// Pause event types
#[derive(Clone, Copy, Debug, PartialEq, Eq, Structural)]
pub enum PauseEvent {
    /// Game not loaded yet
    GameNotStarted,
    /// ROM file is loading
    LoadingRom,
}

/// Frame buffer data
#[derive(Clone, Debug)]
pub struct FrameBuffer {
    /// Upper screen buffer (256x192 RGBA)
    pub upper: Vec<u32>,
    /// Lower screen buffer (256x192 RGBA)
    pub lower: Vec<u32>,
}

/// Copies `source` over `target` where the two have the same length.
fn replace_frame(target: &mut Vec<u32>, source: &[u32])
    ensures
        final(target)@ == if source@.len() == old(target)@.len() { source@ } else { old(target)@ },
{
    if source.len() == target.len() {
        let n = target.len();
        let mut i: usize = 0;
        while i < n
            invariant
                i <= n,
                n == target@.len(),
                n == source@.len(),
                target@.len() == old(target)@.len(),
                forall|k: int| 0 <= k < i ==> #[trigger] target@[k] == source@[k],
            decreases n - i,
        {
            target[i] = source[i];
            i = i + 1;
        }
        assert(target@ =~= source@);
    }
}

impl FrameBuffer {
    /// Both screens have a full frame.
    pub open spec fn wf(&self) -> bool {
        self.upper.len() == FRAME_PIXELS && self.lower.len() == FRAME_PIXELS
    }

    /// Create new empty frame buffer
    pub fn new() -> (r: Self)
        ensures
            r.wf(),
            r.upper@ == Seq::new(FRAME_PIXELS as nat, |i: int| 0u32),
            r.lower@ == Seq::new(FRAME_PIXELS as nat, |i: int| 0u32),
    {
        FrameBuffer { upper: filled(FRAME_PIXELS, 0u32), lower: filled(FRAME_PIXELS, 0u32) }
    }

    /// Update upper screen buffer: a buffer of another length than the
    /// screen's is ignored.
    pub fn update_upper(&mut self, buffer: &[u32])
        ensures
            final(self).lower == old(self).lower,
            final(self).upper@ == if buffer@.len() == old(self).upper@.len() {
                buffer@
            } else {
                old(self).upper@
            },
    {
        replace_frame(&mut self.upper, buffer);
    }

    /// Update lower screen buffer: a buffer of another length than the
    /// screen's is ignored.
    pub fn update_lower(&mut self, buffer: &[u32])
        ensures
            final(self).upper == old(self).upper,
            final(self).lower@ == if buffer@.len() == old(self).lower@.len() {
                buffer@
            } else {
                old(self).lower@
            },
    {
        replace_frame(&mut self.lower, buffer);
    }
}

/// Main emulator window state
pub struct EmuWindow {
    /// Current ROM file name
    pub rom_file_name: String,
    /// Frame buffer data
    pub frame_buffer: FrameBuffer,
    /// Current FPS counter
    pub fps: u32,
    /// Is emulation running
    pub is_running: bool,
    /// Is currently emulating a game
    pub is_emulating: bool,
    /// Configuration state
    pub enable_framelimiter: bool,
    pub frameskip: bool,
}

/// The DS key that a keyboard code stands for, if any: the arrow keys,
/// Q and W for the shoulder buttons, A, S, X and Z for the face buttons,
/// Return for Start, Space for Select, and 0 for the debug key.
pub open spec fn key_of(key_code: u32) -> Option<DSKey> {
    if key_code == 38 {
        Some(DSKey::ButtonUp)
    } else if key_code == 40 {
        Some(DSKey::ButtonDown)
    } else if key_code == 37 {
        Some(DSKey::ButtonLeft)
    } else if key_code == 39 {
        Some(DSKey::ButtonRight)
    } else if key_code == 81 {
        Some(DSKey::ButtonL)
    } else if key_code == 87 {
        Some(DSKey::ButtonR)
    } else if key_code == 65 {
        Some(DSKey::ButtonY)
    } else if key_code == 83 {
        Some(DSKey::ButtonX)
    } else if key_code == 88 {
        Some(DSKey::ButtonA)
    } else if key_code == 90 {
        Some(DSKey::ButtonB)
    } else if key_code == 13 {
        Some(DSKey::ButtonStart)
    } else if key_code == 32 {
        Some(DSKey::ButtonSelect)
    } else if key_code == 48 {
        Some(DSKey::Debugging)
    } else {
        None
    }
}

/// The point of the lower screen that a point of the window lies on: the
/// lower screen starts below scanline 192 of the window.
pub open spec fn touch_of(x: i32, y: i32) -> Option<(i32, i32)> {
    if SCANLINES < y < 2 * SCANLINES {
        Some((x, (y - SCANLINES) as i32))
    } else {
        None
    }
}

impl EmuWindow {
    /// The window as it is made: no game, both screens black, the frame
    /// limiter on.
    pub open spec fn is_new(&self) -> bool {
        &&& self.frame_buffer.upper@ == Seq::new(FRAME_PIXELS as nat, |i: int| 0u32)
        &&& self.frame_buffer.lower@ == Seq::new(FRAME_PIXELS as nat, |i: int| 0u32)
        &&& self.rom_file_name@.len() == 0
        &&& self.fps == 0
        &&& !self.is_running
        &&& !self.is_emulating
        &&& self.enable_framelimiter
        &&& !self.frameskip
    }

    /// Create new emulator window
    pub fn new() -> (r: Self)
        ensures
            r.frame_buffer.wf(),
            r.is_new(),
    {
        EmuWindow {
            rom_file_name: String::new(),
            frame_buffer: FrameBuffer::new(),
            fps: 0,
            is_running: false,
            is_emulating: false,
            enable_framelimiter: true,
            frameskip: false,
        }
    }

    /// Check if emulator is running
    pub fn is_running(&self) -> (r: bool)
        ensures
            r == self.is_running,
    {
        self.is_running
    }

    /// Check if game is being emulated
    pub fn is_emulating(&self) -> (r: bool)
        ensures
            r == self.is_emulating,
    {
        self.is_emulating
    }

    /// Check if frame finished rendering: the window shows each frame as
    /// it is handed over, so that it always is.
    pub fn finished_frame(&self) -> (r: bool)
        ensures
            r,
    {
        true
    }

    /// Update frame buffers with new data
    pub fn draw_frame(&mut self, upper_buffer: &[u32], lower_buffer: &[u32])
        ensures
            final(self).frame_buffer.upper@ == if upper_buffer@.len() == old(
                self,
            ).frame_buffer.upper@.len() {
                upper_buffer@
            } else {
                old(self).frame_buffer.upper@
            },
            final(self).frame_buffer.lower@ == if lower_buffer@.len() == old(
                self,
            ).frame_buffer.lower@.len() {
                lower_buffer@
            } else {
                old(self).frame_buffer.lower@
            },
            final(self).rom_file_name == old(self).rom_file_name,
            final(self).fps == old(self).fps,
            final(self).is_running == old(self).is_running,
            final(self).is_emulating == old(self).is_emulating,
            final(self).enable_framelimiter == old(self).enable_framelimiter,
            final(self).frameskip == old(self).frameskip,
    {
        self.frame_buffer.update_upper(upper_buffer);
        self.frame_buffer.update_lower(lower_buffer);
    }

    /// Update FPS display
    pub fn update_fps(&mut self, fps: u32)
        ensures
            *final(self) == (EmuWindow { fps, ..*old(self) }),
    {
        self.fps = fps;
    }

    /// Handle key press event
    pub fn handle_key_press(&self, key_code: u32) -> (r: Option<DSKey>)
        ensures
            r == key_of(key_code),
    {
        if key_code == 38 {
            Some(DSKey::ButtonUp)
        } else if key_code == 40 {
            Some(DSKey::ButtonDown)
        } else if key_code == 37 {
            Some(DSKey::ButtonLeft)
        } else if key_code == 39 {
            Some(DSKey::ButtonRight)
        } else if key_code == 81 {
            Some(DSKey::ButtonL)
        } else if key_code == 87 {
            Some(DSKey::ButtonR)
        } else if key_code == 65 {
            Some(DSKey::ButtonY)
        } else if key_code == 83 {
            Some(DSKey::ButtonX)
        } else if key_code == 88 {
            Some(DSKey::ButtonA)
        } else if key_code == 90 {
            Some(DSKey::ButtonB)
        } else if key_code == 13 {
            Some(DSKey::ButtonStart)
        } else if key_code == 32 {
            Some(DSKey::ButtonSelect)
        } else if key_code == 48 {
            Some(DSKey::Debugging)
        } else {
            None
        }
    }

    /// Handle touchscreen input: the point of the lower screen that was
    /// touched, if the point of the window lies on it.
    pub fn handle_touchscreen(&self, x: i32, y: i32) -> (r: Option<(i32, i32)>)
        ensures
            r == touch_of(x, y),
    {
        if y > SCANLINES as i32 && y < 2 * SCANLINES as i32 {
            Some((x, y - SCANLINES as i32))
        } else {
            None
        }
    }

    /// Load ROM file: the window takes the name of the file and counts as
    /// emulating from then on.
    pub fn load_rom(&mut self, path: &str) -> (r: Result<(), String>)
        ensures
            r.is_ok(),
            final(self).rom_file_name@ == path@,
            final(self).is_emulating,
            final(self).frame_buffer == old(self).frame_buffer,
            final(self).fps == old(self).fps,
            final(self).is_running == old(self).is_running,
            final(self).enable_framelimiter == old(self).enable_framelimiter,
            final(self).frameskip == old(self).frameskip,
    {
        self.rom_file_name = path.to_owned();
        self.is_emulating = true;
        Ok(())
    }
}

impl Default for EmuWindow {
    fn default() -> (r: EmuWindow)
        ensures
            r.frame_buffer.wf(),
            r.is_new(),
    {
        EmuWindow::new()
    }
}

impl Default for FrameBuffer {
    fn default() -> (r: FrameBuffer)
        ensures
            r.wf(),
            r.upper@ == Seq::new(FRAME_PIXELS as nat, |i: int| 0u32),
            r.lower@ == Seq::new(FRAME_PIXELS as nat, |i: int| 0u32),
    {
        FrameBuffer::new()
    }
}

} // verus!
