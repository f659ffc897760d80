//! Creation-time parameters for a window and its pixel format.

use vstd::prelude::*;

verus! {

/// Immutable snapshot of the parameters a window is created with.
/// The chaining methods take the value by move: they are meant to build a
/// one-off configuration for a single window, not to mutate a shared one.
#[derive(Debug, Clone)]
pub struct WindowConfig {
    /// The window's name.
    pub name: String,
    /// The window's dimensions.
    pub size: Option<(i32, i32)>,
    /// Whether the window always stays at the top of the Z order.
    pub topmost: bool,
    /// Whether the window is borderless; overrides the other decorations.
    pub borderless: bool,
    /// Whether the window can be resized by dragging its edge.
    pub resizable: bool,
    /// Whether the window can be maximized.
    pub maximizable: bool,
    /// Whether the window can be minimized.
    pub minimizable: bool,
    /// Whether the window stays off the taskbar.
    pub tool_window: bool,
    /// Whether the window can be transparent.
    pub transparent: bool,
    /// The state the window starts in.
    pub initial_state: InitialState,
    /// The path of the window's icon file, if it has one.
    pub icon: Option<String>,
}

/// The state a window starts in.
#[derive(Debug, Clone, Copy, PartialEq, Eq, Structural)]
pub enum InitialState {
    /// The window starts as a floating window.
    Windowed,
    /// The window starts minimized.
    Minimized,
    /// The window starts maximized.
    Maximized,
}

impl WindowConfig {
    /// Create a new window config, identical to `Default::default()`.
    pub fn new() -> (c: WindowConfig)
        ensures
            c.name@ == Seq::<char>::empty(),
            c.size is None,
            !c.topmost,
            !c.borderless,
            c.resizable,
            c.maximizable,
            c.minimizable,
            !c.tool_window,
            !c.transparent,
            c.initial_state == InitialState::Windowed,
            c.icon is None,
    {
        WindowConfig {
            name: String::new(),
            size: None,
            topmost: false,
            borderless: false,
            resizable: true,
            maximizable: true,
            minimizable: true,
            tool_window: false,
            transparent: false,
            initial_state: InitialState::Windowed,
            icon: None,
        }
    }

    pub fn name(self, name: String) -> (c: WindowConfig)
        ensures
            c == (WindowConfig { name, ..self }),
    {
        WindowConfig { name, ..self }
    }

    pub fn size(self, size: Option<(i32, i32)>) -> (c: WindowConfig)
        ensures
            c == (WindowConfig { size, ..self }),
    {
        WindowConfig { size, ..self }
    }

    pub fn topmost(self, topmost: bool) -> (c: WindowConfig)
        ensures
            c == (WindowConfig { topmost, ..self }),
    {
        WindowConfig { topmost, ..self }
    }

    pub fn borderless(self, borderless: bool) -> (c: WindowConfig)
        ensures
            c == (WindowConfig { borderless, ..self }),
    {
        WindowConfig { borderless, ..self }
    }

    pub fn resizable(self, resizable: bool) -> (c: WindowConfig)
        ensures
            c == (WindowConfig { resizable, ..self }),
    {
        WindowConfig { resizable, ..self }
    }

    pub fn maximizable(self, maximizable: bool) -> (c: WindowConfig)
        ensures
            c == (WindowConfig { maximizable, ..self }),
    {
        WindowConfig { maximizable, ..self }
    }

    pub fn minimizable(self, minimizable: bool) -> (c: WindowConfig)
        ensures
            c == (WindowConfig { minimizable, ..self }),
    {
        WindowConfig { minimizable, ..self }
    }

    pub fn tool_window(self, tool_window: bool) -> (c: WindowConfig)
        ensures
            c == (WindowConfig { tool_window, ..self }),
    {
        WindowConfig { tool_window, ..self }
    }

    pub fn transparent(self, transparent: bool) -> (c: WindowConfig)
        ensures
            c == (WindowConfig { transparent, ..self }),
    {
        WindowConfig { transparent, ..self }
    }

    pub fn initial_state(self, initial_state: InitialState) -> (c: WindowConfig)
        ensures
            c == (WindowConfig { initial_state, ..self }),
    {
        WindowConfig { initial_state, ..self }
    }

    pub fn icon(self, icon: Option<String>) -> (c: WindowConfig)
        ensures
            c == (WindowConfig { icon, ..self }),
    {
        WindowConfig { icon, ..self }
    }
}

impl Default for WindowConfig {
    fn default() -> (c: WindowConfig)
        ensures
            c.name@ == Seq::<char>::empty(),
            c.size is None,
            !c.topmost,
            !c.borderless,
            c.resizable,
            c.maximizable,
            c.minimizable,
            !c.tool_window,
            !c.transparent,
            c.initial_state == InitialState::Windowed,
            c.icon is None,
    {
        WindowConfig::new()
    }
}

/// The pixel format requested for a window's framebuffer.
#[derive(Debug, Clone, PartialEq, Eq)]
pub struct PixelFormat {
    /// The minimum number of color bits in the framebuffer. Defaults to 24.
    pub color_bits: u8,
    /// The minimum number of alpha bits in the framebuffer. Defaults to 8.
    pub alpha_bits: u8,
    /// The minimum size of the depth buffer. Defaults to 0.
    pub depth_bits: u8,
    /// The minimum size of the stencil buffer. Defaults to 0.
    pub stencil_bits: u8,
    /// Whether the window should use SRGB. `None` is don't-care; defaults to `None`.
    pub srgb: Option<bool>,
    /// Whether the color buffer holds fractional intensities. Defaults to false.
    pub color_buffer_float: bool,
    /// The minimum amount of multisampling for the window. Defaults to 0.
    pub multisampling: u16,
    /// Whether the pixel format must be hardware accelerated. `None` is
    /// don't-care; defaults to `Some(true)`.
    pub hardware_accel: Option<bool>,
    /// Whether the window has a left and a right color buffer. Defaults to false.
    pub stereoscopic: bool,
}

impl PixelFormat {
    /// Create a new pixel format, identical to `Default::default()`.
    pub fn new() -> (p: PixelFormat)
        ensures
            p == PixelFormat::default_spec(),
    {
        PixelFormat {
            color_bits: 24,
            alpha_bits: 8,
            depth_bits: 0,
            stencil_bits: 0,
            srgb: None,
            color_buffer_float: false,
            multisampling: 0,
            hardware_accel: Some(true),
            stereoscopic: false,
        }
    }

    /// The default pixel format as a value contracts can speak of.
    pub open spec fn default_spec() -> PixelFormat {
        PixelFormat {
            color_bits: 24,
            alpha_bits: 8,
            depth_bits: 0,
            stencil_bits: 0,
            srgb: None,
            color_buffer_float: false,
            multisampling: 0,
            hardware_accel: Some(true),
            stereoscopic: false,
        }
    }

    pub fn color_bits(self, color_bits: u8) -> (p: PixelFormat)
        ensures
            p == (PixelFormat { color_bits, ..self }),
    {
        PixelFormat { color_bits, ..self }
    }

    pub fn alpha_bits(self, alpha_bits: u8) -> (p: PixelFormat)
        ensures
            p == (PixelFormat { alpha_bits, ..self }),
    {
        PixelFormat { alpha_bits, ..self }
    }

    pub fn depth_bits(self, depth_bits: u8) -> (p: PixelFormat)
        ensures
            p == (PixelFormat { depth_bits, ..self }),
    {
        PixelFormat { depth_bits, ..self }
    }

    pub fn stencil_bits(self, stencil_bits: u8) -> (p: PixelFormat)
        ensures
            p == (PixelFormat { stencil_bits, ..self }),
    {
        PixelFormat { stencil_bits, ..self }
    }

    pub fn srgb(self, srgb: Option<bool>) -> (p: PixelFormat)
        ensures
            p == (PixelFormat { srgb, ..self }),
    {
        PixelFormat { srgb, ..self }
    }

    pub fn color_buffer_float(self, color_buffer_float: bool) -> (p: PixelFormat)
        ensures
            p == (PixelFormat { color_buffer_float, ..self }),
    {
        PixelFormat { color_buffer_float, ..self }
    }

    pub fn multisampling(self, multisampling: u16) -> (p: PixelFormat)
        ensures
            p == (PixelFormat { multisampling, ..self }),
    {
        PixelFormat { multisampling, ..self }
    }

    pub fn hardware_accel(self, hardware_accel: Option<bool>) -> (p: PixelFormat)
        ensures
            p == (PixelFormat { hardware_accel, ..self }),
    {
        PixelFormat { hardware_accel, ..self }
    }

    pub fn stereoscopic(self, stereoscopic: bool) -> (p: PixelFormat)
        ensures
            p == (PixelFormat { stereoscopic, ..self }),
    {
        PixelFormat { stereoscopic, ..self }
    }
}

impl Default for PixelFormat {
    fn default() -> (p: PixelFormat)
        ensures
            p == PixelFormat::default_spec(),
    {
        PixelFormat::new()
    }
}

} // verus!
