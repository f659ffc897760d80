//! The events a window reports, and the virtual key-code lookup.

use vstd::prelude::*;

verus! {

/// An x coordinate in signed screen space.
pub type Xi32 = i32;
/// A y coordinate in signed screen space.
pub type Yi32 = i32;
/// A width in unsigned screen space.
pub type Xu32 = u32;
/// A height in unsigned screen space.
pub type Yu32 = u32;

/// One occurrence reported to a window: a key, a mouse action, a move,
/// a resize, or the window closing.
#[derive(Debug, Clone, Copy, PartialEq, Eq, Structural)]
pub enum Event {
    /// A key was pressed, held, or released.
    KeyInput(PressState, VKeyCode),
    /// A mouse button was clicked or released.
    MButtonInput(ClickType, MButton),
    /// The mouse moved inside the client area.
    MouseMoved(Xi32, Yi32),
    /// The mouse hovered over one point for a system-specified length of time.
    MouseHover(Xi32, Yi32),
    /// The mouse left the client area.
    MouseLeave,
    /// The mouse entered the client area.
    MouseEnter,
    /// The window was resized; also reported when the window is first created.
    Resized(ResizeType, Xu32, Yu32),
    /// The window was moved.
    Moved(Xi32, Yi32),
    /// The window was destroyed.
    Closed,
}

/// How a key transition happened.
#[derive(Debug, Clone, Copy, PartialEq, Eq, Structural)]
pub enum PressState {
    /// The key went down.
    Pressed,
    /// The platform repeats the key-down report while a key stays held;
    /// those repeats carry this state.
    Held,
    /// The key went up.
    Released,
}

/// How a mouse button transition happened.
#[derive(Debug, Clone, Copy, PartialEq, Eq, Structural)]
pub enum ClickType {
    /// A single click.
    Single,
    /// A double click.
    Double,
    /// The button was released.
    Released,
}

/// A mouse button.
#[derive(Debug, Clone, Copy, PartialEq, Eq, Structural)]
pub enum MButton {
    /// The left button.
    Left,
    /// The right button.
    Right,
    /// The middle button.
    Middle,
    /// The first extra button.
    Button4,
    /// The second extra button.
    Button5,
}

/// Why a window's size changed.
#[derive(Debug, Clone, Copy, PartialEq, Eq, Structural)]
pub enum ResizeType {
    /// The window was maximized.
    Maximized,
    /// The window was minimized.
    Minimized,
    /// The size was changed by dragging at the edge of the window.
    Changed,
}

/// A virtual key, named after the key's meaning on a US layout where the
/// platform does not give it a name of its own.
#[derive(Debug, Clone, Copy, PartialEq, Eq, Structural)]
#[allow(missing_docs)]
pub enum VKeyCode {
    /// Backspace.
    Back,
    Tab,
    Clear,
    Enter,
    Pause,
    Escape,
    Space,
    PgUp,
    PgDn,
    End,
    Home,
    Select,
    Print,
    Execute,
    PrntScr,
    Insert,
    Delete,
    Help,
    Key0,
    Key1,
    Key2,
    Key3,
    Key4,
    Key5,
    Key6,
    Key7,
    Key8,
    Key9,
    A,
    B,
    C,
    D,
    E,
    F,
    G,
    H,
    I,
    J,
    K,
    L,
    M,
    N,
    O,
    P,
    Q,
    R,
    S,
    T,
    U,
    V,
    W,
    X,
    Y,
    Z,
    /// `;:` on US standard keyboards.
    Semi,
    Plus,
    Comma,
    Minus,
    /// The period key.
    Dot,
    /// `/?` on US standard keyboards.
    Slash,
    /// `` `~ `` on US standard keyboards.
    Tilde,
    /// `[{` on US standard keyboards.
    LBrac,
    /// `]}` on US standard keyboards.
    RBrac,
    /// `\|` on US standard keyboards.
    Pipe,
    /// `'"` on US standard keyboards.
    Quote,
    Sleep,
    Num0,
    Num1,
    Num2,
    Num3,
    Num4,
    Num5,
    Num6,
    Num7,
    Num8,
    Num9,
    NumStar,
    NumPlus,
    NumSub,
    NumDot,
    NumSlash,
    F1,
    F2,
    F3,
    F4,
    F5,
    F6,
    F7,
    F8,
    F9,
    F10,
    F11,
    F12,
    F13,
    F14,
    F15,
    F16,
    F17,
    F18,
    F19,
    F20,
    F21,
    F22,
    F23,
    F24,
    Num,
    Caps,
    Scroll,
    LShift,
    RShift,
    LCtrl,
    RCtrl,
    LAlt,
    RAlt,
    /// Browser back key.
    BBack,
    /// Browser forward key.
    BFwd,
    /// Browser refresh key.
    BRef,
    /// Browser stop key.
    BStop,
    /// Browser search key.
    BSearch,
    /// Browser favorites key.
    BFav,
    /// Browser start/home key.
    BHome,
    /// Next track key.
    MNTrack,
    /// Previous track key.
    MPTrack,
    /// Stop media key.
    MStop,
    /// Play/pause media key.
    MPause,
    /// Left arrow key.
    LArrow,
    /// Up arrow key.
    UArrow,
    /// Right arrow key.
    RArrow,
    /// Down arrow key.
    DArrow,
    /// IME Kana mode key.
    Kana,
    /// IME Junja mode key.
    Junja,
    /// IME final mode key.
    Final,
    /// IME Kanji mode key.
    Kanji,
    /// IME convert key.
    Convert,
    /// IME nonconvert key.
    Nonconvert,
    /// IME accept key.
    Accept,
    /// IME mode-change key.
    ModeChange,
    /// IME process key.
    Process,
    /// The undirected shift key.
    Shift,
    /// The undirected control key.
    Control,
    /// The undirected menu key.
    Menu,
}

/// The platform's numeric code for each virtual key.
pub open spec fn key_code_value(k: VKeyCode) -> u64 {
    match k {
        VKeyCode::Back => 0x08,
        VKeyCode::Tab => 0x09,
        VKeyCode::Clear => 0x0C,
        VKeyCode::Enter => 0x0D,
        VKeyCode::Pause => 0x13,
        VKeyCode::Escape => 0x1B,
        VKeyCode::Space => 0x20,
        VKeyCode::PgUp => 0x21,
        VKeyCode::PgDn => 0x22,
        VKeyCode::End => 0x23,
        VKeyCode::Home => 0x24,
        VKeyCode::Select => 0x29,
        VKeyCode::Print => 0x2A,
        VKeyCode::Execute => 0x2B,
        VKeyCode::PrntScr => 0x2C,
        VKeyCode::Insert => 0x2D,
        VKeyCode::Delete => 0x2E,
        VKeyCode::Help => 0x2F,
        VKeyCode::Key0 => 0x30,
        VKeyCode::Key1 => 0x31,
        VKeyCode::Key2 => 0x32,
        VKeyCode::Key3 => 0x33,
        VKeyCode::Key4 => 0x34,
        VKeyCode::Key5 => 0x35,
        VKeyCode::Key6 => 0x36,
        VKeyCode::Key7 => 0x37,
        VKeyCode::Key8 => 0x38,
        VKeyCode::Key9 => 0x39,
        VKeyCode::A => 0x41,
        VKeyCode::B => 0x42,
        VKeyCode::C => 0x43,
        VKeyCode::D => 0x44,
        VKeyCode::E => 0x45,
        VKeyCode::F => 0x46,
        VKeyCode::G => 0x47,
        VKeyCode::H => 0x48,
        VKeyCode::I => 0x49,
        VKeyCode::J => 0x4A,
        VKeyCode::K => 0x4B,
        VKeyCode::L => 0x4C,
        VKeyCode::M => 0x4D,
        VKeyCode::N => 0x4E,
        VKeyCode::O => 0x4F,
        VKeyCode::P => 0x50,
        VKeyCode::Q => 0x51,
        VKeyCode::R => 0x52,
        VKeyCode::S => 0x53,
        VKeyCode::T => 0x54,
        VKeyCode::U => 0x55,
        VKeyCode::V => 0x56,
        VKeyCode::W => 0x57,
        VKeyCode::X => 0x58,
        VKeyCode::Y => 0x59,
        VKeyCode::Z => 0x5A,
        VKeyCode::Semi => 0xBA,
        VKeyCode::Plus => 0xBB,
        VKeyCode::Comma => 0xBC,
        VKeyCode::Minus => 0xBD,
        VKeyCode::Dot => 0xBE,
        VKeyCode::Slash => 0xBF,
        VKeyCode::Tilde => 0xC0,
        VKeyCode::LBrac => 0xDB,
        VKeyCode::RBrac => 0xDD,
        VKeyCode::Pipe => 0xDC,
        VKeyCode::Quote => 0xDE,
        VKeyCode::Sleep => 0x5F,
        VKeyCode::Num0 => 0x60,
        VKeyCode::Num1 => 0x61,
        VKeyCode::Num2 => 0x62,
        VKeyCode::Num3 => 0x63,
        VKeyCode::Num4 => 0x64,
        VKeyCode::Num5 => 0x65,
        VKeyCode::Num6 => 0x66,
        VKeyCode::Num7 => 0x67,
        VKeyCode::Num8 => 0x68,
        VKeyCode::Num9 => 0x69,
        VKeyCode::NumStar => 0x6A,
        VKeyCode::NumPlus => 0x6B,
        VKeyCode::NumSub => 0x6D,
        VKeyCode::NumDot => 0x6E,
        VKeyCode::NumSlash => 0x6F,
        VKeyCode::F1 => 0x70,
        VKeyCode::F2 => 0x71,
        VKeyCode::F3 => 0x72,
        VKeyCode::F4 => 0x73,
        VKeyCode::F5 => 0x74,
        VKeyCode::F6 => 0x75,
        VKeyCode::F7 => 0x76,
        VKeyCode::F8 => 0x77,
        VKeyCode::F9 => 0x78,
        VKeyCode::F10 => 0x79,
        VKeyCode::F11 => 0x7A,
        VKeyCode::F12 => 0x7B,
        VKeyCode::F13 => 0x7C,
        VKeyCode::F14 => 0x7D,
        VKeyCode::F15 => 0x7E,
        VKeyCode::F16 => 0x7F,
        VKeyCode::F17 => 0x80,
        VKeyCode::F18 => 0x81,
        VKeyCode::F19 => 0x82,
        VKeyCode::F20 => 0x83,
        VKeyCode::F21 => 0x84,
        VKeyCode::F22 => 0x85,
        VKeyCode::F23 => 0x86,
        VKeyCode::F24 => 0x87,
        VKeyCode::Num => 0x90,
        VKeyCode::Caps => 0x14,
        VKeyCode::Scroll => 0x91,
        VKeyCode::LShift => 0xA0,
        VKeyCode::RShift => 0xA1,
        VKeyCode::LCtrl => 0xA2,
        VKeyCode::RCtrl => 0xA3,
        VKeyCode::LAlt => 0xA4,
        VKeyCode::RAlt => 0xA5,
        VKeyCode::BBack => 0xA6,
        VKeyCode::BFwd => 0xA7,
        VKeyCode::BRef => 0xA8,
        VKeyCode::BStop => 0xA9,
        VKeyCode::BSearch => 0xAA,
        VKeyCode::BFav => 0xAB,
        VKeyCode::BHome => 0xAC,
        VKeyCode::MNTrack => 0xB0,
        VKeyCode::MPTrack => 0xB1,
        VKeyCode::MStop => 0xB2,
        VKeyCode::MPause => 0xB3,
        VKeyCode::LArrow => 0x25,
        VKeyCode::UArrow => 0x26,
        VKeyCode::RArrow => 0x27,
        VKeyCode::DArrow => 0x28,
        VKeyCode::Kana => 0x15,
        VKeyCode::Junja => 0x17,
        VKeyCode::Final => 0x18,
        VKeyCode::Kanji => 0x19,
        VKeyCode::Convert => 0x1C,
        VKeyCode::Nonconvert => 0x1D,
        VKeyCode::Accept => 0x1E,
        VKeyCode::ModeChange => 0x1F,
        VKeyCode::Process => 0xE5,
        VKeyCode::Shift => 0x10,
        VKeyCode::Control => 0x11,
        VKeyCode::Menu => 0x12,
    }
}

/// Which virtual keys the numeric lookup recognizes. The undirected modifier
/// keys and the remaining IME keys have codes the platform reports, but the
/// lookup leaves them unrecognized so that the directed variants are the ones
/// a key event carries.
pub open spec fn key_lookup_covers(k: VKeyCode) -> bool {
    !(k == VKeyCode::Nonconvert || k == VKeyCode::Accept || k == VKeyCode::ModeChange
        || k == VKeyCode::Process || k == VKeyCode::Shift || k == VKeyCode::Control
        || k == VKeyCode::Menu)
}

/// The virtual key the numeric lookup recognizes for each platform key
/// code: the inverse of `key_code_value` on the keys the lookup covers.
pub open spec fn key_of(n: u64) -> Option<VKeyCode> {
    match n {
        0x08 => Some(VKeyCode::Back),
        0x09 => Some(VKeyCode::Tab),
        0x0C => Some(VKeyCode::Clear),
        0x0D => Some(VKeyCode::Enter),
        0x13 => Some(VKeyCode::Pause),
        0x1B => Some(VKeyCode::Escape),
        0x20 => Some(VKeyCode::Space),
        0x21 => Some(VKeyCode::PgUp),
        0x22 => Some(VKeyCode::PgDn),
        0x23 => Some(VKeyCode::End),
        0x24 => Some(VKeyCode::Home),
        0x29 => Some(VKeyCode::Select),
        0x2A => Some(VKeyCode::Print),
        0x2B => Some(VKeyCode::Execute),
        0x2C => Some(VKeyCode::PrntScr),
        0x2D => Some(VKeyCode::Insert),
        0x2E => Some(VKeyCode::Delete),
        0x2F => Some(VKeyCode::Help),
        0x30 => Some(VKeyCode::Key0),
        0x31 => Some(VKeyCode::Key1),
        0x32 => Some(VKeyCode::Key2),
        0x33 => Some(VKeyCode::Key3),
        0x34 => Some(VKeyCode::Key4),
        0x35 => Some(VKeyCode::Key5),
        0x36 => Some(VKeyCode::Key6),
        0x37 => Some(VKeyCode::Key7),
        0x38 => Some(VKeyCode::Key8),
        0x39 => Some(VKeyCode::Key9),
        0x41 => Some(VKeyCode::A),
        0x42 => Some(VKeyCode::B),
        0x43 => Some(VKeyCode::C),
        0x44 => Some(VKeyCode::D),
        0x45 => Some(VKeyCode::E),
        0x46 => Some(VKeyCode::F),
        0x47 => Some(VKeyCode::G),
        0x48 => Some(VKeyCode::H),
        0x49 => Some(VKeyCode::I),
        0x4A => Some(VKeyCode::J),
        0x4B => Some(VKeyCode::K),
        0x4C => Some(VKeyCode::L),
        0x4D => Some(VKeyCode::M),
        0x4E => Some(VKeyCode::N),
        0x4F => Some(VKeyCode::O),
        0x50 => Some(VKeyCode::P),
        0x51 => Some(VKeyCode::Q),
        0x52 => Some(VKeyCode::R),
        0x53 => Some(VKeyCode::S),
        0x54 => Some(VKeyCode::T),
        0x55 => Some(VKeyCode::U),
        0x56 => Some(VKeyCode::V),
        0x57 => Some(VKeyCode::W),
        0x58 => Some(VKeyCode::X),
        0x59 => Some(VKeyCode::Y),
        0x5A => Some(VKeyCode::Z),
        0xBA => Some(VKeyCode::Semi),
        0xBB => Some(VKeyCode::Plus),
        0xBC => Some(VKeyCode::Comma),
        0xBD => Some(VKeyCode::Minus),
        0xBE => Some(VKeyCode::Dot),
        0xBF => Some(VKeyCode::Slash),
        0xC0 => Some(VKeyCode::Tilde),
        0xDB => Some(VKeyCode::LBrac),
        0xDD => Some(VKeyCode::RBrac),
        0xDC => Some(VKeyCode::Pipe),
        0xDE => Some(VKeyCode::Quote),
        0x5F => Some(VKeyCode::Sleep),
        0x60 => Some(VKeyCode::Num0),
        0x61 => Some(VKeyCode::Num1),
        0x62 => Some(VKeyCode::Num2),
        0x63 => Some(VKeyCode::Num3),
        0x64 => Some(VKeyCode::Num4),
        0x65 => Some(VKeyCode::Num5),
        0x66 => Some(VKeyCode::Num6),
        0x67 => Some(VKeyCode::Num7),
        0x68 => Some(VKeyCode::Num8),
        0x69 => Some(VKeyCode::Num9),
        0x6A => Some(VKeyCode::NumStar),
        0x6B => Some(VKeyCode::NumPlus),
        0x6D => Some(VKeyCode::NumSub),
        0x6E => Some(VKeyCode::NumDot),
        0x6F => Some(VKeyCode::NumSlash),
        0x70 => Some(VKeyCode::F1),
        0x71 => Some(VKeyCode::F2),
        0x72 => Some(VKeyCode::F3),
        0x73 => Some(VKeyCode::F4),
        0x74 => Some(VKeyCode::F5),
        0x75 => Some(VKeyCode::F6),
        0x76 => Some(VKeyCode::F7),
        0x77 => Some(VKeyCode::F8),
        0x78 => Some(VKeyCode::F9),
        0x79 => Some(VKeyCode::F10),
        0x7A => Some(VKeyCode::F11),
        0x7B => Some(VKeyCode::F12),
        0x7C => Some(VKeyCode::F13),
        0x7D => Some(VKeyCode::F14),
        0x7E => Some(VKeyCode::F15),
        0x7F => Some(VKeyCode::F16),
        0x80 => Some(VKeyCode::F17),
        0x81 => Some(VKeyCode::F18),
        0x82 => Some(VKeyCode::F19),
        0x83 => Some(VKeyCode::F20),
        0x84 => Some(VKeyCode::F21),
        0x85 => Some(VKeyCode::F22),
        0x86 => Some(VKeyCode::F23),
        0x87 => Some(VKeyCode::F24),
        0x90 => Some(VKeyCode::Num),
        0x14 => Some(VKeyCode::Caps),
        0x91 => Some(VKeyCode::Scroll),
        0xA0 => Some(VKeyCode::LShift),
        0xA1 => Some(VKeyCode::RShift),
        0xA2 => Some(VKeyCode::LCtrl),
        0xA3 => Some(VKeyCode::RCtrl),
        0xA4 => Some(VKeyCode::LAlt),
        0xA5 => Some(VKeyCode::RAlt),
        0xA6 => Some(VKeyCode::BBack),
        0xA7 => Some(VKeyCode::BFwd),
        0xA8 => Some(VKeyCode::BRef),
        0xA9 => Some(VKeyCode::BStop),
        0xAA => Some(VKeyCode::BSearch),
        0xAB => Some(VKeyCode::BFav),
        0xAC => Some(VKeyCode::BHome),
        0xB0 => Some(VKeyCode::MNTrack),
        0xB1 => Some(VKeyCode::MPTrack),
        0xB2 => Some(VKeyCode::MStop),
        0xB3 => Some(VKeyCode::MPause),
        0x25 => Some(VKeyCode::LArrow),
        0x26 => Some(VKeyCode::UArrow),
        0x27 => Some(VKeyCode::RArrow),
        0x28 => Some(VKeyCode::DArrow),
        0x15 => Some(VKeyCode::Kana),
        0x17 => Some(VKeyCode::Junja),
        0x18 => Some(VKeyCode::Final),
        0x19 => Some(VKeyCode::Kanji),
        0x1C => Some(VKeyCode::Convert),
        _ => None,
    }
}

impl VKeyCode {
    /// The virtual key a platform key code stands for, or `None` when the
    /// code names no recognized key.
    pub fn from_u64(n: u64) -> (r: Option<VKeyCode>)
        ensures
            r == key_of(n),
            r matches Some(k) ==> key_lookup_covers(k) && key_code_value(k) == n,
            r is None ==> forall|k: VKeyCode| key_lookup_covers(k) ==> key_code_value(k) != n,
    {
        match n {
            0x08 => Some(VKeyCode::Back),
            0x09 => Some(VKeyCode::Tab),
            0x0C => Some(VKeyCode::Clear),
            0x0D => Some(VKeyCode::Enter),
            0x13 => Some(VKeyCode::Pause),
            0x1B => Some(VKeyCode::Escape),
            0x20 => Some(VKeyCode::Space),
            0x21 => Some(VKeyCode::PgUp),
            0x22 => Some(VKeyCode::PgDn),
            0x23 => Some(VKeyCode::End),
            0x24 => Some(VKeyCode::Home),
            0x29 => Some(VKeyCode::Select),
            0x2A => Some(VKeyCode::Print),
            0x2B => Some(VKeyCode::Execute),
            0x2C => Some(VKeyCode::PrntScr),
            0x2D => Some(VKeyCode::Insert),
            0x2E => Some(VKeyCode::Delete),
            0x2F => Some(VKeyCode::Help),
            0x30 => Some(VKeyCode::Key0),
            0x31 => Some(VKeyCode::Key1),
            0x32 => Some(VKeyCode::Key2),
            0x33 => Some(VKeyCode::Key3),
            0x34 => Some(VKeyCode::Key4),
            0x35 => Some(VKeyCode::Key5),
            0x36 => Some(VKeyCode::Key6),
            0x37 => Some(VKeyCode::Key7),
            0x38 => Some(VKeyCode::Key8),
            0x39 => Some(VKeyCode::Key9),
            0x41 => Some(VKeyCode::A),
            0x42 => Some(VKeyCode::B),
            0x43 => Some(VKeyCode::C),
            0x44 => Some(VKeyCode::D),
            0x45 => Some(VKeyCode::E),
            0x46 => Some(VKeyCode::F),
            0x47 => Some(VKeyCode::G),
            0x48 => Some(VKeyCode::H),
            0x49 => Some(VKeyCode::I),
            0x4A => Some(VKeyCode::J),
            0x4B => Some(VKeyCode::K),
            0x4C => Some(VKeyCode::L),
            0x4D => Some(VKeyCode::M),
            0x4E => Some(VKeyCode::N),
            0x4F => Some(VKeyCode::O),
            0x50 => Some(VKeyCode::P),
            0x51 => Some(VKeyCode::Q),
            0x52 => Some(VKeyCode::R),
            0x53 => Some(VKeyCode::S),
            0x54 => Some(VKeyCode::T),
            0x55 => Some(VKeyCode::U),
            0x56 => Some(VKeyCode::V),
            0x57 => Some(VKeyCode::W),
            0x58 => Some(VKeyCode::X),
            0x59 => Some(VKeyCode::Y),
            0x5A => Some(VKeyCode::Z),
            0xBA => Some(VKeyCode::Semi),
            0xBB => Some(VKeyCode::Plus),
            0xBC => Some(VKeyCode::Comma),
            0xBD => Some(VKeyCode::Minus),
            0xBE => Some(VKeyCode::Dot),
            0xBF => Some(VKeyCode::Slash),
            0xC0 => Some(VKeyCode::Tilde),
            0xDB => Some(VKeyCode::LBrac),
            0xDD => Some(VKeyCode::RBrac),
            0xDC => Some(VKeyCode::Pipe),
            0xDE => Some(VKeyCode::Quote),
            0x5F => Some(VKeyCode::Sleep),
            0x60 => Some(VKeyCode::Num0),
            0x61 => Some(VKeyCode::Num1),
            0x62 => Some(VKeyCode::Num2),
            0x63 => Some(VKeyCode::Num3),
            0x64 => Some(VKeyCode::Num4),
            0x65 => Some(VKeyCode::Num5),
            0x66 => Some(VKeyCode::Num6),
            0x67 => Some(VKeyCode::Num7),
            0x68 => Some(VKeyCode::Num8),
            0x69 => Some(VKeyCode::Num9),
            0x6A => Some(VKeyCode::NumStar),
            0x6B => Some(VKeyCode::NumPlus),
            0x6D => Some(VKeyCode::NumSub),
            0x6E => Some(VKeyCode::NumDot),
            0x6F => Some(VKeyCode::NumSlash),
            0x70 => Some(VKeyCode::F1),
            0x71 => Some(VKeyCode::F2),
            0x72 => Some(VKeyCode::F3),
            0x73 => Some(VKeyCode::F4),
            0x74 => Some(VKeyCode::F5),
            0x75 => Some(VKeyCode::F6),
            0x76 => Some(VKeyCode::F7),
            0x77 => Some(VKeyCode::F8),
            0x78 => Some(VKeyCode::F9),
            0x79 => Some(VKeyCode::F10),
            0x7A => Some(VKeyCode::F11),
            0x7B => Some(VKeyCode::F12),
            0x7C => Some(VKeyCode::F13),
            0x7D => Some(VKeyCode::F14),
            0x7E => Some(VKeyCode::F15),
            0x7F => Some(VKeyCode::F16),
            0x80 => Some(VKeyCode::F17),
            0x81 => Some(VKeyCode::F18),
            0x82 => Some(VKeyCode::F19),
            0x83 => Some(VKeyCode::F20),
            0x84 => Some(VKeyCode::F21),
            0x85 => Some(VKeyCode::F22),
            0x86 => Some(VKeyCode::F23),
            0x87 => Some(VKeyCode::F24),
            0x90 => Some(VKeyCode::Num),
            0x14 => Some(VKeyCode::Caps),
            0x91 => Some(VKeyCode::Scroll),
            0xA0 => Some(VKeyCode::LShift),
            0xA1 => Some(VKeyCode::RShift),
            0xA2 => Some(VKeyCode::LCtrl),
            0xA3 => Some(VKeyCode::RCtrl),
            0xA4 => Some(VKeyCode::LAlt),
            0xA5 => Some(VKeyCode::RAlt),
            0xA6 => Some(VKeyCode::BBack),
            0xA7 => Some(VKeyCode::BFwd),
            0xA8 => Some(VKeyCode::BRef),
            0xA9 => Some(VKeyCode::BStop),
            0xAA => Some(VKeyCode::BSearch),
            0xAB => Some(VKeyCode::BFav),
            0xAC => Some(VKeyCode::BHome),
            0xB0 => Some(VKeyCode::MNTrack),
            0xB1 => Some(VKeyCode::MPTrack),
            0xB2 => Some(VKeyCode::MStop),
            0xB3 => Some(VKeyCode::MPause),
            0x25 => Some(VKeyCode::LArrow),
            0x26 => Some(VKeyCode::UArrow),
            0x27 => Some(VKeyCode::RArrow),
            0x28 => Some(VKeyCode::DArrow),
            0x15 => Some(VKeyCode::Kana),
            0x17 => Some(VKeyCode::Junja),
            0x18 => Some(VKeyCode::Final),
            0x19 => Some(VKeyCode::Kanji),
            0x1C => Some(VKeyCode::Convert),
            _ => None,
        }
    }

    /// The virtual key a signed platform key code stands for; every negative
    /// code names no key.
    pub fn from_i64(n: i64) -> (r: Option<VKeyCode>)
        ensures
            r == if 0 <= n { key_of(n as u64) } else { None::<VKeyCode> },
            r matches Some(k) ==> key_lookup_covers(k) && key_code_value(k) as int == n as int,
            r is None ==> forall|k: VKeyCode| key_lookup_covers(k)
                ==> key_code_value(k) as int != n as int,
    {
        if 0 <= n {
            VKeyCode::from_u64(n as u64)
        } else {
            None
        }
    }
}

} // verus!
