//! The pure parts of native window creation: style-flag assembly from a
//! configuration, validation of the creation and icon-load outcome, the
//! cursor-shape table, the decision behind cursor placement, and the
//! wide-string encoding the platform's creation calls take.

use vstd::prelude::*;
use vstd::std_specs::iter::IteratorSpec;

use crate::config::{InitialState, WindowConfig};
use crate::error::{TubError, TubResult};
use crate::event::Event;
use crate::registry::WindowId;
use crate::CursorType;

verus! {

/// Style bit: the window has a system menu.
pub const WS_SYSMENU: u32 = 0x0008_0000;
/// Style bit: the window has a title bar.
pub const WS_CAPTION: u32 = 0x00C0_0000;
/// Style bit: the window has a sizing border.
pub const WS_SIZEBOX: u32 = 0x0004_0000;
/// Style bit: the window has a maximize button.
pub const WS_MAXIMIZEBOX: u32 = 0x0001_0000;
/// Style bit: the window has a minimize button.
pub const WS_MINIMIZEBOX: u32 = 0x0002_0000;
/// Style bit: the window starts minimized.
pub const WS_MINIMIZE: u32 = 0x2000_0000;
/// Style bit: the window starts maximized.
pub const WS_MAXIMIZE: u32 = 0x0100_0000;
/// Extended style bit: the window border has a raised edge.
pub const WS_EX_WINDOWEDGE: u32 = 0x0000_0100;
/// Extended style bit: the window is a tool window, kept off the taskbar.
pub const WS_EX_TOOLWINDOW: u32 = 0x0000_0080;

/// The style word a configuration asks for: a system menu always; caption,
/// sizing border and maximize/minimize buttons only for a decorated,
/// non-tool window that allows them; and the initial-state bit.
pub open spec fn spec_window_style(c: WindowConfig) -> u32 {
    let style = WS_SYSMENU;
    let style = if !c.borderless && !c.tool_window {
        let style = style | WS_CAPTION;
        let style = if c.resizable {
            let style = style | WS_SIZEBOX;
            if c.maximizable {
                style | WS_MAXIMIZEBOX
            } else {
                style
            }
        } else {
            style
        };
        if c.minimizable {
            style | WS_MINIMIZEBOX
        } else {
            style
        }
    } else {
        style
    };
    match c.initial_state {
        InitialState::Windowed => style,
        InitialState::Minimized => style | WS_MINIMIZE,
        InitialState::Maximized => style | WS_MAXIMIZE,
    }
}

/// The extended style word a configuration asks for: a window edge for a
/// decorated non-tool window, and the tool-window bit when asked.
pub open spec fn spec_window_ex_style(c: WindowConfig) -> u32 {
    let style_ex = 0u32;
    let style_ex = if !c.borderless && !c.tool_window {
        style_ex | WS_EX_WINDOWEDGE
    } else {
        style_ex
    };
    if c.tool_window {
        style_ex | WS_EX_TOOLWINDOW
    } else {
        style_ex
    }
}

/// Translate a configuration into the platform creation words: the style
/// and the extended style the native creation call takes.
pub fn style_flags(config: &WindowConfig) -> (r: (u32, u32))
    ensures
        r.0 == spec_window_style(*config),
        r.1 == spec_window_ex_style(*config),
{
    let mut style: u32 = WS_SYSMENU;
    let mut style_ex: u32 = 0;

    if !config.borderless && !config.tool_window {
        style = style | WS_CAPTION;
        if config.resizable {
            style = style | WS_SIZEBOX;
            if config.maximizable {
                style = style | WS_MAXIMIZEBOX;
            }
        }
        if config.minimizable {
            style = style | WS_MINIMIZEBOX;
        }
        style_ex = style_ex | WS_EX_WINDOWEDGE;
    }
    if config.tool_window {
        style_ex = style_ex | WS_EX_TOOLWINDOW;
    }
    match config.initial_state {
        InitialState::Windowed => {},
        InitialState::Minimized => {
            style = style | WS_MINIMIZE;
        },
        InitialState::Maximized => {
            style = style | WS_MAXIMIZE;
        },
    }
    (style, style_ex)
}

/// The platform's resource number for the busy-in-background arrow cursor.
pub const IDC_APPSTARTING: u16 = 32650;
/// The platform's resource number for the standard arrow cursor.
pub const IDC_ARROW: u16 = 32512;
/// The platform's resource number for the crosshair cursor.
pub const IDC_CROSS: u16 = 32515;
/// The platform's resource number for the pointing-hand cursor.
pub const IDC_HAND: u16 = 32649;
/// The platform's resource number for the help-select cursor.
pub const IDC_HELP: u16 = 32651;
/// The platform's resource number for the text-beam cursor.
pub const IDC_IBEAM: u16 = 32513;
/// The platform's resource number for the slashed-circle cursor.
pub const IDC_NO: u16 = 32648;
/// The platform's resource number for the four-way move cursor.
pub const IDC_SIZEALL: u16 = 32646;
/// The platform's resource number for the diagonal-resize (NE/SW) cursor.
pub const IDC_SIZENESW: u16 = 32643;
/// The platform's resource number for the diagonal-resize (NW/SE) cursor.
pub const IDC_SIZENWSE: u16 = 32642;
/// The platform's resource number for the vertical-resize cursor.
pub const IDC_SIZENS: u16 = 32645;
/// The platform's resource number for the horizontal-resize cursor.
pub const IDC_SIZEWE: u16 = 32644;
/// The platform's resource number for the vertical arrow cursor.
pub const IDC_UPARROW: u16 = 32516;
/// The platform's resource number for the hourglass cursor.
pub const IDC_WAIT: u16 = 32514;

/// The platform cursor resource each cursor shape names, and none for the
/// invisible cursor.
pub open spec fn spec_cursor_resource(cursor: CursorType) -> Option<u16> {
    match cursor {
        CursorType::AppStarting => Some(IDC_APPSTARTING),
        CursorType::Arrow => Some(IDC_ARROW),
        CursorType::Crosshair => Some(IDC_CROSS),
        CursorType::Hand => Some(IDC_HAND),
        CursorType::Help => Some(IDC_HELP),
        CursorType::Text => Some(IDC_IBEAM),
        CursorType::Prohibited => Some(IDC_NO),
        CursorType::ResizeAll => Some(IDC_SIZEALL),
        CursorType::ResizeNESW => Some(IDC_SIZENESW),
        CursorType::ResizeNWSE => Some(IDC_SIZENWSE),
        CursorType::ResizeVertical => Some(IDC_SIZENS),
        CursorType::ResizeHoriz => Some(IDC_SIZEWE),
        CursorType::UpArrow => Some(IDC_UPARROW),
        CursorType::Wait => Some(IDC_WAIT),
        CursorType::Invisible => None,
    }
}

/// The platform cursor resource to load for a cursor shape; `None` asks for
/// no cursor at all (the invisible cursor).
pub fn cursor_resource_id(cursor: CursorType) -> (r: Option<u16>)
    ensures
        r == spec_cursor_resource(cursor),
{
    match cursor {
        CursorType::AppStarting => Some(IDC_APPSTARTING),
        CursorType::Arrow => Some(IDC_ARROW),
        CursorType::Crosshair => Some(IDC_CROSS),
        CursorType::Hand => Some(IDC_HAND),
        CursorType::Help => Some(IDC_HELP),
        CursorType::Text => Some(IDC_IBEAM),
        CursorType::Prohibited => Some(IDC_NO),
        CursorType::ResizeAll => Some(IDC_SIZEALL),
        CursorType::ResizeNESW => Some(IDC_SIZENESW),
        CursorType::ResizeNWSE => Some(IDC_SIZENWSE),
        CursorType::ResizeVertical => Some(IDC_SIZENS),
        CursorType::ResizeHoriz => Some(IDC_SIZEWE),
        CursorType::UpArrow => Some(IDC_UPARROW),
        CursorType::Wait => Some(IDC_WAIT),
        CursorType::Invisible => None,
    }
}

/// Judge the outcome of a native creation attempt. A zero handle means the
/// platform refused the window: its error message is wrapped, never
/// swallowed. With a handle, a requested icon must have loaded at both
/// required resolutions; the first resolution that failed is reported.
pub fn window_creation_result(
    handle: u64,
    os_error: String,
    icon_requested: bool,
    icon32_loaded: bool,
    icon16_loaded: bool,
) -> (r: TubResult<WindowId>)
    ensures
        handle == 0 ==> (r matches Err(TubError::OsError(m)) && m@ == os_error@),
        handle != 0 && icon_requested && !icon32_loaded ==> r
            == Err::<WindowId, TubError>(TubError::IconLoadError(32)),
        handle != 0 && icon_requested && icon32_loaded && !icon16_loaded ==> r
            == Err::<WindowId, TubError>(TubError::IconLoadError(16)),
        handle != 0 && (!icon_requested || (icon32_loaded && icon16_loaded)) ==> r
            == Ok::<WindowId, TubError>(WindowId(handle)),
    {
    if handle == 0 {
        Err(TubError::OsError(os_error))
    } else if icon_requested && !icon32_loaded {
        Err(TubError::IconLoadError(32))
    } else if icon_requested && !icon16_loaded {
        Err(TubError::IconLoadError(16))
    } else {
        Ok(WindowId(handle))
    }
}

/// Complete an owned-window creation request on the pump thread: judge the
/// native creation outcome, and register the new window — with an empty,
/// open event queue — only when creation succeeded. The result is exactly
/// one answer for the requesting thread, success or typed error, never a
/// panic across the thread boundary.
pub fn complete_owned_creation(
    table: &mut crate::registry::CallbackData,
    handle: u64,
    os_error: String,
    icon_requested: bool,
    icon32_loaded: bool,
    icon16_loaded: bool,
    cursor: u64,
) -> (r: TubResult<WindowId>)
    requires
        old(table).wf(),
        handle != 0 ==> !old(table).contains_id(WindowId(handle)),
        old(table).entries().len() < 0x7fff_ffff,
    ensures
        final(table).wf(),
        final(table).last_mpos == old(table).last_mpos,
        final(table).win_index == old(table).win_index,
        handle == 0 ==> (r matches Err(TubError::OsError(m)) && m@ == os_error@),
        handle != 0 && icon_requested && !icon32_loaded ==> r
            == Err::<WindowId, TubError>(TubError::IconLoadError(32)),
        handle != 0 && icon_requested && icon32_loaded && !icon16_loaded ==> r
            == Err::<WindowId, TubError>(TubError::IconLoadError(16)),
        handle != 0 && (!icon_requested || (icon32_loaded && icon16_loaded)) ==> {
            &&& r == Ok::<WindowId, TubError>(WindowId(handle))
            &&& final(table).entries().len() == old(table).entries().len() + 1
            &&& (forall|j: int| 0 <= j < old(table).entries().len()
                ==> final(table).entries()[j] == old(table).entries()[j])
            &&& final(table).entries().last().window == WindowId(handle)
            &&& final(table).entries().last().cursor == cursor
            &&& final(table).entries().last().sender@ == Seq::<Event>::empty()
            &&& !final(table).entries().last().sender.is_closed()
            &&& final(table).ids() =~= old(table).ids().push(WindowId(handle))
        },
        r is Err ==> final(table).entries() == old(table).entries(),
{
    let outcome = window_creation_result(
        handle,
        os_error,
        icon_requested,
        icon32_loaded,
        icon16_loaded,
    );
    match outcome {
        Ok(window) => {
            table.register(window, cursor);
            Ok(window)
        },
        Err(e) => Err(e),
    }
}

/// Interpret what came over the creation response channel. A missing
/// response means the pump thread died before answering — its end of the
/// channel was dropped — and must surface as an OS error for the requesting
/// thread, never as a hang or a panic.
pub fn creation_response<T>(response: Option<TubResult<T>>) -> (r: TubResult<T>)
    ensures
        response matches Some(inner) ==> r == inner,
        response is None ==> (r matches Err(TubError::OsError(m)) && m@
            == "window thread dropped the response channel"@),
{
    match response {
        Some(inner) => inner,
        None => Err(TubError::OsError(String::from_str("window thread dropped the response channel"))),
    }
}

/// Where a cursor-placement request may move the cursor: to the requested
/// point in window space, but only while the window is active and the
/// cursor already stands strictly inside the client area — otherwise the
/// request is a documented no-op, not an error. The target coordinates are
/// the machine's wrapping sum, as the platform's signed words carry them.
pub open spec fn spec_cursor_move_target(
    inner_size: Option<(u32, u32)>,
    inner_pos: Option<(i32, i32)>,
    cursor_pos: (i32, i32),
    active: bool,
    x: i32,
    y: i32,
) -> Option<(i32, i32)> {
    match (inner_size, inner_pos) {
        (Some(s), Some(p)) => {
            if active && p.0 < cursor_pos.0 && (cursor_pos.0 as int) < (p.0 as int) + (s.0 as int)
                && p.1 < cursor_pos.1 && (cursor_pos.1 as int) < (p.1 as int) + (s.1 as int) {
                Some((((x as int) + (p.0 as int)) as i32, ((y as int) + (p.1 as int)) as i32))
            } else {
                None
            }
        },
        _ => None,
    }
}

/// The decision behind placing the cursor at `(x, y)` in window space:
/// `Some` screen point to move to when the window is active and the cursor
/// stands strictly inside the client area, `None` when the request is the
/// documented no-op — including when either query about the window failed.
pub fn cursor_move_target(
    inner_size: Option<(u32, u32)>,
    inner_pos: Option<(i32, i32)>,
    cursor_pos: (i32, i32),
    active: bool,
    x: i32,
    y: i32,
) -> (r: Option<(i32, i32)>)
    ensures
        r == spec_cursor_move_target(inner_size, inner_pos, cursor_pos, active, x, y),
{
    let (w, h): (u32, u32) = match inner_size {
        Some(s) => s,
        None => {
            return None;
        },
    };
    let (xmin, ymin): (i32, i32) = match inner_pos {
        Some(p) => p,
        None => {
            return None;
        },
    };
    let (cx, cy) = cursor_pos;
    let inside = (xmin as i64) < (cx as i64) && (cx as i64) < (xmin as i64) + (w as i64)
        && (ymin as i64) < (cy as i64) && (cy as i64) < (ymin as i64) + (h as i64);
    if active && inside {
        Some((
            #[verifier::truncate] (((x as i64) + (xmin as i64)) as i32),
            #[verifier::truncate] (((y as i64) + (ymin as i64)) as i32),
        ))
    } else {
        None
    }
}

/// The unsigned-word encoding of one character, as the platform's wide
/// strings carry it: the scalar itself inside the basic plane, a surrogate
/// pair above it.
pub open spec fn utf16_units(c: char) -> Seq<u16> {
    if (c as u32) < 0x10000 {
        seq![(c as u32) as u16]
    } else {
        let v = ((c as u32) - 0x10000) as u32;
        seq![(0xD800 + (v >> 10)) as u16, (0xDC00 + (v & 0x3FF)) as u16]
    }
}

/// The wide encoding of a whole string, character by character.
pub open spec fn utf16_encode(s: Seq<char>) -> Seq<u16>
    decreases s.len(),
{
    if s.len() == 0 {
        Seq::<u16>::empty()
    } else {
        utf16_units(s[0]) + utf16_encode(s.skip(1))
    }
}

/// Encoding one more character appends that character's units.
pub proof fn lemma_utf16_snoc(s: Seq<char>, n: int)
    requires
        0 <= n < s.len(),
    ensures
        utf16_encode(s.take(n + 1)) == utf16_encode(s.take(n)) + utf16_units(s[n]),
    decreases n,
{
    if n == 0 {
        assert(s.take(0) =~= Seq::<char>::empty());
        assert(s.take(1).skip(1) =~= Seq::<char>::empty());
        assert(s.take(1)[0] == s[0]);
        assert(utf16_units(s[0]) + Seq::<u16>::empty() =~= utf16_units(s[0]));
        assert(Seq::<u16>::empty() + utf16_units(s[0]) =~= utf16_units(s[0]));
    } else {
        lemma_utf16_snoc(s.skip(1), n - 1);
        assert(s.take(n + 1).skip(1) =~= s.skip(1).take(n));
        assert(s.take(n).skip(1) =~= s.skip(1).take(n - 1));
        assert(s.take(n + 1)[0] == s[0]);
        assert(s.take(n)[0] == s[0]);
        assert(s.skip(1)[n - 1] == s[n]);
        assert(utf16_units(s[0]) + (utf16_encode(s.skip(1).take(n - 1)) + utf16_units(s[n]))
            =~= (utf16_units(s[0]) + utf16_encode(s.skip(1).take(n - 1))) + utf16_units(s[n]));
    }
}

/// Append the wide units of one character: the scalar itself inside the
/// basic plane, a surrogate pair above it.
fn push_utf16_units(out: &mut Vec<u16>, c: char)
    ensures
        final(out)@ == old(out)@ + utf16_units(c),
{
    let u = c as u32;
    if u < 0x10000 {
        out.push(#[verifier::truncate] (u as u16));
    } else {
        let v = u - 0x10000;
        assert((v >> 10) <= 0x3FF && (v & 0x3FF) <= 0x3FF) by (bit_vector)
            requires
                v <= 0xFFFFF,
        ;
        out.push((0xD800 + (v >> 10)) as u16);
        out.push((0xDC00 + (v & 0x3FF)) as u16);
    }
    proof {
        assert(final(out)@ =~= old(out)@ + utf16_units(c));
    }
}

/// Encode a string the way the platform's creation calls take it: its wide
/// encoding with a terminating zero unit.
pub fn osstr(s: &str) -> (r: Vec<u16>)
    ensures
        r@ == utf16_encode(s@).push(0u16),
{
    broadcast use vstd::string::next_postcondition;
    broadcast use vstd::string::axiom_spec_iter;

    let mut iter = s.chars();
    let mut out: Vec<u16> = Vec::new();
    let ghost mut k: int = 0;
    proof {
        assert(IteratorSpec::remaining(&iter) == s@);
        assert(s@.skip(0) =~= s@);
        assert(s@.take(0) =~= Seq::<char>::empty());
    }
    loop
        invariant
            0 <= k <= s@.len(),
            IteratorSpec::obeys_prophetic_iter_laws(&iter),
            IteratorSpec::remaining(&iter) =~= s@.skip(k),
            out@ == utf16_encode(s@.take(k)),
        ensures
            out@ == utf16_encode(s@),
        decreases s@.len() - k,
    {
        match iter.next() {
            Some(c) => {
                proof {
                    assert(c == s@.skip(k)[0]);
                    assert(s@.skip(k).drop_first() =~= s@.skip(k + 1));
                }
                push_utf16_units(&mut out, c);
                proof {
                    lemma_utf16_snoc(s@, k);
                    k = k + 1;
                }
            },
            None => {
                proof {
                    assert(s@.skip(k).len() == 0);
                    assert(s@.take(k) =~= s@);
                }
                break;
            },
        }
    }
    out.push(0);
    out
}

/// Encode an icon path for the platform's image-loading call: the path's
/// wide encoding with a terminating zero unit.
pub fn wide_path(path: &str) -> (r: Vec<u16>)
    ensures
        r@ == utf16_encode(path@).push(0u16),
{
    osstr(path)
}


} // verus!
