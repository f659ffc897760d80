//! Translation of raw platform messages into typed window messages, and the
//! registry transition each one causes on the pump thread.
//!
//! A platform callback receives `(window, message, wparam, lparam)` and must
//! decide synchronously, on the pump thread, what the message means, which
//! queue gets which event, and what the thread must do natively in response.
//! [`decode_message`] is the pure translation; [`CallbackData::process_message`]
//! is the registry transition; the returned [`PumpAction`] is the native work
//! left for the caller, which is the only part a platform call performs.

use vstd::prelude::*;

use crate::event::{key_of, ClickType, Event, MButton, PressState, ResizeType, VKeyCode};
use crate::queue::EventQueue;
use crate::registry::{
    dispatched, find_index, lemma_dispatched_refl, lemma_dispatched_trans,
    lemma_distinct_remove, lemma_find_index_characterizes, CallbackData, WindowEntry, WindowId,
    MOUSE_POS_NONE,
};

verus! {

/// The platform's code for a window having been moved.
pub const WM_MOVE: u32 = 0x0003;
/// The platform's code for a window having been resized.
pub const WM_SIZE: u32 = 0x0005;
/// The platform's code for a repaint request.
pub const WM_PAINT: u32 = 0x000F;
/// The platform's code for a window being destroyed.
pub const WM_DESTROY: u32 = 0x0002;
/// The platform's query for which cursor to show.
pub const WM_SETCURSOR: u32 = 0x0020;
/// The platform's code for a key going down (or repeating while held).
pub const WM_KEYDOWN: u32 = 0x0100;
/// The platform's code for a key going up.
pub const WM_KEYUP: u32 = 0x0101;
/// The platform's code for the mouse moving over the client area.
pub const WM_MOUSEMOVE: u32 = 0x0200;
/// The platform's code for the left button going down.
pub const WM_LBUTTONDOWN: u32 = 0x0201;
/// The platform's code for the left button going up.
pub const WM_LBUTTONUP: u32 = 0x0202;
/// The platform's code for a left-button double click.
pub const WM_LBUTTONDBLCLK: u32 = 0x0203;
/// The platform's code for the right button going down.
pub const WM_RBUTTONDOWN: u32 = 0x0204;
/// The platform's code for the right button going up.
pub const WM_RBUTTONUP: u32 = 0x0205;
/// The platform's code for a right-button double click.
pub const WM_RBUTTONDBLCLK: u32 = 0x0206;
/// The platform's code for the middle button going down.
pub const WM_MBUTTONDOWN: u32 = 0x0207;
/// The platform's code for the middle button going up.
pub const WM_MBUTTONUP: u32 = 0x0208;
/// The platform's code for a middle-button double click.
pub const WM_MBUTTONDBLCLK: u32 = 0x0209;
/// The platform's code for an extra button going down.
pub const WM_XBUTTONDOWN: u32 = 0x020B;
/// The platform's code for an extra button going up.
pub const WM_XBUTTONUP: u32 = 0x020C;
/// The platform's code for an extra-button double click.
pub const WM_XBUTTONDBLCLK: u32 = 0x020D;
/// The platform's code for the mouse having hovered in place.
pub const WM_MOUSEHOVER: u32 = 0x02A1;
/// The platform's code for the mouse having left the client area.
pub const WM_MOUSELEAVE: u32 = 0x02A3;

/// The library's own command: create an owned window on this pump thread.
pub const MSG_NEWOWNEDWINDOW: u32 = 0xADD;
/// The library's own command: take input focus, from the owning thread.
pub const MSG_GAINFOCUS: u32 = 71913;
/// The library's own command: change a window's cursor, from its pump thread.
pub const MSG_SETCURSOR: u32 = 32118;
/// The library's own query: is this window the active one.
pub const MSG_ISACTIVEWIN: u32 = 0xAC20;

/// The signed coordinate packed into a position word's high half.
pub open spec fn spec_packed_x(lparam: i64) -> i32 {
    (lparam as i32) >> 16
}

/// The signed coordinate packed into a position word's low half.
pub open spec fn spec_packed_y(lparam: i64) -> i32 {
    (lparam as i16) as i32
}

/// The dimension packed into a size word's high half.
pub open spec fn spec_packed_w(lparam: i64) -> u32 {
    (lparam as u32) >> 16
}

/// The dimension packed into a size word's low half.
pub open spec fn spec_packed_h(lparam: i64) -> u32 {
    (lparam as u32) & 0xFFFF
}

/// Whether a key-down report is a repeat for a key already held.
pub open spec fn spec_key_repeat(lparam: i64) -> bool {
    lparam & 0x4000_0000 != 0
}

/// Which extra mouse button a message names: 1 or 2.
pub open spec fn spec_xbutton(wparam: u64) -> u64 {
    (wparam >> 16) & 0xFFFF
}

/// The signed coordinate packed into a position word's high half.
pub fn packed_x(lparam: i64) -> (x: i32)
    ensures
        x == spec_packed_x(lparam),
{
    (#[verifier::truncate] (lparam as i32)) >> 16u32
}

/// The signed coordinate packed into a position word's low half.
pub fn packed_y(lparam: i64) -> (y: i32)
    ensures
        y == spec_packed_y(lparam),
{
    (#[verifier::truncate] (lparam as i16)) as i32
}

/// The dimension packed into a size word's high half.
pub fn packed_w(lparam: i64) -> (w: u32)
    ensures
        w == spec_packed_w(lparam),
{
    (#[verifier::truncate] (lparam as u32)) >> 16u32
}

/// The dimension packed into a size word's low half.
pub fn packed_h(lparam: i64) -> (h: u32)
    ensures
        h == spec_packed_h(lparam),
{
    (#[verifier::truncate] (lparam as u32)) & 0xFFFF
}

/// Whether a key-down report is a repeat for a key already held.
pub fn key_repeat(lparam: i64) -> (held: bool)
    ensures
        held == spec_key_repeat(lparam),
{
    lparam & 0x4000_0000 != 0
}

/// Which extra mouse button a message names: 1 or 2.
pub fn xbutton_index(wparam: u64) -> (i: u64)
    ensures
        i == spec_xbutton(wparam),
{
    (wparam >> 16u32) & 0xFFFF
}

/// A platform message, decoded into what it means to this library.
#[derive(Debug, Clone, Copy, PartialEq, Eq, Structural)]
pub enum WindowMessage {
    /// A key went down: its platform code, and whether this is a repeat
    /// report for a key already held.
    KeyDown(u64, bool),
    /// A key went up: its platform code.
    KeyUp(u64),
    /// The platform asks which cursor to show over the window.
    CursorQuery,
    /// A mouse button transition.
    MouseButton(ClickType, MButton),
    /// The mouse moved: the unpacked coordinates and the raw position word,
    /// kept to tell a repeated report from a real move.
    MouseMove(i32, i32, i64),
    /// The mouse left the client area.
    MouseLeave,
    /// The mouse hovered in place: the unpacked coordinates.
    MouseHover(i32, i32),
    /// The window was resized.
    Size(ResizeType, u32, u32),
    /// The window was moved.
    Move(i32, i32),
    /// The platform asks for a repaint.
    Paint,
    /// Library command: store this native cursor handle for the window.
    StoreCursor(u64),
    /// Library command: take input focus on this thread.
    GainFocus,
    /// Library command: create an owned window on this pump thread.
    NewOwnedWindow,
    /// Library query: is this window active.
    ActiveQuery,
    /// The window is being destroyed.
    Destroy,
    /// A message this library does not handle; the platform's default
    /// handling applies.
    Unknown(u32),
}

/// What each raw platform message decodes to.
pub open spec fn decode_spec(msg: u32, wparam: u64, lparam: i64) -> WindowMessage {
    if msg == WM_KEYDOWN {
        WindowMessage::KeyDown(wparam, spec_key_repeat(lparam))
    } else if msg == WM_KEYUP {
        WindowMessage::KeyUp(wparam)
    } else if msg == WM_SETCURSOR {
        WindowMessage::CursorQuery
    } else if msg == WM_LBUTTONDOWN {
        WindowMessage::MouseButton(ClickType::Single, MButton::Left)
    } else if msg == WM_LBUTTONUP {
        WindowMessage::MouseButton(ClickType::Released, MButton::Left)
    } else if msg == WM_LBUTTONDBLCLK {
        WindowMessage::MouseButton(ClickType::Double, MButton::Left)
    } else if msg == WM_RBUTTONDOWN {
        WindowMessage::MouseButton(ClickType::Single, MButton::Right)
    } else if msg == WM_RBUTTONUP {
        WindowMessage::MouseButton(ClickType::Released, MButton::Right)
    } else if msg == WM_RBUTTONDBLCLK {
        WindowMessage::MouseButton(ClickType::Double, MButton::Right)
    } else if msg == WM_MBUTTONDOWN {
        WindowMessage::MouseButton(ClickType::Single, MButton::Middle)
    } else if msg == WM_MBUTTONUP {
        WindowMessage::MouseButton(ClickType::Released, MButton::Middle)
    } else if msg == WM_MBUTTONDBLCLK {
        WindowMessage::MouseButton(ClickType::Double, MButton::Middle)
    } else if msg == WM_XBUTTONDOWN {
        WindowMessage::MouseButton(
            ClickType::Single,
            if spec_xbutton(wparam) == 1 {
                MButton::Button4
            } else {
                MButton::Button5
            },
        )
    } else if msg == WM_XBUTTONUP {
        WindowMessage::MouseButton(
            ClickType::Released,
            if spec_xbutton(wparam) == 1 {
                MButton::Button4
            } else {
                MButton::Button5
            },
        )
    } else if msg == WM_XBUTTONDBLCLK {
        WindowMessage::MouseButton(
            ClickType::Double,
            if spec_xbutton(wparam) == 1 {
                MButton::Button4
            } else {
                MButton::Button5
            },
        )
    } else if msg == WM_MOUSEMOVE {
        WindowMessage::MouseMove(spec_packed_x(lparam), spec_packed_y(lparam), lparam)
    } else if msg == WM_MOUSELEAVE {
        WindowMessage::MouseLeave
    } else if msg == WM_MOUSEHOVER {
        WindowMessage::MouseHover(spec_packed_x(lparam), spec_packed_y(lparam))
    } else if msg == WM_SIZE {
        WindowMessage::Size(
            if wparam == 1 {
                ResizeType::Minimized
            } else if wparam == 2 {
                ResizeType::Maximized
            } else {
                ResizeType::Changed
            },
            spec_packed_w(lparam),
            spec_packed_h(lparam),
        )
    } else if msg == WM_MOVE {
        WindowMessage::Move(spec_packed_x(lparam), spec_packed_y(lparam))
    } else if msg == WM_PAINT {
        WindowMessage::Paint
    } else if msg == MSG_SETCURSOR {
        WindowMessage::StoreCursor(wparam)
    } else if msg == MSG_GAINFOCUS {
        WindowMessage::GainFocus
    } else if msg == MSG_NEWOWNEDWINDOW {
        WindowMessage::NewOwnedWindow
    } else if msg == MSG_ISACTIVEWIN {
        WindowMessage::ActiveQuery
    } else if msg == WM_DESTROY {
        WindowMessage::Destroy
    } else {
        WindowMessage::Unknown(msg)
    }
}

/// Decode one raw platform message. An extra-button message must name
/// button 1 or 2, and a resize report must carry one of the three resize
/// kinds the platform documents for top-level windows; anything else is a
/// message shape this library does not accept.
pub fn decode_message(msg: u32, wparam: u64, lparam: i64) -> (r: WindowMessage)
    requires
        (msg == WM_XBUTTONDOWN || msg == WM_XBUTTONUP || msg == WM_XBUTTONDBLCLK)
            ==> (spec_xbutton(wparam) == 1 || spec_xbutton(wparam) == 2),
        msg == WM_SIZE ==> wparam == 0 || wparam == 1 || wparam == 2,
    ensures
        r == decode_spec(msg, wparam, lparam),
{
    if msg == WM_KEYDOWN {
        WindowMessage::KeyDown(wparam, key_repeat(lparam))
    } else if msg == WM_KEYUP {
        WindowMessage::KeyUp(wparam)
    } else if msg == WM_SETCURSOR {
        WindowMessage::CursorQuery
    } else if msg == WM_LBUTTONDOWN {
        WindowMessage::MouseButton(ClickType::Single, MButton::Left)
    } else if msg == WM_LBUTTONUP {
        WindowMessage::MouseButton(ClickType::Released, MButton::Left)
    } else if msg == WM_LBUTTONDBLCLK {
        WindowMessage::MouseButton(ClickType::Double, MButton::Left)
    } else if msg == WM_RBUTTONDOWN {
        WindowMessage::MouseButton(ClickType::Single, MButton::Right)
    } else if msg == WM_RBUTTONUP {
        WindowMessage::MouseButton(ClickType::Released, MButton::Right)
    } else if msg == WM_RBUTTONDBLCLK {
        WindowMessage::MouseButton(ClickType::Double, MButton::Right)
    } else if msg == WM_MBUTTONDOWN {
        WindowMessage::MouseButton(ClickType::Single, MButton::Middle)
    } else if msg == WM_MBUTTONUP {
        WindowMessage::MouseButton(ClickType::Released, MButton::Middle)
    } else if msg == WM_MBUTTONDBLCLK {
        WindowMessage::MouseButton(ClickType::Double, MButton::Middle)
    } else if msg == WM_XBUTTONDOWN || msg == WM_XBUTTONUP || msg == WM_XBUTTONDBLCLK {
        let button = if xbutton_index(wparam) == 1 {
            MButton::Button4
        } else {
            MButton::Button5
        };
        let click = if msg == WM_XBUTTONDOWN {
            ClickType::Single
        } else if msg == WM_XBUTTONUP {
            ClickType::Released
        } else {
            ClickType::Double
        };
        WindowMessage::MouseButton(click, button)
    } else if msg == WM_MOUSEMOVE {
        WindowMessage::MouseMove(packed_x(lparam), packed_y(lparam), lparam)
    } else if msg == WM_MOUSELEAVE {
        WindowMessage::MouseLeave
    } else if msg == WM_MOUSEHOVER {
        WindowMessage::MouseHover(packed_x(lparam), packed_y(lparam))
    } else if msg == WM_SIZE {
        let kind = if wparam == 1 {
            ResizeType::Minimized
        } else if wparam == 2 {
            ResizeType::Maximized
        } else {
            ResizeType::Changed
        };
        WindowMessage::Size(kind, packed_w(lparam), packed_h(lparam))
    } else if msg == WM_MOVE {
        WindowMessage::Move(packed_x(lparam), packed_y(lparam))
    } else if msg == WM_PAINT {
        WindowMessage::Paint
    } else if msg == MSG_SETCURSOR {
        WindowMessage::StoreCursor(wparam)
    } else if msg == MSG_GAINFOCUS {
        WindowMessage::GainFocus
    } else if msg == MSG_NEWOWNEDWINDOW {
        WindowMessage::NewOwnedWindow
    } else if msg == MSG_ISACTIVEWIN {
        WindowMessage::ActiveQuery
    } else if msg == WM_DESTROY {
        WindowMessage::Destroy
    } else {
        WindowMessage::Unknown(msg)
    }
}

/// The native work a processed message leaves for the pump thread to
/// perform, outside the registry. The registry transition itself is already
/// done when this value is returned.
#[derive(Debug, PartialEq)]
pub enum PumpAction {
    /// Nothing native to do; report the message handled.
    Handled,
    /// Nothing to do at all; report the message unprocessed.
    Ignored,
    /// Hand the message to the platform's default handling.
    Default,
    /// Show this native cursor now (the window's stored cursor).
    ShowCursor(u64),
    /// Keep tracking the mouse so hover and leave reports keep coming.
    TrackMouse,
    /// Take input focus for the source window, on this thread.
    SetFocus,
    /// A cursor was stored for the source window; show it now if that
    /// window is the active one.
    ApplyCursor(u64),
    /// Answer the is-active query for the source window.
    AnswerActive,
    /// Repaint the window.
    Paint,
    /// Create the requested owned window, register it, and send the result
    /// over the pump thread's response channel.
    CreateOwned,
    /// The source window was deregistered: destroy it natively and hand its
    /// closed queue (ending in the close report) to the consumer side.
    Destroyed(EventQueue),
    /// The thread's top-level window was destroyed: the registry has been
    /// drained, every entry here carries its closed queue (the top-level
    /// window's ending in the close report), and the thread must destroy
    /// the window natively, hand the queues to their consumers, and post
    /// the platform's quit sentinel so the message loop terminates.
    Quit(Vec<WindowEntry>),
    /// A destroy report for a window this registry never tracked, or one
    /// already deregistered through another path: destroy it natively,
    /// nothing else changes.
    DestroyedUntracked,
}

/// The events a mouse-move report delivers, given the previous raw position:
/// an entry report when the mouse was outside every tracked window, then the
/// move itself unless it repeats the previous position exactly.
pub open spec fn mouse_move_events(prev: i64, raw: i64, x: i32, y: i32) -> Seq<Event> {
    (if prev == MOUSE_POS_NONE {
        seq![Event::MouseEnter]
    } else {
        Seq::<Event>::empty()
    }) + (if prev != raw {
        seq![Event::MouseMoved(x, y)]
    } else {
        Seq::<Event>::empty()
    })
}

/// The registry transition and native action each decoded message causes,
/// relating the registry before (`pre`) and after (`post`) the message from
/// window `source` is processed.
pub open spec fn process_spec(
    pre: CallbackData,
    post: CallbackData,
    source: WindowId,
    message: WindowMessage,
    action: PumpAction,
) -> bool {
    match message {
        WindowMessage::KeyDown(code, repeated) => {
            &&& post.last_mpos == pre.last_mpos
            &&& action == PumpAction::Handled
            &&& match key_of(code) {
                Some(k) => dispatched(
                    pre,
                    post,
                    source,
                    seq![
                        Event::KeyInput(
                            if repeated {
                                PressState::Held
                            } else {
                                PressState::Pressed
                            },
                            k,
                        ),
                    ],
                ),
                None => post.entries() == pre.entries(),
            }
        },
        WindowMessage::KeyUp(code) => {
            &&& post.last_mpos == pre.last_mpos
            &&& action == PumpAction::Handled
            &&& match key_of(code) {
                Some(k) => dispatched(
                    pre,
                    post,
                    source,
                    seq![Event::KeyInput(PressState::Released, k)],
                ),
                None => post.entries() == pre.entries(),
            }
        },
        WindowMessage::CursorQuery => {
            &&& post.entries() == pre.entries()
            &&& post.last_mpos == pre.last_mpos
            &&& match find_index(pre.ids(), source) {
                Some(i) => action == if pre.last_mpos != MOUSE_POS_NONE {
                    PumpAction::ShowCursor(pre.entries()[i].cursor)
                } else {
                    PumpAction::Default
                },
                None => action == PumpAction::Default,
            }
        },
        WindowMessage::MouseButton(click, button) => {
            &&& post.last_mpos == pre.last_mpos
            &&& action == PumpAction::Handled
            &&& dispatched(pre, post, source, seq![Event::MButtonInput(click, button)])
        },
        WindowMessage::MouseMove(x, y, raw) => {
            &&& post.last_mpos == raw
            &&& dispatched(pre, post, source, mouse_move_events(pre.last_mpos, raw, x, y))
            &&& action == if pre.last_mpos != raw {
                PumpAction::TrackMouse
            } else {
                PumpAction::Ignored
            }
        },
        WindowMessage::MouseLeave => {
            &&& post.last_mpos == MOUSE_POS_NONE
            &&& action == PumpAction::Handled
            &&& dispatched(pre, post, source, seq![Event::MouseLeave])
        },
        WindowMessage::MouseHover(x, y) => {
            &&& post.last_mpos == pre.last_mpos
            &&& action == PumpAction::Handled
            &&& dispatched(pre, post, source, seq![Event::MouseHover(x, y)])
        },
        WindowMessage::Size(kind, w, h) => {
            &&& post.last_mpos == pre.last_mpos
            &&& action == PumpAction::Handled
            &&& dispatched(pre, post, source, seq![Event::Resized(kind, w, h)])
        },
        WindowMessage::Move(x, y) => {
            &&& post.last_mpos == pre.last_mpos
            &&& action == PumpAction::Handled
            &&& dispatched(pre, post, source, seq![Event::Moved(x, y)])
        },
        WindowMessage::Paint => {
            &&& post.entries() == pre.entries()
            &&& post.last_mpos == pre.last_mpos
            &&& action == PumpAction::Paint
        },
        WindowMessage::StoreCursor(cursor) => {
            &&& post.last_mpos == pre.last_mpos
            &&& match find_index(pre.ids(), source) {
                Some(i) => {
                    &&& post.entries().len() == pre.entries().len()
                    &&& (forall|j: int| 0 <= j < pre.entries().len() && j != i
                        ==> post.entries()[j] == pre.entries()[j])
                    &&& post.entries()[i].window == pre.entries()[i].window
                    &&& post.entries()[i].sender == pre.entries()[i].sender
                    &&& post.entries()[i].cursor == cursor
                    &&& action == PumpAction::ApplyCursor(cursor)
                },
                None => {
                    &&& post.entries() == pre.entries()
                    &&& action == PumpAction::Ignored
                },
            }
        },
        WindowMessage::GainFocus => {
            &&& post.entries() == pre.entries()
            &&& post.last_mpos == pre.last_mpos
            &&& action == PumpAction::SetFocus
        },
        WindowMessage::NewOwnedWindow => {
            &&& post.entries() == pre.entries()
            &&& post.last_mpos == pre.last_mpos
            &&& action == PumpAction::CreateOwned
        },
        WindowMessage::ActiveQuery => {
            &&& post.entries() == pre.entries()
            &&& post.last_mpos == pre.last_mpos
            &&& action == PumpAction::AnswerActive
        },
        WindowMessage::Destroy => {
            &&& post.last_mpos == pre.last_mpos
            &&& match find_index(pre.ids(), source) {
                Some(i) => {
                    if source == pre.root {
                        // The thread's own top-level window: the Draining
                        // transition. Every entry leaves the registry with
                        // its queue closed, so blocked consumers of
                        // surviving owned or child windows observe closure,
                        // never a hang; only the destroyed window itself
                        // gets a close report.
                        &&& (action matches PumpAction::Quit(drained)
                            && drained@.len() == pre.entries().len()
                            && (forall|j: int| 0 <= j < pre.entries().len() ==> {
                                &&& #[trigger] drained@[j].window == pre.entries()[j].window
                                &&& drained@[j].cursor == pre.entries()[j].cursor
                                &&& drained@[j].sender.is_closed()
                                &&& drained@[j].sender@ == if j == i
                                    && !pre.entries()[i].sender.is_closed() {
                                    pre.entries()[i].sender@.push(Event::Closed)
                                } else {
                                    pre.entries()[j].sender@
                                }
                            }))
                        &&& post.entries() == Seq::<WindowEntry>::empty()
                    } else {
                        &&& (action matches PumpAction::Destroyed(q)
                            && q.is_closed()
                            && q@ == if pre.entries()[i].sender.is_closed() {
                                pre.entries()[i].sender@
                            } else {
                                pre.entries()[i].sender@.push(Event::Closed)
                            })
                        &&& post.entries() == pre.entries().remove(i)
                    }
                },
                None => {
                    &&& post.entries() == pre.entries()
                    &&& action == PumpAction::DestroyedUntracked
                },
            }
        },
        WindowMessage::Unknown(_) => {
            &&& post.entries() == pre.entries()
            &&& post.last_mpos == pre.last_mpos
            &&& action == PumpAction::Default
        },
    }
}

impl CallbackData {
    /// Process one decoded message from `source` on the pump thread:
    /// resolve the window, deliver the events the message means through its
    /// queue, keep the mouse-entry bookkeeping, and hand back the native
    /// work that remains. A message for an untracked window never panics;
    /// it is dropped or handed to the platform's default handling.
    pub fn process_message(&mut self, source: WindowId, message: WindowMessage) -> (action:
        PumpAction)
        requires
            old(self).wf(),
        ensures
            final(self).wf(),
            final(self).root == old(self).root,
            final(self).ids() =~= spec_deregister_on(
                *old(self),
                source,
                message,
            ),
            process_spec(*old(self), *final(self), source, message, action),
    {
        match message {
            WindowMessage::KeyDown(code, repeated) => {
                let state = if repeated {
                    PressState::Held
                } else {
                    PressState::Pressed
                };
                match VKeyCode::from_u64(code) {
                    Some(k) => {
                        self.dispatch(source, Event::KeyInput(state, k));
                    },
                    None => {},
                }
                PumpAction::Handled
            },
            WindowMessage::KeyUp(code) => {
                match VKeyCode::from_u64(code) {
                    Some(k) => {
                        self.dispatch(source, Event::KeyInput(PressState::Released, k));
                    },
                    None => {},
                }
                PumpAction::Handled
            },
            WindowMessage::CursorQuery => {
                proof {
                    lemma_find_index_characterizes(self.ids(), source);
                }
                match self.lookup(source) {
                    Some(i) => {
                        if self.last_mpos != MOUSE_POS_NONE {
                            PumpAction::ShowCursor(self.win_vec[i].cursor)
                        } else {
                            PumpAction::Default
                        }
                    },
                    None => PumpAction::Default,
                }
            },
            WindowMessage::MouseButton(click, button) => {
                self.dispatch(source, Event::MButtonInput(click, button));
                PumpAction::Handled
            },
            WindowMessage::MouseMove(x, y, raw) => {
                let prev = self.last_mpos;
                self.last_mpos = raw;
                let ghost st0 = *old(self);
                let ghost st1 = *self;
                proof {
                    lemma_dispatched_refl(st1, source);
                }
                if prev == MOUSE_POS_NONE {
                    self.dispatch(source, Event::MouseEnter);
                }
                let ghost st2 = *self;
                proof {
                    lemma_dispatched_refl(st2, source);
                    if prev == MOUSE_POS_NONE {
                        assert(dispatched(st1, st2, source, seq![Event::MouseEnter]));
                    } else {
                        assert(dispatched(st1, st2, source, Seq::<Event>::empty()));
                    }
                }
                let action = if prev != raw {
                    self.dispatch(source, Event::MouseMoved(x, y));
                    PumpAction::TrackMouse
                } else {
                    PumpAction::Ignored
                };
                proof {
                    let enter: Seq<Event> = if prev == MOUSE_POS_NONE {
                        seq![Event::MouseEnter]
                    } else {
                        Seq::<Event>::empty()
                    };
                    let moved: Seq<Event> = if prev != raw {
                        seq![Event::MouseMoved(x, y)]
                    } else {
                        Seq::<Event>::empty()
                    };
                    if prev != raw {
                        assert(dispatched(st2, *self, source, moved));
                    } else {
                        lemma_dispatched_refl(*self, source);
                        assert(dispatched(st2, *self, source, moved));
                    }
                    lemma_dispatched_trans(st1, st2, *self, source, enter, moved);
                    assert(st1.entries() == st0.entries());
                    assert(st1.ids() == st0.ids());
                    assert(dispatched(st0, *self, source, enter + moved));
                }
                action
            },
            WindowMessage::MouseLeave => {
                self.last_mpos = MOUSE_POS_NONE;
                self.dispatch(source, Event::MouseLeave);
                PumpAction::Handled
            },
            WindowMessage::MouseHover(x, y) => {
                self.dispatch(source, Event::MouseHover(x, y));
                PumpAction::Handled
            },
            WindowMessage::Size(kind, w, h) => {
                self.dispatch(source, Event::Resized(kind, w, h));
                PumpAction::Handled
            },
            WindowMessage::Move(x, y) => {
                self.dispatch(source, Event::Moved(x, y));
                PumpAction::Handled
            },
            WindowMessage::Paint => PumpAction::Paint,
            WindowMessage::StoreCursor(cursor) => {
                proof {
                    lemma_find_index_characterizes(self.ids(), source);
                }
                match self.lookup(source) {
                    Some(_) => {
                        self.set_entry_cursor(source, cursor);
                        PumpAction::ApplyCursor(cursor)
                    },
                    None => PumpAction::Ignored,
                }
            },
            WindowMessage::GainFocus => PumpAction::SetFocus,
            WindowMessage::NewOwnedWindow => PumpAction::CreateOwned,
            WindowMessage::ActiveQuery => PumpAction::AnswerActive,
            WindowMessage::Destroy => {
                let ghost st0 = *old(self);
                proof {
                    lemma_find_index_characterizes(st0.ids(), source);
                }
                if source == self.root {
                    let tracked_root = match self.lookup(source) {
                        Some(_) => true,
                        None => false,
                    };
                    if !tracked_root {
                        return PumpAction::DestroyedUntracked;
                    }
                    self.dispatch(source, Event::Closed);
                    let ghost st1 = *self;
                    let mut drained: Vec<WindowEntry> = Vec::new();
                    proof {
                        assert(st1.entries().skip(0) =~= st1.entries());
                    }
                    loop
                        invariant
                            st1.wf(),
                            self.wf(),
                            self.root == st0.root,
                            self.last_mpos == st1.last_mpos,
                            drained@.len() + self.entries().len() == st1.entries().len(),
                            self.entries() =~= st1.entries().skip(drained@.len() as int),
                            forall|j: int| 0 <= j < drained@.len() ==> {
                                &&& #[trigger] drained@[j].window == st1.entries()[j].window
                                &&& drained@[j].cursor == st1.entries()[j].cursor
                                &&& drained@[j].sender.is_closed()
                                &&& drained@[j].sender@ == st1.entries()[j].sender@
                            },
                        ensures
                            self.wf(),
                            self.root == st0.root,
                            self.last_mpos == st1.last_mpos,
                            self.entries().len() == 0,
                            drained@.len() == st1.entries().len(),
                            forall|j: int| 0 <= j < drained@.len() ==> {
                                &&& #[trigger] drained@[j].window == st1.entries()[j].window
                                &&& drained@[j].cursor == st1.entries()[j].cursor
                                &&& drained@[j].sender.is_closed()
                                &&& drained@[j].sender@ == st1.entries()[j].sender@
                            },
                        decreases self.entries().len(),
                    {
                        if self.win_vec.len() == 0 {
                            break;
                        }
                        let ghost k = drained@.len() as int;
                        let ghost pre_ids = self.ids();
                        let mut entry = self.win_vec.remove(0);
                        entry.sender.close();
                        drained.push(entry);
                        proof {
                            assert(st1.entries().skip(k)[0] == st1.entries()[k]);
                            assert(st1.entries().skip(k).subrange(
                                1,
                                st1.entries().skip(k).len() as int,
                            ) =~= st1.entries().skip(k + 1));
                            assert(self.entries() =~= st1.entries().skip(k + 1));
                            assert(self.ids() =~= pre_ids.remove(0));
                            lemma_distinct_remove(pre_ids, 0);
                        }
                    }
                    proof {
                        let i = find_index(st0.ids(), source)->Some_0;
                        assert(self.entries() =~= Seq::<WindowEntry>::empty());
                        assert(self.ids() =~= Seq::<WindowId>::empty());
                        if !st0.entries()[i].sender.is_closed() {
                            assert(st1.entries()[i].sender@ =~= st0.entries()[
                                i
                            ].sender@.push(Event::Closed));
                        }
                        assert forall|j: int| 0 <= j < st0.entries().len() implies {
                            &&& #[trigger] drained@[j].window == st0.entries()[j].window
                            &&& drained@[j].cursor == st0.entries()[j].cursor
                            &&& drained@[j].sender.is_closed()
                            &&& drained@[j].sender@ == if j == i
                                && !st0.entries()[i].sender.is_closed() {
                                st0.entries()[i].sender@.push(Event::Closed)
                            } else {
                                st0.entries()[j].sender@
                            }
                        } by {
                            assert(drained@[j].window == st1.entries()[j].window);
                            assert(drained@[j].sender@ == st1.entries()[j].sender@);
                        }
                    }
                    PumpAction::Quit(drained)
                } else {
                    self.dispatch(source, Event::Closed);
                    let ghost st1 = *self;
                    match self.deregister(source) {
                        Some(q) => {
                            proof {
                                let i = find_index(st0.ids(), source)->Some_0;
                                assert(st1.entries().remove(i) =~= st0.entries().remove(i));
                                if !st0.entries()[i].sender.is_closed() {
                                    assert(q@ =~= st0.entries()[i].sender@.push(Event::Closed));
                                }
                            }
                            PumpAction::Destroyed(q)
                        },
                        None => PumpAction::DestroyedUntracked,
                    }
                }
            },
            WindowMessage::Unknown(_) => PumpAction::Default,
        }
    }
}

/// Destroying one window never touches another window's events: after a
/// destroy report for `victim` is processed, every other registered window
/// still holds exactly the events it held before — in particular, no
/// spurious close report appears on an owner's queue when an owned window
/// is destroyed. (A destroy report for the thread's own top-level window is
/// the one exception: it drains the whole registry, closing every queue.)
pub proof fn lemma_destroy_leaves_others(
    pre: CallbackData,
    post: CallbackData,
    victim: WindowId,
    other: WindowId,
    action: PumpAction,
)
    requires
        pre.wf(),
        process_spec(pre, post, victim, WindowMessage::Destroy, action),
        other != victim,
        victim != pre.root,
    ensures
        crate::registry::queue_of(post, other) == crate::registry::queue_of(pre, other),
{
    lemma_find_index_characterizes(pre.ids(), victim);
    lemma_find_index_characterizes(pre.ids(), other);
    match find_index(pre.ids(), victim) {
        Some(i) => {
            assert(post.ids() =~= pre.ids().remove(i)) by {
                assert(forall|j: int| 0 <= j < post.entries().len()
                    ==> post.ids()[j] == post.entries()[j].window
                        && pre.ids().remove(i)[j] == pre.entries().remove(i)[j].window);
            }
            crate::registry::lemma_distinct_remove(pre.ids(), i);
            match find_index(pre.ids(), other) {
                Some(j) => {
                    let j2: int = if j < i {
                        j
                    } else {
                        j - 1
                    };
                    assert(pre.ids()[j] == other && pre.ids()[i] == victim);
                    assert(post.ids()[j2] == other);
                    crate::registry::lemma_find_index_unique(post.ids(), other, j2);
                    assert(post.entries()[j2] == pre.entries()[j]);
                },
                None => {
                    lemma_find_index_characterizes(post.ids(), other);
                    if post.ids().contains(other) {
                        let w = choose|w: int|
                            0 <= w < post.ids().len() && post.ids()[w] == other;
                        assert(pre.ids()[if w < i { w } else { w + 1 }] == other);
                        assert(pre.ids().contains(other));
                    }
                },
            }
        },
        None => {
            assert(post.entries() == pre.entries());
            assert(post.ids() == pre.ids());
        },
    }
}

/// The identifiers left after a message is processed: the top-level
/// window's destroy report drains the whole registry, any other destroy
/// report deregisters its window, and nothing else changes the set of
/// identifiers.
pub open spec fn spec_deregister_on(
    pre: CallbackData,
    source: WindowId,
    message: WindowMessage,
) -> Seq<WindowId> {
    if message == WindowMessage::Destroy {
        if source == pre.root && find_index(pre.ids(), source) is Some {
            Seq::<WindowId>::empty()
        } else {
            crate::registry::spec_deregister(pre.ids(), source)
        }
    } else {
        pre.ids()
    }
}

} // verus!

