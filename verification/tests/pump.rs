//! Message decoding and the pump-thread transition: raw platform words in,
//! typed events on the right queue and a native action out.

use tub::event::{ClickType, Event, MButton, PressState, ResizeType, VKeyCode};
use tub::messages::{
    decode_message, PumpAction, WindowMessage, MSG_GAINFOCUS, MSG_ISACTIVEWIN,
    MSG_NEWOWNEDWINDOW, MSG_SETCURSOR, WM_KEYDOWN, WM_KEYUP, WM_LBUTTONDOWN, WM_MOUSEHOVER,
    WM_MOUSELEAVE, WM_MOUSEMOVE, WM_MOVE, WM_PAINT, WM_RBUTTONDBLCLK, WM_SIZE, WM_XBUTTONDOWN,
    WM_XBUTTONUP, WM_DESTROY,
};
use tub::queue::RecvOutcome;
use tub::registry::{CallbackData, WindowId};

#[test]
fn decode_key_messages() {
    assert_eq!(
        decode_message(WM_KEYDOWN, 0x41, 0),
        WindowMessage::KeyDown(0x41, false)
    );
    assert_eq!(
        decode_message(WM_KEYDOWN, 0x41, 0x4000_0000),
        WindowMessage::KeyDown(0x41, true)
    );
    assert_eq!(decode_message(WM_KEYUP, 0x42, 0), WindowMessage::KeyUp(0x42));
}

#[test]
fn decode_mouse_buttons() {
    assert_eq!(
        decode_message(WM_LBUTTONDOWN, 0, 0),
        WindowMessage::MouseButton(ClickType::Single, MButton::Left)
    );
    assert_eq!(
        decode_message(WM_RBUTTONDBLCLK, 0, 0),
        WindowMessage::MouseButton(ClickType::Double, MButton::Right)
    );
    assert_eq!(
        decode_message(WM_XBUTTONDOWN, 1 << 16, 0),
        WindowMessage::MouseButton(ClickType::Single, MButton::Button4)
    );
    assert_eq!(
        decode_message(WM_XBUTTONUP, 2 << 16, 0),
        WindowMessage::MouseButton(ClickType::Released, MButton::Button5)
    );
}

#[test]
fn decode_position_words() {
    // The move coordinate comes from the high half of the low word; the
    // second coordinate is the low half, sign-extended.
    let lparam: i64 = (5 << 16) | 0xFFFB;  // 5 and -5
    assert_eq!(
        decode_message(WM_MOUSEMOVE, 0, lparam),
        WindowMessage::MouseMove(5, -5, lparam)
    );
    assert_eq!(
        decode_message(WM_MOVE, 0, lparam),
        WindowMessage::Move(5, -5)
    );
    assert_eq!(
        decode_message(WM_MOUSEHOVER, 0, (7 << 16) | 9),
        WindowMessage::MouseHover(7, 9)
    );
}

#[test]
fn decode_size_reports() {
    let lparam: i64 = (640 << 16) | 480;
    assert_eq!(
        decode_message(WM_SIZE, 0, lparam),
        WindowMessage::Size(ResizeType::Changed, 640, 480)
    );
    assert_eq!(
        decode_message(WM_SIZE, 1, lparam),
        WindowMessage::Size(ResizeType::Minimized, 640, 480)
    );
    assert_eq!(
        decode_message(WM_SIZE, 2, lparam),
        WindowMessage::Size(ResizeType::Maximized, 640, 480)
    );
}

#[test]
fn decode_library_commands() {
    assert_eq!(decode_message(MSG_SETCURSOR, 44, 0), WindowMessage::StoreCursor(44));
    assert_eq!(decode_message(MSG_GAINFOCUS, 0, 0), WindowMessage::GainFocus);
    assert_eq!(decode_message(MSG_NEWOWNEDWINDOW, 0, 0), WindowMessage::NewOwnedWindow);
    assert_eq!(decode_message(MSG_ISACTIVEWIN, 0, 0), WindowMessage::ActiveQuery);
    assert_eq!(decode_message(WM_PAINT, 0, 0), WindowMessage::Paint);
    assert_eq!(decode_message(WM_DESTROY, 0, 0), WindowMessage::Destroy);
    assert_eq!(decode_message(0x0086, 1, 2), WindowMessage::Unknown(0x0086));
}

#[test]
fn three_key_presses_drain_in_press_order() {
    let win = WindowId(7);
    let mut t = CallbackData::new(win, 0);

    for code in [0x41u64, 0x42, 0x43] {
        let action = t.process_message(win, decode_message(WM_KEYDOWN, code, 0));
        assert_eq!(action, PumpAction::Handled);
    }

    // One poll pass yields exactly the three presses, in press order …
    let drained = t.drain_events(win).expect("window is registered");
    assert_eq!(
        drained,
        vec![
            Event::KeyInput(PressState::Pressed, VKeyCode::A),
            Event::KeyInput(PressState::Pressed, VKeyCode::B),
            Event::KeyInput(PressState::Pressed, VKeyCode::C),
        ]
    );
    // … and its continuation is empty.
    assert_eq!(t.drain_events(win), Some(vec![]));
}

#[test]
fn unknown_key_codes_are_dropped() {
    let win = WindowId(7);
    let mut t = CallbackData::new(win, 0);
    t.process_message(win, decode_message(WM_KEYDOWN, 0x07, 0));
    assert_eq!(t.drain_events(win), Some(vec![]));
}

#[test]
fn destroying_an_owned_window_leaves_its_owner_alone() {
    let owner = WindowId(1);
    let owned = WindowId(2);
    let mut t = CallbackData::new(owner, 0);
    t.register(owned, 0);

    let action = t.process_message(owned, WindowMessage::Destroy);
    let mut q = match action {
        PumpAction::Destroyed(q) => q,
        other => panic!("expected the owned window's queue back, got {:?}", other),
    };

    // The owned window's consumer sees the close report, then the end of
    // the sequence: a blocked consumer unblocks instead of hanging.
    assert_eq!(q.recv_step(), RecvOutcome::Received(Event::Closed));
    assert_eq!(q.recv_step(), RecvOutcome::Disconnected);

    // The owner is still registered and received no spurious close report.
    assert_eq!(t.lookup(owner), Some(0));
    assert_eq!(t.drain_events(owner), Some(vec![]));

    // A second destroy report for the same window finds nothing.
    assert!(matches!(
        t.process_message(owned, WindowMessage::Destroy),
        PumpAction::DestroyedUntracked
    ));
}

#[test]
fn mouse_entry_and_duplicate_moves() {
    let win = WindowId(3);
    let mut t = CallbackData::new(win, 0);

    // First report: the mouse enters, then moves.
    let first = t.process_message(win, decode_message(WM_MOUSEMOVE, 0, (5 << 16) | 6));
    assert_eq!(first, PumpAction::TrackMouse);
    assert_eq!(
        t.drain_events(win),
        Some(vec![Event::MouseEnter, Event::MouseMoved(5, 6)])
    );

    // The same position again is a duplicate: no event at all.
    let dup = t.process_message(win, decode_message(WM_MOUSEMOVE, 0, (5 << 16) | 6));
    assert_eq!(dup, PumpAction::Ignored);
    assert_eq!(t.drain_events(win), Some(vec![]));

    // A new position moves without re-entering.
    t.process_message(win, decode_message(WM_MOUSEMOVE, 0, (8 << 16) | 9));
    assert_eq!(t.drain_events(win), Some(vec![Event::MouseMoved(8, 9)]));

    // After the mouse leaves, the next report enters again.
    t.process_message(win, decode_message(WM_MOUSELEAVE, 0, 0));
    assert_eq!(t.drain_events(win), Some(vec![Event::MouseLeave]));
    t.process_message(win, decode_message(WM_MOUSEMOVE, 0, (8 << 16) | 9));
    assert_eq!(
        t.drain_events(win),
        Some(vec![Event::MouseEnter, Event::MouseMoved(8, 9)])
    );
}

#[test]
fn stored_cursor_is_applied_and_shown() {
    let win = WindowId(4);
    let mut t = CallbackData::new(win, 11);

    // Before any mouse report, the cursor query defers to the platform.
    assert_eq!(
        t.process_message(win, WindowMessage::CursorQuery),
        PumpAction::Default
    );

    // Storing a cursor updates the entry and asks to apply it.
    assert_eq!(
        t.process_message(win, WindowMessage::StoreCursor(55)),
        PumpAction::ApplyCursor(55)
    );
    assert_eq!(t.win_vec[0].cursor, 55);

    // Once the mouse is over the window, the query shows the stored cursor.
    t.process_message(win, decode_message(WM_MOUSEMOVE, 0, 1));
    assert_eq!(
        t.process_message(win, WindowMessage::CursorQuery),
        PumpAction::ShowCursor(55)
    );

    // Commands for untracked windows change nothing and never panic.
    assert_eq!(
        t.process_message(WindowId(99), WindowMessage::StoreCursor(1)),
        PumpAction::Ignored
    );
}

#[test]
fn thread_commands_map_to_their_actions() {
    let win = WindowId(5);
    let mut t = CallbackData::new(win, 0);
    assert_eq!(
        t.process_message(win, WindowMessage::GainFocus),
        PumpAction::SetFocus
    );
    assert_eq!(
        t.process_message(win, WindowMessage::NewOwnedWindow),
        PumpAction::CreateOwned
    );
    assert_eq!(
        t.process_message(win, WindowMessage::ActiveQuery),
        PumpAction::AnswerActive
    );
    assert_eq!(t.process_message(win, WindowMessage::Paint), PumpAction::Paint);
    assert_eq!(
        t.process_message(win, WindowMessage::Unknown(0x0086)),
        PumpAction::Default
    );
}

#[test]
fn resize_report_reaches_the_queue() {
    let win = WindowId(6);
    let mut t = CallbackData::new(win, 0);
    t.process_message(win, decode_message(WM_SIZE, 2, (500 << 16) | 500));
    assert_eq!(
        t.drain_events(win),
        Some(vec![Event::Resized(ResizeType::Maximized, 500, 500)])
    );
}

#[test]
fn toplevel_destroy_drains_every_window() {
    let root = WindowId(1);
    let owned = WindowId(2);
    let mut t = CallbackData::new(root, 0);
    t.register(owned, 0);

    // Leave one event pending on the surviving owned window.
    t.process_message(owned, decode_message(WM_KEYDOWN, 0x41, 0));

    let action = t.process_message(root, WindowMessage::Destroy);
    let entries = match action {
        PumpAction::Quit(entries) => entries,
        other => panic!("expected the drained registry back, got {:?}", other),
    };

    // Every entry left with its queue closed: blocked consumers unblock.
    assert_eq!(entries.len(), 2);
    assert!(entries.iter().all(|e| e.sender.closed));

    // The top-level window's own consumer sees the close report, then the
    // end of the sequence.
    let mut root_queue = entries.into_iter().next().unwrap().sender;
    assert_eq!(root_queue.recv_step(), RecvOutcome::Received(Event::Closed));
    assert_eq!(root_queue.recv_step(), RecvOutcome::Disconnected);

    // The registry is empty; nothing resolves any more.
    assert_eq!(t.lookup(root), None);
    assert_eq!(t.lookup(owned), None);

    // A second destroy report for the vanished top-level window finds
    // nothing and asks for no second quit.
    assert!(matches!(
        t.process_message(root, WindowMessage::Destroy),
        PumpAction::DestroyedUntracked
    ));
}

#[test]
fn toplevel_destroy_keeps_survivors_pending_events() {
    let root = WindowId(1);
    let owned = WindowId(2);
    let mut t = CallbackData::new(root, 0);
    t.register(owned, 0);
    t.process_message(owned, decode_message(WM_KEYDOWN, 0x41, 0));

    let entries = match t.process_message(root, WindowMessage::Destroy) {
        PumpAction::Quit(entries) => entries,
        other => panic!("expected the drained registry back, got {:?}", other),
    };

    // The survivor's consumer still receives what was enqueued before
    // closure — and no phantom close report it never got.
    let mut owned_queue = entries.into_iter().nth(1).unwrap().sender;
    assert_eq!(
        owned_queue.recv_step(),
        RecvOutcome::Received(Event::KeyInput(PressState::Pressed, VKeyCode::A))
    );
    assert_eq!(owned_queue.recv_step(), RecvOutcome::Disconnected);
}
