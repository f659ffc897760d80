//! Creation-outcome judgment, the cursor table, cursor placement, the
//! response-channel translation, and wide-string encoding.

use tub::creation::{
    creation_response, cursor_move_target, cursor_resource_id, osstr, wide_path,
    window_creation_result, IDC_ARROW, IDC_WAIT,
};
use tub::error::TubError;
use tub::registry::WindowId;
use tub::CursorType;

#[test]
fn refused_handle_surfaces_the_platform_message() {
    let r = window_creation_result(0, "access denied".to_string(), false, false, false);
    match r {
        Err(TubError::OsError(m)) => assert_eq!(m, "access denied"),
        other => panic!("expected an OS error, got {:?}", other),
    }
}

#[test]
fn invalid_icon_reports_the_failed_resolution() {
    // The larger icon is loaded first: an unloadable path fails at 32.
    let r = window_creation_result(42, String::new(), true, false, false);
    assert!(matches!(r, Err(TubError::IconLoadError(32))));

    // If only the small resolution fails, that is the one reported.
    let r = window_creation_result(42, String::new(), true, true, false);
    assert!(matches!(r, Err(TubError::IconLoadError(16))));
}

#[test]
fn successful_creation_returns_the_window() {
    let r = window_creation_result(42, String::new(), false, false, false);
    assert_eq!(r.unwrap(), WindowId(42));
    let r = window_creation_result(42, String::new(), true, true, true);
    assert_eq!(r.unwrap(), WindowId(42));
}

#[test]
fn dropped_response_channel_becomes_an_os_error() {
    let r = creation_response::<WindowId>(None);
    match r {
        Err(TubError::OsError(m)) => {
            assert_eq!(m, "window thread dropped the response channel")
        },
        other => panic!("expected an OS error, got {:?}", other),
    }
    assert_eq!(creation_response(Some(Ok(WindowId(9)))).unwrap(), WindowId(9));
}

#[test]
fn cursor_shapes_name_their_resources() {
    assert_eq!(cursor_resource_id(CursorType::Arrow), Some(IDC_ARROW));
    assert_eq!(cursor_resource_id(CursorType::Arrow), Some(32512));
    assert_eq!(cursor_resource_id(CursorType::Wait), Some(IDC_WAIT));
    assert_eq!(cursor_resource_id(CursorType::Crosshair), Some(32515));
    assert_eq!(cursor_resource_id(CursorType::Invisible), None);
}

#[test]
fn cursor_moves_only_inside_the_active_client_area() {
    let size = Some((100u32, 100u32));
    let pos = Some((10i32, 20i32));

    // Active, and the cursor strictly inside: move to window-space target.
    assert_eq!(cursor_move_target(size, pos, (50, 50), true, 5, 6), Some((15, 26)));

    // Inactive window: no-op.
    assert_eq!(cursor_move_target(size, pos, (50, 50), false, 5, 6), None);

    // Cursor outside (or on the edge of) the client area: no-op.
    assert_eq!(cursor_move_target(size, pos, (10, 50), true, 5, 6), None);
    assert_eq!(cursor_move_target(size, pos, (110, 50), true, 5, 6), None);
    assert_eq!(cursor_move_target(size, pos, (50, 200), true, 5, 6), None);

    // A failed size query: no-op rather than an error.
    assert_eq!(cursor_move_target(None, pos, (50, 50), true, 5, 6), None);
}

#[test]
fn wide_strings_are_encoded_with_a_terminator() {
    assert_eq!(osstr(""), vec![0]);
    assert_eq!(osstr("ab"), vec![0x61, 0x62, 0]);
    assert_eq!(wide_path("tub.ico"), vec![0x74, 0x75, 0x62, 0x2E, 0x69, 0x63, 0x6F, 0]);
    // A basic-plane character above ASCII is one unit.
    assert_eq!(osstr("\u{03C0}"), vec![0x03C0, 0]);
    // A character beyond the basic plane becomes a surrogate pair.
    assert_eq!(osstr("\u{1D11E}"), vec![0xD834, 0xDD1E, 0]);
}

#[test]
fn error_descriptions() {
    assert_eq!(TubError::IconLoadError(32).description(), "Icon load error");
    assert_eq!(TubError::OsError("refused".to_string()).description(), "refused");
    assert_eq!(
        tub::error::GlCreationError::SRGBBufferError.description(),
        "Could not create SRGB pixel format"
    );
    assert_eq!(
        tub::error::GlCreationError::OsError("code 5".to_string(), "no context".to_string())
            .description(),
        "no context"
    );
}
