//! Configuration builders, their defaults, and the creation words they
//! translate to.

use tub::config::{InitialState, PixelFormat, WindowConfig};
use tub::creation::{
    style_flags, WS_CAPTION, WS_EX_TOOLWINDOW, WS_EX_WINDOWEDGE, WS_MAXIMIZE, WS_MAXIMIZEBOX,
    WS_MINIMIZE, WS_MINIMIZEBOX, WS_SIZEBOX, WS_SYSMENU,
};

#[test]
fn window_config_defaults() {
    let c = WindowConfig::new();
    assert_eq!(c.name, "");
    assert_eq!(c.size, None);
    assert!(!c.topmost);
    assert!(!c.borderless);
    assert!(c.resizable);
    assert!(c.maximizable);
    assert!(c.minimizable);
    assert!(!c.tool_window);
    assert!(!c.transparent);
    assert!(matches!(c.initial_state, InitialState::Windowed));
    assert_eq!(c.icon, None);
}

#[test]
fn window_config_chaining_replaces_each_field() {
    let c = WindowConfig::new()
        .name("It's a window!".to_string())
        .size(Some((500, 500)))
        .topmost(true)
        .borderless(true)
        .resizable(false)
        .maximizable(false)
        .minimizable(false)
        .tool_window(true)
        .transparent(true)
        .initial_state(InitialState::Maximized)
        .icon(Some("tub.ico".to_string()));
    assert_eq!(c.name, "It's a window!");
    assert_eq!(c.size, Some((500, 500)));
    assert!(c.topmost);
    assert!(c.borderless);
    assert!(!c.resizable);
    assert!(!c.maximizable);
    assert!(!c.minimizable);
    assert!(c.tool_window);
    assert!(c.transparent);
    assert!(matches!(c.initial_state, InitialState::Maximized));
    assert_eq!(c.icon, Some("tub.ico".to_string()));
}

#[test]
fn pixel_format_defaults() {
    let p = PixelFormat::new();
    assert_eq!(p.color_bits, 24);
    assert_eq!(p.alpha_bits, 8);
    assert_eq!(p.depth_bits, 0);
    assert_eq!(p.stencil_bits, 0);
    assert_eq!(p.srgb, None);
    assert!(!p.color_buffer_float);
    assert_eq!(p.multisampling, 0);
    assert_eq!(p.hardware_accel, Some(true));
    assert!(!p.stereoscopic);
}

#[test]
fn pixel_format_chaining_replaces_each_field() {
    let p = PixelFormat::new()
        .color_bits(32)
        .alpha_bits(0)
        .depth_bits(24)
        .stencil_bits(8)
        .srgb(Some(true))
        .color_buffer_float(true)
        .multisampling(4)
        .hardware_accel(None)
        .stereoscopic(true);
    assert_eq!(p.color_bits, 32);
    assert_eq!(p.alpha_bits, 0);
    assert_eq!(p.depth_bits, 24);
    assert_eq!(p.stencil_bits, 8);
    assert_eq!(p.srgb, Some(true));
    assert!(p.color_buffer_float);
    assert_eq!(p.multisampling, 4);
    assert_eq!(p.hardware_accel, None);
    assert!(p.stereoscopic);
}

#[test]
fn default_config_gets_full_decorations() {
    let (style, style_ex) = style_flags(&WindowConfig::new());
    assert_eq!(
        style,
        WS_SYSMENU | WS_CAPTION | WS_SIZEBOX | WS_MAXIMIZEBOX | WS_MINIMIZEBOX
    );
    assert_eq!(style, 0x00CF_0000);
    assert_eq!(style_ex, WS_EX_WINDOWEDGE);
}

#[test]
fn borderless_config_keeps_only_the_system_menu() {
    let (style, style_ex) = style_flags(&WindowConfig::new().borderless(true));
    assert_eq!(style, WS_SYSMENU);
    assert_eq!(style_ex, 0);
}

#[test]
fn tool_window_skips_decorations_and_taskbar() {
    let (style, style_ex) = style_flags(&WindowConfig::new().tool_window(true));
    assert_eq!(style, WS_SYSMENU);
    assert_eq!(style_ex, WS_EX_TOOLWINDOW);
}

#[test]
fn fixed_size_config_loses_the_size_box() {
    let (style, _) = style_flags(&WindowConfig::new().resizable(false));
    assert_eq!(style, WS_SYSMENU | WS_CAPTION | WS_MINIMIZEBOX);
}

#[test]
fn initial_state_sets_its_style_bit() {
    let (minimized, _) =
        style_flags(&WindowConfig::new().initial_state(InitialState::Minimized));
    assert_eq!(minimized & WS_MINIMIZE, WS_MINIMIZE);
    let (maximized, _) =
        style_flags(&WindowConfig::new().initial_state(InitialState::Maximized));
    assert_eq!(maximized & WS_MAXIMIZE, WS_MAXIMIZE);
}
