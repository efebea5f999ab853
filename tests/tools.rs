use base64::Engine;
use window_cap_mcp::cli::{Cli, TransportMode};
use window_cap_mcp::handler::{
    encode_image, list_monitors, list_windows, monitor_caption_text, monitor_capture_output,
    select_monitor, select_window, window_caption_text, window_capture_output, Content, ErrorCode,
};
use window_cap_mcp::models::{MonitorFields, MonitorInfo, RawImage, WindowFields, WindowInfo};
use window_cap_mcp::text::decimal_string;
use window_cap_mcp::window_ops::{close_window_by_id, close_window_output, close_window_with_info, window_to_close};

fn monitor(index: usize, name: &str, primary: bool) -> MonitorInfo {
    MonitorInfo {
        index,
        name: name.to_string(),
        x: 0,
        y: 0,
        width: 1920,
        height: 1080,
        is_primary: primary,
    }
}

fn window(id: u32, title: &str, app: &str) -> WindowInfo {
    WindowInfo {
        id,
        title: title.to_string(),
        app_name: app.to_string(),
        x: 10,
        y: -20,
        width: 800,
        height: 600,
        is_minimized: false,
        is_maximized: true,
    }
}

fn full_monitor_fields(name: &str, primary: bool) -> MonitorFields {
    MonitorFields {
        name: Some(name.to_string()),
        x: Some(-1920),
        y: Some(0),
        width: Some(1920),
        height: Some(1080),
        is_primary: Some(primary),
    }
}

fn image(width: u32, height: u32, fill: u8) -> RawImage {
    RawImage { width, height, pixels: vec![fill; (width * height * 4) as usize] }
}

const PNG_SIGNATURE: [u8; 8] = [0x89, b'P', b'N', b'G', 0x0d, 0x0a, 0x1a, 0x0a];

#[test]
fn decimal_rendering() {
    assert_eq!(decimal_string(0), "0");
    assert_eq!(decimal_string(7), "7");
    assert_eq!(decimal_string(10), "10");
    assert_eq!(decimal_string(4294967295), "4294967295");
    assert_eq!(decimal_string(u64::MAX), "18446744073709551615");
}

#[test]
fn single_primary_monitor_listing() {
    let listed = list_monitors(Ok(vec![full_monitor_fields("DP-1", true)])).unwrap();
    assert_eq!(listed.len(), 1);
    assert_eq!(listed[0].index, 0);
    assert!(listed[0].is_primary);
    assert_eq!(listed[0].name, "DP-1");
    assert_eq!(listed[0].x, -1920);
    assert_eq!(listed[0].width, 1920);
}

#[test]
fn monitor_listing_numbers_by_position_and_defaults_missing_fields() {
    let unreadable = MonitorFields { name: None, x: None, y: None, width: None, height: None, is_primary: None };
    let listed = list_monitors(Ok(vec![full_monitor_fields("A", false), unreadable])).unwrap();
    assert_eq!(listed.len(), 2);
    assert_eq!(listed[1].index, 1);
    assert_eq!(listed[1].name, "");
    assert_eq!((listed[1].x, listed[1].y, listed[1].width, listed[1].height), (0, 0, 0, 0));
    assert!(!listed[1].is_primary);
}

#[test]
fn monitor_listing_failure() {
    let err = list_monitors(Err("no display".to_string())).unwrap_err();
    assert_eq!(err.code, ErrorCode::InternalError);
    assert_eq!(err.message, "Failed to get monitors: no display");
}

#[test]
fn repeated_listing_is_identical() {
    let fields = vec![full_monitor_fields("A", false), full_monitor_fields("B", true)];
    let a = list_monitors(Ok(fields.clone())).unwrap();
    let b = list_monitors(Ok(fields)).unwrap();
    assert_eq!(format!("{:?}", a), format!("{:?}", b));
    let wf = vec![WindowFields {
        id: Some(3),
        title: Some("t".to_string()),
        app_name: None,
        x: Some(1),
        y: Some(2),
        width: Some(3),
        height: Some(4),
        is_minimized: Some(true),
        is_maximized: None,
    }];
    let c = list_windows(Ok(wf.clone())).unwrap();
    let d = list_windows(Ok(wf)).unwrap();
    assert_eq!(format!("{:?}", c), format!("{:?}", d));
    assert_eq!(c[0].app_name, "");
    assert!(c[0].is_minimized);
    assert!(!c[0].is_maximized);
}

#[test]
fn window_listing_failure() {
    let err = list_windows(Err("denied".to_string())).unwrap_err();
    assert_eq!(err.code, ErrorCode::InternalError);
    assert_eq!(err.message, "Failed to get window list: denied");
}

#[test]
fn capture_with_no_monitor_fails() {
    let err = select_monitor(&vec![], None).unwrap_err();
    assert_eq!(err.code, ErrorCode::InternalError);
    assert_eq!(err.message, "No monitors available");
    let err = select_monitor(&vec![], Some(0)).unwrap_err();
    assert_eq!(err.message, "No monitors available");
}

#[test]
fn capture_targets_primary_then_first() {
    let ms = vec![monitor(0, "A", false), monitor(1, "B", true), monitor(2, "C", true)];
    assert_eq!(select_monitor(&ms, None).unwrap(), 1);
    let none_primary = vec![monitor(0, "A", false), monitor(1, "B", false)];
    assert_eq!(select_monitor(&none_primary, None).unwrap(), 0);
}

#[test]
fn capture_by_index() {
    let ms = vec![monitor(0, "A", true), monitor(1, "B", false)];
    assert_eq!(select_monitor(&ms, Some(1)).unwrap(), 1);
    assert_eq!(select_monitor(&ms, Some(0)).unwrap(), 0);
    let err = select_monitor(&ms, Some(2)).unwrap_err();
    assert_eq!(err.code, ErrorCode::InternalError);
    assert_eq!(err.message, "Monitor index 2 does not exist");
}

#[test]
fn missing_window_is_named_in_the_error() {
    let ws = vec![window(7, "Editor", "code"), window(9, "Term", "xterm")];
    let err = select_window(&ws, 42).unwrap_err();
    assert_eq!(err.code, ErrorCode::InternalError);
    assert!(err.message.contains("does not exist"));
    assert!(err.message.contains("42"));
    assert_eq!(err.message, "Window ID 42 does not exist");
}

#[test]
fn window_is_found_by_id() {
    let ws = vec![window(7, "Editor", "code"), window(9, "Term", "xterm"), window(9, "Dup", "x")];
    assert_eq!(select_window(&ws, 9).unwrap(), 1);
    assert_eq!(select_window(&ws, 7).unwrap(), 0);
}

#[test]
fn captions() {
    assert_eq!(monitor_caption_text(&monitor(3, "HDMI-1", false)), "Monitor: HDMI-1 (Index: 3, Size: 1920x1080)");
    assert_eq!(
        window_caption_text(&window(12, "Notes", "editor")),
        "Window: Notes [editor] (ID: 12, Size: 800x600)"
    );
}

#[test]
fn encoded_image_is_base64_of_a_png() {
    let data = encode_image(&image(2, 3, 200)).unwrap();
    let bytes = base64::engine::general_purpose::STANDARD.decode(data.as_bytes()).unwrap();
    assert_eq!(&bytes[..8], &PNG_SIGNATURE);
    let decoded = image::load_from_memory_with_format(&bytes, image::ImageFormat::Png).unwrap();
    assert_eq!((decoded.width(), decoded.height()), (2, 3));
    assert!(data.starts_with("iVBORw0KGgo"));
}

#[test]
fn badly_sized_buffer_is_rejected() {
    let bad = RawImage { width: 2, height: 2, pixels: vec![0; 15] };
    assert_eq!(
        encode_image(&bad).unwrap_err(),
        "Image encoding failed: pixel buffer does not match the image size"
    );
    let err = monitor_capture_output(&monitor(0, "A", true), Ok(bad)).unwrap_err();
    assert_eq!(err.code, ErrorCode::InternalError);
    assert_eq!(err.message, "Image encoding failed: pixel buffer does not match the image size");
}

#[test]
fn monitor_capture_result_items() {
    let items = monitor_capture_output(&monitor(1, "DP-2", false), Ok(image(4, 4, 9))).unwrap();
    assert_eq!(items.len(), 2);
    match &items[0] {
        Content::Text(t) => assert_eq!(t, "Monitor: DP-2 (Index: 1, Size: 1920x1080)"),
        other => panic!("expected text, got {:?}", other),
    }
    match &items[1] {
        Content::Image { data, mime_type } => {
            assert_eq!(mime_type, "image/png");
            let bytes = base64::engine::general_purpose::STANDARD.decode(data.as_bytes()).unwrap();
            let decoded = image::load_from_memory(&bytes).unwrap().to_rgba8();
            assert_eq!((decoded.width(), decoded.height()), (4, 4));
            assert!(decoded.as_raw().iter().all(|b| *b == 9));
        }
        other => panic!("expected image, got {:?}", other),
    }
}

#[test]
fn capture_failures_are_internal_errors() {
    let err = monitor_capture_output(&monitor(0, "A", true), Err("denied".to_string())).unwrap_err();
    assert_eq!(err.code, ErrorCode::InternalError);
    assert_eq!(err.message, "Screenshot failed: denied");
    let err = window_capture_output(&window(5, "a", "b"), Err("gone".to_string())).unwrap_err();
    assert_eq!(err.message, "Window screenshot failed: gone");
}

#[test]
fn captures_of_different_images_keep_their_own_content() {
    let first = window_capture_output(&window(1, "one", "a"), Ok(image(1, 1, 10))).unwrap();
    let second = window_capture_output(&window(2, "two", "b"), Ok(image(3, 1, 20))).unwrap();
    let pixels = |items: &Vec<Content>| match &items[1] {
        Content::Image { data, .. } => {
            let bytes = base64::engine::general_purpose::STANDARD.decode(data.as_bytes()).unwrap();
            image::load_from_memory(&bytes).unwrap().to_rgba8()
        }
        other => panic!("expected image, got {:?}", other),
    };
    let a = pixels(&first);
    let b = pixels(&second);
    assert_eq!((a.width(), a.height()), (1, 1));
    assert_eq!((b.width(), b.height()), (3, 1));
    assert!(a.as_raw().iter().all(|v| *v == 10));
    assert!(b.as_raw().iter().all(|v| *v == 20));
    match &first[0] {
        Content::Text(t) => assert_eq!(t, "Window: one [a] (ID: 1, Size: 800x600)"),
        other => panic!("expected text, got {:?}", other),
    }
}

#[test]
fn close_confirmation_and_failure() {
    let w = window(77, "Mail", "client");
    assert_eq!(
        close_window_with_info(&w, Ok(())).unwrap(),
        "Successfully closed window: Mail [client] (ID: 77)"
    );
    assert_eq!(close_window_with_info(&w, Err("refused".to_string())).unwrap_err(), "refused");
    let items = close_window_output(&w, Ok(())).unwrap();
    assert_eq!(items.len(), 1);
    let err = close_window_output(&w, Err("refused".to_string())).unwrap_err();
    assert_eq!(err.code, ErrorCode::InternalError);
    assert_eq!(err.message, "refused");
}

#[test]
fn close_without_platform_support() {
    assert_eq!(close_window_by_id(5).unwrap_err(), "Window closing is not supported on this platform");
}

#[test]
fn transport_selection_and_address() {
    let mut cli = Cli::new();
    assert_eq!(cli.transport(), TransportMode::Stdio);
    assert_eq!(cli.bind_address(), "127.0.0.1:8080");
    cli.http = true;
    assert_eq!(cli.transport(), TransportMode::StreamableHttp);
    cli.sse = true;
    assert_eq!(cli.transport(), TransportMode::Sse);
    cli.host = "0.0.0.0".to_string();
    cli.port = 3000;
    assert_eq!(cli.bind_address(), "0.0.0.0:3000");
}

#[test]
fn zero_sized_image_does_not_panic() {
    match encode_image(&image(0, 0, 0)) {
        Ok(data) => assert!(!data.is_empty()),
        Err(e) => assert!(e.starts_with("Image encoding failed: ")),
    }
    match encode_image(&image(0, 5, 0)) {
        Ok(data) => assert!(!data.is_empty()),
        Err(e) => assert!(e.starts_with("Image encoding failed: ")),
    }
}

fn window_fields(id: Option<u32>, title: &str) -> WindowFields {
    WindowFields {
        id,
        title: Some(title.to_string()),
        app_name: Some("app".to_string()),
        x: None,
        y: None,
        width: Some(640),
        height: Some(480),
        is_minimized: None,
        is_maximized: None,
    }
}

#[test]
fn close_target_is_the_first_window_with_the_id() {
    let fields = vec![window_fields(Some(3), "a"), window_fields(Some(8), "b"), window_fields(Some(8), "c")];
    let w = window_to_close(Ok(fields), 8).unwrap();
    assert_eq!(w.id, 8);
    assert_eq!(w.title, "b");
    assert_eq!(
        close_window_with_info(&w, Ok(())).unwrap(),
        "Successfully closed window: b [app] (ID: 8)"
    );
    let unnamed = window_to_close(Ok(vec![window_fields(None, "z")]), 0).unwrap();
    assert_eq!(unnamed.title, "z");
}

#[test]
fn close_target_errors() {
    let err = window_to_close(Ok(vec![window_fields(Some(3), "a")]), 99).unwrap_err();
    assert_eq!(err.code, ErrorCode::InternalError);
    assert_eq!(err.message, "Window ID 99 does not exist");
    let err = window_to_close(Err("no display".to_string()), 3).unwrap_err();
    assert_eq!(err.code, ErrorCode::InternalError);
    assert_eq!(err.message, "Failed to get window list: no display");
}

#[test]
fn base64_length_follows_the_byte_count() {
    let data = encode_image(&image(5, 7, 1)).unwrap();
    assert_eq!(data.len() % 4, 0);
    assert!(monitor_capture_output(&monitor(0, "A", true), Ok(image(1, 1, 0))).is_ok());
}
