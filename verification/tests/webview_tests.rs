use awesomium::{console_message, AweWebView, ViewCall, CONSOLE_TEXT_CAPACITY};

#[test]
fn view_keeps_its_address() {
    assert_eq!(AweWebView::from_address(0x1000).address(), 0x1000);
    assert_eq!(AweWebView::from_address(7), AweWebView::from_address(7));
    assert_ne!(AweWebView::from_address(7), AweWebView::from_address(8));
}

#[test]
fn set_transparent_passes_the_flag_as_a_byte() {
    let view = AweWebView::from_address(42);
    match view.set_transparent(true) {
        ViewCall::SetTransparent { view, transparent } => {
            assert_eq!(view, 42);
            assert_eq!(transparent, 1);
        }
        _ => panic!("wrong call"),
    }
    match view.set_transparent(false) {
        ViewCall::SetTransparent { view, transparent } => {
            assert_eq!(view, 42);
            assert_eq!(transparent, 0);
        }
        _ => panic!("wrong call"),
    }
}

#[test]
fn load_file_drops_the_frame_name() {
    let view = AweWebView::from_address(42);
    match view.load_file("index.html", "sidebar") {
        ViewCall::LoadFile { view, path, frame_name } => {
            assert_eq!(view, 42);
            assert_eq!(path.bytes().unwrap().as_slice(), b"index.html");
            assert!(frame_name.bytes().is_none());
        }
        _ => panic!("wrong call"),
    }
}

#[test]
fn execute_javascript_in_the_main_frame() {
    let view = AweWebView::from_address(9);
    match view.execute_javascript("go()", None) {
        ViewCall::ExecuteJavascript { view, javascript, frame_name } => {
            assert_eq!(view, 9);
            assert_eq!(javascript.bytes().unwrap().as_slice(), b"go()");
            assert!(frame_name.bytes().is_none());
        }
        _ => panic!("wrong call"),
    }
}

#[test]
fn execute_javascript_in_a_named_frame() {
    let view = AweWebView::from_address(9);
    match view.execute_javascript("go()", Some("menu")) {
        ViewCall::ExecuteJavascript { view, javascript, frame_name } => {
            assert_eq!(view, 9);
            assert_eq!(javascript.bytes().unwrap().as_slice(), b"go()");
            assert_eq!(frame_name.bytes().unwrap().as_slice(), b"menu");
        }
        _ => panic!("wrong call"),
    }
}

#[test]
fn is_loading_page_reads_any_nonzero_byte_as_yes() {
    let view = AweWebView::from_address(1);
    assert!(!view.is_loading_page(0));
    assert!(view.is_loading_page(1));
    assert!(view.is_loading_page(255));
}

#[test]
fn console_message_reads_both_texts() {
    let mut message = [0u8; CONSOLE_TEXT_CAPACITY];
    message[..4].copy_from_slice(b"boom");
    let mut source = [0u8; CONSOLE_TEXT_CAPACITY];
    source[..6].copy_from_slice(b"app.js");
    let m = console_message(77, &message, 12, &source).unwrap();
    assert_eq!(m.view.address(), 77);
    assert_eq!(m.message, "boom");
    assert_eq!(m.line_number, 12);
    assert_eq!(m.source, "app.js");
}

#[test]
fn console_message_needs_utf8_in_both_buffers() {
    let good = [b'a', 0];
    let bad = [0xff, 0];
    assert!(console_message(1, &bad, 0, &good).is_none());
    assert!(console_message(1, &good, 0, &bad).is_none());
    assert!(console_message(1, &good, 0, &good).is_some());
}

#[test]
fn console_text_capacity_is_two_hundred_bytes() {
    assert_eq!(CONSOLE_TEXT_CAPACITY, 200);
}
