use live_player::error::AppError;
use live_player::output::native_handle::{
    create_fallback_sink, create_video_sink_with_handle, get_native_handle, native_handle_from,
    set_window_handle_overlay, sinks_for_handle, HandleRoute, NativeHandle, Platform, RawWindow,
    SinkAttempt, SinkFactory,
};
use raw_window_handle::{
    AppKitWindowHandle, RawWindowHandle, WaylandWindowHandle, Win32WindowHandle, XcbWindowHandle,
    XlibWindowHandle,
};
use std::num::{NonZeroIsize, NonZeroU32};
use std::ptr::NonNull;

#[test]
fn test_native_handle_send_sync() {
    fn assert_send_sync<T: Send + Sync>() {}
    assert_send_sync::<NativeHandle>();
}

#[test]
fn handle_from_raw_fields() {
    assert_eq!(
        native_handle_from(Platform::MacOs, Some(RawWindow::AppKit(0x1000))),
        Some(NativeHandle::NSView(0x1000))
    );
    assert_eq!(
        native_handle_from(Platform::Windows, Some(RawWindow::Win32(77))),
        Some(NativeHandle::Hwnd(77))
    );
    assert_eq!(
        native_handle_from(Platform::Linux, Some(RawWindow::Xlib(5))),
        Some(NativeHandle::X11Window(5))
    );
    assert_eq!(
        native_handle_from(Platform::Linux, Some(RawWindow::Xcb(6))),
        Some(NativeHandle::X11Window(6))
    );
    assert_eq!(native_handle_from(Platform::Linux, Some(RawWindow::Win32(77))), None);
    assert_eq!(native_handle_from(Platform::MacOs, Some(RawWindow::Xlib(5))), None);
    assert_eq!(native_handle_from(Platform::Windows, Some(RawWindow::Other)), None);
    assert_eq!(native_handle_from(Platform::Other, Some(RawWindow::Xlib(5))), None);
    assert_eq!(native_handle_from(Platform::Linux, None), None);
}

#[test]
fn handle_from_real_raw_window_handles() {
    let xlib = RawWindowHandle::Xlib(XlibWindowHandle::new(4242));
    assert_eq!(
        get_native_handle(Platform::Linux, Some(&xlib)),
        Some(NativeHandle::X11Window(4242))
    );
    assert_eq!(get_native_handle(Platform::Windows, Some(&xlib)), None);

    let xcb = RawWindowHandle::Xcb(XcbWindowHandle::new(NonZeroU32::new(17).unwrap()));
    assert_eq!(get_native_handle(Platform::Linux, Some(&xcb)), Some(NativeHandle::X11Window(17)));

    let win = RawWindowHandle::Win32(Win32WindowHandle::new(NonZeroIsize::new(99).unwrap()));
    assert_eq!(get_native_handle(Platform::Windows, Some(&win)), Some(NativeHandle::Hwnd(99)));
    assert_eq!(get_native_handle(Platform::Linux, Some(&win)), None);

    let mut target = 0u8;
    let pointer = NonNull::from(&mut target);
    let address = pointer.addr().get() as u64;
    let appkit = RawWindowHandle::AppKit(AppKitWindowHandle::new(pointer.cast()));
    assert_eq!(
        get_native_handle(Platform::MacOs, Some(&appkit)),
        Some(NativeHandle::NSView(address))
    );

    let wayland = RawWindowHandle::Wayland(WaylandWindowHandle::new(pointer.cast()));
    assert_eq!(get_native_handle(Platform::Linux, Some(&wayland)), None);
    assert_eq!(get_native_handle(Platform::Linux, None), None);
}

#[test]
fn handle_value_for_sinks() {
    assert_eq!(NativeHandle::NSView(12).value(), 12);
    assert_eq!(NativeHandle::Hwnd(34).value(), 34);
    assert_eq!(NativeHandle::Hwnd(-1).value(), u64::MAX);
    assert_eq!(NativeHandle::X11Window(56).value(), 56);
}

#[test]
fn sinks_per_platform() {
    assert_eq!(
        sinks_for_handle(&NativeHandle::NSView(1), Platform::MacOs),
        vec![SinkFactory::GlImageSink, SinkFactory::OsxVideoSink]
    );
    assert_eq!(
        sinks_for_handle(&NativeHandle::Hwnd(1), Platform::Windows),
        vec![SinkFactory::D3d11VideoSink, SinkFactory::D3dVideoSink, SinkFactory::GlImageSink]
    );
    assert_eq!(
        sinks_for_handle(&NativeHandle::X11Window(1), Platform::Linux),
        vec![SinkFactory::GlImageSink, SinkFactory::XvImageSink, SinkFactory::XImageSink]
    );
    assert_eq!(sinks_for_handle(&NativeHandle::X11Window(1), Platform::MacOs), vec![]);
    assert_eq!(sinks_for_handle(&NativeHandle::Hwnd(1), Platform::Other), vec![]);
}

#[test]
fn sink_attempts_in_order_then_error() {
    let handle = NativeHandle::X11Window(9);
    assert_eq!(
        create_video_sink_with_handle(&handle, Platform::Linux, 0),
        SinkAttempt::Try(SinkFactory::GlImageSink)
    );
    assert_eq!(
        create_video_sink_with_handle(&handle, Platform::Linux, 1),
        SinkAttempt::Try(SinkFactory::XvImageSink)
    );
    assert_eq!(
        create_video_sink_with_handle(&handle, Platform::Linux, 2),
        SinkAttempt::Try(SinkFactory::XImageSink)
    );
    assert_eq!(
        create_video_sink_with_handle(&handle, Platform::Linux, 3),
        SinkAttempt::GiveUp(AppError::GStreamer(
            "No suitable video sink found for Linux (tried glimagesink, xvimagesink, ximagesink)"
                .to_string()
        ))
    );
    assert_eq!(
        create_video_sink_with_handle(&NativeHandle::NSView(1), Platform::MacOs, 2),
        SinkAttempt::GiveUp(AppError::GStreamer(
            "No suitable video sink found for macOS (tried glimagesink, osxvideosink)".to_string()
        ))
    );
    assert_eq!(
        create_video_sink_with_handle(&NativeHandle::Hwnd(1), Platform::Windows, 7),
        SinkAttempt::GiveUp(AppError::GStreamer(
            "No suitable video sink found for Windows (tried d3d11videosink, d3dvideosink, glimagesink)"
                .to_string()
        ))
    );
    assert_eq!(
        create_video_sink_with_handle(&handle, Platform::Windows, 0),
        SinkAttempt::GiveUp(AppError::GStreamer(
            "Unsupported platform for native handle sink".to_string()
        ))
    );
}

#[test]
fn sink_names() {
    assert_eq!(SinkFactory::GlImageSink.name(), "glimagesink");
    assert_eq!(SinkFactory::OsxVideoSink.name(), "osxvideosink");
    assert_eq!(SinkFactory::D3d11VideoSink.name(), "d3d11videosink");
    assert_eq!(SinkFactory::D3dVideoSink.name(), "d3dvideosink");
    assert_eq!(SinkFactory::XvImageSink.name(), "xvimagesink");
    assert_eq!(SinkFactory::XImageSink.name(), "ximagesink");
    assert_eq!(SinkFactory::AutoVideoSink.name(), "autovideosink");
    assert_eq!(SinkFactory::NdiSink.name(), "ndisink");
    assert_eq!(create_fallback_sink(), SinkFactory::AutoVideoSink);
}

#[test]
fn window_handle_route() {
    assert_eq!(set_window_handle_overlay(true, true), HandleRoute::Overlay);
    assert_eq!(set_window_handle_overlay(true, false), HandleRoute::Overlay);
    assert_eq!(set_window_handle_overlay(false, true), HandleRoute::Property);
    assert_eq!(set_window_handle_overlay(false, false), HandleRoute::Unsupported);
}
