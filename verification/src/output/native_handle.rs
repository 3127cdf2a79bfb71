//! Native window handles and the video sinks that can draw into them.

use vstd::prelude::*;
use vstd::string::*;
use crate::error::AppError;

verus! {

/// The operating system the engine runs on.
#[derive(Debug, Clone, Copy, PartialEq, Eq, Structural)]
pub enum Platform {
    MacOs,
    Windows,
    Linux,
    Other,
}

/// The native surface of an output window.
#[derive(Debug, Clone, Copy, PartialEq, Eq, Structural)]
pub enum NativeHandle {
    /// The address of an NSView on macOS.
    NSView(u64),
    /// A window handle on Windows.
    Hwnd(isize),
    /// An X11 window id on Linux.
    X11Window(u64),
}

/// What the windowing shell reports as the raw handle of a window.
#[derive(Debug, Clone, Copy, PartialEq, Eq, Structural)]
pub enum RawWindow {
    /// An AppKit window with the address of its view.
    AppKit(u64),
    /// A Win32 window with its handle.
    Win32(isize),
    /// An Xlib window with its id.
    Xlib(u64),
    /// An XCB window with its id.
    Xcb(u32),
    /// Any other kind of window.
    Other,
}

/// The handle that a raw window gives on a platform: AppKit on macOS, Win32
/// on Windows, Xlib and XCB on Linux, and nothing for any other pairing.
pub open spec fn native_handle_of(platform: Platform, raw: Option<RawWindow>) -> Option<
    NativeHandle,
> {
    match (platform, raw) {
        (Platform::MacOs, Some(RawWindow::AppKit(view))) => Some(NativeHandle::NSView(view)),
        (Platform::Windows, Some(RawWindow::Win32(hwnd))) => Some(NativeHandle::Hwnd(hwnd)),
        (Platform::Linux, Some(RawWindow::Xlib(id))) => Some(NativeHandle::X11Window(id)),
        (Platform::Linux, Some(RawWindow::Xcb(id))) => Some(NativeHandle::X11Window(id as u64)),
        _ => None,
    }
}

/// The raw window handle of the `raw-window-handle` crate. Nothing is known
/// of what a value of it holds.
#[verifier::external_type_specification]
#[verifier::external_body]
pub struct ExRawWindowHandle(raw_window_handle::RawWindowHandle);

/// Reads the fields of `raw_window_handle::RawWindowHandle`: the view
/// pointer of an AppKit handle as a number, the `hwnd` of a Win32 handle, the
/// window id of an Xlib or XCB handle. Every other variant is `Other`.
/// Nothing is claimed of the numbers.
#[verifier::external_body]
fn raw_window_of(raw: &raw_window_handle::RawWindowHandle) -> (window: RawWindow) {
    match raw {
        raw_window_handle::RawWindowHandle::AppKit(h) => RawWindow::AppKit(
            h.ns_view.as_ptr() as u64,
        ),
        raw_window_handle::RawWindowHandle::Win32(h) => RawWindow::Win32(h.hwnd.get()),
        raw_window_handle::RawWindowHandle::Xlib(h) => RawWindow::Xlib(h.window as u64),
        raw_window_handle::RawWindowHandle::Xcb(h) => RawWindow::Xcb(h.window.get()),
        _ => RawWindow::Other,
    }
}

/// Whether a handle is of the kind that a platform's windows have.
pub open spec fn belongs_to(handle: NativeHandle, platform: Platform) -> bool {
    match handle {
        NativeHandle::NSView(_) => platform == Platform::MacOs,
        NativeHandle::Hwnd(_) => platform == Platform::Windows,
        NativeHandle::X11Window(_) => platform == Platform::Linux,
    }
}

/// Extracts the native handle from the raw handle of a window; `raw` is
/// `None` where the shell has no handle for the window. What is extracted is
/// what `native_handle_from` gives for the fields of the raw handle: a
/// handle of the platform's kind, or nothing.
pub fn get_native_handle(
    platform: Platform,
    raw: Option<&raw_window_handle::RawWindowHandle>,
) -> (handle: Option<NativeHandle>)
    ensures
        raw is None ==> handle is None,
        platform == Platform::Other ==> handle is None,
        handle matches Some(h) ==> belongs_to(h, platform),
        exists|window: RawWindow|
            handle == native_handle_of(
                platform,
                if raw is Some {
                    Some(window)
                } else {
                    None
                },
            ),
{
    match raw {
        Some(r) => {
            let window = raw_window_of(r);
            native_handle_from(platform, Some(window))
        },
        None => {
            assert(native_handle_of(platform, None) is None);
            let ghost witness = RawWindow::Other;
            assert(None::<NativeHandle> == native_handle_of(
                platform,
                if raw is Some {
                    Some(witness)
                } else {
                    None
                },
            ));
            None
        },
    }
}

/// The native handle for the fields of a raw window handle; `raw` is `None`
/// where the shell has no handle for the window.
pub fn native_handle_from(platform: Platform, raw: Option<RawWindow>) -> (handle: Option<
    NativeHandle,
>)
    ensures
        handle == native_handle_of(platform, raw),
{
    match raw {
        Some(RawWindow::AppKit(view)) => match platform {
            Platform::MacOs => Some(NativeHandle::NSView(view)),
            _ => None,
        },
        Some(RawWindow::Win32(hwnd)) => match platform {
            Platform::Windows => Some(NativeHandle::Hwnd(hwnd)),
            _ => None,
        },
        Some(RawWindow::Xlib(id)) => match platform {
            Platform::Linux => Some(NativeHandle::X11Window(id)),
            _ => None,
        },
        Some(RawWindow::Xcb(id)) => match platform {
            Platform::Linux => Some(NativeHandle::X11Window(id as u64)),
            _ => None,
        },
        _ => None,
    }
}

/// The number a sink is given for a handle.
pub open spec fn handle_value_of(handle: NativeHandle) -> u64 {
    match handle {
        NativeHandle::NSView(view) => view,
        NativeHandle::Hwnd(hwnd) => hwnd as u64,
        NativeHandle::X11Window(id) => id,
    }
}

impl NativeHandle {
    /// The number a sink is given for this handle.
    pub fn value(&self) -> (v: u64)
        ensures
            v == handle_value_of(*self),
    {
        match self {
            NativeHandle::NSView(view) => *view,
            NativeHandle::Hwnd(hwnd) => *hwnd as u64,
            NativeHandle::X11Window(id) => *id,
        }
    }
}

/// A video sink element of the media framework.
#[derive(Debug, Clone, Copy, PartialEq, Eq, Structural)]
pub enum SinkFactory {
    GlImageSink,
    OsxVideoSink,
    D3d11VideoSink,
    D3dVideoSink,
    XvImageSink,
    XImageSink,
    AutoVideoSink,
    NdiSink,
}

/// The name under which the media framework knows a sink.
pub open spec fn factory_name_of(factory: SinkFactory) -> Seq<char> {
    match factory {
        SinkFactory::GlImageSink => "glimagesink"@,
        SinkFactory::OsxVideoSink => "osxvideosink"@,
        SinkFactory::D3d11VideoSink => "d3d11videosink"@,
        SinkFactory::D3dVideoSink => "d3dvideosink"@,
        SinkFactory::XvImageSink => "xvimagesink"@,
        SinkFactory::XImageSink => "ximagesink"@,
        SinkFactory::AutoVideoSink => "autovideosink"@,
        SinkFactory::NdiSink => "ndisink"@,
    }
}

impl SinkFactory {
    /// The name under which the media framework knows this sink.
    pub fn name(&self) -> (n: &'static str)
        ensures
            n@ == factory_name_of(*self),
    {
        match self {
            SinkFactory::GlImageSink => "glimagesink",
            SinkFactory::OsxVideoSink => "osxvideosink",
            SinkFactory::D3d11VideoSink => "d3d11videosink",
            SinkFactory::D3dVideoSink => "d3dvideosink",
            SinkFactory::XvImageSink => "xvimagesink",
            SinkFactory::XImageSink => "ximagesink",
            SinkFactory::AutoVideoSink => "autovideosink",
            SinkFactory::NdiSink => "ndisink",
        }
    }
}

/// The sinks that can draw into a handle on a platform, best first. A handle
/// of another platform has none.
pub open spec fn handle_sinks(handle: NativeHandle, platform: Platform) -> Seq<SinkFactory> {
    match (platform, handle) {
        (Platform::MacOs, NativeHandle::NSView(_)) => seq![
            SinkFactory::GlImageSink,
            SinkFactory::OsxVideoSink,
        ],
        (Platform::Windows, NativeHandle::Hwnd(_)) => seq![
            SinkFactory::D3d11VideoSink,
            SinkFactory::D3dVideoSink,
            SinkFactory::GlImageSink,
        ],
        (Platform::Linux, NativeHandle::X11Window(_)) => seq![
            SinkFactory::GlImageSink,
            SinkFactory::XvImageSink,
            SinkFactory::XImageSink,
        ],
        _ => Seq::empty(),
    }
}

/// What is said when none of the sinks of macOS can be made.
pub const NO_MACOS_SINK: &'static str =
    "No suitable video sink found for macOS (tried glimagesink, osxvideosink)";

/// What is said when none of the sinks of Windows can be made.
pub const NO_WINDOWS_SINK: &'static str =
    "No suitable video sink found for Windows (tried d3d11videosink, d3dvideosink, glimagesink)";

/// What is said when none of the sinks of Linux can be made.
pub const NO_LINUX_SINK: &'static str =
    "No suitable video sink found for Linux (tried glimagesink, xvimagesink, ximagesink)";

/// What is said when none of the sinks of a platform can be made.
pub open spec fn no_sink_text(platform: Platform) -> Seq<char> {
    match platform {
        Platform::MacOs => NO_MACOS_SINK@,
        Platform::Windows => NO_WINDOWS_SINK@,
        Platform::Linux => NO_LINUX_SINK@,
        Platform::Other => "Unsupported platform for native handle sink"@,
    }
}

/// What to do next while a sink for a handle is being made.
#[derive(Debug, PartialEq, Eq)]
pub enum SinkAttempt {
    /// Try to make this sink and give it the handle.
    Try(SinkFactory),
    /// Nothing is left to try.
    GiveUp(AppError),
}

/// The next step after `failed` sinks could not be made.
pub open spec fn sink_attempt_of(handle: NativeHandle, platform: Platform, failed: nat) -> (
    Option<SinkFactory>,
    Seq<char>,
) {
    let sinks = handle_sinks(handle, platform);
    if sinks.len() == 0 {
        (None, "Unsupported platform for native handle sink"@)
    } else if failed < sinks.len() {
        (Some(sinks[failed as int]), Seq::empty())
    } else {
        (None, no_sink_text(platform))
    }
}

/// The sinks that can draw into `handle` on `platform`, best first.
pub fn sinks_for_handle(handle: &NativeHandle, platform: Platform) -> (sinks: Vec<SinkFactory>)
    ensures
        sinks@ == handle_sinks(*handle, platform),
{
    let mut sinks: Vec<SinkFactory> = Vec::new();
    match (platform, handle) {
        (Platform::MacOs, NativeHandle::NSView(_)) => {
            sinks.push(SinkFactory::GlImageSink);
            sinks.push(SinkFactory::OsxVideoSink);
        },
        (Platform::Windows, NativeHandle::Hwnd(_)) => {
            sinks.push(SinkFactory::D3d11VideoSink);
            sinks.push(SinkFactory::D3dVideoSink);
            sinks.push(SinkFactory::GlImageSink);
        },
        (Platform::Linux, NativeHandle::X11Window(_)) => {
            sinks.push(SinkFactory::GlImageSink);
            sinks.push(SinkFactory::XvImageSink);
            sinks.push(SinkFactory::XImageSink);
        },
        _ => {},
    }
    assert(sinks@ =~= handle_sinks(*handle, platform));
    sinks
}

/// Chooses the platform's sink for a native handle. The caller tries to make
/// the sink it is told to try and comes back with the number of sinks that
/// could not be made: the answer is the next sink of the platform, best
/// first, or the error once none is left or the handle belongs to another
/// platform.
pub fn create_video_sink_with_handle(
    handle: &NativeHandle,
    platform: Platform,
    failed: usize,
) -> (attempt: SinkAttempt)
    ensures
        match attempt {
            SinkAttempt::Try(sink) => sink_attempt_of(*handle, platform, failed as nat).0 == Some(
                sink,
            ),
            SinkAttempt::GiveUp(e) => sink_attempt_of(*handle, platform, failed as nat).0 is None
                && e@.kind == crate::error::ErrorKind::GStreamer && e@.detail == sink_attempt_of(
                *handle,
                platform,
                failed as nat,
            ).1,
        },
{
    let sinks = sinks_for_handle(handle, platform);
    if sinks.len() == 0 {
        SinkAttempt::GiveUp(
            AppError::GStreamer(String::from_str("Unsupported platform for native handle sink")),
        )
    } else if failed < sinks.len() {
        SinkAttempt::Try(sinks[failed])
    } else {
        let text = match platform {
            Platform::MacOs => NO_MACOS_SINK,
            Platform::Windows => NO_WINDOWS_SINK,
            Platform::Linux => NO_LINUX_SINK,
            Platform::Other => "Unsupported platform for native handle sink",
        };
        SinkAttempt::GiveUp(AppError::GStreamer(String::from_str(text)))
    }
}

/// How a sink is told which window to draw into.
#[derive(Debug, Clone, Copy, PartialEq, Eq, Structural)]
pub enum HandleRoute {
    /// Through the sink's video overlay interface.
    Overlay,
    /// Through the sink's `window-handle` property.
    Property,
    /// The sink cannot be bound to a window.
    Unsupported,
}

/// Chooses how a sink is given its window: the overlay interface where the
/// sink has it, else the `window-handle` property where it has that.
pub fn set_window_handle_overlay(has_overlay: bool, has_property: bool) -> (route: HandleRoute)
    ensures
        has_overlay ==> route == HandleRoute::Overlay,
        !has_overlay && has_property ==> route == HandleRoute::Property,
        !has_overlay && !has_property ==> route == HandleRoute::Unsupported,
{
    if has_overlay {
        HandleRoute::Overlay
    } else if has_property {
        HandleRoute::Property
    } else {
        HandleRoute::Unsupported
    }
}

/// The sink used where no native handle is at hand: the one that picks a
/// window of its own.
pub fn create_fallback_sink() -> (sink: SinkFactory)
    ensures
        sink == SinkFactory::AutoVideoSink,
{
    SinkFactory::AutoVideoSink
}

} // verus!
