use desktop_automation::image::Image;
use desktop_automation::native_api::x11_backend::{
    capture_window_image, enumerate_windows, get_window_rect, get_window_title,
    is_window_focused, wants_name, x11_api_thread_step, ChildWindow, MapState, Rect,
    WindowHandle, X11ApiCaptureWindowImageError, X11ApiCommand, X11ApiEnumerateWindowsError,
    X11ApiError, X11ApiGetWindowRectError, X11ApiGetWindowTitleError,
    X11ApiIsWindowFocusedError, X11ApiResponse, X11SendCommandToApiThreadError, X11WorkerStep,
};
use desktop_automation::window::x11_backend::{
    X11NativeWindowAllWindowsError, X11NativeWindowCaptureImageError,
    X11NativeWindowHeightError, X11NativeWindowIsFocusedError, X11NativeWindowTitleError,
    X11NativeWindowWidthError, X11NativeWindowXError, X11NativeWindowYError, X11Window,
};

fn child(window: u32, map_state: Option<MapState>, name: Option<&[u8]>) -> ChildWindow {
    ChildWindow { window, map_state, name: name.map(|n| n.to_vec()) }
}

#[test]
fn x11_handle_keeps_the_window_id() {
    let handle = WindowHandle::new(0x0040_0007);
    assert_eq!(handle.as_window(), 0x0040_0007);
    assert_eq!(handle, WindowHandle(0x0040_0007));
    assert_ne!(handle, WindowHandle::new(1));
}

#[test]
fn x11_worker_serves_until_shutdown() {
    let handle = WindowHandle::new(9);
    for command in [
        X11ApiCommand::EnumerateWindows,
        X11ApiCommand::GetWindowTitle(handle),
        X11ApiCommand::GetWindowRect(handle),
        X11ApiCommand::IsWindowFocused(handle),
        X11ApiCommand::CaptureWindowImage(handle),
    ] {
        let step = x11_api_thread_step(Some(command));
        assert_eq!(step, X11WorkerStep::Serve(command));
        assert!(step.continues());
    }
    let last = x11_api_thread_step(Some(X11ApiCommand::Shutdown));
    assert_eq!(last, X11WorkerStep::Acknowledge);
    assert!(!last.continues());
}

#[test]
fn x11_worker_stops_on_a_closed_channel() {
    let step = x11_api_thread_step(None);
    assert_eq!(step, X11WorkerStep::Stop);
    assert!(!step.continues());
}

#[test]
fn x11_responses_wrap_results_and_errors() {
    let handles = vec![WindowHandle::new(1), WindowHandle::new(2)];
    assert_eq!(
        X11ApiResponse::window_list(Ok(handles.clone())),
        X11ApiResponse::WindowList(handles)
    );
    let failed = X11ApiEnumerateWindowsError::QueryTreeReplyError("gone".to_string());
    assert_eq!(
        X11ApiResponse::window_list(Err(failed.clone())),
        X11ApiResponse::Error(X11ApiError::EnumerateWindows(failed))
    );
    assert_eq!(
        X11ApiResponse::window_title(Ok("editor".to_string())),
        X11ApiResponse::WindowTitle("editor".to_string())
    );
    let failed = X11ApiGetWindowTitleError::GetPropertyConnectionError("io".to_string());
    assert_eq!(
        X11ApiResponse::window_title(Err(failed.clone())),
        X11ApiResponse::Error(X11ApiError::GetWindowTitle(failed))
    );
    let rect = Rect { left: 1, top: 2, right: 3, bottom: 4 };
    assert_eq!(X11ApiResponse::window_rect(Ok(rect)), X11ApiResponse::WindowRect(rect));
    let failed = X11ApiGetWindowRectError::ReplyError("bad window".to_string());
    assert_eq!(
        X11ApiResponse::window_rect(Err(failed.clone())),
        X11ApiResponse::Error(X11ApiError::GetWindowRect(failed))
    );
    assert_eq!(X11ApiResponse::window_focused(Ok(true)), X11ApiResponse::WindowFocused(true));
    let failed = X11ApiIsWindowFocusedError::Generic("?".to_string());
    assert_eq!(
        X11ApiResponse::window_focused(Err(failed.clone())),
        X11ApiResponse::Error(X11ApiError::IsWindowFocused(failed))
    );
    let image = Image::from_raw(1, 1, vec![1, 2, 3, 4]).unwrap();
    assert_eq!(
        X11ApiResponse::window_image(Ok(image.clone())),
        X11ApiResponse::WindowImage(image)
    );
    assert_eq!(
        X11ApiResponse::window_image(Err(X11ApiCaptureWindowImageError::InvalidBitmap)),
        X11ApiResponse::Error(X11ApiError::CaptureWindowImage(
            X11ApiCaptureWindowImageError::InvalidBitmap
        ))
    );
}

#[test]
fn x11_name_is_asked_of_viewable_windows_only() {
    assert!(wants_name(Some(MapState::Viewable)));
    assert!(!wants_name(Some(MapState::Unviewable)));
    assert!(!wants_name(Some(MapState::Unmapped)));
    assert!(!wants_name(None));
}

#[test]
fn x11_enumeration_lists_viewable_named_windows_in_order() {
    let children = vec![
        child(10, Some(MapState::Viewable), Some(b"terminal")),
        child(11, Some(MapState::Unmapped), Some(b"hidden")),
        child(12, Some(MapState::Viewable), Some(b"")),
        child(13, None, Some(b"unknown")),
        child(14, Some(MapState::Viewable), None),
        child(15, Some(MapState::Unviewable), Some(b"covered")),
        child(16, Some(MapState::Viewable), Some(b"x")),
        child(10, Some(MapState::Viewable), Some(b"again")),
    ];
    assert_eq!(
        enumerate_windows(&children),
        vec![WindowHandle::new(10), WindowHandle::new(16), WindowHandle::new(10)]
    );
    assert_eq!(enumerate_windows(&Vec::new()), vec![]);
}

#[test]
fn x11_title_is_decoded_from_utf8() {
    assert_eq!(get_window_title(b"plain".to_vec()), "plain");
    assert_eq!(get_window_title("caf\u{e9} \u{2603}".as_bytes().to_vec()), "caf\u{e9} \u{2603}");
    assert_eq!(get_window_title(vec![0x61, 0x62]), "ab");
}

#[test]
fn x11_title_without_text_is_empty() {
    assert_eq!(get_window_title(Vec::new()), "");
    assert_eq!(get_window_title(vec![0xFF, 0xFE, 0x41]), "");
    assert_eq!(get_window_title(vec![0x61, 0xC3]), "");
}

#[test]
fn x11_rect_adds_the_size_to_the_corner() {
    assert_eq!(
        get_window_rect(100, 50, 640, 480),
        Rect { left: 100, top: 50, right: 740, bottom: 530 }
    );
    assert_eq!(
        get_window_rect(-20, -10, 5, 5),
        Rect { left: -20, top: -10, right: -15, bottom: -5 }
    );
    assert_eq!(
        get_window_rect(i16::MAX, i16::MIN, u16::MAX, u16::MAX),
        Rect { left: 32767, top: -32768, right: 98302, bottom: 32767 }
    );
}

#[test]
fn x11_focus_is_the_window_itself() {
    assert!(is_window_focused(77, WindowHandle::new(77)));
    assert!(!is_window_focused(78, WindowHandle::new(77)));
    assert!(!is_window_focused(0, WindowHandle::new(77)));
}

#[test]
fn x11_capture_turns_bgra_into_rgba() {
    let image = capture_window_image(1, 2, vec![3, 2, 1, 4, 30, 20, 10, 40]).unwrap();
    assert_eq!(image.width(), 1);
    assert_eq!(image.height(), 2);
    assert_eq!(image.get_pixel_rgba_sync(0, 0), Ok(0x0102_0304));
    assert_eq!(image.get_pixel_rgba_sync(0, 1), Ok(0x0A14_1E28));
}

#[test]
fn x11_capture_of_short_data_is_no_image() {
    assert_eq!(
        capture_window_image(2, 2, vec![0; 15]),
        Err(X11ApiCaptureWindowImageError::InvalidBitmap)
    );
    assert_eq!(
        capture_window_image(u16::MAX, u16::MAX, Vec::new()),
        Err(X11ApiCaptureWindowImageError::InvalidBitmap)
    );
    assert!(capture_window_image(0, 0, Vec::new()).is_ok());
}

#[test]
fn x11_window_names_its_requests() {
    let handle = WindowHandle::new(5);
    let window = X11Window::new(handle);
    assert_eq!(window.handle, handle);
    assert_eq!(X11Window::all_windows_command(), X11ApiCommand::EnumerateWindows);
    assert_eq!(window.title_command(), X11ApiCommand::GetWindowTitle(handle));
    assert_eq!(window.rect_command(), X11ApiCommand::GetWindowRect(handle));
    assert_eq!(window.is_focused_command(), X11ApiCommand::IsWindowFocused(handle));
    assert_eq!(window.capture_image_command(), X11ApiCommand::CaptureWindowImage(handle));
}

#[test]
fn x11_window_reads_the_expected_reply() {
    let rect = Rect { left: -5, top: 7, right: 95, bottom: 57 };
    assert_eq!(X11Window::title(Ok(X11ApiResponse::WindowTitle("t".to_string()))), Ok("t".to_string()));
    assert_eq!(X11Window::x(Ok(X11ApiResponse::WindowRect(rect))), Ok(-5));
    assert_eq!(X11Window::y(Ok(X11ApiResponse::WindowRect(rect))), Ok(7));
    assert_eq!(X11Window::width(Ok(X11ApiResponse::WindowRect(rect))), Ok(100));
    assert_eq!(X11Window::height(Ok(X11ApiResponse::WindowRect(rect))), Ok(50));
    assert_eq!(X11Window::is_focused(Ok(X11ApiResponse::WindowFocused(false))), Ok(false));
    let image = Image::from_raw(1, 1, vec![9, 8, 7, 6]).unwrap();
    assert_eq!(
        X11Window::capture_image(Ok(X11ApiResponse::WindowImage(image.clone()))),
        Ok(image)
    );
    assert_eq!(
        X11Window::all_windows(Ok(X11ApiResponse::WindowList(vec![
            WindowHandle::new(3),
            WindowHandle::new(1)
        ]))),
        Ok(vec![X11Window::new(WindowHandle::new(3)), X11Window::new(WindowHandle::new(1))])
    );
}

#[test]
fn x11_window_passes_the_worker_error_on() {
    let title = X11ApiGetWindowTitleError::GetPropertyReplyError("BadWindow".to_string());
    assert_eq!(
        X11Window::title(Ok(X11ApiResponse::Error(X11ApiError::GetWindowTitle(title.clone())))),
        Err(X11NativeWindowTitleError::GetWindowTitleError(title))
    );
    let rect = X11ApiGetWindowRectError::ConnectionError("closed".to_string());
    let reply = || Ok(X11ApiResponse::Error(X11ApiError::GetWindowRect(rect.clone())));
    assert_eq!(X11Window::x(reply()), Err(X11NativeWindowXError::GetWindowRectError(rect.clone())));
    assert_eq!(X11Window::y(reply()), Err(X11NativeWindowYError::GetWindowRectError(rect.clone())));
    assert_eq!(
        X11Window::width(reply()),
        Err(X11NativeWindowWidthError::GetWindowRectError(rect.clone()))
    );
    assert_eq!(
        X11Window::height(reply()),
        Err(X11NativeWindowHeightError::GetWindowRectError(rect.clone()))
    );
    let focus = X11ApiIsWindowFocusedError::ReplyError("r".to_string());
    assert_eq!(
        X11Window::is_focused(Ok(X11ApiResponse::Error(X11ApiError::IsWindowFocused(
            focus.clone()
        )))),
        Err(X11NativeWindowIsFocusedError::IsWindowFocusedError(focus))
    );
    assert_eq!(
        X11Window::capture_image(Ok(X11ApiResponse::Error(X11ApiError::CaptureWindowImage(
            X11ApiCaptureWindowImageError::InvalidBitmap
        )))),
        Err(X11NativeWindowCaptureImageError::CaptureWindowImageError(
            X11ApiCaptureWindowImageError::InvalidBitmap
        ))
    );
    let list = X11ApiEnumerateWindowsError::Generic("g".to_string());
    assert_eq!(
        X11Window::all_windows(Ok(X11ApiResponse::Error(X11ApiError::EnumerateWindows(
            list.clone()
        )))),
        Err(X11NativeWindowAllWindowsError::EnumerateWindowsError(list))
    );
}

#[test]
fn x11_window_refuses_a_reply_of_another_kind() {
    assert_eq!(
        X11Window::title(Ok(X11ApiResponse::WindowFocused(true))),
        Err(X11NativeWindowTitleError::UnexpectedResponse)
    );
    assert_eq!(
        X11Window::title(Ok(X11ApiResponse::Error(X11ApiError::GetWindowRect(
            X11ApiGetWindowRectError::Generic("g".to_string())
        )))),
        Err(X11NativeWindowTitleError::UnexpectedResponse)
    );
    assert_eq!(
        X11Window::x(Ok(X11ApiResponse::Acknowledgement)),
        Err(X11NativeWindowXError::UnexpectedResponse)
    );
    assert_eq!(
        X11Window::y(Ok(X11ApiResponse::WindowTitle("t".to_string()))),
        Err(X11NativeWindowYError::UnexpectedResponse)
    );
    assert_eq!(
        X11Window::width(Ok(X11ApiResponse::WindowList(Vec::new()))),
        Err(X11NativeWindowWidthError::UnexpectedResponse)
    );
    assert_eq!(
        X11Window::height(Ok(X11ApiResponse::WindowFocused(false))),
        Err(X11NativeWindowHeightError::UnexpectedResponse)
    );
    assert_eq!(
        X11Window::is_focused(Ok(X11ApiResponse::Acknowledgement)),
        Err(X11NativeWindowIsFocusedError::UnexpectedResponse)
    );
    assert_eq!(
        X11Window::capture_image(Ok(X11ApiResponse::WindowRect(Rect {
            left: 0,
            top: 0,
            right: 0,
            bottom: 0
        }))),
        Err(X11NativeWindowCaptureImageError::UnexpectedResponse)
    );
    assert_eq!(
        X11Window::all_windows(Ok(X11ApiResponse::Acknowledgement)),
        Err(X11NativeWindowAllWindowsError::UnexpectedResponse)
    );
}

#[test]
fn x11_window_reports_a_lost_round_trip() {
    assert_eq!(
        X11Window::title(Err(X11SendCommandToApiThreadError::Send)),
        Err(X11NativeWindowTitleError::ApiError(X11SendCommandToApiThreadError::Send))
    );
    assert_eq!(
        X11Window::x(Err(X11SendCommandToApiThreadError::Receive)),
        Err(X11NativeWindowXError::ApiError(X11SendCommandToApiThreadError::Receive))
    );
    assert_eq!(
        X11Window::y(Err(X11SendCommandToApiThreadError::Send)),
        Err(X11NativeWindowYError::ApiError(X11SendCommandToApiThreadError::Send))
    );
    assert_eq!(
        X11Window::width(Err(X11SendCommandToApiThreadError::Send)),
        Err(X11NativeWindowWidthError::ApiError(X11SendCommandToApiThreadError::Send))
    );
    assert_eq!(
        X11Window::height(Err(X11SendCommandToApiThreadError::Receive)),
        Err(X11NativeWindowHeightError::ApiError(X11SendCommandToApiThreadError::Receive))
    );
    assert_eq!(
        X11Window::is_focused(Err(X11SendCommandToApiThreadError::Receive)),
        Err(X11NativeWindowIsFocusedError::ApiError(X11SendCommandToApiThreadError::Receive))
    );
    assert_eq!(
        X11Window::capture_image(Err(X11SendCommandToApiThreadError::Send)),
        Err(X11NativeWindowCaptureImageError::ApiError(X11SendCommandToApiThreadError::Send))
    );
    assert_eq!(
        X11Window::all_windows(Err(X11SendCommandToApiThreadError::Receive)),
        Err(X11NativeWindowAllWindowsError::ApiError(X11SendCommandToApiThreadError::Receive))
    );
}

#[test]
fn x11_window_side_wraps_where_the_rectangle_is_reversed() {
    let rect = Rect { left: 10, top: 0, right: 4, bottom: -1 };
    assert_eq!(X11Window::width(Ok(X11ApiResponse::WindowRect(rect))), Ok(u32::MAX - 5));
    assert_eq!(X11Window::height(Ok(X11ApiResponse::WindowRect(rect))), Ok(u32::MAX));
    let widest = Rect { left: i32::MIN, top: 0, right: i32::MAX, bottom: 0 };
    assert_eq!(X11Window::width(Ok(X11ApiResponse::WindowRect(widest))), Ok(u32::MAX));
    assert_eq!(X11Window::height(Ok(X11ApiResponse::WindowRect(widest))), Ok(0));
}
