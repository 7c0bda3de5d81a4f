//! Windows reached through the X11 worker.
//!
//! Every question to a window is one request to the worker and one reply.
//! The functions here name the request and read the reply; the round trip
//! itself is the caller's. A reply of a kind that the request cannot have
//! caused shows as `UnexpectedResponse`: the sign of a defect, not of a
//! window gone stale.

use vstd::prelude::*;
use crate::image::Image;
use crate::window::{extent, side_length};
use crate::native_api::x11_backend::{
    WindowHandle, X11ApiCaptureWindowImageError, X11ApiCommand,
    X11ApiEnumerateWindowsError, X11ApiError, X11ApiGetWindowRectError,
    X11ApiGetWindowTitleError, X11ApiIsWindowFocusedError, X11ApiReply, X11ApiResponse,
    X11SendCommandToApiThreadError,
};
use crate::native_api::x11_backend::Rect;

verus! {

#[derive(Clone, Debug, PartialEq, Eq)]
pub enum X11NativeWindowTitleError {
    ApiError(X11SendCommandToApiThreadError),
    GetWindowTitleError(X11ApiGetWindowTitleError),
    UnexpectedResponse,
}

#[derive(Clone, Debug, PartialEq, Eq)]
pub enum X11NativeWindowXError {
    ApiError(X11SendCommandToApiThreadError),
    GetWindowRectError(X11ApiGetWindowRectError),
    UnexpectedResponse,
}

#[derive(Clone, Debug, PartialEq, Eq)]
pub enum X11NativeWindowYError {
    ApiError(X11SendCommandToApiThreadError),
    GetWindowRectError(X11ApiGetWindowRectError),
    UnexpectedResponse,
}

#[derive(Clone, Debug, PartialEq, Eq)]
pub enum X11NativeWindowWidthError {
    ApiError(X11SendCommandToApiThreadError),
    GetWindowRectError(X11ApiGetWindowRectError),
    UnexpectedResponse,
}

#[derive(Clone, Debug, PartialEq, Eq)]
pub enum X11NativeWindowHeightError {
    ApiError(X11SendCommandToApiThreadError),
    GetWindowRectError(X11ApiGetWindowRectError),
    UnexpectedResponse,
}

#[derive(Clone, Debug, PartialEq, Eq)]
pub enum X11NativeWindowIsFocusedError {
    ApiError(X11SendCommandToApiThreadError),
    IsWindowFocusedError(X11ApiIsWindowFocusedError),
    UnexpectedResponse,
}

#[derive(Clone, Debug, PartialEq, Eq)]
pub enum X11NativeWindowCaptureImageError {
    ApiError(X11SendCommandToApiThreadError),
    CaptureWindowImageError(X11ApiCaptureWindowImageError),
    UnexpectedResponse,
}

#[derive(Clone, Debug, PartialEq, Eq)]
pub enum X11NativeWindowAllWindowsError {
    ApiError(X11SendCommandToApiThreadError),
    EnumerateWindowsError(X11ApiEnumerateWindowsError),
    UnexpectedResponse,
}

/// A window known to the X server.
#[derive(Clone, Copy, Debug, PartialEq, Eq, Structural)]
pub struct X11Window {
    pub handle: WindowHandle,
}

impl X11Window {
    pub fn new(handle: WindowHandle) -> (window: Self)
        ensures
            window.handle == handle,
    {
        Self { handle }
    }

    /// The request that lists the windows.
    pub fn all_windows_command() -> (command: X11ApiCommand)
        ensures
            command == X11ApiCommand::EnumerateWindows,
    {
        X11ApiCommand::EnumerateWindows
    }

    /// The request for this window's title.
    pub fn title_command(&self) -> (command: X11ApiCommand)
        ensures
            command == X11ApiCommand::GetWindowTitle(self.handle),
    {
        X11ApiCommand::GetWindowTitle(self.handle)
    }

    /// The request for this window's rectangle, which answers `x`, `y`,
    /// `width` and `height`.
    pub fn rect_command(&self) -> (command: X11ApiCommand)
        ensures
            command == X11ApiCommand::GetWindowRect(self.handle),
    {
        X11ApiCommand::GetWindowRect(self.handle)
    }

    /// The request that asks whether this window has the focus.
    pub fn is_focused_command(&self) -> (command: X11ApiCommand)
        ensures
            command == X11ApiCommand::IsWindowFocused(self.handle),
    {
        X11ApiCommand::IsWindowFocused(self.handle)
    }

    /// The request for this window's pixels.
    pub fn capture_image_command(&self) -> (command: X11ApiCommand)
        ensures
            command == X11ApiCommand::CaptureWindowImage(self.handle),
    {
        X11ApiCommand::CaptureWindowImage(self.handle)
    }

    /// The windows that the reply to `EnumerateWindows` lists, in its order.
    pub open spec fn read_all_windows(reply: X11ApiReply) -> Result<
        Seq<X11Window>,
        X11NativeWindowAllWindowsError,
    > {
        match reply {
            Ok(X11ApiResponse::WindowList(handles)) => Ok(
                handles@.map_values(|handle: WindowHandle| X11Window { handle }),
            ),
            Ok(X11ApiResponse::Error(X11ApiError::EnumerateWindows(e))) => Err(
                X11NativeWindowAllWindowsError::EnumerateWindowsError(e),
            ),
            Ok(_) => Err(X11NativeWindowAllWindowsError::UnexpectedResponse),
            Err(e) => Err(X11NativeWindowAllWindowsError::ApiError(e)),
        }
    }

    /// The windows that the reply to `EnumerateWindows` lists, in its order.
    pub fn all_windows(
        reply: X11ApiReply,
    ) -> (windows: Result<Vec<X11Window>, X11NativeWindowAllWindowsError>)
        ensures
            match Self::read_all_windows(reply) {
                Ok(listed) => windows is Ok && windows->Ok_0@ == listed,
                Err(e) => windows == Err::<Vec<X11Window>, X11NativeWindowAllWindowsError>(e),
            },
    {
        match reply {
            Ok(X11ApiResponse::WindowList(handles)) => {
                let mut windows: Vec<X11Window> = Vec::new();
                let mut i: usize = 0;
                while i < handles.len()
                    invariant
                        i <= handles@.len(),
                        windows@ == handles@.take(i as int).map_values(
                            |handle: WindowHandle| X11Window { handle },
                        ),
                    decreases handles@.len() - i,
                {
                    windows.push(X11Window::new(handles[i]));
                    assert(handles@.take(i + 1) =~= handles@.take(i as int).push(
                        handles@[i as int],
                    ));
                    assert(handles@.take(i as int).push(handles@[i as int]).map_values(
                        |handle: WindowHandle| X11Window { handle },
                    ) =~= handles@.take(i as int).map_values(
                        |handle: WindowHandle| X11Window { handle },
                    ).push(X11Window { handle: handles@[i as int] }));
                    i = i + 1;
                }
                assert(handles@.take(i as int) =~= handles@);
                Ok(windows)
            },
            Ok(X11ApiResponse::Error(X11ApiError::EnumerateWindows(e))) => Err(
                X11NativeWindowAllWindowsError::EnumerateWindowsError(e),
            ),
            Ok(_) => Err(X11NativeWindowAllWindowsError::UnexpectedResponse),
            Err(e) => Err(X11NativeWindowAllWindowsError::ApiError(e)),
        }
    }

    /// The title that the reply to `GetWindowTitle` carries.
    pub open spec fn read_title(reply: X11ApiReply) -> Result<String, X11NativeWindowTitleError> {
        match reply {
            Ok(X11ApiResponse::WindowTitle(text)) => Ok(text),
            Ok(X11ApiResponse::Error(X11ApiError::GetWindowTitle(e))) => Err(
                X11NativeWindowTitleError::GetWindowTitleError(e),
            ),
            Ok(_) => Err(X11NativeWindowTitleError::UnexpectedResponse),
            Err(e) => Err(X11NativeWindowTitleError::ApiError(e)),
        }
    }

    /// The left edge that the reply to `GetWindowRect` carries.
    pub open spec fn read_x(reply: X11ApiReply) -> Result<i32, X11NativeWindowXError> {
        match reply {
            Ok(X11ApiResponse::WindowRect(rect)) => Ok(rect.left),
            Ok(X11ApiResponse::Error(X11ApiError::GetWindowRect(e))) => Err(
                X11NativeWindowXError::GetWindowRectError(e),
            ),
            Ok(_) => Err(X11NativeWindowXError::UnexpectedResponse),
            Err(e) => Err(X11NativeWindowXError::ApiError(e)),
        }
    }

    /// The top edge that the reply to `GetWindowRect` carries.
    pub open spec fn read_y(reply: X11ApiReply) -> Result<i32, X11NativeWindowYError> {
        match reply {
            Ok(X11ApiResponse::WindowRect(rect)) => Ok(rect.top),
            Ok(X11ApiResponse::Error(X11ApiError::GetWindowRect(e))) => Err(
                X11NativeWindowYError::GetWindowRectError(e),
            ),
            Ok(_) => Err(X11NativeWindowYError::UnexpectedResponse),
            Err(e) => Err(X11NativeWindowYError::ApiError(e)),
        }
    }

    /// The width of the rectangle that the reply to `GetWindowRect` carries.
    pub open spec fn read_width(reply: X11ApiReply) -> Result<u32, X11NativeWindowWidthError> {
        match reply {
            Ok(X11ApiResponse::WindowRect(rect)) => Ok(extent(rect.left, rect.right)),
            Ok(X11ApiResponse::Error(X11ApiError::GetWindowRect(e))) => Err(
                X11NativeWindowWidthError::GetWindowRectError(e),
            ),
            Ok(_) => Err(X11NativeWindowWidthError::UnexpectedResponse),
            Err(e) => Err(X11NativeWindowWidthError::ApiError(e)),
        }
    }

    /// The height of the rectangle that the reply to `GetWindowRect` carries.
    pub open spec fn read_height(reply: X11ApiReply) -> Result<u32, X11NativeWindowHeightError> {
        match reply {
            Ok(X11ApiResponse::WindowRect(rect)) => Ok(extent(rect.top, rect.bottom)),
            Ok(X11ApiResponse::Error(X11ApiError::GetWindowRect(e))) => Err(
                X11NativeWindowHeightError::GetWindowRectError(e),
            ),
            Ok(_) => Err(X11NativeWindowHeightError::UnexpectedResponse),
            Err(e) => Err(X11NativeWindowHeightError::ApiError(e)),
        }
    }

    /// The answer that the reply to `IsWindowFocused` carries.
    pub open spec fn read_is_focused(reply: X11ApiReply) -> Result<
        bool,
        X11NativeWindowIsFocusedError,
    > {
        match reply {
            Ok(X11ApiResponse::WindowFocused(answer)) => Ok(answer),
            Ok(X11ApiResponse::Error(X11ApiError::IsWindowFocused(e))) => Err(
                X11NativeWindowIsFocusedError::IsWindowFocusedError(e),
            ),
            Ok(_) => Err(X11NativeWindowIsFocusedError::UnexpectedResponse),
            Err(e) => Err(X11NativeWindowIsFocusedError::ApiError(e)),
        }
    }

    /// The image that the reply to `CaptureWindowImage` carries.
    pub open spec fn read_capture_image(reply: X11ApiReply) -> Result<
        Image,
        X11NativeWindowCaptureImageError,
    > {
        match reply {
            Ok(X11ApiResponse::WindowImage(pixels)) => Ok(pixels),
            Ok(X11ApiResponse::Error(X11ApiError::CaptureWindowImage(e))) => Err(
                X11NativeWindowCaptureImageError::CaptureWindowImageError(e),
            ),
            Ok(_) => Err(X11NativeWindowCaptureImageError::UnexpectedResponse),
            Err(e) => Err(X11NativeWindowCaptureImageError::ApiError(e)),
        }
    }

    /// The title that the reply to `GetWindowTitle` carries.
    pub fn title(reply: X11ApiReply) -> (answer: Result<String, X11NativeWindowTitleError>)
        ensures
            answer == Self::read_title(reply),
    {
        match reply {
            Ok(X11ApiResponse::WindowTitle(text)) => Ok(text),
            Ok(X11ApiResponse::Error(X11ApiError::GetWindowTitle(e))) => Err(
                X11NativeWindowTitleError::GetWindowTitleError(e),
            ),
            Ok(_) => Err(X11NativeWindowTitleError::UnexpectedResponse),
            Err(e) => Err(X11NativeWindowTitleError::ApiError(e)),
        }
    }

    /// The left edge that the reply to `GetWindowRect` carries.
    pub fn x(reply: X11ApiReply) -> (answer: Result<i32, X11NativeWindowXError>)
        ensures
            answer == Self::read_x(reply),
    {
        match reply {
            Ok(X11ApiResponse::WindowRect(rect)) => Ok(rect.left),
            Ok(X11ApiResponse::Error(X11ApiError::GetWindowRect(e))) => Err(
                X11NativeWindowXError::GetWindowRectError(e),
            ),
            Ok(_) => Err(X11NativeWindowXError::UnexpectedResponse),
            Err(e) => Err(X11NativeWindowXError::ApiError(e)),
        }
    }

    /// The top edge that the reply to `GetWindowRect` carries.
    pub fn y(reply: X11ApiReply) -> (answer: Result<i32, X11NativeWindowYError>)
        ensures
            answer == Self::read_y(reply),
    {
        match reply {
            Ok(X11ApiResponse::WindowRect(rect)) => Ok(rect.top),
            Ok(X11ApiResponse::Error(X11ApiError::GetWindowRect(e))) => Err(
                X11NativeWindowYError::GetWindowRectError(e),
            ),
            Ok(_) => Err(X11NativeWindowYError::UnexpectedResponse),
            Err(e) => Err(X11NativeWindowYError::ApiError(e)),
        }
    }

    /// The width of the rectangle that the reply to `GetWindowRect` carries.
    pub fn width(reply: X11ApiReply) -> (answer: Result<u32, X11NativeWindowWidthError>)
        ensures
            answer == Self::read_width(reply),
    {
        match reply {
            Ok(X11ApiResponse::WindowRect(rect)) => Ok(side_length(rect.left, rect.right)),
            Ok(X11ApiResponse::Error(X11ApiError::GetWindowRect(e))) => Err(
                X11NativeWindowWidthError::GetWindowRectError(e),
            ),
            Ok(_) => Err(X11NativeWindowWidthError::UnexpectedResponse),
            Err(e) => Err(X11NativeWindowWidthError::ApiError(e)),
        }
    }

    /// The height of the rectangle that the reply to `GetWindowRect` carries.
    pub fn height(reply: X11ApiReply) -> (answer: Result<u32, X11NativeWindowHeightError>)
        ensures
            answer == Self::read_height(reply),
    {
        match reply {
            Ok(X11ApiResponse::WindowRect(rect)) => Ok(side_length(rect.top, rect.bottom)),
            Ok(X11ApiResponse::Error(X11ApiError::GetWindowRect(e))) => Err(
                X11NativeWindowHeightError::GetWindowRectError(e),
            ),
            Ok(_) => Err(X11NativeWindowHeightError::UnexpectedResponse),
            Err(e) => Err(X11NativeWindowHeightError::ApiError(e)),
        }
    }

    /// The answer that the reply to `IsWindowFocused` carries.
    pub fn is_focused(reply: X11ApiReply) -> (answer: Result<bool, X11NativeWindowIsFocusedError>)
        ensures
            answer == Self::read_is_focused(reply),
    {
        match reply {
            Ok(X11ApiResponse::WindowFocused(answer)) => Ok(answer),
            Ok(X11ApiResponse::Error(X11ApiError::IsWindowFocused(e))) => Err(
                X11NativeWindowIsFocusedError::IsWindowFocusedError(e),
            ),
            Ok(_) => Err(X11NativeWindowIsFocusedError::UnexpectedResponse),
            Err(e) => Err(X11NativeWindowIsFocusedError::ApiError(e)),
        }
    }

    /// The image that the reply to `CaptureWindowImage` carries.
    pub fn capture_image(reply: X11ApiReply) -> (answer: Result<
        Image,
        X11NativeWindowCaptureImageError,
    >)
        ensures
            answer == Self::read_capture_image(reply),
    {
        match reply {
            Ok(X11ApiResponse::WindowImage(pixels)) => Ok(pixels),
            Ok(X11ApiResponse::Error(X11ApiError::CaptureWindowImage(e))) => Err(
                X11NativeWindowCaptureImageError::CaptureWindowImageError(e),
            ),
            Ok(_) => Err(X11NativeWindowCaptureImageError::UnexpectedResponse),
            Err(e) => Err(X11NativeWindowCaptureImageError::ApiError(e)),
        }
    }
}

/// The worker's answer to a request is of the kind that the request
/// expects, whatever the native call gave: read by the window that asked, it
/// is the result or the worker's error, and never `UnexpectedResponse`.
pub proof fn lemma_answers_are_expected(
    list: Result<Vec<WindowHandle>, X11ApiEnumerateWindowsError>,
    title: Result<String, X11ApiGetWindowTitleError>,
    rect: Result<Rect, X11ApiGetWindowRectError>,
    focused: Result<bool, X11ApiIsWindowFocusedError>,
    image: Result<Image, X11ApiCaptureWindowImageError>,
)
    ensures
        X11Window::read_all_windows(Ok(X11ApiResponse::for_window_list(list)))
            != Err::<Seq<X11Window>, X11NativeWindowAllWindowsError>(
            X11NativeWindowAllWindowsError::UnexpectedResponse,
        ),
        X11Window::read_title(Ok(X11ApiResponse::for_window_title(title))) == match title {
            Ok(text) => Ok::<String, X11NativeWindowTitleError>(text),
            Err(e) => Err(X11NativeWindowTitleError::GetWindowTitleError(e)),
        },
        X11Window::read_x(Ok(X11ApiResponse::for_window_rect(rect))) == match rect {
            Ok(r) => Ok::<i32, X11NativeWindowXError>(r.left),
            Err(e) => Err(X11NativeWindowXError::GetWindowRectError(e)),
        },
        X11Window::read_y(Ok(X11ApiResponse::for_window_rect(rect))) == match rect {
            Ok(r) => Ok::<i32, X11NativeWindowYError>(r.top),
            Err(e) => Err(X11NativeWindowYError::GetWindowRectError(e)),
        },
        X11Window::read_width(Ok(X11ApiResponse::for_window_rect(rect))) == match rect {
            Ok(r) => Ok::<u32, X11NativeWindowWidthError>(extent(r.left, r.right)),
            Err(e) => Err(X11NativeWindowWidthError::GetWindowRectError(e)),
        },
        X11Window::read_height(Ok(X11ApiResponse::for_window_rect(rect))) == match rect {
            Ok(r) => Ok::<u32, X11NativeWindowHeightError>(extent(r.top, r.bottom)),
            Err(e) => Err(X11NativeWindowHeightError::GetWindowRectError(e)),
        },
        X11Window::read_is_focused(Ok(X11ApiResponse::for_window_focused(focused)))
            == match focused {
            Ok(answer) => Ok::<bool, X11NativeWindowIsFocusedError>(answer),
            Err(e) => Err(X11NativeWindowIsFocusedError::IsWindowFocusedError(e)),
        },
        X11Window::read_capture_image(Ok(X11ApiResponse::for_window_image(image)))
            == match image {
            Ok(pixels) => Ok::<Image, X11NativeWindowCaptureImageError>(pixels),
            Err(e) => Err(X11NativeWindowCaptureImageError::CaptureWindowImageError(e)),
        },
{
}

} // verus!
