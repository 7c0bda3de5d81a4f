//! Windows reached through the Windows worker.
//!
//! Every question to a window is one request to the worker and one reply.
//! The functions here name the request and read the reply; the round trip
//! itself is the caller's. A reply of a kind that the request cannot have
//! caused shows as `UnexpectedResponse`: the sign of a defect, not of a
//! window gone stale.

use vstd::prelude::*;
use crate::image::Image;
use crate::window::{extent, side_length};
use crate::native_api::windows_backend::{
    WindowHandle, WindowsApiCaptureWindowImageError, WindowsApiCommand,
    WindowsApiEnumerateWindowsError, WindowsApiError, WindowsApiGetWindowRectError,
    WindowsApiReply, WindowsApiResponse, WindowsSendCommandToApiThreadError,
};
use crate::native_api::x11_backend::Rect;

verus! {

#[derive(Clone, Copy, Debug, PartialEq, Eq, Structural)]
pub enum WindowsNativeWindowTitleError {
    UnexpectedResponse,
    ApiError(WindowsSendCommandToApiThreadError),
}

#[derive(Clone, Copy, Debug, PartialEq, Eq, Structural)]
pub enum WindowsNativeWindowXError {
    ApiError(WindowsSendCommandToApiThreadError),
    GetRectError(WindowsApiGetWindowRectError),
    UnexpectedResponse,
}

#[derive(Clone, Copy, Debug, PartialEq, Eq, Structural)]
pub enum WindowsNativeWindowYError {
    ApiError(WindowsSendCommandToApiThreadError),
    GetRectError(WindowsApiGetWindowRectError),
    UnexpectedResponse,
}

#[derive(Clone, Copy, Debug, PartialEq, Eq, Structural)]
pub enum WindowsNativeWindowWidthError {
    ApiError(WindowsSendCommandToApiThreadError),
    GetRectError(WindowsApiGetWindowRectError),
    UnexpectedResponse,
}

#[derive(Clone, Copy, Debug, PartialEq, Eq, Structural)]
pub enum WindowsNativeWindowHeightError {
    ApiError(WindowsSendCommandToApiThreadError),
    GetRectError(WindowsApiGetWindowRectError),
    UnexpectedResponse,
}

#[derive(Clone, Copy, Debug, PartialEq, Eq, Structural)]
pub enum WindowsNativeWindowIsFocusedError {
    UnexpectedResponse,
    ApiError(WindowsSendCommandToApiThreadError),
}

#[derive(Clone, Copy, Debug, PartialEq, Eq, Structural)]
pub enum WindowsNativeWindowCaptureImageError {
    ApiError(WindowsSendCommandToApiThreadError),
    CaptureImageError(WindowsApiCaptureWindowImageError),
    UnexpectedResponse,
}

#[derive(Clone, Copy, Debug, PartialEq, Eq, Structural)]
pub enum WindowsNativeWindowAllWindowsError {
    ApiError(WindowsSendCommandToApiThreadError),
    EnumerateWindowsError(WindowsApiEnumerateWindowsError),
    UnexpectedResponse,
}

/// A window known to the system.
#[derive(Clone, Copy, Debug, PartialEq, Eq, Structural)]
pub struct WindowsWindow {
    pub handle: WindowHandle,
}

impl WindowsWindow {
    pub fn new(handle: WindowHandle) -> (window: Self)
        ensures
            window.handle == handle,
    {
        Self { handle }
    }

    /// The request that lists the windows.
    pub fn all_windows_command() -> (command: WindowsApiCommand)
        ensures
            command == WindowsApiCommand::EnumerateWindows,
    {
        WindowsApiCommand::EnumerateWindows
    }

    /// The request for this window's title.
    pub fn title_command(&self) -> (command: WindowsApiCommand)
        ensures
            command == WindowsApiCommand::GetWindowTitle(self.handle),
    {
        WindowsApiCommand::GetWindowTitle(self.handle)
    }

    /// The request for this window's rectangle, which answers `x`, `y`,
    /// `width` and `height`.
    pub fn rect_command(&self) -> (command: WindowsApiCommand)
        ensures
            command == WindowsApiCommand::GetWindowRect(self.handle),
    {
        WindowsApiCommand::GetWindowRect(self.handle)
    }

    /// The request that asks whether this window has the focus.
    pub fn is_focused_command(&self) -> (command: WindowsApiCommand)
        ensures
            command == WindowsApiCommand::IsWindowFocused(self.handle),
    {
        WindowsApiCommand::IsWindowFocused(self.handle)
    }

    /// The request for this window's pixels.
    pub fn capture_image_command(&self) -> (command: WindowsApiCommand)
        ensures
            command == WindowsApiCommand::CaptureWindowImage(self.handle),
    {
        WindowsApiCommand::CaptureWindowImage(self.handle)
    }

    /// The windows that the reply to `EnumerateWindows` lists, in its order.
    pub open spec fn read_all_windows(reply: WindowsApiReply) -> Result<
        Seq<WindowsWindow>,
        WindowsNativeWindowAllWindowsError,
    > {
        match reply {
            Ok(WindowsApiResponse::WindowList(handles)) => Ok(
                handles@.map_values(|handle: WindowHandle| WindowsWindow { handle }),
            ),
            Ok(WindowsApiResponse::Error(WindowsApiError::EnumerateWindows(e))) => Err(
                WindowsNativeWindowAllWindowsError::EnumerateWindowsError(e),
            ),
            Ok(_) => Err(WindowsNativeWindowAllWindowsError::UnexpectedResponse),
            Err(e) => Err(WindowsNativeWindowAllWindowsError::ApiError(e)),
        }
    }

    /// The windows that the reply to `EnumerateWindows` lists, in its order.
    pub fn all_windows(
        reply: WindowsApiReply,
    ) -> (windows: Result<Vec<WindowsWindow>, WindowsNativeWindowAllWindowsError>)
        ensures
            match Self::read_all_windows(reply) {
                Ok(listed) => windows is Ok && windows->Ok_0@ == listed,
                Err(e) => windows == Err::<
                    Vec<WindowsWindow>,
                    WindowsNativeWindowAllWindowsError,
                >(e),
            },
    {
        match reply {
            Ok(WindowsApiResponse::WindowList(handles)) => {
                let mut windows: Vec<WindowsWindow> = Vec::new();
                let mut i: usize = 0;
                while i < handles.len()
                    invariant
                        i <= handles@.len(),
                        windows@ == handles@.take(i as int).map_values(
                            |handle: WindowHandle| WindowsWindow { handle },
                        ),
                    decreases handles@.len() - i,
                {
                    windows.push(WindowsWindow::new(handles[i]));
                    assert(handles@.take(i + 1) =~= handles@.take(i as int).push(
                        handles@[i as int],
                    ));
                    assert(handles@.take(i as int).push(handles@[i as int]).map_values(
                        |handle: WindowHandle| WindowsWindow { handle },
                    ) =~= handles@.take(i as int).map_values(
                        |handle: WindowHandle| WindowsWindow { handle },
                    ).push(WindowsWindow { handle: handles@[i as int] }));
                    i = i + 1;
                }
                assert(handles@.take(i as int) =~= handles@);
                Ok(windows)
            },
            Ok(WindowsApiResponse::Error(WindowsApiError::EnumerateWindows(e))) => Err(
                WindowsNativeWindowAllWindowsError::EnumerateWindowsError(e),
            ),
            Ok(_) => Err(WindowsNativeWindowAllWindowsError::UnexpectedResponse),
            Err(e) => Err(WindowsNativeWindowAllWindowsError::ApiError(e)),
        }
    }

    /// The title that the reply to `GetWindowTitle` carries.
    pub open spec fn read_title(reply: WindowsApiReply) -> Result<
        String,
        WindowsNativeWindowTitleError,
    > {
        match reply {
            Ok(WindowsApiResponse::WindowTitle(text)) => Ok(text),
            Ok(_) => Err(WindowsNativeWindowTitleError::UnexpectedResponse),
            Err(e) => Err(WindowsNativeWindowTitleError::ApiError(e)),
        }
    }

    /// The left edge that the reply to `GetWindowRect` carries.
    pub open spec fn read_x(reply: WindowsApiReply) -> Result<i32, WindowsNativeWindowXError> {
        match reply {
            Ok(WindowsApiResponse::WindowRect(rect)) => Ok(rect.left),
            Ok(WindowsApiResponse::Error(WindowsApiError::GetWindowRect(e))) => Err(
                WindowsNativeWindowXError::GetRectError(e),
            ),
            Ok(_) => Err(WindowsNativeWindowXError::UnexpectedResponse),
            Err(e) => Err(WindowsNativeWindowXError::ApiError(e)),
        }
    }

    /// The top edge that the reply to `GetWindowRect` carries.
    pub open spec fn read_y(reply: WindowsApiReply) -> Result<i32, WindowsNativeWindowYError> {
        match reply {
            Ok(WindowsApiResponse::WindowRect(rect)) => Ok(rect.top),
            Ok(WindowsApiResponse::Error(WindowsApiError::GetWindowRect(e))) => Err(
                WindowsNativeWindowYError::GetRectError(e),
            ),
            Ok(_) => Err(WindowsNativeWindowYError::UnexpectedResponse),
            Err(e) => Err(WindowsNativeWindowYError::ApiError(e)),
        }
    }

    /// The width of the rectangle that the reply to `GetWindowRect` carries.
    pub open spec fn read_width(reply: WindowsApiReply) -> Result<
        u32,
        WindowsNativeWindowWidthError,
    > {
        match reply {
            Ok(WindowsApiResponse::WindowRect(rect)) => Ok(extent(rect.left, rect.right)),
            Ok(WindowsApiResponse::Error(WindowsApiError::GetWindowRect(e))) => Err(
                WindowsNativeWindowWidthError::GetRectError(e),
            ),
            Ok(_) => Err(WindowsNativeWindowWidthError::UnexpectedResponse),
            Err(e) => Err(WindowsNativeWindowWidthError::ApiError(e)),
        }
    }

    /// The height of the rectangle that the reply to `GetWindowRect` carries.
    pub open spec fn read_height(reply: WindowsApiReply) -> Result<
        u32,
        WindowsNativeWindowHeightError,
    > {
        match reply {
            Ok(WindowsApiResponse::WindowRect(rect)) => Ok(extent(rect.top, rect.bottom)),
            Ok(WindowsApiResponse::Error(WindowsApiError::GetWindowRect(e))) => Err(
                WindowsNativeWindowHeightError::GetRectError(e),
            ),
            Ok(_) => Err(WindowsNativeWindowHeightError::UnexpectedResponse),
            Err(e) => Err(WindowsNativeWindowHeightError::ApiError(e)),
        }
    }

    /// The answer that the reply to `IsWindowFocused` carries.
    pub open spec fn read_is_focused(reply: WindowsApiReply) -> Result<
        bool,
        WindowsNativeWindowIsFocusedError,
    > {
        match reply {
            Ok(WindowsApiResponse::WindowFocused(answer)) => Ok(answer),
            Ok(_) => Err(WindowsNativeWindowIsFocusedError::UnexpectedResponse),
            Err(e) => Err(WindowsNativeWindowIsFocusedError::ApiError(e)),
        }
    }

    /// The image that the reply to `CaptureWindowImage` carries.
    pub open spec fn read_capture_image(reply: WindowsApiReply) -> Result<
        Image,
        WindowsNativeWindowCaptureImageError,
    > {
        match reply {
            Ok(WindowsApiResponse::WindowImage(pixels)) => Ok(pixels),
            Ok(WindowsApiResponse::Error(WindowsApiError::CaptureWindowImage(e))) => Err(
                WindowsNativeWindowCaptureImageError::CaptureImageError(e),
            ),
            Ok(_) => Err(WindowsNativeWindowCaptureImageError::UnexpectedResponse),
            Err(e) => Err(WindowsNativeWindowCaptureImageError::ApiError(e)),
        }
    }

    /// The title that the reply to `GetWindowTitle` carries.
    pub fn title(reply: WindowsApiReply) -> (answer: Result<String, WindowsNativeWindowTitleError>)
        ensures
            answer == Self::read_title(reply),
    {
        match reply {
            Ok(WindowsApiResponse::WindowTitle(text)) => Ok(text),
            Ok(_) => Err(WindowsNativeWindowTitleError::UnexpectedResponse),
            Err(e) => Err(WindowsNativeWindowTitleError::ApiError(e)),
        }
    }

    /// The left edge that the reply to `GetWindowRect` carries.
    pub fn x(reply: WindowsApiReply) -> (answer: Result<i32, WindowsNativeWindowXError>)
        ensures
            answer == Self::read_x(reply),
    {
        match reply {
            Ok(WindowsApiResponse::WindowRect(rect)) => Ok(rect.left),
            Ok(WindowsApiResponse::Error(WindowsApiError::GetWindowRect(e))) => Err(
                WindowsNativeWindowXError::GetRectError(e),
            ),
            Ok(_) => Err(WindowsNativeWindowXError::UnexpectedResponse),
            Err(e) => Err(WindowsNativeWindowXError::ApiError(e)),
        }
    }

    /// The top edge that the reply to `GetWindowRect` carries.
    pub fn y(reply: WindowsApiReply) -> (answer: Result<i32, WindowsNativeWindowYError>)
        ensures
            answer == Self::read_y(reply),
    {
        match reply {
            Ok(WindowsApiResponse::WindowRect(rect)) => Ok(rect.top),
            Ok(WindowsApiResponse::Error(WindowsApiError::GetWindowRect(e))) => Err(
                WindowsNativeWindowYError::GetRectError(e),
            ),
            Ok(_) => Err(WindowsNativeWindowYError::UnexpectedResponse),
            Err(e) => Err(WindowsNativeWindowYError::ApiError(e)),
        }
    }

    /// The width of the rectangle that the reply to `GetWindowRect` carries.
    pub fn width(reply: WindowsApiReply) -> (answer: Result<u32, WindowsNativeWindowWidthError>)
        ensures
            answer == Self::read_width(reply),
    {
        match reply {
            Ok(WindowsApiResponse::WindowRect(rect)) => Ok(side_length(rect.left, rect.right)),
            Ok(WindowsApiResponse::Error(WindowsApiError::GetWindowRect(e))) => Err(
                WindowsNativeWindowWidthError::GetRectError(e),
            ),
            Ok(_) => Err(WindowsNativeWindowWidthError::UnexpectedResponse),
            Err(e) => Err(WindowsNativeWindowWidthError::ApiError(e)),
        }
    }

    /// The height of the rectangle that the reply to `GetWindowRect` carries.
    pub fn height(reply: WindowsApiReply) -> (answer: Result<u32, WindowsNativeWindowHeightError>)
        ensures
            answer == Self::read_height(reply),
    {
        match reply {
            Ok(WindowsApiResponse::WindowRect(rect)) => Ok(side_length(rect.top, rect.bottom)),
            Ok(WindowsApiResponse::Error(WindowsApiError::GetWindowRect(e))) => Err(
                WindowsNativeWindowHeightError::GetRectError(e),
            ),
            Ok(_) => Err(WindowsNativeWindowHeightError::UnexpectedResponse),
            Err(e) => Err(WindowsNativeWindowHeightError::ApiError(e)),
        }
    }

    /// The answer that the reply to `IsWindowFocused` carries.
    pub fn is_focused(reply: WindowsApiReply) -> (answer: Result<
        bool,
        WindowsNativeWindowIsFocusedError,
    >)
        ensures
            answer == Self::read_is_focused(reply),
    {
        match reply {
            Ok(WindowsApiResponse::WindowFocused(answer)) => Ok(answer),
            Ok(_) => Err(WindowsNativeWindowIsFocusedError::UnexpectedResponse),
            Err(e) => Err(WindowsNativeWindowIsFocusedError::ApiError(e)),
        }
    }

    /// The image that the reply to `CaptureWindowImage` carries.
    pub fn capture_image(reply: WindowsApiReply) -> (answer: Result<
        Image,
        WindowsNativeWindowCaptureImageError,
    >)
        ensures
            answer == Self::read_capture_image(reply),
    {
        match reply {
            Ok(WindowsApiResponse::WindowImage(pixels)) => Ok(pixels),
            Ok(WindowsApiResponse::Error(WindowsApiError::CaptureWindowImage(e))) => Err(
                WindowsNativeWindowCaptureImageError::CaptureImageError(e),
            ),
            Ok(_) => Err(WindowsNativeWindowCaptureImageError::UnexpectedResponse),
            Err(e) => Err(WindowsNativeWindowCaptureImageError::ApiError(e)),
        }
    }
}

/// The worker's answer to a request is of the kind that the request
/// expects, whatever the native call gave: read by the window that asked, it
/// is the result or the worker's error, and never `UnexpectedResponse`.
pub proof fn lemma_answers_are_expected(
    list: Result<Vec<WindowHandle>, u32>,
    title: String,
    rect: Result<Rect, WindowsApiGetWindowRectError>,
    focused: bool,
    image: Result<Image, WindowsApiCaptureWindowImageError>,
)
    ensures
        WindowsWindow::read_all_windows(Ok(WindowsApiResponse::for_window_list(list)))
            != Err::<Seq<WindowsWindow>, WindowsNativeWindowAllWindowsError>(
            WindowsNativeWindowAllWindowsError::UnexpectedResponse,
        ),
        WindowsWindow::read_title(Ok(WindowsApiResponse::WindowTitle(title))) == Ok::<
            String,
            WindowsNativeWindowTitleError,
        >(title),
        WindowsWindow::read_x(Ok(WindowsApiResponse::for_window_rect(rect))) == match rect {
            Ok(r) => Ok::<i32, WindowsNativeWindowXError>(r.left),
            Err(e) => Err(WindowsNativeWindowXError::GetRectError(e)),
        },
        WindowsWindow::read_y(Ok(WindowsApiResponse::for_window_rect(rect))) == match rect {
            Ok(r) => Ok::<i32, WindowsNativeWindowYError>(r.top),
            Err(e) => Err(WindowsNativeWindowYError::GetRectError(e)),
        },
        WindowsWindow::read_width(Ok(WindowsApiResponse::for_window_rect(rect))) == match rect {
            Ok(r) => Ok::<u32, WindowsNativeWindowWidthError>(extent(r.left, r.right)),
            Err(e) => Err(WindowsNativeWindowWidthError::GetRectError(e)),
        },
        WindowsWindow::read_height(Ok(WindowsApiResponse::for_window_rect(rect))) == match rect {
            Ok(r) => Ok::<u32, WindowsNativeWindowHeightError>(extent(r.top, r.bottom)),
            Err(e) => Err(WindowsNativeWindowHeightError::GetRectError(e)),
        },
        WindowsWindow::read_is_focused(Ok(WindowsApiResponse::WindowFocused(focused))) == Ok::<
            bool,
            WindowsNativeWindowIsFocusedError,
        >(focused),
        WindowsWindow::read_capture_image(Ok(WindowsApiResponse::for_window_image(image)))
            == match image {
            Ok(pixels) => Ok::<Image, WindowsNativeWindowCaptureImageError>(pixels),
            Err(e) => Err(WindowsNativeWindowCaptureImageError::CaptureImageError(e)),
        },
{
}

} // verus!
