//! Windows of the desktop, whatever backend reaches them.

use vstd::prelude::*;
use vstd::string::StringExecFns;
use crate::image::Image;

pub mod unsupported_backend;
pub mod windows_backend;
pub mod x11_backend;

verus! {

/// Why a window could not answer.
#[derive(Clone, Debug, PartialEq, Eq)]
pub enum WindowError {
    /// A native call failed; the text says which, and with what code.
    ApiError(String),
    EmptyTitle,
    InvalidBitmap,
    /// This platform has no backend.
    UnsupportedPlatform,
}

impl WindowError {
    /// The error as a sentence for the caller.
    pub fn message(&self) -> (text: String)
        ensures
            match *self {
                WindowError::ApiError(reason) => text@ == reason@,
                WindowError::EmptyTitle => text@ == "Window title is empty"@,
                WindowError::InvalidBitmap => text@ == "Invalid bitmap"@,
                WindowError::UnsupportedPlatform => text@
                    == "This operation is not supported on the current platform"@,
            },
    {
        match self {
            WindowError::ApiError(reason) => reason.clone(),
            WindowError::EmptyTitle => String::from_str("Window title is empty"),
            WindowError::InvalidBitmap => String::from_str("Invalid bitmap"),
            WindowError::UnsupportedPlatform => String::from_str(
                "This operation is not supported on the current platform",
            ),
        }
    }
}

/// The distance from `low` to `high` as the unsigned number of 32 bits that
/// a side of a rectangle is stored in: the plain difference where `high` is
/// not below `low`.
pub open spec fn extent(low: i32, high: i32) -> u32 {
    if high >= low {
        (high - low) as u32
    } else {
        (high - low + 0x1_0000_0000) as u32
    }
}

/// The distance from `low` to `high`, wrapped into `u32`.
pub fn side_length(low: i32, high: i32) -> (length: u32)
    ensures
        length == extent(low, high),
{
    let difference: i64 = high as i64 - low as i64;
    if difference >= 0 {
        difference as u32
    } else {
        (difference + 0x1_0000_0000) as u32
    }
}

/// One window as a backend reaches it. Every answer reflects the moment of
/// the call: the window may close, move or be minimized at any time, and a
/// handle that has gone stale shows as an error, never as made-up data.
///
/// For each question a backend says which answers it can give; what is
/// proved of a `Window` holds for the answers that its backend can give.
pub trait NativeWindow: Sized {
    /// The answers that `title` can give: any, unless the backend says less.
    open spec fn can_title(&self, title: Result<String, WindowError>) -> bool {
        true
    }

    /// The answers that `x` can give: any, unless the backend says less.
    open spec fn can_x(&self, x: Result<i32, WindowError>) -> bool {
        true
    }

    /// The answers that `y` can give: any, unless the backend says less.
    open spec fn can_y(&self, y: Result<i32, WindowError>) -> bool {
        true
    }

    /// The answers that `width` can give: any, unless the backend says less.
    open spec fn can_width(&self, width: Result<u32, WindowError>) -> bool {
        true
    }

    /// The answers that `height` can give: any, unless the backend says less.
    open spec fn can_height(&self, height: Result<u32, WindowError>) -> bool {
        true
    }

    /// The answers that `is_focused` can give: any, unless the backend says less.
    open spec fn can_is_focused(&self, focused: Result<bool, WindowError>) -> bool {
        true
    }

    /// The answers that `capture_image` can give: any, unless the backend says less.
    open spec fn can_capture_image(&self, image: Result<Image, WindowError>) -> bool {
        true
    }

    fn title(&self) -> (title: Result<String, WindowError>)
        ensures
            self.can_title(title),
    ;

    fn x(&self) -> (x: Result<i32, WindowError>)
        ensures
            self.can_x(x),
    ;

    fn y(&self) -> (y: Result<i32, WindowError>)
        ensures
            self.can_y(y),
    ;

    fn width(&self) -> (width: Result<u32, WindowError>)
        ensures
            self.can_width(width),
    ;

    fn height(&self) -> (height: Result<u32, WindowError>)
        ensures
            self.can_height(height),
    ;

    fn is_focused(&self) -> (focused: Result<bool, WindowError>)
        ensures
            self.can_is_focused(focused),
    ;

    fn capture_image(&self) -> (image: Result<Image, WindowError>)
        ensures
            self.can_capture_image(image),
    ;
}

/// A backend that can list the windows on screen.
pub trait NativeWindowFactory: NativeWindow {
    /// The answers that `all_windows` can give: any, unless the backend says less.
    open spec fn can_all_windows(windows: Result<Vec<Window<Self>>, WindowError>) -> bool {
        true
    }

    /// The visible top-level windows with a title, in the system's order.
    fn all_windows() -> (windows: Result<Vec<Window<Self>>, WindowError>)
        ensures
            Self::can_all_windows(windows),
    ;
}

/// A window on screen.
#[derive(Clone, Debug)]
pub struct Window<W: NativeWindow> {
    pub native_window: W,
}

impl<W: NativeWindow> Window<W> {
    pub fn from_native(native_window: W) -> (window: Self)
        ensures
            window.native_window == native_window,
    {
        Window { native_window }
    }

    pub fn title(&self) -> (title: Result<String, WindowError>)
        ensures
            self.native_window.can_title(title),
    {
        self.native_window.title()
    }

    pub fn x(&self) -> (x: Result<i32, WindowError>)
        ensures
            self.native_window.can_x(x),
    {
        self.native_window.x()
    }

    pub fn y(&self) -> (y: Result<i32, WindowError>)
        ensures
            self.native_window.can_y(y),
    {
        self.native_window.y()
    }

    pub fn width(&self) -> (width: Result<u32, WindowError>)
        ensures
            self.native_window.can_width(width),
    {
        self.native_window.width()
    }

    pub fn height(&self) -> (height: Result<u32, WindowError>)
        ensures
            self.native_window.can_height(height),
    {
        self.native_window.height()
    }

    pub fn is_focused(&self) -> (focused: Result<bool, WindowError>)
        ensures
            self.native_window.can_is_focused(focused),
    {
        self.native_window.is_focused()
    }

    /// A task that captures this window.
    pub fn capture_image(self) -> (task: AsyncCaptureImage<W>)
        ensures
            task.window == self,
    {
        AsyncCaptureImage::new(self)
    }
}

impl<W: NativeWindowFactory> Window<W> {
    /// Every window that the backend lists.
    pub fn all() -> (windows: Result<Vec<Window<W>>, WindowError>)
        ensures
            W::can_all_windows(windows),
    {
        W::all_windows()
    }
}

/// Captures the pixels of a window.
pub struct AsyncCaptureImage<W: NativeWindow> {
    pub window: Window<W>,
}

impl<W: NativeWindow> AsyncCaptureImage<W> {
    pub fn new(window: Window<W>) -> (task: Self)
        ensures
            task.window == window,
    {
        Self { window }
    }

    /// The image of the window as it is now, or why there is none.
    pub fn compute(&self) -> (image: Result<Image, WindowError>)
        ensures
            self.window.native_window.can_capture_image(image),
    {
        self.window.native_window.capture_image()
    }
}

} // verus!
