//! The backend of a platform without a native implementation: it answers
//! everything with the same error and touches nothing.

use vstd::prelude::*;
use crate::image::Image;
use crate::window::{NativeWindow, NativeWindowFactory, Window, WindowError};

verus! {

#[derive(Clone, Copy, Debug, PartialEq, Eq, Structural)]
pub struct UnsupportedOSWindow;

impl NativeWindow for UnsupportedOSWindow {
    open spec fn can_title(&self, title: Result<String, WindowError>) -> bool {
        title == Err::<String, WindowError>(WindowError::UnsupportedPlatform)
    }

    open spec fn can_x(&self, x: Result<i32, WindowError>) -> bool {
        x == Err::<i32, WindowError>(WindowError::UnsupportedPlatform)
    }

    open spec fn can_y(&self, y: Result<i32, WindowError>) -> bool {
        y == Err::<i32, WindowError>(WindowError::UnsupportedPlatform)
    }

    open spec fn can_width(&self, width: Result<u32, WindowError>) -> bool {
        width == Err::<u32, WindowError>(WindowError::UnsupportedPlatform)
    }

    open spec fn can_height(&self, height: Result<u32, WindowError>) -> bool {
        height == Err::<u32, WindowError>(WindowError::UnsupportedPlatform)
    }

    open spec fn can_is_focused(&self, focused: Result<bool, WindowError>) -> bool {
        focused == Err::<bool, WindowError>(WindowError::UnsupportedPlatform)
    }

    open spec fn can_capture_image(&self, image: Result<Image, WindowError>) -> bool {
        image == Err::<Image, WindowError>(WindowError::UnsupportedPlatform)
    }

    fn title(&self) -> (title: Result<String, WindowError>)
        ensures
            title == Err::<String, WindowError>(WindowError::UnsupportedPlatform),
    {
        Err(WindowError::UnsupportedPlatform)
    }

    fn x(&self) -> (x: Result<i32, WindowError>)
        ensures
            x == Err::<i32, WindowError>(WindowError::UnsupportedPlatform),
    {
        Err(WindowError::UnsupportedPlatform)
    }

    fn y(&self) -> (y: Result<i32, WindowError>)
        ensures
            y == Err::<i32, WindowError>(WindowError::UnsupportedPlatform),
    {
        Err(WindowError::UnsupportedPlatform)
    }

    fn width(&self) -> (width: Result<u32, WindowError>)
        ensures
            width == Err::<u32, WindowError>(WindowError::UnsupportedPlatform),
    {
        Err(WindowError::UnsupportedPlatform)
    }

    fn height(&self) -> (height: Result<u32, WindowError>)
        ensures
            height == Err::<u32, WindowError>(WindowError::UnsupportedPlatform),
    {
        Err(WindowError::UnsupportedPlatform)
    }

    fn is_focused(&self) -> (focused: Result<bool, WindowError>)
        ensures
            focused == Err::<bool, WindowError>(WindowError::UnsupportedPlatform),
    {
        Err(WindowError::UnsupportedPlatform)
    }

    fn capture_image(&self) -> (image: Result<Image, WindowError>)
        ensures
            image == Err::<Image, WindowError>(WindowError::UnsupportedPlatform),
    {
        Err(WindowError::UnsupportedPlatform)
    }
}

impl NativeWindowFactory for UnsupportedOSWindow {
    open spec fn can_all_windows(windows: Result<Vec<Window<Self>>, WindowError>) -> bool {
        windows == Err::<Vec<Window<Self>>, WindowError>(WindowError::UnsupportedPlatform)
    }

    fn all_windows() -> (windows: Result<Vec<Window<Self>>, WindowError>)
        ensures
            windows == Err::<Vec<Window<Self>>, WindowError>(WindowError::UnsupportedPlatform),
    {
        Err(WindowError::UnsupportedPlatform)
    }
}

} // verus!
