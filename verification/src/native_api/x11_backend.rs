//! The X11 worker: its protocol and the decisions it takes on what the X
//! server answers.

use vstd::prelude::*;
use vstd::utf8::{decode_utf8, valid_utf8};
use crate::image::Image;
use crate::image::model::{raster_of_bytes, swap_red_blue};
use crate::sequences::lemma_filter_take_step;

verus! {

/// An X11 window id. It names a window without keeping it alive: the window
/// may close or move between two calls.
#[derive(Clone, Copy, Debug, PartialEq, Eq, Hash, Structural)]
pub struct WindowHandle(pub u32);

impl WindowHandle {
    pub fn new(window: u32) -> (handle: Self)
        ensures
            handle.0 == window,
    {
        Self(window)
    }

    pub fn as_window(&self) -> (window: u32)
        ensures
            window == self.0,
    {
        self.0
    }
}

/// A rectangle in screen coordinates.
#[derive(Clone, Copy, Debug, PartialEq, Eq, Structural)]
pub struct Rect {
    pub left: i32,
    pub top: i32,
    pub right: i32,
    pub bottom: i32,
}

/// A request to the worker.
#[derive(Clone, Copy, Debug, PartialEq, Eq, Structural)]
pub enum X11ApiCommand {
    EnumerateWindows,
    GetWindowTitle(WindowHandle),
    GetWindowRect(WindowHandle),
    IsWindowFocused(WindowHandle),
    CaptureWindowImage(WindowHandle),
    Shutdown,
}

#[derive(Clone, Debug, PartialEq, Eq)]
pub enum X11ApiEnumerateWindowsError {
    QueryTreeConnectionError(String),
    QueryTreeReplyError(String),
    Generic(String),
}

#[derive(Clone, Debug, PartialEq, Eq)]
pub enum X11ApiGetWindowTitleError {
    GetPropertyConnectionError(String),
    GetPropertyReplyError(String),
    Generic(String),
}

#[derive(Clone, Debug, PartialEq, Eq)]
pub enum X11ApiGetWindowRectError {
    ConnectionError(String),
    ReplyError(String),
    Generic(String),
}

#[derive(Clone, Debug, PartialEq, Eq)]
pub enum X11ApiIsWindowFocusedError {
    ConnectionError(String),
    ReplyError(String),
    Generic(String),
}

#[derive(Clone, Debug, PartialEq, Eq)]
pub enum X11ApiCaptureWindowImageError {
    ConnectionError(String),
    ReplyError(String),
    /// The server's pixel data does not fill the window's geometry.
    InvalidBitmap,
    Generic(String),
}

/// Which request failed, and how.
#[derive(Clone, Debug, PartialEq, Eq)]
pub enum X11ApiError {
    EnumerateWindows(X11ApiEnumerateWindowsError),
    GetWindowTitle(X11ApiGetWindowTitleError),
    GetWindowRect(X11ApiGetWindowRectError),
    IsWindowFocused(X11ApiIsWindowFocusedError),
    CaptureWindowImage(X11ApiCaptureWindowImageError),
}

/// The worker's answer to one request.
#[derive(Clone, Debug, PartialEq, Eq)]
pub enum X11ApiResponse {
    WindowList(Vec<WindowHandle>),
    WindowTitle(String),
    WindowRect(Rect),
    WindowFocused(bool),
    WindowImage(Image),
    Error(X11ApiError),
    Acknowledgement,
}

/// Why a request got no answer: it could not be handed to the worker, or the
/// worker went away before answering.
#[derive(Clone, Copy, Debug, PartialEq, Eq, Structural)]
pub enum X11SendCommandToApiThreadError {
    Send,
    Receive,
}

/// What a request comes back as: the worker's response, or why there is
/// none.
pub type X11ApiReply = Result<X11ApiResponse, X11SendCommandToApiThreadError>;

/// What the worker does on what it received.
#[derive(Clone, Copy, Debug, PartialEq, Eq, Structural)]
pub enum X11WorkerStep {
    /// Make the native call that the command asks for, answer with its
    /// result, and receive again.
    Serve(X11ApiCommand),
    /// Answer with an acknowledgement and end the loop.
    Acknowledge,
    /// End the loop: every sender is gone.
    Stop,
}

/// One turn of the worker's loop: what to do on a received command, or on
/// `None` once the channel is closed. The loop ends on `Shutdown` and on a
/// closed channel, and on nothing else.
pub fn x11_api_thread_step(received: Option<X11ApiCommand>) -> (step: X11WorkerStep)
    ensures
        received is None ==> step == X11WorkerStep::Stop,
        received == Some(X11ApiCommand::Shutdown) ==> step == X11WorkerStep::Acknowledge,
        received matches Some(command) ==> (command != X11ApiCommand::Shutdown ==> step
            == X11WorkerStep::Serve(command)),
{
    match received {
        None => X11WorkerStep::Stop,
        Some(X11ApiCommand::Shutdown) => X11WorkerStep::Acknowledge,
        Some(command) => X11WorkerStep::Serve(command),
    }
}

impl X11WorkerStep {
    /// Whether the worker receives again after this step.
    pub fn continues(&self) -> (again: bool)
        ensures
            again == (*self is Serve),
    {
        match self {
            X11WorkerStep::Serve(_) => true,
            _ => false,
        }
    }
}

impl X11ApiResponse {
    /// The answer to `EnumerateWindows`.
    pub open spec fn for_window_list(
        outcome: Result<Vec<WindowHandle>, X11ApiEnumerateWindowsError>,
    ) -> X11ApiResponse {
        match outcome {
            Ok(windows) => X11ApiResponse::WindowList(windows),
            Err(e) => X11ApiResponse::Error(X11ApiError::EnumerateWindows(e)),
        }
    }

    /// The answer to `GetWindowTitle`.
    pub open spec fn for_window_title(
        outcome: Result<String, X11ApiGetWindowTitleError>,
    ) -> X11ApiResponse {
        match outcome {
            Ok(title) => X11ApiResponse::WindowTitle(title),
            Err(e) => X11ApiResponse::Error(X11ApiError::GetWindowTitle(e)),
        }
    }

    /// The answer to `GetWindowRect`.
    pub open spec fn for_window_rect(
        outcome: Result<Rect, X11ApiGetWindowRectError>,
    ) -> X11ApiResponse {
        match outcome {
            Ok(rect) => X11ApiResponse::WindowRect(rect),
            Err(e) => X11ApiResponse::Error(X11ApiError::GetWindowRect(e)),
        }
    }

    /// The answer to `IsWindowFocused`.
    pub open spec fn for_window_focused(
        outcome: Result<bool, X11ApiIsWindowFocusedError>,
    ) -> X11ApiResponse {
        match outcome {
            Ok(focused) => X11ApiResponse::WindowFocused(focused),
            Err(e) => X11ApiResponse::Error(X11ApiError::IsWindowFocused(e)),
        }
    }

    /// The answer to `CaptureWindowImage`.
    pub open spec fn for_window_image(
        outcome: Result<Image, X11ApiCaptureWindowImageError>,
    ) -> X11ApiResponse {
        match outcome {
            Ok(image) => X11ApiResponse::WindowImage(image),
            Err(e) => X11ApiResponse::Error(X11ApiError::CaptureWindowImage(e)),
        }
    }

    /// The answer to `EnumerateWindows`.
    pub fn window_list(
        outcome: Result<Vec<WindowHandle>, X11ApiEnumerateWindowsError>,
    ) -> (response: Self)
        ensures
            response == Self::for_window_list(outcome),
    {
        match outcome {
            Ok(windows) => X11ApiResponse::WindowList(windows),
            Err(e) => X11ApiResponse::Error(X11ApiError::EnumerateWindows(e)),
        }
    }

    /// The answer to `GetWindowTitle`.
    pub fn window_title(outcome: Result<String, X11ApiGetWindowTitleError>) -> (response: Self)
        ensures
            response == Self::for_window_title(outcome),
    {
        match outcome {
            Ok(title) => X11ApiResponse::WindowTitle(title),
            Err(e) => X11ApiResponse::Error(X11ApiError::GetWindowTitle(e)),
        }
    }

    /// The answer to `GetWindowRect`.
    pub fn window_rect(outcome: Result<Rect, X11ApiGetWindowRectError>) -> (response: Self)
        ensures
            response == Self::for_window_rect(outcome),
    {
        match outcome {
            Ok(rect) => X11ApiResponse::WindowRect(rect),
            Err(e) => X11ApiResponse::Error(X11ApiError::GetWindowRect(e)),
        }
    }

    /// The answer to `IsWindowFocused`.
    pub fn window_focused(outcome: Result<bool, X11ApiIsWindowFocusedError>) -> (response: Self)
        ensures
            response == Self::for_window_focused(outcome),
    {
        match outcome {
            Ok(focused) => X11ApiResponse::WindowFocused(focused),
            Err(e) => X11ApiResponse::Error(X11ApiError::IsWindowFocused(e)),
        }
    }

    /// The answer to `CaptureWindowImage`.
    pub fn window_image(outcome: Result<Image, X11ApiCaptureWindowImageError>) -> (response: Self)
        ensures
            response == Self::for_window_image(outcome),
    {
        match outcome {
            Ok(image) => X11ApiResponse::WindowImage(image),
            Err(e) => X11ApiResponse::Error(X11ApiError::CaptureWindowImage(e)),
        }
    }
}

/// Whether a window is mapped, as the server reports it.
#[derive(Clone, Copy, Debug, PartialEq, Eq, Structural)]
pub enum MapState {
    Unmapped,
    Unviewable,
    Viewable,
}

/// What the worker learned of one child of the root window. `map_state` is
/// `None` where the window's attributes could not be had; `name` is `None`
/// where its name property was not asked for or could not be had.
#[derive(Clone, Debug, PartialEq, Eq)]
pub struct ChildWindow {
    pub window: u32,
    pub map_state: Option<MapState>,
    pub name: Option<Vec<u8>>,
}

/// A child is asked for its name only if it is viewable.
pub open spec fn name_wanted(map_state: Option<MapState>) -> bool {
    map_state == Some(MapState::Viewable)
}

/// A child is listed if it is viewable and has a name that is not empty.
pub open spec fn listed(child: ChildWindow) -> bool {
    &&& name_wanted(child.map_state)
    &&& child.name matches Some(name) && name@.len() > 0
}

/// The handles of the listed children, in the order of the children.
pub open spec fn listed_windows(children: Seq<ChildWindow>) -> Seq<WindowHandle> {
    children.filter(|child: ChildWindow| listed(child)).map_values(
        |child: ChildWindow| WindowHandle(child.window),
    )
}

/// Whether the worker asks a child with these attributes for its name.
pub fn wants_name(map_state: Option<MapState>) -> (wanted: bool)
    ensures
        wanted == name_wanted(map_state),
{
    match map_state {
        Some(MapState::Viewable) => true,
        _ => false,
    }
}

/// The windows to report: the viewable children with a name that is not
/// empty, in the order in which the server listed them.
pub fn enumerate_windows(children: &Vec<ChildWindow>) -> (windows: Vec<WindowHandle>)
    ensures
        windows@ == listed_windows(children@),
{
    let ghost keep = |child: ChildWindow| listed(child);
    let ghost handle = |child: ChildWindow| WindowHandle(child.window);
    let mut windows: Vec<WindowHandle> = Vec::new();
    let mut i: usize = 0;
    assert(children@.take(0).filter(keep) =~= Seq::<ChildWindow>::empty()) by {
        reveal(Seq::filter);
    }
    while i < children.len()
        invariant
            i <= children@.len(),
            keep == (|child: ChildWindow| listed(child)),
            handle == (|child: ChildWindow| WindowHandle(child.window)),
            windows@ == children@.take(i as int).filter(keep).map_values(handle),
        decreases children@.len() - i,
    {
        let child = &children[i];
        let named: bool = match &child.name {
            Some(name) => name.len() > 0,
            None => false,
        };
        proof {
            lemma_filter_take_step(children@, keep, i as int);
            let before = children@.take(i as int).filter(keep);
            assert(before.push(children@[i as int]).map_values(handle) =~= before.map_values(
                handle,
            ).push(handle(children@[i as int])));
        }
        if wants_name(child.map_state) && named {
            windows.push(WindowHandle::new(child.window));
        }
        i = i + 1;
    }
    assert(children@.take(i as int) =~= children@);
    windows
}

/// `String::from_utf8` of std: the text that the bytes encode, where they
/// are valid UTF-8, and nothing where they are not.
#[verifier::external_body]
fn string_from_utf8(bytes: Vec<u8>) -> (text: Option<String>)
    ensures
        text is Some <==> valid_utf8(bytes@),
        text matches Some(s) ==> s@ == decode_utf8(bytes@),
{
    String::from_utf8(bytes).ok()
}

/// The title of a window from the value of its name property: the text
/// that the value encodes, and the empty string where the value is not valid
/// UTF-8. A window without a title has the empty title; that is no error.
pub fn get_window_title(property: Vec<u8>) -> (title: String)
    ensures
        valid_utf8(property@) ==> title@ == decode_utf8(property@),
        !valid_utf8(property@) ==> title@.len() == 0,
{
    match string_from_utf8(property) {
        Some(title) => title,
        None => String::new(),
    }
}

/// The rectangle of a window in screen coordinates, from the position of
/// its top-left corner on the root window and its size.
pub fn get_window_rect(x: i16, y: i16, width: u16, height: u16) -> (rect: Rect)
    ensures
        rect.left == x,
        rect.top == y,
        rect.right == x + width,
        rect.bottom == y + height,
{
    Rect {
        left: x as i32,
        top: y as i32,
        right: x as i32 + width as i32,
        bottom: y as i32 + height as i32,
    }
}

/// Whether the window is the one that has the input focus.
pub fn is_window_focused(focus: u32, window: WindowHandle) -> (focused: bool)
    ensures
        focused == (focus == window.0),
{
    focus == window.as_window()
}

/// The image of a window from the pixel data that the server sent for its
/// geometry, in blue-green-red-alpha byte order. Fails, with no image at
/// all, where the data do not fill the geometry.
pub fn capture_window_image(width: u16, height: u16, data: Vec<u8>) -> (image: Result<
    Image,
    X11ApiCaptureWindowImageError,
>)
    ensures
        4 * (width * height) > data@.len() ==> image == Err::<
            Image,
            X11ApiCaptureWindowImageError,
        >(X11ApiCaptureWindowImageError::InvalidBitmap),
        4 * (width * height) <= data@.len() ==> image is Ok && image->Ok_0@ == raster_of_bytes(
            width as nat,
            height as nat,
            swap_red_blue(data@),
        ),
{
    match Image::from_bgra(width as u32, height as u32, data) {
        Some(image) => Ok(image),
        None => Err(X11ApiCaptureWindowImageError::InvalidBitmap),
    }
}

} // verus!
