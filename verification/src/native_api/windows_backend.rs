//! The Windows worker: its protocol and the decisions it takes on what the
//! system answers.

use vstd::prelude::*;
use crate::image::Image;
use crate::image::model::{raster_of_bytes, swap_red_blue, Raster};
use crate::native_api::x11_backend::Rect;

verus! {

/// A window handle as a number. It names a window without keeping it alive:
/// the window may close or move between two calls.
#[derive(Clone, Copy, Debug, PartialEq, Eq, Hash, Structural)]
pub struct WindowHandle(pub u64);

impl WindowHandle {
    pub fn new(hwnd: u64) -> (handle: Self)
        ensures
            handle.0 == hwnd,
    {
        Self(hwnd)
    }

    pub fn as_hwnd(&self) -> (hwnd: u64)
        ensures
            hwnd == self.0,
    {
        self.0
    }
}

/// A request to the worker.
#[derive(Clone, Copy, Debug, PartialEq, Eq, Structural)]
pub enum WindowsApiCommand {
    EnumerateWindows,
    GetWindowTitle(WindowHandle),
    GetWindowRect(WindowHandle),
    IsWindowFocused(WindowHandle),
    CaptureWindowImage(WindowHandle),
    Shutdown,
}

/// Enumeration failed; the payload is the system's error code.
#[derive(Clone, Copy, Debug, PartialEq, Eq, Structural)]
pub enum WindowsApiEnumerateWindowsError {
    Generic(u32),
}

/// The rectangle could not be had; the payload is the system's error code.
#[derive(Clone, Copy, Debug, PartialEq, Eq, Structural)]
pub enum WindowsApiGetWindowRectError {
    Generic(u32),
}

/// The step of a capture that failed, with the system's error code where
/// the system gave one.
#[derive(Clone, Copy, Debug, PartialEq, Eq, Structural)]
pub enum WindowsApiCaptureWindowImageError {
    Generic(u32),
    GetWindowRectError(WindowsApiGetWindowRectError),
    IsMinimized,
    HandleNoLongerValid,
    GetWindowDcError(u32),
    CreateCompatibleDcError(u32),
    CreateCompatibleBitmapError(u32),
    CopyBitmapError(u32),
    DiBitsToBufferError(u32),
    InvalidBitmap,
}

/// Which request failed, and how.
#[derive(Clone, Copy, Debug, PartialEq, Eq, Structural)]
pub enum WindowsApiError {
    EnumerateWindows(WindowsApiEnumerateWindowsError),
    GetWindowRect(WindowsApiGetWindowRectError),
    CaptureWindowImage(WindowsApiCaptureWindowImageError),
}

/// The worker's answer to one request.
#[derive(Clone, Debug, PartialEq, Eq)]
pub enum WindowsApiResponse {
    WindowList(Vec<WindowHandle>),
    WindowTitle(String),
    WindowRect(Rect),
    WindowFocused(bool),
    WindowImage(Image),
    Error(WindowsApiError),
    Acknowledgement,
}

/// Why a request got no answer: it could not be handed to the worker, or the
/// worker went away before answering.
#[derive(Clone, Copy, Debug, PartialEq, Eq, Structural)]
pub enum WindowsSendCommandToApiThreadError {
    Send,
    Receive,
}

/// What a request comes back as: the worker's response, or why there is
/// none.
pub type WindowsApiReply = Result<WindowsApiResponse, WindowsSendCommandToApiThreadError>;

/// What the worker does on what it received.
#[derive(Clone, Copy, Debug, PartialEq, Eq, Structural)]
pub enum WindowsWorkerStep {
    /// Make the native calls that the command asks for, answer with their
    /// result, and receive again.
    Serve(WindowsApiCommand),
    /// Answer with an acknowledgement and end the loop.
    Acknowledge,
    /// End the loop: every sender is gone.
    Stop,
}

/// One turn of the worker's loop: what to do on a received command, or on
/// `None` once the channel is closed. The loop ends on `Shutdown` and on a
/// closed channel, and on nothing else.
pub fn windows_api_thread_step(received: Option<WindowsApiCommand>) -> (step: WindowsWorkerStep)
    ensures
        received is None ==> step == WindowsWorkerStep::Stop,
        received == Some(WindowsApiCommand::Shutdown) ==> step == WindowsWorkerStep::Acknowledge,
        received matches Some(command) ==> (command != WindowsApiCommand::Shutdown ==> step
            == WindowsWorkerStep::Serve(command)),
{
    match received {
        None => WindowsWorkerStep::Stop,
        Some(WindowsApiCommand::Shutdown) => WindowsWorkerStep::Acknowledge,
        Some(command) => WindowsWorkerStep::Serve(command),
    }
}

impl WindowsWorkerStep {
    /// Whether the worker receives again after this step.
    pub fn continues(&self) -> (again: bool)
        ensures
            again == (*self is Serve),
    {
        match self {
            WindowsWorkerStep::Serve(_) => true,
            _ => false,
        }
    }
}

impl WindowsApiResponse {
    /// The answer to `EnumerateWindows`: the windows collected, or the system's
    /// error code.
    pub open spec fn for_window_list(
        outcome: Result<Vec<WindowHandle>, u32>,
    ) -> WindowsApiResponse {
        match outcome {
            Ok(windows) => WindowsApiResponse::WindowList(windows),
            Err(code) => WindowsApiResponse::Error(
                WindowsApiError::EnumerateWindows(WindowsApiEnumerateWindowsError::Generic(code)),
            ),
        }
    }

    /// The answer to `GetWindowRect`.
    pub open spec fn for_window_rect(
        outcome: Result<Rect, WindowsApiGetWindowRectError>,
    ) -> WindowsApiResponse {
        match outcome {
            Ok(rect) => WindowsApiResponse::WindowRect(rect),
            Err(e) => WindowsApiResponse::Error(WindowsApiError::GetWindowRect(e)),
        }
    }

    /// The answer to `CaptureWindowImage`.
    pub open spec fn for_window_image(
        outcome: Result<Image, WindowsApiCaptureWindowImageError>,
    ) -> WindowsApiResponse {
        match outcome {
            Ok(image) => WindowsApiResponse::WindowImage(image),
            Err(e) => WindowsApiResponse::Error(WindowsApiError::CaptureWindowImage(e)),
        }
    }

    /// The answer to `EnumerateWindows`: the windows collected, or the system's
    /// error code.
    pub fn window_list(outcome: Result<Vec<WindowHandle>, u32>) -> (response: Self)
        ensures
            response == Self::for_window_list(outcome),
    {
        match outcome {
            Ok(windows) => WindowsApiResponse::WindowList(windows),
            Err(code) => WindowsApiResponse::Error(
                WindowsApiError::EnumerateWindows(WindowsApiEnumerateWindowsError::Generic(code)),
            ),
        }
    }

    /// The answer to `GetWindowRect`.
    pub fn window_rect(outcome: Result<Rect, WindowsApiGetWindowRectError>) -> (response: Self)
        ensures
            response == Self::for_window_rect(outcome),
    {
        match outcome {
            Ok(rect) => WindowsApiResponse::WindowRect(rect),
            Err(e) => WindowsApiResponse::Error(WindowsApiError::GetWindowRect(e)),
        }
    }

    /// The answer to `CaptureWindowImage`.
    pub fn window_image(
        outcome: Result<Image, WindowsApiCaptureWindowImageError>,
    ) -> (response: Self)
        ensures
            response == Self::for_window_image(outcome),
    {
        match outcome {
            Ok(image) => WindowsApiResponse::WindowImage(image),
            Err(e) => WindowsApiResponse::Error(WindowsApiError::CaptureWindowImage(e)),
        }
    }
}

/// The rectangle of a window, or the system's error code where the call
/// for it failed.
pub fn get_window_rect(outcome: Result<Rect, u32>) -> (rect: Result<
    Rect,
    WindowsApiGetWindowRectError,
>)
    ensures
        match outcome {
            Ok(r) => rect == Ok::<Rect, WindowsApiGetWindowRectError>(r),
            Err(code) => rect == Err::<Rect, WindowsApiGetWindowRectError>(
                WindowsApiGetWindowRectError::Generic(code),
            ),
        },
{
    match outcome {
        Ok(r) => Ok(r),
        Err(code) => Err(WindowsApiGetWindowRectError::Generic(code)),
    }
}

/// Whether the window is the foreground window.
pub fn is_window_focused(foreground: u64, window: WindowHandle) -> (focused: bool)
    ensures
        focused == (foreground == window.0),
{
    foreground == window.as_hwnd()
}

/// One call of the enumeration: a window is collected if it is visible and
/// its title is not empty. The enumeration always goes on.
pub fn enum_windows_proc_for_thread(
    hwnds: &mut Vec<WindowHandle>,
    hwnd: u64,
    visible: bool,
    title_length: i32,
) -> (go_on: bool)
    ensures
        go_on,
        visible && title_length > 0 ==> final(hwnds)@ == old(hwnds)@.push(WindowHandle(hwnd)),
        !(visible && title_length > 0) ==> final(hwnds)@ == old(hwnds)@,
{
    if visible && title_length > 0 {
        hwnds.push(WindowHandle::new(hwnd));
    }
    true
}

/// The text that UTF-16 code units decode to, each unpaired surrogate
/// replaced by U+FFFD.
pub uninterp spec fn utf16_lossy(units: Seq<u16>) -> Seq<char>;

/// `String::from_utf16_lossy` of std: the text that the code units decode
/// to, with the replacement character for what is no valid UTF-16.
#[verifier::external_body]
fn string_from_utf16_lossy(units: &Vec<u16>) -> (text: String)
    ensures
        text@ == utf16_lossy(units@),
{
    String::from_utf16_lossy(units)
}

/// The code units of a title: the first `length` units of the buffer that
/// the system filled, none if it reported no title.
pub open spec fn title_units(buffer: Seq<u16>, length: int) -> Seq<u16> {
    if length <= 0 {
        Seq::empty()
    } else if length >= buffer.len() {
        buffer
    } else {
        buffer.take(length)
    }
}

/// The title of a window from the buffer that the system filled and the
/// number of code units it reported. A window without a title has the empty
/// title; that is no error.
pub fn get_window_title(buffer: &Vec<u16>, length: i32) -> (title: String)
    ensures
        title_units(buffer@, length as int).len() == 0 ==> title@.len() == 0,
        title_units(buffer@, length as int).len() > 0 ==> title@ == utf16_lossy(
            title_units(buffer@, length as int),
        ),
{
    let mut units: Vec<u16> = Vec::new();
    let mut i: usize = 0;
    while i < buffer.len() && (i as i64) < (length as i64)
        invariant
            i <= buffer@.len(),
            i <= length || i == 0,
            units@ == buffer@.take(i as int),
        decreases buffer@.len() - i,
    {
        units.push(buffer[i]);
        assert(buffer@.take(i + 1) =~= buffer@.take(i as int).push(buffer@[i as int]));
        i = i + 1;
    }
    assert(units@ =~= title_units(buffer@, length as int));
    if units.len() == 0 {
        String::new()
    } else {
        string_from_utf16_lossy(&units)
    }
}

/// What the worker does next in the capture of a window. Each step is one
/// native call; the worker makes it and reports what came of it.
#[derive(Clone, Copy, Debug, PartialEq, Eq, Structural)]
pub enum CaptureStep {
    /// Ask for the window's rectangle.
    GetWindowRect,
    /// Ask whether the window is minimized.
    IsIconic,
    /// Ask whether the handle still names a window.
    IsWindow,
    /// Acquire the window's device context.
    GetWindowDc,
    /// Create a memory device context compatible with the window's.
    CreateCompatibleDc,
    /// Create a bitmap of this size compatible with the window's context.
    CreateCompatibleBitmap { width: i32, height: i32 },
    /// Select the bitmap into the memory context, keeping what was selected.
    SelectBitmap,
    /// Copy this many pixels from the window's context to the memory context.
    CopyBitmap { width: i32, height: i32 },
    /// Select back into the memory context what was selected before.
    RestoreBitmap,
    /// Read the bitmap, top row first and 32 bits per pixel, into a buffer of
    /// `buffer_len` bytes.
    GetDiBits { width: i32, height: i32, buffer_len: usize },
    /// Delete the bitmap.
    DeleteBitmap,
    /// Delete the memory device context.
    DeleteDc,
    /// Release the window's device context.
    ReleaseDc,
    /// Nothing is left to do: take the outcome.
    Finish,
}

/// What came of a step. A code is the system's error code for the call that
/// failed.
#[derive(Debug, PartialEq, Eq)]
pub enum CaptureEvent {
    /// Of `GetWindowRect`.
    WindowRect(Result<Rect, u32>),
    /// Of `IsIconic`: whether the window is minimized.
    Iconic(bool),
    /// Of `IsWindow`: whether the handle names a window.
    Window(bool),
    /// Of `GetWindowDc`, `CreateCompatibleDc` and `CreateCompatibleBitmap`:
    /// whether the system handed out what was asked for.
    Acquired(Result<(), u32>),
    /// Of `CopyBitmap`.
    Copied(Result<(), u32>),
    /// Of `GetDiBits`: the buffer that the system filled, in
    /// blue-green-red-alpha byte order.
    Bits(Result<Vec<u8>, u32>),
    /// Of a step that cannot fail: selecting, restoring, deleting and
    /// releasing.
    Done,
}

/// The state of a capture: the step that is next, what the capture holds of
/// the system, and how the capture ended once that is known.
pub struct CaptureState {
    pub step: CaptureStep,
    pub width: int,
    pub height: int,
    pub window_dc: bool,
    pub memory_dc: bool,
    pub bitmap: bool,
    /// The bitmap is selected into the memory context.
    pub selected: bool,
    pub outcome: Option<Result<Raster, WindowsApiCaptureWindowImageError>>,
}

impl CaptureState {
    pub open spec fn start() -> CaptureState {
        CaptureState {
            step: CaptureStep::GetWindowRect,
            width: 0,
            height: 0,
            window_dc: false,
            memory_dc: false,
            bitmap: false,
            selected: false,
            outcome: None,
        }
    }

    /// The step that gives back what was acquired last and is still held;
    /// `Finish` once nothing is held.
    pub open spec fn release_step(self) -> CaptureStep {
        if self.bitmap {
            CaptureStep::DeleteBitmap
        } else if self.memory_dc {
            CaptureStep::DeleteDc
        } else if self.window_dc {
            CaptureStep::ReleaseDc
        } else {
            CaptureStep::Finish
        }
    }

    /// The state once the capture is known to end with `outcome`: from here
    /// on it only gives back what it holds. An outcome that is known
    /// already stays.
    pub open spec fn ending(
        self,
        outcome: Result<Raster, WindowsApiCaptureWindowImageError>,
    ) -> CaptureState {
        let ended = CaptureState {
            outcome: if self.outcome is Some {
                self.outcome
            } else {
                Some(outcome)
            },
            ..self
        };
        CaptureState {
            step: if self.selected {
                CaptureStep::RestoreBitmap
            } else {
                self.release_step()
            },
            ..ended
        }
    }

    /// The state once the capture has failed with `error`.
    pub open spec fn failing(self, error: WindowsApiCaptureWindowImageError) -> CaptureState {
        self.ending(Err(error))
    }

    /// Whether a buffer for the bitmap can be had: the sides are not
    /// negative, and four bytes per pixel fit a `usize`.
    pub open spec fn buffer_fits(self) -> bool {
        0 <= self.width && 0 <= self.height && 4 * (self.width * self.height) <= usize::MAX
    }

    /// The state after `event` has come of the step that was next. A step
    /// that can fail takes the event that tells how it went; any other event
    /// ends the capture with `Generic(0)`. A step that cannot fail is taken
    /// as done, whatever the event. A capture that is finished stays as it
    /// is.
    pub open spec fn after(self, event: CaptureEvent) -> CaptureState {
        match self.step {
            CaptureStep::GetWindowRect => match event {
                CaptureEvent::WindowRect(Ok(rect)) => {
                    let width = rect.right - rect.left;
                    let height = rect.bottom - rect.top;
                    if width <= i32::MAX && height <= i32::MAX && width >= i32::MIN && height
                        >= i32::MIN {
                        CaptureState { step: CaptureStep::IsIconic, width, height, ..self }
                    } else {
                        self.failing(WindowsApiCaptureWindowImageError::InvalidBitmap)
                    }
                },
                CaptureEvent::WindowRect(Err(code)) => self.failing(
                    WindowsApiCaptureWindowImageError::GetWindowRectError(
                        WindowsApiGetWindowRectError::Generic(code),
                    ),
                ),
                _ => self.failing(WindowsApiCaptureWindowImageError::Generic(0)),
            },
            CaptureStep::IsIconic => match event {
                CaptureEvent::Iconic(false) => CaptureState { step: CaptureStep::IsWindow, ..self },
                CaptureEvent::Iconic(true) => self.failing(
                    WindowsApiCaptureWindowImageError::IsMinimized,
                ),
                _ => self.failing(WindowsApiCaptureWindowImageError::Generic(0)),
            },
            CaptureStep::IsWindow => match event {
                CaptureEvent::Window(true) => CaptureState {
                    step: CaptureStep::GetWindowDc,
                    ..self
                },
                CaptureEvent::Window(false) => self.failing(
                    WindowsApiCaptureWindowImageError::HandleNoLongerValid,
                ),
                _ => self.failing(WindowsApiCaptureWindowImageError::Generic(0)),
            },
            CaptureStep::GetWindowDc => match event {
                CaptureEvent::Acquired(Ok(_)) => CaptureState {
                    step: CaptureStep::CreateCompatibleDc,
                    window_dc: true,
                    ..self
                },
                CaptureEvent::Acquired(Err(code)) => self.failing(
                    WindowsApiCaptureWindowImageError::GetWindowDcError(code),
                ),
                _ => self.failing(WindowsApiCaptureWindowImageError::Generic(0)),
            },
            CaptureStep::CreateCompatibleDc => match event {
                CaptureEvent::Acquired(Ok(_)) => CaptureState {
                    step: CaptureStep::CreateCompatibleBitmap {
                        width: self.width as i32,
                        height: self.height as i32,
                    },
                    memory_dc: true,
                    ..self
                },
                CaptureEvent::Acquired(Err(code)) => self.failing(
                    WindowsApiCaptureWindowImageError::CreateCompatibleDcError(code),
                ),
                _ => self.failing(WindowsApiCaptureWindowImageError::Generic(0)),
            },
            CaptureStep::CreateCompatibleBitmap { .. } => match event {
                CaptureEvent::Acquired(Ok(_)) => CaptureState {
                    step: CaptureStep::SelectBitmap,
                    bitmap: true,
                    ..self
                },
                CaptureEvent::Acquired(Err(code)) => self.failing(
                    WindowsApiCaptureWindowImageError::CreateCompatibleBitmapError(code),
                ),
                _ => self.failing(WindowsApiCaptureWindowImageError::Generic(0)),
            },
            CaptureStep::SelectBitmap => CaptureState {
                step: CaptureStep::CopyBitmap {
                    width: self.width as i32,
                    height: self.height as i32,
                },
                selected: true,
                ..self
            },
            CaptureStep::CopyBitmap { .. } => match event {
                CaptureEvent::Copied(Ok(_)) => CaptureState {
                    step: CaptureStep::RestoreBitmap,
                    ..self
                },
                CaptureEvent::Copied(Err(code)) => self.failing(
                    WindowsApiCaptureWindowImageError::CopyBitmapError(code),
                ),
                _ => self.failing(WindowsApiCaptureWindowImageError::Generic(0)),
            },
            CaptureStep::RestoreBitmap => {
                let restored = CaptureState { selected: false, ..self };
                if self.outcome is Some {
                    CaptureState { step: restored.release_step(), ..restored }
                } else if self.buffer_fits() {
                    CaptureState {
                        step: CaptureStep::GetDiBits {
                            width: self.width as i32,
                            height: self.height as i32,
                            buffer_len: (4 * (self.width * self.height)) as usize,
                        },
                        ..restored
                    }
                } else {
                    restored.failing(WindowsApiCaptureWindowImageError::InvalidBitmap)
                }
            },
            CaptureStep::GetDiBits { .. } => match event {
                CaptureEvent::Bits(Ok(data)) => if 4 * (self.width * self.height)
                    <= data@.len() {
                    self.ending(
                        Ok(
                            raster_of_bytes(
                                self.width as nat,
                                self.height as nat,
                                swap_red_blue(data@),
                            ),
                        ),
                    )
                } else {
                    self.failing(WindowsApiCaptureWindowImageError::InvalidBitmap)
                },
                CaptureEvent::Bits(Err(code)) => self.failing(
                    WindowsApiCaptureWindowImageError::DiBitsToBufferError(code),
                ),
                _ => self.failing(WindowsApiCaptureWindowImageError::Generic(0)),
            },
            CaptureStep::DeleteBitmap => {
                let released = CaptureState { bitmap: false, ..self };
                CaptureState { step: released.release_step(), ..released }
            },
            CaptureStep::DeleteDc => {
                let released = CaptureState { memory_dc: false, ..self };
                CaptureState { step: released.release_step(), ..released }
            },
            CaptureStep::ReleaseDc => {
                let released = CaptureState { window_dc: false, ..self };
                CaptureState { step: released.release_step(), ..released }
            },
            CaptureStep::Finish => self,
        }
    }

    /// What the capture holds at each step, and what is known of its
    /// outcome there. Every state that a capture reaches is of this kind.
    pub open spec fn wf(self) -> bool {
        &&& i32::MIN <= self.width <= i32::MAX
        &&& i32::MIN <= self.height <= i32::MAX
        &&& match self.step {
            CaptureStep::GetWindowRect | CaptureStep::IsIconic | CaptureStep::IsWindow
            | CaptureStep::GetWindowDc => !self.window_dc && !self.memory_dc && !self.bitmap
                && !self.selected && self.outcome is None,
            CaptureStep::CreateCompatibleDc => self.window_dc && !self.memory_dc && !self.bitmap
                && !self.selected && self.outcome is None,
            CaptureStep::CreateCompatibleBitmap { width, height } => self.window_dc
                && self.memory_dc && !self.bitmap && !self.selected && self.outcome is None
                && width == self.width && height == self.height,
            CaptureStep::SelectBitmap => self.window_dc && self.memory_dc && self.bitmap
                && !self.selected && self.outcome is None,
            CaptureStep::CopyBitmap { width, height } => self.window_dc && self.memory_dc
                && self.bitmap && self.selected && self.outcome is None && width == self.width
                && height == self.height,
            CaptureStep::RestoreBitmap => self.window_dc && self.memory_dc && self.bitmap
                && self.selected,
            CaptureStep::GetDiBits { width, height, buffer_len } => self.window_dc
                && self.memory_dc && self.bitmap && !self.selected && self.outcome is None
                && width == self.width && height == self.height && self.buffer_fits()
                && buffer_len == 4 * (self.width * self.height),
            CaptureStep::DeleteBitmap => self.window_dc && self.memory_dc && self.bitmap
                && !self.selected && self.outcome is Some,
            CaptureStep::DeleteDc => self.window_dc && self.memory_dc && !self.bitmap
                && !self.selected && self.outcome is Some,
            CaptureStep::ReleaseDc => self.window_dc && !self.memory_dc && !self.bitmap
                && !self.selected && self.outcome is Some,
            CaptureStep::Finish => !self.window_dc && !self.memory_dc && !self.bitmap
                && !self.selected && self.outcome is Some,
        }
    }

    /// An upper bound on the number of steps that are left.
    pub open spec fn steps_left(self) -> nat {
        match self.step {
            CaptureStep::GetWindowRect => 13,
            CaptureStep::IsIconic => 12,
            CaptureStep::IsWindow => 11,
            CaptureStep::GetWindowDc => 10,
            CaptureStep::CreateCompatibleDc => 9,
            CaptureStep::CreateCompatibleBitmap { .. } => 8,
            CaptureStep::SelectBitmap => 7,
            CaptureStep::CopyBitmap { .. } => 6,
            CaptureStep::RestoreBitmap => 5,
            CaptureStep::GetDiBits { .. } => 4,
            CaptureStep::DeleteBitmap => 3,
            CaptureStep::DeleteDc => 2,
            CaptureStep::ReleaseDc => 1,
            CaptureStep::Finish => 0,
        }
    }
}

/// The capture of one window, driven step by step: the worker asks
/// `next_step` what to do, does it, and hands what came of it to `advance`,
/// until the step is `Finish`. Whatever the system answers, the capture
/// gives back all that it acquired before it finishes.
pub struct WindowCapture {
    step: CaptureStep,
    width: i32,
    height: i32,
    window_dc: bool,
    memory_dc: bool,
    bitmap: bool,
    selected: bool,
    outcome: Option<Result<Image, WindowsApiCaptureWindowImageError>>,
}

impl View for WindowCapture {
    type V = CaptureState;

    closed spec fn view(&self) -> CaptureState {
        CaptureState {
            step: self.step,
            width: self.width as int,
            height: self.height as int,
            window_dc: self.window_dc,
            memory_dc: self.memory_dc,
            bitmap: self.bitmap,
            selected: self.selected,
            outcome: match self.outcome {
                None => None,
                Some(Ok(image)) => Some(Ok(image@)),
                Some(Err(e)) => Some(Err(e)),
            },
        }
    }
}

impl WindowCapture {
    #[verifier::type_invariant]
    spec fn reachable(&self) -> bool {
        self@.wf()
    }

    /// A capture that has done nothing yet.
    pub fn start() -> (capture: Self)
        ensures
            capture@ == CaptureState::start(),
    {
        WindowCapture {
            step: CaptureStep::GetWindowRect,
            width: 0,
            height: 0,
            window_dc: false,
            memory_dc: false,
            bitmap: false,
            selected: false,
            outcome: None,
        }
    }

    /// What the worker does next.
    pub fn next_step(&self) -> (step: CaptureStep)
        ensures
            step == self@.step,
    {
        self.step
    }

    /// Whether nothing is left to do. The capture then holds nothing of the
    /// system.
    pub fn is_finished(&self) -> (finished: bool)
        ensures
            finished == (self@.step is Finish),
            finished ==> !self@.window_dc && !self@.memory_dc && !self@.bitmap && self@.outcome
                is Some,
    {
        proof {
            use_type_invariant(self);
        }
        match self.step {
            CaptureStep::Finish => true,
            _ => false,
        }
    }

    /// The capture after `event` has come of the step that was next.
    pub fn advance(self, event: CaptureEvent) -> (next: Self)
        ensures
            next@ == self@.after(event),
    {
        proof {
            use_type_invariant(&self);
            lemma_capture_stays_wf(self@, event);
        }
        match self.step {
            CaptureStep::GetWindowRect => match event {
                CaptureEvent::WindowRect(Ok(rect)) => {
                    let width: i64 = rect.right as i64 - rect.left as i64;
                    let height: i64 = rect.bottom as i64 - rect.top as i64;
                    if width <= i32::MAX as i64 && height <= i32::MAX as i64 && width
                        >= i32::MIN as i64 && height >= i32::MIN as i64 {
                        WindowCapture {
                            step: CaptureStep::IsIconic,
                            width: width as i32,
                            height: height as i32,
                            ..self
                        }
                    } else {
                        self.failing(WindowsApiCaptureWindowImageError::InvalidBitmap)
                    }
                },
                CaptureEvent::WindowRect(Err(code)) => self.failing(
                    WindowsApiCaptureWindowImageError::GetWindowRectError(
                        WindowsApiGetWindowRectError::Generic(code),
                    ),
                ),
                _ => self.failing(WindowsApiCaptureWindowImageError::Generic(0)),
            },
            CaptureStep::IsIconic => match event {
                CaptureEvent::Iconic(false) => WindowCapture {
                    step: CaptureStep::IsWindow,
                    ..self
                },
                CaptureEvent::Iconic(true) => self.failing(
                    WindowsApiCaptureWindowImageError::IsMinimized,
                ),
                _ => self.failing(WindowsApiCaptureWindowImageError::Generic(0)),
            },
            CaptureStep::IsWindow => match event {
                CaptureEvent::Window(true) => WindowCapture {
                    step: CaptureStep::GetWindowDc,
                    ..self
                },
                CaptureEvent::Window(false) => self.failing(
                    WindowsApiCaptureWindowImageError::HandleNoLongerValid,
                ),
                _ => self.failing(WindowsApiCaptureWindowImageError::Generic(0)),
            },
            CaptureStep::GetWindowDc => match event {
                CaptureEvent::Acquired(Ok(_)) => WindowCapture {
                    step: CaptureStep::CreateCompatibleDc,
                    window_dc: true,
                    ..self
                },
                CaptureEvent::Acquired(Err(code)) => self.failing(
                    WindowsApiCaptureWindowImageError::GetWindowDcError(code),
                ),
                _ => self.failing(WindowsApiCaptureWindowImageError::Generic(0)),
            },
            CaptureStep::CreateCompatibleDc => match event {
                CaptureEvent::Acquired(Ok(_)) => WindowCapture {
                    step: CaptureStep::CreateCompatibleBitmap {
                        width: self.width,
                        height: self.height,
                    },
                    memory_dc: true,
                    ..self
                },
                CaptureEvent::Acquired(Err(code)) => self.failing(
                    WindowsApiCaptureWindowImageError::CreateCompatibleDcError(code),
                ),
                _ => self.failing(WindowsApiCaptureWindowImageError::Generic(0)),
            },
            CaptureStep::CreateCompatibleBitmap { .. } => match event {
                CaptureEvent::Acquired(Ok(_)) => WindowCapture {
                    step: CaptureStep::SelectBitmap,
                    bitmap: true,
                    ..self
                },
                CaptureEvent::Acquired(Err(code)) => self.failing(
                    WindowsApiCaptureWindowImageError::CreateCompatibleBitmapError(code),
                ),
                _ => self.failing(WindowsApiCaptureWindowImageError::Generic(0)),
            },
            CaptureStep::SelectBitmap => WindowCapture {
                step: CaptureStep::CopyBitmap { width: self.width, height: self.height },
                selected: true,
                ..self
            },
            CaptureStep::CopyBitmap { .. } => match event {
                CaptureEvent::Copied(Ok(_)) => WindowCapture {
                    step: CaptureStep::RestoreBitmap,
                    ..self
                },
                CaptureEvent::Copied(Err(code)) => self.failing(
                    WindowsApiCaptureWindowImageError::CopyBitmapError(code),
                ),
                _ => self.failing(WindowsApiCaptureWindowImageError::Generic(0)),
            },
            CaptureStep::RestoreBitmap => {
                let known: bool = self.outcome.is_some();
                let buffer_len = buffer_len(self.width, self.height);
                let step = release_step(self.window_dc, self.memory_dc, self.bitmap);
                if known {
                    WindowCapture { selected: false, step, ..self }
                } else {
                    match buffer_len {
                        Some(buffer_len) => WindowCapture {
                            selected: false,
                            step: CaptureStep::GetDiBits {
                                width: self.width,
                                height: self.height,
                                buffer_len,
                            },
                            ..self
                        },
                        None => WindowCapture {
                            selected: false,
                            step,
                            outcome: Some(Err(WindowsApiCaptureWindowImageError::InvalidBitmap)),
                            ..self
                        },
                    }
                }
            },
            CaptureStep::GetDiBits { .. } => match event {
                CaptureEvent::Bits(Ok(data)) => {
                    if self.width >= 0 && self.height >= 0 {
                        match Image::from_bgra(self.width as u32, self.height as u32, data) {
                            Some(image) => self.ending(Ok(image)),
                            None => self.failing(WindowsApiCaptureWindowImageError::InvalidBitmap),
                        }
                    } else {
                        self.failing(WindowsApiCaptureWindowImageError::InvalidBitmap)
                    }
                },
                CaptureEvent::Bits(Err(code)) => self.failing(
                    WindowsApiCaptureWindowImageError::DiBitsToBufferError(code),
                ),
                _ => self.failing(WindowsApiCaptureWindowImageError::Generic(0)),
            },
            CaptureStep::DeleteBitmap => WindowCapture {
                step: release_step(self.window_dc, self.memory_dc, false),
                bitmap: false,
                ..self
            },
            CaptureStep::DeleteDc => WindowCapture {
                step: release_step(self.window_dc, false, self.bitmap),
                memory_dc: false,
                ..self
            },
            CaptureStep::ReleaseDc => WindowCapture {
                step: release_step(false, self.memory_dc, self.bitmap),
                window_dc: false,
                ..self
            },
            CaptureStep::Finish => self,
        }
    }

    /// How the capture ended: the image, or the step that failed. A capture
    /// that is not finished gives `Generic(0)`.
    pub fn finish(self) -> (outcome: Result<Image, WindowsApiCaptureWindowImageError>)
        ensures
            !(self@.step is Finish) ==> outcome == Err::<Image, WindowsApiCaptureWindowImageError>(
                WindowsApiCaptureWindowImageError::Generic(0),
            ),
            self@.step is Finish ==> match self@.outcome {
                Some(Ok(raster)) => outcome is Ok && outcome->Ok_0@ == raster,
                Some(Err(e)) => outcome == Err::<Image, WindowsApiCaptureWindowImageError>(e),
                None => false,
            },
    {
        proof {
            use_type_invariant(&self);
        }
        let finished = self.is_finished();
        match self.outcome {
            Some(outcome) => if finished {
                outcome
            } else {
                Err(WindowsApiCaptureWindowImageError::Generic(0))
            },
            None => Err(WindowsApiCaptureWindowImageError::Generic(0)),
        }
    }

    fn failing(self, error: WindowsApiCaptureWindowImageError) -> (next: Self)
        requires
            self@.failing(error).wf(),
        ensures
            next@ == self@.failing(error),
    {
        self.ending(Err(error))
    }

    fn ending(self, outcome: Result<Image, WindowsApiCaptureWindowImageError>) -> (next: Self)
        requires
            self@.ending(
                match outcome {
                    Ok(image) => Ok(image@),
                    Err(e) => Err(e),
                },
            ).wf(),
        ensures
            next@ == self@.ending(
                match outcome {
                    Ok(image) => Ok(image@),
                    Err(e) => Err(e),
                },
            ),
    {
        let step = if self.selected {
            CaptureStep::RestoreBitmap
        } else {
            release_step(self.window_dc, self.memory_dc, self.bitmap)
        };
        let known: bool = self.outcome.is_some();
        if known {
            WindowCapture { step, ..self }
        } else {
            WindowCapture { step, outcome: Some(outcome), ..self }
        }
    }
}

/// The step that gives back what was acquired last and is still held.
fn release_step(window_dc: bool, memory_dc: bool, bitmap: bool) -> (step: CaptureStep)
    ensures
        step == (CaptureState {
            step: CaptureStep::Finish,
            width: 0,
            height: 0,
            window_dc,
            memory_dc,
            bitmap,
            selected: false,
            outcome: None,
        }).release_step(),
{
    if bitmap {
        CaptureStep::DeleteBitmap
    } else if memory_dc {
        CaptureStep::DeleteDc
    } else if window_dc {
        CaptureStep::ReleaseDc
    } else {
        CaptureStep::Finish
    }
}

/// The bytes of a bitmap of this size at four bytes per pixel, if the sides
/// are not negative and the number fits.
fn buffer_len(width: i32, height: i32) -> (len: Option<usize>)
    ensures
        match len {
            Some(n) => 0 <= width && 0 <= height && n == 4 * (width * height),
            None => !(0 <= width && 0 <= height && 4 * (width * height) <= usize::MAX),
        },
{
    if width < 0 || height < 0 {
        return None;
    }
    assert(0 <= width * height <= 0x7FFF_FFFF * 0x7FFF_FFFF) by (nonlinear_arith)
        requires
            0 <= width <= 0x7FFF_FFFF,
            0 <= height <= 0x7FFF_FFFF,
    ;
    let bytes: u64 = 4 * (width as u64 * height as u64);
    if bytes <= usize::MAX as u64 {
        Some(bytes as usize)
    } else {
        None
    }
}

/// A capture starts holding nothing, and every step keeps the state of the
/// kind that `wf` describes.
pub proof fn lemma_capture_stays_wf(state: CaptureState, event: CaptureEvent)
    requires
        state.wf(),
    ensures
        CaptureState::start().wf(),
        state.after(event).wf(),
{
}

/// A capture that has nothing left to do holds nothing of the system: what
/// it acquired it has given back, whether it ended with an image or with
/// an error.
pub proof fn lemma_finished_capture_holds_nothing(state: CaptureState)
    requires
        state.wf(),
        state.step is Finish,
    ensures
        !state.window_dc && !state.memory_dc && !state.bitmap && !state.selected,
        state.outcome is Some,
{
}

/// Every step brings the capture nearer to its end, whatever comes of it:
/// a capture is over after no more than thirteen steps.
pub proof fn lemma_capture_ends(state: CaptureState, event: CaptureEvent)
    requires
        state.wf(),
        !(state.step is Finish),
    ensures
        state.after(event).steps_left() < state.steps_left(),
{
}

/// Once the outcome of a capture is known, no later step changes it.
pub proof fn lemma_outcome_is_final(state: CaptureState, event: CaptureEvent)
    requires
        state.wf(),
        state.outcome is Some,
    ensures
        state.after(event).outcome == state.outcome,
{
}

/// A window that turns out to be minimized after its rectangle was had
/// gives no image: the capture ends at once with `IsMinimized`, having
/// acquired nothing.
pub proof fn lemma_minimized_window_gives_no_image(state: CaptureState)
    requires
        state.wf(),
        state.step is IsIconic,
    ensures
        state.after(CaptureEvent::Iconic(true)).step is Finish,
        state.after(CaptureEvent::Iconic(true)).outcome == Some(
            Err::<Raster, WindowsApiCaptureWindowImageError>(
                WindowsApiCaptureWindowImageError::IsMinimized,
            ),
        ),
{
}

} // verus!
