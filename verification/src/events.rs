//! The portable event vocabulary: identifiers, input state, and the event
//! union that the loop delivers to the user callback.
//!
//! Coordinates and sizes are carried as plain integers (physical pixels);
//! the adapter converts between native floating-point units and these.

use vstd::prelude::*;
use vstd::string::*;

verus! {

/// Identifier of a window, derived from the native window handle.
/// Unique only within one loop's lifetime.
#[derive(Debug, Copy, Clone, PartialEq, Eq, Structural, PartialOrd, Ord, Hash)]
pub struct WindowId(pub u64);

/// Identifier of an input device. Devices may be virtual (aggregating
/// several physical devices) or physical.
#[derive(Debug, Copy, Clone, PartialEq, Eq, Structural, PartialOrd, Ord, Hash)]
pub struct DeviceId(pub i64);

/// Whether a key or button was pressed or released.
#[derive(Debug, Copy, Clone, PartialEq, Eq, Structural, Hash)]
pub enum ElementState {
    Pressed,
    Released,
}

/// Snapshot of the keyboard modifiers at the time of an event.
#[derive(Debug, Copy, Clone, PartialEq, Eq, Structural, Default, Hash)]
pub struct ModifiersState {
    pub shift: bool,
    pub ctrl: bool,
    pub alt: bool,
    pub logo: bool,
}

/// Portable virtual key, independent of layout-specific keysyms.
#[derive(Debug, Copy, Clone, PartialEq, Eq, Structural, Hash)]
pub enum VirtualKeyCode {
    Key0,
    Key1,
    Key2,
    Key3,
    Key4,
    Key5,
    Key6,
    Key7,
    Key8,
    Key9,
    A,
    B,
    C,
    D,
    E,
    F,
    G,
    H,
    I,
    J,
    K,
    L,
    M,
    N,
    O,
    P,
    Q,
    R,
    S,
    T,
    U,
    V,
    W,
    X,
    Y,
    Z,
    Escape,
    Space,
    Return,
    Back,
    Tab,
    Delete,
    Home,
    End,
    PageUp,
    PageDown,
    Left,
    Up,
    Right,
    Down,
    LShift,
    RShift,
    LControl,
    RControl,
    LAlt,
    RAlt,
    LWin,
    RWin,
}

/// One keyboard event as delivered to the user: hardware scancode, optional
/// portable key, press/release state, and the modifier snapshot.
#[derive(Debug, Copy, Clone, PartialEq, Eq, Structural)]
pub struct KeyboardInput {
    pub scancode: u32,
    pub state: ElementState,
    pub virtual_keycode: Option<VirtualKeyCode>,
    pub modifiers: ModifiersState,
}

/// Phase of a touch, derived from the platform's touch-phase code.
#[derive(Debug, Copy, Clone, PartialEq, Eq, Structural, Hash)]
pub enum TouchPhase {
    Started,
    Moved,
    Ended,
    Cancelled,
}

/// One touch point: its device, a stable per-touch identifier, the location
/// in physical pixels, and the phase.
#[derive(Debug, Copy, Clone, PartialEq, Eq, Structural)]
pub struct Touch {
    pub device_id: DeviceId,
    pub id: u64,
    pub x: i64,
    pub y: i64,
    pub phase: TouchPhase,
}

/// Events that concern one window.
#[derive(Debug, Clone, PartialEq, Eq)]
pub enum WindowEvent {
    /// The window's client area was resized to this size in physical pixels.
    Resized(u32, u32),
    /// The window moved; outer position in physical pixels.
    Moved(i64, i64),
    /// The close button was pressed.
    CloseRequested,
    /// The window was destroyed.
    Destroyed,
    /// The window gained or lost keyboard focus.
    Focused(bool),
    /// A keyboard event on this window.
    KeyboardInput { device_id: DeviceId, input: KeyboardInput },
    /// A character the input pipeline committed for this window.
    ReceivedCharacter(char),
    /// The pointer moved over the window; position in physical pixels.
    CursorMoved { device_id: DeviceId, x: i64, y: i64, modifiers: ModifiersState },
    /// A mouse button was pressed or released.
    MouseInput { device_id: DeviceId, state: ElementState, button: u8, modifiers: ModifiersState },
    /// A touch event.
    Touch(Touch),
}

/// Device-level events, not tied to a window.
#[derive(Debug, Clone, PartialEq, Eq)]
pub enum DeviceEvent {
    /// Relative pointer motion in device units.
    MouseMotion { dx: i64, dy: i64 },
    /// A raw button event.
    Button { button: u32, state: ElementState },
    /// A raw key event.
    Key(KeyboardInput),
}

/// Why an iteration of the loop started.
#[derive(Debug, Copy, Clone, PartialEq, Eq, Structural)]
pub enum StartCause {
    /// The very first iteration.
    Init,
    /// The previous iteration asked to poll.
    Poll,
    /// A wait was cut short by an incoming event or wakeup. `start` is when
    /// the wait began; `requested_resume` is the deadline, if one was set.
    WaitCancelled { start: u64, requested_resume: Option<u64> },
    /// A requested resume time was reached. Field meaning as above.
    ResumeTimeReached { start: u64, requested_resume: u64 },
}

/// The event union handed to the user callback. `T` is the user-event
/// payload injected through the loop's proxy.
#[derive(Debug, Clone, PartialEq, Eq)]
pub enum Event<T> {
    /// First event of every iteration.
    NewEvents(StartCause),
    /// An event concerning one window.
    WindowEvent { window_id: WindowId, event: WindowEvent },
    /// An event concerning one device.
    DeviceEvent { device_id: DeviceId, event: DeviceEvent },
    /// A value sent through the loop's proxy from any thread.
    UserEvent(T),
    /// Last ordinary event of every iteration.
    EventsCleared,
    /// The loop is tearing down; no callback invocation follows it.
    LoopDestroyed,
    /// The application was suspended (`true`) or resumed (`false`).
    Suspended(bool),
}

/// Turns text the native text-input system committed for a window into
/// one `ReceivedCharacter` event per character, in text order.
pub fn received_character_events<T>(window_id: WindowId, text: &str) -> (r: Vec<Event<T>>)
    ensures
        r@.len() == text@.len(),
        forall|i: int|
            0 <= i < r@.len() ==> #[trigger] r@[i] == (Event::<T>::WindowEvent {
                window_id,
                event: WindowEvent::ReceivedCharacter(text@[i]),
            }),
{
    let n = text.unicode_len();
    let mut events: Vec<Event<T>> = Vec::new();
    let mut i: usize = 0;
    while i < n
        invariant
            i <= n,
            n == text@.len(),
            events@.len() == i,
            forall|j: int|
                0 <= j < i ==> #[trigger] events@[j] == (Event::<T>::WindowEvent {
                    window_id,
                    event: WindowEvent::ReceivedCharacter(text@[j]),
                }),
        decreases n - i,
    {
        events.push(
            Event::WindowEvent {
                window_id,
                event: WindowEvent::ReceivedCharacter(text.get_char(i)),
            },
        );
        i = i + 1;
    }
    events
}

/// The application-lifecycle notifications a mobile-style platform
/// delivers through its delegate.
#[derive(Debug, Copy, Clone, PartialEq, Eq, Structural)]
pub enum LifecycleEvent {
    /// The application became active.
    BecameActive,
    /// The application is about to resign active.
    WillResignActive,
    /// The application returns to the foreground.
    WillEnterForeground,
    /// The application moved to the background.
    DidEnterBackground,
    /// The application is about to terminate.
    WillTerminate,
}

/// Translates a lifecycle notification into the portable event: activity
/// changes become focus events of the primary window, background moves
/// become suspension events, and termination destroys the window.
pub fn normalize_lifecycle<T>(kind: LifecycleEvent, window_id: WindowId) -> (r: Event<T>)
    ensures
        r == (match kind {
            LifecycleEvent::BecameActive => Event::<T>::WindowEvent {
                window_id,
                event: WindowEvent::Focused(true),
            },
            LifecycleEvent::WillResignActive => Event::<T>::WindowEvent {
                window_id,
                event: WindowEvent::Focused(false),
            },
            LifecycleEvent::WillEnterForeground => Event::<T>::Suspended(false),
            LifecycleEvent::DidEnterBackground => Event::<T>::Suspended(true),
            LifecycleEvent::WillTerminate => Event::<T>::WindowEvent {
                window_id,
                event: WindowEvent::Destroyed,
            },
        }),
{
    match kind {
        LifecycleEvent::BecameActive => Event::WindowEvent {
            window_id,
            event: WindowEvent::Focused(true),
        },
        LifecycleEvent::WillResignActive => Event::WindowEvent {
            window_id,
            event: WindowEvent::Focused(false),
        },
        LifecycleEvent::WillEnterForeground => Event::Suspended(false),
        LifecycleEvent::DidEnterBackground => Event::Suspended(true),
        LifecycleEvent::WillTerminate => Event::WindowEvent {
            window_id,
            event: WindowEvent::Destroyed,
        },
    }
}

/// Maps a platform touch-phase code to the portable phase. Codes outside
/// the documented set yield `None` and the event is dropped, never a panic.
pub fn touch_phase_from_code(code: i32) -> (r: Option<TouchPhase>)
    ensures
        r == (match code {
            0i32 => Some(TouchPhase::Started),
            1i32 => Some(TouchPhase::Moved),
            3i32 => Some(TouchPhase::Ended),
            4i32 => Some(TouchPhase::Cancelled),
            _ => None::<TouchPhase>,
        }),
{
    match code {
        0 => Some(TouchPhase::Started),
        1 => Some(TouchPhase::Moved),
        3 => Some(TouchPhase::Ended),
        4 => Some(TouchPhase::Cancelled),
        _ => None,
    }
}

/// The control character a terminal-style shortcut commits when the native
/// text system reports a no-op command: the queued key pressed together
/// with Control maps to its caret-notation control code.
pub fn control_char_for_noop(queued: Option<VirtualKeyCode>) -> (r: Option<char>)
    ensures
        r == (match queued {
            Some(VirtualKeyCode::C) => Some(3 as char),
            Some(VirtualKeyCode::D) => Some(4 as char),
            Some(VirtualKeyCode::V) => Some(22 as char),
            Some(VirtualKeyCode::Z) => Some(26 as char),
            _ => None::<char>,
        }),
{
    match queued {
        Some(VirtualKeyCode::C) => Some(3 as char),
        Some(VirtualKeyCode::D) => Some(4 as char),
        Some(VirtualKeyCode::V) => Some(22 as char),
        Some(VirtualKeyCode::Z) => Some(26 as char),
        _ => None,
    }
}

} // verus!
