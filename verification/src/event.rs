//! The unified event taxonomy and the dispatcher that normalizes raw host
//! notifications into it.

use vstd::prelude::*;

verus! {

/// The set of keyboard modifiers, independent of physical layout.
///
/// `logo` is the platform-conventional "command" modifier (the `Primary`
/// token of the accelerator grammar).
#[derive(Clone, Copy, Debug, PartialEq, Eq, Structural)]
pub struct ModifiersState {
    pub shift: bool,
    pub ctrl: bool,
    pub alt: bool,
    pub logo: bool,
}

impl ModifiersState {
    /// No modifier is set.
    pub open spec fn spec_is_empty(&self) -> bool {
        !self.shift && !self.ctrl && !self.alt && !self.logo
    }

    /// The empty modifier set.
    pub fn empty() -> (m: ModifiersState)
        ensures
            m == (ModifiersState { shift: false, ctrl: false, alt: false, logo: false }),
    {
        ModifiersState { shift: false, ctrl: false, alt: false, logo: false }
    }

    /// Whether no modifier is set.
    pub fn is_empty(&self) -> (b: bool)
        ensures
            b == self.spec_is_empty(),
    {
        !self.shift && !self.ctrl && !self.alt && !self.logo
    }
}

/// Identifies the window an event originated from.
#[derive(Clone, Copy, Debug, PartialEq, Eq, Structural)]
pub struct WindowId(pub u64);

/// Identifies the input device an event originated from.
#[derive(Clone, Copy, Debug, PartialEq, Eq, Structural)]
pub struct DeviceId(pub u64);

/// Whether a key or button was pressed or released.
#[derive(Clone, Copy, Debug, PartialEq, Eq, Structural)]
pub enum ElementState {
    Pressed,
    Released,
}

/// The layout-independent keys the taxonomy recognizes.
#[derive(Clone, Copy, Debug, PartialEq, Eq, Structural)]
pub enum VirtualKeyCode {
    Escape,
    Return,
    Space,
    Tab,
    Back,
}

/// Focus-scoped, modifier-aware events of one window.
#[derive(Clone, Copy, Debug, PartialEq, Eq, Structural)]
pub enum WindowEvent {
    /// The user asked to close the window.
    CloseRequested,
    /// A keyboard key changed state while the window was focused.
    KeyboardInput { state: ElementState, virtual_keycode: Option<VirtualKeyCode>, scancode: u32 },
    /// The set of active modifiers changed.
    ModifiersChanged(ModifiersState),
}

/// Raw, unfiltered input reported per device.
///
/// Mouse deltas are reported in whole device counts.
#[derive(Clone, Copy, Debug, PartialEq, Eq, Structural)]
pub enum DeviceEvent {
    MouseMotion { delta_x: i64, delta_y: i64 },
    Button { button: u32, state: ElementState },
}

/// Why a new event batch begins.
#[derive(Clone, Copy, Debug, PartialEq, Eq, Structural)]
pub enum StartCause {
    /// First batch after the loop started.
    Init,
    /// The previous control flow was `Poll`.
    Poll,
    /// A notification arrived before the requested deadline.
    WaitCancelled,
    /// The requested deadline passed; a timeout wake was synthesized.
    ResumeTimeReached,
}

/// The single tagged event type the loop yields to application code.
///
/// `NewEvents` bounds the start of one turn of the loop and
/// `MainEventsCleared` its end; `LoopDestroyed` is the final teardown event.
#[derive(Clone, Copy, Debug, PartialEq)]
pub enum Event<T> {
    NewEvents(StartCause),
    WindowEvent { window_id: WindowId, event: WindowEvent },
    DeviceEvent { device_id: DeviceId, event: DeviceEvent },
    UserEvent(T),
    MainEventsCleared,
    LoopDestroyed,
}

/// A raw host notification, already reduced to plain values by the
/// host-facing glue: which window or device it concerns and what happened.
#[derive(Clone, Copy, Debug, PartialEq, Eq, Structural)]
pub enum HostNotification {
    CloseRequested { window: u64 },
    Key { window: u64, scancode: u32, virtual_keycode: Option<VirtualKeyCode>, pressed: bool },
    ModifiersChanged { window: u64, shift: bool, ctrl: bool, alt: bool, logo: bool },
    MouseMotion { device: u64, delta_x: i64, delta_y: i64 },
    Button { device: u64, button: u32, pressed: bool },
}

/// A press is reported as `Pressed` and a release as `Released`, never the
/// other way around.
pub open spec fn state_of(pressed: bool) -> ElementState {
    if pressed {
        ElementState::Pressed
    } else {
        ElementState::Released
    }
}

/// What each raw host notification normalizes to.
pub open spec fn normalized<T>(n: HostNotification) -> Event<T> {
    match n {
        HostNotification::CloseRequested { window } => Event::WindowEvent {
            window_id: WindowId(window),
            event: WindowEvent::CloseRequested,
        },
        HostNotification::Key { window, scancode, virtual_keycode, pressed } => Event::WindowEvent {
            window_id: WindowId(window),
            event: WindowEvent::KeyboardInput {
                state: state_of(pressed),
                virtual_keycode,
                scancode,
            },
        },
        HostNotification::ModifiersChanged { window, shift, ctrl, alt, logo } => Event::WindowEvent {
            window_id: WindowId(window),
            event: WindowEvent::ModifiersChanged(ModifiersState { shift, ctrl, alt, logo }),
        },
        HostNotification::MouseMotion { device, delta_x, delta_y } => Event::DeviceEvent {
            device_id: DeviceId(device),
            event: DeviceEvent::MouseMotion { delta_x, delta_y },
        },
        HostNotification::Button { device, button, pressed } => Event::DeviceEvent {
            device_id: DeviceId(device),
            event: DeviceEvent::Button { button, state: state_of(pressed) },
        },
    }
}

/// Normalize one raw host notification into the unified taxonomy, preserving
/// the originating window or device and strict event-kind fidelity.
pub fn normalize_host_event<T>(n: &HostNotification) -> (e: Event<T>)
    ensures
        e == normalized::<T>(*n),
{
    match *n {
        HostNotification::CloseRequested { window } => Event::WindowEvent {
            window_id: WindowId(window),
            event: WindowEvent::CloseRequested,
        },
        HostNotification::Key { window, scancode, virtual_keycode, pressed } => Event::WindowEvent {
            window_id: WindowId(window),
            event: WindowEvent::KeyboardInput {
                state: if pressed {
                    ElementState::Pressed
                } else {
                    ElementState::Released
                },
                virtual_keycode,
                scancode,
            },
        },
        HostNotification::ModifiersChanged { window, shift, ctrl, alt, logo } => Event::WindowEvent {
            window_id: WindowId(window),
            event: WindowEvent::ModifiersChanged(ModifiersState { shift, ctrl, alt, logo }),
        },
        HostNotification::MouseMotion { device, delta_x, delta_y } => Event::DeviceEvent {
            device_id: DeviceId(device),
            event: DeviceEvent::MouseMotion { delta_x, delta_y },
        },
        HostNotification::Button { device, button, pressed } => Event::DeviceEvent {
            device_id: DeviceId(device),
            event: DeviceEvent::Button {
                button,
                state: if pressed {
                    ElementState::Pressed
                } else {
                    ElementState::Released
                },
            },
        },
    }
}

/// Assemble one full turn of the loop from the notifications the host
/// produced, in the host's order: `NewEvents` always precedes the batch it
/// announces, every notification is normalized in place, and
/// `MainEventsCleared` always follows the last of them.
pub fn dispatch_turn<T>(cause: StartCause, notifications: &Vec<HostNotification>) -> (turn: Vec<
    Event<T>,
>)
    ensures
        turn@.len() == notifications@.len() + 2,
        turn@[0] == Event::<T>::NewEvents(cause),
        forall|j: int| 0 <= j < notifications@.len() ==> turn@[j + 1] == normalized::<T>(
            notifications@[j],
        ),
        turn@[turn@.len() - 1] == Event::<T>::MainEventsCleared,
{
    let n = notifications.len();
    let mut turn: Vec<Event<T>> = Vec::new();
    turn.push(Event::NewEvents(cause));
    let mut i: usize = 0;
    while i < n
        invariant
            n == notifications@.len(),
            i <= n,
            turn@.len() == i + 1,
            turn@[0] == Event::<T>::NewEvents(cause),
            forall|j: int| 0 <= j < i ==> turn@[j + 1] == normalized::<T>(notifications@[j]),
        decreases n - i,
    {
        let e = normalize_host_event(&notifications[i]);
        turn.push(e);
        i = i + 1;
    }
    turn.push(Event::MainEventsCleared);
    turn
}

} // verus!
