use vstd::prelude::*;

verus! {

/// A physical mouse button.
#[derive(Clone, Copy, Debug, PartialEq, Eq, Hash, Structural)]
pub enum MouseButton {
    Left,
    Right,
    Middle,
    /// Another button, by the number the platform gives it.
    Other(u16),
}

/// All types of axis that can be moved in a mouse.
#[derive(Clone, Copy, Debug, PartialEq, Eq, Hash, Structural)]
pub enum MouseAxisType {
    X,
    Y,
    Wheel,
}

/// One physical, device-level input signal. Absolute axes and delta axes over the
/// same axis type are distinct receivers, so a position and a motion never collide.
#[derive(Clone, Copy, Debug, PartialEq, Eq, Hash, Structural)]
pub enum InputReceiver {
    MouseButton(MouseButton),
    MouseAxis(MouseAxisType),
    MouseAxisDelta(MouseAxisType),
}

/// The device class that wrote into a view.
#[derive(Clone, Copy, Debug, PartialEq, Eq, Hash, Structural)]
pub enum InputSource {
    Keyboard,
    Mouse,
    Gamepad,
}

} // verus!
