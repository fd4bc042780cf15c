//! Per-frame input state for logical input contexts: device events are folded
//! into a map from physical receivers to press state and axis value.

pub mod frame_lemmas;
pub mod mouse;
pub mod receiver;
pub mod value;
pub mod view;

pub use mouse::{wheel_press_state, MouseInputHandlingSystem, MouseMarker};
pub use receiver::{InputReceiver, InputSource, MouseAxisType, MouseButton};
pub use value::{AxisValue, PressState, Vec2};
pub use view::{BindingTypeView, InputView, ReceiverDescriptor};
