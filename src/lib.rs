//! Debounced inputs, a small event/handler composition framework and a PWM
//! fade controller, as decision logic that an async runtime drives.
pub mod debounce;
pub mod event;
pub mod light;

pub use debounce::{
    state_from_button, ButtonState, DebounceStep, Debouncer, PairProbe, PushClassifier, PushState,
    PushStep,
};
pub use event::{
    join_outcome, next_pending, ConnectionConsistent, ConnectionInterrupting, Either, Event,
    JoinEvent, JoinHandler,
};
pub use light::{
    Channel, Fade, PwmChannel, PwmLed, PwmLedChannelState, PwmLedDirection, PwmLedEvent,
    SinglePwmLedInput,
};
