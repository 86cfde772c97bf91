//! Decision and bookkeeping logic of a ray-cast-wheel driving game:
//! keyboard intents, throttle and steering smoothing, suspension and aero
//! magnitudes, tire friction and skids, wheel contact bookkeeping, follow
//! and free camera choices, frame timing, host toggles and OBJ face records.
//! Quantities are fixed-point integers; each constant names its unit.
pub mod arith;
pub mod camera;
pub mod car;
pub mod chassis;
pub mod controller;
pub mod framerate;
pub mod host;
pub mod input;
pub mod obj;
pub mod wheels;
