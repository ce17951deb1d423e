//! Settings of a drone teleoperation client: where the drone is reached and
//! which keys and gamepad controls move it, with the fixed schema by which
//! the settings are written as a document and read back.

pub mod codec;
pub mod config;
pub mod error;
pub mod laws;
pub mod schema;
pub mod value;

pub use codec::{read_index, read_text};
pub use config::{Config, ControlSource, GamepadBindings, KeyboardBindings};
pub use error::{SchemaError, SchemaErrorKind};
pub use value::{Shape, Value};
