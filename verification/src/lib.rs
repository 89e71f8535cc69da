//! Input-method front end logic for the Rime engine: the engine's lifecycle and
//! session requests, the conversion of the engine's replies, the text shown while
//! composing, and the per-seat input-method state machine.

pub mod app_state;
pub mod input_method;
pub mod preedit;
pub mod rime;
