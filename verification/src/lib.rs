//! Keyboard forwarding for terminal applications: turns the key events a
//! terminal reports into explicit press and release events, emulating key
//! releases and modifier keys where the terminal does not report them itself.

pub mod capability;
pub mod detection;
pub mod emulation;
pub mod exactly_once;
pub mod forwarding;
pub mod held;
pub mod keys;
pub mod laws;
pub mod modifiers;
pub mod release;
pub mod sequences;
pub mod translate;
