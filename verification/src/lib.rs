//! Interoperability core of a binding to a native immediate-mode GUI library:
//! the symbolic key identifiers with the integers that key queries exchange
//! with the native side, and the model of the native dynamic array together
//! with the two capabilities by which a wrapper type gives access to the native
//! value that it stands for.

pub mod input;
pub mod internal;

pub use self::input::keyboard::Key;
