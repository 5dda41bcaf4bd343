//! Interpolation modes for key-framed tracks: the closed set of curve shapes
//! and the one-byte tag each of them is stored and sent under.

pub mod interpolation;
