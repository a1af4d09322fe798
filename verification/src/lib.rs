//! Verified core of safe bindings to libass, the subtitle renderer.
//!
//! The raw library, renderer and track handles live in the companion
//! application crate, which talks to the C library. This crate holds every
//! decision those bindings make on the way in and on the way out: how Rust
//! strings become C strings, how lengths and flags become C integers, how the
//! Rust enums map to the C enum codes and back, and how the C results (null
//! handles, change codes, status codes) are read.

pub mod cint;
pub mod cstr;
pub mod error;
pub mod library;
pub mod renderer;
