//! The worker that owns every native window call, one per backend: the
//! commands it takes, the responses it gives, and what it decides between
//! the native calls that only the application can make.

pub mod windows_backend;
pub mod x11_backend;
