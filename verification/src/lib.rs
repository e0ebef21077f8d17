//! Decision logic of a libc interposition layer that serves file-system calls
//! from an embedded, read-only virtual file system.
//!
//! Every intercepted call first asks whether the calling thread runs in
//! virtual mode (`context`), then routes the call either to the native libc
//! function or to the virtual file system, and finally turns the virtual file
//! system's answer into the value and `errno` that the caller sees
//! (`dispatch`). The numeric constants that these rules use are read from
//! `libc` (`sys`).
pub mod context;
pub mod sys;
pub mod dispatch;
