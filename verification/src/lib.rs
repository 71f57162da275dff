//! Interactive core of a terminal dashboard for composing a commit and a
//! pull request: a session (file list, cursor, two text buffers, mode), the
//! key dispatcher with its three-mode transition table, a pure renderer
//! model, and the payload handed to the version-control and forge
//! collaborators on confirmation. Terminal I/O itself lives outside this
//! library; everything here is plain data and verified logic.

pub mod dispatch;
pub mod laws;
pub mod render;
pub mod session;
pub mod trigger;
