//! Backend of a desktop code-review assistant. It exposes three
//! remote-invocable commands to a front end: a directory analysis that
//! reports issues with a severity summary, a system report, and a watch
//! acknowledgment. Each command's payload is pinned down exactly by its
//! contract, and no command ever fails.

pub mod commands;
pub mod model;
