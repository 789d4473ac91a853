//! Window-manager policy pieces: configure ownership, the frame lifecycle,
//! pointer-commit orchestration and chrome refresh decisions.

pub mod configure;
pub mod lifecycle;
pub mod interaction;
pub mod chrome_runtime;
pub mod release;
pub mod workarea;
pub mod ewmh;
pub mod identity;
pub mod dispatch;
pub mod props;
pub mod publish;
pub mod changes;
pub mod config;
