//! The verified core of `lxc-run`, a small command-line front end to the LXC
//! container runtime.
//!
//! Nothing in this crate touches the runtime itself. The crate decides, and a
//! thin driver around it performs: [`lxc::Lxc`] says which call into the
//! runtime comes next and what the answer means, [`util::ffi::CStringVec`]
//! keeps the argument strings that such a call borrows as a `char **`, and
//! [`cmd`] holds what the command line contributes.

pub mod cmd;
pub mod error;
pub mod lxc;
pub mod model;
pub mod timeout;
pub mod util;
