//! Reading embedded image metadata as printable lines, and the greeting
//! command of the desktop shell.

pub mod greeting;
pub mod ifd;
pub mod metadata;
