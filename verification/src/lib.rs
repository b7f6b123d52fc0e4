//! Managing devcontainers: locating them among the containers that Docker
//! reports, the environment handed to a command run inside one, and the bytes
//! a terminal key produces.

pub mod text;
pub mod keys;
pub mod environment;
pub mod devcontainer;
pub mod terminal;
pub mod session;
