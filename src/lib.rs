//! Backend adapters of a declarative meta package manager: how a command is
//! prepared and judged, how toolchain identities are derived, and how the
//! application-store listings and commands are shaped.
pub mod cmd;
pub mod flatpak;
pub mod rustup;
pub mod text;
