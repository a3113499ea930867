//! Finds where Roblox Studio is installed.
//!
//! An installation is known by four paths: its root, its executable, the
//! directory of the plugins that ship with it and the directory of the
//! plugins of the user. [`RobloxStudio::locate`] finds them on the platform
//! it is told, from what the host reported there: the content folder that the
//! registry names on Windows, the documents directory of the user on the
//! Apple desktop. The library reads nothing itself, and a path that is found
//! need not exist.
//!
//! The paths are text. [`windows_path`] and [`unix_path`] say how the text of
//! a path is read on each platform, and [`windows_laws`] what follows from
//! it. [`studio`] holds the installation and the ways to find it, and
//! [`error`] the ways in which that fails.

pub mod error;
pub mod studio;
pub mod unix_path;
pub mod windows_laws;
pub mod windows_path;

pub use error::Error;
pub use studio::Platform;
pub use studio::RobloxStudio;
