//! File names of the release artifacts that the bundling jobs upload.

use vstd::prelude::*;

verus! {

pub const MAC_AARCH64: &'static str = "Zed-aarch64.dmg";
pub const MAC_X86_64: &'static str = "Zed-x86_64.dmg";
pub const LINUX_AARCH64: &'static str = "zed-linux-aarch64.tar.gz";
pub const LINUX_X86_64: &'static str = "zed-linux-x86_64.tar.gz";
pub const WINDOWS_X86_64: &'static str = "Zed-x86_64.exe";
pub const WINDOWS_AARCH64: &'static str = "Zed-aarch64.exe";

pub const REMOTE_SERVER_MAC_AARCH64: &'static str = "zed-remote-server-macos-aarch64.gz";
pub const REMOTE_SERVER_MAC_X86_64: &'static str = "zed-remote-server-macos-x86_64.gz";
pub const REMOTE_SERVER_LINUX_AARCH64: &'static str = "zed-remote-server-linux-aarch64.gz";
pub const REMOTE_SERVER_LINUX_X86_64: &'static str = "zed-remote-server-linux-x86_64.gz";
pub const REMOTE_SERVER_WINDOWS_AARCH64: &'static str = "zed-remote-server-windows-aarch64.zip";
pub const REMOTE_SERVER_WINDOWS_X86_64: &'static str = "zed-remote-server-windows-x86_64.zip";

} // verus!
