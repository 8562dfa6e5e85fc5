//! The settings that the library's decisions depend on.
use vstd::prelude::*;

verus! {

/// Who talks to the head unit.
#[derive(Clone, Copy, Debug, PartialEq, Eq, Structural)]
pub enum AAMode {
    /// This device: it mirrors the screen of the mobile device.
    Mirror,
    /// The mobile device: packets only pass through.
    PassThrough,
}

#[derive(Clone, Copy, Debug, PartialEq, Eq, Structural)]
pub struct AppConfig {
    pub aa_mode: AAMode,
    /// Look into the packets that pass through.
    pub mitm: bool,
    pub developer_mode: bool,
    /// The density to announce instead of the head unit's; zero keeps that.
    pub dpi: u16,
    pub park_mode: bool,
    pub ignore_media_ack: bool,
    /// The bitrate to record with instead of the usual one; zero or less keeps that.
    pub video_bitrate: i32,
    pub scrcpy_screen_off: bool,
}

/// The access point that the mobile device is to connect to.
#[derive(Debug)]
pub struct WifiConfig {
    pub ip_addr: String,
    pub port: u16,
    pub ssid: String,
    pub bssid: String,
    pub wpa_key: String,
}

/// How much of the packets a log shows in hexadecimal; each level includes those before
/// it.
#[derive(Clone, Copy, Debug, PartialEq, Eq, Structural)]
pub enum HexdumpLevel {
    Disabled,
    DecryptedInput,
    RawInput,
    DecryptedOutput,
    RawOutput,
    All,
}

impl HexdumpLevel {
    /// The place of the level.
    pub open spec fn rank(self) -> int {
        match self {
            HexdumpLevel::Disabled => 0,
            HexdumpLevel::DecryptedInput => 1,
            HexdumpLevel::RawInput => 2,
            HexdumpLevel::DecryptedOutput => 3,
            HexdumpLevel::RawOutput => 4,
            HexdumpLevel::All => 5,
        }
    }

    fn place(&self) -> (r: u8)
        ensures
            r == self.rank(),
    {
        match self {
            HexdumpLevel::Disabled => 0,
            HexdumpLevel::DecryptedInput => 1,
            HexdumpLevel::RawInput => 2,
            HexdumpLevel::DecryptedOutput => 3,
            HexdumpLevel::RawOutput => 4,
            HexdumpLevel::All => 5,
        }
    }

    /// Whether this level includes the other.
    pub fn includes(&self, other: HexdumpLevel) -> (b: bool)
        ensures
            b == (self.rank() >= other.rank()),
    {
        self.place() >= other.place()
    }
}

/// What a user can ask for while the program runs.
#[derive(Clone, Copy, Debug, PartialEq, Eq, Structural)]
pub enum Action {
    Reconnect,
    Reboot,
}

} // verus!
