//! The settings of a server.

use vstd::prelude::*;
use vstd::string::*;

verus! {

/// An address to listen on.
#[derive(Clone, Copy, PartialEq, Eq, Debug)]
pub enum IpAddress {
    /// The four bytes of an IPv4 address.
    V4([u8; 4]),
    /// The sixteen bytes of an IPv6 address.
    V6([u8; 16]),
}

/// The settings of a server. They are made once, when the server starts, and
/// only read after that.
#[derive(PartialEq, Eq, Debug)]
pub struct Config {
    /// The directory that holds the videos.
    pub video_path: String,
    /// The address to listen on.
    pub ip: IpAddress,
    /// The port to listen on.
    pub port: u16,
    /// The number of bytes that a range without an end runs for.
    pub chunk_size: u64,
    /// The name of the program that cuts frames out of videos.
    pub ffmpeg_command: String,
}

impl Default for Config {
    /// The settings of a server that was given none: the videos lie in
    /// `videos/`, the server listens on port 3000 of every address, a chunk
    /// has 65536 bytes, and frames are cut by `ffmpeg`.
    fn default() -> (config: Config)
        ensures
            config.video_path@ == "videos/"@,
            config.ip == IpAddress::V4([0u8, 0u8, 0u8, 0u8]),
            config.port == 3000,
            config.chunk_size == 65536,
            config.ffmpeg_command@ == "ffmpeg"@,
    {
        Config {
            video_path: String::from_str("videos/"),
            ip: IpAddress::V4([0, 0, 0, 0]),
            port: 3000,
            chunk_size: 65536,
            ffmpeg_command: String::from_str("ffmpeg"),
        }
    }
}

} // verus!
