//! Which media a cast device can play as it is.

use vstd::prelude::*;

verus! {

/// The generations of cast devices.
#[allow(dead_code)]
#[derive(Eq, PartialEq, PartialOrd, Ord, Hash, Debug, Clone, Copy)]
pub enum Chromecast {
    FirstAndSecond,
    Third,
    Ultra,
    GoogleTV,
    NestHub,
}

/// The codecs that matter to a cast device.
#[derive(Clone, Copy, Debug, PartialEq, Eq, Structural)]
pub enum Codec {
    H264,
    HEVC,
    VP8,
    VP9,
    MP3,
    AAC,
    VORBIS,
    /// Any other codec.
    Other,
}

/// Whether some cast device plays the video codec together with the audio
/// codec. Not every generation plays every such pair, but a pair that is not
/// listed here is played by none.
pub open spec fn valid_codecs(video: Codec, audio: Codec) -> bool {
    ||| (video == Codec::H264 && audio == Codec::MP3)
    ||| (video == Codec::H264 && audio == Codec::AAC)
    ||| (video == Codec::HEVC && audio == Codec::MP3)
    ||| (video == Codec::HEVC && audio == Codec::AAC)
    ||| (video == Codec::VP8 && audio == Codec::VORBIS)
    ||| (video == Codec::VP9 && audio == Codec::VORBIS)
}

/// Whether a file whose best video and audio streams have these codecs may
/// play on a cast device without being encoded anew.
pub fn is_chromecast_compatible(video: Codec, audio: Codec, _chromecast: Chromecast) -> (ok: bool)
    ensures
        ok == valid_codecs(video, audio),
{
    match (video, audio) {
        (Codec::H264, Codec::MP3) => true,
        (Codec::H264, Codec::AAC) => true,
        (Codec::HEVC, Codec::MP3) => true,
        (Codec::HEVC, Codec::AAC) => true,
        (Codec::VP8, Codec::VORBIS) => true,
        (Codec::VP9, Codec::VORBIS) => true,
        _ => false,
    }
}

} // verus!
