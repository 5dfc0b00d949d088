use vstd::prelude::*;

verus! {

/// A streaming platform this engine tracks. Resolution results always list
/// the platforms in the fixed order Spotify, Apple Music, YouTube Music.
#[derive(Clone, Copy, Debug, PartialEq, Eq, Structural)]
pub enum MusicPlatform {
    Spotify,
    AppleMusic,
    YoutubeMusic,
}

/// A platform name as the upstream resolution API reports it. The upstream
/// enumerates far more platforms than this engine tracks; anything
/// unrecognized is carried as `Unknown` and ignored during normalization.
#[derive(Debug)]
pub enum SongLinkPlatform {
    Spotify,
    AppleMusic,
    YoutubeMusic,
    Unknown(String),
}

/// Whether an upstream platform name denotes the given tracked platform.
pub open spec fn platform_matches(upstream: SongLinkPlatform, platform: MusicPlatform) -> bool {
    match (upstream, platform) {
        (SongLinkPlatform::Spotify, MusicPlatform::Spotify) => true,
        (SongLinkPlatform::AppleMusic, MusicPlatform::AppleMusic) => true,
        (SongLinkPlatform::YoutubeMusic, MusicPlatform::YoutubeMusic) => true,
        _ => false,
    }
}

impl SongLinkPlatform {
    /// Tests whether this upstream platform name denotes the given tracked
    /// platform; `Unknown` names match nothing.
    pub fn is_platform(&self, platform: MusicPlatform) -> (r: bool)
        ensures
            r == platform_matches(*self, platform),
    {
        match (self, platform) {
            (SongLinkPlatform::Spotify, MusicPlatform::Spotify) => true,
            (SongLinkPlatform::AppleMusic, MusicPlatform::AppleMusic) => true,
            (SongLinkPlatform::YoutubeMusic, MusicPlatform::YoutubeMusic) => true,
            _ => false,
        }
    }
}

} // verus!
