use muslink::backend;
use muslink::graphql;
use muslink::graphql::ResolveMusicLinkResponseLinkPlatform;
use muslink::models::{MusicLinkData, MusicLinkResponse, SongLinkPlatformLink, SongLinkResponse};
use muslink::platform::{MusicPlatform, SongLinkPlatform};

#[test]
fn graphql_conversion_keeps_links_and_translates_platforms() {
    let service_response = MusicLinkResponse {
        id: 7,
        found: 2,
        collected_links: vec![
            MusicLinkData {
                link: Some(String::from("https://open.spotify.com/track/abc")),
                platform: MusicPlatform::Spotify,
            },
            MusicLinkData { link: None, platform: MusicPlatform::AppleMusic },
            MusicLinkData {
                link: Some(String::from("https://music.youtube.com/watch?v=xyz")),
                platform: MusicPlatform::YoutubeMusic,
            },
        ],
    };
    let converted = graphql::convert_to_graphql_response(service_response);
    assert_eq!(converted.found, 2);
    assert_eq!(converted.collected_links.len(), 3);
    assert_eq!(
        converted.collected_links[0].platform,
        ResolveMusicLinkResponseLinkPlatform::Spotify
    );
    assert_eq!(
        converted.collected_links[0].link.as_deref(),
        Some("https://open.spotify.com/track/abc")
    );
    assert_eq!(
        converted.collected_links[1].platform,
        ResolveMusicLinkResponseLinkPlatform::AppleMusic
    );
    assert_eq!(converted.collected_links[1].link, None);
    assert_eq!(
        converted.collected_links[2].platform,
        ResolveMusicLinkResponseLinkPlatform::YoutubeMusic
    );
    assert_eq!(
        converted.collected_links[2].link.as_deref(),
        Some("https://music.youtube.com/watch?v=xyz")
    );
}

#[test]
fn backend_conversion_keeps_identifiers_and_urls() {
    let service_response = backend::MusicLinkResponse {
        found: 1,
        collected_links: vec![
            backend::MusicLink {
                platform: MusicPlatform::Spotify,
                data: Some(backend::MusicLinkPlatformData {
                    id: String::from("SPOTIFY_SONG::abc"),
                    url: String::from("https://open.spotify.com/track/abc"),
                }),
            },
            backend::MusicLink { platform: MusicPlatform::YoutubeMusic, data: None },
        ],
    };
    let converted = backend::convert_to_graphql_response(service_response);
    assert_eq!(converted.found, 1);
    assert_eq!(converted.collected_links.len(), 2);
    assert_eq!(
        converted.collected_links[0].platform,
        ResolveMusicLinkResponseLinkPlatform::Spotify
    );
    let data = converted.collected_links[0].data.as_ref().unwrap();
    assert_eq!(data.id, "SPOTIFY_SONG::abc");
    assert_eq!(data.url, "https://open.spotify.com/track/abc");
    assert_eq!(
        converted.collected_links[1].platform,
        ResolveMusicLinkResponseLinkPlatform::YoutubeMusic
    );
    assert!(converted.collected_links[1].data.is_none());
}

#[test]
fn upstream_response_lookup_takes_the_first_matching_entry() {
    let response = SongLinkResponse {
        page_url: String::from("https://song.link/x"),
        entity_unique_id: String::from("E"),
        entities_by_unique_id: Vec::new(),
        links_by_platform: vec![
            (
                SongLinkPlatform::Unknown(String::from("deezer")),
                SongLinkPlatformLink { url: String::from("https://deezer.example/1") },
            ),
            (
                SongLinkPlatform::Spotify,
                SongLinkPlatformLink { url: String::from("https://open.spotify.com/track/1") },
            ),
            (
                SongLinkPlatform::Spotify,
                SongLinkPlatformLink { url: String::from("https://open.spotify.com/track/2") },
            ),
        ],
    };
    assert_eq!(
        response.platform_url(MusicPlatform::Spotify).as_deref(),
        Some("https://open.spotify.com/track/1")
    );
    assert_eq!(response.platform_url(MusicPlatform::AppleMusic), None);
}
