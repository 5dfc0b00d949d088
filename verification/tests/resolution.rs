use muslink::models::{MusicLinkInput, SongLinkPlatformLink, SongLinkResponse};
use muslink::platform::{MusicPlatform, SongLinkPlatform};
use muslink::service::{MusicLinkService, ResolveError, ResolveStep};
use muslink::store::LinkStore;

fn upstream_with(links: Vec<(SongLinkPlatform, &str)>) -> SongLinkResponse {
    SongLinkResponse {
        page_url: String::from("https://song.link/x"),
        entity_unique_id: String::from("SPOTIFY_SONG::abc"),
        entities_by_unique_id: Vec::new(),
        links_by_platform: links
            .into_iter()
            .map(|(platform, url)| (platform, SongLinkPlatformLink { url: String::from(url) }))
            .collect(),
    }
}

fn input(link: &str, country: &str) -> MusicLinkInput {
    MusicLinkInput { link: String::from(link), user_country: String::from(country) }
}

fn needs_upstream(step: ResolveStep) -> String {
    match step {
        ResolveStep::NeedsUpstream(q) => q.url,
        ResolveStep::Resolved(_) => panic!("expected a cache miss"),
    }
}

fn resolved(step: ResolveStep) -> muslink::models::MusicLinkResponse {
    match step {
        ResolveStep::Resolved(r) => r,
        ResolveStep::NeedsUpstream(_) => panic!("expected a cache hit"),
    }
}

#[test]
fn scenario_spotify_track_for_us_then_cache_hit_for_gb() {
    let service = MusicLinkService::new();
    let mut store = LinkStore::new();

    let first = input("https://open.spotify.com/track/abc", "US");
    let step = service.resolve_music_link(&first, &mut store, 1).unwrap();
    let url = needs_upstream(step);
    assert_eq!(
        url,
        "https://api.song.link/v1-alpha.1/links?songIfSingle=true&url=https%3A%2F%2Fopen.spotify.com%2Ftrack%2Fabc&userCountry=US"
    );

    let upstream = upstream_with(vec![
        (SongLinkPlatform::Spotify, "https://open.spotify.com/track/abc"),
        (SongLinkPlatform::YoutubeMusic, "https://music.youtube.com/watch?v=xyz"),
    ]);
    let response = service.resolve_with_upstream(&first.link, &mut store, Some(&upstream), 2);
    assert_eq!(response.found, 2);
    assert_eq!(response.collected_links.len(), 3);
    assert_eq!(response.collected_links[0].platform, MusicPlatform::Spotify);
    assert_eq!(
        response.collected_links[0].link.as_deref(),
        Some("https://open.spotify.com/track/abc")
    );
    assert_eq!(response.collected_links[1].platform, MusicPlatform::AppleMusic);
    assert_eq!(response.collected_links[1].link, None);
    assert_eq!(response.collected_links[2].platform, MusicPlatform::YoutubeMusic);
    assert_eq!(
        response.collected_links[2].link.as_deref(),
        Some("https://music.youtube.com/watch?v=xyz")
    );
    assert_eq!(store.len(), 1);

    let second = input("https://music.youtube.com/watch?v=xyz", "GB");
    let step = service.resolve_music_link(&second, &mut store, 3).unwrap();
    let hit = resolved(step);
    assert_eq!(hit.id, response.id);
    assert_eq!(hit.found, 2);
    assert_eq!(
        hit.collected_links[0].link.as_deref(),
        Some("https://open.spotify.com/track/abc")
    );
    assert_eq!(hit.collected_links[1].link, None);
    assert_eq!(
        hit.collected_links[2].link.as_deref(),
        Some("https://music.youtube.com/watch?v=xyz")
    );
    assert_eq!(store.len(), 1);
}

#[test]
fn invalid_country_is_rejected_before_any_access() {
    let service = MusicLinkService::new();
    let mut store = LinkStore::new();
    for bad in ["ZZ", "", "usa", "us", "U", "QQ"] {
        let request = input("https://open.spotify.com/track/abc", bad);
        let err = service.resolve_music_link(&request, &mut store, 1).unwrap_err();
        assert_eq!(err, ResolveError::InvalidCountry);
    }
    assert_eq!(store.len(), 0);
    assert_eq!(store.ambiguous_lookup_count(), 0);
}

#[test]
fn known_territories_are_accepted() {
    let service = MusicLinkService::new();
    let mut store = LinkStore::new();
    for good in ["US", "GB", "DE", "IN"] {
        let request = input("https://open.spotify.com/track/abc", good);
        assert!(service.resolve_music_link(&request, &mut store, 1).is_ok());
    }
}

#[test]
fn upstream_failure_degrades_to_empty_result() {
    let service = MusicLinkService::new();
    let mut store = LinkStore::new();
    let request = input("https://example.com/song", "US");
    needs_upstream(service.resolve_music_link(&request, &mut store, 1).unwrap());

    let response = service.resolve_with_upstream(&request.link, &mut store, None, 2);
    assert_eq!(response.found, 0);
    assert_eq!(response.collected_links.len(), 3);
    for entry in &response.collected_links {
        assert_eq!(entry.link, None);
    }
    // The submitted link itself is still persisted as a record.
    assert_eq!(store.len(), 1);
    let record = store.record_at(0);
    assert_eq!(record.equivalent_links, vec![String::from("https://example.com/song")]);
    assert_eq!(record.all_links, vec![String::from("https://example.com/song")]);
    assert_eq!(record.spotify_link, None);
}

#[test]
fn resolving_the_same_link_twice_is_a_cache_hit() {
    let service = MusicLinkService::new();
    let mut store = LinkStore::new();
    let request = input("https://open.spotify.com/track/abc", "US");
    needs_upstream(service.resolve_music_link(&request, &mut store, 1).unwrap());
    let upstream = upstream_with(vec![(
        SongLinkPlatform::Spotify,
        "https://open.spotify.com/track/abc",
    )]);
    let created = service.resolve_with_upstream(&request.link, &mut store, Some(&upstream), 2);
    assert_eq!(store.len(), 1);

    let step = service.resolve_music_link(&request, &mut store, 3).unwrap();
    let hit = resolved(step);
    assert_eq!(hit.id, created.id);
    assert_eq!(store.len(), 1);
}

#[test]
fn discovered_platform_link_hits_the_created_record() {
    let service = MusicLinkService::new();
    let mut store = LinkStore::new();
    let request = input("https://shared.example/alias", "US");
    needs_upstream(service.resolve_music_link(&request, &mut store, 1).unwrap());
    let upstream = upstream_with(vec![
        (SongLinkPlatform::Spotify, "https://open.spotify.com/track/p"),
        (SongLinkPlatform::AppleMusic, "https://music.apple.com/track/p"),
    ]);
    let created = service.resolve_with_upstream(&request.link, &mut store, Some(&upstream), 2);

    for discovered in ["https://open.spotify.com/track/p", "https://music.apple.com/track/p"] {
        let direct = input(discovered, "GB");
        let step = service.resolve_music_link(&direct, &mut store, 3).unwrap();
        let hit = resolved(step);
        assert_eq!(hit.id, created.id);
    }
    assert_eq!(store.len(), 1);
}

#[test]
fn platform_entries_keep_fixed_order_whatever_the_upstream_order() {
    let service = MusicLinkService::new();
    let mut store = LinkStore::new();
    let request = input("https://example.com/song2", "US");
    needs_upstream(service.resolve_music_link(&request, &mut store, 1).unwrap());
    let upstream = upstream_with(vec![
        (SongLinkPlatform::YoutubeMusic, "https://music.youtube.com/watch?v=k"),
        (SongLinkPlatform::Unknown(String::from("deezer")), "https://deezer.example/k"),
        (SongLinkPlatform::AppleMusic, "https://music.apple.com/track/k"),
        (SongLinkPlatform::Spotify, "https://open.spotify.com/track/k"),
    ]);
    let response = service.resolve_with_upstream(&request.link, &mut store, Some(&upstream), 2);
    assert_eq!(response.found, 3);
    assert_eq!(response.collected_links[0].platform, MusicPlatform::Spotify);
    assert_eq!(
        response.collected_links[0].link.as_deref(),
        Some("https://open.spotify.com/track/k")
    );
    assert_eq!(response.collected_links[1].platform, MusicPlatform::AppleMusic);
    assert_eq!(
        response.collected_links[1].link.as_deref(),
        Some("https://music.apple.com/track/k")
    );
    assert_eq!(response.collected_links[2].platform, MusicPlatform::YoutubeMusic);
    assert_eq!(
        response.collected_links[2].link.as_deref(),
        Some("https://music.youtube.com/watch?v=k")
    );
}

#[test]
fn unknown_upstream_platforms_are_ignored() {
    let service = MusicLinkService::new();
    let mut store = LinkStore::new();
    let request = input("https://example.com/song3", "US");
    needs_upstream(service.resolve_music_link(&request, &mut store, 1).unwrap());
    let upstream = upstream_with(vec![
        (SongLinkPlatform::Unknown(String::from("tidal")), "https://tidal.example/t"),
        (SongLinkPlatform::Unknown(String::from("pandora")), "https://pandora.example/t"),
        (SongLinkPlatform::Spotify, "https://open.spotify.com/track/t"),
    ]);
    let response = service.resolve_with_upstream(&request.link, &mut store, Some(&upstream), 2);
    assert_eq!(response.found, 1);
    assert_eq!(
        response.collected_links[0].link.as_deref(),
        Some("https://open.spotify.com/track/t")
    );
    assert_eq!(response.collected_links[1].link, None);
    assert_eq!(response.collected_links[2].link, None);
}

#[test]
fn merge_appends_alias_and_leaves_platform_links_alone() {
    let service = MusicLinkService::new();
    let mut store = LinkStore::new();

    let first = input("https://first.example/a", "US");
    needs_upstream(service.resolve_music_link(&first, &mut store, 1).unwrap());
    let upstream_one =
        upstream_with(vec![(SongLinkPlatform::Spotify, "https://open.spotify.com/track/s")]);
    let created = service.resolve_with_upstream(&first.link, &mut store, Some(&upstream_one), 2);

    // A second link resolves to the same Spotify track, and also to an Apple
    // Music destination the first discovery did not know.
    let second = input("https://second.example/b", "US");
    needs_upstream(service.resolve_music_link(&second, &mut store, 3).unwrap());
    let upstream_two = upstream_with(vec![
        (SongLinkPlatform::Spotify, "https://open.spotify.com/track/s"),
        (SongLinkPlatform::AppleMusic, "https://music.apple.com/track/s"),
    ]);
    let merged = service.resolve_with_upstream(&second.link, &mut store, Some(&upstream_two), 4);
    assert_eq!(merged.id, created.id);
    assert_eq!(store.len(), 1);

    // First-match-wins policy: only the alias list of the matched record
    // grew; the newly seen Apple Music link was not applied to it.
    let record = store.record_at(0);
    assert_eq!(
        record.equivalent_links,
        vec![String::from("https://first.example/a"), String::from("https://second.example/b")]
    );
    assert_eq!(record.spotify_link.as_deref(), Some("https://open.spotify.com/track/s"));
    assert_eq!(record.apple_music_link, None);
    assert_eq!(record.last_interacted_at, 4);

    // So a direct request for that Apple Music link is still a cache miss.
    let direct = input("https://music.apple.com/track/s", "US");
    let step = service.resolve_music_link(&direct, &mut store, 5).unwrap();
    needs_upstream(step);
}

#[test]
fn hit_refreshes_the_hotness_timestamp() {
    let service = MusicLinkService::new();
    let mut store = LinkStore::new();
    let request = input("https://example.com/song4", "US");
    needs_upstream(service.resolve_music_link(&request, &mut store, 10).unwrap());
    service.resolve_with_upstream(&request.link, &mut store, None, 11);
    assert_eq!(store.record_at(0).created_at, 11);
    assert_eq!(store.record_at(0).last_interacted_at, 11);

    resolved(service.resolve_music_link(&request, &mut store, 42).unwrap());
    assert_eq!(store.record_at(0).created_at, 11);
    assert_eq!(store.record_at(0).last_interacted_at, 42);
}

#[test]
fn lookups_never_report_ambiguity_for_disjoint_records() {
    let service = MusicLinkService::new();
    let mut store = LinkStore::new();
    for link in ["https://a.example/1", "https://b.example/2", "https://c.example/3"] {
        let request = input(link, "US");
        needs_upstream(service.resolve_music_link(&request, &mut store, 1).unwrap());
        service.resolve_with_upstream(&request.link, &mut store, None, 2);
    }
    assert_eq!(store.len(), 3);
    for link in ["https://a.example/1", "https://b.example/2", "https://c.example/3"] {
        let request = input(link, "US");
        resolved(service.resolve_music_link(&request, &mut store, 3).unwrap());
    }
    assert_eq!(store.ambiguous_lookup_count(), 0);
}
