use vstd::prelude::*;

use crate::country::{is_known_territory, territory_for};
use crate::models::{
    count_found, entries_in_platform_order, links_platform_url, LinkDataView, MusicLinkData,
    MusicLinkInput, MusicLinkResponse, ResponseView, SongLinkResponse,
};
use crate::platform::MusicPlatform;
use crate::record::RecordView;
use crate::store::{
    after_lookup, after_upsert, first_match, match_count, saturating_inc, touched, LinkStore,
};

verus! {

/// A resolution request rejected before any storage or upstream access.
#[derive(Clone, Copy, Debug, PartialEq, Eq, Structural)]
pub enum ResolveError {
    InvalidCountry,
}

/// The single upstream call a cache miss asks the caller to make: an HTTP
/// GET of `url`, already carrying the submitted link, the validated
/// territory, and the prefer-single-track hint as query parameters.
#[derive(Debug)]
pub struct UpstreamRequest {
    pub url: String,
}

/// The outcome of the first resolution phase: either the store answered, or
/// the upstream must be consulted and its answer handed to
/// [`MusicLinkService::resolve_with_upstream`].
#[derive(Debug)]
pub enum ResolveStep {
    Resolved(MusicLinkResponse),
    NeedsUpstream(UpstreamRequest),
}

/// One when a platform link is present, zero when absent.
pub open spec fn present(link: Option<Seq<char>>) -> int {
    if link is Some {
        1
    } else {
        0
    }
}

/// The normalized result for a record id and per-platform links: one entry
/// per tracked platform in the fixed order, `found` counting the present
/// links.
pub open spec fn response_of(
    id: u64,
    spotify: Option<Seq<char>>,
    apple: Option<Seq<char>>,
    youtube: Option<Seq<char>>,
) -> ResponseView {
    ResponseView {
        id,
        found: (present(spotify) + present(apple) + present(youtube)) as u8,
        collected_links: seq![
            LinkDataView { link: spotify, platform: MusicPlatform::Spotify },
            LinkDataView { link: apple, platform: MusicPlatform::AppleMusic },
            LinkDataView { link: youtube, platform: MusicPlatform::YoutubeMusic },
        ],
    }
}

/// The result a cache hit serves, straight from the stored record.
pub open spec fn hit_response(r: RecordView) -> ResponseView {
    response_of(r.id, r.spotify_link, r.apple_music_link, r.youtube_music_link)
}

/// Every result this resolver builds: `found` equals the number of entries
/// that carry a destination URL, and the entries stand in the fixed platform
/// order — whatever the inputs.
pub proof fn lemma_response_found_counts_entries(
    id: u64,
    spotify: Option<Seq<char>>,
    apple: Option<Seq<char>>,
    youtube: Option<Seq<char>>,
)
    ensures
        ({
            let r = response_of(id, spotify, apple, youtube);
            &&& r.found == count_found(r.collected_links)
            &&& entries_in_platform_order(r.collected_links)
        }),
{
    let entries = response_of(id, spotify, apple, youtube).collected_links;
    let e1 = entries.drop_first();
    let e2 = e1.drop_first();
    let e3 = e2.drop_first();
    assert(e1 =~= seq![
        LinkDataView { link: apple, platform: MusicPlatform::AppleMusic },
        LinkDataView { link: youtube, platform: MusicPlatform::YoutubeMusic },
    ]);
    assert(e2 =~= seq![LinkDataView { link: youtube, platform: MusicPlatform::YoutubeMusic }]);
    assert(e3 =~= Seq::<LinkDataView>::empty());
    assert(count_found(e3) == 0);
    assert(count_found(e2) == present(youtube));
    assert(count_found(e1) == present(apple) + present(youtube));
    assert(count_found(entries) == present(spotify) + present(apple) + present(youtube));
}

/// Builds the normalized result: entries always in the fixed platform order,
/// `found` equal to the number of present links.
fn build_response(
    id: u64,
    spotify: Option<String>,
    apple: Option<String>,
    youtube: Option<String>,
) -> (r: MusicLinkResponse)
    ensures
        r@ == response_of(id, spotify.deep_view(), apple.deep_view(), youtube.deep_view()),
        r@.found == count_found(r@.collected_links),
        entries_in_platform_order(r@.collected_links),
{
    let mut found: u8 = 0;
    if spotify.is_some() {
        found = found + 1;
    }
    if apple.is_some() {
        found = found + 1;
    }
    if youtube.is_some() {
        found = found + 1;
    }
    let ghost sv = spotify.deep_view();
    let ghost av = apple.deep_view();
    let ghost yv = youtube.deep_view();
    let collected_links = vec![
        MusicLinkData { link: spotify, platform: MusicPlatform::Spotify },
        MusicLinkData { link: apple, platform: MusicPlatform::AppleMusic },
        MusicLinkData { link: youtube, platform: MusicPlatform::YoutubeMusic },
    ];
    let r = MusicLinkResponse { id, found, collected_links };
    proof {
        assert(r@.collected_links =~= response_of(id, sv, av, yv).collected_links);
        lemma_response_found_counts_entries(id, sv, av, yv);
    }
    r
}

/// The URL of the upstream links lookup for a submitted link and territory,
/// with the query parameters percent-encoded; absent in the (practically
/// unreachable) case that URL construction fails.
pub uninterp spec fn songlink_query_url(link: Seq<char>, country: Seq<char>) -> Option<Seq<char>>;

/// Relies on reqwest::Url::parse_with_params: parses the fixed lookup
/// endpoint and percent-encodes the three query pairs onto it, a computation
/// that depends on its inputs alone.
#[verifier::external_body]
fn encode_query_url(link: &str, country: &str) -> (r: Option<String>)
    ensures
        r.deep_view() == songlink_query_url(link@, country@),
{
    reqwest::Url::parse_with_params(
        "https://api.song.link/v1-alpha.1/links",
        &[("songIfSingle", "true"), ("url", link), ("userCountry", country)],
    ).ok().map(String::from)
}

/// The resolver: orchestrates one resolution request end to end against an
/// injected [`LinkStore`] and an injected clock value. The upstream HTTP
/// call itself is the caller's: a cache miss hands back the request to make,
/// and the upstream's answer (or its absence, on any upstream failure) comes
/// back through [`MusicLinkService::resolve_with_upstream`].
pub struct MusicLinkService {}

impl MusicLinkService {
    /// Creates the resolver.
    pub fn new() -> MusicLinkService {
        MusicLinkService {}
    }

    /// First resolution phase: validates the territory code — an unknown one
    /// is rejected before any storage access — then serves the request from
    /// the store when any record knows the link. Otherwise the store is left
    /// unchanged and the upstream request to make is handed back; if even its
    /// URL cannot be built, the upstream is treated as failed and the
    /// resolution degrades to an empty discovery at once.
    pub fn resolve_music_link(
        &self,
        input: &MusicLinkInput,
        store: &mut LinkStore,
        now: i64,
    ) -> (r: Result<ResolveStep, ResolveError>)
        requires
            old(store).wf(),
        ensures
            final(store).wf(),
            !is_known_territory(input.user_country@) ==> (r matches Err(e) && e
                == ResolveError::InvalidCountry && final(store)@ == old(store)@),
            is_known_territory(input.user_country@) ==> match first_match(
                old(store)@,
                input.link@,
            ) {
                Some(i) => {
                    &&& final(store)@ == after_lookup(old(store)@, input.link@, now)
                    &&& r matches Ok(ResolveStep::Resolved(resp)) && resp@ == hit_response(
                        old(store)@[i],
                    )
                },
                None => match songlink_query_url(input.link@, input.user_country@) {
                    Some(u) => {
                        &&& final(store)@ == old(store)@
                        &&& r matches Ok(ResolveStep::NeedsUpstream(q)) && q.url@ == u
                    },
                    None => {
                        let up = after_upsert(
                            old(store)@,
                            input.link@,
                            None,
                            None,
                            None,
                            now,
                        );
                        &&& final(store)@ == up.0
                        &&& r matches Ok(ResolveStep::Resolved(resp)) && resp@ == response_of(
                            up.1,
                            None,
                            None,
                            None,
                        )
                    },
                },
            },
            final(store).ambiguous_count() == if is_known_territory(input.user_country@)
                && match_count(old(store)@, input.link@) > 1 {
                saturating_inc(old(store).ambiguous_count())
            } else {
                old(store).ambiguous_count()
            },
    {
        let territory = match territory_for(input.user_country.as_str()) {
            Some(t) => t,
            None => {
                return Err(ResolveError::InvalidCountry);
            },
        };
        if let Some(record) = store.lookup(&input.link, now) {
            let resp = build_response(
                record.id,
                record.spotify_link,
                record.apple_music_link,
                record.youtube_music_link,
            );
            return Ok(ResolveStep::Resolved(resp));
        }
        match encode_query_url(input.link.as_str(), territory) {
            Some(url) => Ok(ResolveStep::NeedsUpstream(UpstreamRequest { url })),
            None => {
                let resp = self.resolve_with_upstream(&input.link, store, None, now);
                Ok(ResolveStep::Resolved(resp))
            },
        }
    }

    /// Second resolution phase, after a cache miss: normalizes the upstream
    /// answer — pass `None` for any upstream failure, which this engine
    /// absorbs into an empty discovery instead of an error — writes the
    /// discoveries back to the store under the originally submitted link,
    /// and builds the per-platform result. Afterwards the submitted link is
    /// always known to the store, so resolving it again is a cache hit.
    pub fn resolve_with_upstream(
        &self,
        link: &String,
        store: &mut LinkStore,
        upstream: Option<&SongLinkResponse>,
        now: i64,
    ) -> (r: MusicLinkResponse)
        requires
            old(store).wf(),
        ensures
            final(store).wf(),
            ({
                let spotify = match upstream {
                    Some(u) => links_platform_url(u.links_by_platform@, MusicPlatform::Spotify),
                    None => None,
                };
                let apple = match upstream {
                    Some(u) => links_platform_url(u.links_by_platform@, MusicPlatform::AppleMusic),
                    None => None,
                };
                let youtube = match upstream {
                    Some(u) => links_platform_url(
                        u.links_by_platform@,
                        MusicPlatform::YoutubeMusic,
                    ),
                    None => None,
                };
                let up = after_upsert(old(store)@, link@, spotify, apple, youtube, now);
                &&& final(store)@ == up.0
                &&& r@ == response_of(up.1, spotify, apple, youtube)
            }),
            r@.found == count_found(r@.collected_links),
            entries_in_platform_order(r@.collected_links),
            upstream is None ==> r.found == 0,
            first_match(final(store)@, link@) is Some,
            final(store).ambiguous_count() == old(store).ambiguous_count(),
    {
        let spotify = match upstream {
            Some(u) => u.platform_url(MusicPlatform::Spotify),
            None => None,
        };
        let apple = match upstream {
            Some(u) => u.platform_url(MusicPlatform::AppleMusic),
            None => None,
        };
        let youtube = match upstream {
            Some(u) => u.platform_url(MusicPlatform::YoutubeMusic),
            None => None,
        };
        let id = store.upsert(link, &spotify, &apple, &youtube, now);
        proof {
            crate::store::lemma_upsert_makes_link_known(
                old(store)@,
                link@,
                spotify.deep_view(),
                apple.deep_view(),
                youtube.deep_view(),
                now,
            );
        }
        build_response(id, spotify, apple, youtube)
    }
}

} // verus!
