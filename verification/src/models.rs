use vstd::prelude::*;

use crate::platform::{platform_matches, MusicPlatform, SongLinkPlatform};

verus! {

/// One resolution request: the submitted link and the requesting user's
/// ISO 3166-1 alpha-2 territory code.
#[derive(Debug)]
pub struct MusicLinkInput {
    pub link: String,
    pub user_country: String,
}

/// One per-platform entry of a resolution result: the destination URL on that
/// platform, if one is known.
#[derive(Debug)]
pub struct MusicLinkData {
    pub link: Option<String>,
    pub platform: MusicPlatform,
}

/// Mathematical view of a [`MusicLinkData`].
pub ghost struct LinkDataView {
    pub link: Option<Seq<char>>,
    pub platform: MusicPlatform,
}

impl View for MusicLinkData {
    type V = LinkDataView;

    open spec fn view(&self) -> LinkDataView {
        LinkDataView { link: self.link.deep_view(), platform: self.platform }
    }
}

/// The normalized result of one resolution request: the id of the canonical
/// record the link belongs to, the number of platforms with a known
/// destination, and one entry per tracked platform in fixed order.
#[derive(Debug)]
pub struct MusicLinkResponse {
    pub id: u64,
    pub found: u8,
    pub collected_links: Vec<MusicLinkData>,
}

/// Mathematical view of a [`MusicLinkResponse`].
pub ghost struct ResponseView {
    pub id: u64,
    pub found: u8,
    pub collected_links: Seq<LinkDataView>,
}

impl View for MusicLinkResponse {
    type V = ResponseView;

    open spec fn view(&self) -> ResponseView {
        ResponseView {
            id: self.id,
            found: self.found,
            collected_links: self.collected_links@.map_values(|d: MusicLinkData| d@),
        }
    }
}

/// How many entries carry a destination URL.
pub open spec fn count_found(entries: Seq<LinkDataView>) -> int
    decreases entries.len(),
{
    if entries.len() == 0 {
        0
    } else {
        (if entries[0].link is Some {
            1int
        } else {
            0int
        }) + count_found(entries.drop_first())
    }
}

/// The entries of a well-formed result: one per tracked platform, in the
/// fixed order Spotify, Apple Music, YouTube Music.
pub open spec fn entries_in_platform_order(entries: Seq<LinkDataView>) -> bool {
    &&& entries.len() == 3
    &&& entries[0].platform == MusicPlatform::Spotify
    &&& entries[1].platform == MusicPlatform::AppleMusic
    &&& entries[2].platform == MusicPlatform::YoutubeMusic
}

/// One catalog entity of the upstream response, with the platforms it
/// appears on.
#[derive(Debug)]
pub struct SongLinkEntityData {
    pub id: String,
    pub platforms: Vec<SongLinkPlatform>,
}

/// The destination recorded by the upstream for one platform.
#[derive(Debug)]
pub struct SongLinkPlatformLink {
    pub url: String,
}

/// The upstream resolution API's answer: per-entity platform membership and a
/// table from platform name to canonical destination URL. Entry order carries
/// no meaning; lookups take the first entry for a platform.
#[derive(Debug)]
pub struct SongLinkResponse {
    pub page_url: String,
    pub entity_unique_id: String,
    pub entities_by_unique_id: Vec<(String, SongLinkEntityData)>,
    pub links_by_platform: Vec<(SongLinkPlatform, SongLinkPlatformLink)>,
}

/// The destination URL the upstream table holds for a tracked platform: the
/// URL of the first entry whose platform name denotes it.
pub open spec fn links_platform_url(
    entries: Seq<(SongLinkPlatform, SongLinkPlatformLink)>,
    platform: MusicPlatform,
) -> Option<Seq<char>>
    decreases entries.len(),
{
    if entries.len() == 0 {
        None
    } else if platform_matches(entries[0].0, platform) {
        Some(entries[0].1.url@)
    } else {
        links_platform_url(entries.drop_first(), platform)
    }
}

impl SongLinkResponse {
    /// The destination URL this response holds for a tracked platform, if any.
    pub fn platform_url(&self, platform: MusicPlatform) -> (r: Option<String>)
        ensures
            r.deep_view() == links_platform_url(self.links_by_platform@, platform),
    {
        let ghost all = self.links_by_platform@;
        proof {
            assert(all.skip(0) =~= all);
        }
        let mut i: usize = 0;
        while i < self.links_by_platform.len()
            invariant
                i <= all.len(),
                self.links_by_platform@ == all,
                links_platform_url(all, platform) == links_platform_url(
                    all.skip(i as int),
                    platform,
                ),
            decreases all.len() - i,
        {
            proof {
                assert(all.skip(i as int)[0] == all[i as int]);
            }
            if self.links_by_platform[i].0.is_platform(platform) {
                proof {
                    assert(links_platform_url(all.skip(i as int), platform) == Some(
                        all[i as int].1.url@,
                    ));
                }
                return Some(self.links_by_platform[i].1.url.clone());
            }
            proof {
                assert(all.skip(i as int).drop_first() =~= all.skip(i as int + 1));
            }
            i = i + 1;
        }
        proof {
            assert(all.skip(i as int) =~= Seq::<(SongLinkPlatform, SongLinkPlatformLink)>::empty());
        }
        None
    }
}

} // verus!
