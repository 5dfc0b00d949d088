use vstd::prelude::*;

use crate::graphql::{gql_platform, ResolveMusicLinkResponseLinkPlatform};
use crate::platform::MusicPlatform;

verus! {

/// A per-platform destination together with the identifier of the entity it
/// belongs to, as the backend transport carries it.
#[derive(Debug)]
pub struct MusicLinkPlatformData {
    pub id: String,
    pub url: String,
}

/// Mathematical view of a [`MusicLinkPlatformData`].
pub ghost struct PlatformDataView {
    pub id: Seq<char>,
    pub url: Seq<char>,
}

impl View for MusicLinkPlatformData {
    type V = PlatformDataView;

    open spec fn view(&self) -> PlatformDataView {
        PlatformDataView { id: self.id@, url: self.url@ }
    }
}

/// One per-platform entry of a resolution result in the backend shape: the
/// platform, and the destination with its identifier when one is known.
#[derive(Debug)]
pub struct MusicLink {
    pub platform: MusicPlatform,
    pub data: Option<MusicLinkPlatformData>,
}

/// Mathematical view of a [`MusicLink`].
pub ghost struct MusicLinkView {
    pub platform: MusicPlatform,
    pub data: Option<PlatformDataView>,
}

impl View for MusicLink {
    type V = MusicLinkView;

    open spec fn view(&self) -> MusicLinkView {
        MusicLinkView { platform: self.platform, data: self.data.deep_view() }
    }
}

impl DeepView for MusicLinkPlatformData {
    type V = PlatformDataView;

    open spec fn deep_view(&self) -> PlatformDataView {
        self.view()
    }
}

/// A resolution result in the backend shape.
#[derive(Debug)]
pub struct MusicLinkResponse {
    pub found: u8,
    pub collected_links: Vec<MusicLink>,
}

/// A per-platform destination with its identifier, as the backend's GraphQL
/// schema exposes it.
#[derive(Debug)]
pub struct ResolveMusicLinkResponseLinkPlatformData {
    pub id: String,
    pub url: String,
}

/// Mathematical view of a [`ResolveMusicLinkResponseLinkPlatformData`].
pub ghost struct GraphqlPlatformDataView {
    pub id: Seq<char>,
    pub url: Seq<char>,
}

impl View for ResolveMusicLinkResponseLinkPlatformData {
    type V = GraphqlPlatformDataView;

    open spec fn view(&self) -> GraphqlPlatformDataView {
        GraphqlPlatformDataView { id: self.id@, url: self.url@ }
    }
}

/// One per-platform entry of the backend's GraphQL response.
#[derive(Debug)]
pub struct ResolveMusicLinkResponseLink {
    pub platform: ResolveMusicLinkResponseLinkPlatform,
    pub data: Option<ResolveMusicLinkResponseLinkPlatformData>,
}

impl DeepView for ResolveMusicLinkResponseLinkPlatformData {
    type V = GraphqlPlatformDataView;

    open spec fn deep_view(&self) -> GraphqlPlatformDataView {
        self.view()
    }
}

/// Mathematical view of a [`ResolveMusicLinkResponseLink`].
pub ghost struct GraphqlLinkEntryView {
    pub platform: ResolveMusicLinkResponseLinkPlatform,
    pub data: Option<GraphqlPlatformDataView>,
}

impl View for ResolveMusicLinkResponseLink {
    type V = GraphqlLinkEntryView;

    open spec fn view(&self) -> GraphqlLinkEntryView {
        GraphqlLinkEntryView { platform: self.platform, data: self.data.deep_view() }
    }
}

/// The backend's GraphQL response: the found count and the per-platform
/// entries with their identifiers.
#[derive(Debug)]
pub struct ResolveMusicLinkResponse {
    pub found: u8,
    pub collected_links: Vec<ResolveMusicLinkResponseLink>,
}

/// Maps a backend-shaped resolution result onto the backend's GraphQL
/// response: the found count carries over, every entry keeps its position,
/// identifier and destination URL, and only the platform names are
/// translated.
pub fn convert_to_graphql_response(service_response: MusicLinkResponse) -> (r:
    ResolveMusicLinkResponse)
    ensures
        r.found == service_response.found,
        r.collected_links@.len() == service_response.collected_links@.len(),
        forall|i: int|
            0 <= i < service_response.collected_links@.len() ==> {
                let s = service_response.collected_links@[i]@;
                let e = (#[trigger] r.collected_links@[i])@;
                &&& e.platform == gql_platform(s.platform)
                &&& match (e.data, s.data) {
                    (Some(ed), Some(sd)) => ed.id == sd.id && ed.url == sd.url,
                    (None, None) => true,
                    _ => false,
                }
            },
{
    let source = &service_response.collected_links;
    let mut collected_links: Vec<ResolveMusicLinkResponseLink> = Vec::new();
    let mut i: usize = 0;
    while i < source.len()
        invariant
            source@ == service_response.collected_links@,
            i <= source@.len(),
            collected_links@.len() == i,
            forall|j: int|
                0 <= j < i ==> {
                    let s = source@[j]@;
                    let e = (#[trigger] collected_links@[j])@;
                    &&& e.platform == gql_platform(s.platform)
                    &&& match (e.data, s.data) {
                        (Some(ed), Some(sd)) => ed.id == sd.id && ed.url == sd.url,
                        (None, None) => true,
                        _ => false,
                    }
                },
        decreases source@.len() - i,
    {
        let platform = match source[i].platform {
            MusicPlatform::Spotify => ResolveMusicLinkResponseLinkPlatform::Spotify,
            MusicPlatform::AppleMusic => ResolveMusicLinkResponseLinkPlatform::AppleMusic,
            MusicPlatform::YoutubeMusic => ResolveMusicLinkResponseLinkPlatform::YoutubeMusic,
        };
        let data = match &source[i].data {
            Some(d) => Some(
                ResolveMusicLinkResponseLinkPlatformData { id: d.id.clone(), url: d.url.clone() },
            ),
            None => None,
        };
        collected_links.push(ResolveMusicLinkResponseLink { platform, data });
        i = i + 1;
    }
    ResolveMusicLinkResponse { found: service_response.found, collected_links }
}

} // verus!
