use vstd::prelude::*;

use crate::models::MusicLinkResponse;
use crate::platform::MusicPlatform;
use crate::record::clone_opt_link;

verus! {

/// A resolution request as the GraphQL transport delivers it.
#[derive(Debug)]
pub struct ResolveMusicLinkInput {
    pub link: String,
    pub user_country: String,
}

/// A tracked platform as the GraphQL schema names it.
#[derive(Clone, Copy, Debug, PartialEq, Eq, Structural)]
pub enum ResolveMusicLinkResponseLinkPlatform {
    Spotify,
    AppleMusic,
    YoutubeMusic,
}

/// One per-platform entry of the GraphQL response.
#[derive(Debug)]
pub struct ResolveMusicLinkResponseLink {
    pub link: Option<String>,
    pub platform: ResolveMusicLinkResponseLinkPlatform,
}

/// Mathematical view of a [`ResolveMusicLinkResponseLink`].
pub ghost struct GraphqlLinkView {
    pub link: Option<Seq<char>>,
    pub platform: ResolveMusicLinkResponseLinkPlatform,
}

impl View for ResolveMusicLinkResponseLink {
    type V = GraphqlLinkView;

    open spec fn view(&self) -> GraphqlLinkView {
        GraphqlLinkView { link: self.link.deep_view(), platform: self.platform }
    }
}

/// The GraphQL response: the found count and the per-platform entries.
#[derive(Debug)]
pub struct ResolveMusicLinkResponse {
    pub found: u8,
    pub collected_links: Vec<ResolveMusicLinkResponseLink>,
}

/// The GraphQL name of a tracked platform.
pub open spec fn gql_platform(p: MusicPlatform) -> ResolveMusicLinkResponseLinkPlatform {
    match p {
        MusicPlatform::Spotify => ResolveMusicLinkResponseLinkPlatform::Spotify,
        MusicPlatform::AppleMusic => ResolveMusicLinkResponseLinkPlatform::AppleMusic,
        MusicPlatform::YoutubeMusic => ResolveMusicLinkResponseLinkPlatform::YoutubeMusic,
    }
}

/// Renames a tracked platform for the GraphQL schema.
fn to_gql_platform(p: MusicPlatform) -> (r: ResolveMusicLinkResponseLinkPlatform)
    ensures
        r == gql_platform(p),
{
    match p {
        MusicPlatform::Spotify => ResolveMusicLinkResponseLinkPlatform::Spotify,
        MusicPlatform::AppleMusic => ResolveMusicLinkResponseLinkPlatform::AppleMusic,
        MusicPlatform::YoutubeMusic => ResolveMusicLinkResponseLinkPlatform::YoutubeMusic,
    }
}

/// Maps a resolver result onto the GraphQL response shape: the found count
/// carries over, every entry keeps its position and destination URL, and
/// only the platform names are translated. The record id is dropped — the
/// schema does not expose it.
pub fn convert_to_graphql_response(service_response: MusicLinkResponse) -> (r:
    ResolveMusicLinkResponse)
    ensures
        r.found == service_response.found,
        r.collected_links@.len() == service_response.collected_links@.len(),
        forall|i: int|
            0 <= i < service_response.collected_links@.len() ==> {
                let s = service_response.collected_links@[i]@;
                let e = (#[trigger] r.collected_links@[i])@;
                e.platform == gql_platform(s.platform) && e.link == s.link
            },
{
    let source = &service_response.collected_links;
    let mut collected_links: Vec<ResolveMusicLinkResponseLink> = Vec::new();
    let mut i: usize = 0;
    while i < source.len()
        invariant
            source@ == service_response.collected_links@,
            i <= source@.len(),
            collected_links@.len() == i,
            forall|j: int|
                0 <= j < i ==> {
                    let s = source@[j]@;
                    let e = (#[trigger] collected_links@[j])@;
                    e.platform == gql_platform(s.platform) && e.link == s.link
                },
        decreases source@.len() - i,
    {
        let entry = ResolveMusicLinkResponseLink {
            link: clone_opt_link(&source[i].link),
            platform: to_gql_platform(source[i].platform),
        };
        collected_links.push(entry);
        i = i + 1;
    }
    ResolveMusicLinkResponse { found: service_response.found, collected_links }
}

} // verus!
