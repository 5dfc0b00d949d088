use vstd::prelude::*;

verus! {

/// The unit of caching: one song's cross-platform identity. Every link ever
/// submitted for the song is kept in `equivalent_links`; `all_links` is the
/// derived projection used by lookups and is recomputed on every write.
#[derive(Debug)]
pub struct MusicLinkRecord {
    pub id: u64,
    pub spotify_link: Option<String>,
    pub apple_music_link: Option<String>,
    pub youtube_music_link: Option<String>,
    pub equivalent_links: Vec<String>,
    pub all_links: Vec<String>,
    pub created_at: i64,
    pub last_interacted_at: i64,
}

/// Mathematical view of a [`MusicLinkRecord`].
pub ghost struct RecordView {
    pub id: u64,
    pub spotify_link: Option<Seq<char>>,
    pub apple_music_link: Option<Seq<char>>,
    pub youtube_music_link: Option<Seq<char>>,
    pub equivalent_links: Seq<Seq<char>>,
    pub all_links: Seq<Seq<char>>,
    pub created_at: i64,
    pub last_interacted_at: i64,
}

impl View for MusicLinkRecord {
    type V = RecordView;

    open spec fn view(&self) -> RecordView {
        RecordView {
            id: self.id,
            spotify_link: self.spotify_link.deep_view(),
            apple_music_link: self.apple_music_link.deep_view(),
            youtube_music_link: self.youtube_music_link.deep_view(),
            equivalent_links: self.equivalent_links.deep_view(),
            all_links: self.all_links.deep_view(),
            created_at: self.created_at,
            last_interacted_at: self.last_interacted_at,
        }
    }
}

impl DeepView for MusicLinkRecord {
    type V = RecordView;

    open spec fn deep_view(&self) -> RecordView {
        self.view()
    }
}

/// A present platform link as a one-element sequence, an absent one as empty.
pub open spec fn opt_link_seq(link: Option<Seq<char>>) -> Seq<Seq<char>> {
    match link {
        Some(l) => seq![l],
        None => Seq::empty(),
    }
}

/// The derived `all_links` projection: the present platform links in the
/// fixed platform order, followed by every known alias.
pub open spec fn computed_all_links(
    spotify: Option<Seq<char>>,
    apple: Option<Seq<char>>,
    youtube: Option<Seq<char>>,
    aliases: Seq<Seq<char>>,
) -> Seq<Seq<char>> {
    opt_link_seq(spotify) + opt_link_seq(apple) + opt_link_seq(youtube) + aliases
}

/// A record is well formed when `all_links` equals the recomputed projection
/// of its platform links and aliases.
pub open spec fn record_wf(r: RecordView) -> bool {
    r.all_links == computed_all_links(
        r.spotify_link,
        r.apple_music_link,
        r.youtube_music_link,
        r.equivalent_links,
    )
}

/// Whether `link` is one of the record's known links.
pub open spec fn record_matches(r: RecordView, link: Seq<char>) -> bool {
    r.all_links.contains(link)
}

/// Copies an optional link.
pub(crate) fn clone_opt_link(link: &Option<String>) -> (r: Option<String>)
    ensures
        r == *link,
{
    match link {
        Some(l) => Some(l.clone()),
        None => None,
    }
}

/// Copies a list of links.
pub(crate) fn clone_links(links: &Vec<String>) -> (r: Vec<String>)
    ensures
        r@ == links@,
{
    let mut r: Vec<String> = Vec::new();
    let mut i: usize = 0;
    while i < links.len()
        invariant
            i <= links@.len(),
            r@ == links@.subrange(0, i as int),
        decreases links@.len() - i,
    {
        r.push(links[i].clone());
        proof {
            assert(r@ =~= links@.subrange(0, i as int + 1));
        }
        i = i + 1;
    }
    proof {
        assert(links@.subrange(0, links@.len() as int) =~= links@);
    }
    r
}

/// Recomputes the `all_links` projection from the platform links and the
/// alias list, exactly as the store persists it.
pub fn compute_all_links(
    spotify: &Option<String>,
    apple: &Option<String>,
    youtube: &Option<String>,
    aliases: &Vec<String>,
) -> (r: Vec<String>)
    ensures
        r.deep_view() == computed_all_links(
            spotify.deep_view(),
            apple.deep_view(),
            youtube.deep_view(),
            aliases.deep_view(),
        ),
{
    let mut r: Vec<String> = Vec::new();
    if let Some(l) = spotify {
        r.push(l.clone());
    }
    if let Some(l) = apple {
        r.push(l.clone());
    }
    if let Some(l) = youtube {
        r.push(l.clone());
    }
    let ghost plat = r@;
    let ghost platform_part = r.deep_view();
    proof {
        assert(platform_part =~= opt_link_seq(spotify.deep_view()) + opt_link_seq(
            apple.deep_view(),
        ) + opt_link_seq(youtube.deep_view()));
    }
    let mut i: usize = 0;
    while i < aliases.len()
        invariant
            i <= aliases@.len(),
            r@ == plat + aliases@.subrange(0, i as int),
        decreases aliases@.len() - i,
    {
        r.push(aliases[i].clone());
        proof {
            assert(r@ =~= plat + aliases@.subrange(0, i as int + 1));
        }
        i = i + 1;
    }
    proof {
        assert(r@ =~= plat + aliases@);
        assert(r.deep_view() =~= computed_all_links(
            spotify.deep_view(),
            apple.deep_view(),
            youtube.deep_view(),
            aliases.deep_view(),
        ));
    }
    r
}

impl MusicLinkRecord {
    /// An owned copy of the record, as the store hands records out.
    pub fn snapshot(&self) -> (r: MusicLinkRecord)
        ensures
            r@ == self@,
    {
        MusicLinkRecord {
            id: self.id,
            spotify_link: clone_opt_link(&self.spotify_link),
            apple_music_link: clone_opt_link(&self.apple_music_link),
            youtube_music_link: clone_opt_link(&self.youtube_music_link),
            equivalent_links: clone_links(&self.equivalent_links),
            all_links: clone_links(&self.all_links),
            created_at: self.created_at,
            last_interacted_at: self.last_interacted_at,
        }
    }

    /// Tests whether `link` is one of the record's known links.
    pub fn contains_link(&self, link: &String) -> (r: bool)
        ensures
            r == record_matches(self@, link@),
    {
        let mut i: usize = 0;
        while i < self.all_links.len()
            invariant
                i <= self.all_links@.len(),
                forall|j: int| 0 <= j < i ==> self.all_links.deep_view()[j] != link@,
            decreases self.all_links@.len() - i,
        {
            if self.all_links[i] == *link {
                proof {
                    assert(self.all_links.deep_view()[i as int] == link@);
                }
                return true;
            }
            proof {
                assert(self.all_links.deep_view()[i as int] != link@);
            }
            i = i + 1;
        }
        proof {
            assert(!self@.all_links.contains(link@)) by {
                if self@.all_links.contains(link@) {
                    let j = choose|j: int|
                        0 <= j < self@.all_links.len() && self@.all_links[j] == link@;
                    assert(self.all_links.deep_view()[j] == link@);
                }
            }
        }
        false
    }
}

} // verus!
