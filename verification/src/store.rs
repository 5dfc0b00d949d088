use vstd::prelude::*;

use crate::record::{
    clone_links, clone_opt_link, compute_all_links, computed_all_links, opt_link_seq,
    record_matches, record_wf, MusicLinkRecord, RecordView,
};

verus! {

/// The equivalence store: every canonical record, in creation order. It
/// stands in for the relational table of links; the `all_links` projection is
/// recomputed here on every write path, inside the same mutation, so stale
/// derived data cannot occur as long as all writes go through this store.
pub struct LinkStore {
    pub(crate) records: Vec<MusicLinkRecord>,
    pub(crate) ambiguous_lookups: u64,
}

impl View for LinkStore {
    type V = Seq<RecordView>;

    closed spec fn view(&self) -> Seq<RecordView> {
        self.records.deep_view()
    }
}

/// Position of the first record (in creation order) that knows `link`.
pub open spec fn first_match(records: Seq<RecordView>, link: Seq<char>) -> Option<int>
    decreases records.len(),
{
    if records.len() == 0 {
        None
    } else if record_matches(records[0], link) {
        Some(0int)
    } else {
        match first_match(records.drop_first(), link) {
            Some(i) => Some(i + 1),
            None => None,
        }
    }
}

/// How many records know `link`. More than one is the data-quality anomaly a
/// lookup tolerates and counts.
pub open spec fn match_count(records: Seq<RecordView>, link: Seq<char>) -> int
    decreases records.len(),
{
    if records.len() == 0 {
        0
    } else {
        match_count(records.drop_last(), link) + if record_matches(records.last(), link) {
            1int
        } else {
            0int
        }
    }
}

/// A record after a read or write refreshes its hotness timestamp.
pub open spec fn touched(r: RecordView, now: i64) -> RecordView {
    RecordView { last_interacted_at: now, ..r }
}

/// The records after a lookup of `link`: the first matching one touched,
/// everything else untouched.
pub open spec fn after_lookup(records: Seq<RecordView>, link: Seq<char>, now: i64) -> Seq<
    RecordView,
> {
    match first_match(records, link) {
        Some(i) => records.update(i, touched(records[i], now)),
        None => records,
    }
}

/// A record after `alias` merges into it: the alias list grows by one entry,
/// `all_links` is recomputed, the hotness timestamp is refreshed. The
/// record's platform links are never altered by a merge.
pub open spec fn merged(r: RecordView, alias: Seq<char>, now: i64) -> RecordView {
    let aliases = r.equivalent_links.push(alias);
    RecordView {
        equivalent_links: aliases,
        all_links: computed_all_links(
            r.spotify_link,
            r.apple_music_link,
            r.youtube_music_link,
            aliases,
        ),
        last_interacted_at: now,
        ..r
    }
}

/// A fresh record for a link whose discoveries match nothing yet.
pub open spec fn new_record(
    id: u64,
    original: Seq<char>,
    spotify: Option<Seq<char>>,
    apple: Option<Seq<char>>,
    youtube: Option<Seq<char>>,
    now: i64,
) -> RecordView {
    RecordView {
        id,
        spotify_link: spotify,
        apple_music_link: apple,
        youtube_music_link: youtube,
        equivalent_links: seq![original],
        all_links: computed_all_links(spotify, apple, youtube, seq![original]),
        created_at: now,
        last_interacted_at: now,
    }
}

/// The record an upsert merges into: the first discovered platform link, in
/// the fixed platform order, that some existing record already knows decides;
/// among records the first by creation order wins.
pub open spec fn merge_target(
    records: Seq<RecordView>,
    spotify: Option<Seq<char>>,
    apple: Option<Seq<char>>,
    youtube: Option<Seq<char>>,
) -> Option<int> {
    if spotify is Some && first_match(records, spotify->0) is Some {
        first_match(records, spotify->0)
    } else if apple is Some && first_match(records, apple->0) is Some {
        first_match(records, apple->0)
    } else if youtube is Some && first_match(records, youtube->0) is Some {
        first_match(records, youtube->0)
    } else {
        None
    }
}

/// The records and the chosen record id after an upsert of `original` with
/// the discovered per-platform links.
pub open spec fn after_upsert(
    records: Seq<RecordView>,
    original: Seq<char>,
    spotify: Option<Seq<char>>,
    apple: Option<Seq<char>>,
    youtube: Option<Seq<char>>,
    now: i64,
) -> (Seq<RecordView>, u64) {
    match merge_target(records, spotify, apple, youtube) {
        Some(i) => (records.update(i, merged(records[i], original, now)), records[i].id),
        None => (
            records.push(
                new_record(records.len() as u64, original, spotify, apple, youtube, now),
            ),
            records.len() as u64,
        ),
    }
}

/// Store invariant: every record is well formed, and record ids are exactly
/// the creation-order positions, so ids are unique and immutable.
pub open spec fn store_wf(records: Seq<RecordView>) -> bool {
    forall|i: int|
        0 <= i < records.len() ==> record_wf(#[trigger] records[i]) && records[i].id == i as u64
}

/// A counter bumped by one until it pins at its maximum.
pub open spec fn saturating_inc(c: u64) -> u64 {
    if c == u64::MAX {
        c
    } else {
        (c + 1) as u64
    }
}

/// A record freshly appended to the store is what `first_match` finds for a
/// link no earlier record knows.
proof fn lemma_push_first_match(records: Seq<RecordView>, nr: RecordView, link: Seq<char>)
    requires
        first_match(records, link) is None,
        record_matches(nr, link),
    ensures
        first_match(records.push(nr), link) == Some(records.len() as int),
{
    lemma_first_match_spec(records, link);
    let up = records.push(nr);
    assert forall|j: int| 0 <= j < records.len() implies !record_matches(#[trigger] up[j], link) by {
        assert(up[j] == records[j]);
    }
    assert(up[records.len() as int] == nr);
    lemma_first_match_witness(up, link, records.len() as int);
}

/// Idempotence of merge: once a link has been upserted, a lookup of that
/// link finds a record, so resolving the same link again is served from the
/// store and cannot create a second record for it; and one upsert grows the
/// store by at most one record.
pub proof fn lemma_upsert_makes_link_known(
    records: Seq<RecordView>,
    original: Seq<char>,
    spotify: Option<Seq<char>>,
    apple: Option<Seq<char>>,
    youtube: Option<Seq<char>>,
    now: i64,
)
    ensures
        ({
            let up = after_upsert(records, original, spotify, apple, youtube, now);
            &&& first_match(up.0, original) is Some
            &&& up.0.len() <= records.len() + 1
        }),
{
    let up = after_upsert(records, original, spotify, apple, youtube, now);
    if spotify is Some {
        lemma_first_match_spec(records, spotify->0);
    }
    if apple is Some {
        lemma_first_match_spec(records, apple->0);
    }
    if youtube is Some {
        lemma_first_match_spec(records, youtube->0);
    }
    match merge_target(records, spotify, apple, youtube) {
        Some(i) => {
            let m = merged(records[i], original, now);
            let aliases = records[i].equivalent_links.push(original);
            let plat = opt_link_seq(records[i].spotify_link) + opt_link_seq(
                records[i].apple_music_link,
            ) + opt_link_seq(records[i].youtube_music_link);
            assert(m.all_links =~= plat + aliases);
            assert(aliases[aliases.len() - 1] == original);
            assert(m.all_links[plat.len() + aliases.len() - 1] == original);
            assert(record_matches(m, original));
            assert(up.0[i] == m);
            lemma_first_match_spec(up.0, original);
            if first_match(up.0, original) is None {
                assert(!record_matches(up.0[i], original));
            }
        },
        None => {
            let nr = new_record(records.len() as u64, original, spotify, apple, youtube, now);
            let plat = opt_link_seq(spotify) + opt_link_seq(apple) + opt_link_seq(youtube);
            assert(nr.all_links =~= plat + seq![original]);
            assert(nr.all_links[plat.len() as int] == original);
            assert(record_matches(nr, original));
            assert(up.0[records.len() as int] == nr);
            lemma_first_match_spec(up.0, original);
            if first_match(up.0, original) is None {
                assert(!record_matches(up.0[records.len() as int], original));
            }
        },
    }
}

/// Alias transitivity: when an upsert created a record because none of its
/// discovered platform links was known, each of those links now leads to
/// exactly the created record — a later request submitting such a link
/// directly hits that record instead of creating a duplicate for it.
pub proof fn lemma_alias_transitivity(
    records: Seq<RecordView>,
    original: Seq<char>,
    spotify: Option<Seq<char>>,
    apple: Option<Seq<char>>,
    youtube: Option<Seq<char>>,
    now: i64,
)
    requires
        merge_target(records, spotify, apple, youtube) is None,
    ensures
        ({
            let up = after_upsert(records, original, spotify, apple, youtube, now);
            let n = records.len() as int;
            &&& up.0.len() == records.len() + 1
            &&& up.0[n].id == up.1
            &&& spotify matches Some(u) ==> first_match(up.0, u) == Some(n)
            &&& apple matches Some(u) ==> first_match(up.0, u) == Some(n)
            &&& youtube matches Some(u) ==> first_match(up.0, u) == Some(n)
        }),
{
    let up = after_upsert(records, original, spotify, apple, youtube, now);
    let nr = new_record(records.len() as u64, original, spotify, apple, youtube, now);
    let os = opt_link_seq(spotify);
    let oa = opt_link_seq(apple);
    let oy = opt_link_seq(youtube);
    assert(nr.all_links =~= os + oa + oy + seq![original]);
    if let Some(u) = spotify {
        assert(nr.all_links[0] == u);
        assert(record_matches(nr, u));
        lemma_push_first_match(records, nr, u);
    }
    if let Some(u) = apple {
        assert(nr.all_links[os.len() as int] == u);
        assert(record_matches(nr, u));
        lemma_push_first_match(records, nr, u);
    }
    if let Some(u) = youtube {
        assert(nr.all_links[os.len() + oa.len() as int] == u);
        assert(record_matches(nr, u));
        lemma_push_first_match(records, nr, u);
    }
}

/// `first_match` finds a matching record and nothing before it matches; when
/// it finds nothing, no record matches.
pub proof fn lemma_first_match_spec(records: Seq<RecordView>, link: Seq<char>)
    ensures
        match first_match(records, link) {
            Some(i) => 0 <= i < records.len() && record_matches(records[i], link) && forall|
                j: int,
            |
                0 <= j < i ==> !record_matches(#[trigger] records[j], link),
            None => forall|j: int|
                0 <= j < records.len() ==> !record_matches(#[trigger] records[j], link),
        },
    decreases records.len(),
{
    if records.len() > 0 && !record_matches(records[0], link) {
        let rest = records.drop_first();
        lemma_first_match_spec(rest, link);
        match first_match(rest, link) {
            Some(i) => {
                assert forall|j: int| 0 <= j < i + 1 implies !record_matches(
                    #[trigger] records[j],
                    link,
                ) by {
                    if j > 0 {
                        assert(records[j] == rest[j - 1]);
                    }
                }
            },
            None => {
                assert forall|j: int| 0 <= j < records.len() implies !record_matches(
                    #[trigger] records[j],
                    link,
                ) by {
                    if j > 0 {
                        assert(records[j] == rest[j - 1]);
                    }
                }
            },
        }
    }
}

/// Conversely, an index that matches with nothing matching before it is what
/// `first_match` returns.
pub proof fn lemma_first_match_witness(records: Seq<RecordView>, link: Seq<char>, i: int)
    requires
        0 <= i < records.len(),
        record_matches(records[i], link),
        forall|j: int| 0 <= j < i ==> !record_matches(#[trigger] records[j], link),
    ensures
        first_match(records, link) == Some(i),
    decreases records.len(),
{
    if i == 0 {
    } else {
        assert(!record_matches(records[0], link));
        let rest = records.drop_first();
        assert(rest[i - 1] == records[i]);
        assert forall|j: int| 0 <= j < i - 1 implies !record_matches(#[trigger] rest[j], link) by {
            assert(rest[j] == records[j + 1]);
        }
        lemma_first_match_witness(rest, link, i - 1);
    }
}

impl LinkStore {
    /// The store invariant over the store's mathematical view.
    pub open spec fn wf(&self) -> bool {
        store_wf(self@)
    }

    /// How many lookups have found more than one matching record.
    pub closed spec fn ambiguous_count(&self) -> u64 {
        self.ambiguous_lookups
    }

    /// An empty store.
    pub fn new() -> (r: LinkStore)
        ensures
            r@ == Seq::<RecordView>::empty(),
            r.wf(),
            r.ambiguous_count() == 0,
    {
        LinkStore { records: Vec::new(), ambiguous_lookups: 0 }
    }

    /// Number of canonical records.
    pub fn len(&self) -> (n: usize)
        ensures
            n == self@.len(),
    {
        self.records.len()
    }

    /// A copy of the record at a creation-order position.
    pub fn record_at(&self, i: usize) -> (r: MusicLinkRecord)
        requires
            i < self@.len(),
        ensures
            r@ == self@[i as int],
    {
        self.records[i].snapshot()
    }

    /// How many lookups have found more than one matching record.
    pub fn ambiguous_lookup_count(&self) -> (n: u64)
        ensures
            n == self.ambiguous_count(),
    {
        self.ambiguous_lookups
    }

    /// Position of the first record that knows `link`, without touching
    /// anything.
    fn find_first(&self, link: &String) -> (r: Option<usize>)
        ensures
            match r {
                Some(i) => i < self@.len() && first_match(self@, link@) == Some(i as int),
                None => first_match(self@, link@) is None,
            },
    {
        let ghost recs = self@;
        let mut i: usize = 0;
        while i < self.records.len()
            invariant
                self@ == recs,
                self.records@.len() == recs.len(),
                i <= recs.len(),
                forall|j: int| 0 <= j < i ==> !record_matches(#[trigger] recs[j], link@),
            decreases recs.len() - i,
        {
            if self.records[i].contains_link(link) {
                proof {
                    assert(recs[i as int] == self.records@[i as int]@);
                    lemma_first_match_witness(recs, link@, i as int);
                }
                return Some(i);
            }
            proof {
                assert(recs[i as int] == self.records@[i as int]@);
            }
            i = i + 1;
        }
        proof {
            lemma_first_match_spec(recs, link@);
        }
        None
    }

    /// Looks a link up: returns a copy of the first record (in creation
    /// order) that knows `link`, with its hotness timestamp refreshed in the
    /// store, or nothing. A lookup that finds more than one matching record
    /// tolerates the anomaly — the first record still wins deterministically —
    /// and counts it as a data-quality signal.
    pub fn lookup(&mut self, link: &String, now: i64) -> (r: Option<MusicLinkRecord>)
        requires
            old(self).wf(),
        ensures
            final(self).wf(),
            final(self)@ == after_lookup(old(self)@, link@, now),
            final(self)@.len() == old(self)@.len(),
            final(self).ambiguous_count() == if match_count(old(self)@, link@) > 1 {
                saturating_inc(old(self).ambiguous_count())
            } else {
                old(self).ambiguous_count()
            },
            r.deep_view() == match first_match(old(self)@, link@) {
                Some(i) => Some(touched(old(self)@[i], now)),
                None => None::<RecordView>,
            },
    {
        let ghost recs = self@;
        let mut first: Option<usize> = None;
        let mut count: u64 = 0;
        let mut i: usize = 0;
        while i < self.records.len()
            invariant
                self@ == recs,
                self.records@.len() == recs.len(),
                i <= recs.len(),
                count <= i,
                count == match_count(recs.subrange(0, i as int), link@),
                first is None ==> count == 0,
                match first {
                    Some(f) => f < i && record_matches(recs[f as int], link@) && (forall|j: int|
                        0 <= j < f ==> !record_matches(#[trigger] recs[j], link@)),
                    None => forall|j: int| 0 <= j < i ==> !record_matches(#[trigger] recs[j], link@),
                },
            decreases recs.len() - i,
        {
            proof {
                assert(recs[i as int] == self.records@[i as int]@);
                assert(recs.subrange(0, i as int + 1).drop_last() =~= recs.subrange(0, i as int));
                assert(recs.subrange(0, i as int + 1).last() == recs[i as int]);
            }
            if self.records[i].contains_link(link) {
                count = count + 1;
                if first.is_none() {
                    first = Some(i);
                }
            }
            i = i + 1;
        }
        proof {
            assert(recs.subrange(0, recs.len() as int) =~= recs);
        }
        match first {
            None => {
                proof {
                    lemma_first_match_spec(recs, link@);
                }
                None
            },
            Some(f) => {
                proof {
                    lemma_first_match_witness(recs, link@, f as int);
                }
                if count > 1 {
                    if self.ambiguous_lookups < u64::MAX {
                        self.ambiguous_lookups = self.ambiguous_lookups + 1;
                    }
                }
                let mut rec = self.records[f].snapshot();
                rec.last_interacted_at = now;
                let out = rec.snapshot();
                self.records.set(f, rec);
                proof {
                    assert(self@ =~= recs.update(f as int, touched(recs[f as int], now)));
                }
                Some(out)
            },
        }
    }

    /// Upsert with the first-match-wins merge policy: the first
    /// discovered platform link that an existing record already knows picks
    /// that record; the submitted link joins its alias list and `all_links`
    /// is recomputed, while the record's platform links stay as they were.
    /// When nothing matches, a fresh record is created from the discoveries —
    /// also when every discovery is absent, so the submitted link itself is
    /// always persisted.
    pub fn upsert(
        &mut self,
        original_link: &String,
        spotify: &Option<String>,
        apple: &Option<String>,
        youtube: &Option<String>,
        now: i64,
    ) -> (id: u64)
        requires
            old(self).wf(),
        ensures
            final(self).wf(),
            final(self)@ == after_upsert(
                old(self)@,
                original_link@,
                spotify.deep_view(),
                apple.deep_view(),
                youtube.deep_view(),
                now,
            ).0,
            id == after_upsert(
                old(self)@,
                original_link@,
                spotify.deep_view(),
                apple.deep_view(),
                youtube.deep_view(),
                now,
            ).1,
            final(self).ambiguous_count() == old(self).ambiguous_count(),
    {
        let ghost recs = self@;
        let mut target: Option<usize> = None;
        if let Some(l) = spotify {
            target = self.find_first(l);
        }
        if target.is_none() {
            if let Some(l) = apple {
                target = self.find_first(l);
            }
        }
        if target.is_none() {
            if let Some(l) = youtube {
                target = self.find_first(l);
            }
        }
        proof {
            assert(match target {
                Some(t) => merge_target(
                    recs,
                    spotify.deep_view(),
                    apple.deep_view(),
                    youtube.deep_view(),
                ) == Some(t as int),
                None => merge_target(
                    recs,
                    spotify.deep_view(),
                    apple.deep_view(),
                    youtube.deep_view(),
                ) is None,
            });
        }
        match target {
            Some(t) => {
                let rec = &self.records[t];
                let id = rec.id;
                let created_at = rec.created_at;
                let spotify_link = clone_opt_link(&rec.spotify_link);
                let apple_music_link = clone_opt_link(&rec.apple_music_link);
                let youtube_music_link = clone_opt_link(&rec.youtube_music_link);
                let mut equivalent_links = clone_links(&rec.equivalent_links);
                equivalent_links.push(original_link.clone());
                let all_links = compute_all_links(
                    &spotify_link,
                    &apple_music_link,
                    &youtube_music_link,
                    &equivalent_links,
                );
                let merged_rec = MusicLinkRecord {
                    id,
                    spotify_link,
                    apple_music_link,
                    youtube_music_link,
                    equivalent_links,
                    all_links,
                    created_at,
                    last_interacted_at: now,
                };
                proof {
                    assert(recs[t as int] == self.records@[t as int]@);
                    assert(merged_rec@.equivalent_links =~= recs[t as int].equivalent_links.push(
                        original_link@,
                    ));
                    assert(merged_rec@ == merged(recs[t as int], original_link@, now));
                }
                self.records.set(t, merged_rec);
                proof {
                    assert(self@ =~= recs.update(t as int, merged(recs[t as int], original_link@, now)));
                }
                id
            },
            None => {
                let id = self.records.len() as u64;
                let mut equivalent_links: Vec<String> = Vec::new();
                equivalent_links.push(original_link.clone());
                let all_links = compute_all_links(spotify, apple, youtube, &equivalent_links);
                let rec = MusicLinkRecord {
                    id,
                    spotify_link: clone_opt_link(spotify),
                    apple_music_link: clone_opt_link(apple),
                    youtube_music_link: clone_opt_link(youtube),
                    equivalent_links,
                    all_links,
                    created_at: now,
                    last_interacted_at: now,
                };
                proof {
                    assert(rec@.equivalent_links =~= seq![original_link@]);
                    assert(rec@ == new_record(
                        recs.len() as u64,
                        original_link@,
                        spotify.deep_view(),
                        apple.deep_view(),
                        youtube.deep_view(),
                        now,
                    ));
                }
                self.records.push(rec);
                proof {
                    assert(self@ =~= recs.push(
                        new_record(
                            recs.len() as u64,
                            original_link@,
                            spotify.deep_view(),
                            apple.deep_view(),
                            youtube.deep_view(),
                            now,
                        ),
                    ));
                }
                id
            },
        }
    }
}

} // verus!
