use vstd::prelude::*;

verus! {

/// A video of the catalog: its identifier and the bitrates it can be served at.
#[derive(Clone, Debug)]
pub struct Video {
    pub id: String,
    pub bitrates: Vec<u32>,
}

/// The catalog of videos, keyed by identifier.
///
/// Entries are kept in a vector with pairwise distinct identifiers; the ghost
/// map `index` is what the catalog means: identifier to bitrate ladder.
pub struct VideoRepository {
    videos: Vec<Video>,
    index: Ghost<Map<Seq<char>, Seq<u32>>>,
}

impl View for VideoRepository {
    type V = Map<Seq<char>, Seq<u32>>;

    closed spec fn view(&self) -> Map<Seq<char>, Seq<u32>> {
        self.index@
    }
}

impl VideoRepository {
    /// Identifiers are distinct, and the entries are exactly the map's.
    pub closed spec fn wf(&self) -> bool {
        &&& forall|i: int, j: int|
            0 <= i < j < self.videos@.len() ==> #[trigger] self.videos@[i].id@
                != #[trigger] self.videos@[j].id@
        &&& forall|i: int|
            0 <= i < self.videos@.len() ==> {
                &&& self.index@.contains_key(#[trigger] self.videos@[i].id@)
                &&& self.index@[self.videos@[i].id@] == self.videos@[i].bitrates@
            }
        &&& forall|k: Seq<char>|
            #[trigger] self.index@.contains_key(k) ==> exists|i: int|
                0 <= i < self.videos@.len() && #[trigger] self.videos@[i].id@ == k
    }

    /// An empty catalog.
    pub fn new() -> (r: VideoRepository)
        ensures
            r.wf(),
            r@ == Map::<Seq<char>, Seq<u32>>::empty(),
    {
        VideoRepository { videos: Vec::new(), index: Ghost(Map::empty()) }
    }

    /// Position of the entry with identifier `id`, if there is one.
    fn position(&self, id: &String) -> (r: Option<usize>)
        requires
            self.wf(),
        ensures
            match r {
                Some(i) => i < self.videos@.len() && self.videos@[i as int].id@ == id@,
                None => !self@.contains_key(id@),
            },
    {
        let mut i: usize = 0;
        while i < self.videos.len()
            invariant
                self.wf(),
                i <= self.videos@.len(),
                forall|j: int| 0 <= j < i ==> self.videos@[j].id@ != id@,
            decreases self.videos@.len() - i,
        {
            if self.videos[i].id == *id {
                return Some(i);
            }
            i = i + 1;
        }
        None
    }

    /// Inserts `video`, replacing any entry with the same identifier.
    pub fn add_video(&mut self, video: Video)
        requires
            old(self).wf(),
        ensures
            final(self).wf(),
            final(self)@ == old(self)@.insert(video.id@, video.bitrates@),
    {
        let ghost key = video.id@;
        let ghost ladder = video.bitrates@;
        let ghost before = self.videos@;
        match self.position(&video.id) {
            Some(i) => {
                self.videos.set(i, video);
                self.index = Ghost(self.index@.insert(key, ladder));
                assert forall|k: Seq<char>| #[trigger] self.index@.contains_key(k) implies exists|j: int|
                    0 <= j < self.videos@.len() && #[trigger] self.videos@[j].id@ == k by {
                    if k != key {
                        let j = choose|j: int| 0 <= j < before.len() && #[trigger] before[j].id@ == k;
                        assert(self.videos@[j].id@ == k);
                    } else {
                        assert(self.videos@[i as int].id@ == k);
                    }
                }
            },
            None => {
                self.videos.push(video);
                self.index = Ghost(self.index@.insert(key, ladder));
                assert forall|k: Seq<char>| #[trigger] self.index@.contains_key(k) implies exists|j: int|
                    0 <= j < self.videos@.len() && #[trigger] self.videos@[j].id@ == k by {
                    if k != key {
                        let j = choose|j: int| 0 <= j < before.len() && #[trigger] before[j].id@ == k;
                        assert(self.videos@[j].id@ == k);
                    } else {
                        assert(self.videos@[before.len() as int].id@ == k);
                    }
                }
            },
        }
    }

    /// The video with identifier `id`, or `None` when the catalog has none.
    pub fn find_video_by_id(&self, id: &str) -> (r: Option<&Video>)
        requires
            self.wf(),
        ensures
            r is None <==> !self@.contains_key(id@),
            r matches Some(v) ==> v.id@ == id@ && v.bitrates@ == self@[id@],
    {
        let key = id.to_owned();
        match self.position(&key) {
            Some(i) => Some(&self.videos[i]),
            None => None,
        }
    }
}

/// The catalog after adding each `(identifier, bitrates)` of `adds` in order.
pub open spec fn catalog_after(
    m: Map<Seq<char>, Seq<u32>>,
    adds: Seq<(Seq<char>, Seq<u32>)>,
) -> Map<Seq<char>, Seq<u32>>
    decreases adds.len(),
{
    if adds.len() == 0 {
        m
    } else {
        catalog_after(m, adds.drop_last()).insert(adds.last().0, adds.last().1)
    }
}

/// Lookup yields the ladder last stored: after a run of additions in which
/// position `k` is the last to add `id`, the catalog maps `id` to `k`'s ladder.
pub proof fn lemma_find_returns_last_stored(
    m: Map<Seq<char>, Seq<u32>>,
    adds: Seq<(Seq<char>, Seq<u32>)>,
    id: Seq<char>,
    k: int,
)
    requires
        0 <= k < adds.len(),
        adds[k].0 == id,
        forall|j: int| k < j < adds.len() ==> #[trigger] adds[j].0 != id,
    ensures
        catalog_after(m, adds).contains_key(id),
        catalog_after(m, adds)[id] == adds[k].1,
    decreases adds.len(),
{
    if k < adds.len() - 1 {
        let front = adds.drop_last();
        assert forall|j: int| k < j < front.len() implies #[trigger] front[j].0 != id by {
            assert(front[j] == adds[j]);
        }
        lemma_find_returns_last_stored(m, front, id, k);
        assert(adds[adds.len() - 1].0 != id);
    }
}

/// Lookup of an unknown identifier fails: one absent at the start and never
/// added stays absent.
pub proof fn lemma_find_unknown(
    m: Map<Seq<char>, Seq<u32>>,
    adds: Seq<(Seq<char>, Seq<u32>)>,
    id: Seq<char>,
)
    requires
        !m.contains_key(id),
        forall|j: int| 0 <= j < adds.len() ==> #[trigger] adds[j].0 != id,
    ensures
        !catalog_after(m, adds).contains_key(id),
    decreases adds.len(),
{
    if adds.len() > 0 {
        let front = adds.drop_last();
        assert forall|j: int| 0 <= j < front.len() implies #[trigger] front[j].0 != id by {
            assert(front[j] == adds[j]);
        }
        lemma_find_unknown(m, front, id);
        assert(adds[adds.len() - 1].0 != id);
    }
}

} // verus!
