//! A vector index held in memory.
//!
//! It keeps the contract of the vector index: a point written under an
//! identifier that is already there replaces the point that was there, a
//! search hands out the best-scored points in descending order, and a
//! document's points can be removed together. How similar a stored vector is
//! to a query is not computed here: a search is handed one score per stored
//! point.

use vstd::prelude::*;
use crate::engine::score::Score;
use crate::engine::vector_store::{IndexPoint, IndexPointView, SearchResult, SearchResultView};

verus! {

/// The index of the first point with the identifier `id`, or the number of
/// points if there is none.
pub open spec fn position(points: Seq<IndexPointView>, id: u128) -> int
    decreases points.len(),
{
    if points.len() == 0 || points[0].id == id {
        0
    } else {
        1 + position(points.drop_first(), id)
    }
}

/// Whether no two points share an identifier.
pub open spec fn distinct(points: Seq<IndexPointView>) -> bool {
    forall|i: int, j: int|
        0 <= i < j < points.len() ==> (#[trigger] points[i]).id != (#[trigger] points[j]).id
}

/// The point stored under `id`, if there is one.
pub open spec fn stored_under(points: Seq<IndexPointView>, id: u128) -> Option<IndexPointView> {
    if position(points, id) < points.len() {
        Some(points[position(points, id)])
    } else {
        None
    }
}

/// The points after `point` has been written: it takes the place of the
/// point with its identifier, or goes to the end if there is none.
pub open spec fn upserted(points: Seq<IndexPointView>, point: IndexPointView) -> Seq<
    IndexPointView,
> {
    if position(points, point.id) < points.len() {
        points.update(position(points, point.id), point)
    } else {
        points.push(point)
    }
}

/// The points after a batch has been written, point by point.
pub open spec fn upserted_all(points: Seq<IndexPointView>, batch: Seq<IndexPointView>) -> Seq<
    IndexPointView,
>
    decreases batch.len(),
{
    if batch.len() == 0 {
        points
    } else {
        upserted(upserted_all(points, batch.drop_last()), batch.last())
    }
}

/// The points that do not belong to `document_id`, in order.
pub open spec fn without_document(points: Seq<IndexPointView>, document_id: u128) -> Seq<
    IndexPointView,
> {
    points.filter(|p: IndexPointView| p.document_id != document_id)
}

/// Whether the point at `a` comes before the point at `b` in a ranking: its
/// score ranks higher, or the same and it was stored earlier.
pub open spec fn before(scores: Seq<Score>, a: int, b: int) -> bool {
    scores[a].rank_key() > scores[b].rank_key() || (scores[a].rank_key() == scores[b].rank_key()
        && a < b)
}

/// Whether `picked` lists the `limit` best of the stored points, or all of
/// them if there are fewer, best first.
pub open spec fn is_ranking(picked: Seq<int>, scores: Seq<Score>, limit: int) -> bool {
    &&& picked.len() == if limit < scores.len() {
        limit
    } else {
        scores.len() as int
    }
    &&& forall|k: int| 0 <= k < picked.len() ==> 0 <= #[trigger] picked[k] < scores.len()
    &&& forall|k: int, l: int|
        0 <= k < l < picked.len() ==> before(scores, #[trigger] picked[k], #[trigger] picked[l])
    &&& forall|k: int, j: int|
        0 <= k < picked.len() && 0 <= j < scores.len() && !picked.contains(j) ==> #[trigger] before(
            scores,
            picked[k],
            j,
        )
}

/// The search result for a stored point with its score.
pub open spec fn result_of(point: IndexPointView, score: Score) -> SearchResultView {
    SearchResultView {
        id: point.id,
        score,
        document_id: point.document_id,
        chunk_index: point.chunk_index,
        content: point.content,
    }
}

/// `position` finds the first point with the identifier, if there is one.
pub proof fn lemma_position(points: Seq<IndexPointView>, id: u128)
    ensures
        0 <= position(points, id) <= points.len(),
        position(points, id) < points.len() ==> points[position(points, id)].id == id,
        forall|j: int| 0 <= j < position(points, id) ==> (#[trigger] points[j]).id != id,
    decreases points.len(),
{
    if points.len() > 0 && points[0].id != id {
        let rest = points.drop_first();
        lemma_position(rest, id);
        assert forall|j: int| 0 <= j < position(points, id) implies (#[trigger] points[j]).id
            != id by {
            if j > 0 {
                assert(rest[j - 1] == points[j]);
            }
        }
    }
}

/// Among distinct points, the point with an identifier is where `position`
/// says.
pub proof fn lemma_position_of(points: Seq<IndexPointView>, i: int)
    requires
        0 <= i < points.len(),
        forall|j: int| 0 <= j < i ==> (#[trigger] points[j]).id != points[i].id,
    ensures
        position(points, points[i].id) == i,
{
    lemma_position(points, points[i].id);
}

/// Writing a point keeps the identifiers distinct, stores the point under
/// its identifier, and leaves what is stored under any other identifier.
pub proof fn lemma_upserted(points: Seq<IndexPointView>, point: IndexPointView)
    requires
        distinct(points),
    ensures
        distinct(upserted(points, point)),
        stored_under(upserted(points, point), point.id) == Some(point),
        forall|id: u128|
            id != point.id ==> #[trigger] stored_under(upserted(points, point), id) == stored_under(
                points,
                id,
            ),
        upserted(points, point).len() == if stored_under(points, point.id) is Some {
            points.len()
        } else {
            points.len() + 1
        },
{
    let at = position(points, point.id);
    let after = upserted(points, point);
    lemma_position(points, point.id);
    lemma_position_of(after, at);
    assert forall|id: u128| id != point.id implies #[trigger] stored_under(after, id)
        == stored_under(points, id) by {
        let was = position(points, id);
        lemma_position(points, id);
        lemma_position(after, id);
        if was < points.len() {
            lemma_position_of(after, was);
        }
    }
}

/// Writing twice under one identifier is writing the second point: the
/// first is overwritten, and no point is added for it.
pub proof fn lemma_upsert_overwrites(
    points: Seq<IndexPointView>,
    first: IndexPointView,
    second: IndexPointView,
)
    requires
        distinct(points),
        first.id == second.id,
    ensures
        upserted(upserted(points, first), second) == upserted(points, second),
        upserted(upserted(points, first), second).len() == upserted(points, first).len(),
        stored_under(upserted(upserted(points, first), second), first.id) == Some(second),
        forall|i: int|
            0 <= i < upserted(upserted(points, first), second).len() && (#[trigger] upserted(
                upserted(points, first),
                second,
            )[i]).id == first.id ==> upserted(upserted(points, first), second)[i] == second,
{
    let once = upserted(points, first);
    let at = position(points, first.id);
    lemma_position(points, first.id);
    lemma_upserted(points, first);
    lemma_upserted(points, second);
    lemma_upserted(once, second);
    lemma_position_of(once, at);
}

/// A vector index in memory.
pub struct MemoryIndex {
    points: Vec<IndexPoint>,
}

impl MemoryIndex {
    /// The stored points, in the order in which their identifiers were
    /// first written.
    pub closed spec fn view(self) -> Seq<IndexPointView> {
        self.points@.map_values(|p: IndexPoint| p@)
    }

    /// An empty index.
    pub fn new() -> (index: MemoryIndex)
        ensures
            index.view().len() == 0,
    {
        MemoryIndex { points: Vec::new() }
    }

    /// How many points are stored.
    pub fn len(&self) -> (count: usize)
        ensures
            count == self.view().len(),
    {
        self.points.len()
    }

    /// Where the point with the identifier `id` is stored.
    fn find(&self, id: u128) -> (at: usize)
        ensures
            at == position(self.view(), id),
            at <= self.view().len(),
    {
        let ghost all = self.view();
        let mut i: usize = 0;
        assert(all.skip(0) =~= all);
        while i < self.points.len() && self.points[i].id != id
            invariant
                i <= self.points.len(),
                all == self.view(),
                position(all, id) == i + position(all.skip(i as int), id),
            decreases self.points.len() - i,
        {
            assert(all.skip(i as int).drop_first() =~= all.skip(i + 1));
            i += 1;
        }
        i
    }

    /// The content stored under `id`, if a point is stored there.
    pub fn content_of(&self, id: u128) -> (content: Option<String>)
        ensures
            match content {
                Some(text) => stored_under(self.view(), id) is Some && stored_under(
                    self.view(),
                    id,
                )->0.content == text@,
                None => stored_under(self.view(), id) is None,
            },
    {
        let at = self.find(id);
        if at < self.points.len() {
            Some(self.points[at].content.clone())
        } else {
            None
        }
    }

    /// Writes one point: it replaces the point with its identifier, or is
    /// added if there is none.
    pub fn upsert(&mut self, point: IndexPoint)
        ensures
            final(self).view() == upserted(old(self).view(), point@),
            distinct(old(self).view()) ==> distinct(final(self).view()),
    {
        proof {
            if distinct(self.view()) {
                lemma_upserted(self.view(), point@);
            }
        }
        let at = self.find(point.id);
        let ghost before = self.view();
        let ghost model = point@;
        if at < self.points.len() {
            self.points.set(at, point);
            assert(self.points@.map_values(|p: IndexPoint| p@) =~= before.update(at as int, model));
        } else {
            self.points.push(point);
            assert(self.points@.map_values(|p: IndexPoint| p@) =~= before.push(model));
        }
    }

    /// Writes a batch of points, one after the other.
    pub fn upsert_batch(&mut self, points: Vec<IndexPoint>)
        ensures
            final(self).view() == upserted_all(
                old(self).view(),
                points@.map_values(|p: IndexPoint| p@),
            ),
            distinct(old(self).view()) ==> distinct(final(self).view()),
    {
        let ghost start = self.view();
        let ghost batch = points@.map_values(|p: IndexPoint| p@);
        let mut rest = points;
        let mut reversed: Vec<IndexPoint> = Vec::new();
        while rest.len() > 0
            invariant
                rest@.len() + reversed@.len() == batch.len(),
                forall|j: int| 0 <= j < rest@.len() ==> (#[trigger] rest@[j])@ == batch[j],
                forall|j: int|
                    0 <= j < reversed@.len() ==> (#[trigger] reversed@[j])@ == batch[batch.len() - 1
                        - j],
            decreases rest.len(),
        {
            match rest.pop() {
                Some(point) => { reversed.push(point); },
                None => {},
            }
        }
        let ghost mut done: int = 0;
        while reversed.len() > 0
            invariant
                0 <= done <= batch.len(),
                reversed@.len() == batch.len() - done,
                forall|j: int|
                    0 <= j < reversed@.len() ==> (#[trigger] reversed@[j])@ == batch[batch.len() - 1
                        - j],
                self.view() == upserted_all(start, batch.take(done)),
                distinct(start) ==> distinct(self.view()),
            decreases reversed.len(),
        {
            match reversed.pop() {
                Some(point) => {
                    proof {
                        assert(batch.take(done + 1).drop_last() =~= batch.take(done));
                    }
                    self.upsert(point);
                },
                None => {},
            }
            proof {
                done = done + 1;
            }
        }
        assert(batch.take(batch.len() as int) =~= batch);
    }

    /// Removes every point that belongs to `document_id`.
    pub fn delete_by_document(&mut self, document_id: u128)
        ensures
            final(self).view() == without_document(old(self).view(), document_id),
            distinct(old(self).view()) ==> distinct(final(self).view()),
    {
        let ghost all = self.view();
        let ghost keep = |p: IndexPointView| p.document_id != document_id;
        let mut kept: Vec<IndexPoint> = Vec::new();
        let mut rest: Vec<IndexPoint> = Vec::new();
        while self.points.len() > 0
            invariant
                self.points@.len() + rest@.len() == all.len(),
                forall|j: int| 0 <= j < self.points@.len() ==> (#[trigger] self.points@[j])@ == all[j],
                forall|j: int|
                    0 <= j < rest@.len() ==> (#[trigger] rest@[j])@ == all[all.len() - 1 - j],
            decreases self.points.len(),
        {
            match self.points.pop() {
                Some(point) => { rest.push(point); },
                None => {},
            }
        }
        let ghost mut done: int = 0;
        proof {
            reveal(Seq::filter);
        }
        while rest.len() > 0
            invariant
                0 <= done <= all.len(),
                rest@.len() == all.len() - done,
                forall|j: int|
                    0 <= j < rest@.len() ==> (#[trigger] rest@[j])@ == all[all.len() - 1 - j],
                keep == (|p: IndexPointView| p.document_id != document_id),
                kept@.map_values(|p: IndexPoint| p@) == all.take(done).filter(keep),
            decreases rest.len(),
        {
            proof {
                assert(all.take(done + 1) =~= all.take(done).push(all[done]));
                all.take(done).lemma_filter_push(all[done], keep);
            }
            match rest.pop() {
                Some(point) => {
                    if point.document_id != document_id {
                        kept.push(point);
                    }
                },
                None => {},
            }
            proof {
                done = done + 1;
            }
        }
        proof {
            assert(all.take(all.len() as int) =~= all);
            if distinct(all) {
                lemma_filter_keeps_distinct(all, document_id);
            }
        }
        self.points = kept;
    }

    /// The `limit` best of the stored points, best first, given the score
    /// of each stored point in the order in which they are stored. Of two
    /// points with the same score the one stored earlier comes first.
    /// Nothing is found if the scores are not one per stored point.
    pub fn search(&self, scores: &Vec<Score>, limit: usize) -> (results: Vec<SearchResult>)
        ensures
            scores@.len() != self.view().len() ==> results@.len() == 0,
            scores@.len() == self.view().len() ==> exists|picked: Seq<int>|
                {
                    &&& #[trigger] is_ranking(picked, scores@, limit as int)
                    &&& results@.len() == picked.len()
                    &&& forall|k: int|
                        0 <= k < picked.len() ==> (#[trigger] results@[k])@ == result_of(
                            self.view()[picked[k]],
                            scores@[picked[k]],
                        )
                },
    {
        let mut results: Vec<SearchResult> = Vec::new();
        let count = self.points.len();
        if scores.len() != count {
            return results;
        }
        let wanted = if limit < count {
            limit
        } else {
            count
        };
        let mut chosen: Vec<bool> = Vec::new();
        while chosen.len() < count
            invariant
                chosen@.len() <= count,
                forall|j: int| 0 <= j < chosen@.len() ==> !(#[trigger] chosen@[j]),
            decreases count - chosen.len(),
        {
            chosen.push(false);
        }
        let ghost mut picked: Seq<int> = Seq::empty();
        while results.len() < wanted
            invariant
                count == self.points@.len(),
                count == scores@.len(),
                chosen@.len() == count,
                wanted <= count,
                results@.len() == picked.len(),
                results@.len() <= wanted,
                forall|k: int| 0 <= k < picked.len() ==> 0 <= #[trigger] picked[k] < count,
                forall|j: int| 0 <= j < count ==> (#[trigger] chosen@[j] <==> picked.contains(j)),
                forall|k: int, l: int|
                    0 <= k < l < picked.len() ==> before(
                        scores@,
                        #[trigger] picked[k],
                        #[trigger] picked[l],
                    ),
                forall|k: int, j: int|
                    0 <= k < picked.len() && 0 <= j < count && !picked.contains(j)
                        ==> #[trigger] before(scores@, picked[k], j),
                forall|k: int|
                    0 <= k < picked.len() ==> (#[trigger] results@[k])@ == result_of(
                        self.view()[picked[k]],
                        scores@[picked[k]],
                    ),
            decreases wanted - results.len(),
        {
            let mut best: usize = count;
            let mut j: usize = 0;
            while j < count
                invariant
                    j <= count,
                    count == scores@.len(),
                    chosen@.len() == count,
                    best <= count,
                    best < count ==> !chosen@[best as int] && best < j,
                    best == count ==> forall|i: int| 0 <= i < j ==> #[trigger] chosen@[i],
                    forall|i: int|
                        0 <= i < j && !(#[trigger] chosen@[i]) && i != best ==> before(
                            scores@,
                            best as int,
                            i,
                        ),
                decreases count - j,
            {
                if !chosen[j] {
                    if best == count {
                        best = j;
                    } else if scores[j].rank() > scores[best].rank() {
                        best = j;
                    }
                }
                j += 1;
            }
            assert(best < count) by {
                lemma_some_unpicked(picked, count as int);
                let free = choose|i: int| 0 <= i < count && !picked.contains(i);
                assert(!chosen@[free]);
            }
            let point = &self.points[best];
            let ghost earlier = picked;
            results.push(
                SearchResult {
                    id: point.id,
                    score: scores[best],
                    document_id: point.document_id,
                    chunk_index: point.chunk_index,
                    content: point.content.clone(),
                },
            );
            chosen.set(best, true);
            proof {
                picked = earlier.push(best as int);
                assert forall|i: int| 0 <= i < count implies (#[trigger] chosen@[i]
                    <==> picked.contains(i)) by {
                    if i == best {
                        assert(picked[earlier.len() as int] == best);
                    } else if earlier.contains(i) {
                        let k = choose|k: int| 0 <= k < earlier.len() && earlier[k] == i;
                        assert(picked[k] == i);
                    }
                }
                assert forall|k: int, i: int|
                    0 <= k < picked.len() && 0 <= i < count && !picked.contains(i)
                    implies #[trigger] before(scores@, picked[k], i) by {
                    assert(!chosen@[i]);
                }
            }
        }
        assert(is_ranking(picked, scores@, limit as int));
        results
    }
}

/// Fewer picks than points leave a point unpicked.
proof fn lemma_some_unpicked(picked: Seq<int>, count: int)
    requires
        picked.len() < count,
        forall|k: int| 0 <= k < picked.len() ==> 0 <= #[trigger] picked[k] < count,
    ensures
        exists|j: int| 0 <= j < count && !picked.contains(j),
    decreases count,
{
    if picked.len() == 0 {
        assert(!picked.contains(0));
    } else {
        let top = count - 1;
        if picked.contains(top) {
            let at = choose|k: int| 0 <= k < picked.len() && picked[k] == top;
            let others = picked.remove(at).filter(|j: int| j != top);
            picked.remove(at).lemma_filter_len(|j: int| j != top);
            assert forall|k: int| 0 <= k < others.len() implies 0 <= #[trigger] others[k] < count
                - 1 by {
                picked.remove(at).lemma_filter_pred(|j: int| j != top, k);
                picked.remove(at).lemma_filter_contains_rev(|j: int| j != top, others[k]);
            }
            lemma_some_unpicked(others, count - 1);
            let j = choose|j: int| 0 <= j < count - 1 && !others.contains(j);
            if picked.contains(j) {
                let m = choose|m: int| 0 <= m < picked.len() && picked[m] == j;
                let n = if m < at {
                    m
                } else {
                    m - 1
                };
                picked.remove(at).lemma_filter_contains(|i: int| i != top, n);
            }
        }
    }
}

/// Removing a document's points leaves the identifiers distinct.
pub proof fn lemma_filter_keeps_distinct(points: Seq<IndexPointView>, document_id: u128)
    requires
        distinct(points),
    ensures
        distinct(without_document(points, document_id)),
    decreases points.len(),
{
    let keep = |p: IndexPointView| p.document_id != document_id;
    reveal(Seq::filter);
    if points.len() > 0 {
        let front = points.drop_last();
        lemma_filter_keeps_distinct(front, document_id);
        let kept = front.filter(keep);
        if keep(points.last()) {
            let all = kept.push(points.last());
            assert forall|i: int, j: int| 0 <= i < j < all.len() implies (#[trigger] all[i]).id != (
            #[trigger] all[j]).id by {
                if j == all.len() - 1 {
                    front.lemma_filter_contains_rev(keep, kept[i]);
                }
            }
        }
    }
}

} // verus!
