//! Ordering guarantees of the list operation's pages.
//!
//! The remote service returns list results ordered ascending by user id and
//! never reorders them locally; pages are fetched with the `from`/`limit`
//! cursor. This module states and proves what that buys a caller: pages
//! that are each ascending and fetched with the cursor used correctly (each
//! page begins past the last id of the page before it) concatenate into one
//! ascending sequence with no duplicate ids across pages.
//!
//! An id is modelled as the byte string of its wire form, ordered
//! lexicographically.

use vstd::prelude::*;

verus! {

/// Strict lexicographic order on ids (byte strings): a proper prefix comes
/// first, otherwise the first differing byte decides.
pub open spec fn id_lt(a: Seq<u8>, b: Seq<u8>) -> bool
    decreases a.len(),
{
    if b.len() == 0 {
        false
    } else if a.len() == 0 {
        true
    } else if a.first() < b.first() {
        true
    } else if a.first() > b.first() {
        false
    } else {
        id_lt(a.drop_first(), b.drop_first())
    }
}

/// A sequence of ids is strictly ascending: each id is below its successor.
pub open spec fn ascending(ids: Seq<Seq<u8>>) -> bool {
    forall|i: int| 0 <= i < ids.len() - 1 ==> id_lt(ids[i], #[trigger] ids[i + 1])
}

/// The order is irreflexive: no id is below itself.
pub proof fn lemma_id_lt_irreflexive(a: Seq<u8>)
    ensures
        !id_lt(a, a),
    decreases a.len(),
{
    if a.len() > 0 {
        lemma_id_lt_irreflexive(a.drop_first());
    }
}

/// The order is transitive.
pub proof fn lemma_id_lt_transitive(a: Seq<u8>, b: Seq<u8>, c: Seq<u8>)
    requires
        id_lt(a, b),
        id_lt(b, c),
    ensures
        id_lt(a, c),
    decreases a.len(),
{
    if a.len() > 0 && b.len() > 0 && c.len() > 0 && a.first() == b.first() && b.first()
        == c.first() {
        lemma_id_lt_transitive(a.drop_first(), b.drop_first(), c.drop_first());
    }
}

/// In an ascending sequence every earlier id is below every later one, not
/// only its neighbour.
pub proof fn lemma_ascending_pairwise(ids: Seq<Seq<u8>>, i: int, j: int)
    requires
        ascending(ids),
        0 <= i < j < ids.len(),
    ensures
        id_lt(ids[i], ids[j]),
    decreases j - i,
{
    if j == i + 1 {
    } else {
        lemma_ascending_pairwise(ids, i, j - 1);
        assert(id_lt(ids[j - 1], ids[j - 1 + 1]));
        lemma_id_lt_transitive(ids[i], ids[j - 1], ids[j]);
    }
}

/// An ascending sequence holds no duplicate ids.
pub proof fn lemma_ascending_distinct(ids: Seq<Seq<u8>>)
    requires
        ascending(ids),
    ensures
        forall|i: int, j: int| 0 <= i < j < ids.len() ==> ids[i] != ids[j],
{
    assert forall|i: int, j: int| 0 <= i < j < ids.len() implies ids[i] != ids[j] by {
        lemma_ascending_pairwise(ids, i, j);
        lemma_id_lt_irreflexive(ids[i]);
    }
}

/// Two pages fetched with the cursor used correctly concatenate into one
/// ascending sequence: each page is ascending, and the second begins past
/// the last id of the first.
pub proof fn lemma_pages_concat(page1: Seq<Seq<u8>>, page2: Seq<Seq<u8>>)
    requires
        ascending(page1),
        ascending(page2),
        page1.len() > 0 && page2.len() > 0 ==> id_lt(page1.last(), page2.first()),
    ensures
        ascending(page1 + page2),
{
    let all = page1 + page2;
    assert forall|i: int| 0 <= i < all.len() - 1 implies id_lt(all[i], #[trigger] all[i + 1]) by {
        if i + 1 < page1.len() {
            assert(all[i] == page1[i] && all[i + 1] == page1[i + 1]);
        } else if i + 1 == page1.len() {
            assert(all[i] == page1.last() && all[i + 1] == page2.first());
        } else {
            let k = i - page1.len();
            assert(all[i] == page2[k] && all[i + 1] == page2[k + 1]);
        }
    }
}

/// The pages of one full walk of the cursor, concatenated in fetch order.
pub open spec fn concat_pages(pages: Seq<Seq<Seq<u8>>>) -> Seq<Seq<u8>>
    decreases pages.len(),
{
    if pages.len() == 0 {
        seq![]
    } else {
        concat_pages(pages.drop_last()) + pages.last()
    }
}

/// Every page fetched with the cursor used correctly is ascending, and each
/// non-empty page begins past the last id of the non-empty page before it.
/// Adjacency is enough here because empty pages contribute nothing.
pub open spec fn pages_well_fetched(pages: Seq<Seq<Seq<u8>>>) -> bool {
    &&& forall|k: int| 0 <= k < pages.len() ==> ascending(#[trigger] pages[k])
    &&& forall|k: int|
        0 < k < pages.len() && pages[k - 1].len() > 0 && pages[k].len() > 0 ==> id_lt(
            pages[k - 1].last(),
            (#[trigger] pages[k]).first(),
        )
}

/// Any number of pages fetched with the cursor used correctly concatenate
/// into one ascending-by-id sequence — and so, with
/// [`lemma_ascending_distinct`], carry no duplicate ids across pages.
/// Empty pages are allowed only at the end of the walk (a shorter page
/// means the listing is exhausted).
pub proof fn lemma_cursor_walk_ascending(pages: Seq<Seq<Seq<u8>>>)
    requires
        pages_well_fetched(pages),
        forall|k: int|
            0 <= k < pages.len() - 1 && (#[trigger] pages[k]).len() == 0 ==> pages[k + 1].len()
                == 0,
    ensures
        ascending(concat_pages(pages)),
        concat_pages(pages).len() > 0 && pages.len() > 0 && pages.last().len() > 0 ==> concat_pages(
            pages,
        ).last() == pages.last().last(),
    decreases pages.len(),
{
    if pages.len() > 0 {
        let front = pages.drop_last();
        let last = pages.last();
        assert(pages_well_fetched(front)) by {
            assert(forall|k: int| 0 <= k < front.len() ==> front[k] == pages[k]);
        }
        lemma_cursor_walk_ascending(front);
        if last.len() == 0 {
            assert(concat_pages(pages) =~= concat_pages(front));
        } else {
            if front.len() > 0 && front.last().len() == 0 {
                // an empty page is followed only by empty pages, so the last
                // page would be empty too
                assert(pages[front.len() as int - 1].len() == 0);
                assert(pages[front.len() as int].len() == 0);
                assert(false);
            }
            if concat_pages(front).len() > 0 {
                assert(front.len() > 0);
                if front.last().len() == 0 {
                    assert(false);
                }
                assert(id_lt(concat_pages(front).last(), last.first()));
            }
            lemma_pages_concat(concat_pages(front), last);
        }
    }
}

/// Decides the lexicographic order of two ids, exactly as [`id_lt`] states
/// it.
pub fn id_less(a: &Vec<u8>, b: &Vec<u8>) -> (r: bool)
    ensures
        r == id_lt(a@, b@),
{
    let mut i: usize = 0;
    proof {
        assert(a@.skip(0) == a@);
        assert(b@.skip(0) == b@);
    }
    loop
        invariant
            i <= a.len() && i <= b.len(),
            id_lt(a@, b@) == id_lt(a@.skip(i as int), b@.skip(i as int)),
            forall|k: int| 0 <= k < i ==> a@[k] == b@[k],
        decreases a.len() - i,
    {
        if i == b.len() {
            return false;
        }
        if i == a.len() {
            return true;
        }
        let x = a[i];
        let y = b[i];
        if x < y {
            return true;
        }
        if x > y {
            return false;
        }
        proof {
            assert(a@.skip(i as int).drop_first() =~= a@.skip(i + 1));
            assert(b@.skip(i as int).drop_first() =~= b@.skip(i + 1));
        }
        i = i + 1;
    }
}

/// Decides whether a sequence of ids is strictly ascending, exactly as
/// [`ascending`] states it.
pub fn ids_ascending(ids: &Vec<Vec<u8>>) -> (r: bool)
    ensures
        r == ascending(ids.deep_view()),
{
    let n = ids.len();
    if n == 0 {
        return true;
    }
    let mut i: usize = 0;
    while i < n - 1
        invariant
            n == ids.len() && n >= 1,
            i <= n - 1,
            forall|k: int| 0 <= k < i ==> id_lt(#[trigger] ids.deep_view()[k], ids.deep_view()[k + 1]),
        decreases ids.len() - i,
    {
        if !id_less(&ids[i], &ids[i + 1]) {
            assert(!ascending(ids.deep_view())) by {
                assert(ids.deep_view()[i as int] == ids[i as int]@);
                assert(ids.deep_view()[i + 1] == ids[i + 1]@);
            }
            return false;
        }
        proof {
            assert(ids.deep_view()[i as int] == ids[i as int]@);
            assert(ids.deep_view()[i + 1] == ids[i + 1]@);
        }
        i = i + 1;
    }
    true
}

} // verus!
