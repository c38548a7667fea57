//! What all stored rows share: an id, and a mathematical value.

use vstd::prelude::*;

verus! {

/// A stored row.
pub trait Row {
    /// The id under which storage keeps the row.
    spec fn row_id(&self) -> i32;

    /// The id under which storage keeps the row.
    fn id(&self) -> (id: i32)
        ensures
            id == self.row_id(),
    ;
}

/// Some row of `rows` has the id `id`.
pub open spec fn has_id<T: Row>(rows: Seq<T>, id: i32) -> bool {
    exists|k: int| 0 <= k < rows.len() && (#[trigger] rows[k]).row_id() == id
}

/// The place of the first row with the id `id`, or the number of rows
/// where there is none.
pub open spec fn first_with_id<T: Row>(rows: Seq<T>, id: i32) -> int
    decreases rows.len(),
{
    if rows.len() == 0 {
        0
    } else if rows[0].row_id() == id {
        0
    } else {
        1 + first_with_id(rows.drop_first(), id)
    }
}

/// `first_with_id` is the place of a row with that id before which no row
/// has it, or the number of rows where no row has it.
pub proof fn lemma_first_with_id<T: Row>(rows: Seq<T>, id: i32)
    ensures
        0 <= first_with_id(rows, id) <= rows.len(),
        forall|k: int| 0 <= k < first_with_id(rows, id) ==> (#[trigger] rows[k]).row_id() != id,
        first_with_id(rows, id) < rows.len() ==> rows[first_with_id(rows, id)].row_id() == id,
        has_id(rows, id) <==> first_with_id(rows, id) < rows.len(),
    decreases rows.len(),
{
    if rows.len() > 0 && rows[0].row_id() != id {
        let rest = rows.drop_first();
        lemma_first_with_id(rest, id);
        assert forall|k: int| 0 <= k < first_with_id(rows, id) implies (#[trigger] rows[k]).row_id()
            != id by {
            if k > 0 {
                assert(rows[k] == rest[k - 1]);
            }
        }
        if first_with_id(rest, id) < rest.len() {
            assert(rows[first_with_id(rows, id)] == rest[first_with_id(rest, id)]);
        }
        if has_id(rows, id) {
            let k = choose|k: int| 0 <= k < rows.len() && (#[trigger] rows[k]).row_id() == id;
            assert(rest[k - 1] == rows[k]);
        }
    }
}

/// Whether some element passes `wanted` does not depend on the elements
/// that do not pass it: it is the same after any of them are left out.
pub proof fn lemma_filter_keeps_witnesses<T>(
    s: Seq<T>,
    kept: spec_fn(T) -> bool,
    wanted: spec_fn(T) -> bool,
)
    requires
        forall|x: T| #[trigger] wanted(x) ==> kept(x),
    ensures
        (exists|i: int| 0 <= i < s.len() && wanted(#[trigger] s[i])) <==> (exists|j: int|
            0 <= j < s.filter(kept).len() && wanted(#[trigger] s.filter(kept)[j])),
{
    let f = s.filter(kept);
    if exists|i: int| 0 <= i < s.len() && wanted(#[trigger] s[i]) {
        let i = choose|i: int| 0 <= i < s.len() && wanted(#[trigger] s[i]);
        s.lemma_filter_contains(kept, i);
        let j = choose|j: int| 0 <= j < f.len() && f[j] == s[i];
        assert(wanted(f[j]));
    }
    if exists|j: int| 0 <= j < f.len() && wanted(#[trigger] f[j]) {
        let j = choose|j: int| 0 <= j < f.len() && wanted(#[trigger] f[j]);
        assert(f.contains(f[j]));
        s.lemma_filter_contains_rev(kept, f[j]);
        let i = choose|i: int| 0 <= i < s.len() && s[i] == f[j];
        assert(wanted(s[i]));
    }
}

/// The first element that passes `wanted` does not depend on the elements
/// that do not pass it: where `i` is its place, and `j` its place after
/// any of them are left out, the same element stands at both.
pub proof fn lemma_filter_keeps_first<T>(
    s: Seq<T>,
    kept: spec_fn(T) -> bool,
    wanted: spec_fn(T) -> bool,
    i: int,
    j: int,
)
    requires
        forall|x: T| #[trigger] wanted(x) ==> kept(x),
        0 <= i < s.len(),
        wanted(s[i]),
        forall|k: int| 0 <= k < i ==> !wanted(#[trigger] s[k]),
        0 <= j < s.filter(kept).len(),
        wanted(s.filter(kept)[j]),
        forall|k: int| 0 <= k < j ==> !wanted(#[trigger] s.filter(kept)[k]),
    ensures
        s[i] == s.filter(kept)[j],
    decreases s.len(),
{
    let f = s.filter(kept);
    let first = s[0];
    let rest = s.drop_first();
    let rf = rest.filter(kept);
    assert(s =~= seq![first] + rest);
    rest.lemma_filter_prepend(first, kept);
    if wanted(first) {
        assert(f =~= seq![first] + rf);
        assert(f[0] == first);
        assert(i == 0);
        assert(j == 0);
    } else {
        assert(i >= 1);
        assert(rest[i - 1] == s[i]);
        assert forall|k: int| 0 <= k < i - 1 implies !wanted(#[trigger] rest[k]) by {
            assert(rest[k] == s[k + 1]);
        }
        if kept(first) {
            assert(f =~= seq![first] + rf);
            assert(f[0] == first);
            assert(j >= 1);
            assert(rf[j - 1] == f[j]);
            assert forall|k: int| 0 <= k < j - 1 implies !wanted(#[trigger] rf[k]) by {
                assert(rf[k] == f[k + 1]);
            }
            lemma_filter_keeps_first(rest, kept, wanted, i - 1, j - 1);
        } else {
            assert(f =~= rf);
            lemma_filter_keeps_first(rest, kept, wanted, i - 1, j);
        }
    }
}

/// Leaving out elements and then more of them is leaving out the latter
/// at once, where those contain the former.
pub proof fn lemma_filter_twice<T>(s: Seq<T>, kept: spec_fn(T) -> bool, wanted: spec_fn(T) -> bool)
    requires
        forall|x: T| #[trigger] wanted(x) ==> kept(x),
    ensures
        s.filter(kept).filter(wanted) == s.filter(wanted),
    decreases s.len(),
{
    if s.len() == 0 {
        assert(s.filter(kept) =~= Seq::<T>::empty());
        assert(s.filter(wanted) =~= Seq::<T>::empty());
        assert(s.filter(kept).filter(wanted) =~= Seq::<T>::empty());
    } else {
        let t = s.drop_last();
        let x = s.last();
        assert(s =~= t.push(x));
        lemma_filter_twice(t, kept, wanted);
        t.lemma_filter_push(x, kept);
        t.lemma_filter_push(x, wanted);
        if kept(x) {
            t.filter(kept).lemma_filter_push(x, wanted);
        }
    }
}

/// The first row with the id `id` does not depend on the rows with other
/// ids: it is the same after any of them are left out.
pub proof fn lemma_filter_keeps_first_with_id<T: Row>(rows: Seq<T>, id: i32, kept: spec_fn(T) -> bool)
    requires
        forall|x: T| x.row_id() == id ==> #[trigger] kept(x),
    ensures
        has_id(rows.filter(kept), id) == has_id(rows, id),
        has_id(rows, id) ==> rows.filter(kept)[first_with_id(rows.filter(kept), id)]
            == rows[first_with_id(rows, id)],
    decreases rows.len(),
{
    let f = rows.filter(kept);
    lemma_filter_keeps_witnesses(rows, kept, |x: T| x.row_id() == id);
    if has_id(rows, id) {
        let first = rows[0];
        let rest = rows.drop_first();
        let rf = rest.filter(kept);
        assert(rows =~= seq![first] + rest);
        rest.lemma_filter_prepend(first, kept);
        lemma_first_with_id(rows, id);
        lemma_first_with_id(f, id);
        if first.row_id() != id {
            lemma_first_with_id(rest, id);
            lemma_filter_keeps_first_with_id(rest, id, kept);
            lemma_first_with_id(rf, id);
            assert(rows[first_with_id(rows, id)] == rest[first_with_id(rest, id)]);
            if kept(first) {
                assert(f =~= seq![first] + rf);
                assert(f.drop_first() =~= rf);
                assert(f[first_with_id(f, id)] == rf[first_with_id(rf, id)]);
            } else {
                assert(f =~= rf);
            }
        } else {
            assert(f =~= seq![first] + rf);
            assert(f[0] == first);
        }
    }
}

/// The place of the first row with the id `id`; the number of rows where
/// there is none.
pub fn position_of_id<T: Row>(rows: &Vec<T>, id: i32) -> (at: usize)
    ensures
        at == first_with_id(rows@, id),
        at <= rows.len(),
        at < rows.len() <==> has_id(rows@, id),
        at < rows.len() ==> rows@[at as int].row_id() == id,
{
    let mut i: usize = 0;
    proof {
        lemma_first_with_id(rows@, id);
    }
    while i < rows.len()
        invariant
            i <= rows.len(),
            i <= first_with_id(rows@, id) <= rows.len(),
            forall|k: int| 0 <= k < first_with_id(rows@, id) ==> (#[trigger] rows@[k]).row_id() != id,
            first_with_id(rows@, id) < rows.len() ==> rows@[first_with_id(rows@, id)].row_id() == id,
            has_id(rows@, id) <==> first_with_id(rows@, id) < rows.len(),
        decreases rows.len() - i,
    {
        if rows[i].id() == id {
            return i;
        }
        i += 1;
    }
    i
}

/// Whether some row of `rows` has the id `id`.
pub fn contains_id<T: Row>(rows: &Vec<T>, id: i32) -> (found: bool)
    ensures
        found == has_id(rows@, id),
{
    position_of_id(rows, id) < rows.len()
}

/// The views of the elements of `s`, in order.
pub open spec fn views<T: View>(s: Seq<T>) -> Seq<T::V> {
    s.map_values(|x: T| x@)
}

/// The views of a list that grew by one element are the views of the
/// list, and then the view of that element.
pub proof fn lemma_views_push<T: View>(s: Seq<T>, x: T)
    ensures
        views(s.push(x)) == views(s).push(x@),
{
    assert(views(s.push(x)) =~= views(s).push(x@));
}

} // verus!
