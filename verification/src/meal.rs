//! Meals: a meal is the collection of products eaten together. It is stored
//! as one row per product, and the rows of one meal share their `id`.

use vstd::prelude::*;
use std::collections::HashMap;
use vstd::std_specs::convert::FromSpecImpl;
use crate::model::{
    contains_id, first_with_id, has_id, lemma_filter_keeps_first, lemma_filter_keeps_witnesses,
    lemma_filter_twice, position_of_id, Row,
};
use crate::sorting::{ascending, lemma_ascending_unique, same_sequence, sorted_copy};

verus! {

/// One product of a stored meal.
#[derive(Debug, Clone, Copy, PartialEq, Eq, Structural)]
pub struct Meal {
    pub id: i32,
    pub product_id: i32,
}

impl Row for Meal {
    open spec fn row_id(&self) -> i32 {
        self.id
    }

    fn id(&self) -> (id: i32) {
        self.id
    }
}

/// One product of a meal as the service shows it.
#[derive(Debug, Clone, Copy, PartialEq, Eq, Structural)]
pub struct MealDto {
    pub id: i32,
    pub product_id: i32,
}

impl From<Meal> for MealDto {
    fn from(meal: Meal) -> (dto: MealDto) {
        MealDto { id: meal.id, product_id: meal.product_id }
    }
}

impl FromSpecImpl<Meal> for MealDto {
    open spec fn obeys_from_spec() -> bool {
        true
    }

    open spec fn from_spec(meal: Meal) -> MealDto {
        MealDto { id: meal.id, product_id: meal.product_id }
    }
}

/// One product of a meal that is to be stored.
#[derive(Debug, Clone, Copy, PartialEq, Eq, Structural)]
pub struct CreateMealDto {
    pub product_id: i32,
}

/// The products of meal `id` in `rows`, in the order of the rows.
pub open spec fn meal_products(rows: Seq<Meal>, id: i32) -> Seq<i32> {
    rows.filter(|m: Meal| m.id == id).map_values(|m: Meal| m.product_id)
}

/// Meal `id` holds exactly the products `wanted`, each as often as `wanted`
/// names it, in whatever order.
pub open spec fn meal_matches(rows: Seq<Meal>, id: i32, wanted: Seq<i32>) -> bool {
    meal_products(rows, id).to_multiset() == wanted.to_multiset()
}

/// The row at `k` belongs to a meal that matches `wanted`.
pub open spec fn row_matches(rows: Seq<Meal>, k: int, wanted: Seq<i32>) -> bool {
    0 <= k < rows.len() && meal_matches(rows, rows[k].id, wanted)
}

/// Some meal of `rows` matches `wanted`.
pub open spec fn exact_meal_exists(rows: Seq<Meal>, wanted: Seq<i32>) -> bool {
    exists|k: int| row_matches(rows, k, wanted)
}

/// `groups` holds for each meal of `rows`, under its id, the products of
/// the meal, and nothing else.
pub open spec fn grouped(rows: Seq<Meal>, groups: Map<i32, Vec<i32>>) -> bool {
    forall|id: i32|
        #![trigger groups.contains_key(id)]
        #![trigger meal_products(rows, id)]
        (groups.contains_key(id) <==> has_id(rows, id)) && (groups.contains_key(id) ==> groups[id]@
            == meal_products(rows, id))
}

/// A meal without rows has no products.
pub proof fn lemma_meal_without_rows(rows: Seq<Meal>, id: i32)
    requires
        !has_id(rows, id),
    ensures
        meal_products(rows, id) == Seq::<i32>::empty(),
{
    let own = |m: Meal| m.id == id;
    assert forall|i: int| 0 <= i < rows.len() implies !own(#[trigger] rows[i]) by {
        assert(rows[i].row_id() != id);
    }
    rows.lemma_all_neg_filter_empty(own);
    assert(meal_products(rows, id) =~= Seq::<i32>::empty());
}

/// A new row adds its product to the products of its meal, and leaves
/// the other meals as they are.
pub proof fn lemma_meal_products_push(rows: Seq<Meal>, row: Meal, id: i32)
    ensures
        meal_products(rows.push(row), id) == if row.id == id {
            meal_products(rows, id).push(row.product_id)
        } else {
            meal_products(rows, id)
        },
{
    let own = |m: Meal| m.id == id;
    rows.lemma_filter_push(row, own);
    assert(rows.filter(own).push(row).map_values(|m: Meal| m.product_id) =~= rows.filter(
        own,
    ).map_values(|m: Meal| m.product_id).push(row.product_id));
}

/// The place of the first row from `from` on whose meal matches `wanted`;
/// the number of rows where there is none.
pub open spec fn first_match(rows: Seq<Meal>, wanted: Seq<i32>, from: int) -> int
    decreases rows.len() - from,
{
    if from < 0 || from >= rows.len() {
        rows.len() as int
    } else if row_matches(rows, from, wanted) {
        from
    } else {
        first_match(rows, wanted, from + 1)
    }
}

/// The meal of the first row whose meal matches `wanted`, where there is
/// one.
pub open spec fn matching_meal(rows: Seq<Meal>, wanted: Seq<i32>) -> Option<i32> {
    if exact_meal_exists(rows, wanted) {
        Some(rows[first_match(rows, wanted, 0)].id)
    } else {
        None
    }
}

/// `first_match` is the place of a matching row before which, from `from`
/// on, no row matches; or the number of rows where none matches.
pub proof fn lemma_first_match(rows: Seq<Meal>, wanted: Seq<i32>, from: int)
    requires
        0 <= from <= rows.len(),
    ensures
        from <= first_match(rows, wanted, from) <= rows.len(),
        forall|k: int| from <= k < first_match(rows, wanted, from) ==> !row_matches(rows, k, wanted),
        first_match(rows, wanted, from) < rows.len() ==> row_matches(
            rows,
            first_match(rows, wanted, from),
            wanted,
        ),
    decreases rows.len() - from,
{
    if from < rows.len() && !row_matches(rows, from, wanted) {
        lemma_first_match(rows, wanted, from + 1);
    }
}

/// `id` is 1 where no row has a positive id, else one above the highest
/// id of the rows; so no row has it.
pub open spec fn is_fresh_id(rows: Seq<Meal>, id: i32) -> bool {
    &&& id >= 1
    &&& forall|k: int| 0 <= k < rows.len() ==> (#[trigger] rows[k]).id < id
    &&& id == 1 || exists|k: int| 0 <= k < rows.len() && (#[trigger] rows[k]).id == id - 1
}

/// No row has a fresh id.
pub proof fn lemma_fresh_id_is_unused(rows: Seq<Meal>, id: i32)
    requires
        is_fresh_id(rows, id),
    ensures
        !has_id(rows, id),
{
}

/// The rows of a meal `id` with the products `product_ids`: one row for
/// each product, in their order.
pub open spec fn meal_rows(id: i32, product_ids: Seq<i32>) -> Seq<Meal> {
    product_ids.map_values(|p: i32| Meal { id, product_id: p })
}

/// The rows with the product `product_id`, in the order of the rows.
pub open spec fn rows_with_product(rows: Seq<Meal>, product_id: i32) -> Seq<Meal> {
    rows.filter(|m: Meal| m.product_id == product_id)
}

/// Whether a meal matches depends on which products are wanted and how
/// often, not on the order in which they are named.
pub proof fn lemma_match_ignores_order(rows: Seq<Meal>, wanted: Seq<i32>, reordered: Seq<i32>)
    requires
        wanted.to_multiset() == reordered.to_multiset(),
    ensures
        exact_meal_exists(rows, wanted) == exact_meal_exists(rows, reordered),
{
    if exact_meal_exists(rows, wanted) {
        let k = choose|k: int| row_matches(rows, k, wanted);
        assert(row_matches(rows, k, reordered));
    }
    if exact_meal_exists(rows, reordered) {
        let k = choose|k: int| row_matches(rows, k, reordered);
        assert(row_matches(rows, k, wanted));
    }
}

/// A meal that holds more products than are wanted, or fewer, does not
/// match.
pub proof fn lemma_match_needs_same_count(rows: Seq<Meal>, id: i32, wanted: Seq<i32>)
    requires
        meal_products(rows, id).len() != wanted.len(),
    ensures
        !meal_matches(rows, id, wanted),
{
    vstd::seq_lib::to_multiset_len(meal_products(rows, id));
    vstd::seq_lib::to_multiset_len(wanted);
}

/// Once the rows of a new meal are stored under an id that no stored row
/// has, the meal is found for its products, in whatever order they are
/// asked for; and the same goes for every meal that was found before.
pub proof fn lemma_stored_meal_is_found(rows: Seq<Meal>, id: i32, product_ids: Seq<i32>)
    requires
        !has_id(rows, id),
        product_ids.len() > 0,
    ensures
        meal_matches(rows + meal_rows(id, product_ids), id, product_ids),
        exact_meal_exists(rows + meal_rows(id, product_ids), product_ids),
        forall|other: i32|
            other != id ==> meal_products(rows + meal_rows(id, product_ids), other)
                == #[trigger] meal_products(rows, other),
{
    let added = meal_rows(id, product_ids);
    let all = rows + added;
    let own = |m: Meal| m.id == id;
    Seq::filter_distributes_over_add(rows, added, own);
    assert(rows.filter(own) =~= Seq::<Meal>::empty()) by {
        rows.lemma_all_neg_filter_empty(own);
    }
    assert(added.filter(own) =~= added) by {
        lemma_filter_keeps_all(added, own);
    }
    assert(meal_products(all, id) =~= product_ids);
    assert(all[rows.len() as int] == added[0]);
    assert(row_matches(all, rows.len() as int, product_ids));
    assert forall|other: i32| other != id implies meal_products(all, other) == #[trigger] meal_products(
        rows,
        other,
    ) by {
        let theirs = |m: Meal| m.id == other;
        Seq::filter_distributes_over_add(rows, added, theirs);
        added.lemma_all_neg_filter_empty(theirs);
        assert(rows.filter(theirs) + added.filter(theirs) =~= rows.filter(theirs));
    }
}

/// Some row of meal `id` is for one of the products `wanted`.
pub open spec fn holds_wanted(rows: Seq<Meal>, id: i32, wanted: Seq<i32>) -> bool {
    exists|k: int|
        0 <= k < rows.len() && (#[trigger] rows[k]).id == id && wanted.contains(rows[k].product_id)
}

/// A meal with a row for a product that is not wanted does not match.
proof fn lemma_unwanted_product_spoils(rows: Seq<Meal>, k: int, wanted: Seq<i32>)
    requires
        0 <= k < rows.len(),
        !wanted.contains(rows[k].product_id),
    ensures
        !meal_matches(rows, rows[k].id, wanted),
{
    broadcast use vstd::seq_lib::to_multiset_contains;

    let id = rows[k].id;
    let own = |m: Meal| m.id == id;
    rows.lemma_filter_contains(own, k);
    let j = choose|j: int| 0 <= j < rows.filter(own).len() && rows.filter(own)[j] == rows[k];
    assert(meal_products(rows, id)[j] == rows[k].product_id);
    assert(meal_products(rows, id).contains(rows[k].product_id));
    assert(meal_products(rows, id).to_multiset().count(rows[k].product_id) > 0);
    assert(wanted.to_multiset().count(rows[k].product_id) == 0);
}

/// After rows are left out, but none of a meal that holds a wanted
/// product, the meal of each row that is left matches exactly if it did
/// before.
proof fn lemma_match_after_filter(
    rows: Seq<Meal>,
    wanted: Seq<i32>,
    kept: spec_fn(Meal) -> bool,
    row: Meal,
)
    requires
        forall|m: Meal| holds_wanted(rows, m.id, wanted) ==> #[trigger] kept(m),
        rows.contains(row),
        kept(row),
    ensures
        rows.filter(kept).contains(row),
        meal_matches(rows.filter(kept), row.id, wanted) == meal_matches(rows, row.id, wanted),
{
    let f = rows.filter(kept);
    let id = row.id;
    let own = |m: Meal| m.id == id;
    let i = choose|i: int| 0 <= i < rows.len() && rows[i] == row;
    rows.lemma_filter_contains(kept, i);
    let j = choose|j: int| 0 <= j < f.len() && f[j] == row;
    if holds_wanted(rows, id, wanted) {
        assert forall|m: Meal| #[trigger] own(m) implies kept(m) by {
            assert(holds_wanted(rows, m.id, wanted));
        }
        lemma_filter_twice(rows, kept, own);
        assert(meal_products(f, id) == meal_products(rows, id));
    } else {
        assert(!wanted.contains(rows[i].product_id));
        lemma_unwanted_product_spoils(rows, i, wanted);
        lemma_unwanted_product_spoils(f, j, wanted);
    }
}

/// A row of a meal that matches is for a wanted product.
proof fn lemma_matching_row_is_wanted(rows: Seq<Meal>, k: int, wanted: Seq<i32>)
    requires
        row_matches(rows, k, wanted),
    ensures
        wanted.contains(rows[k].product_id),
        holds_wanted(rows, rows[k].id, wanted),
{
    if !wanted.contains(rows[k].product_id) {
        lemma_unwanted_product_spoils(rows, k, wanted);
    }
}

/// Finding the meal for the products `wanted` looks only at the meals
/// that hold one of them: the answer is the same after rows are left out,
/// as long as every meal that holds a wanted product keeps all its rows.
pub proof fn lemma_match_reads(rows: Seq<Meal>, wanted: Seq<i32>, kept: spec_fn(Meal) -> bool)
    requires
        forall|m: Meal| holds_wanted(rows, m.id, wanted) ==> #[trigger] kept(m),
    ensures
        exact_meal_exists(rows.filter(kept), wanted) == exact_meal_exists(rows, wanted),
        matching_meal(rows.filter(kept), wanted) == matching_meal(rows, wanted),
{
    let f = rows.filter(kept);
    let good = |m: Meal| rows.contains(m) && meal_matches(rows, m.id, wanted);
    assert forall|m: Meal| #[trigger] good(m) implies kept(m) by {
        let k = choose|k: int| 0 <= k < rows.len() && rows[k] == m;
        lemma_matching_row_is_wanted(rows, k, wanted);
    }
    assert forall|k: int| 0 <= k < rows.len() implies (row_matches(rows, k, wanted) <==> good(
        #[trigger] rows[k],
    )) by {
        assert(rows.contains(rows[k]));
    }
    assert forall|j: int| 0 <= j < f.len() implies (row_matches(f, j, wanted) <==> good(
        #[trigger] f[j],
    )) by {
        assert(f.contains(f[j]));
        rows.lemma_filter_contains_rev(kept, f[j]);
        rows.lemma_filter_pred(kept, j);
        lemma_match_after_filter(rows, wanted, kept, f[j]);
    }
    lemma_filter_keeps_witnesses(rows, kept, good);
    if exact_meal_exists(rows, wanted) {
        let k = choose|k: int| row_matches(rows, k, wanted);
        assert(good(rows[k]));
        let j = choose|j: int| 0 <= j < f.len() && good(#[trigger] f[j]);
        assert(row_matches(f, j, wanted));
    }
    if exact_meal_exists(f, wanted) {
        let j = choose|j: int| row_matches(f, j, wanted);
        assert(good(f[j]));
        let k = choose|k: int| 0 <= k < rows.len() && good(#[trigger] rows[k]);
        assert(row_matches(rows, k, wanted));
    }
    if exact_meal_exists(rows, wanted) {
        lemma_first_match(rows, wanted, 0);
        lemma_first_match(f, wanted, 0);
        let i = first_match(rows, wanted, 0);
        let j = first_match(f, wanted, 0);
        let k = choose|k: int| row_matches(rows, k, wanted);
        let l = choose|l: int| row_matches(f, l, wanted);
        assert(i < rows.len());
        assert(j < f.len());
        lemma_filter_keeps_first(rows, kept, good, i, j);
    }
}

/// A filter that every element passes keeps the sequence as it is.
proof fn lemma_filter_keeps_all(s: Seq<Meal>, pred: spec_fn(Meal) -> bool)
    requires
        forall|i: int| 0 <= i < s.len() ==> pred(#[trigger] s[i]),
    ensures
        s.filter(pred) == s,
    decreases s.len(),
{
    reveal(Seq::filter);
    if s.len() > 0 {
        lemma_filter_keeps_all(s.drop_last(), pred);
        assert(s.drop_last().push(s.last()) =~= s);
    }
}

pub struct MealService;

impl MealService {
    /// Whether a meal row with the id `id` is stored.
    pub fn exists_by_id(meals: &Vec<Meal>, id: i32) -> (found: bool)
        ensures
            found == has_id(meals@, id),
    {
        contains_id(meals, id)
    }

    /// All meal rows, as they are stored.
    pub fn get_all_meals(meals: &Vec<Meal>) -> (all: Vec<Meal>)
        ensures
            all@ == meals@,
    {
        meals.clone()
    }

    /// The first meal row with the id `id`.
    pub fn get_meal_by_id(meals: &Vec<Meal>, id: i32) -> (found: Option<Meal>)
        ensures
            found is Some <==> has_id(meals@, id),
            found is Some ==> found->0 == meals@[first_with_id(meals@, id)],
    {
        let at = position_of_id(meals, id);
        if at < meals.len() {
            Some(meals[at])
        } else {
            None
        }
    }

    /// The meal rows with the product `product_id`, in their order.
    pub fn get_meals_by_product_id(meals: &Vec<Meal>, product_id: i32) -> (out: Vec<Meal>)
        ensures
            out@ == rows_with_product(meals@, product_id),
    {
        let mut out: Vec<Meal> = Vec::new();
        let mut i: usize = 0;
        assert(meals@.take(0) =~= Seq::<Meal>::empty());
        while i < meals.len()
            invariant
                i <= meals.len(),
                out@ == rows_with_product(meals@.take(i as int), product_id),
            decreases meals.len() - i,
        {
            proof {
                let prefix = meals@.take(i as int);
                assert(meals@.take(i + 1) =~= prefix.push(meals@[i as int]));
                prefix.lemma_filter_push(meals@[i as int], |m: Meal| m.product_id == product_id);
            }
            if meals[i].product_id == product_id {
                out.push(meals[i]);
            }
            i += 1;
        }
        assert(meals@.take(meals.len() as int) =~= meals@);
        out
    }

    /// The row to store for a meal of the one product `product_id`.
    pub fn create_meal(product_id: i32) -> (draft: CreateMealDto)
        ensures
            draft.product_id == product_id,
    {
        CreateMealDto { product_id }
    }

    /// The rows to store for the meal `id` with the products
    /// `product_ids`: one row for each product, all under the meal's id.
    pub fn create_meal_with_products(id: i32, product_ids: &Vec<i32>) -> (rows: Vec<Meal>)
        ensures
            rows@ == meal_rows(id, product_ids@),
    {
        let mut rows: Vec<Meal> = Vec::new();
        let mut i: usize = 0;
        while i < product_ids.len()
            invariant
                i <= product_ids.len(),
                rows@ == meal_rows(id, product_ids@.take(i as int)),
            decreases product_ids.len() - i,
        {
            rows.push(Meal { id, product_id: product_ids[i] });
            proof {
                assert(product_ids@.take(i + 1) =~= product_ids@.take(i as int).push(
                    product_ids@[i as int],
                ));
                assert(meal_rows(id, product_ids@.take(i + 1)) =~= meal_rows(
                    id,
                    product_ids@.take(i as int),
                ).push(Meal { id, product_id: product_ids@[i as int] }));
            }
            i += 1;
        }
        assert(product_ids@.take(product_ids.len() as int) =~= product_ids@);
        rows
    }

    /// An id for a new meal: one above the highest id of `meals`, and 1
    /// where there are none; `None` where the highest id is the last one
    /// that there is. Looks at the row with the highest id.
    pub fn fresh_id(meals: &Vec<Meal>) -> (fresh: Option<i32>)
        ensures
            fresh is None <==> has_id(meals@, i32::MAX),
            fresh is Some ==> is_fresh_id(meals@, fresh->0),
    {
        let mut highest: i32 = 0;
        let mut i: usize = 0;
        while i < meals.len()
            invariant
                i <= meals.len(),
                highest >= 0,
                forall|k: int| 0 <= k < i ==> (#[trigger] meals@[k]).id <= highest,
                highest == 0 || exists|k: int| 0 <= k < i && (#[trigger] meals@[k]).id == highest,
            decreases meals.len() - i,
        {
            if meals[i].id > highest {
                highest = meals[i].id;
            }
            i += 1;
        }
        if highest == i32::MAX {
            None
        } else {
            Some(highest + 1)
        }
    }

    /// Whether a removal that took `rows_affected` rows away removed the
    /// meal: whether it took any.
    pub fn delete_meal(rows_affected: u64) -> (removed: bool)
        ensures
            removed == (rows_affected > 0),
    {
        rows_affected > 0
    }

    /// Decides on giving the first meal row with the id `id` another
    /// product: `None` where no row has the id, else the row to store in
    /// place of the old one, which is the old one where `product_id` is
    /// `None`.
    pub fn update_meal(meals: &Vec<Meal>, id: i32, product_id: Option<i32>) -> (updated: Option<
        Meal,
    >)
        ensures
            updated is Some <==> has_id(meals@, id),
            updated is Some ==> updated->0 == (Meal {
                id,
                product_id: product_id.unwrap_or(meals@[first_with_id(meals@, id)].product_id),
            }),
    {
        let at = position_of_id(meals, id);
        if at >= meals.len() {
            return None;
        }
        Some(Meal { id, product_id: product_id.unwrap_or(meals[at].product_id) })
    }

    /// The products of each meal, in the order of the rows, under the
    /// meal's id.
    pub fn products_by_meal(meals: &Vec<Meal>) -> (groups: HashMap<i32, Vec<i32>>)
        ensures
            grouped(meals@, groups@),
    {
        broadcast use vstd::std_specs::hash::group_hash_axioms;

        let mut groups: HashMap<i32, Vec<i32>> = HashMap::new();
        let mut i: usize = 0;
        proof {
            assert(meals@.take(0) =~= Seq::<Meal>::empty());
            assert forall|id: i32| !has_id(meals@.take(0), id) by {}
        }
        while i < meals.len()
            invariant
                i <= meals.len(),
                grouped(meals@.take(i as int), groups@),
            decreases meals.len() - i,
        {
            let id = meals[i].id;
            let product_id = meals[i].product_id;
            let ghost prefix = meals@.take(i as int);
            let ghost next = meals@.take(i + 1);
            let ghost before = groups@;
            let mut products = match groups.remove(&id) {
                Some(products) => products,
                None => Vec::new(),
            };
            proof {
                assert(next =~= prefix.push(meals@[i as int]));
                if !before.contains_key(id) {
                    lemma_meal_without_rows(prefix, id);
                }
                assert(products@ == meal_products(prefix, id));
                lemma_meal_products_push(prefix, meals@[i as int], id);
            }
            products.push(product_id);
            groups.insert(id, products);
            proof {
                assert(next[i as int].id == id);
                assert forall|other: i32|
                    #![trigger groups@.contains_key(other)]
                    #![trigger meal_products(next, other)]
                    (groups@.contains_key(other) <==> has_id(next, other)) && (groups@.contains_key(
                        other,
                    ) ==> groups@[other]@ == meal_products(next, other)) by {
                    if other != id {
                        lemma_meal_products_push(prefix, meals@[i as int], other);
                        assert(groups@.contains_key(other) == before.contains_key(other));
                        if has_id(prefix, other) {
                            let k = choose|k: int|
                                0 <= k < prefix.len() && (#[trigger] prefix[k]).id == other;
                            assert(next[k].id == other);
                        }
                        if has_id(next, other) {
                            let k = choose|k: int|
                                0 <= k < next.len() && (#[trigger] next[k]).id == other;
                            assert(prefix[k].id == other);
                        }
                    }
                }
            }
            i += 1;
        }
        assert(meals@.take(meals.len() as int) =~= meals@);
        groups
    }

    /// The meal of the first row whose meal holds exactly the products
    /// `product_ids`, each as often as they are named and in whatever
    /// order; `None` where no meal does. Looks at all rows of every meal
    /// that holds one of the products.
    pub fn find_with_exact_product_ids(meals: &Vec<Meal>, product_ids: &Vec<i32>) -> (found:
        Option<i32>)
        ensures
            found == matching_meal(meals@, product_ids@),
    {
        broadcast use vstd::std_specs::hash::group_hash_axioms;

        let wanted = sorted_copy(product_ids);
        let groups = Self::products_by_meal(meals);
        let mut k: usize = 0;
        while k < meals.len()
            invariant
                k <= meals.len(),
                ascending(wanted@),
                wanted@.to_multiset() == product_ids@.to_multiset(),
                grouped(meals@, groups@),
                forall|j: int| 0 <= j < k ==> !row_matches(meals@, j, product_ids@),
            decreases meals.len() - k,
        {
            let id = meals[k].id;
            assert(has_id(meals@, id));
            assert(groups@.contains_key(id));
            if let Some(products) = groups.get(&id) {
                assert(products@ == meal_products(meals@, id));
                let stored = sorted_copy(products);
                if same_sequence(&stored, &wanted) {
                    proof {
                        assert(row_matches(meals@, k as int, product_ids@));
                        lemma_first_match(meals@, product_ids@, 0);
                    }
                    return Some(id);
                }
                proof {
                    if meal_matches(meals@, id, product_ids@) {
                        lemma_ascending_unique(stored@, wanted@);
                    }
                }
            }
            k += 1;
        }
        None
    }

    /// Whether some meal holds exactly the products `product_ids`, each as
    /// often as they are named and in whatever order.
    pub fn exists_with_exact_product_ids(meals: &Vec<Meal>, product_ids: &Vec<i32>) -> (found:
        bool)
        ensures
            found == exact_meal_exists(meals@, product_ids@),
    {
        Self::find_with_exact_product_ids(meals, product_ids).is_some()
    }
}

} // verus!
