//! Invoices: the record, the steps that lead to a new one, and the digest
//! of a group's last seven days.

use vstd::prelude::*;
use crate::calendar::{weekday_of, Timestamp};
use crate::error::{outcome, ServiceError, ServiceErrorView};
use crate::group::{group_missing_text, Group};
use crate::meal::{
    exact_meal_exists, first_match, holds_wanted, lemma_first_match, lemma_match_reads,
    lemma_stored_meal_is_found, matching_meal, meal_products, meal_rows, row_matches, Meal,
    MealService,
};
use crate::model::{
    contains_id, first_with_id, has_id, lemma_filter_keeps_first_with_id, lemma_views_push,
    position_of_id, views, Row,
};
use crate::supplier::Supplier;

verus! {

/// A stored invoice.
#[derive(Debug, Clone, Copy, PartialEq, Eq, Structural)]
pub struct Model {
    pub id: i32,
    pub price: i64,
    pub is_deleted: bool,
    pub deleted_by: i32,
    pub created_date: Timestamp,
    pub last_modification_date: Timestamp,
    pub meal_id: i32,
    pub group_id: i32,
    pub supplier_id: i32,
}

impl Row for Model {
    open spec fn row_id(&self) -> i32 {
        self.id
    }

    fn id(&self) -> (id: i32) {
        self.id
    }
}

/// An invoice that is to be stored: storage gives it its id.
#[derive(Debug, Clone, Copy, PartialEq, Eq, Structural)]
pub struct CreateInvoiceDto {
    pub price: i64,
    pub is_deleted: bool,
    pub deleted_by: i32,
    pub created_date: Timestamp,
    pub last_modification_date: Timestamp,
    pub meal_id: i32,
    pub group_id: i32,
    pub supplier_id: i32,
}

/// What a new invoice asks storage to write: the rows of its meal, where
/// the meal is new, and then the invoice.
#[derive(Debug, Clone, PartialEq, Eq)]
pub struct InvoiceWrites {
    pub meals: Vec<Meal>,
    pub invoice: CreateInvoiceDto,
}

/// The mathematical value of `InvoiceWrites`.
pub struct InvoiceWritesView {
    pub meals: Seq<Meal>,
    pub invoice: CreateInvoiceDto,
}

impl View for InvoiceWrites {
    type V = InvoiceWritesView;

    open spec fn view(&self) -> InvoiceWritesView {
        InvoiceWritesView { meals: self.meals@, invoice: self.invoice }
    }
}

/// The text of the error that a supplier that is not stored gives.
pub open spec fn supplier_missing_text() -> Seq<char> {
    "supplier does not exist"@
}

/// The text of the error that a meal without a name gives.
pub open spec fn meal_missing_text() -> Seq<char> {
    "meal does not exist"@
}

/// The invoice to store for the given price, group, supplier and meal at
/// the time `now`: not deleted, deleted by nobody, created and last
/// changed at `now`.
pub open spec fn new_invoice(
    price: i64,
    group_id: i32,
    supplier_id: i32,
    meal_id: i32,
    now: Timestamp,
) -> CreateInvoiceDto {
    CreateInvoiceDto {
        price,
        is_deleted: false,
        deleted_by: 0,
        created_date: now,
        last_modification_date: now,
        meal_id,
        group_id,
        supplier_id,
    }
}

/// What a new invoice comes to, with `groups`, `suppliers` and `meals`
/// stored. The group must be stored, then the supplier. Then the invoice
/// is for the first stored meal that holds exactly the products, and
/// nothing else is written; where there is none, the rows of a new meal
/// under the id `fresh_meal_id` are written first, and the invoice is for
/// that meal.
pub open spec fn create_invoice_verdict(
    groups: Seq<Group>,
    suppliers: Seq<Supplier>,
    meals: Seq<Meal>,
    price: i64,
    group_id: i32,
    supplier_id: i32,
    product_ids: Seq<i32>,
    fresh_meal_id: i32,
    now: Timestamp,
) -> Result<InvoiceWritesView, ServiceErrorView> {
    if !has_id(groups, group_id) {
        Err(ServiceErrorView::ReferenceNotFound(group_missing_text()))
    } else if !has_id(suppliers, supplier_id) {
        Err(ServiceErrorView::ReferenceNotFound(supplier_missing_text()))
    } else {
        match matching_meal(meals, product_ids) {
            Some(meal_id) => Ok(
                InvoiceWritesView {
                    meals: Seq::empty(),
                    invoice: new_invoice(price, group_id, supplier_id, meal_id, now),
                },
            ),
            None => Ok(
                InvoiceWritesView {
                    meals: meal_rows(fresh_meal_id, product_ids),
                    invoice: new_invoice(price, group_id, supplier_id, fresh_meal_id, now),
                },
            ),
        }
    }
}

/// The name under which a meal is shown.
#[derive(Debug, Clone, PartialEq, Eq)]
pub struct MealName {
    pub meal_id: i32,
    pub name: String,
}

impl Row for MealName {
    open spec fn row_id(&self) -> i32 {
        self.meal_id
    }

    fn id(&self) -> (id: i32) {
        self.meal_id
    }
}

/// One invoice of the last seven days.
#[derive(Debug, Clone, PartialEq, Eq)]
pub struct WeeklyInvoiceDto {
    pub id: i32,
    pub weekday: String,
    pub meal: String,
    pub created_date: Timestamp,
}

/// The mathematical value of a `WeeklyInvoiceDto`.
pub struct WeeklyInvoiceView {
    pub id: i32,
    pub weekday: Seq<char>,
    pub meal: Seq<char>,
    pub created_date: Timestamp,
}

impl View for WeeklyInvoiceDto {
    type V = WeeklyInvoiceView;

    open spec fn view(&self) -> WeeklyInvoiceView {
        WeeklyInvoiceView {
            id: self.id,
            weekday: self.weekday@,
            meal: self.meal@,
            created_date: self.created_date,
        }
    }
}

/// The invoice belongs to the group and was created in the seven days
/// that end at `now`, both ends included.
pub open spec fn in_week(invoice: Model, group_id: i32, now: Timestamp) -> bool {
    invoice.group_id == group_id && now.covers_week_before(invoice.created_date)
}

/// The digest line of an invoice: its id, the name of the day of the week
/// on which it was created, the name of its meal, and when it was created.
pub open spec fn digest_line(invoice: Model, names: Seq<MealName>) -> WeeklyInvoiceView {
    WeeklyInvoiceView {
        id: invoice.id,
        weekday: weekday_of(invoice.created_date.day_number()).name_text(),
        meal: names[first_with_id(names, invoice.meal_id)].name@,
        created_date: invoice.created_date,
    }
}

/// Some invoice of the group's week is for a meal without a name.
pub open spec fn week_lacks_meal(
    invoices: Seq<Model>,
    names: Seq<MealName>,
    group_id: i32,
    now: Timestamp,
) -> bool {
    exists|k: int|
        0 <= k < invoices.len() && in_week(#[trigger] invoices[k], group_id, now) && !has_id(
            names,
            invoices[k].meal_id,
        )
}

/// The digest of a group's week: an error where an invoice of the week is
/// for a meal without a name, else one line for each invoice of the week,
/// in the order of the invoices.
pub open spec fn weekly_verdict(
    invoices: Seq<Model>,
    names: Seq<MealName>,
    group_id: i32,
    now: Timestamp,
) -> Result<Seq<WeeklyInvoiceView>, ServiceErrorView> {
    if week_lacks_meal(invoices, names, group_id, now) {
        Err(ServiceErrorView::ReferenceNotFound(meal_missing_text()))
    } else {
        Ok(
            invoices.filter(|i: Model| in_week(i, group_id, now)).map_values(
                |i: Model| digest_line(i, names),
            ),
        )
    }
}

pub struct InvoiceService;

impl InvoiceService {
    /// Decides on a new invoice: the error of the first reference that is
    /// not stored, else what to write. `fresh_meal_id` is an id that
    /// storage has set aside for a meal; it is used only where no stored
    /// meal holds exactly the products. Looks at the invoice's group and
    /// supplier, and at all rows of every meal that holds one of the
    /// products.
    pub fn create_invoice(
        groups: &Vec<Group>,
        suppliers: &Vec<Supplier>,
        meals: &Vec<Meal>,
        price: i64,
        group_id: i32,
        supplier_id: i32,
        product_ids: &Vec<i32>,
        fresh_meal_id: i32,
        now: Timestamp,
    ) -> (r: Result<InvoiceWrites, ServiceError>)
        ensures
            outcome(r) == create_invoice_verdict(
                groups@,
                suppliers@,
                meals@,
                price,
                group_id,
                supplier_id,
                product_ids@,
                fresh_meal_id,
                now,
            ),
    {
        if !contains_id(groups, group_id) {
            return Err(ServiceError::reference_not_found("group does not exist"));
        }
        if !contains_id(suppliers, supplier_id) {
            return Err(ServiceError::reference_not_found("supplier does not exist"));
        }
        let (stored, meal_id) = match MealService::find_with_exact_product_ids(meals, product_ids) {
            Some(id) => (Vec::new(), id),
            None => (MealService::create_meal_with_products(fresh_meal_id, product_ids), fresh_meal_id),
        };
        Ok(
            InvoiceWrites {
                meals: stored,
                invoice: CreateInvoiceDto {
                    price,
                    is_deleted: false,
                    deleted_by: 0,
                    created_date: now,
                    last_modification_date: now,
                    meal_id,
                    group_id,
                    supplier_id,
                },
            },
        )
    }
}

impl InvoiceService {
    /// The digest of the invoices that the group `group_id` got in the
    /// seven days that end at `now`, both ends included. Looks at the
    /// invoices of the group and at the names of their meals.
    pub fn get_invoices_weekly(
        invoices: &Vec<Model>,
        meal_names: &Vec<MealName>,
        group_id: i32,
        now: Timestamp,
    ) -> (r: Result<Vec<WeeklyInvoiceDto>, ServiceError>)
        ensures
            match r {
                Ok(lines) => weekly_verdict(invoices@, meal_names@, group_id, now) == Ok::<
                    Seq<WeeklyInvoiceView>,
                    ServiceErrorView,
                >(views(lines@)),
                Err(e) => weekly_verdict(invoices@, meal_names@, group_id, now) == Err::<
                    Seq<WeeklyInvoiceView>,
                    ServiceErrorView,
                >(e@),
            },
    {
        let mut lines: Vec<WeeklyInvoiceDto> = Vec::new();
        let mut i: usize = 0;
        let ghost chosen = |v: Model| in_week(v, group_id, now);
        let ghost line = |v: Model| digest_line(v, meal_names@);
        assert(invoices@.take(0) =~= Seq::<Model>::empty());
        assert(views(lines@) =~= invoices@.take(0).filter(chosen).map_values(line));
        while i < invoices.len()
            invariant
                i <= invoices.len(),
                chosen == (|v: Model| in_week(v, group_id, now)),
                line == (|v: Model| digest_line(v, meal_names@)),
                views(lines@) == invoices@.take(i as int).filter(chosen).map_values(line),
                forall|k: int|
                    0 <= k < i ==> !(in_week(#[trigger] invoices@[k], group_id, now) && !has_id(
                        meal_names@,
                        invoices@[k].meal_id,
                    )),
            decreases invoices.len() - i,
        {
            let invoice = invoices[i];
            proof {
                let prefix = invoices@.take(i as int);
                assert(invoices@.take(i + 1) =~= prefix.push(invoice));
                prefix.lemma_filter_push(invoice, chosen);
                assert(prefix.filter(chosen).push(invoice).map_values(line) =~= prefix.filter(
                    chosen,
                ).map_values(line).push(line(invoice)));
            }
            if invoice.group_id == group_id && now.within_week_before(&invoice.created_date) {
                let at = position_of_id(meal_names, invoice.meal_id);
                if at >= meal_names.len() {
                    assert(in_week(invoices@[i as int], group_id, now));
                    return Err(ServiceError::reference_not_found("meal does not exist"));
                }
                let entry = WeeklyInvoiceDto {
                    id: invoice.id,
                    weekday: invoice.created_date.weekday().name(),
                    meal: meal_names[at].name.clone(),
                    created_date: invoice.created_date,
                };
                proof {
                    lemma_views_push(lines@, entry);
                }
                lines.push(entry);
            }
            i += 1;
        }
        assert(invoices@.take(invoices.len() as int) =~= invoices@);
        Ok(lines)
    }
}

/// A new invoice looks only at the groups with its group's id, at the
/// suppliers with its supplier's id and at the meals that hold one of its
/// products: the outcome is the same after rows are left out, as long as
/// every meal that holds one of the products keeps all its rows.
pub proof fn lemma_create_invoice_reads(
    groups: Seq<Group>,
    suppliers: Seq<Supplier>,
    meals: Seq<Meal>,
    price: i64,
    group_id: i32,
    supplier_id: i32,
    product_ids: Seq<i32>,
    fresh_meal_id: i32,
    now: Timestamp,
    kept_groups: spec_fn(Group) -> bool,
    kept_suppliers: spec_fn(Supplier) -> bool,
    kept_meals: spec_fn(Meal) -> bool,
)
    requires
        forall|g: Group| g.id == group_id ==> #[trigger] kept_groups(g),
        forall|s: Supplier| s.id == supplier_id ==> #[trigger] kept_suppliers(s),
        forall|m: Meal| holds_wanted(meals, m.id, product_ids) ==> #[trigger] kept_meals(m),
    ensures
        create_invoice_verdict(
            groups.filter(kept_groups),
            suppliers.filter(kept_suppliers),
            meals.filter(kept_meals),
            price,
            group_id,
            supplier_id,
            product_ids,
            fresh_meal_id,
            now,
        ) == create_invoice_verdict(
            groups,
            suppliers,
            meals,
            price,
            group_id,
            supplier_id,
            product_ids,
            fresh_meal_id,
            now,
        ),
{
    lemma_filter_keeps_first_with_id(groups, group_id, kept_groups);
    lemma_filter_keeps_first_with_id(suppliers, supplier_id, kept_suppliers);
    lemma_match_reads(meals, product_ids, kept_meals);
}

/// After the rows of a new invoice's meal are stored, a second invoice for
/// the same products, in whatever order they are named, writes no meal
/// rows and is for the same meal.
pub proof fn lemma_second_invoice_reuses_meal(
    groups: Seq<Group>,
    suppliers: Seq<Supplier>,
    meals: Seq<Meal>,
    price: i64,
    group_id: i32,
    supplier_id: i32,
    product_ids: Seq<i32>,
    fresh_meal_id: i32,
    now: Timestamp,
    again: Seq<i32>,
    next_meal_id: i32,
    later: Timestamp,
)
    requires
        has_id(groups, group_id),
        has_id(suppliers, supplier_id),
        product_ids.len() > 0,
        !has_id(meals, fresh_meal_id),
        again.to_multiset() == product_ids.to_multiset(),
    ensures
        ({
            let first = create_invoice_verdict(
                groups,
                suppliers,
                meals,
                price,
                group_id,
                supplier_id,
                product_ids,
                fresh_meal_id,
                now,
            );
            let second = create_invoice_verdict(
                groups,
                suppliers,
                meals + first->Ok_0.meals,
                price,
                group_id,
                supplier_id,
                again,
                next_meal_id,
                later,
            );
            &&& first is Ok
            &&& second is Ok
            &&& second->Ok_0.meals.len() == 0
            &&& second->Ok_0.invoice.meal_id == first->Ok_0.invoice.meal_id
        }),
{
    let first = create_invoice_verdict(
        groups,
        suppliers,
        meals,
        price,
        group_id,
        supplier_id,
        product_ids,
        fresh_meal_id,
        now,
    );
    let after = meals + first->Ok_0.meals;
    if exact_meal_exists(meals, product_ids) {
        assert(after =~= meals);
        lemma_first_match(meals, product_ids, 0);
        lemma_first_match(meals, again, 0);
        let a = first_match(meals, product_ids, 0);
        let b = first_match(meals, again, 0);
        let k = choose|k: int| row_matches(meals, k, product_ids);
        assert(row_matches(meals, k, again));
        assert(a < meals.len());
        assert(row_matches(meals, a, again));
        assert(b < meals.len());
        assert(row_matches(meals, b, product_ids));
        assert(a == b);
        assert(exact_meal_exists(after, again));
    } else {
        lemma_stored_meal_is_found(meals, fresh_meal_id, product_ids);
        let start = meals.len() as int;
        assert(after[start] == meal_rows(fresh_meal_id, product_ids)[0]);
        assert(row_matches(after, start, again));
        lemma_first_match(after, again, 0);
        let b = first_match(after, again, 0);
        assert(b <= start);
        if b < start {
            assert(after[b] == meals[b]);
            assert(after[b].id != fresh_meal_id);
            assert(meal_products(after, after[b].id) == meal_products(meals, after[b].id));
            assert(row_matches(meals, b, product_ids));
        }
    }
}

} // verus!
