//! The text of the queries that storage is asked, put together by the
//! query builder.

use vstd::prelude::*;
use vstd::string::StringExecFns;
use crate::text::{date_shaped, decimal, decimal_text, is_date_shaped};
use sqlx_clean_querybuilder::qb::select::Order;
use sqlx_clean_querybuilder::qb::select::SelectQuery;
use sqlx_clean_querybuilder::query_builder::PostgreSqlQueryBuilder;

verus! {

/// The builder of a `SELECT` query.
#[verifier::external_type_specification]
#[verifier::external_body]
pub struct ExSelectQuery(SelectQuery);

/// The columns that the query selects, in order; none stands for all.
pub uninterp spec fn select_columns(q: SelectQuery) -> Seq<Seq<char>>;

/// The table that the query reads, and after it the alias where it has
/// one; empty where the query has no table yet.
pub uninterp spec fn select_table(q: SelectQuery) -> Seq<Seq<char>>;

/// The joins of the query, each as the builder keeps it, in order.
pub uninterp spec fn select_joins(q: SelectQuery) -> Seq<Seq<char>>;

/// The conditions of the query, in order.
pub uninterp spec fn select_filters(q: SelectQuery) -> Seq<Seq<char>>;

/// The columns by which the query groups, in order.
pub uninterp spec fn select_groups(q: SelectQuery) -> Seq<Seq<char>>;

/// The columns by which the query orders, each with whether it ascends,
/// in order.
pub uninterp spec fn select_orders(q: SelectQuery) -> Seq<(Seq<char>, bool)>;

/// What else the query holds, each as text: the mark of distinct rows,
/// the conditions on groups, the limit and the offset.
pub uninterp spec fn select_extras(q: SelectQuery) -> Seq<Seq<char>>;

/// The text that the builder makes of a query with these columns, table,
/// joins, conditions, groups and orders, and nothing else.
pub uninterp spec fn select_text(
    columns: Seq<Seq<char>>,
    table: Seq<Seq<char>>,
    joins: Seq<Seq<char>>,
    filters: Seq<Seq<char>>,
    groups: Seq<Seq<char>>,
    orders: Seq<(Seq<char>, bool)>,
) -> Seq<char>;

/// What a query holds.
pub struct SelectState {
    pub columns: Seq<Seq<char>>,
    pub table: Seq<Seq<char>>,
    pub joins: Seq<Seq<char>>,
    pub filters: Seq<Seq<char>>,
    pub groups: Seq<Seq<char>>,
    pub orders: Seq<(Seq<char>, bool)>,
    pub extras: Seq<Seq<char>>,
}

/// What the query `q` holds.
pub open spec fn select_state(q: SelectQuery) -> SelectState {
    SelectState {
        columns: select_columns(q),
        table: select_table(q),
        joins: select_joins(q),
        filters: select_filters(q),
        groups: select_groups(q),
        orders: select_orders(q),
        extras: select_extras(q),
    }
}

impl SelectState {
    /// The text that the builder makes of a query that holds this.
    pub open spec fn text(self) -> Seq<char> {
        select_text(self.columns, self.table, self.joins, self.filters, self.groups, self.orders)
    }
}

/// The texts of `names`, in order.
pub open spec fn texts(names: Seq<&str>) -> Seq<Seq<char>> {
    names.map_values(|s: &str| s@)
}

/// An inner join as the builder keeps it.
pub open spec fn inner_join_text(
    table: Seq<char>,
    alias: Option<Seq<char>>,
    left: Seq<char>,
    right: Seq<char>,
) -> Seq<char> {
    "INNER JOIN "@ + table + match alias {
        Some(a) => " AS "@ + a,
        None => Seq::empty(),
    } + " ON "@ + left + " = "@ + right
}

/// The text of `alias`, if there is one.
pub open spec fn alias_text(alias: Option<&str>) -> Option<Seq<char>> {
    match alias {
        Some(a) => Some(a@),
        None => None,
    }
}

/// `PostgreSqlQueryBuilder::select`: a query that holds nothing yet.
#[verifier::external_body]
fn new_select() -> (q: SelectQuery)
    ensures
        select_columns(q) == Seq::<Seq<char>>::empty(),
        select_table(q) == Seq::<Seq<char>>::empty(),
        select_joins(q) == Seq::<Seq<char>>::empty(),
        select_filters(q) == Seq::<Seq<char>>::empty(),
        select_groups(q) == Seq::<Seq<char>>::empty(),
        select_orders(q) == Seq::<(Seq<char>, bool)>::empty(),
        select_extras(q) == Seq::<Seq<char>>::empty(),
{
    PostgreSqlQueryBuilder::select()
}

/// `SelectQuery::columns`: the query selects `columns` in place of what it
/// selected; the rest stays.
#[verifier::external_body]
fn with_columns(q: SelectQuery, columns: &Vec<&str>) -> (r: SelectQuery)
    ensures
        select_state(r) == (SelectState { columns: texts(columns@), ..select_state(q) }),
{
    q.columns(columns)
}

/// `SelectQuery::table`: the query reads `table`, under `alias` where one
/// is given, in place of what it read; the rest stays.
#[verifier::external_body]
fn from_table(q: SelectQuery, table: &str, alias: Option<&str>) -> (r: SelectQuery)
    ensures
        select_state(r) == (SelectState {
            table: match alias {
                Some(a) => seq![table@, a@],
                None => seq![table@],
            },
            ..select_state(q)
        }),
{
    q.table(table, alias)
}

/// `SelectQuery::filter`: the query has `condition` after its other
/// conditions; the rest stays.
#[verifier::external_body]
fn with_filter(q: SelectQuery, condition: &str) -> (r: SelectQuery)
    ensures
        select_state(r) == (SelectState {
            filters: select_state(q).filters.push(condition@),
            ..select_state(q)
        }),
{
    q.filter(condition)
}

/// `SelectQuery::join_inner`: the query has an inner join of `table`,
/// under `alias` where one is given, on `left = right`, after its other
/// joins; the rest stays.
#[verifier::external_body]
fn with_inner_join(q: SelectQuery, table: &str, alias: Option<&str>, left: &str, right: &str) -> (r:
    SelectQuery)
    ensures
        select_state(r) == (SelectState {
            joins: select_state(q).joins.push(
                inner_join_text(table@, alias_text(alias), left@, right@),
            ),
            ..select_state(q)
        }),
{
    q.join_inner(table, alias, left, right)
}

/// `SelectQuery::group_by`: the query groups by `column` after its other
/// groups; the rest stays.
#[verifier::external_body]
fn grouped_by(q: SelectQuery, column: &str) -> (r: SelectQuery)
    ensures
        select_state(r) == (SelectState {
            groups: select_state(q).groups.push(column@),
            ..select_state(q)
        }),
{
    q.group_by(column)
}

/// `SelectQuery::order_by` with `Order::Asc`: the query orders by
/// `column`, ascending, after its other orders; the rest stays.
#[verifier::external_body]
fn ascending_by(q: SelectQuery, column: &str) -> (r: SelectQuery)
    ensures
        select_state(r) == (SelectState {
            orders: select_state(q).orders.push((column@, true)),
            ..select_state(q)
        }),
{
    q.order_by(column, Order::Asc)
}

/// `SelectQuery::build`: the text of the query, which depends on nothing
/// but what the query holds.
#[verifier::external_body]
fn built(q: SelectQuery) -> (text: String)
    ensures
        select_extras(q).len() == 0 ==> text@ == select_text(
            select_columns(q),
            select_table(q),
            select_joins(q),
            select_filters(q),
            select_groups(q),
            select_orders(q),
        ),
{
    q.build()
}

/// The condition that picks the active users of the group `group_id`.
pub open spec fn indebt_condition(group_id: int) -> Seq<char> {
    "group_id = "@ + decimal_text(group_id) + " AND is_active = true"@
}

/// What the query for the debtors of a group holds: the id, the name and
/// the balance of the users for which `condition` holds, the lowest
/// balance first.
pub open spec fn indebt_state(condition: Seq<char>) -> SelectState {
    SelectState {
        columns: seq!["id"@, "name"@, "balance"@],
        table: seq!["user"@],
        joins: Seq::empty(),
        filters: seq![condition],
        groups: Seq::empty(),
        orders: seq![("balance"@, true)],
        extras: Seq::empty(),
    }
}

/// The query for the active users of the group `group_id`, the lowest
/// balance first.
pub fn indebt_query(group_id: i32) -> (text: String)
    ensures
        text@ == indebt_state(indebt_condition(group_id as int)).text(),
{
    let condition = "group_id = ".to_string().concat(decimal(group_id).as_str()).concat(
        " AND is_active = true",
    );
    let q = new_select();
    let q = with_columns(q, &vec!["id", "name", "balance"]);
    let q = with_filter(q, condition.as_str());
    let q = from_table(q, "user", None);
    let q = ascending_by(q, "balance");
    proof {
        let want = indebt_state(indebt_condition(group_id as int));
        assert(select_state(q).columns =~= want.columns);
        assert(select_state(q).filters =~= want.filters);
        assert(select_state(q).orders =~= want.orders);
    }
    built(q)
}

/// The condition that picks the invoices of the group `group_id` that are
/// not deleted and were created from the day `start_date` to the day
/// `end_date`, both included.
pub open spec fn report_condition(group_id: int, start_date: Seq<char>, end_date: Seq<char>) -> Seq<
    char,
> {
    "invoice.group_id = "@ + decimal_text(group_id)
        + " AND is_deleted = false AND created_date::date BETWEEN '"@ + start_date + "' and '"@
        + end_date + "'"@
}

/// What the query for the invoice report holds: each invoice for which
/// `condition` holds with its price, the time of its creation, its
/// supplier's id and name, and the names of its meal's products, each
/// once and in their order, in one text.
pub open spec fn report_state(condition: Seq<char>) -> SelectState {
    SelectState {
        columns: seq![
            "invoice.id"@,
            "price"@,
            "created_date"@,
            "u.id as supplier_id"@,
            "u.name as supplier_name"@,
            "string_agg(DISTINCT p.name, ', ' ORDER BY p.name) as meal"@,
            "supplier_id"@,
        ],
        table: seq!["invoice"@],
        joins: seq![
            inner_join_text("invoice_details"@, Some("ind"@), "invoice.id"@, "ind.invoice_id"@),
            inner_join_text("meal"@, None, "meal.id"@, "invoice.meal_id"@),
            inner_join_text("meal_product"@, Some("mp"@), "meal.id"@, "mp.meal_id"@),
            inner_join_text("product"@, Some("p"@), "p.id"@, "mp.product_id"@),
            inner_join_text("supplier"@, Some("s"@), "s.id"@, "supplier_id"@),
            inner_join_text("\"user\""@, Some("u"@), "u.id"@, "s.user_id"@),
        ],
        filters: seq![condition],
        groups: seq!["invoice.id, price, created_date, u.name, meal.id, u.id, supplier_id"@],
        orders: Seq::empty(),
        extras: Seq::empty(),
    }
}

/// The query for the invoice report of the group `group_id` from the day
/// `start_date` to the day `end_date`, where both have the shape of a
/// date; `None` where one of them has not, so that nothing but a date
/// ever stands between the quotes.
pub fn dated_invoice_report_query(group_id: i32, start_date: &str, end_date: &str) -> (text: Option<
    String,
>)
    ensures
        text is Some <==> date_shaped(start_date@) && date_shaped(end_date@),
        text is Some ==> text->0@ == report_state(
            report_condition(group_id as int, start_date@, end_date@),
        ).text(),
{
    if is_date_shaped(start_date) && is_date_shaped(end_date) {
        Some(invoice_report_query(group_id, start_date, end_date))
    } else {
        None
    }
}

/// The query for the invoice report of the group `group_id` from the day
/// `start_date` to the day `end_date`. The two dates go into the text
/// between quotes as they come; `dated_invoice_report_query` is for
/// dates that come from a request.
pub fn invoice_report_query(group_id: i32, start_date: &str, end_date: &str) -> (text: String)
    ensures
        text@ == report_state(report_condition(group_id as int, start_date@, end_date@)).text(),
{
    let condition = "invoice.group_id = ".to_string().concat(decimal(group_id).as_str()).concat(
        " AND is_deleted = false AND created_date::date BETWEEN '",
    ).concat(start_date).concat("' and '").concat(end_date).concat("'");
    let q = new_select();
    let q = with_columns(
        q,
        &vec![
            "invoice.id",
            "price",
            "created_date",
            "u.id as supplier_id",
            "u.name as supplier_name",
            "string_agg(DISTINCT p.name, ', ' ORDER BY p.name) as meal",
            "supplier_id",
        ],
    );
    let q = from_table(q, "invoice", None);
    let q = with_inner_join(q, "invoice_details", Some("ind"), "invoice.id", "ind.invoice_id");
    let q = with_inner_join(q, "meal", None, "meal.id", "invoice.meal_id");
    let q = with_inner_join(q, "meal_product", Some("mp"), "meal.id", "mp.meal_id");
    let q = with_inner_join(q, "product", Some("p"), "p.id", "mp.product_id");
    let q = with_inner_join(q, "supplier", Some("s"), "s.id", "supplier_id");
    let q = with_inner_join(q, "\"user\"", Some("u"), "u.id", "s.user_id");
    let q = with_filter(q, condition.as_str());
    let q = grouped_by(q, "invoice.id, price, created_date, u.name, meal.id, u.id, supplier_id");
    proof {
        let want = report_state(report_condition(group_id as int, start_date@, end_date@));
        assert(select_state(q).columns =~= want.columns);
        assert(select_state(q).joins =~= want.joins);
        assert(select_state(q).filters =~= want.filters);
        assert(select_state(q).groups =~= want.groups);
    }
    built(q)
}

/// The query for all columns of all users.
pub fn all_users_query() -> (text: String)
    ensures
        text@ == (SelectState {
            columns: Seq::empty(),
            table: seq!["user"@],
            joins: Seq::empty(),
            filters: Seq::empty(),
            groups: Seq::empty(),
            orders: Seq::empty(),
            extras: Seq::empty(),
        }).text(),
{
    let q = new_select();
    let q = with_columns(q, &Vec::new());
    let q = from_table(q, "user", None);
    proof {
        assert(select_state(q).columns =~= Seq::<Seq<char>>::empty());
    }
    built(q)
}

} // verus!
