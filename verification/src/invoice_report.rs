//! The invoice report: the invoices of a group, one bucket per calendar
//! day, the buckets in the order of their dates as text.

use vstd::prelude::*;
use std::collections::HashMap;
use vstd::std_specs::convert::FromSpecImpl;
use crate::calendar::{day_text, Timestamp};
use crate::invoice::InvoiceService;
use crate::model::{lemma_views_push, views};
use crate::text::{lemma_bytes_le_total, lemma_bytes_le_transitive, text_le, text_not_after};

verus! {

/// The supplier of an invoice, as the report shows it.
#[derive(Debug, PartialEq, Eq)]
pub struct SupplierDto {
    pub id: i32,
    pub name: String,
}

pub struct SupplierDtoView {
    pub id: i32,
    pub name: Seq<char>,
}

impl View for SupplierDto {
    type V = SupplierDtoView;

    open spec fn view(&self) -> SupplierDtoView {
        SupplierDtoView { id: self.id, name: self.name@ }
    }
}

/// One invoice as storage hands it to the report: the invoice, its
/// supplier's name, and the names of its meal's products in one text.
#[derive(Debug, Clone, PartialEq, Eq)]
pub struct InvoiceRow {
    pub id: i32,
    pub price: i64,
    pub created_date: Timestamp,
    pub supplier_id: i32,
    pub supplier_name: String,
    pub meal: String,
}

pub struct InvoiceRowView {
    pub id: i32,
    pub price: i64,
    pub created_date: Timestamp,
    pub supplier_id: i32,
    pub supplier_name: Seq<char>,
    pub meal: Seq<char>,
}

impl View for InvoiceRow {
    type V = InvoiceRowView;

    open spec fn view(&self) -> InvoiceRowView {
        InvoiceRowView {
            id: self.id,
            price: self.price,
            created_date: self.created_date,
            supplier_id: self.supplier_id,
            supplier_name: self.supplier_name@,
            meal: self.meal@,
        }
    }
}

/// The first and the last day of a report, as the request names them.
#[derive(Debug, Clone, PartialEq, Eq)]
pub struct InvoiceFilter {
    pub start_date: String,
    pub end_date: String,
}

/// One invoice of the report.
#[derive(Debug, PartialEq, Eq)]
pub struct InvoiceDto {
    pub supplier: SupplierDto,
    pub price: i64,
    pub meal: String,
    pub invoice_id: i32,
}

pub struct InvoiceDtoView {
    pub supplier: SupplierDtoView,
    pub price: i64,
    pub meal: Seq<char>,
    pub invoice_id: i32,
}

impl View for InvoiceDto {
    type V = InvoiceDtoView;

    open spec fn view(&self) -> InvoiceDtoView {
        InvoiceDtoView {
            supplier: self.supplier@,
            price: self.price,
            meal: self.meal@,
            invoice_id: self.invoice_id,
        }
    }
}

/// The invoices of one calendar day.
#[derive(Debug, Clone, PartialEq, Eq)]
pub struct InvoiceResponse {
    pub date: String,
    pub invoices: Vec<InvoiceDto>,
}

pub struct InvoiceResponseView {
    pub date: Seq<char>,
    pub invoices: Seq<InvoiceDtoView>,
}

impl View for InvoiceResponse {
    type V = InvoiceResponseView;

    open spec fn view(&self) -> InvoiceResponseView {
        InvoiceResponseView { date: self.date@, invoices: views(self.invoices@) }
    }
}

/// A calendar day, counted from 1 January 1970, and its date as text.
#[derive(Debug, PartialEq, Eq)]
pub struct DayLabel {
    pub day: i32,
    pub text: String,
}

pub struct DayLabelView {
    pub day: int,
    pub text: Seq<char>,
}

impl View for DayLabel {
    type V = DayLabelView;

    open spec fn view(&self) -> DayLabelView {
        DayLabelView { day: self.day as int, text: self.text@ }
    }
}

impl Clone for SupplierDto {
    fn clone(&self) -> (r: Self)
        ensures
            r@ == self@,
    {
        SupplierDto { id: self.id, name: self.name.clone() }
    }
}

impl Clone for InvoiceDto {
    fn clone(&self) -> (r: Self)
        ensures
            r@ == self@,
    {
        InvoiceDto {
            supplier: self.supplier.clone(),
            price: self.price,
            meal: self.meal.clone(),
            invoice_id: self.invoice_id,
        }
    }
}

impl Clone for DayLabel {
    fn clone(&self) -> (r: Self)
        ensures
            r@ == self@,
    {
        DayLabel { day: self.day, text: self.text.clone() }
    }
}

impl From<InvoiceRow> for InvoiceDto {
    fn from(row: InvoiceRow) -> (dto: InvoiceDto) {
        InvoiceDto {
            invoice_id: row.id,
            price: row.price,
            meal: row.meal,
            supplier: SupplierDto { id: row.supplier_id, name: row.supplier_name },
        }
    }
}

impl FromSpecImpl<InvoiceRow> for InvoiceDto {
    open spec fn obeys_from_spec() -> bool {
        true
    }

    open spec fn from_spec(row: InvoiceRow) -> InvoiceDto {
        InvoiceDto {
            invoice_id: row.id,
            price: row.price,
            meal: row.meal,
            supplier: SupplierDto { id: row.supplier_id, name: row.supplier_name },
        }
    }
}

/// What the report shows of a row.
pub open spec fn invoice_of(row: InvoiceRowView) -> InvoiceDtoView {
    InvoiceDtoView {
        supplier: SupplierDtoView { id: row.supplier_id, name: row.supplier_name },
        price: row.price,
        meal: row.meal,
        invoice_id: row.id,
    }
}

/// The invoices of the rows created on `day`, in the order of the rows.
pub open spec fn invoices_on(rows: Seq<InvoiceRowView>, day: int) -> Seq<InvoiceDtoView> {
    rows.filter(|r: InvoiceRowView| r.created_date.day_number() == day).map_values(
        |r: InvoiceRowView| invoice_of(r),
    )
}

/// Some row was created on `day`.
pub open spec fn has_invoice_on(rows: Seq<InvoiceRowView>, day: int) -> bool {
    exists|k: int| 0 <= k < rows.len() && (#[trigger] rows[k]).created_date.day_number() == day
}

/// Some label names `day`.
pub open spec fn names_day(labels: Seq<DayLabelView>, day: int) -> bool {
    exists|i: int| 0 <= i < labels.len() && (#[trigger] labels[i]).day == day
}

/// `labels` names each day on which a row was created once, and no other
/// day, each with its date as text.
pub open spec fn labels_cover(rows: Seq<InvoiceRowView>, labels: Seq<DayLabelView>) -> bool {
    &&& forall|i: int, j: int|
        0 <= i < j < labels.len() ==> (#[trigger] labels[i]).day != (#[trigger] labels[j]).day
    &&& forall|i: int|
        0 <= i < labels.len() ==> has_invoice_on(rows, (#[trigger] labels[i]).day)
            && labels[i].text == day_text(labels[i].day)
    &&& forall|k: int|
        0 <= k < rows.len() ==> names_day(labels, (#[trigger] rows[k]).created_date.day_number())
}

/// No label is followed by one whose text comes before its own.
pub open spec fn labels_ascend(labels: Seq<DayLabelView>) -> bool {
    forall|i: int, j: int|
        0 <= i < j < labels.len() ==> text_le((#[trigger] labels[i]).text, (#[trigger] labels[j]).text)
}

/// `report` holds one bucket for each label, in the order of the labels:
/// the label's text, and the invoices of the label's day.
pub open spec fn buckets_of(
    rows: Seq<InvoiceRowView>,
    labels: Seq<DayLabelView>,
    report: Seq<InvoiceResponseView>,
) -> bool {
    &&& report.len() == labels.len()
    &&& forall|i: int|
        0 <= i < report.len() ==> (#[trigger] report[i]).date == labels[i].text
            && report[i].invoices == invoices_on(rows, labels[i].day)
}

/// `report` is the report of `rows`: one bucket for each day on which a
/// row was created, which holds the date as text and the invoices of that
/// day in the order of the rows; the buckets ascend by their dates as
/// text.
pub open spec fn is_invoice_report(
    rows: Seq<InvoiceRowView>,
    report: Seq<InvoiceResponseView>,
) -> bool {
    exists|labels: Seq<DayLabelView>|
        {
            &&& labels_cover(rows, labels)
            &&& labels_ascend(labels)
            &&& #[trigger] buckets_of(rows, labels, report)
        }
}

/// `by_day` holds for each day on which a row was created, under the
/// day, the invoices of that day in the order of the rows, and nothing
/// else.
pub open spec fn bucketed(rows: Seq<InvoiceRowView>, by_day: Map<i32, Vec<InvoiceDto>>) -> bool {
    forall|day: i32|
        #![trigger by_day.contains_key(day)]
        #![trigger invoices_on(rows, day as int)]
        (by_day.contains_key(day) <==> has_invoice_on(rows, day as int)) && (by_day.contains_key(
            day,
        ) ==> views(by_day[day]@) == invoices_on(rows, day as int))
}

/// The invoices that `by_day` holds under `day`; none where it holds
/// nothing under it.
pub open spec fn invoices_under(by_day: Map<i32, Vec<InvoiceDto>>, day: i32) -> Seq<InvoiceDtoView> {
    if by_day.contains_key(day) {
        views(by_day[day]@)
    } else {
        Seq::empty()
    }
}

/// A day on which no row was created has no invoices.
pub proof fn lemma_day_without_rows(rows: Seq<InvoiceRowView>, day: int)
    requires
        !has_invoice_on(rows, day),
    ensures
        invoices_on(rows, day) == Seq::<InvoiceDtoView>::empty(),
{
    let on_day = |r: InvoiceRowView| r.created_date.day_number() == day;
    assert forall|i: int| 0 <= i < rows.len() implies !on_day(#[trigger] rows[i]) by {}
    rows.lemma_all_neg_filter_empty(on_day);
    assert(invoices_on(rows, day) =~= Seq::<InvoiceDtoView>::empty());
}

/// A new row adds its invoice to the invoices of its day, and leaves the
/// other days as they are.
pub proof fn lemma_invoices_on_push(rows: Seq<InvoiceRowView>, row: InvoiceRowView, day: int)
    ensures
        invoices_on(rows.push(row), day) == if row.created_date.day_number() == day {
            invoices_on(rows, day).push(invoice_of(row))
        } else {
            invoices_on(rows, day)
        },
        has_invoice_on(rows.push(row), day) <==> has_invoice_on(rows, day)
            || row.created_date.day_number() == day,
{
    let on_day = |r: InvoiceRowView| r.created_date.day_number() == day;
    let next = rows.push(row);
    rows.lemma_filter_push(row, on_day);
    assert(rows.filter(on_day).push(row).map_values(|r: InvoiceRowView| invoice_of(r))
        =~= rows.filter(on_day).map_values(|r: InvoiceRowView| invoice_of(r)).push(
        invoice_of(row),
    ));
    if has_invoice_on(rows, day) {
        let w = choose|w: int|
            0 <= w < rows.len() && (#[trigger] rows[w]).created_date.day_number() == day;
        assert(next[w] == rows[w]);
    }
    if row.created_date.day_number() == day {
        assert(next[rows.len() as int] == row);
    }
    if has_invoice_on(next, day) {
        let w = choose|w: int|
            0 <= w < next.len() && (#[trigger] next[w]).created_date.day_number() == day;
        if w < rows.len() {
            assert(rows[w] == next[w]);
        }
    }
}

/// The days on which a row was created, each once and with its date as
/// text; and the invoices of each day, in the order of the rows, under
/// the day.
pub fn invoices_by_day(rows: &Vec<InvoiceRow>) -> (grouped: (
    Vec<DayLabel>,
    HashMap<i32, Vec<InvoiceDto>>,
))
    ensures
        labels_cover(views(rows@), views(grouped.0@)),
        bucketed(views(rows@), grouped.1@),
{
    broadcast use vstd::std_specs::hash::group_hash_axioms;

    let mut labels: Vec<DayLabel> = Vec::new();
    let mut by_day: HashMap<i32, Vec<InvoiceDto>> = HashMap::new();
    let mut k: usize = 0;
    proof {
        assert(views(rows@).take(0) =~= Seq::<InvoiceRowView>::empty());
    }
    while k < rows.len()
        invariant
            k <= rows.len(),
            labels_cover(views(rows@).take(k as int), views(labels@)),
            bucketed(views(rows@).take(k as int), by_day@),
        decreases rows.len() - k,
    {
        let row = &rows[k];
        let day = row.created_date.day();
        let ghost before = views(labels@);
        let ghost seen = views(rows@).take(k as int);
        let ghost next = views(rows@).take(k + 1);
        let ghost held = by_day@;
        proof {
            assert(next =~= seen.push(row@));
            assert forall|d: int| has_invoice_on(seen, d) implies has_invoice_on(next, d) by {
                lemma_invoices_on_push(seen, row@, d);
            }
            assert(next[k as int].created_date.day_number() == day);
        }
        let invoice = InvoiceDto {
            supplier: SupplierDto { id: row.supplier_id, name: row.supplier_name.clone() },
            price: row.price,
            meal: row.meal.clone(),
            invoice_id: row.id,
        };
        let known = by_day.contains_key(&day);
        let mut invoices = match by_day.remove(&day) {
            Some(invoices) => invoices,
            None => Vec::new(),
        };
        proof {
            if !known {
                lemma_day_without_rows(seen, day as int);
            }
            assert(views(invoices@) == invoices_on(seen, day as int));
            lemma_views_push(invoices@, invoice);
            lemma_invoices_on_push(seen, row@, day as int);
        }
        invoices.push(invoice);
        by_day.insert(day, invoices);
        proof {
            assert forall|other: i32|
                #![trigger by_day@.contains_key(other)]
                #![trigger invoices_on(next, other as int)]
                (by_day@.contains_key(other) <==> has_invoice_on(next, other as int)) && (
                by_day@.contains_key(other) ==> views(by_day@[other]@) == invoices_on(
                    next,
                    other as int,
                )) by {
                lemma_invoices_on_push(seen, row@, other as int);
                if other != day {
                    assert(by_day@.contains_key(other) == held.contains_key(other));
                }
            }
        }
        if !known {
            let label = DayLabel { day, text: row.created_date.date_text() };
            proof {
                lemma_views_push(labels@, label);
                assert forall|i: int| 0 <= i < before.len() implies (#[trigger] before[i]).day
                    != day by {
                    assert(has_invoice_on(seen, before[i].day));
                }
            }
            labels.push(label);
            proof {
                let after = views(labels@);
                assert(after.len() == before.len() + 1);
                assert(forall|i: int| 0 <= i < before.len() ==> after[i] == before[i]);
                assert(after[before.len() as int].day == day);
                assert forall|w: int| 0 <= w < next.len() implies names_day(
                    after,
                    (#[trigger] next[w]).created_date.day_number(),
                ) by {
                    if w < k {
                        assert(next[w] == seen[w]);
                        let i = choose|i: int|
                            0 <= i < before.len() && (#[trigger] before[i]).day
                                == seen[w].created_date.day_number();
                        assert(after[i].day == next[w].created_date.day_number());
                    } else {
                        assert(after[before.len() as int].day
                            == next[w].created_date.day_number());
                    }
                }
            }
        } else {
            proof {
                assert(has_invoice_on(seen, day as int));
                let earlier = choose|w: int|
                    0 <= w < seen.len() && (#[trigger] seen[w]).created_date.day_number() == day;
                assert(names_day(before, seen[earlier].created_date.day_number()));
                let hit = choose|i: int| 0 <= i < before.len() && (#[trigger] before[i]).day == day;
                assert forall|w: int| 0 <= w < next.len() implies names_day(
                    before,
                    (#[trigger] next[w]).created_date.day_number(),
                ) by {
                    if w < k {
                        assert(next[w] == seen[w]);
                    } else {
                        assert(before[hit].day == next[w].created_date.day_number());
                    }
                }
            }
        }
        k += 1;
    }
    assert(views(rows@).take(rows.len() as int) =~= views(rows@));
    (labels, by_day)
}

/// The days on which a row was created, each once and with its date as
/// text.
pub fn day_labels(rows: &Vec<InvoiceRow>) -> (labels: Vec<DayLabel>)
    ensures
        labels_cover(views(rows@), views(labels@)),
{
    let (labels, _) = invoices_by_day(rows);
    labels
}

/// The labels in the order of their texts.
pub fn sort_labels(labels: &Vec<DayLabel>) -> (out: Vec<DayLabel>)
    ensures
        labels_ascend(views(out@)),
        views(out@).to_multiset() == views(labels@).to_multiset(),
{
    let mut out: Vec<DayLabel> = Vec::new();
    let mut i: usize = 0;
    assert(views(out@) =~= views(labels@).take(0));
    while i < labels.len()
        invariant
            i <= labels.len(),
            labels_ascend(views(out@)),
            views(out@).to_multiset() == views(labels@).take(i as int).to_multiset(),
        decreases labels.len() - i,
    {
        let label = labels[i].clone();
        let mut pos: usize = 0;
        while pos < out.len() && text_not_after(out[pos].text.as_str(), label.text.as_str())
            invariant
                pos <= out.len(),
                forall|k: int| 0 <= k < pos ==> text_le((#[trigger] out@[k]).text@, label.text@),
            decreases out.len() - pos,
        {
            pos += 1;
        }
        let ghost before = views(out@);
        let ghost lv = label@;
        proof {
            assert(forall|k: int| 0 <= k < before.len() ==> before[k] == out@[k]@);
        }
        out.insert(pos, label);
        proof {
            let after = views(out@);
            assert(after =~= before.insert(pos as int, lv));
            vstd::seq_lib::to_multiset_insert(before, pos as int, lv);
            let done = views(labels@).take(i as int);
            assert(views(labels@).take(i + 1) =~= done.push(lv));
            vstd::seq_lib::to_multiset_build(done, lv);
            assert forall|a: int, b: int| 0 <= a < b < after.len() implies text_le(
                (#[trigger] after[a]).text,
                (#[trigger] after[b]).text,
            ) by {
                if b < pos {
                    assert(after[a] == before[a] && after[b] == before[b]);
                } else if b == pos {
                    assert(after[a] == before[a]);
                } else if a < pos {
                    assert(after[a] == before[a] && after[b] == before[b - 1]);
                } else if a == pos {
                    assert(after[b] == before[b - 1]);
                    assert(!text_le(before[pos as int].text, lv.text));
                    lemma_bytes_le_total(
                        vstd::utf8::encode_utf8(before[pos as int].text),
                        vstd::utf8::encode_utf8(lv.text),
                    );
                    if b - 1 > pos {
                        lemma_bytes_le_transitive(
                            vstd::utf8::encode_utf8(lv.text),
                            vstd::utf8::encode_utf8(before[pos as int].text),
                            vstd::utf8::encode_utf8(before[b - 1].text),
                        );
                    }
                } else {
                    assert(after[a] == before[a - 1] && after[b] == before[b - 1]);
                }
            }
        }
        i += 1;
    }
    assert(views(labels@).take(labels.len() as int) =~= views(labels@));
    out
}

/// Copies of the invoices, in their order.
pub fn copy_invoices(invoices: &Vec<InvoiceDto>) -> (copies: Vec<InvoiceDto>)
    ensures
        views(copies@) == views(invoices@),
{
    let mut copies: Vec<InvoiceDto> = Vec::new();
    let mut i: usize = 0;
    while i < invoices.len()
        invariant
            i <= invoices.len(),
            views(copies@) == views(invoices@).take(i as int),
        decreases invoices.len() - i,
    {
        let copy = invoices[i].clone();
        proof {
            lemma_views_push(copies@, copy);
            assert(views(invoices@).take(i + 1) =~= views(invoices@).take(i as int).push(
                invoices@[i as int]@,
            ));
        }
        copies.push(copy);
        i += 1;
    }
    assert(views(invoices@).take(invoices.len() as int) =~= views(invoices@));
    copies
}

/// One bucket for each label, in the order of the labels: the label's
/// text, and the invoices that `by_day` holds under the label's day.
pub fn buckets_from(by_day: &HashMap<i32, Vec<InvoiceDto>>, labels: &Vec<DayLabel>) -> (report:
    Vec<InvoiceResponse>)
    ensures
        report.len() == labels.len(),
        forall|i: int|
            0 <= i < report.len() ==> (#[trigger] views(report@)[i]).date == labels@[i].text@
                && views(report@)[i].invoices == invoices_under(by_day@, labels@[i].day),
{
    broadcast use vstd::std_specs::hash::group_hash_axioms;

    let mut report: Vec<InvoiceResponse> = Vec::new();
    let mut i: usize = 0;
    while i < labels.len()
        invariant
            i <= labels.len(),
            report.len() == i,
            forall|j: int|
                0 <= j < i ==> (#[trigger] views(report@)[j]).date == labels@[j].text@ && views(
                    report@,
                )[j].invoices == invoices_under(by_day@, labels@[j].day),
        decreases labels.len() - i,
    {
        let invoices = match by_day.get(&labels[i].day) {
            Some(invoices) => copy_invoices(invoices),
            None => Vec::new(),
        };
        assert(views(invoices@) =~= invoices_under(by_day@, labels@[i as int].day));
        let bucket = InvoiceResponse { date: labels[i].text.clone(), invoices };
        proof {
            lemma_views_push(report@, bucket);
        }
        report.push(bucket);
        i += 1;
    }
    report
}

/// What `by_day` holds under the days of the labels is what the rows
/// have on those days.
pub proof fn lemma_buckets_of_rows(
    rows: Seq<InvoiceRowView>,
    by_day: Map<i32, Vec<InvoiceDto>>,
    labels: Seq<DayLabel>,
    report: Seq<InvoiceResponseView>,
)
    requires
        bucketed(rows, by_day),
        report.len() == labels.len(),
        forall|i: int|
            0 <= i < report.len() ==> (#[trigger] report[i]).date == labels[i].text@
                && report[i].invoices == invoices_under(by_day, labels[i].day),
    ensures
        buckets_of(rows, views(labels), report),
{
    assert forall|i: int| 0 <= i < report.len() implies (#[trigger] report[i]).date == views(
        labels,
    )[i].text && report[i].invoices == invoices_on(rows, views(labels)[i].day) by {
        let day = labels[i].day;
        assert(views(labels)[i].day == day as int);
        if !by_day.contains_key(day) {
            lemma_day_without_rows(rows, day as int);
        }
    }
}

/// One bucket for each label, in the order of the labels: the label's
/// text, and the invoices of the rows created on the label's day.
pub fn buckets(rows: &Vec<InvoiceRow>, labels: &Vec<DayLabel>) -> (report: Vec<InvoiceResponse>)
    ensures
        buckets_of(views(rows@), views(labels@), views(report@)),
{
    let (_, by_day) = invoices_by_day(rows);
    let report = buckets_from(&by_day, labels);
    proof {
        lemma_buckets_of_rows(views(rows@), by_day@, labels@, views(report@));
    }
    report
}

/// Labels that were put into another order still name each day on which a
/// row was created once, and no other day.
pub proof fn lemma_reordered_labels_cover(
    rows: Seq<InvoiceRowView>,
    labels: Seq<DayLabelView>,
    reordered: Seq<DayLabelView>,
)
    requires
        labels_cover(rows, labels),
        reordered.to_multiset() == labels.to_multiset(),
    ensures
        labels_cover(rows, reordered),
{
    broadcast use vstd::seq_lib::to_multiset_contains;

    assert forall|i: int| 0 <= i < reordered.len() implies labels.contains(
        #[trigger] reordered[i],
    ) by {
        assert(reordered.contains(reordered[i]));
        assert(reordered.to_multiset().count(reordered[i]) > 0);
    }
    assert forall|i: int| 0 <= i < labels.len() implies reordered.contains(
        #[trigger] labels[i],
    ) by {
        assert(labels.contains(labels[i]));
        assert(labels.to_multiset().count(labels[i]) > 0);
    }
    assert(labels.no_duplicates());
    labels.lemma_multiset_has_no_duplicates();
    reordered.lemma_multiset_has_no_duplicates_conv();
    assert forall|i: int, j: int| 0 <= i < j < reordered.len() implies (#[trigger] reordered[i]).day
        != (#[trigger] reordered[j]).day by {
        let p = choose|p: int| 0 <= p < labels.len() && labels[p] == reordered[i];
        let q = choose|q: int| 0 <= q < labels.len() && labels[q] == reordered[j];
        if reordered[i].day == reordered[j].day {
            assert(p == q);
            assert(reordered[i] == reordered[j]);
        }
    }
    assert forall|i: int| 0 <= i < reordered.len() implies has_invoice_on(
        rows,
        (#[trigger] reordered[i]).day,
    ) && reordered[i].text == day_text(reordered[i].day) by {
        let p = choose|p: int| 0 <= p < labels.len() && labels[p] == reordered[i];
    }
    assert forall|k: int| 0 <= k < rows.len() implies names_day(
        reordered,
        (#[trigger] rows[k]).created_date.day_number(),
    ) by {
        let p = choose|p: int|
            0 <= p < labels.len() && (#[trigger] labels[p]).day
                == rows[k].created_date.day_number();
        assert(reordered.contains(labels[p]));
        let i = choose|i: int| 0 <= i < reordered.len() && reordered[i] == labels[p];
        assert(reordered[i].day == rows[k].created_date.day_number());
    }
}

/// The days on which a row was created.
pub open spec fn invoice_days(rows: Seq<InvoiceRowView>) -> Set<int> {
    rows.map_values(|r: InvoiceRowView| r.created_date.day_number()).to_set()
}

/// A report has as many buckets as there are days on which a row was
/// created: rows of one day never make two buckets.
pub proof fn lemma_one_bucket_for_each_day(
    rows: Seq<InvoiceRowView>,
    report: Seq<InvoiceResponseView>,
)
    requires
        is_invoice_report(rows, report),
    ensures
        report.len() == invoice_days(rows).len(),
{
    let labels = choose|labels: Seq<DayLabelView>|
        {
            &&& labels_cover(rows, labels)
            &&& labels_ascend(labels)
            &&& #[trigger] buckets_of(rows, labels, report)
        };
    let days = labels.map_values(|l: DayLabelView| l.day);
    let row_days = rows.map_values(|r: InvoiceRowView| r.created_date.day_number());
    assert(days.no_duplicates()) by {
        assert forall|i: int, j: int| 0 <= i < days.len() && 0 <= j < days.len() && i != j implies days[i]
            != days[j] by {
            if i < j {
                assert(labels[i].day != labels[j].day);
            } else {
                assert(labels[j].day != labels[i].day);
            }
        }
    }
    days.unique_seq_to_set();
    assert(days.to_set() =~= row_days.to_set()) by {
        assert forall|d: int| days.to_set().contains(d) implies row_days.to_set().contains(d) by {
            let i = choose|i: int| 0 <= i < days.len() && days[i] == d;
            assert(has_invoice_on(rows, labels[i].day));
            let k = choose|k: int|
                0 <= k < rows.len() && (#[trigger] rows[k]).created_date.day_number()
                    == labels[i].day;
            assert(row_days[k] == d);
        }
        assert forall|d: int| row_days.to_set().contains(d) implies days.to_set().contains(d) by {
            let k = choose|k: int| 0 <= k < row_days.len() && row_days[k] == d;
            assert(names_day(labels, rows[k].created_date.day_number()));
            let i = choose|i: int| 0 <= i < labels.len() && (#[trigger] labels[i]).day == d;
            assert(days[i] == d);
        }
    }
}

/// The report of `rows`: one bucket for each calendar day on which a row
/// was created, with the invoices of that day in the order of the rows;
/// the buckets ascend by their dates as text.
pub fn group_invoices(rows: Vec<InvoiceRow>) -> (report: Vec<InvoiceResponse>)
    ensures
        is_invoice_report(views(rows@), views(report@)),
{
    let (labels, by_day) = invoices_by_day(&rows);
    let sorted = sort_labels(&labels);
    let report = buckets_from(&by_day, &sorted);
    proof {
        lemma_reordered_labels_cover(views(rows@), views(labels@), views(sorted@));
        lemma_buckets_of_rows(views(rows@), by_day@, sorted@, views(report@));
        assert(buckets_of(views(rows@), views(sorted@), views(report@)));
    }
    report
}

impl InvoiceService {
    /// The invoice report of the rows that storage gave for
    /// `invoice_report_query`.
    pub fn get_invoice_report(rows: Vec<InvoiceRow>) -> (report: Vec<InvoiceResponse>)
        ensures
            is_invoice_report(views(rows@), views(report@)),
    {
        group_invoices(rows)
    }
}

} // verus!
