use canteen::calendar::Timestamp;
use canteen::invoice::InvoiceService;
use canteen::invoice_report::{
    buckets, buckets_from, copy_invoices, day_labels, group_invoices, invoices_by_day, sort_labels,
    DayLabel, InvoiceDto, InvoiceFilter, InvoiceResponse, InvoiceRow, SupplierDto,
};

fn at(seconds: i64) -> Timestamp {
    Timestamp::new(seconds, 0).unwrap()
}

const JAN_1: i64 = 1_704_067_200;
const HOUR: i64 = 3_600;
const DAY: i64 = 86_400;

fn row(id: i32, created: i64, meal: &str) -> InvoiceRow {
    InvoiceRow {
        id,
        price: 100 * id as i64,
        created_date: at(created),
        supplier_id: 10 + id,
        supplier_name: format!("supplier {}", id),
        meal: meal.to_string(),
    }
}

fn shown(id: i32, meal: &str) -> InvoiceDto {
    InvoiceDto {
        supplier: SupplierDto { id: 10 + id, name: format!("supplier {}", id) },
        price: 100 * id as i64,
        meal: meal.to_string(),
        invoice_id: id,
    }
}

fn label(day: i32, text: &str) -> DayLabel {
    DayLabel { day, text: text.to_string() }
}

#[test]
fn invoices_of_one_day_share_one_bucket() {
    let rows = vec![row(1, JAN_1 + 10 * HOUR, "Rice, Soup"), row(2, JAN_1 + 15 * HOUR, "Bread")];
    assert_eq!(
        group_invoices(rows),
        vec![InvoiceResponse {
            date: "2024-01-01".to_string(),
            invoices: vec![shown(1, "Rice, Soup"), shown(2, "Bread")],
        }]
    );
}

#[test]
fn buckets_ascend_by_date() {
    let rows = vec![
        row(1, JAN_1 + 2 * DAY, "c"),
        row(2, JAN_1, "a"),
        row(3, JAN_1 + 2 * DAY + HOUR, "d"),
        row(4, JAN_1 - DAY, "z"),
        row(5, JAN_1 + 23 * HOUR + 3_599, "b"),
    ];
    assert_eq!(
        group_invoices(rows),
        vec![
            InvoiceResponse { date: "2023-12-31".to_string(), invoices: vec![shown(4, "z")] },
            InvoiceResponse { date: "2024-01-01".to_string(), invoices: vec![shown(2, "a"), shown(5, "b")] },
            InvoiceResponse { date: "2024-01-03".to_string(), invoices: vec![shown(1, "c"), shown(3, "d")] },
        ]
    );
}

#[test]
fn report_of_no_rows_is_empty() {
    assert_eq!(group_invoices(Vec::new()), Vec::<InvoiceResponse>::new());
    assert_eq!(InvoiceService::get_invoice_report(Vec::new()), Vec::<InvoiceResponse>::new());
}

#[test]
fn report_entry_point_groups_the_rows() {
    let rows = vec![row(1, JAN_1, "a"), row(2, JAN_1 + DAY, "b"), row(3, JAN_1 + 1, "c")];
    let same = vec![row(1, JAN_1, "a"), row(2, JAN_1 + DAY, "b"), row(3, JAN_1 + 1, "c")];
    assert_eq!(InvoiceService::get_invoice_report(rows), group_invoices(same));
}

#[test]
fn buckets_ascend_by_the_text_of_the_date() {
    let far = 253_402_300_800;
    let rows = vec![row(1, JAN_1, "now"), row(2, far, "far"), row(3, -62_198_755_200, "old")];
    let dates: Vec<String> = group_invoices(rows).into_iter().map(|b| b.date).collect();
    assert_eq!(dates, vec!["+10000-01-01".to_string(), "-0001-01-01".to_string(), "2024-01-01".to_string()]);
}

#[test]
fn row_becomes_an_invoice_of_the_report() {
    assert_eq!(InvoiceDto::from(row(4, JAN_1, "Rice")), shown(4, "Rice"));
}

#[test]
fn days_are_labelled_once_in_the_order_of_the_rows() {
    let rows = vec![row(1, JAN_1 + DAY, "a"), row(2, JAN_1, "b"), row(3, JAN_1 + DAY + 5, "c")];
    assert_eq!(day_labels(&rows), vec![label(19_724, "2024-01-02"), label(19_723, "2024-01-01")]);
    assert_eq!(day_labels(&Vec::new()), Vec::<DayLabel>::new());
}

#[test]
fn labels_are_sorted_by_their_text() {
    let labels = vec![label(3, "c"), label(1, "a"), label(4, "b"), label(2, "a")];
    assert_eq!(sort_labels(&labels), vec![label(1, "a"), label(2, "a"), label(4, "b"), label(3, "c")]);
    assert_eq!(sort_labels(&Vec::new()), Vec::<DayLabel>::new());
}

#[test]
fn buckets_follow_the_labels() {
    let rows = vec![row(1, JAN_1, "a"), row(2, JAN_1 + DAY, "b"), row(3, JAN_1 + 7, "c")];
    let labels = vec![label(19_724, "second"), label(19_723, "first"), label(5, "none")];
    assert_eq!(
        buckets(&rows, &labels),
        vec![
            InvoiceResponse { date: "second".to_string(), invoices: vec![shown(2, "b")] },
            InvoiceResponse { date: "first".to_string(), invoices: vec![shown(1, "a"), shown(3, "c")] },
            InvoiceResponse { date: "none".to_string(), invoices: Vec::new() },
        ]
    );
}

#[test]
fn invoices_are_kept_under_their_day() {
    let rows = vec![row(1, JAN_1, "a"), row(2, JAN_1 + DAY, "b"), row(3, JAN_1 + 7, "c")];
    let (labels, by_day) = invoices_by_day(&rows);
    assert_eq!(labels, vec![label(19_723, "2024-01-01"), label(19_724, "2024-01-02")]);
    assert_eq!(by_day.len(), 2);
    assert_eq!(by_day.get(&19_723), Some(&vec![shown(1, "a"), shown(3, "c")]));
    assert_eq!(by_day.get(&19_724), Some(&vec![shown(2, "b")]));
    assert_eq!(by_day.get(&19_722), None);
    let picked = vec![label(19_724, "x"), label(1, "y"), label(19_724, "z")];
    assert_eq!(
        buckets_from(&by_day, &picked),
        vec![
            InvoiceResponse { date: "x".to_string(), invoices: vec![shown(2, "b")] },
            InvoiceResponse { date: "y".to_string(), invoices: Vec::new() },
            InvoiceResponse { date: "z".to_string(), invoices: vec![shown(2, "b")] },
        ]
    );
    assert_eq!(copy_invoices(&vec![shown(1, "a"), shown(2, "b")]), vec![shown(1, "a"), shown(2, "b")]);
    let (none, empty) = invoices_by_day(&Vec::new());
    assert!(none.is_empty() && empty.is_empty());
}

#[test]
fn filter_names_the_two_days() {
    let filter = InvoiceFilter { start_date: "2024-01-01".to_string(), end_date: "2024-01-31".to_string() };
    assert_eq!(filter.clone(), filter);
}
