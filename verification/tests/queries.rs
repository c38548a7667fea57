use canteen::query::{all_users_query, dated_invoice_report_query, indebt_query, invoice_report_query};
use canteen::text::is_date_shaped;

#[test]
fn query_for_the_debtors_of_a_group() {
    assert_eq!(
        indebt_query(3),
        "SELECT id, name, balance FROM \"user\" WHERE group_id = 3 AND is_active = true ORDER BY balance ASC"
    );
    assert_eq!(
        indebt_query(-12),
        "SELECT id, name, balance FROM \"user\" WHERE group_id = -12 AND is_active = true ORDER BY balance ASC"
    );
}

#[test]
fn query_for_the_invoice_report() {
    assert_eq!(
        invoice_report_query(1, "2024-01-01", "2024-01-31"),
        "SELECT invoice.id, price, created_date, u.id as supplier_id, u.name as supplier_name, \
         string_agg(DISTINCT p.name, ', ' ORDER BY p.name) as meal, supplier_id \
         FROM \"invoice\" \
         INNER JOIN invoice_details AS ind ON invoice.id = ind.invoice_id \
         INNER JOIN meal ON meal.id = invoice.meal_id \
         INNER JOIN meal_product AS mp ON meal.id = mp.meal_id \
         INNER JOIN product AS p ON p.id = mp.product_id \
         INNER JOIN supplier AS s ON s.id = supplier_id \
         INNER JOIN \"user\" AS u ON u.id = s.user_id \
         WHERE invoice.group_id = 1 AND is_deleted = false AND created_date::date BETWEEN '2024-01-01' and '2024-01-31' \
         GROUP BY invoice.id, price, created_date, u.name, meal.id, u.id, supplier_id"
    );
}

#[test]
fn query_for_all_users() {
    assert_eq!(all_users_query(), "SELECT * FROM \"user\"");
}

#[test]
fn report_query_takes_nothing_but_dates() {
    assert_eq!(
        dated_invoice_report_query(1, "2024-01-01", "2024-01-31"),
        Some(invoice_report_query(1, "2024-01-01", "2024-01-31"))
    );
    assert_eq!(dated_invoice_report_query(1, "2024-01-01' OR '1'='1", "2024-01-31"), None);
    assert_eq!(dated_invoice_report_query(1, "2024-01-01", "2024-1-31"), None);
    assert_eq!(dated_invoice_report_query(1, "", "2024-01-31"), None);
}

#[test]
fn date_has_four_two_and_two_digits() {
    assert!(is_date_shaped("2024-01-31"));
    assert!(is_date_shaped("0000-00-00"));
    assert!(is_date_shaped("9999-99-99"));
    assert!(!is_date_shaped("2024-01-3"));
    assert!(!is_date_shaped("2024-01-311"));
    assert!(!is_date_shaped("2024/01/31"));
    assert!(!is_date_shaped("2024-01_31"));
    assert!(!is_date_shaped("20a4-01-31"));
    assert!(!is_date_shaped("2024-0:-31"));
    assert!(!is_date_shaped("2024-01-3/"));
    assert!(!is_date_shaped("２０２４-01-31"));
    assert!(!is_date_shaped("-024-01-31"));
    assert!(!is_date_shaped(""));
    assert!(!is_date_shaped("'; DROP --"));
}
