use canteen::calendar::Timestamp;
use canteen::error::ServiceError;
use canteen::group::Group;
use canteen::invoice::{CreateInvoiceDto, InvoiceService, InvoiceWrites, MealName, Model, WeeklyInvoiceDto};
use canteen::meal::Meal;
use canteen::supplier::{Supplier, SupplierService};

fn at(seconds: i64) -> Timestamp {
    Timestamp::new(seconds, 0).unwrap()
}

const NOW: i64 = 1_704_103_200;
const DAY: i64 = 86_400;

fn groups() -> Vec<Group> {
    vec![Group { id: 1, name: "kitchen".to_string(), is_public: true }]
}

fn suppliers() -> Vec<Supplier> {
    vec![Supplier { id: 1, balance: 0, user_id: 4 }]
}

/// Storage as far as a new invoice reads and writes it.
struct Store {
    meals: Vec<Meal>,
    invoices: Vec<Model>,
    next_meal_id: i32,
}

impl Store {
    fn create_invoice(&mut self, price: i64, group_id: i32, supplier_id: i32, product_ids: &Vec<i32>, now: Timestamp) -> Result<Model, ServiceError> {
        let writes = InvoiceService::create_invoice(
            &groups(),
            &suppliers(),
            &self.meals,
            price,
            group_id,
            supplier_id,
            product_ids,
            self.next_meal_id,
            now,
        )?;
        if !writes.meals.is_empty() {
            self.next_meal_id += 1;
        }
        self.meals.extend(writes.meals);
        let draft = writes.invoice;
        let invoice = Model {
            id: self.invoices.len() as i32 + 1,
            price: draft.price,
            is_deleted: draft.is_deleted,
            deleted_by: draft.deleted_by,
            created_date: draft.created_date,
            last_modification_date: draft.last_modification_date,
            meal_id: draft.meal_id,
            group_id: draft.group_id,
            supplier_id: draft.supplier_id,
        };
        self.invoices.push(invoice);
        Ok(invoice)
    }
}

#[test]
fn first_invoice_creates_the_meal_and_the_second_reuses_it() {
    let mut store = Store { meals: vec![Meal { id: 1, product_id: 5 }], invoices: Vec::new(), next_meal_id: 2 };
    let first = store.create_invoice(250, 1, 1, &vec![5, 6], at(NOW)).unwrap();
    assert_eq!(
        store.meals,
        vec![Meal { id: 1, product_id: 5 }, Meal { id: 2, product_id: 5 }, Meal { id: 2, product_id: 6 }]
    );
    assert_eq!(
        first,
        Model {
            id: 1,
            price: 250,
            is_deleted: false,
            deleted_by: 0,
            created_date: at(NOW),
            last_modification_date: at(NOW),
            meal_id: 2,
            group_id: 1,
            supplier_id: 1,
        }
    );
    let second = store.create_invoice(300, 1, 1, &vec![5, 6], at(NOW + 60)).unwrap();
    assert_eq!(store.meals.len(), 3);
    assert_eq!(second.meal_id, 2);
    assert_eq!(store.invoices.len(), 2);
    let third = store.create_invoice(300, 1, 1, &vec![6, 5], at(NOW + 120)).unwrap();
    assert_eq!(store.meals.len(), 3);
    assert_eq!(third.meal_id, 2);
    let other = store.create_invoice(10, 1, 1, &vec![5], at(NOW + 180)).unwrap();
    assert_eq!(store.meals.len(), 3);
    assert_eq!(other.meal_id, 1);
}

#[test]
fn invoice_for_a_new_meal_writes_its_rows_first() {
    let writes = InvoiceService::create_invoice(&groups(), &suppliers(), &Vec::new(), 99, 1, 1, &vec![5, 6], 40, at(NOW));
    assert_eq!(
        writes,
        Ok(InvoiceWrites {
            meals: vec![Meal { id: 40, product_id: 5 }, Meal { id: 40, product_id: 6 }],
            invoice: CreateInvoiceDto {
                price: 99,
                is_deleted: false,
                deleted_by: 0,
                created_date: at(NOW),
                last_modification_date: at(NOW),
                meal_id: 40,
                group_id: 1,
                supplier_id: 1,
            },
        })
    );
}

#[test]
fn invoice_for_a_stored_meal_writes_no_meal_rows() {
    let meals = vec![Meal { id: 3, product_id: 6 }, Meal { id: 3, product_id: 5 }];
    let writes = InvoiceService::create_invoice(&groups(), &suppliers(), &meals, 99, 1, 1, &vec![5, 6], 40, at(NOW)).unwrap();
    assert_eq!(writes.meals, Vec::<Meal>::new());
    assert_eq!(writes.invoice.meal_id, 3);
}

#[test]
fn invoice_for_a_missing_group_is_refused() {
    assert_eq!(
        InvoiceService::create_invoice(&groups(), &suppliers(), &Vec::new(), 99, 2, 1, &vec![5], 40, at(NOW)),
        Err(ServiceError::ReferenceNotFound("group does not exist".to_string()))
    );
    assert_eq!(
        InvoiceService::create_invoice(&groups(), &suppliers(), &Vec::new(), 99, 2, 2, &vec![5], 40, at(NOW)),
        Err(ServiceError::ReferenceNotFound("group does not exist".to_string()))
    );
}

#[test]
fn invoice_for_a_missing_supplier_is_refused() {
    assert_eq!(
        InvoiceService::create_invoice(&groups(), &suppliers(), &Vec::new(), 99, 1, 2, &vec![5], 40, at(NOW)),
        Err(ServiceError::ReferenceNotFound("supplier does not exist".to_string()))
    );
    assert!(SupplierService::exists_by_id(&suppliers(), 1));
    assert!(!SupplierService::exists_by_id(&suppliers(), 2));
}

fn invoice(id: i32, created: Timestamp, meal_id: i32, group_id: i32) -> Model {
    Model {
        id,
        price: 10,
        is_deleted: false,
        deleted_by: 0,
        created_date: created,
        last_modification_date: created,
        meal_id,
        group_id,
        supplier_id: 1,
    }
}

fn names() -> Vec<MealName> {
    vec![
        MealName { meal_id: 1, name: "Rice, Soup".to_string() },
        MealName { meal_id: 2, name: "Bread".to_string() },
    ]
}

fn line(id: i32, weekday: &str, meal: &str, created: Timestamp) -> WeeklyInvoiceDto {
    WeeklyInvoiceDto { id, weekday: weekday.to_string(), meal: meal.to_string(), created_date: created }
}

#[test]
fn invoice_of_seven_days_ago_is_in_the_digest_and_of_eight_days_ago_is_not() {
    let invoices = vec![
        invoice(1, at(NOW - 7 * DAY), 1, 1),
        invoice(2, at(NOW - 8 * DAY), 1, 1),
        invoice(3, at(NOW - 7 * DAY - 1), 1, 1),
        invoice(4, at(NOW), 2, 1),
        invoice(5, at(NOW + 1), 2, 1),
    ];
    assert_eq!(
        InvoiceService::get_invoices_weekly(&invoices, &names(), 1, at(NOW)),
        Ok(vec![
            line(1, "Monday", "Rice, Soup", at(NOW - 7 * DAY)),
            line(4, "Monday", "Bread", at(NOW)),
        ])
    );
}

#[test]
fn digest_holds_the_invoices_of_the_group_in_their_order() {
    let invoices = vec![
        invoice(1, at(NOW - DAY), 2, 1),
        invoice(2, at(NOW - 2 * DAY), 1, 2),
        invoice(3, at(NOW - 3 * DAY), 1, 1),
        invoice(4, at(NOW - 6 * DAY), 2, 1),
    ];
    assert_eq!(
        InvoiceService::get_invoices_weekly(&invoices, &names(), 1, at(NOW)),
        Ok(vec![
            line(1, "Sunday", "Bread", at(NOW - DAY)),
            line(3, "Friday", "Rice, Soup", at(NOW - 3 * DAY)),
            line(4, "Tuesday", "Bread", at(NOW - 6 * DAY)),
        ])
    );
    assert_eq!(InvoiceService::get_invoices_weekly(&invoices, &names(), 3, at(NOW)), Ok(Vec::new()));
    assert_eq!(InvoiceService::get_invoices_weekly(&Vec::new(), &names(), 1, at(NOW)), Ok(Vec::new()));
}

#[test]
fn digest_of_an_invoice_without_a_meal_name_is_refused() {
    let invoices = vec![invoice(1, at(NOW - DAY), 2, 1), invoice(2, at(NOW - DAY), 9, 1)];
    assert_eq!(
        InvoiceService::get_invoices_weekly(&invoices, &names(), 1, at(NOW)),
        Err(ServiceError::ReferenceNotFound("meal does not exist".to_string()))
    );
    let outside = vec![invoice(1, at(NOW - DAY), 2, 1), invoice(2, at(NOW - 9 * DAY), 9, 1), invoice(3, at(NOW), 9, 2)];
    assert_eq!(
        InvoiceService::get_invoices_weekly(&outside, &names(), 1, at(NOW)),
        Ok(vec![line(1, "Sunday", "Bread", at(NOW - DAY))])
    );
}
