use canteen::error::ServiceError;
use canteen::invoice_details::{
    BatchAction, BatchCreateInvoiceDetailsDto, BatchEvent, CreateInvoiceDetailsDto, InvoiceDetails,
    InvoiceDetailsDto, InvoiceDetailsService, NewInvoiceDetails,
};
use canteen::stock::{CreateStockDto, Stock, StockDto};

fn unit(product_id: i32) -> BatchAction {
    BatchAction::InsertStock(CreateStockDto { price: 0, consumed: false, product_id })
}

fn tie(invoice_id: i32, stock_id: i32) -> BatchAction {
    BatchAction::InsertDetails(NewInvoiceDetails { invoice_id, stock_id })
}

fn stored_unit(id: i32, product_id: i32) -> BatchEvent {
    BatchEvent::StockStored(Stock { id, price: 0, consumed: false, product_id })
}

fn stored_row(id: i32, invoice_id: i32, stock_id: i32) -> BatchEvent {
    BatchEvent::DetailsStored(InvoiceDetails { id, invoice_id, stock_id })
}

#[test]
fn each_product_gets_a_unit_of_stock_and_a_row() {
    let mut batch = InvoiceDetailsService::create_invoice_details_with_products(7, vec![5, 6]);
    assert_eq!(batch.action(), unit(5));
    assert_eq!(batch.step(stored_unit(31, 5)), tie(7, 31));
    assert_eq!(batch.step(stored_row(100, 7, 31)), unit(6));
    assert_eq!(batch.step(stored_unit(32, 6)), tie(7, 32));
    assert_eq!(batch.step(stored_row(101, 7, 32)), BatchAction::Stop);
    assert_eq!(
        batch.finish(),
        Ok(vec![
            InvoiceDetails { id: 100, invoice_id: 7, stock_id: 31 },
            InvoiceDetails { id: 101, invoice_id: 7, stock_id: 32 },
        ])
    );
}

#[test]
fn batch_without_products_asks_for_nothing() {
    let batch = InvoiceDetailsService::create_invoice_details_with_products(7, Vec::new());
    assert_eq!(batch.action(), BatchAction::Stop);
    assert_eq!(batch.finish(), Ok(Vec::new()));
}

#[test]
fn failed_write_ends_the_batch_and_keeps_what_was_stored() {
    let mut batch = InvoiceDetailsService::create_invoice_details_with_products(7, vec![5, 6, 8]);
    batch.step(stored_unit(31, 5));
    batch.step(stored_row(100, 7, 31));
    assert_eq!(batch.step(stored_unit(32, 6)), tie(7, 32));
    assert_eq!(batch.step(BatchEvent::Failed("connection lost".to_string())), BatchAction::Stop);
    assert_eq!(batch.created, vec![InvoiceDetails { id: 100, invoice_id: 7, stock_id: 31 }]);
    assert_eq!(batch.step(stored_row(101, 7, 32)), BatchAction::Stop);
    assert_eq!(batch.created.len(), 1);
    assert_eq!(batch.finish(), Err(ServiceError::StoreError("connection lost".to_string())));
}

#[test]
fn failed_first_write_stores_nothing() {
    let mut batch = InvoiceDetailsService::create_invoice_details_with_products(7, vec![5]);
    assert_eq!(batch.step(BatchEvent::Failed("no table".to_string())), BatchAction::Stop);
    assert_eq!(batch.created, Vec::new());
    assert_eq!(batch.finish(), Err(ServiceError::StoreError("no table".to_string())));
}

#[test]
fn answer_to_what_was_not_asked_changes_nothing() {
    let mut batch = InvoiceDetailsService::create_invoice_details_with_products(7, vec![5]);
    let before = batch.clone();
    assert_eq!(batch.step(stored_row(100, 7, 31)), unit(5));
    assert_eq!(batch, before);
    batch.step(stored_unit(31, 5));
    let waiting = batch.clone();
    assert_eq!(batch.step(stored_unit(32, 5)), tie(7, 31));
    assert_eq!(batch, waiting);
    assert_eq!(batch.step(stored_row(100, 7, 31)), BatchAction::Stop);
    let done = batch.clone();
    assert_eq!(batch.step(BatchEvent::Failed("late".to_string())), BatchAction::Stop);
    assert_eq!(batch.step(stored_unit(33, 5)), BatchAction::Stop);
    assert_eq!(batch, done);
    assert_eq!(batch.finish(), Ok(vec![InvoiceDetails { id: 100, invoice_id: 7, stock_id: 31 }]));
}

#[test]
fn details_records_hold_their_fields() {
    let request = BatchCreateInvoiceDetailsDto { invoice_id: 7, product_ids: vec![5, 6] };
    assert_eq!(request.product_ids.len(), 2);
    assert_eq!(InvoiceDetailsDto { invoice_id: 7, product_id: 5 }.product_id, 5);
    assert_eq!(CreateInvoiceDetailsDto { invoice_id: 7, product_id: 5 }.invoice_id, 7);
    assert_eq!(
        StockDto::from(Stock { id: 1, price: 20, consumed: true, product_id: 5 }),
        StockDto { id: 1, price: 20, consumed: true, product_id: 5 }
    );
}
