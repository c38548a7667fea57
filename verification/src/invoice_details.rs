//! Invoice details: for each product of an invoice a new unit of stock is
//! stored, and a row that ties the unit to the invoice.
//!
//! Storage gives each unit its id, so the rows are written one after the
//! other: a `DetailsBatch` says what to write next and takes in what
//! storage answered. Nothing is taken back where a later write fails.

use vstd::prelude::*;
use crate::error::{ServiceError, ServiceErrorView};
use crate::model::Row;
use crate::stock::{CreateStockDto, Stock};

verus! {

/// A stored row that ties a unit of stock to an invoice.
#[derive(Debug, Clone, Copy, PartialEq, Eq, Structural)]
pub struct InvoiceDetails {
    pub id: i32,
    pub invoice_id: i32,
    pub stock_id: i32,
}

impl Row for InvoiceDetails {
    open spec fn row_id(&self) -> i32 {
        self.id
    }

    fn id(&self) -> (id: i32) {
        self.id
    }
}

/// A product of an invoice as the service shows it.
#[derive(Debug, Clone, Copy, PartialEq, Eq, Structural)]
pub struct InvoiceDetailsDto {
    pub invoice_id: i32,
    pub product_id: i32,
}

/// A product that is to be added to an invoice.
#[derive(Debug, Clone, Copy, PartialEq, Eq, Structural)]
pub struct CreateInvoiceDetailsDto {
    pub invoice_id: i32,
    pub product_id: i32,
}

/// The products that are to be added to an invoice in one go.
#[derive(Debug, Clone, PartialEq, Eq)]
pub struct BatchCreateInvoiceDetailsDto {
    pub invoice_id: i32,
    pub product_ids: Vec<i32>,
}

/// A row that ties a unit of stock to an invoice and is to be stored:
/// storage gives it its id.
#[derive(Debug, Clone, Copy, PartialEq, Eq, Structural)]
pub struct NewInvoiceDetails {
    pub invoice_id: i32,
    pub stock_id: i32,
}

/// What storage is asked to do next.
#[derive(Debug, Clone, Copy, PartialEq, Eq, Structural)]
pub enum BatchAction {
    /// Store this unit of stock, and answer with the stored row.
    InsertStock(CreateStockDto),
    /// Store this row, and answer with the stored row.
    InsertDetails(NewInvoiceDetails),
    /// Nothing: every product has its rows, or a write has failed.
    Stop,
}

/// What storage answered.
#[derive(Debug, Clone, PartialEq, Eq)]
pub enum BatchEvent {
    StockStored(Stock),
    DetailsStored(InvoiceDetails),
    Failed(String),
}

/// The mathematical value of a `BatchEvent`.
pub enum BatchEventView {
    StockStored(Stock),
    DetailsStored(InvoiceDetails),
    Failed(Seq<char>),
}

impl View for BatchEvent {
    type V = BatchEventView;

    open spec fn view(&self) -> BatchEventView {
        match self {
            BatchEvent::StockStored(s) => BatchEventView::StockStored(*s),
            BatchEvent::DetailsStored(d) => BatchEventView::DetailsStored(*d),
            BatchEvent::Failed(m) => BatchEventView::Failed(m@),
        }
    }
}

/// How far the rows of an invoice's products have been written.
#[derive(Debug, Clone, PartialEq, Eq)]
pub struct DetailsBatch {
    pub invoice_id: i32,
    pub product_ids: Vec<i32>,
    /// The rows that are stored, one for each product so far.
    pub created: Vec<InvoiceDetails>,
    /// The unit of stock that is stored and has no row yet.
    pub stock: Option<Stock>,
    /// The message of the write that failed.
    pub failure: Option<String>,
}

/// The mathematical value of a `DetailsBatch`.
pub struct BatchView {
    pub invoice_id: i32,
    pub product_ids: Seq<i32>,
    pub created: Seq<InvoiceDetails>,
    pub stock: Option<Stock>,
    pub failure: Option<Seq<char>>,
}

impl View for DetailsBatch {
    type V = BatchView;

    open spec fn view(&self) -> BatchView {
        BatchView {
            invoice_id: self.invoice_id,
            product_ids: self.product_ids@,
            created: self.created@,
            stock: self.stock,
            failure: match self.failure {
                Some(m) => Some(m@),
                None => None,
            },
        }
    }
}

/// The unit of stock that is stored for a product of an invoice: without
/// a price, and not consumed.
pub open spec fn new_stock(product_id: i32) -> CreateStockDto {
    CreateStockDto { price: 0, consumed: false, product_id }
}

impl BatchView {
    /// The batch at its start: nothing is stored.
    pub open spec fn start(invoice_id: i32, product_ids: Seq<i32>) -> BatchView {
        BatchView { invoice_id, product_ids, created: Seq::empty(), stock: None, failure: None }
    }

    /// What storage is asked to do next: nothing after a failure or when
    /// every product has its rows; else the row for the unit of stock that
    /// is stored and has none; else a unit of stock for the next product.
    pub open spec fn action(self) -> BatchAction {
        if self.failure is Some || self.created.len() >= self.product_ids.len() {
            BatchAction::Stop
        } else if self.stock is Some {
            BatchAction::InsertDetails(
                NewInvoiceDetails { invoice_id: self.invoice_id, stock_id: self.stock->0.id },
            )
        } else {
            BatchAction::InsertStock(new_stock(self.product_ids[self.created.len() as int]))
        }
    }

    /// The batch after storage answered `event`. A stored unit of stock
    /// is kept where one was asked for; a stored row is added where one
    /// was asked for; a failure is kept where something was asked for. An
    /// answer to what was not asked changes nothing.
    pub open spec fn after(self, event: BatchEventView) -> BatchView {
        match (self.action(), event) {
            (BatchAction::InsertStock(_), BatchEventView::StockStored(stock)) => BatchView {
                stock: Some(stock),
                ..self
            },
            (BatchAction::InsertDetails(_), BatchEventView::DetailsStored(row)) => BatchView {
                created: self.created.push(row),
                stock: None,
                ..self
            },
            (BatchAction::InsertStock(_), BatchEventView::Failed(message)) => BatchView {
                failure: Some(message),
                ..self
            },
            (BatchAction::InsertDetails(_), BatchEventView::Failed(message)) => BatchView {
                failure: Some(message),
                ..self
            },
            _ => self,
        }
    }

    /// What the batch came to, once there is nothing more to do: the
    /// message of the failed write, else the stored rows.
    pub open spec fn result(self) -> Result<Seq<InvoiceDetails>, ServiceErrorView> {
        match self.failure {
            Some(message) => Err(ServiceErrorView::StoreError(message)),
            None => Ok(self.created),
        }
    }
}

/// The batch after storage stored, for one product after the other, the
/// unit of stock `stocks[i]` and then the row `rows[i]`.
pub open spec fn served(batch: BatchView, stocks: Seq<Stock>, rows: Seq<InvoiceDetails>) -> BatchView
    decreases stocks.len(),
{
    if stocks.len() == 0 || rows.len() != stocks.len() {
        batch
    } else {
        served(batch, stocks.drop_last(), rows.drop_last()).after(
            BatchEventView::StockStored(stocks.last()),
        ).after(BatchEventView::DetailsStored(rows.last()))
    }
}

/// While storage stores what it is asked to, the batch asks for one unit
/// of stock for each product in turn, without a price and not consumed,
/// and then for the row that ties that unit to the invoice; it keeps the
/// stored rows in their order, and stops after the last product with
/// these rows as its result.
pub proof fn lemma_batch_stores_each_product(
    invoice_id: i32,
    product_ids: Seq<i32>,
    stocks: Seq<Stock>,
    rows: Seq<InvoiceDetails>,
)
    requires
        stocks.len() == rows.len() <= product_ids.len(),
    ensures
        ({
            let batch = served(BatchView::start(invoice_id, product_ids), stocks, rows);
            &&& batch.created == rows
            &&& batch.failure is None
            &&& batch.invoice_id == invoice_id
            &&& batch.product_ids == product_ids
            &&& rows.len() < product_ids.len() ==> batch.action() == BatchAction::InsertStock(
                new_stock(product_ids[rows.len() as int]),
            )
            &&& rows.len() < product_ids.len() ==> forall|stock: Stock|
                #[trigger] batch.after(BatchEventView::StockStored(stock)).action()
                    == BatchAction::InsertDetails(
                    NewInvoiceDetails { invoice_id, stock_id: stock.id },
                )
            &&& rows.len() == product_ids.len() ==> batch.action() == BatchAction::Stop
                && batch.result() == Ok::<Seq<InvoiceDetails>, ServiceErrorView>(rows)
        }),
    decreases stocks.len(),
{
    let start = BatchView::start(invoice_id, product_ids);
    if stocks.len() == 0 {
        assert(rows =~= Seq::<InvoiceDetails>::empty());
    } else {
        lemma_batch_stores_each_product(
            invoice_id,
            product_ids,
            stocks.drop_last(),
            rows.drop_last(),
        );
        let before = served(start, stocks.drop_last(), rows.drop_last());
        let between = before.after(BatchEventView::StockStored(stocks.last()));
        let batch = between.after(BatchEventView::DetailsStored(rows.last()));
        assert(batch == served(start, stocks, rows));
        assert(batch.created =~= rows);
    }
}

/// A write that fails ends the batch: nothing more is asked of storage,
/// the result is the failure's message as a `StoreError`, and the rows
/// that were stored before stay in the batch.
pub proof fn lemma_failure_ends_batch(batch: BatchView, message: Seq<char>)
    requires
        batch.action() != BatchAction::Stop,
    ensures
        ({
            let failed = batch.after(BatchEventView::Failed(message));
            &&& failed.action() == BatchAction::Stop
            &&& failed.result() == Err::<Seq<InvoiceDetails>, ServiceErrorView>(
                ServiceErrorView::StoreError(message),
            )
            &&& failed.created == batch.created
        }),
{
}

pub struct InvoiceDetailsService;

impl InvoiceDetailsService {
    /// Starts the writing of the rows for the products `product_ids` of
    /// the invoice `invoice_id`.
    pub fn create_invoice_details_with_products(invoice_id: i32, product_ids: Vec<i32>) -> (batch:
        DetailsBatch)
        ensures
            batch@ == BatchView::start(invoice_id, product_ids@),
    {
        DetailsBatch { invoice_id, product_ids, created: Vec::new(), stock: None, failure: None }
    }
}

impl DetailsBatch {
    /// What storage is asked to do next.
    pub fn action(&self) -> (next: BatchAction)
        ensures
            next == self@.action(),
    {
        if self.failure.is_some() || self.created.len() >= self.product_ids.len() {
            return BatchAction::Stop;
        }
        match self.stock {
            Some(stock) => BatchAction::InsertDetails(
                NewInvoiceDetails { invoice_id: self.invoice_id, stock_id: stock.id },
            ),
            None => BatchAction::InsertStock(
                CreateStockDto {
                    price: 0,
                    consumed: false,
                    product_id: self.product_ids[self.created.len()],
                },
            ),
        }
    }

    /// Takes in what storage answered, and says what to do next.
    pub fn step(&mut self, event: BatchEvent) -> (next: BatchAction)
        ensures
            final(self)@ == old(self)@.after(event@),
            next == final(self)@.action(),
    {
        let asked = self.action();
        match (asked, event) {
            (BatchAction::InsertStock(_), BatchEvent::StockStored(stock)) => {
                self.stock = Some(stock);
            },
            (BatchAction::InsertDetails(_), BatchEvent::DetailsStored(row)) => {
                self.created.push(row);
                self.stock = None;
            },
            (BatchAction::InsertStock(_), BatchEvent::Failed(message)) => {
                self.failure = Some(message);
            },
            (BatchAction::InsertDetails(_), BatchEvent::Failed(message)) => {
                self.failure = Some(message);
            },
            _ => {},
        }
        self.action()
    }

    /// What the batch came to: the message of the failed write as a
    /// `StoreError`, else the stored rows. The rows that were stored
    /// before a failure stay stored.
    pub fn finish(self) -> (r: Result<Vec<InvoiceDetails>, ServiceError>)
        ensures
            match r {
                Ok(rows) => self@.result() == Ok::<Seq<InvoiceDetails>, ServiceErrorView>(rows@),
                Err(e) => self@.result() == Err::<Seq<InvoiceDetails>, ServiceErrorView>(e@),
            },
    {
        match self.failure {
            Some(message) => Err(ServiceError::store(message)),
            None => Ok(self.created),
        }
    }
}

} // verus!
