//! The order placement engine, for a store that is reached by asking.
//!
//! An `OrderPlacement` never touches a store. It says what to ask of the store
//! next, takes the answer, and moves on: from validating the lines, through
//! resolving the address and the payment record, to storing the order inside one
//! transaction. Whoever drives it performs each request and hands back the reply.

use vstd::prelude::*;
use vstd::string::*;
use crate::calendar::Date;
use crate::db::cart::{enough_stock, is_enough_stock};
use crate::db::error::{OrderError, StateError, StorageError};
use crate::db::order::{no_customer, reports, Fault};
use crate::schema::entities::{Customer, PostgresInt, ISBN};
use crate::schema::no_id::{Address, PaymentInfo};

verus! {

/// One thing the engine asks of the store.
#[derive(Debug, Clone, PartialEq, Eq)]
pub enum OrderRequest {
    /// Read the stock of a book. Answered by `Stock`.
    StockOf { isbn: ISBN },
    /// Look for an address with this content. Answered by `Found`.
    FindAddress { address: Address },
    /// Store this address as a new row. Answered by `Inserted`.
    InsertAddress { address: Address },
    /// Read a customer's row. Answered by `Customer`.
    LoadCustomer { customer_id: PostgresInt },
    /// Look for a payment record with this content and billing address. Answered by
    /// `Found`.
    FindPaymentInfo { payment_info: PaymentInfo, billing_address_id: PostgresInt },
    /// Store this payment record as a new row. Answered by `Inserted`.
    InsertPaymentInfo { payment_info: PaymentInfo, billing_address_id: PostgresInt },
    /// Open a transaction. Answered by `Done`.
    Begin,
    /// Store the order row, with the status of a new order. Answered by `Inserted`.
    InsertOrder {
        customer_id: PostgresInt,
        shipping_address_id: PostgresInt,
        payment_info_id: PostgresInt,
        tracking_number: String,
        order_date: Date,
    },
    /// Store a line item. Answered by `Done`.
    InsertOrderLine { order_id: PostgresInt, isbn: ISBN, quantity: u32 },
    /// Lower the stock of a book by a quantity, but only if the stock is at least
    /// that quantity. Answered by `Done`, or by `Refused` where it is not.
    TakeStock { isbn: ISBN, quantity: u32 },
    /// Delete every line of the customer's cart. Answered by `Done`.
    ClearCart { customer_id: PostgresInt },
    /// Commit the transaction. Answered by `Done`.
    Commit,
    /// Roll the transaction back. Answered by `Done`.
    Rollback,
}

/// What the store answers.
#[derive(Debug, Clone, PartialEq, Eq)]
pub enum OrderReply {
    /// The stock of the book asked for.
    Stock(PostgresInt),
    /// The identifier of the row looked for, if there is one.
    Found(Option<PostgresInt>),
    /// The identifier of the row that was stored.
    Inserted(PostgresInt),
    /// The customer's row, if there is one.
    Customer(Option<Customer>),
    /// The request was carried out.
    Done,
    /// The stock was too low to be taken from.
    Refused,
    /// The store failed.
    Failed(StorageError),
}

/// The stages of an attempt to place an order.
#[derive(Debug, Clone, Copy, PartialEq, Eq, Structural)]
pub enum OrderStage {
    Validating,
    ResolvingAddress,
    ResolvingPayment,
    Persisting,
    DecrementingStock,
    ClearingCart,
    /// The order is stored.
    Committed,
    /// The transaction is being rolled back after a failure.
    Aborting,
    /// The order is not placed.
    Failed,
}

/// Where exactly an attempt stands: which request is out.
#[derive(Debug, Clone, Copy, PartialEq, Eq, Structural)]
pub enum Step {
    /// The stock of line `line` is being read.
    Validating { line: usize },
    /// The submitted shipping address is being looked for.
    FindingShipping,
    /// The submitted shipping address is being stored.
    InsertingShipping,
    /// The customer is being read for the registered shipping address.
    LoadingShipping,
    /// The submitted billing address is being looked for.
    FindingBilling { shipping: PostgresInt },
    /// The submitted billing address is being stored.
    InsertingBilling { shipping: PostgresInt },
    /// The submitted payment record is being looked for.
    FindingPayment { shipping: PostgresInt, billing: PostgresInt },
    /// The submitted payment record is being stored.
    InsertingPayment { shipping: PostgresInt, billing: PostgresInt },
    /// The customer is being read for the registered payment record.
    LoadingPayment { shipping: PostgresInt },
    /// The transaction is being opened.
    Beginning { shipping: PostgresInt, payment: PostgresInt },
    /// The order row is being stored.
    Persisting { shipping: PostgresInt, payment: PostgresInt },
    /// The line item of line `line` is being stored.
    InsertingLine { order: PostgresInt, line: usize },
    /// The books of line `line` are being taken out of stock.
    TakingStock { order: PostgresInt, line: usize },
    /// The cart is being emptied.
    ClearingCart { order: PostgresInt },
    /// The transaction is being committed.
    Committing { order: PostgresInt },
    /// The transaction is being rolled back.
    RollingBack,
    /// The order is stored.
    Committed { order: PostgresInt },
    /// The order is not placed.
    Failed,
}

/// An attempt to place an order, as contracts see it: what was asked for, where
/// the attempt stands, and what went wrong, if anything.
pub struct OrderProgress {
    pub customer_id: PostgresInt,
    pub lines: Seq<(ISBN, u32)>,
    pub address: Option<Address>,
    pub payment_info: Option<PaymentInfo>,
    pub tracking_number: String,
    pub order_date: Date,
    pub step: Step,
    pub fault: Option<Fault>,
}

impl OrderProgress {
    /// The step that resolving the shipping address starts with.
    pub open spec fn shipping_step(self) -> Step {
        if self.address is Some {
            Step::FindingShipping
        } else {
            Step::LoadingShipping
        }
    }

    /// The step that resolving the payment record starts with, once the order ships
    /// to `shipping`.
    pub open spec fn payment_step(self, shipping: PostgresInt) -> Step {
        if self.payment_info is Some {
            Step::FindingBilling { shipping }
        } else {
            Step::LoadingPayment { shipping }
        }
    }

    /// The step that follows line `line` in validation.
    pub open spec fn after_validating(self, line: usize) -> Step {
        if line + 1 < self.lines.len() {
            Step::Validating { line: (line + 1) as usize }
        } else {
            self.shipping_step()
        }
    }

    /// The step that follows line `line` once its stock was taken.
    pub open spec fn after_taking(self, order: PostgresInt, line: usize) -> Step {
        if line + 1 < self.lines.len() {
            Step::InsertingLine { order, line: (line + 1) as usize }
        } else {
            Step::ClearingCart { order }
        }
    }

    /// The attempt at its start.
    pub open spec fn start(
        customer_id: PostgresInt,
        lines: Seq<(ISBN, u32)>,
        address: Option<Address>,
        payment_info: Option<PaymentInfo>,
        tracking_number: String,
        order_date: Date,
    ) -> OrderProgress {
        let blank = OrderProgress {
            customer_id,
            lines,
            address,
            payment_info,
            tracking_number,
            order_date,
            step: Step::Failed,
            fault: None,
        };
        OrderProgress {
            step: if lines.len() > 0 {
                Step::Validating { line: 0 }
            } else {
                blank.shipping_step()
            },
            ..blank
        }
    }

    /// What holds of every attempt: a line that is being worked on exists, what is
    /// being looked for or stored was submitted, an attempt has a fault exactly when
    /// it failed or is rolling back, and the lines can be counted.
    pub open spec fn wf(self) -> bool {
        &&& match self.step {
            Step::Validating { line } => line < self.lines.len(),
            Step::InsertingLine { line, .. } => line < self.lines.len(),
            Step::TakingStock { line, .. } => line < self.lines.len(),
            Step::FindingShipping => self.address is Some,
            Step::InsertingShipping => self.address is Some,
            Step::FindingBilling { .. } => self.payment_info is Some,
            Step::InsertingBilling { .. } => self.payment_info is Some,
            Step::FindingPayment { .. } => self.payment_info is Some,
            Step::InsertingPayment { .. } => self.payment_info is Some,
            _ => true,
        }
        &&& self.fault is Some <==> (self.step is Failed || self.step is RollingBack)
        &&& self.lines.len() <= usize::MAX
    }

    /// Whether the attempt is over.
    pub open spec fn finished(self) -> bool {
        self.step is Committed || self.step is Failed
    }

    /// Whether a transaction is open.
    pub open spec fn in_transaction(self) -> bool {
        match self.step {
            Step::Persisting { .. } => true,
            Step::InsertingLine { .. } => true,
            Step::TakingStock { .. } => true,
            Step::ClearingCart { .. } => true,
            Step::Committing { .. } => true,
            Step::RollingBack => true,
            _ => false,
        }
    }

    /// The stage the attempt is in.
    pub open spec fn stage(self) -> OrderStage {
        match self.step {
            Step::Validating { .. } => OrderStage::Validating,
            Step::FindingShipping => OrderStage::ResolvingAddress,
            Step::InsertingShipping => OrderStage::ResolvingAddress,
            Step::LoadingShipping => OrderStage::ResolvingAddress,
            Step::FindingBilling { .. } => OrderStage::ResolvingPayment,
            Step::InsertingBilling { .. } => OrderStage::ResolvingPayment,
            Step::FindingPayment { .. } => OrderStage::ResolvingPayment,
            Step::InsertingPayment { .. } => OrderStage::ResolvingPayment,
            Step::LoadingPayment { .. } => OrderStage::ResolvingPayment,
            Step::Beginning { .. } => OrderStage::Persisting,
            Step::Persisting { .. } => OrderStage::Persisting,
            Step::InsertingLine { .. } => OrderStage::DecrementingStock,
            Step::TakingStock { .. } => OrderStage::DecrementingStock,
            Step::ClearingCart { .. } => OrderStage::ClearingCart,
            Step::Committing { .. } => OrderStage::ClearingCart,
            Step::RollingBack => OrderStage::Aborting,
            Step::Committed { .. } => OrderStage::Committed,
            Step::Failed => OrderStage::Failed,
        }
    }

    /// What the attempt asks of the store next; nothing once it is over.
    pub open spec fn request(self) -> Option<OrderRequest> {
        match self.step {
            Step::Validating { line } => Some(OrderRequest::StockOf { isbn: self.lines[line as int].0 }),
            Step::FindingShipping => Some(OrderRequest::FindAddress { address: self.address->0 }),
            Step::InsertingShipping => Some(OrderRequest::InsertAddress { address: self.address->0 }),
            Step::LoadingShipping => Some(OrderRequest::LoadCustomer { customer_id: self.customer_id }),
            Step::FindingBilling { .. } => Some(
                OrderRequest::FindAddress { address: self.payment_info->0.billing_address },
            ),
            Step::InsertingBilling { .. } => Some(
                OrderRequest::InsertAddress { address: self.payment_info->0.billing_address },
            ),
            Step::FindingPayment { billing, .. } => Some(
                OrderRequest::FindPaymentInfo {
                    payment_info: self.payment_info->0,
                    billing_address_id: billing,
                },
            ),
            Step::InsertingPayment { billing, .. } => Some(
                OrderRequest::InsertPaymentInfo {
                    payment_info: self.payment_info->0,
                    billing_address_id: billing,
                },
            ),
            Step::LoadingPayment { .. } => Some(OrderRequest::LoadCustomer { customer_id: self.customer_id }),
            Step::Beginning { .. } => Some(OrderRequest::Begin),
            Step::Persisting { shipping, payment } => Some(
                OrderRequest::InsertOrder {
                    customer_id: self.customer_id,
                    shipping_address_id: shipping,
                    payment_info_id: payment,
                    tracking_number: self.tracking_number,
                    order_date: self.order_date,
                },
            ),
            Step::InsertingLine { order, line } => Some(
                OrderRequest::InsertOrderLine {
                    order_id: order,
                    isbn: self.lines[line as int].0,
                    quantity: self.lines[line as int].1,
                },
            ),
            Step::TakingStock { line, .. } => Some(
                OrderRequest::TakeStock {
                    isbn: self.lines[line as int].0,
                    quantity: self.lines[line as int].1,
                },
            ),
            Step::ClearingCart { .. } => Some(OrderRequest::ClearCart { customer_id: self.customer_id }),
            Step::Committing { .. } => Some(OrderRequest::Commit),
            Step::RollingBack => Some(OrderRequest::Rollback),
            Step::Committed { .. } => None,
            Step::Failed => None,
        }
    }

    /// The attempt after a fault: inside a transaction it rolls back first.
    pub open spec fn failing(self, fault: Fault) -> OrderProgress {
        OrderProgress {
            step: if self.in_transaction() {
                Step::RollingBack
            } else {
                Step::Failed
            },
            fault: Some(fault),
            ..self
        }
    }

    /// The attempt at another step.
    pub open spec fn at(self, step: Step) -> OrderProgress {
        OrderProgress { step, ..self }
    }

    /// The attempt after the store answered `reply` to its request.
    ///
    /// An attempt that is over stays as it is. A rollback ends in failure whatever
    /// the answer. A failure of the store is a storage fault. Otherwise the answer
    /// that fits the request moves the attempt on, and one that does not is a
    /// protocol fault.
    pub open spec fn after(self, reply: OrderReply) -> OrderProgress {
        if self.finished() {
            self
        } else if self.step is RollingBack {
            self.at(Step::Failed)
        } else if reply is Failed {
            self.failing(Fault::Storage(reply->Failed_0))
        } else {
            match (self.step, reply) {
                (Step::Validating { line }, OrderReply::Stock(stock)) => if is_enough_stock(
                    stock as int,
                    self.lines[line as int].1 as int,
                ) {
                    self.at(self.after_validating(line))
                } else {
                    self.failing(Fault::NotEnoughStock)
                },
                (Step::FindingShipping, OrderReply::Found(Some(id))) => self.at(self.payment_step(id)),
                (Step::FindingShipping, OrderReply::Found(None)) => self.at(Step::InsertingShipping),
                (Step::InsertingShipping, OrderReply::Inserted(id)) => self.at(self.payment_step(id)),
                (Step::LoadingShipping, OrderReply::Customer(Some(customer))) => self.at(
                    self.payment_step(customer.default_shipping_address_id),
                ),
                (Step::LoadingShipping, OrderReply::Customer(None)) => self.failing(Fault::NoCustomer),
                (Step::FindingBilling { shipping }, OrderReply::Found(Some(id))) => self.at(
                    Step::FindingPayment { shipping, billing: id },
                ),
                (Step::FindingBilling { shipping }, OrderReply::Found(None)) => self.at(
                    Step::InsertingBilling { shipping },
                ),
                (Step::InsertingBilling { shipping }, OrderReply::Inserted(id)) => self.at(
                    Step::FindingPayment { shipping, billing: id },
                ),
                (Step::FindingPayment { shipping, .. }, OrderReply::Found(Some(id))) => self.at(
                    Step::Beginning { shipping, payment: id },
                ),
                (Step::FindingPayment { shipping, billing }, OrderReply::Found(None)) => self.at(
                    Step::InsertingPayment { shipping, billing },
                ),
                (Step::InsertingPayment { shipping, .. }, OrderReply::Inserted(id)) => self.at(
                    Step::Beginning { shipping, payment: id },
                ),
                (Step::LoadingPayment { shipping }, OrderReply::Customer(Some(customer))) => self.at(
                    Step::Beginning { shipping, payment: customer.default_payment_info_id },
                ),
                (Step::LoadingPayment { .. }, OrderReply::Customer(None)) => self.failing(
                    Fault::NoCustomer,
                ),
                (Step::Beginning { shipping, payment }, OrderReply::Done) => self.at(
                    Step::Persisting { shipping, payment },
                ),
                (Step::Persisting { .. }, OrderReply::Inserted(order)) => self.at(
                    if self.lines.len() > 0 {
                        Step::InsertingLine { order, line: 0 }
                    } else {
                        Step::ClearingCart { order }
                    },
                ),
                (Step::InsertingLine { order, line }, OrderReply::Done) => self.at(
                    Step::TakingStock { order, line },
                ),
                (Step::TakingStock { order, line }, OrderReply::Done) => self.at(
                    self.after_taking(order, line),
                ),
                (Step::TakingStock { .. }, OrderReply::Refused) => self.failing(Fault::NotEnoughStock),
                (Step::ClearingCart { order }, OrderReply::Done) => self.at(Step::Committing { order }),
                (Step::Committing { order }, OrderReply::Done) => self.at(Step::Committed { order }),
                _ => self.failing(Fault::Protocol),
            }
        }
    }

    /// Whether `r` is how the attempt ended: the order's identifier, or an error
    /// that reports the fault.
    pub open spec fn ended_with(self, r: Result<PostgresInt, OrderError>) -> bool {
        match self.step {
            Step::Committed { order } => r == Ok::<PostgresInt, OrderError>(order),
            _ => self.fault matches Some(fault) && r matches Err(e) && reports(
                e,
                fault,
                self.customer_id,
            ),
        }
    }
}

/// Whether a request changes what the store holds.
pub open spec fn is_write(request: OrderRequest) -> bool {
    match request {
        OrderRequest::StockOf { .. } => false,
        OrderRequest::FindAddress { .. } => false,
        OrderRequest::LoadCustomer { .. } => false,
        OrderRequest::FindPaymentInfo { .. } => false,
        OrderRequest::Begin => false,
        OrderRequest::Commit => false,
        OrderRequest::Rollback => false,
        _ => true,
    }
}

/// Whether a request changes books, carts, orders or line items.
pub open spec fn touches_order_tables(request: OrderRequest) -> bool {
    match request {
        OrderRequest::InsertOrder { .. } => true,
        OrderRequest::InsertOrderLine { .. } => true,
        OrderRequest::TakeStock { .. } => true,
        OrderRequest::ClearCart { .. } => true,
        _ => false,
    }
}

/// Nothing is written while the lines are validated, and books, carts, orders and
/// line items are written to only inside the transaction.
pub proof fn lemma_writes_are_guarded(p: OrderProgress)
    requires
        p.wf(),
        p.request() is Some,
    ensures
        p.stage() == OrderStage::Validating ==> !is_write(p.request()->0),
        touches_order_tables(p.request()->0) ==> p.in_transaction(),
{
}

/// A step keeps an attempt well formed, and what was asked for stays what it was.
pub proof fn lemma_after_wf(p: OrderProgress, reply: OrderReply)
    requires
        p.wf(),
    ensures
        p.after(reply).wf(),
        p.after(reply) == (OrderProgress {
            step: p.after(reply).step,
            fault: p.after(reply).fault,
            ..p
        }),
        p.in_transaction() && !p.after(reply).finished() ==> p.after(reply).in_transaction(),
        p.in_transaction() && p.after(reply).step is Failed ==> p.step is RollingBack,
{
}

/// An attempt to place an order.
pub struct OrderPlacement {
    customer_id: PostgresInt,
    books: Vec<(ISBN, u32)>,
    address: Option<Address>,
    payment_info: Option<PaymentInfo>,
    tracking_number: String,
    order_date: Date,
    step: Step,
    fault: Option<Fault>,
}

impl View for OrderPlacement {
    type V = OrderProgress;

    closed spec fn view(&self) -> OrderProgress {
        OrderProgress {
            customer_id: self.customer_id,
            lines: self.books@,
            address: self.address,
            payment_info: self.payment_info,
            tracking_number: self.tracking_number,
            order_date: self.order_date,
            step: self.step,
            fault: self.fault,
        }
    }
}

fn protocol_error() -> (e: OrderError)
    ensures
        forall|customer_id: i32| reports(e, Fault::Protocol, customer_id),
{
    OrderError::StateError(StateError::new("Unexpected reply from the store"))
}

impl OrderPlacement {
    #[verifier::type_invariant]
    spec fn inv(self) -> bool {
        self@.wf()
    }

    /// An attempt to place an order for the given lines, at its start.
    pub fn new(
        customer_id: PostgresInt,
        books: Vec<(ISBN, u32)>,
        address: Option<Address>,
        payment_info: Option<PaymentInfo>,
        tracking_number: String,
        order_date: Date,
    ) -> (engine: OrderPlacement)
        ensures
            engine@ == OrderProgress::start(
                customer_id,
                books@,
                address,
                payment_info,
                tracking_number,
                order_date,
            ),
            engine@.wf(),
    {
        let step = if books.len() > 0 {
            Step::Validating { line: 0 }
        } else if address.is_some() {
            Step::FindingShipping
        } else {
            Step::LoadingShipping
        };
        OrderPlacement {
            customer_id,
            books,
            address,
            payment_info,
            tracking_number,
            order_date,
            step,
            fault: None,
        }
    }

    /// The stage the attempt is in.
    pub fn stage(&self) -> (stage: OrderStage)
        ensures
            stage == self@.stage(),
    {
        match self.step {
            Step::Validating { .. } => OrderStage::Validating,
            Step::FindingShipping => OrderStage::ResolvingAddress,
            Step::InsertingShipping => OrderStage::ResolvingAddress,
            Step::LoadingShipping => OrderStage::ResolvingAddress,
            Step::FindingBilling { .. } => OrderStage::ResolvingPayment,
            Step::InsertingBilling { .. } => OrderStage::ResolvingPayment,
            Step::FindingPayment { .. } => OrderStage::ResolvingPayment,
            Step::InsertingPayment { .. } => OrderStage::ResolvingPayment,
            Step::LoadingPayment { .. } => OrderStage::ResolvingPayment,
            Step::Beginning { .. } => OrderStage::Persisting,
            Step::Persisting { .. } => OrderStage::Persisting,
            Step::InsertingLine { .. } => OrderStage::DecrementingStock,
            Step::TakingStock { .. } => OrderStage::DecrementingStock,
            Step::ClearingCart { .. } => OrderStage::ClearingCart,
            Step::Committing { .. } => OrderStage::ClearingCart,
            Step::RollingBack => OrderStage::Aborting,
            Step::Committed { .. } => OrderStage::Committed,
            Step::Failed => OrderStage::Failed,
        }
    }

    /// Whether the attempt is over.
    pub fn is_finished(&self) -> (r: bool)
        ensures
            r == self@.finished(),
    {
        match self.step {
            Step::Committed { .. } => true,
            Step::Failed => true,
            _ => false,
        }
    }

    /// What to ask of the store next, or `None` once the attempt is over.
    pub fn next_request(&self) -> (r: Option<OrderRequest>)
        ensures
            r == self@.request(),
            self@.wf(),
    {
        proof {
            use_type_invariant(self);
        }
        match self.step {
            Step::Validating { line } => Some(OrderRequest::StockOf { isbn: self.books[line].0 }),
            Step::FindingShipping => match &self.address {
                Some(address) => Some(OrderRequest::FindAddress { address: address.duplicate() }),
                None => None,
            },
            Step::InsertingShipping => match &self.address {
                Some(address) => Some(OrderRequest::InsertAddress { address: address.duplicate() }),
                None => None,
            },
            Step::LoadingShipping => Some(OrderRequest::LoadCustomer { customer_id: self.customer_id }),
            Step::FindingBilling { .. } => match &self.payment_info {
                Some(payment_info) => Some(
                    OrderRequest::FindAddress { address: payment_info.billing_address.duplicate() },
                ),
                None => None,
            },
            Step::InsertingBilling { .. } => match &self.payment_info {
                Some(payment_info) => Some(
                    OrderRequest::InsertAddress { address: payment_info.billing_address.duplicate() },
                ),
                None => None,
            },
            Step::FindingPayment { billing, .. } => match &self.payment_info {
                Some(payment_info) => Some(
                    OrderRequest::FindPaymentInfo {
                        payment_info: payment_info.duplicate(),
                        billing_address_id: billing,
                    },
                ),
                None => None,
            },
            Step::InsertingPayment { billing, .. } => match &self.payment_info {
                Some(payment_info) => Some(
                    OrderRequest::InsertPaymentInfo {
                        payment_info: payment_info.duplicate(),
                        billing_address_id: billing,
                    },
                ),
                None => None,
            },
            Step::LoadingPayment { .. } => Some(OrderRequest::LoadCustomer { customer_id: self.customer_id }),
            Step::Beginning { .. } => Some(OrderRequest::Begin),
            Step::Persisting { shipping, payment } => Some(
                OrderRequest::InsertOrder {
                    customer_id: self.customer_id,
                    shipping_address_id: shipping,
                    payment_info_id: payment,
                    tracking_number: self.tracking_number.clone(),
                    order_date: self.order_date,
                },
            ),
            Step::InsertingLine { order, line } => Some(
                OrderRequest::InsertOrderLine {
                    order_id: order,
                    isbn: self.books[line].0,
                    quantity: self.books[line].1,
                },
            ),
            Step::TakingStock { line, .. } => Some(
                OrderRequest::TakeStock { isbn: self.books[line].0, quantity: self.books[line].1 },
            ),
            Step::ClearingCart { .. } => Some(OrderRequest::ClearCart { customer_id: self.customer_id }),
            Step::Committing { .. } => Some(OrderRequest::Commit),
            Step::RollingBack => Some(OrderRequest::Rollback),
            Step::Committed { .. } => None,
            Step::Failed => None,
        }
    }

    fn moved_to(self, step: Step) -> (engine: OrderPlacement)
        requires
            self@.at(step).wf(),
        ensures
            engine@ == self@.at(step),
    {
        OrderPlacement { step, ..self }
    }

    fn failed_with(self, fault: Fault) -> (engine: OrderPlacement)
        ensures
            engine@ == self@.failing(fault),
    {
        proof {
            use_type_invariant(&self);
        }
        let step = match self.step {
            Step::Persisting { .. } => Step::RollingBack,
            Step::InsertingLine { .. } => Step::RollingBack,
            Step::TakingStock { .. } => Step::RollingBack,
            Step::ClearingCart { .. } => Step::RollingBack,
            Step::Committing { .. } => Step::RollingBack,
            Step::RollingBack => Step::RollingBack,
            _ => Step::Failed,
        };
        OrderPlacement { step, fault: Some(fault), ..self }
    }

    /// Takes the store's answer to the request that is out, and moves on.
    pub fn advance(self, reply: OrderReply) -> (engine: OrderPlacement)
        ensures
            engine@ == self@.after(reply),
            engine@.wf(),
    {
        proof {
            use_type_invariant(&self);
            lemma_after_wf(self@, reply);
        }
        if self.is_finished() {
            return self;
        }
        if let Step::RollingBack = self.step {
            return self.moved_to(Step::Failed);
        }
        let lines = self.books.len();
        let has_address = self.address.is_some();
        let has_payment = self.payment_info.is_some();
        match (self.step, reply) {
            (_, OrderReply::Failed(cause)) => self.failed_with(Fault::Storage(cause)),
            (Step::Validating { line }, OrderReply::Stock(stock)) => {
                if !enough_stock(stock, self.books[line].1) {
                    self.failed_with(Fault::NotEnoughStock)
                } else if line + 1 < lines {
                    self.moved_to(Step::Validating { line: line + 1 })
                } else if has_address {
                    self.moved_to(Step::FindingShipping)
                } else {
                    self.moved_to(Step::LoadingShipping)
                }
            },
            (Step::FindingShipping, OrderReply::Found(Some(id))) => {
                let next = payment_step_for(has_payment, id);
                self.moved_to(next)
            },
            (Step::FindingShipping, OrderReply::Found(None)) => self.moved_to(Step::InsertingShipping),
            (Step::InsertingShipping, OrderReply::Inserted(id)) => {
                let next = payment_step_for(has_payment, id);
                self.moved_to(next)
            },
            (Step::LoadingShipping, OrderReply::Customer(Some(customer))) => {
                let next = payment_step_for(has_payment, customer.default_shipping_address_id);
                self.moved_to(next)
            },
            (Step::LoadingShipping, OrderReply::Customer(None)) => self.failed_with(Fault::NoCustomer),
            (Step::FindingBilling { shipping }, OrderReply::Found(Some(id))) => self.moved_to(
                Step::FindingPayment { shipping, billing: id },
            ),
            (Step::FindingBilling { shipping }, OrderReply::Found(None)) => self.moved_to(
                Step::InsertingBilling { shipping },
            ),
            (Step::InsertingBilling { shipping }, OrderReply::Inserted(id)) => self.moved_to(
                Step::FindingPayment { shipping, billing: id },
            ),
            (Step::FindingPayment { shipping, .. }, OrderReply::Found(Some(id))) => self.moved_to(
                Step::Beginning { shipping, payment: id },
            ),
            (Step::FindingPayment { shipping, billing }, OrderReply::Found(None)) => self.moved_to(
                Step::InsertingPayment { shipping, billing },
            ),
            (Step::InsertingPayment { shipping, .. }, OrderReply::Inserted(id)) => self.moved_to(
                Step::Beginning { shipping, payment: id },
            ),
            (Step::LoadingPayment { shipping }, OrderReply::Customer(Some(customer))) => self.moved_to(
                Step::Beginning { shipping, payment: customer.default_payment_info_id },
            ),
            (Step::LoadingPayment { .. }, OrderReply::Customer(None)) => self.failed_with(
                Fault::NoCustomer,
            ),
            (Step::Beginning { shipping, payment }, OrderReply::Done) => self.moved_to(
                Step::Persisting { shipping, payment },
            ),
            (Step::Persisting { .. }, OrderReply::Inserted(order)) => {
                if lines > 0 {
                    self.moved_to(Step::InsertingLine { order, line: 0 })
                } else {
                    self.moved_to(Step::ClearingCart { order })
                }
            },
            (Step::InsertingLine { order, line }, OrderReply::Done) => self.moved_to(
                Step::TakingStock { order, line },
            ),
            (Step::TakingStock { order, line }, OrderReply::Done) => {
                if line + 1 < lines {
                    self.moved_to(Step::InsertingLine { order, line: line + 1 })
                } else {
                    self.moved_to(Step::ClearingCart { order })
                }
            },
            (Step::TakingStock { .. }, OrderReply::Refused) => self.failed_with(Fault::NotEnoughStock),
            (Step::ClearingCart { order }, OrderReply::Done) => self.moved_to(
                Step::Committing { order },
            ),
            (Step::Committing { order }, OrderReply::Done) => self.moved_to(Step::Committed { order }),
            _ => self.failed_with(Fault::Protocol),
        }
    }

    /// How the attempt ended: the order's identifier, or the error. `None` while the
    /// attempt is not over.
    pub fn finish(self) -> (r: Option<Result<PostgresInt, OrderError>>)
        ensures
            r is Some <==> self@.finished(),
            r matches Some(outcome) ==> self@.ended_with(outcome),
    {
        proof {
            use_type_invariant(&self);
        }
        match self.step {
            Step::Committed { order } => Some(Ok(order)),
            Step::Failed => match self.fault {
                Some(Fault::NotEnoughStock) => Some(Err(OrderError::NotEnoughStock)),
                Some(Fault::Storage(cause)) => Some(Err(OrderError::DBError(cause))),
                Some(Fault::NoCustomer) => Some(Err(no_customer(self.customer_id))),
                Some(Fault::Protocol) => Some(Err(protocol_error())),
                None => None,
            },
            _ => None,
        }
    }
}

fn payment_step_for(has_payment: bool, shipping: PostgresInt) -> (step: Step)
    ensures
        step == if has_payment {
            Step::FindingBilling { shipping }
        } else {
            Step::LoadingPayment { shipping }
        },
{
    if has_payment {
        Step::FindingBilling { shipping }
    } else {
        Step::LoadingPayment { shipping }
    }
}

} // verus!
