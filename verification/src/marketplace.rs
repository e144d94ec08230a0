use vstd::prelude::*;
use std::collections::HashMap;
use crate::errors::OrderError;
use crate::ledger::{moves_funds, transfer_allowed, transfer_error, Identity, Ledger};

verus! {

broadcast use vstd::std_specs::hash::group_hash_axioms;

/// The fixed tag from which the escrow signing identity is derived, the
/// bytes of an escrow label read as one number.
pub const ESCROW_SEED: u64 = 0x6573_6372_6f77;

/// The disambiguating bump appended to the seed during derivation.
pub const ESCROW_BUMP: u64 = 255;

/// The derived escrow signing identity: an identity with no human operator,
/// computed from the fixed seed and the bump alone. The escrow-held account
/// is this identity's account, so the program can release funds it holds in
/// custody by presenting this identity as the authorizing party.
pub const ESCROW_AUTHORITY_ID: u64 = ESCROW_SEED * 256 + ESCROW_BUMP;

/// Derives the escrow signing identity from the fixed seed and the bump.
pub fn escrow_authority() -> (r: Identity)
    ensures
        r == ESCROW_AUTHORITY_ID,
{
    ESCROW_AUTHORITY_ID
}

/// Per-seller aggregate record: who owns the store, how many orders were
/// ever created against it, and whether it is open.
#[derive(Clone, Copy, Debug, PartialEq, Eq, Structural)]
pub struct Store {
    pub owner: Identity,
    /// Count of successful order creations; monotonically non-decreasing.
    pub total_orders: u64,
    pub is_active: bool,
}

impl Store {
    /// Creates the store record: no orders yet, active, owned by `owner`.
    pub fn initialize_store(owner: Identity) -> (s: Store)
        ensures
            s.owner == owner,
            s.total_orders == 0,
            s.is_active,
    {
        Store { owner, total_orders: 0, is_active: true }
    }
}

/// The lifecycle of an order. `Refunded` and `Cancelled` are named in the
/// taxonomy but no operation of this core reaches them.
#[derive(Clone, Copy, Debug, PartialEq, Eq, Structural)]
pub enum OrderStatus {
    Pending,
    Paid,
    Completed,
    Refunded,
    Cancelled,
}

/// How far along its lifecycle a status is.
pub open spec fn status_rank(s: OrderStatus) -> nat {
    match s {
        OrderStatus::Pending => 0,
        OrderStatus::Paid => 1,
        OrderStatus::Completed => 2,
        OrderStatus::Refunded => 3,
        OrderStatus::Cancelled => 3,
    }
}

/// The transitions an operation of this core may make on one order's
/// status: stay put, capture a payment, or complete a paid order.
pub open spec fn status_step(pre: OrderStatus, post: OrderStatus) -> bool {
    ||| pre == post
    ||| (pre is Pending && post is Paid)
    ||| (pre is Paid && post is Completed)
}

/// Law: the status only ever progresses forward. Any allowed step moves the
/// rank up or keeps it, and a completed order stays completed.
pub proof fn lemma_status_progression(pre: OrderStatus, post: OrderStatus)
    requires
        status_step(pre, post),
    ensures
        status_rank(post) >= status_rank(pre),
        pre is Completed ==> post is Completed,
{
}

/// Law: escrow conserves funds. A payment capture followed by the release of
/// the same amount leaves the escrow account where it started, moves exactly
/// that amount from the buyer to the seller, and touches no other account.
pub proof fn lemma_escrow_conservation(
    l0: Ledger,
    l1: Ledger,
    l2: Ledger,
    buyer: Identity,
    seller: Identity,
    amount: u64,
)
    requires
        moves_funds(l0, l1, buyer, ESCROW_AUTHORITY_ID, amount),
        moves_funds(l1, l2, ESCROW_AUTHORITY_ID, seller, amount),
        buyer != ESCROW_AUTHORITY_ID,
        seller != ESCROW_AUTHORITY_ID,
        buyer != seller,
    ensures
        l2.balance_of(ESCROW_AUTHORITY_ID) == l0.balance_of(ESCROW_AUTHORITY_ID),
        l2.balance_of(buyer) == l0.balance_of(buyer) - amount,
        l2.balance_of(seller) == l0.balance_of(seller) + amount,
        forall|a: Identity|
            a != buyer && a != seller && a != ESCROW_AUTHORITY_ID ==> #[trigger] l2.balance_of(a)
                == l0.balance_of(a),
{
}

/// One order: created in `Pending`, retained forever as an audit record.
/// `total_amount` is fixed at creation as `quantity * price_per_item` and
/// never recomputed.
#[derive(Clone, Copy, Debug, PartialEq, Eq, Structural)]
pub struct Order {
    pub order_id: u64,
    pub buyer: Identity,
    pub product_id: u64,
    pub quantity: u64,
    pub price_per_item: u64,
    pub total_amount: u64,
    pub status: OrderStatus,
    /// When the order was created, as handed in by the caller's clock.
    pub created_at: i64,
}

/// The order a successful creation records.
pub open spec fn fresh_order(
    order_id: u64,
    buyer: Identity,
    product_id: u64,
    quantity: u64,
    price_per_item: u64,
    now: i64,
) -> Order {
    Order {
        order_id,
        buyer,
        product_id,
        quantity,
        price_per_item,
        total_amount: (quantity * price_per_item) as u64,
        status: OrderStatus::Pending,
        created_at: now,
    }
}

/// `o` with its status replaced by `status` and every other field kept.
pub open spec fn with_status(o: Order, status: OrderStatus) -> Order {
    Order { status, ..o }
}

/// The order state machine: every order ever created, keyed by its
/// caller-supplied `order_id`, which is thereby kept unique.
pub struct OrderLedger {
    orders: HashMap<u64, Order>,
}

impl OrderLedger {
    /// The mathematical content: the map from order id to order record.
    pub closed spec fn orders(self) -> Map<u64, Order> {
        self.orders@
    }

    /// Well-formedness: every record sits under its own order id.
    pub open spec fn wf(self) -> bool {
        forall|id: u64|
            self.orders().contains_key(id) ==> (#[trigger] self.orders()[id]).order_id == id
    }

    /// An empty order ledger.
    pub fn new() -> (ol: OrderLedger)
        ensures
            ol.orders() == Map::<u64, Order>::empty(),
            ol.wf(),
    {
        OrderLedger { orders: HashMap::new() }
    }

    /// Looks an order up by id.
    pub fn get_order(&self, order_id: u64) -> (r: Option<Order>)
        ensures
            match r {
                Some(o) => self.orders().contains_key(order_id) && o == self.orders()[order_id],
                None => !self.orders().contains_key(order_id),
            },
    {
        match self.orders.get(&order_id) {
            Some(o) => Some(*o),
            None => None,
        }
    }

    /// Whether an order with this id exists.
    pub fn has_order(&self, order_id: u64) -> (r: bool)
        ensures
            r == self.orders().contains_key(order_id),
    {
        self.orders.contains_key(&order_id)
    }

    /// Creates an order in `Pending` against `store`, stamping it with the
    /// caller-supplied clock reading `now` and counting it on the store.
    ///
    /// Fails with `DuplicateOrder` if the id is already taken, leaving the
    /// existing record untouched. The total `quantity * price_per_item` and
    /// the store's counter are computed with checked arithmetic and fail
    /// with `MathOverflow` rather than wrap. On any failure nothing changes.
    pub fn create_order(
        &mut self,
        store: &mut Store,
        buyer: Identity,
        order_id: u64,
        product_id: u64,
        quantity: u64,
        price_per_item: u64,
        now: i64,
    ) -> (r: Result<(), OrderError>)
        requires
            old(self).wf(),
        ensures
            final(self).wf(),
            old(self).orders().contains_key(order_id) ==> r == Err::<(), OrderError>(
                OrderError::DuplicateOrder,
            ),
            !old(self).orders().contains_key(order_id) && (quantity * price_per_item > u64::MAX
                || old(store).total_orders == u64::MAX) ==> r == Err::<(), OrderError>(
                OrderError::MathOverflow,
            ),
            r is Ok <==> r == Ok::<(), OrderError>(()),
            r == Ok::<(), OrderError>(()) <==> !old(self).orders().contains_key(order_id) && quantity * price_per_item
                <= u64::MAX && old(store).total_orders < u64::MAX,
            r is Ok ==> final(self).orders() == old(self).orders().insert(
                order_id,
                fresh_order(order_id, buyer, product_id, quantity, price_per_item, now),
            ),
            r is Ok ==> final(store).total_orders == old(store).total_orders + 1,
            r is Err ==> *final(self) == *old(self) && *final(store) == *old(store),
            final(store).owner == old(store).owner,
            final(store).is_active == old(store).is_active,
    {
        if self.orders.contains_key(&order_id) {
            return Err(OrderError::DuplicateOrder);
        }
        let total_amount = match quantity.checked_mul(price_per_item) {
            Some(t) => t,
            None => {
                return Err(OrderError::MathOverflow);
            },
        };
        let counted_orders = match store.total_orders.checked_add(1) {
            Some(t) => t,
            None => {
                return Err(OrderError::MathOverflow);
            },
        };
        let order = Order {
            order_id,
            buyer,
            product_id,
            quantity,
            price_per_item,
            total_amount,
            status: OrderStatus::Pending,
            created_at: now,
        };
        self.orders.insert(order_id, order);
        store.total_orders = counted_orders;
        Ok(())
    }

    /// Captures payment for a `Pending` order: moves its `total_amount`
    /// from `buyer`'s funds into the escrow-held account, authorized by the
    /// buyer, and on success marks the order `Paid`.
    ///
    /// Fails with `InvalidState` unless the order is `Pending`; a ledger
    /// failure is passed on verbatim. On any failure neither the order nor
    /// any balance changes, and no other order is ever touched.
    pub fn process_payment(
        &mut self,
        ledger: &mut Ledger,
        order_id: u64,
        buyer: Identity,
    ) -> (r: Result<(), OrderError>)
        requires
            old(self).wf(),
            old(self).orders().contains_key(order_id),
        ensures
            final(self).wf(),
            !(old(self).orders()[order_id].status is Pending) ==> r == Err::<(), OrderError>(
                OrderError::InvalidState,
            ),
            old(self).orders()[order_id].status is Pending && !transfer_allowed(
                *old(ledger),
                buyer,
                ESCROW_AUTHORITY_ID,
                old(self).orders()[order_id].total_amount,
                buyer,
            ) ==> r == Err::<(), OrderError>(
                OrderError::Ledger(
                    transfer_error(
                        *old(ledger),
                        buyer,
                        ESCROW_AUTHORITY_ID,
                        old(self).orders()[order_id].total_amount,
                        buyer,
                    ),
                ),
            ),
            r is Ok <==> r == Ok::<(), OrderError>(()),
            r == Ok::<(), OrderError>(()) <==> old(self).orders()[order_id].status is Pending && transfer_allowed(
                *old(ledger),
                buyer,
                ESCROW_AUTHORITY_ID,
                old(self).orders()[order_id].total_amount,
                buyer,
            ),
            r is Ok ==> final(self).orders() == old(self).orders().insert(
                order_id,
                with_status(old(self).orders()[order_id], OrderStatus::Paid),
            ),
            r is Ok ==> moves_funds(
                *old(ledger),
                *final(ledger),
                buyer,
                ESCROW_AUTHORITY_ID,
                old(self).orders()[order_id].total_amount,
            ),
            r is Err ==> *final(self) == *old(self) && *final(ledger) == *old(ledger),
            forall|id: u64|
                #[trigger] old(self).orders().contains_key(id)
                    ==> final(self).orders().contains_key(id)
                    && status_step(old(self).orders()[id].status, final(self).orders()[id].status),
    {
        let order = *self.orders.get(&order_id).unwrap();
        if !(matches!(order.status, OrderStatus::Pending)) {
            return Err(OrderError::InvalidState);
        }
        let escrow = escrow_authority();
        match ledger.transfer(buyer, escrow, order.total_amount, buyer) {
            Ok(()) => {
                let paid = Order { status: OrderStatus::Paid, ..order };
                self.orders.insert(order_id, paid);
                Ok(())
            },
            Err(e) => Err(OrderError::Ledger(e)),
        }
    }

    /// Completes a `Paid` order: releases its `total_amount` from the
    /// escrow-held account to `seller`, authorized by the derived escrow
    /// identity rather than by any human caller, and on success marks the
    /// order `Completed`.
    ///
    /// Fails with `InvalidState` unless the order is `Paid`; a ledger
    /// failure is passed on verbatim. On any failure neither the order nor
    /// any balance changes, and no other order is ever touched.
    pub fn complete_order(
        &mut self,
        ledger: &mut Ledger,
        order_id: u64,
        seller: Identity,
    ) -> (r: Result<(), OrderError>)
        requires
            old(self).wf(),
            old(self).orders().contains_key(order_id),
        ensures
            final(self).wf(),
            !(old(self).orders()[order_id].status is Paid) ==> r == Err::<(), OrderError>(
                OrderError::InvalidState,
            ),
            old(self).orders()[order_id].status is Paid && !transfer_allowed(
                *old(ledger),
                ESCROW_AUTHORITY_ID,
                seller,
                old(self).orders()[order_id].total_amount,
                ESCROW_AUTHORITY_ID,
            ) ==> r == Err::<(), OrderError>(
                OrderError::Ledger(
                    transfer_error(
                        *old(ledger),
                        ESCROW_AUTHORITY_ID,
                        seller,
                        old(self).orders()[order_id].total_amount,
                        ESCROW_AUTHORITY_ID,
                    ),
                ),
            ),
            r is Ok <==> r == Ok::<(), OrderError>(()),
            r == Ok::<(), OrderError>(()) <==> old(self).orders()[order_id].status is Paid && transfer_allowed(
                *old(ledger),
                ESCROW_AUTHORITY_ID,
                seller,
                old(self).orders()[order_id].total_amount,
                ESCROW_AUTHORITY_ID,
            ),
            r is Ok ==> final(self).orders() == old(self).orders().insert(
                order_id,
                with_status(old(self).orders()[order_id], OrderStatus::Completed),
            ),
            r is Ok ==> moves_funds(
                *old(ledger),
                *final(ledger),
                ESCROW_AUTHORITY_ID,
                seller,
                old(self).orders()[order_id].total_amount,
            ),
            r is Err ==> *final(self) == *old(self) && *final(ledger) == *old(ledger),
            forall|id: u64|
                #[trigger] old(self).orders().contains_key(id)
                    ==> final(self).orders().contains_key(id)
                    && status_step(old(self).orders()[id].status, final(self).orders()[id].status),
    {
        let order = *self.orders.get(&order_id).unwrap();
        if !(matches!(order.status, OrderStatus::Paid)) {
            return Err(OrderError::InvalidState);
        }
        let escrow = escrow_authority();
        match ledger.transfer(escrow, seller, order.total_amount, escrow) {
            Ok(()) => {
                let completed = Order { status: OrderStatus::Completed, ..order };
                self.orders.insert(order_id, completed);
                Ok(())
            },
            Err(e) => Err(OrderError::Ledger(e)),
        }
    }
}

} // verus!
