use vstd::prelude::*;

verus! {

/// One lifecycle stage of an order, drawn from a fixed, closed set.
#[derive(Debug, PartialEq, Eq, Structural, Clone, Copy)]
pub enum OrderStatus {
    Created,
    Paid,
    Shipped,
    Delivered,
    Cancelled,
}

/// The fixed successor of each status: the transition function of the
/// order lifecycle. It is total, and the terminal status maps to itself.
pub open spec fn next_status(s: OrderStatus) -> OrderStatus {
    match s {
        OrderStatus::Created => OrderStatus::Paid,
        OrderStatus::Paid => OrderStatus::Shipped,
        OrderStatus::Shipped => OrderStatus::Delivered,
        OrderStatus::Delivered => OrderStatus::Cancelled,
        OrderStatus::Cancelled => OrderStatus::Cancelled,
    }
}

/// A terminal status: one from which no further movement happens.
pub open spec fn is_terminal(s: OrderStatus) -> bool {
    s is Cancelled
}

/// The position of a status in the fixed order
/// Created, Paid, Shipped, Delivered, Cancelled.
pub open spec fn status_position(s: OrderStatus) -> int {
    match s {
        OrderStatus::Created => 0,
        OrderStatus::Paid => 1,
        OrderStatus::Shipped => 2,
        OrderStatus::Delivered => 3,
        OrderStatus::Cancelled => 4,
    }
}

/// Terminal statuses are absorbing: the transition leaves them unchanged.
pub proof fn lemma_terminal_absorbing(s: OrderStatus)
    requires
        is_terminal(s),
    ensures
        next_status(s) == s,
{
}

/// A non-terminal status advances to exactly the next status in the fixed
/// order: one position forward, never skipping and never moving back.
pub proof fn lemma_nonterminal_steps_forward(s: OrderStatus)
    requires
        !is_terminal(s),
    ensures
        status_position(next_status(s)) == status_position(s) + 1,
{
}

/// An order, holding its current lifecycle status.
pub struct Order {
    pub status: OrderStatus,
}

impl Order {
    /// A fresh order starts in the Created status.
    pub fn new() -> (o: Order)
        ensures
            o.status == OrderStatus::Created,
    {
        Order { status: OrderStatus::Created }
    }

    /// Steps the order to the successor of its current status; once the
    /// order is in a terminal status, it stays there.
    pub fn advance(&mut self)
        ensures
            final(self).status == next_status(old(self).status),
    {
        match self.status {
            OrderStatus::Created => self.status = OrderStatus::Paid,
            OrderStatus::Paid => self.status = OrderStatus::Shipped,
            OrderStatus::Shipped => self.status = OrderStatus::Delivered,
            OrderStatus::Delivered => self.status = OrderStatus::Cancelled,
            OrderStatus::Cancelled => (),
        }
    }
}

} // verus!
