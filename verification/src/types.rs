//! Data model: lottery records, tickets, errors, and the values exchanged
//! with the hosting platform (transfers, the draw request, the draw reply).
//!
//! Identities and asset identifiers are opaque to the lottery's rules: they
//! are only stored, compared and handed back, so they are carried as plain
//! integers. Amounts are unsigned 128-bit integers.

use vstd::prelude::*;

verus! {

/// The status of one lottery. It moves only forward along
/// `Opened -> Closed -> {Completed, Failed}`; `Completed` and `Failed`
/// are terminal.
#[derive(Clone, Copy, PartialEq, Eq, Structural, Debug)]
pub enum LotteryStatus {
    /// Tickets may be bought; the deadline has not yet been passed.
    Opened,
    /// The deadline has passed; the draw has not been finalised.
    Closed,
    /// No ticket was sold; the prize went back to the creator.
    Failed,
    /// A winner was drawn and paid; the proceeds went to the creator.
    Completed,
}

/// One paid entry into a lottery's draw. Within one purchase the tickets
/// carry sequence numbers `1..=quantity` and share the purchase timestamp,
/// so every ticket of a lottery is distinct.
#[derive(Clone, Copy, PartialEq, Eq, Structural, Debug)]
pub struct Ticket {
    /// The buyer, who receives the prize if this ticket is drawn.
    pub owner: u64,
    /// The lottery this ticket belongs to.
    pub lottery_id: u32,
    /// The timestamp of the purchase that minted this ticket.
    pub timestamp: u64,
    /// The sequence number within its purchase, starting at 1.
    pub id: u32,
}

/// One lottery: its creator, the escrowed prize, the ticket price, the
/// deadline and the current status. Created once, never deleted; only the
/// status is ever mutated.
#[derive(Clone, Copy, PartialEq, Eq, Structural, Debug)]
pub struct LotteryObj {
    /// Who created the lottery and escrowed the prize.
    pub creator: u64,
    /// The asset identifier of the escrowed prize.
    pub prize_token: u64,
    /// The instance id of the prize asset, for multi-instance token schemes.
    pub token_nonce: u64,
    /// The escrowed prize amount.
    pub prize: u128,
    /// The price of one ticket, in the platform's native unit.
    pub ticket_price: u128,
    /// The absolute timestamp after which the lottery closes.
    pub deadline: u64,
    /// The current status.
    pub status: LotteryStatus,
}

/// Why an entry point refused to act. Every error leaves the ledger
/// exactly as it was.
#[derive(Clone, Copy, PartialEq, Eq, Structural, Debug)]
pub enum LotteryError {
    /// The lottery id is not in the registry.
    NotFound,
    /// A purchase asked for fewer than one ticket.
    InvalidQuantity,
    /// A purchase reached a lottery whose resolved status is not `Opened`.
    LotteryClosed,
    /// The attached payment is below ticket price times quantity.
    InsufficientPayment,
    /// A lottery was created with a deadline that has already passed.
    DeadlinePassed,
    /// A lottery was created with a ticket price of zero.
    InvalidTicketPrice,
    /// A draw was triggered or finalised on a lottery whose resolved status
    /// is not `Closed`; `Completed` and `Failed` never satisfy the guard,
    /// which is what makes payout at most once.
    NotClosedOrAlreadyResolved,
    /// The randomness service replied with a failure; nothing was paid and
    /// the lottery stays `Closed`, so the draw may be triggered again.
    DrawFailed,
}

/// What a transfer moves: either an instance of an escrowed asset or an
/// amount of the platform's native unit.
#[derive(Clone, Copy, PartialEq, Eq, Structural, Debug)]
pub enum Payment {
    /// An asset transfer: identifier, instance id and amount.
    Asset { token: u64, nonce: u64, amount: u128 },
    /// A transfer in the platform's native unit.
    Native { amount: u128 },
}

/// One transfer the host must perform: a payment to a recipient.
#[derive(Clone, Copy, PartialEq, Eq, Structural, Debug)]
pub struct Transfer {
    /// The recipient.
    pub to: u64,
    /// What is moved.
    pub payment: Payment,
}

/// What triggering the draw asks the host to do.
#[derive(Clone, Copy, PartialEq, Eq, Structural, Debug)]
pub enum TriggerAction {
    /// No ticket was sold: return the prize to the creator; the lottery is
    /// now `Failed`. No randomness request is issued.
    Refund(Transfer),
    /// Tickets were sold: ask the randomness service for one index in
    /// `[0, upper_bound)` and route its reply back to this lottery; the
    /// lottery stays `Closed` until the reply arrives.
    Dispatch { upper_bound: usize },
}

/// The randomness service's asynchronous reply to one request.
#[derive(Clone, Copy, PartialEq, Eq, Structural, Debug)]
pub enum DrawReply {
    /// The service picked this index in `[0, upper_bound)`.
    Success(usize),
    /// The service failed; the draw attempt is abandoned without effect.
    Failure,
}

/// The pure state machine: the status a record has at time `now`, derived
/// from its stored status and its deadline. An `Opened` lottery past its
/// deadline is `Closed`; every other status is kept unchanged, so the
/// function is idempotent and never moves a status backward.
pub open spec fn spec_resolved_status(status: LotteryStatus, deadline: u64, now: u64) -> LotteryStatus {
    if status is Opened && now > deadline {
        LotteryStatus::Closed
    } else {
        status
    }
}

/// The forward order on statuses: `b` is reachable from `a` by zero or
/// more transitions of `Opened -> Closed -> {Completed, Failed}`.
pub open spec fn status_progresses(a: LotteryStatus, b: LotteryStatus) -> bool {
    match a {
        LotteryStatus::Opened => true,
        LotteryStatus::Closed => !(b is Opened),
        LotteryStatus::Failed => b is Failed,
        LotteryStatus::Completed => b is Completed,
    }
}

/// The quantity a purchase asked for: the given one, or 1 when none was given.
pub open spec fn spec_quantity(opt_quantity: Option<u32>) -> u32 {
    match opt_quantity {
        Some(qty) => qty,
        None => 1,
    }
}

/// The tickets one successful purchase mints: `qty` tickets for `buyer`,
/// sharing the purchase timestamp, with sequence numbers `1..=qty`.
pub open spec fn minted_tickets(lottery_id: u32, timestamp: u64, buyer: u64, qty: u32) -> Seq<Ticket> {
    Seq::new(qty as nat, |k: int| Ticket {
        owner: buyer,
        lottery_id: lottery_id,
        timestamp: timestamp,
        id: (k + 1) as u32,
    })
}

} // verus!
