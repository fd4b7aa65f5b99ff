//! The lottery ledger and its entry points.
//!
//! [`Lottery`] holds every lottery ever created and its tickets. Ids are
//! assigned by a strictly increasing counter starting at 1 and are never
//! reused or deleted, so the registry of known ids is exactly `1..=last id`
//! and the record of id `i` sits at position `i - 1`.
//!
//! Every entry point takes the values the hosting platform would supply —
//! the current timestamp, the caller, the attached payment — and returns
//! the transfers and requests the host must perform. Validation errors
//! leave the ledger exactly as it was, mirroring a host that applies a
//! call's writes all or nothing.

use vstd::prelude::*;

use crate::types::{
    minted_tickets, spec_quantity, spec_resolved_status, status_progresses, DrawReply,
    LotteryError, LotteryObj, LotteryStatus, Payment, Ticket, Transfer, TriggerAction,
};

verus! {

/// The ledger: all lotteries, their tickets in insertion order, and the
/// configured address of the randomness service.
pub struct Lottery {
    /// The record of lottery id `i`, at position `i - 1`.
    pub lotteries: Vec<LotteryObj>,
    /// The tickets of lottery id `i`, in insertion order, at position `i - 1`.
    pub ticket_lists: Vec<Vec<Ticket>>,
    /// The configured address of the randomness service.
    pub picker_address: u64,
}

impl Lottery {
    /// Well-formedness: one ticket list per lottery, the id counter fits in
    /// `u32`, and every stored ticket names the lottery it is stored under.
    pub open spec fn wf(&self) -> bool {
        &&& self.ticket_lists@.len() == self.lotteries@.len()
        &&& self.lotteries@.len() <= u32::MAX
        &&& forall|i: int, k: int|
                0 <= i < self.ticket_lists@.len() && 0 <= k < self.ticket_lists@[i]@.len()
                ==> (#[trigger] self.ticket_lists@[i]@[k]).lottery_id == i + 1
    }

    /// The last assigned lottery id; ids `1..=spec_last_id()` exist.
    pub open spec fn spec_last_id(&self) -> int {
        self.lotteries@.len() as int
    }

    /// Whether `lottery_id` is in the registry.
    pub open spec fn spec_valid_id(&self, lottery_id: u32) -> bool {
        1 <= lottery_id <= self.spec_last_id()
    }

    /// The stored record of a known lottery.
    pub open spec fn spec_lottery(&self, lottery_id: u32) -> LotteryObj {
        self.lotteries@[lottery_id - 1]
    }

    /// The stored status of a known lottery.
    pub open spec fn spec_status(&self, lottery_id: u32) -> LotteryStatus {
        self.spec_lottery(lottery_id).status
    }

    /// The tickets of a known lottery, in insertion order. The position in
    /// this sequence is the index space the draw picks from.
    pub open spec fn spec_tickets(&self, lottery_id: u32) -> Seq<Ticket> {
        self.ticket_lists@[lottery_id - 1]@
    }

    /// The configured address of the randomness service.
    pub open spec fn spec_picker_address(&self) -> u64 {
        self.picker_address
    }

    /// Create an empty ledger, with the randomness service at
    /// `random_picker_address` and no lottery yet.
    pub fn init(random_picker_address: u64) -> (r: Lottery)
        ensures
            r.wf(),
            r.spec_last_id() == 0,
            r.spec_picker_address() == random_picker_address,
    {
        Lottery {
            lotteries: Vec::new(),
            ticket_lists: Vec::new(),
            picker_address: random_picker_address,
        }
    }

    /// Point the ledger at a new randomness service; nothing else changes.
    pub fn upgrade(&mut self, random_picker_address: u64)
        requires
            old(self).wf(),
        ensures
            final(self).wf(),
            final(self).spec_picker_address() == random_picker_address,
            final(self).lotteries@ == old(self).lotteries@,
            final(self).ticket_lists@ == old(self).ticket_lists@,
    {
        self.picker_address = random_picker_address;
    }

    /// The last assigned lottery id.
    pub fn last_lottery_id(&self) -> (r: u32)
        requires
            self.wf(),
        ensures
            r == self.spec_last_id(),
    {
        self.lotteries.len() as u32
    }

    /// The configured address of the randomness service.
    pub fn random_picker_address(&self) -> (r: u64)
        ensures
            r == self.spec_picker_address(),
    {
        self.picker_address
    }

    /// Overwrite the stored status of a known lottery; nothing else
    /// changes. The new status must lie forward of the old one, so the
    /// ledger can only advance along `Opened -> Closed -> {Completed,
    /// Failed}`.
    pub fn set_lottery_status(&mut self, lottery_id: u32, new_status: LotteryStatus)
        requires
            old(self).wf(),
            old(self).spec_valid_id(lottery_id),
            status_progresses(old(self).spec_status(lottery_id), new_status),
        ensures
            final(self).wf(),
            final(self).spec_last_id() == old(self).spec_last_id(),
            final(self).spec_lottery(lottery_id)
                == (LotteryObj { status: new_status, ..old(self).spec_lottery(lottery_id) }),
            forall|j: u32| old(self).spec_valid_id(j) && j != lottery_id
                ==> final(self).spec_lottery(j) == old(self).spec_lottery(j),
            final(self).ticket_lists@ == old(self).ticket_lists@,
            final(self).spec_picker_address() == old(self).spec_picker_address(),
            forall|j: u32| old(self).spec_valid_id(j)
                ==> status_progresses(old(self).spec_status(j), final(self).spec_status(j)),
    {
        let idx = (lottery_id - 1) as usize;
        self.lotteries[idx].status = new_status;
    }

    /// Apply the state machine lazily and persist its result: an `Opened`
    /// lottery past its deadline becomes `Closed`; any other status is
    /// returned unchanged. Idempotent, and never moves a status backward.
    pub fn update_lottery_status(&mut self, lottery_id: u32, now: u64) -> (st: LotteryStatus)
        requires
            old(self).wf(),
            old(self).spec_valid_id(lottery_id),
        ensures
            final(self).wf(),
            st == spec_resolved_status(
                old(self).spec_status(lottery_id),
                old(self).spec_lottery(lottery_id).deadline,
                now,
            ),
            final(self).spec_last_id() == old(self).spec_last_id(),
            final(self).spec_lottery(lottery_id)
                == (LotteryObj { status: st, ..old(self).spec_lottery(lottery_id) }),
            forall|j: u32| old(self).spec_valid_id(j) && j != lottery_id
                ==> final(self).spec_lottery(j) == old(self).spec_lottery(j),
            final(self).ticket_lists@ == old(self).ticket_lists@,
            final(self).spec_picker_address() == old(self).spec_picker_address(),
            forall|j: u32| old(self).spec_valid_id(j)
                ==> status_progresses(old(self).spec_status(j), final(self).spec_status(j)),
    {
        let idx = (lottery_id - 1) as usize;
        let lottery = self.lotteries[idx];
        match lottery.status {
            LotteryStatus::Opened => {
                if now > lottery.deadline {
                    self.set_lottery_status(lottery_id, LotteryStatus::Closed);
                    LotteryStatus::Closed
                } else {
                    lottery.status
                }
            },
            _ => lottery.status,
        }
    }

    /// Create a new lottery. The host hands in the current timestamp, the
    /// caller and the attached prize payment; the new record starts
    /// `Opened` with no tickets, under the next id. Fails, changing
    /// nothing, when the deadline has already passed or the ticket price
    /// is zero.
    pub fn create_lottery(
        &mut self,
        ticket_price: u128,
        deadline: u64,
        now: u64,
        creator: u64,
        prize_token: u64,
        token_nonce: u64,
        prize: u128,
    ) -> (r: Result<u32, LotteryError>)
        requires
            old(self).wf(),
            old(self).spec_last_id() < u32::MAX,
        ensures
            final(self).wf(),
            r is Ok <==> (now < deadline && ticket_price > 0),
            r is Err ==> *final(self) == *old(self),
            r is Err ==> r->Err_0 == (if now >= deadline {
                LotteryError::DeadlinePassed
            } else {
                LotteryError::InvalidTicketPrice
            }),
            r is Ok ==> {
                &&& r->Ok_0 == old(self).spec_last_id() + 1
                &&& final(self).spec_last_id() == old(self).spec_last_id() + 1
                &&& final(self).spec_lottery(r->Ok_0) == (LotteryObj {
                    creator,
                    prize_token,
                    token_nonce,
                    prize,
                    ticket_price,
                    deadline,
                    status: LotteryStatus::Opened,
                })
                &&& final(self).spec_tickets(r->Ok_0) == Seq::<Ticket>::empty()
                &&& forall|j: u32| old(self).spec_valid_id(j)
                    ==> final(self).spec_lottery(j) == old(self).spec_lottery(j)
                        && final(self).spec_tickets(j) == old(self).spec_tickets(j)
                &&& final(self).spec_picker_address() == old(self).spec_picker_address()
            },
            forall|j: u32| old(self).spec_valid_id(j)
                ==> status_progresses(old(self).spec_status(j), final(self).spec_status(j)),
    {
        if now >= deadline {
            return Err(LotteryError::DeadlinePassed);
        }
        if ticket_price == 0 {
            return Err(LotteryError::InvalidTicketPrice);
        }
        let new_lottery = LotteryObj {
            creator,
            prize_token,
            token_nonce,
            prize,
            ticket_price,
            deadline,
            status: LotteryStatus::Opened,
        };
        let lottery_id = self.lotteries.len() as u32 + 1;
        self.lotteries.push(new_lottery);
        self.ticket_lists.push(Vec::new());
        Ok(lottery_id)
    }

    /// The resolved status a purchase of `lottery_id` at time `now` sees.
    pub open spec fn spec_resolved(&self, lottery_id: u32, now: u64) -> LotteryStatus {
        spec_resolved_status(
            self.spec_status(lottery_id),
            self.spec_lottery(lottery_id).deadline,
            now,
        )
    }

    /// Whether a purchase with these arguments succeeds: the id is known,
    /// at least one ticket is asked for, the lottery's resolved status is
    /// `Opened`, and the payment covers ticket price times quantity.
    pub open spec fn spec_buy_ok(&self, lottery_id: u32, qty: u32, payment: u128, now: u64) -> bool {
        &&& self.spec_valid_id(lottery_id)
        &&& qty >= 1
        &&& self.spec_resolved(lottery_id, now) is Opened
        &&& payment >= self.spec_lottery(lottery_id).ticket_price * qty
    }

    /// The error a failing purchase reports: the first failing check, in
    /// the order existence, quantity, status, payment.
    pub open spec fn spec_buy_error(&self, lottery_id: u32, qty: u32, payment: u128, now: u64) -> LotteryError {
        if !self.spec_valid_id(lottery_id) {
            LotteryError::NotFound
        } else if qty < 1 {
            LotteryError::InvalidQuantity
        } else if !(self.spec_resolved(lottery_id, now) is Opened) {
            LotteryError::LotteryClosed
        } else {
            LotteryError::InsufficientPayment
        }
    }

    /// Buy tickets. The host hands in the current timestamp, the buyer and
    /// the attached native payment; on success `quantity` tickets are
    /// minted for the buyer, with sequence numbers `1..=quantity` and the
    /// purchase timestamp, appended to the lottery's ticket list. A missing
    /// quantity means 1. Any payment beyond ticket price times quantity is
    /// retained, never refunded. Fails, changing nothing, exactly when the
    /// id is unknown, the quantity is zero, the resolved status is not
    /// `Opened`, or the payment is short.
    pub fn buy_tickets(
        &mut self,
        lottery_id: u32,
        opt_quantity: Option<u32>,
        payment: u128,
        now: u64,
        buyer: u64,
    ) -> (r: Result<(), LotteryError>)
        requires
            old(self).wf(),
        ensures
            final(self).wf(),
            r is Ok <==> old(self).spec_buy_ok(lottery_id, spec_quantity(opt_quantity), payment, now),
            r is Err ==> *final(self) == *old(self),
            r is Err ==> r->Err_0 == old(self).spec_buy_error(
                lottery_id,
                spec_quantity(opt_quantity),
                payment,
                now,
            ),
            r is Ok ==> {
                &&& final(self).spec_tickets(lottery_id) == old(self).spec_tickets(lottery_id)
                    + minted_tickets(lottery_id, now, buyer, spec_quantity(opt_quantity))
                &&& final(self).spec_last_id() == old(self).spec_last_id()
                &&& forall|j: u32| old(self).spec_valid_id(j)
                    ==> final(self).spec_lottery(j) == old(self).spec_lottery(j)
                &&& forall|j: u32| old(self).spec_valid_id(j) && j != lottery_id
                    ==> final(self).spec_tickets(j) == old(self).spec_tickets(j)
                &&& final(self).spec_picker_address() == old(self).spec_picker_address()
            },
            forall|j: u32| old(self).spec_valid_id(j)
                ==> status_progresses(old(self).spec_status(j), final(self).spec_status(j)),
    {
        let quantity = match opt_quantity {
            Some(qty) => qty,
            None => 1,
        };
        if lottery_id < 1 || self.lotteries.len() < lottery_id as usize {
            return Err(LotteryError::NotFound);
        }
        if quantity < 1 {
            return Err(LotteryError::InvalidQuantity);
        }
        let idx = (lottery_id - 1) as usize;
        let lottery = self.lotteries[idx];
        let resolved = if lottery.status == LotteryStatus::Opened && now > lottery.deadline {
            LotteryStatus::Closed
        } else {
            lottery.status
        };
        if !(resolved == LotteryStatus::Opened) {
            return Err(LotteryError::LotteryClosed);
        }
        match lottery.ticket_price.checked_mul(quantity as u128) {
            None => {
                // The required amount exceeds what any payment can reach.
                return Err(LotteryError::InsufficientPayment);
            },
            Some(required_payment) => {
                if payment < required_payment {
                    return Err(LotteryError::InsufficientPayment);
                }
            },
        }
        let ghost tickets0 = self.spec_tickets(lottery_id);
        let mut i: u64 = 0;
        while i < quantity as u64
            invariant
                0 <= i <= quantity,
                self.wf(),
                idx == lottery_id - 1,
                self.spec_valid_id(lottery_id),
                self.lotteries@ == old(self).lotteries@,
                self.spec_picker_address() == old(self).spec_picker_address(),
                self.ticket_lists@.len() == old(self).ticket_lists@.len(),
                forall|j: u32| old(self).spec_valid_id(j) && j != lottery_id
                    ==> self.spec_tickets(j) == old(self).spec_tickets(j),
                self.spec_tickets(lottery_id)
                    == tickets0 + minted_tickets(lottery_id, now, buyer, i as u32),
            decreases quantity as u64 - i,
        {
            let new_ticket = Ticket { owner: buyer, lottery_id, timestamp: now, id: (i + 1) as u32 };
            self.ticket_lists[idx].push(new_ticket);
            proof {
                assert(self.spec_tickets(lottery_id)
                    =~= tickets0 + minted_tickets(lottery_id, now, buyer, (i + 1) as u32));
            }
            i = i + 1;
        }
        Ok(())
    }

    /// The refund a lottery without tickets owes: the full escrowed prize
    /// back to the creator.
    pub open spec fn spec_refund(&self, lottery_id: u32) -> Transfer {
        Transfer {
            to: self.spec_lottery(lottery_id).creator,
            payment: Payment::Asset {
                token: self.spec_lottery(lottery_id).prize_token,
                nonce: self.spec_lottery(lottery_id).token_nonce,
                amount: self.spec_lottery(lottery_id).prize,
            },
        }
    }

    /// Start the draw of a `Closed` lottery. With no ticket sold the prize
    /// goes straight back to the creator and the lottery is `Failed`; no
    /// randomness request is issued. With tickets sold the host is asked to
    /// request one random index in `[0, ticket count)` from the randomness
    /// service, bound to this lottery id so the reply comes back to exactly
    /// this lottery; the status stays `Closed` until the reply arrives.
    pub fn call_random_picker_async(&mut self, lottery_id: u32) -> (r: TriggerAction)
        requires
            old(self).wf(),
            old(self).spec_valid_id(lottery_id),
            old(self).spec_status(lottery_id) is Closed,
        ensures
            final(self).wf(),
            old(self).spec_tickets(lottery_id).len() > 0 ==> {
                &&& r == (TriggerAction::Dispatch {
                    upper_bound: old(self).spec_tickets(lottery_id).len() as usize,
                })
                &&& final(self).spec_lottery(lottery_id) == old(self).spec_lottery(lottery_id)
            },
            old(self).spec_tickets(lottery_id).len() == 0 ==> {
                &&& r == TriggerAction::Refund(old(self).spec_refund(lottery_id))
                &&& final(self).spec_lottery(lottery_id) == (LotteryObj {
                    status: LotteryStatus::Failed,
                    ..old(self).spec_lottery(lottery_id)
                })
            },
            final(self).spec_last_id() == old(self).spec_last_id(),
            forall|j: u32| old(self).spec_valid_id(j) && j != lottery_id
                ==> final(self).spec_lottery(j) == old(self).spec_lottery(j),
            final(self).ticket_lists@ == old(self).ticket_lists@,
            final(self).spec_picker_address() == old(self).spec_picker_address(),
            forall|j: u32| old(self).spec_valid_id(j)
                ==> status_progresses(old(self).spec_status(j), final(self).spec_status(j)),
    {
        let idx = (lottery_id - 1) as usize;
        let max_index = self.ticket_lists[idx].len();
        if max_index > 0 {
            TriggerAction::Dispatch { upper_bound: max_index }
        } else {
            let lottery = self.lotteries[idx];
            self.set_lottery_status(lottery_id, LotteryStatus::Failed);
            TriggerAction::Refund(Transfer {
                to: lottery.creator,
                payment: Payment::Asset {
                    token: lottery.prize_token,
                    nonce: lottery.token_nonce,
                    amount: lottery.prize,
                },
            })
        }
    }

    /// Trigger the draw of a lottery. Resolves the status first, so an
    /// `Opened` lottery past its deadline closes here; then requires the
    /// resolved status to be `Closed` — `Completed` and `Failed` never
    /// satisfy this guard, which is what makes payout at most once. On
    /// success the returned action is the refund or the randomness request
    /// of [`Self::call_random_picker_async`]. Fails, changing nothing, when
    /// the id is unknown or the resolved status is not `Closed`.
    pub fn call_rewards(&mut self, lottery_id: u32, now: u64) -> (r: Result<TriggerAction, LotteryError>)
        requires
            old(self).wf(),
        ensures
            final(self).wf(),
            r is Ok <==> (old(self).spec_valid_id(lottery_id)
                && old(self).spec_resolved(lottery_id, now) is Closed),
            r is Err ==> *final(self) == *old(self),
            r is Err ==> r->Err_0 == (if !old(self).spec_valid_id(lottery_id) {
                LotteryError::NotFound
            } else {
                LotteryError::NotClosedOrAlreadyResolved
            }),
            r is Ok ==> {
                &&& old(self).spec_tickets(lottery_id).len() > 0 ==> {
                    &&& r->Ok_0 == (TriggerAction::Dispatch {
                        upper_bound: old(self).spec_tickets(lottery_id).len() as usize,
                    })
                    &&& final(self).spec_status(lottery_id) is Closed
                }
                &&& old(self).spec_tickets(lottery_id).len() == 0 ==> {
                    &&& r->Ok_0 == TriggerAction::Refund(old(self).spec_refund(lottery_id))
                    &&& final(self).spec_status(lottery_id) is Failed
                }
                &&& final(self).spec_lottery(lottery_id) == (LotteryObj {
                    status: final(self).spec_status(lottery_id),
                    ..old(self).spec_lottery(lottery_id)
                })
                &&& final(self).spec_last_id() == old(self).spec_last_id()
                &&& forall|j: u32| old(self).spec_valid_id(j) && j != lottery_id
                    ==> final(self).spec_lottery(j) == old(self).spec_lottery(j)
                &&& final(self).ticket_lists@ == old(self).ticket_lists@
                &&& final(self).spec_picker_address() == old(self).spec_picker_address()
            },
            forall|j: u32| old(self).spec_valid_id(j)
                ==> status_progresses(old(self).spec_status(j), final(self).spec_status(j)),
    {
        if lottery_id < 1 || self.lotteries.len() < lottery_id as usize {
            return Err(LotteryError::NotFound);
        }
        let idx = (lottery_id - 1) as usize;
        let lottery = self.lotteries[idx];
        let resolved = if lottery.status == LotteryStatus::Opened && now > lottery.deadline {
            LotteryStatus::Closed
        } else {
            lottery.status
        };
        if !(resolved == LotteryStatus::Closed) {
            return Err(LotteryError::NotClosedOrAlreadyResolved);
        }
        self.update_lottery_status(lottery_id, now);
        Ok(self.call_random_picker_async(lottery_id))
    }

    /// The proceeds a completed lottery owes its creator: ticket price
    /// times the number of tickets sold, in the platform's native unit.
    /// Overpayments beyond the required amount were retained by the
    /// contract and are not part of it.
    pub open spec fn spec_proceeds(&self, lottery_id: u32) -> int {
        self.spec_lottery(lottery_id).ticket_price * self.spec_tickets(lottery_id).len()
    }

    /// Pay a drawn lottery out: the escrowed prize to the winning ticket's
    /// owner, and the ticket proceeds to the creator, as one atomic pair of
    /// transfers; the lottery becomes `Completed`, which no later call can
    /// leave, so this runs at most once per id.
    pub fn distribute_prize(&mut self, lottery_id: u32, winning_ticket: Ticket) -> (r: (Transfer, Transfer))
        requires
            old(self).wf(),
            old(self).spec_valid_id(lottery_id),
            old(self).spec_status(lottery_id) is Closed,
            old(self).spec_proceeds(lottery_id) <= u128::MAX,
        ensures
            final(self).wf(),
            r.0 == (Transfer {
                to: winning_ticket.owner,
                payment: Payment::Asset {
                    token: old(self).spec_lottery(lottery_id).prize_token,
                    nonce: old(self).spec_lottery(lottery_id).token_nonce,
                    amount: old(self).spec_lottery(lottery_id).prize,
                },
            }),
            r.1 == (Transfer {
                to: old(self).spec_lottery(lottery_id).creator,
                payment: Payment::Native { amount: old(self).spec_proceeds(lottery_id) as u128 },
            }),
            final(self).spec_lottery(lottery_id) == (LotteryObj {
                status: LotteryStatus::Completed,
                ..old(self).spec_lottery(lottery_id)
            }),
            final(self).spec_last_id() == old(self).spec_last_id(),
            forall|j: u32| old(self).spec_valid_id(j) && j != lottery_id
                ==> final(self).spec_lottery(j) == old(self).spec_lottery(j),
            final(self).ticket_lists@ == old(self).ticket_lists@,
            final(self).spec_picker_address() == old(self).spec_picker_address(),
            forall|j: u32| old(self).spec_valid_id(j)
                ==> status_progresses(old(self).spec_status(j), final(self).spec_status(j)),
    {
        let idx = (lottery_id - 1) as usize;
        let lottery = self.lotteries[idx];
        let prize_transfer = Transfer {
            to: winning_ticket.owner,
            payment: Payment::Asset {
                token: lottery.prize_token,
                nonce: lottery.token_nonce,
                amount: lottery.prize,
            },
        };
        let ticket_qty = self.ticket_lists[idx].len();
        let amount = lottery.ticket_price * ticket_qty as u128;
        let proceeds_transfer = Transfer {
            to: lottery.creator,
            payment: Payment::Native { amount },
        };
        self.set_lottery_status(lottery_id, LotteryStatus::Completed);
        (prize_transfer, proceeds_transfer)
    }

    /// The error a failing draw reply reports: the first failing guard, in
    /// the order existence, status, reply.
    pub open spec fn spec_pick_error(&self, lottery_id: u32, result: DrawReply) -> LotteryError {
        if !self.spec_valid_id(lottery_id) {
            LotteryError::NotFound
        } else if !(self.spec_status(lottery_id) is Closed) {
            LotteryError::NotClosedOrAlreadyResolved
        } else {
            LotteryError::DrawFailed
        }
    }

    /// Consume the randomness service's reply for a lottery. On a success
    /// reply carrying an index, the winner is the ticket at that position
    /// in insertion order — the `(index + 1)`-th minted ticket across all
    /// purchases — and the payouts of [`Self::distribute_prize`] are owed.
    /// A failure reply is fatal for this attempt: nothing is paid, the
    /// status stays `Closed`, and the draw may be triggered again. The
    /// guards the hosting platform gave the callback are explicit here:
    /// the id must be known and the lottery still `Closed`, so a reply
    /// routed to a finished lottery pays nothing a second time.
    pub fn pick_winner(&mut self, lottery_id: u32, result: DrawReply) -> (r: Result<(Transfer, Transfer), LotteryError>)
        requires
            old(self).wf(),
            old(self).spec_valid_id(lottery_id)
                ==> old(self).spec_proceeds(lottery_id) <= u128::MAX,
            old(self).spec_valid_id(lottery_id) && old(self).spec_status(lottery_id) is Closed
                && result is Success
                ==> result->Success_0 < old(self).spec_tickets(lottery_id).len(),
        ensures
            final(self).wf(),
            r is Ok <==> (old(self).spec_valid_id(lottery_id)
                && old(self).spec_status(lottery_id) is Closed
                && result is Success),
            r is Err ==> *final(self) == *old(self),
            r is Err ==> r->Err_0 == old(self).spec_pick_error(lottery_id, result),
            r is Ok ==> {
                let winner = old(self).spec_tickets(lottery_id)[result->Success_0 as int];
                &&& r->Ok_0.0 == (Transfer {
                    to: winner.owner,
                    payment: Payment::Asset {
                        token: old(self).spec_lottery(lottery_id).prize_token,
                        nonce: old(self).spec_lottery(lottery_id).token_nonce,
                        amount: old(self).spec_lottery(lottery_id).prize,
                    },
                })
                &&& r->Ok_0.1 == (Transfer {
                    to: old(self).spec_lottery(lottery_id).creator,
                    payment: Payment::Native { amount: old(self).spec_proceeds(lottery_id) as u128 },
                })
                &&& final(self).spec_lottery(lottery_id) == (LotteryObj {
                    status: LotteryStatus::Completed,
                    ..old(self).spec_lottery(lottery_id)
                })
                &&& final(self).spec_last_id() == old(self).spec_last_id()
                &&& forall|j: u32| old(self).spec_valid_id(j) && j != lottery_id
                    ==> final(self).spec_lottery(j) == old(self).spec_lottery(j)
                &&& final(self).ticket_lists@ == old(self).ticket_lists@
                &&& final(self).spec_picker_address() == old(self).spec_picker_address()
            },
            forall|j: u32| old(self).spec_valid_id(j)
                ==> status_progresses(old(self).spec_status(j), final(self).spec_status(j)),
    {
        if lottery_id < 1 || self.lotteries.len() < lottery_id as usize {
            return Err(LotteryError::NotFound);
        }
        let idx = (lottery_id - 1) as usize;
        let status_closed = self.lotteries[idx].status == LotteryStatus::Closed;
        if !status_closed {
            return Err(LotteryError::NotClosedOrAlreadyResolved);
        }
        match result {
            DrawReply::Success(picked_index) => {
                let winning_ticket = self.ticket_lists[idx][picked_index];
                Ok(self.distribute_prize(lottery_id, winning_ticket))
            },
            DrawReply::Failure => Err(LotteryError::DrawFailed),
        }
    }

    /// The stored record of a lottery, or `NotFound` for an unknown id.
    pub fn lottery(&self, lottery_id: u32) -> (r: Result<LotteryObj, LotteryError>)
        requires
            self.wf(),
        ensures
            r is Ok <==> self.spec_valid_id(lottery_id),
            r is Ok ==> r->Ok_0 == self.spec_lottery(lottery_id),
            r is Err ==> r->Err_0 == LotteryError::NotFound,
    {
        if lottery_id < 1 || self.lotteries.len() < lottery_id as usize {
            return Err(LotteryError::NotFound);
        }
        Ok(self.lotteries[(lottery_id - 1) as usize])
    }

    /// The resolved status of a lottery at time `now`, or `NotFound` for an
    /// unknown id. Resolution is applied lazily here as at every other
    /// entry point, so an `Opened` lottery past its deadline reads — and is
    /// persisted — as `Closed`.
    pub fn get_lottery_status(&mut self, lottery_id: u32, now: u64) -> (r: Result<LotteryStatus, LotteryError>)
        requires
            old(self).wf(),
        ensures
            final(self).wf(),
            r is Ok <==> old(self).spec_valid_id(lottery_id),
            r is Err ==> *final(self) == *old(self) && r->Err_0 == LotteryError::NotFound,
            r is Ok ==> {
                &&& r->Ok_0 == old(self).spec_resolved(lottery_id, now)
                &&& final(self).spec_lottery(lottery_id) == (LotteryObj {
                    status: r->Ok_0,
                    ..old(self).spec_lottery(lottery_id)
                })
                &&& final(self).spec_last_id() == old(self).spec_last_id()
                &&& forall|j: u32| old(self).spec_valid_id(j) && j != lottery_id
                    ==> final(self).spec_lottery(j) == old(self).spec_lottery(j)
                &&& final(self).ticket_lists@ == old(self).ticket_lists@
                &&& final(self).spec_picker_address() == old(self).spec_picker_address()
            },
            forall|j: u32| old(self).spec_valid_id(j)
                ==> status_progresses(old(self).spec_status(j), final(self).spec_status(j)),
    {
        if lottery_id < 1 || self.lotteries.len() < lottery_id as usize {
            return Err(LotteryError::NotFound);
        }
        Ok(self.update_lottery_status(lottery_id, now))
    }

    /// The tickets of a lottery, in insertion order — the index space the
    /// draw picks from — or `NotFound` for an unknown id.
    pub fn tickets(&self, lottery_id: u32) -> (r: Result<Vec<Ticket>, LotteryError>)
        requires
            self.wf(),
        ensures
            r is Ok <==> self.spec_valid_id(lottery_id),
            r is Ok ==> r->Ok_0@ == self.spec_tickets(lottery_id),
            r is Err ==> r->Err_0 == LotteryError::NotFound,
    {
        if lottery_id < 1 || self.lotteries.len() < lottery_id as usize {
            return Err(LotteryError::NotFound);
        }
        let idx = (lottery_id - 1) as usize;
        let n = self.ticket_lists[idx].len();
        let mut out: Vec<Ticket> = Vec::new();
        let mut k: usize = 0;
        while k < n
            invariant
                self.wf(),
                idx == lottery_id - 1,
                self.spec_valid_id(lottery_id),
                n == self.spec_tickets(lottery_id).len(),
                0 <= k <= n,
                out@ == self.spec_tickets(lottery_id).take(k as int),
            decreases n - k,
        {
            out.push(self.ticket_lists[idx][k]);
            proof {
                assert(out@ =~= self.spec_tickets(lottery_id).take(k + 1));
            }
            k = k + 1;
        }
        proof {
            assert(out@ =~= self.spec_tickets(lottery_id));
        }
        Ok(out)
    }

    /// The registry of all lottery ids ever created: exactly `1..=last id`,
    /// since ids are assigned by a strictly increasing counter and never
    /// deleted.
    pub fn lotteries_id(&self) -> (r: Vec<u32>)
        requires
            self.wf(),
        ensures
            r@.len() == self.spec_last_id(),
            forall|k: int| 0 <= k < r@.len() ==> r@[k] == k + 1,
    {
        let n = self.lotteries.len();
        let mut out: Vec<u32> = Vec::new();
        let mut k: usize = 0;
        while k < n
            invariant
                n == self.spec_last_id(),
                n <= u32::MAX,
                0 <= k <= n,
                out@.len() == k,
                forall|m: int| 0 <= m < k ==> out@[m] == m + 1,
            decreases n - k,
        {
            out.push(k as u32 + 1);
            k = k + 1;
        }
        out
    }
}

} // verus!
