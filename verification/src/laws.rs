//! The laws the state machine obeys, proved once and for all.

use vstd::prelude::*;

use crate::types::{minted_tickets, spec_resolved_status, status_progresses, LotteryStatus, Ticket};

verus! {

/// Law: resolving a status never moves it backward — the lazily applied
/// transition only advances along `Opened -> Closed -> {Completed, Failed}`.
pub proof fn lemma_resolved_status_progresses(status: LotteryStatus, deadline: u64, now: u64)
    ensures
        status_progresses(status, spec_resolved_status(status, deadline, now)),
{
}

/// Law: `Completed` and `Failed` are terminal — nothing reachable from a
/// terminal status differs from it, so once a lottery's prize has been
/// distributed or refunded its status can never change again.
pub proof fn lemma_terminal_status_is_final(a: LotteryStatus, b: LotteryStatus)
    requires
        status_progresses(a, b),
        a is Completed || a is Failed,
    ensures
        b == a,
{
}

/// Law: progress is transitive, so the monotonicity each entry point
/// guarantees for one call extends to any sequence of calls.
pub proof fn lemma_status_progresses_transitive(a: LotteryStatus, b: LotteryStatus, c: LotteryStatus)
    requires
        status_progresses(a, b),
        status_progresses(b, c),
    ensures
        status_progresses(a, c),
{
}

/// Law (payout at most once): a finished lottery never resolves to
/// `Closed` again, and `Closed` is the only status on which
/// `Lottery::call_rewards` refunds or dispatches and the only one on which
/// `Lottery::pick_winner` pays — so after the one call that moved a
/// lottery to `Failed` or `Completed`, both return an error and transfer
/// nothing, whatever the time.
pub proof fn lemma_finished_lottery_never_pays_again(status: LotteryStatus, deadline: u64, now: u64)
    requires
        status is Completed || status is Failed,
    ensures
        !(spec_resolved_status(status, deadline, now) is Closed),
        spec_resolved_status(status, deadline, now) == status,
{
}

/// What one successful purchase contributes to a lottery's ticket list:
/// its timestamp, its buyer, and how many tickets it bought.
pub struct Purchase {
    /// The timestamp the purchase was made at.
    pub timestamp: u64,
    /// Who bought, and so owns, the minted tickets.
    pub buyer: u64,
    /// How many tickets the purchase minted.
    pub qty: u32,
}

/// The ticket list a run of successful purchases leaves behind on one
/// lottery: starting from `init`, each purchase appends its minted tickets
/// in call order — exactly what `Lottery::buy_tickets` ensures of each
/// single call.
pub open spec fn tickets_after_buys(init: Seq<Ticket>, lottery_id: u32, buys: Seq<Purchase>) -> Seq<Ticket>
    decreases buys.len(),
{
    if buys.len() == 0 {
        init
    } else {
        tickets_after_buys(init, lottery_id, buys.drop_last())
            + minted_tickets(lottery_id, buys.last().timestamp, buys.last().buyer, buys.last().qty)
    }
}

/// The total quantity a run of purchases asked for.
pub open spec fn sum_quantities(buys: Seq<Purchase>) -> int
    decreases buys.len(),
{
    if buys.len() == 0 {
        0
    } else {
        sum_quantities(buys.drop_last()) + buys.last().qty
    }
}

/// The position in the ticket list where purchase `b`'s tickets start: the
/// initial tickets plus everything the earlier purchases minted.
pub open spec fn batch_start(init: Seq<Ticket>, buys: Seq<Purchase>, b: int) -> int {
    init.len() + sum_quantities(buys.take(b))
}

/// A run of purchases never asks for a negative total.
pub proof fn lemma_sum_quantities_nonneg(buys: Seq<Purchase>)
    ensures
        sum_quantities(buys) >= 0,
    decreases buys.len(),
{
    if buys.len() > 0 {
        lemma_sum_quantities_nonneg(buys.drop_last());
    }
}

/// A prefix of a purchase run never asks for more than the whole run.
pub proof fn lemma_sum_quantities_take_le(buys: Seq<Purchase>, b: int)
    requires
        0 <= b <= buys.len(),
    ensures
        sum_quantities(buys.take(b)) <= sum_quantities(buys),
    decreases buys.len(),
{
    if b < buys.len() {
        lemma_sum_quantities_take_le(buys.drop_last(), b);
        assert(buys.take(b) =~= buys.drop_last().take(b));
    } else {
        assert(buys.take(b) =~= buys);
    }
}

/// Taking one more purchase adds exactly its quantity to the sum.
pub proof fn lemma_sum_quantities_take_succ(buys: Seq<Purchase>, b: int)
    requires
        0 <= b < buys.len(),
    ensures
        sum_quantities(buys.take(b + 1)) == sum_quantities(buys.take(b)) + buys[b].qty,
{
    assert(buys.take(b + 1).drop_last() =~= buys.take(b));
}

/// Law (ticket conservation): after `N` successful purchases with
/// quantities `q1..qN` on one lottery, its ticket count equals the initial
/// count plus the sum of the quantities.
pub proof fn lemma_ticket_count_after_buys(init: Seq<Ticket>, lottery_id: u32, buys: Seq<Purchase>)
    ensures
        tickets_after_buys(init, lottery_id, buys).len() == init.len() + sum_quantities(buys),
    decreases buys.len(),
{
    if buys.len() > 0 {
        lemma_ticket_count_after_buys(init, lottery_id, buys.drop_last());
    }
}

/// The `(k + 1)`-th ticket that purchase `b` of a run put into the list:
/// the ticket standing `k` places after [`batch_start`].
pub open spec fn ticket_of_batch(
    init: Seq<Ticket>,
    lottery_id: u32,
    buys: Seq<Purchase>,
    b: int,
    k: int,
) -> Ticket {
    tickets_after_buys(init, lottery_id, buys)[batch_start(init, buys, b) + k]
}

/// Law (sequence numbers): after any run of successful purchases, purchase
/// `b`'s tickets stand consecutively from [`batch_start`], each carrying
/// its purchase's timestamp and buyer and the sequence numbers `1..=qty`
/// in order — so within each call the numbers run `1..=qi`, and the
/// position of a ticket in the list identifies the purchase it came from.
pub proof fn lemma_sequence_numbers_after_buys(init: Seq<Ticket>, lottery_id: u32, buys: Seq<Purchase>)
    ensures
        forall|b: int, k: int|
            0 <= b < buys.len() && 0 <= k < buys[b].qty
                ==> #[trigger] ticket_of_batch(init, lottery_id, buys, b, k)
                    == (Ticket {
                        owner: buys[b].buyer,
                        lottery_id: lottery_id,
                        timestamp: buys[b].timestamp,
                        id: (k + 1) as u32,
                    }),
    decreases buys.len(),
{
    if buys.len() > 0 {
        let n = buys.len() as int;
        let pre = buys.drop_last();
        let prefix = tickets_after_buys(init, lottery_id, pre);
        lemma_sequence_numbers_after_buys(init, lottery_id, pre);
        lemma_ticket_count_after_buys(init, lottery_id, pre);
        assert forall|b: int, k: int|
            0 <= b < n && 0 <= k < buys[b].qty
                implies #[trigger] ticket_of_batch(init, lottery_id, buys, b, k)
                    == (Ticket {
                        owner: buys[b].buyer,
                        lottery_id: lottery_id,
                        timestamp: buys[b].timestamp,
                        id: (k + 1) as u32,
                    }) by {
            let tail = minted_tickets(lottery_id, buys.last().timestamp, buys.last().buyer, buys.last().qty);
            assert(tickets_after_buys(init, lottery_id, buys) == prefix + tail);
            if b < n - 1 {
                assert(buys.take(b) =~= pre.take(b));
                assert(buys[b] == pre[b]);
                lemma_sum_quantities_take_succ(pre, b);
                lemma_sum_quantities_take_le(pre, b + 1);
                lemma_sum_quantities_nonneg(pre.take(b));
                assert(batch_start(init, buys, b) == batch_start(init, pre, b));
                assert(batch_start(init, buys, b) + k < prefix.len());
                assert(ticket_of_batch(init, lottery_id, buys, b, k)
                    == prefix[batch_start(init, pre, b) + k]);
                assert(ticket_of_batch(init, lottery_id, pre, b, k)
                    == (Ticket {
                        owner: buys[b].buyer,
                        lottery_id: lottery_id,
                        timestamp: buys[b].timestamp,
                        id: (k + 1) as u32,
                    }));
            } else {
                assert(buys.take(b) =~= pre);
                assert(batch_start(init, buys, b) == prefix.len());
                assert(ticket_of_batch(init, lottery_id, buys, b, k) == tail[k]);
                assert(tail[k] == (Ticket {
                    owner: buys[b].buyer,
                    lottery_id: lottery_id,
                    timestamp: buys[b].timestamp,
                    id: (k + 1) as u32,
                }));
            }
        }
    }
}

} // verus!
