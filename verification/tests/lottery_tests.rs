use lottery::lottery::Lottery;
use lottery::types::{
    DrawReply, LotteryError, LotteryStatus, Payment, Transfer, TriggerAction,
};

const CREATOR: u64 = 11;
const BUYER: u64 = 22;
const OTHER_BUYER: u64 = 33;
const PRIZE_TOKEN: u64 = 7;
const PICKER: u64 = 900;
const DEADLINE: u64 = 1_000;

fn ledger_with_one_lottery() -> Lottery {
    let mut led = Lottery::init(PICKER);
    let id = led
        .create_lottery(10, DEADLINE, 500, CREATOR, PRIZE_TOKEN, 0, 100)
        .unwrap();
    assert_eq!(id, 1);
    led
}

#[test]
fn init_starts_empty() {
    let led = Lottery::init(PICKER);
    assert_eq!(led.last_lottery_id(), 0);
    assert_eq!(led.random_picker_address(), PICKER);
    assert_eq!(led.lotteries_id(), Vec::<u32>::new());
    assert_eq!(led.lottery(1).unwrap_err(), LotteryError::NotFound);
}

#[test]
fn upgrade_replaces_picker_address() {
    let mut led = ledger_with_one_lottery();
    led.upgrade(PICKER + 1);
    assert_eq!(led.random_picker_address(), PICKER + 1);
    assert_eq!(led.last_lottery_id(), 1);
}

#[test]
fn create_assigns_increasing_ids() {
    let mut led = Lottery::init(PICKER);
    let first = led
        .create_lottery(10, DEADLINE, 500, CREATOR, PRIZE_TOKEN, 0, 100)
        .unwrap();
    let second = led
        .create_lottery(25, DEADLINE + 5, 600, OTHER_BUYER, PRIZE_TOKEN + 1, 4, 900)
        .unwrap();
    assert_eq!(first, 1);
    assert_eq!(second, 2);
    assert_eq!(led.last_lottery_id(), 2);
    assert_eq!(led.lotteries_id(), vec![1, 2]);
    let record = led.lottery(2).unwrap();
    assert_eq!(record.creator, OTHER_BUYER);
    assert_eq!(record.prize_token, PRIZE_TOKEN + 1);
    assert_eq!(record.token_nonce, 4);
    assert_eq!(record.prize, 900);
    assert_eq!(record.ticket_price, 25);
    assert_eq!(record.deadline, DEADLINE + 5);
    assert_eq!(record.status, LotteryStatus::Opened);
}

#[test]
fn create_rejects_past_deadline() {
    let mut led = Lottery::init(PICKER);
    let r = led.create_lottery(10, DEADLINE, DEADLINE, CREATOR, PRIZE_TOKEN, 0, 100);
    assert_eq!(r.unwrap_err(), LotteryError::DeadlinePassed);
    let r = led.create_lottery(10, DEADLINE, DEADLINE + 1, CREATOR, PRIZE_TOKEN, 0, 100);
    assert_eq!(r.unwrap_err(), LotteryError::DeadlinePassed);
    assert_eq!(led.last_lottery_id(), 0);
}

#[test]
fn create_rejects_zero_ticket_price() {
    let mut led = Lottery::init(PICKER);
    let r = led.create_lottery(0, DEADLINE, 500, CREATOR, PRIZE_TOKEN, 0, 100);
    assert_eq!(r.unwrap_err(), LotteryError::InvalidTicketPrice);
    assert_eq!(led.last_lottery_id(), 0);
}

#[test]
fn buy_rejects_unknown_id() {
    let mut led = ledger_with_one_lottery();
    let r = led.buy_tickets(2, Some(1), 10, 600, BUYER);
    assert_eq!(r.unwrap_err(), LotteryError::NotFound);
    let r = led.buy_tickets(0, Some(1), 10, 600, BUYER);
    assert_eq!(r.unwrap_err(), LotteryError::NotFound);
}

#[test]
fn buy_rejects_zero_quantity() {
    let mut led = ledger_with_one_lottery();
    let r = led.buy_tickets(1, Some(0), 10, 600, BUYER);
    assert_eq!(r.unwrap_err(), LotteryError::InvalidQuantity);
    assert_eq!(led.tickets(1).unwrap().len(), 0);
}

#[test]
fn buy_rejects_closed_lottery() {
    let mut led = ledger_with_one_lottery();
    let r = led.buy_tickets(1, Some(1), 10, DEADLINE + 1, BUYER);
    assert_eq!(r.unwrap_err(), LotteryError::LotteryClosed);
    assert_eq!(led.tickets(1).unwrap().len(), 0);
}

#[test]
fn buy_rejects_short_payment() {
    let mut led = ledger_with_one_lottery();
    let r = led.buy_tickets(1, Some(3), 29, 600, BUYER);
    assert_eq!(r.unwrap_err(), LotteryError::InsufficientPayment);
    assert_eq!(led.tickets(1).unwrap().len(), 0);
}

#[test]
fn buy_defaults_to_one_ticket() {
    let mut led = ledger_with_one_lottery();
    led.buy_tickets(1, None, 10, 600, BUYER).unwrap();
    let tickets = led.tickets(1).unwrap();
    assert_eq!(tickets.len(), 1);
    assert_eq!(tickets[0].owner, BUYER);
    assert_eq!(tickets[0].lottery_id, 1);
    assert_eq!(tickets[0].timestamp, 600);
    assert_eq!(tickets[0].id, 1);
}

#[test]
fn buy_mints_sequence_numbers_per_call() {
    let mut led = ledger_with_one_lottery();
    led.buy_tickets(1, Some(3), 30, 600, BUYER).unwrap();
    led.buy_tickets(1, Some(2), 20, 700, OTHER_BUYER).unwrap();
    let tickets = led.tickets(1).unwrap();
    assert_eq!(tickets.len(), 5);
    for (pos, ticket) in tickets.iter().enumerate() {
        assert_eq!(ticket.lottery_id, 1);
        if pos < 3 {
            assert_eq!(ticket.owner, BUYER);
            assert_eq!(ticket.timestamp, 600);
            assert_eq!(ticket.id, pos as u32 + 1);
        } else {
            assert_eq!(ticket.owner, OTHER_BUYER);
            assert_eq!(ticket.timestamp, 700);
            assert_eq!(ticket.id, pos as u32 - 2);
        }
    }
}

#[test]
fn status_resolves_lazily_and_persists() {
    let mut led = ledger_with_one_lottery();
    assert_eq!(led.get_lottery_status(1, DEADLINE).unwrap(), LotteryStatus::Opened);
    assert_eq!(led.lottery(1).unwrap().status, LotteryStatus::Opened);
    assert_eq!(led.get_lottery_status(1, DEADLINE + 1).unwrap(), LotteryStatus::Closed);
    assert_eq!(led.lottery(1).unwrap().status, LotteryStatus::Closed);
    assert_eq!(
        led.get_lottery_status(2, DEADLINE).unwrap_err(),
        LotteryError::NotFound
    );
}

#[test]
fn trigger_rejects_open_lottery_before_deadline() {
    let mut led = ledger_with_one_lottery();
    led.buy_tickets(1, Some(1), 10, 600, BUYER).unwrap();
    let r = led.call_rewards(1, DEADLINE);
    assert_eq!(r.unwrap_err(), LotteryError::NotClosedOrAlreadyResolved);
    assert_eq!(led.lottery(1).unwrap().status, LotteryStatus::Opened);
}

#[test]
fn trigger_rejects_unknown_id() {
    let mut led = ledger_with_one_lottery();
    assert_eq!(led.call_rewards(0, 600).unwrap_err(), LotteryError::NotFound);
    assert_eq!(led.call_rewards(2, 600).unwrap_err(), LotteryError::NotFound);
}

#[test]
fn trigger_without_tickets_refunds_creator() {
    let mut led = ledger_with_one_lottery();
    let action = led.call_rewards(1, DEADLINE + 1).unwrap();
    assert_eq!(
        action,
        TriggerAction::Refund(Transfer {
            to: CREATOR,
            payment: Payment::Asset { token: PRIZE_TOKEN, nonce: 0, amount: 100 },
        })
    );
    assert_eq!(led.lottery(1).unwrap().status, LotteryStatus::Failed);
    // A failed lottery can never be triggered or drawn again.
    assert_eq!(
        led.call_rewards(1, DEADLINE + 2).unwrap_err(),
        LotteryError::NotClosedOrAlreadyResolved
    );
    assert_eq!(
        led.pick_winner(1, DrawReply::Success(0)).unwrap_err(),
        LotteryError::NotClosedOrAlreadyResolved
    );
}

#[test]
fn trigger_with_tickets_dispatches_ticket_count() {
    let mut led = ledger_with_one_lottery();
    led.buy_tickets(1, Some(3), 30, 600, BUYER).unwrap();
    led.buy_tickets(1, Some(2), 20, 700, OTHER_BUYER).unwrap();
    let action = led.call_rewards(1, DEADLINE + 1).unwrap();
    assert_eq!(action, TriggerAction::Dispatch { upper_bound: 5 });
    assert_eq!(led.lottery(1).unwrap().status, LotteryStatus::Closed);
}

#[test]
fn failed_reply_leaves_lottery_retryable() {
    let mut led = ledger_with_one_lottery();
    led.buy_tickets(1, Some(2), 20, 600, BUYER).unwrap();
    led.call_rewards(1, DEADLINE + 1).unwrap();
    let r = led.pick_winner(1, DrawReply::Failure);
    assert_eq!(r.unwrap_err(), LotteryError::DrawFailed);
    assert_eq!(led.lottery(1).unwrap().status, LotteryStatus::Closed);
    // The draw can be triggered again, and then succeed.
    let action = led.call_rewards(1, DEADLINE + 2).unwrap();
    assert_eq!(action, TriggerAction::Dispatch { upper_bound: 2 });
    let (prize, proceeds) = led.pick_winner(1, DrawReply::Success(0)).unwrap();
    assert_eq!(prize.to, BUYER);
    assert_eq!(proceeds.to, CREATOR);
    assert_eq!(led.lottery(1).unwrap().status, LotteryStatus::Completed);
}

#[test]
fn pick_winner_rejects_wrong_status() {
    let mut led = ledger_with_one_lottery();
    assert_eq!(
        led.pick_winner(2, DrawReply::Failure).unwrap_err(),
        LotteryError::NotFound
    );
    assert_eq!(
        led.pick_winner(1, DrawReply::Success(0)).unwrap_err(),
        LotteryError::NotClosedOrAlreadyResolved
    );
}

#[test]
fn winner_is_ticket_at_picked_position() {
    let mut led = ledger_with_one_lottery();
    led.buy_tickets(1, Some(2), 20, 600, BUYER).unwrap();
    led.buy_tickets(1, Some(1), 10, 700, OTHER_BUYER).unwrap();
    led.call_rewards(1, DEADLINE + 1).unwrap();
    // Position 2 is the third minted ticket across all purchases: the
    // second buyer's single ticket.
    let (prize, proceeds) = led.pick_winner(1, DrawReply::Success(2)).unwrap();
    assert_eq!(
        prize,
        Transfer {
            to: OTHER_BUYER,
            payment: Payment::Asset { token: PRIZE_TOKEN, nonce: 0, amount: 100 },
        }
    );
    assert_eq!(
        proceeds,
        Transfer { to: CREATOR, payment: Payment::Native { amount: 30 } }
    );
}

#[test]
fn overpayment_is_retained_not_counted_as_proceeds() {
    let mut led = ledger_with_one_lottery();
    // 50 paid where 30 would do: the tickets are minted all the same ...
    led.buy_tickets(1, Some(3), 50, 600, BUYER).unwrap();
    led.call_rewards(1, DEADLINE + 1).unwrap();
    let (_, proceeds) = led.pick_winner(1, DrawReply::Success(0)).unwrap();
    // ... and the creator's proceeds are price times quantity, not the payment.
    assert_eq!(proceeds.payment, Payment::Native { amount: 30 });
}

#[test]
fn distribute_prize_pays_and_completes() {
    let mut led = ledger_with_one_lottery();
    led.buy_tickets(1, Some(2), 20, 600, BUYER).unwrap();
    led.call_rewards(1, DEADLINE + 1).unwrap();
    let tickets = led.tickets(1).unwrap();
    let (prize, proceeds) = led.distribute_prize(1, tickets[1]);
    assert_eq!(
        prize,
        Transfer {
            to: BUYER,
            payment: Payment::Asset { token: PRIZE_TOKEN, nonce: 0, amount: 100 },
        }
    );
    assert_eq!(
        proceeds,
        Transfer { to: CREATOR, payment: Payment::Native { amount: 20 } }
    );
    assert_eq!(led.lottery(1).unwrap().status, LotteryStatus::Completed);
}

#[test]
fn update_lottery_status_is_idempotent() {
    let mut led = ledger_with_one_lottery();
    assert_eq!(led.update_lottery_status(1, DEADLINE), LotteryStatus::Opened);
    assert_eq!(led.update_lottery_status(1, DEADLINE + 1), LotteryStatus::Closed);
    assert_eq!(led.update_lottery_status(1, DEADLINE + 2), LotteryStatus::Closed);
    // Resolution never reopens: a time before the deadline changes nothing now.
    assert_eq!(led.update_lottery_status(1, 0), LotteryStatus::Closed);
}

#[test]
fn set_lottery_status_moves_forward() {
    let mut led = ledger_with_one_lottery();
    led.set_lottery_status(1, LotteryStatus::Closed);
    assert_eq!(led.lottery(1).unwrap().status, LotteryStatus::Closed);
    led.set_lottery_status(1, LotteryStatus::Failed);
    assert_eq!(led.lottery(1).unwrap().status, LotteryStatus::Failed);
}

#[test]
fn lotteries_are_independent() {
    let mut led = Lottery::init(PICKER);
    led.create_lottery(10, DEADLINE, 500, CREATOR, PRIZE_TOKEN, 0, 100).unwrap();
    led.create_lottery(5, DEADLINE * 2, 500, OTHER_BUYER, PRIZE_TOKEN, 1, 40).unwrap();
    led.buy_tickets(2, Some(4), 20, 600, BUYER).unwrap();
    let action = led.call_rewards(1, DEADLINE + 1).unwrap();
    assert!(matches!(action, TriggerAction::Refund(_)));
    // The first lottery failed; the second is untouched and still open.
    assert_eq!(led.lottery(1).unwrap().status, LotteryStatus::Failed);
    assert_eq!(led.lottery(2).unwrap().status, LotteryStatus::Opened);
    assert_eq!(led.tickets(2).unwrap().len(), 4);
    led.buy_tickets(2, Some(1), 5, DEADLINE + 2, BUYER).unwrap();
    assert_eq!(led.tickets(2).unwrap().len(), 5);
}

#[test]
fn full_draw_scenario() {
    let mut led = Lottery::init(PICKER);
    let id = led
        .create_lottery(10, DEADLINE, 500, CREATOR, PRIZE_TOKEN, 0, 100)
        .unwrap();
    assert_eq!(id, 1);
    assert_eq!(led.get_lottery_status(1, 500).unwrap(), LotteryStatus::Opened);

    led.buy_tickets(1, Some(3), 30, 600, BUYER).unwrap();
    let tickets = led.tickets(1).unwrap();
    assert_eq!(tickets.len(), 3);
    assert_eq!(
        tickets.iter().map(|t| t.id).collect::<Vec<u32>>(),
        vec![1, 2, 3]
    );

    let action = led.call_rewards(1, DEADLINE + 1).unwrap();
    assert_eq!(action, TriggerAction::Dispatch { upper_bound: 3 });
    assert_eq!(led.lottery(1).unwrap().status, LotteryStatus::Closed);

    // Reply index 1: the prize goes to the second-minted ticket's owner,
    // the proceeds to the creator, and the lottery completes.
    let (prize, proceeds) = led.pick_winner(1, DrawReply::Success(1)).unwrap();
    assert_eq!(prize.to, tickets[1].owner);
    assert_eq!(
        prize.payment,
        Payment::Asset { token: PRIZE_TOKEN, nonce: 0, amount: 100 }
    );
    assert_eq!(
        proceeds,
        Transfer { to: CREATOR, payment: Payment::Native { amount: 30 } }
    );
    assert_eq!(led.lottery(1).unwrap().status, LotteryStatus::Completed);

    // A second trigger now fails: the prize cannot be distributed twice.
    assert_eq!(
        led.call_rewards(1, DEADLINE + 2).unwrap_err(),
        LotteryError::NotClosedOrAlreadyResolved
    );
}
