use vstd::prelude::*;
use crate::authority::Authority;
use crate::auction::{
    Auction,
    AuctionErr,
    Bid,
    CloseAuction,
    EscrowTransfer,
    Settlement,
    bid_authorized,
    bid_outcome,
    close_authorized,
    close_outcome,
    refund_transfer,
};

verus! {

/// An accepted bid moves funds out of escrow at most once: only the first
/// transfer may leave the escrow, it is the refund, and it returns the price
/// recorded before the bid to the claimed refund receiver.
pub proof fn lemma_bid_refunds_at_most_once(
    before: Auction,
    after: Auction,
    acc: Bid,
    price: u64,
    authority: Authority,
    ts: Vec<EscrowTransfer>,
)
    requires
        bid_outcome(before, after, acc, price, authority, Ok(ts)),
    ensures
        ts@.len() <= 2,
        forall|i: int|
            0 <= i < ts@.len() && (#[trigger] ts@[i]).from == before.currency_holder ==> i == 0
                && ts@[i] == refund_transfer(before, acc, authority) && ts@[i].amount
                == before.price && ts@[i].to == acc.ori_refund_receiver,
{
}

/// The first bid on a fresh auction, whose refund receiver is the sentinel,
/// moves nothing out of escrow.
pub proof fn lemma_first_bid_refunds_nothing(
    before: Auction,
    after: Auction,
    acc: Bid,
    price: u64,
    authority: Authority,
    ts: Vec<EscrowTransfer>,
)
    requires
        before.refund_receiver.is_zero_spec(),
        bid_outcome(before, after, acc, price, authority, Ok(ts)),
    ensures
        ts@.len() == 1,
        forall|i: int| 0 <= i < ts@.len() ==> (#[trigger] ts@[i]).from != before.currency_holder,
{
}

/// An accepted bid keeps the escrow records, raises the price and names the
/// caller as the bidder.
pub proof fn lemma_bid_raises_price(
    before: Auction,
    after: Auction,
    acc: Bid,
    price: u64,
    authority: Authority,
    ts: Vec<EscrowTransfer>,
)
    requires
        bid_outcome(before, after, acc, price, authority, Ok(ts)),
    ensures
        after.ongoing,
        after.price > before.price,
        after.bidder == acc.bidder,
        after.seller == before.seller,
        after.item_holder == before.item_holder,
        after.currency_holder == before.currency_holder,
        !after.refund_receiver.is_zero_spec(),
{
}

/// A closed auction stays closed: after an accepted close the record is
/// terminal, and any later close or bid is refused with `InvalidState` and
/// leaves it as it is.
pub proof fn lemma_close_is_terminal(
    before: Auction,
    after: Auction,
    acc: CloseAuction,
    authority: Authority,
    s: Settlement,
    later: Auction,
    acc2: CloseAuction,
    authority2: Authority,
    r2: Result<Settlement, AuctionErr>,
    bid_after: Auction,
    bid_acc: Bid,
    price: u64,
    authority3: Authority,
    r3: Result<Vec<EscrowTransfer>, AuctionErr>,
)
    requires
        close_outcome(before, after, acc, authority, Ok(s)),
        close_outcome(after, later, acc2, authority2, r2),
        bid_outcome(after, bid_after, bid_acc, price, authority3, r3),
    ensures
        !after.ongoing,
        after.seller == before.seller,
        after.item_holder == before.item_holder,
        after.currency_holder == before.currency_holder,
        after.bidder == before.bidder,
        after.price == before.price,
        r2 == Err::<Settlement, AuctionErr>(AuctionErr::InvalidState),
        later == after,
        r3 == Err::<Vec<EscrowTransfer>, AuctionErr>(AuctionErr::InvalidState),
        bid_after == after,
{
}

/// An accepted close always moves the whole item balance to the item
/// receiver, and moves the price to the currency receiver exactly when the
/// escrow holds at least the price.
pub proof fn lemma_close_settles_item(
    before: Auction,
    after: Auction,
    acc: CloseAuction,
    authority: Authority,
    s: Settlement,
)
    requires
        close_outcome(before, after, acc, authority, Ok(s)),
    ensures
        s.item_spec().from == before.item_holder,
        s.item_spec().to == acc.item_receiver.key,
        s.item_spec().amount == acc.item_holder.amount,
        s.currency_spec() is Some <==> acc.currency_holder.amount >= before.price,
        s.currency_spec() matches Some(c) ==> c.from == before.currency_holder && c.to
            == acc.currency_receiver.key && c.amount == before.price,
{
}

/// An open auction refuses a bid whose accounts fail an owner or authority
/// check with `AuthorizationMismatch`, keeping the record and asking for no
/// transfer.
pub proof fn lemma_bid_substitution_rejected(
    before: Auction,
    after: Auction,
    acc: Bid,
    price: u64,
    authority: Authority,
    r: Result<Vec<EscrowTransfer>, AuctionErr>,
)
    requires
        before.ongoing,
        !bid_authorized(before, acc, authority),
        bid_outcome(before, after, acc, price, authority, r),
    ensures
        r == Err::<Vec<EscrowTransfer>, AuctionErr>(AuctionErr::AuthorizationMismatch),
        after == before,
{
}

/// An open auction refuses a close whose accounts fail an owner or authority
/// check with `AuthorizationMismatch`, keeping the record and asking for no
/// transfer.
pub proof fn lemma_close_substitution_rejected(
    before: Auction,
    after: Auction,
    acc: CloseAuction,
    authority: Authority,
    r: Result<Settlement, AuctionErr>,
)
    requires
        before.ongoing,
        !close_authorized(before, acc, authority),
        close_outcome(before, after, acc, authority, r),
    ensures
        r == Err::<Settlement, AuctionErr>(AuctionErr::AuthorizationMismatch),
        after == before,
{
}

} // verus!
