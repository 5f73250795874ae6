use vstd::prelude::*;
use crate::address::Address;
use crate::authority::{Authority, derive_authority, program_address_of};

verus! {

/// Why an operation was refused. A refused operation changes no record and
/// asks for no transfer.
#[derive(Clone, Copy, Debug, PartialEq, Eq, Structural)]
pub enum AuctionErr {
    /// A bid that does not exceed the current price.
    BidTooLow,
    /// A supplied account, owner or authority differs from the one expected.
    AuthorizationMismatch,
    /// A balance cannot cover a transfer the operation needs.
    InsufficientFunds,
    /// The auction is closed.
    InvalidState,
    /// No custodial authority can be derived from the seller's address.
    AuthorityUnavailable,
}

/// A token balance record as the operations see it: its own address, its
/// recorded owner and the amount it holds.
#[derive(Clone, Copy, Debug, PartialEq, Eq)]
pub struct TokenAccount {
    pub key: Address,
    pub owner: Address,
    pub amount: u64,
}

/// The persisted state of one auction.
#[derive(Clone, Copy, Debug, PartialEq, Eq)]
pub struct Auction {
    pub ongoing: bool,
    pub seller: Address,
    pub item_holder: Address,
    pub currency_holder: Address,
    pub bidder: Address,
    pub refund_receiver: Address,
    pub price: u64,
}

impl Auction {
    /// Before the first bid the seller stands as the bidder; a bid always
    /// names a funding account other than the sentinel.
    pub open spec fn wf(self) -> bool {
        self.refund_receiver.is_zero_spec() ==> self.bidder == self.seller
    }
}

/// One call of the token-transfer service: move `amount` from `from` to `to`
/// with `authority` as the signing owner. With `signer` set the program signs
/// for that derived authority; otherwise the caller's own signature is used.
#[derive(Clone, Copy, Debug, PartialEq, Eq)]
pub struct EscrowTransfer {
    pub from: Address,
    pub to: Address,
    pub authority: Address,
    pub amount: u64,
    pub signer: Option<Authority>,
}

/// The accounts handed to the create operation.
#[derive(Clone, Copy, Debug, PartialEq, Eq)]
pub struct CreateAuction {
    pub seller: Address,
    pub item_holder: TokenAccount,
    pub currency_holder: TokenAccount,
}

/// The accounts handed to the bid operation.
#[derive(Clone, Copy, Debug, PartialEq, Eq)]
pub struct Bid {
    pub bidder: Address,
    pub from: TokenAccount,
    pub from_auth: Address,
    pub currency_holder: TokenAccount,
    pub currency_holder_auth: Address,
    pub ori_refund_receiver: Address,
}

/// The accounts handed to the close operation.
#[derive(Clone, Copy, Debug, PartialEq, Eq)]
pub struct CloseAuction {
    pub seller: Address,
    pub item_holder: TokenAccount,
    pub item_holder_auth: Address,
    pub item_receiver: TokenAccount,
    pub currency_holder: TokenAccount,
    pub currency_holder_auth: Address,
    pub currency_receiver: TokenAccount,
}

/// The transfers that settle a closed auction. The item always moves; the
/// payment moves only when the escrow holds the full price.
#[derive(Clone, Copy, Debug, PartialEq, Eq)]
pub enum Settlement {
    Settled { item: EscrowTransfer, currency: EscrowTransfer },
    SettlementPartial { item: EscrowTransfer },
}

impl Settlement {
    pub open spec fn item_spec(self) -> EscrowTransfer {
        match self {
            Settlement::Settled { item, .. } => item,
            Settlement::SettlementPartial { item } => item,
        }
    }

    pub open spec fn currency_spec(self) -> Option<EscrowTransfer> {
        match self {
            Settlement::Settled { currency, .. } => Some(currency),
            Settlement::SettlementPartial { .. } => None,
        }
    }
}

// ---------------------------------------------------------------- create

/// Both escrow records are owned by the seller's derived authority.
pub open spec fn create_authorized(acc: CreateAuction, authority: Authority) -> bool {
    &&& acc.item_holder.owner == authority.address
    &&& acc.currency_holder.owner == authority.address
}

/// The record a successful create produces.
pub open spec fn created(acc: CreateAuction, start_price: u64, r: Auction) -> bool {
    &&& r.ongoing
    &&& r.seller == acc.seller
    &&& r.item_holder == acc.item_holder.key
    &&& r.currency_holder == acc.currency_holder.key
    &&& r.bidder == acc.seller
    &&& r.refund_receiver.is_zero_spec()
    &&& r.price == start_price
}

/// Creates the record of a new auction, given the seller's derived authority.
pub fn create_auction_with_authority(
    accounts: &CreateAuction,
    authority: &Authority,
    start_price: u64,
) -> (r: Result<Auction, AuctionErr>)
    requires
        authority.seller == accounts.seller,
    ensures
        match r {
            Ok(a) => create_authorized(*accounts, *authority) && created(*accounts, start_price, a)
                && a.wf(),
            Err(e) => !create_authorized(*accounts, *authority) && e
                == AuctionErr::AuthorizationMismatch,
        },
{
    if !(accounts.item_holder.owner == authority.address) || !(accounts.currency_holder.owner
        == authority.address) {
        return Err(AuctionErr::AuthorizationMismatch);
    }
    Ok(
        Auction {
            ongoing: true,
            seller: accounts.seller,
            item_holder: accounts.item_holder.key,
            currency_holder: accounts.currency_holder.key,
            bidder: accounts.seller,
            refund_receiver: Address::zero(),
            price: start_price,
        },
    )
}

/// Creates the record of a new auction whose escrow records must be owned by
/// the authority derived from the seller under `program_id`.
pub fn create_auction(accounts: &CreateAuction, program_id: &Address, start_price: u64) -> (r:
    Result<Auction, AuctionErr>)
    ensures
        program_address_of(accounts.seller@, program_id@) is None ==> r
            == Err::<Auction, AuctionErr>(AuctionErr::AuthorityUnavailable),
        forall|authority: Authority|
            authority.seller == accounts.seller && #[trigger] authority.derived_under(program_id@)
                ==> match r {
                Ok(a) => create_authorized(*accounts, authority) && created(
                    *accounts,
                    start_price,
                    a,
                ) && a.wf(),
                Err(e) => !create_authorized(*accounts, authority) && e
                    == AuctionErr::AuthorizationMismatch,
            },
{
    match derive_authority(&accounts.seller, program_id) {
        None => Err(AuctionErr::AuthorityUnavailable),
        Some(authority) => {
            proof {
                assert forall|other: Authority|
                    other.seller == accounts.seller && #[trigger] other.derived_under(
                        program_id@,
                    ) implies other == authority by {
                    crate::authority::lemma_derivation_is_stable(other, authority, program_id@);
                }
            }
            create_auction_with_authority(accounts, &authority, start_price)
        },
    }
}

// ---------------------------------------------------------------- bid

/// The account checks of a bid: the funding record belongs to its signer and
/// is neither the sentinel nor the escrow itself, the escrow is the auction's
/// and is owned by its stated authority, which is the seller's derived one,
/// and the claimed refund receiver is the recorded one or the sentinel.
pub open spec fn bid_authorized(a: Auction, acc: Bid, authority: Authority) -> bool {
    &&& acc.from.owner == acc.from_auth
    &&& !acc.from.key.is_zero_spec()
    &&& acc.from.key != a.currency_holder
    &&& acc.currency_holder.key == a.currency_holder
    &&& acc.currency_holder.owner == acc.currency_holder_auth
    &&& acc.currency_holder.owner == authority.address
    &&& (acc.ori_refund_receiver == a.refund_receiver || acc.ori_refund_receiver.is_zero_spec())
}

/// Whether the bid must first return the superseded price.
pub open spec fn refund_due(a: Auction) -> bool {
    !a.refund_receiver.is_zero_spec()
}

/// Why a bid is refused, checked in this order; `None` when it is accepted.
pub open spec fn bid_error(a: Auction, acc: Bid, price: u64, authority: Authority) -> Option<
    AuctionErr,
> {
    if !a.ongoing {
        Some(AuctionErr::InvalidState)
    } else if !bid_authorized(a, acc, authority) {
        Some(AuctionErr::AuthorizationMismatch)
    } else if price <= a.price {
        Some(AuctionErr::BidTooLow)
    } else if refund_due(a) && acc.currency_holder.amount < a.price {
        Some(AuctionErr::InsufficientFunds)
    } else if acc.from.amount < price {
        Some(AuctionErr::InsufficientFunds)
    } else {
        None
    }
}

/// The record after an accepted bid.
pub open spec fn bid_record(a: Auction, acc: Bid, price: u64) -> Auction {
    Auction { bidder: acc.bidder, refund_receiver: acc.from.key, price, ..a }
}

/// The escrow returns the superseded price to the claimed refund receiver.
pub open spec fn refund_transfer(a: Auction, acc: Bid, authority: Authority) -> EscrowTransfer {
    EscrowTransfer {
        from: a.currency_holder,
        to: acc.ori_refund_receiver,
        authority: authority.address,
        amount: a.price,
        signer: Some(authority),
    }
}

/// The new bidder's funds go into escrow under the bidder's own signature.
pub open spec fn deposit_transfer(a: Auction, acc: Bid, price: u64) -> EscrowTransfer {
    EscrowTransfer {
        from: acc.from.key,
        to: a.currency_holder,
        authority: acc.from_auth,
        amount: price,
        signer: None,
    }
}

/// The transfers of an accepted bid, in the order they must be made: the
/// refund (when one is due) and then the deposit.
pub open spec fn bid_transfers(a: Auction, acc: Bid, price: u64, authority: Authority) -> Seq<
    EscrowTransfer,
> {
    if refund_due(a) {
        seq![refund_transfer(a, acc, authority), deposit_transfer(a, acc, price)]
    } else {
        seq![deposit_transfer(a, acc, price)]
    }
}

/// What a bid does, given the seller's derived authority.
pub open spec fn bid_outcome(
    before: Auction,
    after: Auction,
    acc: Bid,
    price: u64,
    authority: Authority,
    r: Result<Vec<EscrowTransfer>, AuctionErr>,
) -> bool {
    match r {
        Ok(ts) => bid_error(before, acc, price, authority) is None && after == bid_record(
            before,
            acc,
            price,
        ) && ts@ == bid_transfers(before, acc, price, authority),
        Err(e) => bid_error(before, acc, price, authority) == Some(e) && after == before,
    }
}

fn bid_accounts_match(a: &Auction, acc: &Bid, authority: &Authority) -> (r: bool)
    ensures
        r == bid_authorized(*a, *acc, *authority),
{
    acc.from.owner == acc.from_auth && !acc.from.key.is_zero() && !(acc.from.key
        == a.currency_holder) && acc.currency_holder.key == a.currency_holder
        && acc.currency_holder.owner == acc.currency_holder_auth && acc.currency_holder.owner
        == authority.address && (acc.ori_refund_receiver == a.refund_receiver
        || acc.ori_refund_receiver.is_zero())
}

/// Accepts or refuses a bid, given the seller's derived authority. On
/// acceptance the record names the new bidder, its funding account and its
/// price, and the returned transfers must be made, in order, for the bid to
/// take effect: the refund of the superseded bid, computed from the record as
/// it stood before, and then the deposit of the new bid into escrow. A bid
/// must exceed the current price.
pub fn bid_with_authority(
    auction: &mut Auction,
    accounts: &Bid,
    price: u64,
    authority: &Authority,
) -> (r: Result<Vec<EscrowTransfer>, AuctionErr>)
    requires
        authority.seller == old(auction).seller,
    ensures
        bid_outcome(*old(auction), *final(auction), *accounts, price, *authority, r),
        old(auction).wf() ==> final(auction).wf(),
{
    if !auction.ongoing {
        return Err(AuctionErr::InvalidState);
    }
    if !bid_accounts_match(auction, accounts, authority) {
        return Err(AuctionErr::AuthorizationMismatch);
    }
    if price <= auction.price {
        return Err(AuctionErr::BidTooLow);
    }
    let refund = !auction.refund_receiver.is_zero();
    if refund && accounts.currency_holder.amount < auction.price {
        return Err(AuctionErr::InsufficientFunds);
    }
    if accounts.from.amount < price {
        return Err(AuctionErr::InsufficientFunds);
    }
    let mut transfers: Vec<EscrowTransfer> = Vec::new();
    if refund {
        transfers.push(
            EscrowTransfer {
                from: auction.currency_holder,
                to: accounts.ori_refund_receiver,
                authority: authority.address,
                amount: auction.price,
                signer: Some(*authority),
            },
        );
    }
    transfers.push(
        EscrowTransfer {
            from: accounts.from.key,
            to: auction.currency_holder,
            authority: accounts.from_auth,
            amount: price,
            signer: None,
        },
    );
    auction.bidder = accounts.bidder;
    auction.refund_receiver = accounts.from.key;
    auction.price = price;
    assert(transfers@ =~= bid_transfers(*old(auction), *accounts, price, *authority));
    Ok(transfers)
}

/// Accepts or refuses a bid on the auction, signing any refund with the
/// authority derived from the recorded seller under `program_id`.
pub fn bid(auction: &mut Auction, accounts: &Bid, program_id: &Address, price: u64) -> (r:
    Result<Vec<EscrowTransfer>, AuctionErr>)
    ensures
        program_address_of(old(auction).seller@, program_id@) is None ==> r
            == Err::<Vec<EscrowTransfer>, AuctionErr>(AuctionErr::AuthorityUnavailable)
            && *final(auction) == *old(auction),
        forall|authority: Authority|
            authority.seller == old(auction).seller && #[trigger] authority.derived_under(
                program_id@,
            ) ==> bid_outcome(*old(auction), *final(auction), *accounts, price, authority, r),
        old(auction).wf() ==> final(auction).wf(),
{
    match derive_authority(&auction.seller, program_id) {
        None => Err(AuctionErr::AuthorityUnavailable),
        Some(authority) => {
            proof {
                assert forall|other: Authority|
                    other.seller == old(auction).seller && #[trigger] other.derived_under(
                        program_id@,
                    ) implies other == authority by {
                    crate::authority::lemma_derivation_is_stable(other, authority, program_id@);
                }
            }
            bid_with_authority(auction, accounts, price, &authority)
        },
    }
}

// ---------------------------------------------------------------- close

/// The account checks of a close: the caller is the seller, both escrow
/// records are the auction's, are owned by the seller's derived authority and
/// come with that owner as their authority, and the item goes to an account
/// of the winning bidder.
pub open spec fn close_authorized(a: Auction, acc: CloseAuction, authority: Authority) -> bool {
    &&& acc.seller == a.seller
    &&& acc.item_holder.key == a.item_holder
    &&& acc.currency_holder.key == a.currency_holder
    &&& acc.item_holder.owner == authority.address
    &&& acc.currency_holder.owner == authority.address
    &&& acc.item_holder_auth == acc.item_holder.owner
    &&& acc.currency_holder_auth == acc.currency_holder.owner
    &&& acc.item_receiver.owner == a.bidder
}

/// Why a close is refused, checked in this order; `None` when it is accepted.
pub open spec fn close_error(a: Auction, acc: CloseAuction, authority: Authority) -> Option<
    AuctionErr,
> {
    if !a.ongoing {
        Some(AuctionErr::InvalidState)
    } else if !close_authorized(a, acc, authority) {
        Some(AuctionErr::AuthorizationMismatch)
    } else {
        None
    }
}

/// The record after an accepted close.
pub open spec fn closed_record(a: Auction) -> Auction {
    Auction { ongoing: false, ..a }
}

/// The transfers of an accepted close: the whole item balance to the item
/// receiver, and the price to the currency receiver when the escrow holds it.
pub open spec fn close_settlement(a: Auction, acc: CloseAuction, authority: Authority) -> Settlement {
    let item = EscrowTransfer {
        from: a.item_holder,
        to: acc.item_receiver.key,
        authority: authority.address,
        amount: acc.item_holder.amount,
        signer: Some(authority),
    };
    if acc.currency_holder.amount >= a.price {
        Settlement::Settled {
            item,
            currency: EscrowTransfer {
                from: a.currency_holder,
                to: acc.currency_receiver.key,
                authority: authority.address,
                amount: a.price,
                signer: Some(authority),
            },
        }
    } else {
        Settlement::SettlementPartial { item }
    }
}

/// What a close does, given the seller's derived authority.
pub open spec fn close_outcome(
    before: Auction,
    after: Auction,
    acc: CloseAuction,
    authority: Authority,
    r: Result<Settlement, AuctionErr>,
) -> bool {
    match r {
        Ok(s) => close_error(before, acc, authority) is None && after == closed_record(before) && s
            == close_settlement(before, acc, authority),
        Err(e) => close_error(before, acc, authority) == Some(e) && after == before,
    }
}

fn close_accounts_match(a: &Auction, acc: &CloseAuction, authority: &Authority) -> (r: bool)
    ensures
        r == close_authorized(*a, *acc, *authority),
{
    acc.seller == a.seller && acc.item_holder.key == a.item_holder && acc.currency_holder.key
        == a.currency_holder && acc.item_holder.owner == authority.address
        && acc.currency_holder.owner == authority.address && acc.item_holder_auth
        == acc.item_holder.owner && acc.currency_holder_auth == acc.currency_holder.owner
        && acc.item_receiver.owner == a.bidder
}

/// Closes the auction, given the seller's derived authority. On acceptance
/// the record is terminal and the returned settlement must be made for the
/// close to take effect.
pub fn close_auction_with_authority(
    auction: &mut Auction,
    accounts: &CloseAuction,
    authority: &Authority,
) -> (r: Result<Settlement, AuctionErr>)
    requires
        authority.seller == old(auction).seller,
    ensures
        close_outcome(*old(auction), *final(auction), *accounts, *authority, r),
        old(auction).wf() ==> final(auction).wf(),
{
    if !auction.ongoing {
        return Err(AuctionErr::InvalidState);
    }
    if !close_accounts_match(auction, accounts, authority) {
        return Err(AuctionErr::AuthorizationMismatch);
    }
    let item = EscrowTransfer {
        from: auction.item_holder,
        to: accounts.item_receiver.key,
        authority: authority.address,
        amount: accounts.item_holder.amount,
        signer: Some(*authority),
    };
    let settlement = if accounts.currency_holder.amount >= auction.price {
        Settlement::Settled {
            item,
            currency: EscrowTransfer {
                from: auction.currency_holder,
                to: accounts.currency_receiver.key,
                authority: authority.address,
                amount: auction.price,
                signer: Some(*authority),
            },
        }
    } else {
        Settlement::SettlementPartial { item }
    };
    auction.ongoing = false;
    Ok(settlement)
}

/// Closes the auction, signing the settlement with the authority derived
/// from the recorded seller under `program_id`.
pub fn close_auction(auction: &mut Auction, accounts: &CloseAuction, program_id: &Address) -> (r:
    Result<Settlement, AuctionErr>)
    ensures
        program_address_of(old(auction).seller@, program_id@) is None ==> r
            == Err::<Settlement, AuctionErr>(AuctionErr::AuthorityUnavailable) && *final(auction)
            == *old(auction),
        forall|authority: Authority|
            authority.seller == old(auction).seller && #[trigger] authority.derived_under(
                program_id@,
            ) ==> close_outcome(*old(auction), *final(auction), *accounts, authority, r),
        old(auction).wf() ==> final(auction).wf(),
{
    match derive_authority(&auction.seller, program_id) {
        None => Err(AuctionErr::AuthorityUnavailable),
        Some(authority) => {
            proof {
                assert forall|other: Authority|
                    other.seller == old(auction).seller && #[trigger] other.derived_under(
                        program_id@,
                    ) implies other == authority by {
                    crate::authority::lemma_derivation_is_stable(other, authority, program_id@);
                }
            }
            close_auction_with_authority(auction, accounts, &authority)
        },
    }
}

} // verus!
