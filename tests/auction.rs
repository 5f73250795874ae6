use anchor_auction::address::Address;
use anchor_auction::auction::{
    bid, bid_with_authority, close_auction, close_auction_with_authority, create_auction,
    create_auction_with_authority, Auction, AuctionErr, Bid, CloseAuction, CreateAuction,
    EscrowTransfer, Settlement, TokenAccount,
};
use anchor_auction::authority::{derive_authority, Authority};
use anchor_lang::solana_program::pubkey::Pubkey;

fn addr(n: u8) -> Address {
    Address { bytes: [n; 32] }
}

fn program() -> Address {
    addr(0xA0)
}

fn seller() -> Address {
    addr(1)
}

fn authority() -> Authority {
    derive_authority(&seller(), &program()).expect("a bump seed exists")
}

fn account(key: Address, owner: Address, amount: u64) -> TokenAccount {
    TokenAccount { key, owner, amount }
}

const ITEM_HOLDER: u8 = 10;
const CURRENCY_HOLDER: u8 = 11;
const B1: u8 = 21;
const B1_FUNDS: u8 = 22;
const B2: u8 = 31;
const B2_FUNDS: u8 = 32;
const B2_ITEMS: u8 = 33;
const PAYOUT: u8 = 41;

fn create_accounts(escrow_balance: u64) -> CreateAuction {
    let auth = authority().address;
    CreateAuction {
        seller: seller(),
        item_holder: account(addr(ITEM_HOLDER), auth, 1),
        currency_holder: account(addr(CURRENCY_HOLDER), auth, escrow_balance),
    }
}

fn bid_accounts(bidder: u8, funds: u8, balance: u64, escrow: u64, ori: Address) -> Bid {
    let auth = authority().address;
    Bid {
        bidder: addr(bidder),
        from: account(addr(funds), addr(bidder), balance),
        from_auth: addr(bidder),
        currency_holder: account(addr(CURRENCY_HOLDER), auth, escrow),
        currency_holder_auth: auth,
        ori_refund_receiver: ori,
    }
}

fn close_accounts(currency_balance: u64) -> CloseAuction {
    let auth = authority().address;
    CloseAuction {
        seller: seller(),
        item_holder: account(addr(ITEM_HOLDER), auth, 1),
        item_holder_auth: auth,
        item_receiver: account(addr(B2_ITEMS), addr(B2), 0),
        currency_holder: account(addr(CURRENCY_HOLDER), auth, currency_balance),
        currency_holder_auth: auth,
        currency_receiver: account(addr(PAYOUT), seller(), 0),
    }
}

fn scenario_a() -> Auction {
    create_auction(&create_accounts(0), &program(), 100).unwrap()
}

fn scenario_b() -> (Auction, Vec<EscrowTransfer>) {
    let mut a = scenario_a();
    let ts = bid(&mut a, &bid_accounts(B1, B1_FUNDS, 500, 0, Address::zero()), &program(), 150)
        .unwrap();
    (a, ts)
}

fn scenario_c() -> (Auction, Vec<EscrowTransfer>) {
    let (mut a, _) = scenario_b();
    let ts = bid(&mut a, &bid_accounts(B2, B2_FUNDS, 500, 150, addr(B1_FUNDS)), &program(), 200)
        .unwrap();
    (a, ts)
}

#[test]
fn derived_authority_matches_solana_program() {
    let a = authority();
    let (key, bump) = Pubkey::find_program_address(&[&seller().bytes], &Pubkey::new_from_array(program().bytes));
    assert_eq!(a.address.bytes, key.to_bytes());
    assert_eq!(a.bump, bump);
    assert_eq!(a.seller, seller());
    assert_ne!(a.address, seller());
    assert_ne!(a.address, program());
}

#[test]
fn derivation_is_stable() {
    let a1 = authority();
    let a2 = derive_authority(&seller(), &program()).unwrap();
    assert_eq!(a1.address, a2.address);
    assert_eq!(a1.bump, a2.bump);
    let other = derive_authority(&addr(2), &program()).unwrap();
    assert_ne!(a1.address, other.address);
}

#[test]
fn address_sentinel() {
    assert!(Address::zero().is_zero());
    assert!(!addr(1).is_zero());
    let mut b = [0u8; 32];
    b[31] = 1;
    assert!(!Address { bytes: b }.is_zero());
    assert!(Address::zero() == Address { bytes: [0; 32] });
    assert!(addr(1) != Address { bytes: b });
}

#[test]
fn scenario_a_create() {
    let a = scenario_a();
    assert!(a.ongoing);
    assert_eq!(a.price, 100);
    assert_eq!(a.seller, seller());
    assert_eq!(a.bidder, seller());
    assert_eq!(a.item_holder, addr(ITEM_HOLDER));
    assert_eq!(a.currency_holder, addr(CURRENCY_HOLDER));
    assert!(a.refund_receiver.is_zero());
}

#[test]
fn create_rejects_foreign_escrow_owner() {
    let mut acc = create_accounts(0);
    acc.currency_holder.owner = addr(99);
    assert_eq!(create_auction(&acc, &program(), 100), Err(AuctionErr::AuthorizationMismatch));
    let mut acc = create_accounts(0);
    acc.item_holder.owner = seller();
    assert_eq!(
        create_auction_with_authority(&acc, &authority(), 100),
        Err(AuctionErr::AuthorizationMismatch)
    );
}

#[test]
fn create_under_other_program_rejected() {
    assert_eq!(
        create_auction(&create_accounts(0), &addr(0xB0), 100),
        Err(AuctionErr::AuthorizationMismatch)
    );
}

#[test]
fn scenario_b_first_bid() {
    let (a, ts) = scenario_b();
    assert_eq!(a.bidder, addr(B1));
    assert_eq!(a.price, 150);
    assert_eq!(a.refund_receiver, addr(B1_FUNDS));
    assert!(a.ongoing);
    assert_eq!(ts.len(), 1);
    assert_eq!(
        ts[0],
        EscrowTransfer {
            from: addr(B1_FUNDS),
            to: addr(CURRENCY_HOLDER),
            authority: addr(B1),
            amount: 150,
            signer: None,
        }
    );
    assert!(ts.iter().all(|t| t.from != addr(CURRENCY_HOLDER)));
}

#[test]
fn scenario_c_second_bid_refunds() {
    let (a, ts) = scenario_c();
    assert_eq!(a.bidder, addr(B2));
    assert_eq!(a.price, 200);
    assert_eq!(a.refund_receiver, addr(B2_FUNDS));
    assert_eq!(ts.len(), 2);
    let auth = authority();
    assert_eq!(
        ts[0],
        EscrowTransfer {
            from: addr(CURRENCY_HOLDER),
            to: addr(B1_FUNDS),
            authority: auth.address,
            amount: 150,
            signer: Some(auth),
        }
    );
    assert_eq!(ts[1].from, addr(B2_FUNDS));
    assert_eq!(ts[1].amount, 200);
    assert_eq!(ts.iter().filter(|t| t.from == addr(CURRENCY_HOLDER)).count(), 1);
}

#[test]
fn scenario_d_close_settles() {
    let (mut a, _) = scenario_c();
    let s = close_auction(&mut a, &close_accounts(200), &program()).unwrap();
    let auth = authority();
    assert!(!a.ongoing);
    assert_eq!(
        s,
        Settlement::Settled {
            item: EscrowTransfer {
                from: addr(ITEM_HOLDER),
                to: addr(B2_ITEMS),
                authority: auth.address,
                amount: 1,
                signer: Some(auth),
            },
            currency: EscrowTransfer {
                from: addr(CURRENCY_HOLDER),
                to: addr(PAYOUT),
                authority: auth.address,
                amount: 200,
                signer: Some(auth),
            },
        }
    );
}

#[test]
fn close_short_escrow_is_partial() {
    let (mut a, _) = scenario_c();
    let s = close_auction(&mut a, &close_accounts(199), &program()).unwrap();
    assert!(!a.ongoing);
    match s {
        Settlement::SettlementPartial { item } => {
            assert_eq!(item.to, addr(B2_ITEMS));
            assert_eq!(item.amount, 1);
        }
        Settlement::Settled { .. } => panic!("payment moved from a short escrow"),
    }
}

#[test]
fn scenario_e_close_twice() {
    let (mut a, _) = scenario_c();
    close_auction(&mut a, &close_accounts(200), &program()).unwrap();
    let snapshot = a;
    assert_eq!(
        close_auction(&mut a, &close_accounts(0), &program()),
        Err(AuctionErr::InvalidState)
    );
    assert_eq!(a, snapshot);
    assert_eq!(
        bid(&mut a, &bid_accounts(B1, B1_FUNDS, 500, 0, addr(B2_FUNDS)), &program(), 900),
        Err(AuctionErr::InvalidState)
    );
    assert_eq!(a, snapshot);
}

#[test]
fn bid_too_low() {
    let mut a = scenario_a();
    let acc = bid_accounts(B1, B1_FUNDS, 500, 0, Address::zero());
    assert_eq!(bid(&mut a, &acc, &program(), 100), Err(AuctionErr::BidTooLow));
    assert_eq!(bid(&mut a, &acc, &program(), 99), Err(AuctionErr::BidTooLow));
    assert_eq!(a, scenario_a());
}

#[test]
fn bid_insufficient_funds() {
    let mut a = scenario_a();
    let acc = bid_accounts(B1, B1_FUNDS, 149, 0, Address::zero());
    assert_eq!(bid(&mut a, &acc, &program(), 150), Err(AuctionErr::InsufficientFunds));
    assert_eq!(a, scenario_a());
    let (mut b, _) = scenario_b();
    let before = b;
    let acc = bid_accounts(B2, B2_FUNDS, 500, 149, addr(B1_FUNDS));
    assert_eq!(bid(&mut b, &acc, &program(), 200), Err(AuctionErr::InsufficientFunds));
    assert_eq!(b, before);
}

#[test]
fn bid_with_sentinel_refund_claim_is_accepted() {
    let (mut a, _) = scenario_b();
    let acc = bid_accounts(B2, B2_FUNDS, 500, 150, Address::zero());
    let ts = bid_with_authority(&mut a, &acc, 200, &authority()).unwrap();
    assert_eq!(ts[0].to, Address::zero());
}

#[test]
fn bid_account_substitutions_rejected() {
    let (a0, _) = scenario_b();
    let good = bid_accounts(B2, B2_FUNDS, 500, 150, addr(B1_FUNDS));
    let mut cases: Vec<Bid> = Vec::new();
    let mut c = good;
    c.from_auth = addr(99);
    cases.push(c);
    let mut c = good;
    c.currency_holder.key = addr(98);
    cases.push(c);
    let mut c = good;
    c.currency_holder_auth = addr(97);
    cases.push(c);
    let mut c = good;
    c.currency_holder.owner = addr(96);
    c.currency_holder_auth = addr(96);
    cases.push(c);
    let mut c = good;
    c.ori_refund_receiver = addr(95);
    cases.push(c);
    let mut c = good;
    c.from.key = Address::zero();
    cases.push(c);
    let mut c = good;
    c.from.key = addr(CURRENCY_HOLDER);
    cases.push(c);
    for c in cases {
        let mut a = a0;
        assert_eq!(bid(&mut a, &c, &program(), 200), Err(AuctionErr::AuthorizationMismatch));
        assert_eq!(a, a0);
    }
    let mut a = a0;
    assert!(bid(&mut a, &good, &program(), 200).is_ok());
}

#[test]
fn close_account_substitutions_rejected() {
    let (a0, _) = scenario_c();
    let good = close_accounts(200);
    let mut cases: Vec<CloseAuction> = Vec::new();
    let mut c = good;
    c.seller = addr(B2);
    cases.push(c);
    let mut c = good;
    c.item_holder.key = addr(90);
    cases.push(c);
    let mut c = good;
    c.currency_holder.key = addr(91);
    cases.push(c);
    let mut c = good;
    c.item_holder_auth = addr(92);
    cases.push(c);
    let mut c = good;
    c.currency_holder_auth = addr(93);
    cases.push(c);
    let mut c = good;
    c.item_receiver.owner = addr(B1);
    cases.push(c);
    let mut c = good;
    c.item_holder.owner = addr(94);
    c.item_holder_auth = addr(94);
    cases.push(c);
    let mut c = good;
    c.currency_holder.owner = addr(95);
    c.currency_holder_auth = addr(95);
    cases.push(c);
    for c in cases {
        let mut a = a0;
        assert_eq!(close_auction(&mut a, &c, &program()), Err(AuctionErr::AuthorizationMismatch));
        assert_eq!(a, a0);
    }
    let mut a = a0;
    assert!(close_auction_with_authority(&mut a, &good, &authority()).is_ok());
}

#[test]
fn close_with_zero_item_balance_still_moves_item() {
    let (mut a, _) = scenario_c();
    let mut acc = close_accounts(200);
    acc.item_holder.amount = 0;
    let s = close_auction(&mut a, &acc, &program()).unwrap();
    match s {
        Settlement::Settled { item, currency } => {
            assert_eq!(item.amount, 0);
            assert_eq!(currency.amount, 200);
        }
        Settlement::SettlementPartial { .. } => panic!("escrow held the price"),
    }
}

#[test]
fn bid_at_largest_price() {
    let (mut a, _) = scenario_b();
    let acc = bid_accounts(B2, B2_FUNDS, u64::MAX, 150, addr(B1_FUNDS));
    let ts = bid(&mut a, &acc, &program(), u64::MAX).unwrap();
    assert_eq!(a.price, u64::MAX);
    assert_eq!(ts[1].amount, u64::MAX);
    let acc = bid_accounts(B1, B1_FUNDS, u64::MAX, u64::MAX, addr(B2_FUNDS));
    assert_eq!(bid(&mut a, &acc, &program(), u64::MAX), Err(AuctionErr::BidTooLow));
}
