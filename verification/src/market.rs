//! The marketplace: the global configuration, the listing and auction stores,
//! the custody ledger and the event log, with every operation's state
//! transition stated and proved.
//!
//! Each operation first checks every precondition, then applies all of its
//! transfers and record updates: an error leaves the whole market unchanged,
//! and a committed operation applies every step. The exact decision of each
//! operation — which error it reports, on exactly which states — is a spec
//! function beside it, and the operation's contract ties its result and its
//! effect to that decision.

use vstd::prelude::*;
use crate::errors::ErrorCode;
use crate::events::{BidPlaced, ListingCancelled, ListingCreated, ListingSold, MarketEvent};
use crate::fees::{compute_platform_fee, platform_fee_of, seller_amount_of, MAX_FEE_BPS};
use crate::ledger::{double_xfer_err, xfer, AccountId, AssetId, Ledger};
use crate::records::{
    Auction, BidReceipt, Listing, ListingId, ListingStatus, ListingType, Refund, SaleReceipt,
    SettlementReceipt,
};

verus! {

/// The shortest duration a timed auction may run: one hour, in seconds.
pub const MIN_AUCTION_DURATION: i64 = 3600;

/// The longest duration a timed auction may run: thirty days, in seconds.
pub const MAX_AUCTION_DURATION: i64 = 2592000;

/// The global singleton configuration, created once and gating every
/// mutating operation.
#[derive(Clone, Copy, Debug, PartialEq, Eq, Structural)]
pub struct Marketplace {
    /// The one principal allowed to pause the marketplace and change the fee.
    pub authority: AccountId,
    /// The account that receives every platform fee.
    pub fee_collector: AccountId,
    /// The fee rate in basis points; never above 1000.
    pub platform_fee: u16,
    /// Lifetime counters, set at creation. The configuration record is
    /// mutated by the admin operations alone, so they never move.
    pub total_listings: u64,
    pub total_sales: u64,
    /// While set, creation, buying and bidding are blocked; cancellation and
    /// settlement never are.
    pub paused: bool,
}

/// The whole marketplace: configuration, listing store, auction side-table,
/// custody ledger and event log.
///
/// The auction side-table runs parallel to the listing store: entry `i` is
/// present exactly when listing `i` is an auction.
pub struct Market {
    pub config: Marketplace,
    pub listings: Vec<Listing>,
    pub auctions: Vec<Option<Auction>>,
    pub ledger: Ledger,
    pub events: Vec<MarketEvent>,
}

impl Market {
    /// How many listings were ever created.
    pub open spec fn n_listings(self) -> int {
        self.listings@.len() as int
    }

    /// Whether `lid` names a listing.
    pub open spec fn valid_listing(self, lid: int) -> bool {
        0 <= lid < self.n_listings()
    }

    /// Structural soundness of listing `i`: its parties and escrow account
    /// exist, its escrow account is marked as escrow, its asset sits in that
    /// escrow exactly while the listing is active, and it has an auction
    /// record exactly when it is of auction type.
    pub open spec fn listing_wf(self, i: int) -> bool {
        let l = self.listings@[i];
        &&& self.ledger.user_account(l.seller)
        &&& (l.escrow as int) < self.ledger.accounts()
        &&& self.ledger.escrowish(l.escrow as int)
        &&& (l.asset_id as int) < self.ledger.n_assets()
        &&& (l.buyer matches Some(b) ==> self.ledger.user_account(b))
        &&& (l.status is Active ==> self.ledger.holds(l.asset_id, l.escrow))
        &&& (self.auctions@[i] is Some <==> l.listing_type is Auction)
    }

    /// Structural soundness of the auction bound to listing `i`, when there
    /// is one: its escrow account exists and is marked as escrow, a standing
    /// bidder exists exactly when a bid stands, the reserve is met exactly
    /// when the standing bid reaches the reserve price, and while the listing
    /// is active the payment escrow holds exactly the standing bid.
    pub open spec fn auction_wf(self, i: int) -> bool {
        self.auctions@[i] matches Some(a) ==> {
            let l = self.listings@[i];
            &&& a.listing_ref == i
            &&& (a.escrow as int) < self.ledger.accounts()
            &&& self.ledger.escrowish(a.escrow as int)
            &&& (a.current_bidder is Some <==> a.current_bid > 0)
            &&& (a.current_bidder matches Some(b) ==> self.ledger.user_account(b))
            &&& (a.reserve_met <==> a.current_bid > 0 && a.current_bid >= l.price)
            &&& a.bid_count <= a.current_bid
            &&& (l.status is Active ==> self.ledger.bal(a.escrow as int) == a.current_bid)
        }
    }

    /// No two resources share an escrow account: the asset escrows of
    /// distinct listings differ, every auction's payment escrow differs from
    /// every asset escrow, and the payment escrows of distinct auctions
    /// differ.
    pub open spec fn escrows_exclusive(self) -> bool {
        let n = self.n_listings();
        &&& (forall|i: int, j: int|
            0 <= i < n && 0 <= j < n && i != j ==> (#[trigger] self.listings@[i]).escrow != (
            #[trigger] self.listings@[j]).escrow)
        &&& (forall|i: int, j: int|
            0 <= i < n && 0 <= j < n && (#[trigger] self.auctions@[i]) is Some
                ==> self.auctions@[i].unwrap().escrow != (#[trigger] self.listings@[j]).escrow)
        &&& (forall|i: int, j: int|
            0 <= i < n && 0 <= j < n && i != j && (#[trigger] self.auctions@[i]) is Some && (
            #[trigger] self.auctions@[j]) is Some ==> self.auctions@[i].unwrap().escrow
                != self.auctions@[j].unwrap().escrow)
    }

    /// The market's invariant: the ledger is sound, the fee rate is within
    /// the bound, the fee collector is a user account, the auction side-table
    /// runs parallel to the listing store, every listing and auction is
    /// structurally sound, and no two resources share an escrow account.
    pub open spec fn wf(self) -> bool {
        &&& self.ledger.wf()
        &&& self.config.platform_fee <= MAX_FEE_BPS
        &&& self.ledger.user_account(self.config.fee_collector)
        &&& self.auctions@.len() == self.listings@.len()
        &&& (forall|i: int| 0 <= i < self.n_listings() ==> #[trigger] self.listing_wf(i))
        &&& (forall|i: int| 0 <= i < self.n_listings() ==> #[trigger] self.auction_wf(i))
        &&& self.escrows_exclusive()
    }

    /// A change that touches only the configuration keeps the stores and the
    /// ledger sound.
    proof fn lemma_wf_config_change(m0: Market, m1: Market)
        requires
            m0.wf(),
            m1.listings == m0.listings,
            m1.auctions == m0.auctions,
            m1.ledger == m0.ledger,
            m1.config.platform_fee <= MAX_FEE_BPS,
            m1.config.fee_collector == m0.config.fee_collector,
        ensures
            m1.wf(),
    {
        assert forall|i: int| 0 <= i < m1.n_listings() implies #[trigger] m1.listing_wf(i) by {
            assert(m0.listing_wf(i));
        }
        assert forall|i: int| 0 <= i < m1.n_listings() implies #[trigger] m1.auction_wf(i) by {
            assert(m0.auction_wf(i));
        }
        assert(m1.escrows_exclusive());
    }

    /// When `initialize` refuses a configuration.
    pub open spec fn initialize_err(platform_fee: u16) -> Option<ErrorCode> {
        if platform_fee > MAX_FEE_BPS {
            Some(ErrorCode::FeeTooHigh)
        } else {
            None
        }
    }

    /// Creates the marketplace over an existing ledger: the given principal
    /// becomes the one authority, the given account collects fees, and the
    /// market starts unpaused with no listings.
    pub fn initialize(
        ledger: Ledger,
        authority: AccountId,
        fee_collector: AccountId,
        platform_fee: u16,
    ) -> (r: Result<Market, ErrorCode>)
        requires
            ledger.wf(),
            ledger.user_account(fee_collector),
        ensures
            match Self::initialize_err(platform_fee) {
                Some(e) => r == Err::<Market, ErrorCode>(e),
                None => r matches Ok(m) && {
                    &&& m.wf()
                    &&& m.config == (Marketplace {
                        authority,
                        fee_collector,
                        platform_fee,
                        total_listings: 0,
                        total_sales: 0,
                        paused: false,
                    })
                    &&& m.listings@.len() == 0
                    &&& m.auctions@.len() == 0
                    &&& m.events@.len() == 0
                    &&& m.ledger == ledger
                },
            },
    {
        if platform_fee > MAX_FEE_BPS {
            return Err(ErrorCode::FeeTooHigh);
        }
        let m = Market {
            config: Marketplace {
                authority,
                fee_collector,
                platform_fee,
                total_listings: 0,
                total_sales: 0,
                paused: false,
            },
            listings: Vec::new(),
            auctions: Vec::new(),
            ledger,
            events: Vec::new(),
        };
        Ok(m)
    }

    /// When `create_listing` refuses: the marketplace is paused, or the
    /// seller does not hold the asset.
    pub open spec fn create_listing_err(m: Market, seller: AccountId, asset_id: AssetId) -> Option<
        ErrorCode,
    > {
        if m.config.paused {
            Some(ErrorCode::MarketplacePaused)
        } else if !m.ledger.holds(asset_id, seller) {
            Some(ErrorCode::AssetNotHeld)
        } else {
            None
        }
    }

    /// When `create_auction` refuses: paused, a duration under one hour or
    /// over thirty days, or a seller that does not hold the asset.
    pub open spec fn create_auction_err(
        m: Market,
        seller: AccountId,
        asset_id: AssetId,
        duration: i64,
    ) -> Option<ErrorCode> {
        if m.config.paused {
            Some(ErrorCode::MarketplacePaused)
        } else if duration < MIN_AUCTION_DURATION {
            Some(ErrorCode::DurationTooShort)
        } else if duration > MAX_AUCTION_DURATION {
            Some(ErrorCode::DurationTooLong)
        } else if !m.ledger.holds(asset_id, seller) {
            Some(ErrorCode::AssetNotHeld)
        } else {
            None
        }
    }

    /// How a committed creation changes the market: one new active listing
    /// record holding the given terms; a fresh asset escrow account (and, for
    /// an auction, a fresh payment escrow account and a fresh bid-free
    /// auction record); the asset moved from the seller into the asset
    /// escrow; and one creation event appended. Everything else is unchanged.
    pub open spec fn created(
        m0: Market,
        m1: Market,
        seller: AccountId,
        asset_id: AssetId,
        payment_kind: u64,
        price: u64,
        lt: ListingType,
        now: i64,
        expires_at: i64,
        external_ref: Option<String>,
    ) -> bool {
        let lid = m0.n_listings();
        let esc = m0.ledger.accounts() as AccountId;
        let pay_esc = (m0.ledger.accounts() + 1) as AccountId;
        &&& m1.config == m0.config
        &&& m1.listings@ == m0.listings@.push(
            (Listing {
                seller,
                asset_id,
                payment_kind,
                price,
                listing_type: lt,
                status: ListingStatus::Active,
                created_at: now,
                expires_at,
                external_ref,
                buyer: None,
                sold_at: None,
                escrow: esc,
            }),
        )
        &&& m1.ledger.assets@ == m0.ledger.assets@.update(asset_id as int, esc)
        &&& m1.events@ == m0.events@.push(
            MarketEvent::Created(
                ListingCreated {
                    listing_id: lid as ListingId,
                    seller,
                    asset_id,
                    price,
                    listing_type: lt,
                    timestamp: now,
                },
            ),
        )
        &&& if lt is Auction {
            &&& m1.ledger.balances@ == m0.ledger.balances@.push(0u64).push(0u64)
            &&& m1.ledger.escrow@ == m0.ledger.escrow@.push(true).push(true)
            &&& m1.auctions@ == m0.auctions@.push(
                Some(
                    Auction {
                        listing_ref: lid as ListingId,
                        current_bid: 0,
                        current_bidder: None,
                        bid_count: 0,
                        reserve_met: false,
                        escrow: pay_esc,
                    },
                ),
            )
        } else {
            &&& m1.ledger.balances@ == m0.ledger.balances@.push(0u64)
            &&& m1.ledger.escrow@ == m0.ledger.escrow@.push(true)
            &&& m1.auctions@ == m0.auctions@.push(None::<Auction>)
        }
    }

    /// Appends a new listing after every check has passed: opens the escrow
    /// accounts, moves the asset into escrow, and records the listing, its
    /// auction record when of auction type, and the creation event.
    fn create_entry(
        &mut self,
        seller: AccountId,
        asset_id: AssetId,
        payment_kind: u64,
        price: u64,
        auction_type: bool,
        now: i64,
        expires_at: i64,
        external_ref: Option<String>,
    ) -> (lid: ListingId)
        requires
            old(self).wf(),
            old(self).ledger.user_account(seller),
            (asset_id as int) < old(self).ledger.n_assets(),
            old(self).ledger.holds(asset_id, seller),
        ensures
            final(self).wf(),
            lid == old(self).n_listings(),
            Self::created(
                *old(self),
                *final(self),
                seller,
                asset_id,
                payment_kind,
                price,
                if auction_type {
                    ListingType::Auction
                } else {
                    ListingType::FixedPrice
                },
                now,
                expires_at,
                external_ref,
            ),
    {
        let ghost m0 = *self;
        let esc = self.ledger.create_escrow_account();
        self.ledger.move_asset(asset_id, esc);
        let lid = self.listings.len();
        let lt = if auction_type {
            ListingType::Auction
        } else {
            ListingType::FixedPrice
        };
        if auction_type {
            let pay_esc = self.ledger.create_escrow_account();
            self.auctions.push(
                Some(
                    Auction {
                        listing_ref: lid,
                        current_bid: 0,
                        current_bidder: None,
                        bid_count: 0,
                        reserve_met: false,
                        escrow: pay_esc,
                    },
                ),
            );
        } else {
            self.auctions.push(None);
        }
        self.listings.push(
            Listing {
                seller,
                asset_id,
                payment_kind,
                price,
                listing_type: lt,
                status: ListingStatus::Active,
                created_at: now,
                expires_at,
                external_ref,
                buyer: None,
                sold_at: None,
                escrow: esc,
            },
        );
        self.events.push(
            MarketEvent::Created(
                ListingCreated {
                    listing_id: lid,
                    seller,
                    asset_id,
                    price,
                    listing_type: lt,
                    timestamp: now,
                },
            ),
        );
        proof {
            let m1 = *self;
            let lr = m1.listings@[m1.n_listings() - 1];
            let ar = m1.auctions@[m1.n_listings() - 1];
            assert(Self::created_shape(m0, m1, seller, asset_id, lr, ar));
            Self::lemma_created_wf(m0, m1, seller, asset_id, lr, ar);
        }
        lid
    }

    /// A committed creation preserves the market invariant: the fresh escrow
    /// accounts are distinct from every existing one, the listed asset was in
    /// the seller's custody and so in no other active listing's escrow, and
    /// no existing record or balance is touched.
    proof fn lemma_created_wf(
        m0: Market,
        m1: Market,
        seller: AccountId,
        asset_id: AssetId,
        l: Listing,
        a: Option<Auction>,
    )
        requires
            m0.wf(),
            m0.ledger.user_account(seller),
            (asset_id as int) < m0.ledger.n_assets(),
            m0.ledger.holds(asset_id, seller),
            m1.config == m0.config,
            m1.ledger.wf(),
            Self::created_shape(m0, m1, seller, asset_id, l, a),
        ensures
            m1.wf(),
    {
        let n0 = m0.n_listings();
        assert(m0.ledger.balances.len() == m0.ledger.balances@.len());
        assert(m1.ledger.balances.len() == m1.ledger.balances@.len());
        assert(m0.listings.len() == m0.listings@.len());
        let esc = m0.ledger.accounts() as AccountId;
        let pay_esc = (m0.ledger.accounts() + 1) as AccountId;
        assert(esc as int == m0.ledger.accounts());
        assert(l.listing_type is Auction ==> m1.ledger.accounts() == m0.ledger.accounts() + 2
            && pay_esc as int == m0.ledger.accounts() + 1);
        assert forall|i: int| 0 <= i < m1.n_listings() implies #[trigger] m1.listing_wf(i) by {
            if i < n0 {
                assert(m0.listing_wf(i));
                assert(m1.listings@[i] == m0.listings@[i]);
                let li = m0.listings@[i];
                if li.status is Active && li.asset_id == asset_id {
                    assert(m0.ledger.escrowish(li.escrow as int));
                    assert(false);
                }
            } else {
                assert(m1.listings@[i] == l);
                assert(m1.auctions@[i] == a);
                assert(m1.ledger.escrowish(l.escrow as int));
            }
        }
        assert forall|i: int| 0 <= i < m1.n_listings() implies #[trigger] m1.auction_wf(i) by {
            if i < n0 {
                assert(m0.auction_wf(i));
                assert(m0.listing_wf(i));
                assert(m1.auctions@[i] == m0.auctions@[i]);
                assert(m1.listings@[i] == m0.listings@[i]);
            }
        }
        assert forall|i: int, j: int|
            0 <= i < m1.n_listings() && 0 <= j < m1.n_listings() && i != j implies (
        #[trigger] m1.listings@[i]).escrow != (#[trigger] m1.listings@[j]).escrow by {
            if i < n0 {
                assert(m0.listing_wf(i));
                assert(m1.listings@[i] == m0.listings@[i]);
            }
            if j < n0 {
                assert(m0.listing_wf(j));
                assert(m1.listings@[j] == m0.listings@[j]);
            }
        }
        assert forall|i: int, j: int|
            0 <= i < m1.n_listings() && 0 <= j < m1.n_listings() && (#[trigger] m1.auctions@[i])
                is Some implies m1.auctions@[i].unwrap().escrow != (
        #[trigger] m1.listings@[j]).escrow by {
            if i < n0 {
                assert(m0.auction_wf(i));
                assert(m0.listing_wf(i));
                assert(m1.auctions@[i] == m0.auctions@[i]);
            } else {
                assert(m1.auctions@[i] == a);
                assert(a matches Some(au) ==> au.escrow == pay_esc && au.escrow as int
                    == m0.ledger.accounts() + 1);
            }
            if j < n0 {
                assert(m0.listing_wf(j));
                assert(m1.listings@[j] == m0.listings@[j]);
            } else {
                assert(m1.listings@[j] == l);
            }
        }
        assert forall|i: int, j: int|
            0 <= i < m1.n_listings() && 0 <= j < m1.n_listings() && i != j && (
            #[trigger] m1.auctions@[i]) is Some && (#[trigger] m1.auctions@[j])
                is Some implies m1.auctions@[i].unwrap().escrow
                != m1.auctions@[j].unwrap().escrow by {
            if i < n0 {
                assert(m0.auction_wf(i));
                assert(m0.listing_wf(i));
                assert(m1.auctions@[i] == m0.auctions@[i]);
            } else {
                assert(m1.auctions@[i] == a);
                assert(a matches Some(au) ==> au.escrow == pay_esc && au.escrow as int
                    == m0.ledger.accounts() + 1);
            }
            if j < n0 {
                assert(m0.auction_wf(j));
                assert(m0.listing_wf(j));
                assert(m1.auctions@[j] == m0.auctions@[j]);
            } else {
                assert(m1.auctions@[j] == a);
                assert(a matches Some(au) ==> au.escrow == pay_esc && au.escrow as int
                    == m0.ledger.accounts() + 1);
            }
        }
        assert(m1.escrows_exclusive());
    }

    /// The shape a committed creation leaves behind, quantified over the new
    /// records so the preservation lemma covers both listing kinds.
    pub open spec fn created_shape(
        m0: Market,
        m1: Market,
        seller: AccountId,
        asset_id: AssetId,
        l: Listing,
        a: Option<Auction>,
    ) -> bool {
        let esc = m0.ledger.accounts() as AccountId;
        let pay_esc = (m0.ledger.accounts() + 1) as AccountId;
        &&& m1.listings@ == m0.listings@.push(l)
        &&& m1.auctions@ == m0.auctions@.push(a)
        &&& m1.ledger.assets@ == m0.ledger.assets@.update(asset_id as int, esc)
        &&& l.seller == seller
        &&& l.asset_id == asset_id
        &&& l.status is Active
        &&& l.escrow == esc
        &&& l.buyer is None
        &&& (a is Some <==> l.listing_type is Auction)
        &&& if l.listing_type is Auction {
            &&& m1.ledger.balances@ == m0.ledger.balances@.push(0u64).push(0u64)
            &&& m1.ledger.escrow@ == m0.ledger.escrow@.push(true).push(true)
            &&& (a matches Some(au) && au == (Auction {
                listing_ref: m0.n_listings() as ListingId,
                current_bid: 0,
                current_bidder: None,
                bid_count: 0,
                reserve_met: false,
                escrow: pay_esc,
            }))
        } else {
            &&& m1.ledger.balances@ == m0.ledger.balances@.push(0u64)
            &&& m1.ledger.escrow@ == m0.ledger.escrow@.push(true)
        }
    }

    /// Creates a fixed-price listing: the asset moves from the seller into
    /// the listing's escrow atomically with the record's creation.
    pub fn create_listing(
        &mut self,
        seller: AccountId,
        asset_id: AssetId,
        payment_kind: u64,
        price: u64,
        duration: i64,
        external_ref: Option<String>,
        now: i64,
    ) -> (r: Result<ListingId, ErrorCode>)
        requires
            old(self).wf(),
            old(self).ledger.user_account(seller),
            (asset_id as int) < old(self).ledger.n_assets(),
            Self::create_listing_err(*old(self), seller, asset_id) is None ==> i64::MIN <= now
                + duration <= i64::MAX,
        ensures
            final(self).wf(),
            match Self::create_listing_err(*old(self), seller, asset_id) {
                Some(e) => r == Err::<ListingId, ErrorCode>(e) && *final(self) == *old(self),
                None => {
                    &&& r == Ok::<ListingId, ErrorCode>(old(self).n_listings() as ListingId)
                    &&& Self::created(
                        *old(self),
                        *final(self),
                        seller,
                        asset_id,
                        payment_kind,
                        price,
                        ListingType::FixedPrice,
                        now,
                        (now + duration) as i64,
                        external_ref,
                    )
                },
            },
    {
        if self.config.paused {
            return Err(ErrorCode::MarketplacePaused);
        }
        if self.ledger.holder_of(asset_id) != seller {
            return Err(ErrorCode::AssetNotHeld);
        }
        let expires_at = now + duration;
        let lid = self.create_entry(
            seller,
            asset_id,
            payment_kind,
            price,
            false,
            now,
            expires_at,
            external_ref,
        );
        Ok(lid)
    }

    /// Creates an auction listing with the given reserve price: as
    /// `create_listing`, but the duration must lie between one hour and
    /// thirty days.
    pub fn create_auction(
        &mut self,
        seller: AccountId,
        asset_id: AssetId,
        payment_kind: u64,
        reserve_price: u64,
        duration: i64,
        external_ref: Option<String>,
        now: i64,
    ) -> (r: Result<ListingId, ErrorCode>)
        requires
            old(self).wf(),
            old(self).ledger.user_account(seller),
            (asset_id as int) < old(self).ledger.n_assets(),
            Self::create_auction_err(*old(self), seller, asset_id, duration) is None ==> now
                + duration <= i64::MAX,
        ensures
            final(self).wf(),
            match Self::create_auction_err(*old(self), seller, asset_id, duration) {
                Some(e) => r == Err::<ListingId, ErrorCode>(e) && *final(self) == *old(self),
                None => {
                    &&& r == Ok::<ListingId, ErrorCode>(old(self).n_listings() as ListingId)
                    &&& Self::created(
                        *old(self),
                        *final(self),
                        seller,
                        asset_id,
                        payment_kind,
                        reserve_price,
                        ListingType::Auction,
                        now,
                        (now + duration) as i64,
                        external_ref,
                    )
                },
            },
    {
        if self.config.paused {
            return Err(ErrorCode::MarketplacePaused);
        }
        if duration < MIN_AUCTION_DURATION {
            return Err(ErrorCode::DurationTooShort);
        }
        if duration > MAX_AUCTION_DURATION {
            return Err(ErrorCode::DurationTooLong);
        }
        if self.ledger.holder_of(asset_id) != seller {
            return Err(ErrorCode::AssetNotHeld);
        }
        let expires_at = now + duration;
        let lid = self.create_entry(
            seller,
            asset_id,
            payment_kind,
            reserve_price,
            true,
            now,
            expires_at,
            external_ref,
        );
        Ok(lid)
    }

    /// The payment escrow account of the auction bound to listing `lid`, or
    /// an index no account has when the listing has no auction.
    pub open spec fn own_pay_escrow(m: Market, lid: int) -> int {
        if m.auctions@[lid] is Some {
            m.auctions@[lid].unwrap().escrow as int
        } else {
            -1
        }
    }

    /// A committed operation on listing `lid` preserves the market invariant
    /// when it keeps the listing's identity (seller, escrow, asset, type,
    /// price), leaves every other record alone, touches no escrow balance but
    /// the listing's own payment escrow, and moves the listing's asset only
    /// to a user account and only while the listing was active.
    proof fn lemma_step_wf(m0: Market, m1: Market, lid: int, asset_moved: Option<AccountId>)
        requires
            m0.wf(),
            0 <= lid < m0.n_listings(),
            m1.config == m0.config,
            m1.ledger.wf(),
            m1.ledger.escrow@ == m0.ledger.escrow@,
            m1.ledger.balances@.len() == m0.ledger.balances@.len(),
            m1.listings@ == m0.listings@.update(lid, m1.listings@[lid]),
            m1.listings@[lid].seller == m0.listings@[lid].seller,
            m1.listings@[lid].escrow == m0.listings@[lid].escrow,
            m1.listings@[lid].asset_id == m0.listings@[lid].asset_id,
            m1.listings@[lid].listing_type == m0.listings@[lid].listing_type,
            m1.listings@[lid].price == m0.listings@[lid].price,
            (m1.listings@[lid].buyer matches Some(b) ==> m1.ledger.user_account(b)),
            (m1.listings@[lid].status is Active ==> m0.listings@[lid].status is Active),
            m1.auctions@ == m0.auctions@.update(lid, m1.auctions@[lid]),
            (m1.auctions@[lid] is Some <==> m0.auctions@[lid] is Some),
            (m1.auctions@[lid] matches Some(a1) ==> {
                let a0 = m0.auctions@[lid].unwrap();
                &&& a1.listing_ref == a0.listing_ref
                &&& a1.escrow == a0.escrow
                &&& (a1.current_bidder is Some <==> a1.current_bid > 0)
                &&& (a1.current_bidder matches Some(b) ==> m1.ledger.user_account(b))
                &&& (a1.reserve_met <==> a1.current_bid > 0 && a1.current_bid
                    >= m1.listings@[lid].price)
                &&& a1.bid_count <= a1.current_bid
                &&& (m1.listings@[lid].status is Active ==> m1.ledger.bal(a1.escrow as int)
                    == a1.current_bid)
            }),
            forall|k: int|
                0 <= k < m0.ledger.accounts() && m0.ledger.escrowish(k) && k
                    != Self::own_pay_escrow(m0, lid) ==> #[trigger] m1.ledger.bal(k)
                    == m0.ledger.bal(k),
            (asset_moved is None ==> m1.ledger.assets@ == m0.ledger.assets@),
            (asset_moved matches Some(h) ==> m1.ledger.user_account(h) && m1.ledger.assets@
                == m0.ledger.assets@.update(m0.listings@[lid].asset_id as int, h)
                && m0.listings@[lid].status is Active),
            (m1.listings@[lid].status is Active ==> m1.ledger.holds(
                m1.listings@[lid].asset_id,
                m1.listings@[lid].escrow,
            )),
        ensures
            m1.wf(),
    {
        let n = m0.n_listings();
        assert(m0.listing_wf(lid));
        assert(m1.ledger.n_assets() == m0.ledger.n_assets());
        assert forall|i: int| 0 <= i < m1.n_listings() implies #[trigger] m1.listing_wf(i) by {
            assert(m0.listing_wf(i));
            if i != lid {
                assert(m1.listings@[i] == m0.listings@[i]);
                assert(m1.auctions@[i] == m0.auctions@[i]);
                let li = m0.listings@[i];
                if li.status is Active && asset_moved is Some && li.asset_id
                    == m0.listings@[lid].asset_id {
                    assert(m0.listing_wf(lid));
                    assert(m0.ledger.holds(li.asset_id, li.escrow));
                    assert(m0.ledger.holds(
                        m0.listings@[lid].asset_id,
                        m0.listings@[lid].escrow,
                    ));
                    assert(li.escrow == m0.listings@[lid].escrow);
                    assert(false);
                }
            }
        }
        assert forall|i: int| 0 <= i < m1.n_listings() implies #[trigger] m1.auction_wf(i) by {
            assert(m0.auction_wf(i));
            assert(m0.listing_wf(i));
            if i != lid {
                assert(m1.listings@[i] == m0.listings@[i]);
                assert(m1.auctions@[i] == m0.auctions@[i]);
                if m0.auctions@[i] is Some {
                    let ai = m0.auctions@[i].unwrap();
                    assert(m0.ledger.escrowish(ai.escrow as int));
                    if m0.auctions@[lid] is Some {
                        assert(ai.escrow != m0.auctions@[lid].unwrap().escrow);
                    }
                    assert(m1.ledger.bal(ai.escrow as int) == m0.ledger.bal(ai.escrow as int));
                }
            }
        }
        assert forall|i: int, j: int|
            0 <= i < m1.n_listings() && 0 <= j < m1.n_listings() && i != j implies (
        #[trigger] m1.listings@[i]).escrow != (#[trigger] m1.listings@[j]).escrow by {
            assert(m1.listings@[i].escrow == m0.listings@[i].escrow);
            assert(m1.listings@[j].escrow == m0.listings@[j].escrow);
        }
        assert forall|i: int, j: int|
            0 <= i < m1.n_listings() && 0 <= j < m1.n_listings() && (#[trigger] m1.auctions@[i])
                is Some implies m1.auctions@[i].unwrap().escrow != (
        #[trigger] m1.listings@[j]).escrow by {
            assert(m0.auctions@[i] is Some);
            assert(m1.auctions@[i].unwrap().escrow == m0.auctions@[i].unwrap().escrow);
            assert(m1.listings@[j].escrow == m0.listings@[j].escrow);
        }
        assert forall|i: int, j: int|
            0 <= i < m1.n_listings() && 0 <= j < m1.n_listings() && i != j && (
            #[trigger] m1.auctions@[i]) is Some && (#[trigger] m1.auctions@[j])
                is Some implies m1.auctions@[i].unwrap().escrow
                != m1.auctions@[j].unwrap().escrow by {
            assert(m0.auctions@[i] is Some && m0.auctions@[j] is Some);
            assert(m1.auctions@[i].unwrap().escrow == m0.auctions@[i].unwrap().escrow);
            assert(m1.auctions@[j].unwrap().escrow == m0.auctions@[j].unwrap().escrow);
        }
        assert(m1.escrows_exclusive());
    }

    /// Hands out a mutable borrow of one listing record.
    fn listing_mut(listings: &mut Vec<Listing>, i: usize) -> (l: &mut Listing)
        requires
            i < old(listings).len(),
        ensures
            *l == old(listings)@[i as int],
            final(listings)@ == old(listings)@.update(i as int, *final(l)),
    {
        &mut listings[i]
    }

    /// When `buy` refuses: paused, the listing not active, not a fixed-price
    /// listing, past its deadline, or a payment the buyer's balance cannot
    /// cover or a receiving balance cannot take.
    pub open spec fn buy_err(m: Market, lid: int, buyer: AccountId, now: i64) -> Option<
        ErrorCode,
    > {
        let l = m.listings@[lid];
        if m.config.paused {
            Some(ErrorCode::MarketplacePaused)
        } else if !(l.status is Active) {
            Some(ErrorCode::ListingNotActive)
        } else if !(l.listing_type is FixedPrice) {
            Some(ErrorCode::NotFixedPrice)
        } else if now >= l.expires_at {
            Some(ErrorCode::ListingExpired)
        } else {
            double_xfer_err(
                m.ledger.balances@,
                buyer as int,
                l.seller as int,
                seller_amount_of(l.price, m.config.platform_fee) as u64,
                m.config.fee_collector as int,
                platform_fee_of(l.price, m.config.platform_fee) as u64,
            )
        }
    }

    /// How a committed purchase changes the market: the seller's share moves
    /// from the buyer to the seller and the fee from the buyer to the fee
    /// collector; the asset leaves the listing's escrow for the buyer; the
    /// listing becomes sold to that buyer at that time; and one sale event is
    /// appended. Everything else is unchanged.
    pub open spec fn bought(m0: Market, m1: Market, lid: int, buyer: AccountId, now: i64) -> bool {
        let l = m0.listings@[lid];
        let fee = platform_fee_of(l.price, m0.config.platform_fee) as u64;
        let samt = seller_amount_of(l.price, m0.config.platform_fee) as u64;
        &&& m1.config == m0.config
        &&& m1.listings@ == m0.listings@.update(
            lid,
            (Listing { status: ListingStatus::Sold, buyer: Some(buyer), sold_at: Some(now), ..l }),
        )
        &&& m1.auctions@ == m0.auctions@
        &&& m1.ledger.balances@ == xfer(
            xfer(m0.ledger.balances@, buyer as int, l.seller as int, samt),
            buyer as int,
            m0.config.fee_collector as int,
            fee,
        )
        &&& m1.ledger.escrow@ == m0.ledger.escrow@
        &&& m1.ledger.assets@ == m0.ledger.assets@.update(l.asset_id as int, buyer)
        &&& m1.events@ == m0.events@.push(
            MarketEvent::Sold(
                ListingSold {
                    listing_id: lid as ListingId,
                    seller: l.seller,
                    buyer,
                    asset_id: l.asset_id,
                    price: l.price,
                    platform_fee: fee,
                    timestamp: now,
                },
            ),
        )
    }

    /// Buys a fixed-price listing. On success the seller's share and the
    /// platform fee both leave the buyer, the asset leaves escrow for the
    /// buyer under the listing's own authority, and the listing is sold; on
    /// any refusal nothing changes.
    pub fn buy(&mut self, lid: ListingId, buyer: AccountId, now: i64) -> (r: Result<
        SaleReceipt,
        ErrorCode,
    >)
        requires
            old(self).wf(),
            old(self).valid_listing(lid as int),
            old(self).ledger.user_account(buyer),
        ensures
            final(self).wf(),
            match Self::buy_err(*old(self), lid as int, buyer, now) {
                Some(e) => r == Err::<SaleReceipt, ErrorCode>(e) && *final(self) == *old(self),
                None => {
                    &&& Self::bought(*old(self), *final(self), lid as int, buyer, now)
                    &&& r == Ok::<SaleReceipt, ErrorCode>(
                        (SaleReceipt {
                            listing_id: lid,
                            buyer,
                            price: old(self).listings@[lid as int].price,
                            platform_fee: platform_fee_of(
                                old(self).listings@[lid as int].price,
                                old(self).config.platform_fee,
                            ) as u64,
                            seller_amount: seller_amount_of(
                                old(self).listings@[lid as int].price,
                                old(self).config.platform_fee,
                            ) as u64,
                        }),
                    )
                },
            },
    {
        let ghost m0 = *self;
        if self.config.paused {
            return Err(ErrorCode::MarketplacePaused);
        }
        let l = &self.listings[lid];
        let seller = l.seller;
        let price = l.price;
        let asset_id = l.asset_id;
        let status = l.status;
        let lt = l.listing_type;
        let expires_at = l.expires_at;
        if status != ListingStatus::Active {
            return Err(ErrorCode::ListingNotActive);
        }
        if lt != ListingType::FixedPrice {
            return Err(ErrorCode::NotFixedPrice);
        }
        if now >= expires_at {
            return Err(ErrorCode::ListingExpired);
        }
        proof {
            crate::fees::lemma_fee_bounds(price, self.config.platform_fee);
            assert(self.listing_wf(lid as int));
        }
        let fee = compute_platform_fee(price, self.config.platform_fee);
        let samt = price - fee;
        let collector = self.config.fee_collector;
        match self.ledger.check_double_transfer(buyer, seller, samt, collector, fee) {
            Some(e) => {
                return Err(e);
            },
            None => {},
        }
        self.ledger.transfer(buyer, seller, samt);
        self.ledger.transfer(buyer, collector, fee);
        self.ledger.move_asset(asset_id, buyer);
        let lref = Self::listing_mut(&mut self.listings, lid);
        lref.status = ListingStatus::Sold;
        lref.buyer = Some(buyer);
        lref.sold_at = Some(now);
        self.events.push(
            MarketEvent::Sold(
                ListingSold {
                    listing_id: lid,
                    seller,
                    buyer,
                    asset_id,
                    price,
                    platform_fee: fee,
                    timestamp: now,
                },
            ),
        );
        proof {
            let m1 = *self;
            assert(m1.auctions@ =~= m0.auctions@.update(lid as int, m1.auctions@[lid as int]));
            assert forall|k: int|
                0 <= k < m0.ledger.accounts() && m0.ledger.escrowish(k) && k
                    != Self::own_pay_escrow(m0, lid as int) implies #[trigger] m1.ledger.bal(k)
                == m0.ledger.bal(k) by {
                assert(k != buyer as int && k != seller as int && k != collector as int);
            }
            Self::lemma_step_wf(m0, m1, lid as int, Some(buyer));
        }
        Ok(SaleReceipt { listing_id: lid, buyer, price, platform_fee: fee, seller_amount: samt })
    }

    /// The smallest amount a follow-up bid must reach: five percent over the
    /// standing bid, with truncating division.
    pub open spec fn min_next_bid(current_bid: u64) -> int {
        (current_bid * 105) / 100
    }

    /// When `place_bid` refuses: paused, the listing not active or not an
    /// auction, past the deadline, an amount not above the standing bid, a
    /// follow-up bid under five percent over it, a refund the previous
    /// bidder's balance cannot take, or an amount the bidder cannot cover
    /// once the refund is back.
    pub open spec fn place_bid_err(
        m: Market,
        lid: int,
        bidder: AccountId,
        amount: u64,
        now: i64,
    ) -> Option<ErrorCode> {
        let l = m.listings@[lid];
        let a = m.auctions@[lid].unwrap();
        if m.config.paused {
            Some(ErrorCode::MarketplacePaused)
        } else if !(l.status is Active) {
            Some(ErrorCode::ListingNotActive)
        } else if !(l.listing_type is Auction) {
            Some(ErrorCode::NotAuction)
        } else if now >= l.expires_at {
            Some(ErrorCode::ListingExpired)
        } else if amount <= a.current_bid {
            Some(ErrorCode::BidTooLow)
        } else if a.current_bid > 0 && (amount as int) < Self::min_next_bid(a.current_bid) {
            Some(ErrorCode::InsufficientBidIncrease)
        } else if a.current_bid > 0 && m.ledger.bal(a.current_bidder.unwrap() as int)
            + a.current_bid > u64::MAX {
            Some(ErrorCode::BalanceOverflow)
        } else {
            let s1 = Self::refunded_balances(m, lid);
            if s1[bidder as int] < amount {
                Some(ErrorCode::InsufficientFunds)
            } else {
                None
            }
        }
    }

    /// The balances once the standing bid, if any, has left the auction's
    /// payment escrow for the bidder who placed it.
    pub open spec fn refunded_balances(m: Market, lid: int) -> Seq<u64> {
        let a = m.auctions@[lid].unwrap();
        if a.current_bid > 0 {
            xfer(
                m.ledger.balances@,
                a.escrow as int,
                a.current_bidder.unwrap() as int,
                a.current_bid,
            )
        } else {
            m.ledger.balances@
        }
    }

    /// How an accepted bid changes the market: the standing bid, if any, is
    /// refunded from the payment escrow to its bidder; the new amount moves
    /// from the new bidder into the payment escrow; the auction records the
    /// new standing bid, bidder and count, and the reserve mark sticks or is
    /// set when the amount reaches the reserve; and one bid event is
    /// appended. Everything else is unchanged.
    pub open spec fn bid_placed(
        m0: Market,
        m1: Market,
        lid: int,
        bidder: AccountId,
        amount: u64,
        now: i64,
    ) -> bool {
        let l = m0.listings@[lid];
        let a = m0.auctions@[lid].unwrap();
        &&& m1.config == m0.config
        &&& m1.listings@ == m0.listings@
        &&& m1.auctions@ == m0.auctions@.update(
            lid,
            Some(
                Auction {
                    current_bid: amount,
                    current_bidder: Some(bidder),
                    bid_count: (a.bid_count + 1) as u64,
                    reserve_met: a.reserve_met || amount >= l.price,
                    ..a
                },
            ),
        )
        &&& m1.ledger.balances@ == xfer(
            Self::refunded_balances(m0, lid),
            bidder as int,
            a.escrow as int,
            amount,
        )
        &&& m1.ledger.escrow@ == m0.ledger.escrow@
        &&& m1.ledger.assets@ == m0.ledger.assets@
        &&& m1.events@ == m0.events@.push(
            MarketEvent::Bid(
                BidPlaced {
                    listing_id: lid as ListingId,
                    bidder,
                    amount,
                    bid_count: (a.bid_count + 1) as u64,
                    timestamp: now,
                },
            ),
        )
    }

    /// Places a bid on an auction listing. An accepted bid must be above the
    /// standing bid, and at least five percent above it once one stands; the
    /// displaced bid is refunded to its bidder in the same step, under the
    /// auction's own escrow authority. On any refusal nothing changes.
    pub fn place_bid(&mut self, lid: ListingId, bidder: AccountId, amount: u64, now: i64) -> (r:
        Result<BidReceipt, ErrorCode>)
        requires
            old(self).wf(),
            old(self).valid_listing(lid as int),
            old(self).ledger.user_account(bidder),
        ensures
            final(self).wf(),
            match Self::place_bid_err(*old(self), lid as int, bidder, amount, now) {
                Some(e) => r == Err::<BidReceipt, ErrorCode>(e) && *final(self) == *old(self),
                None => {
                    let a0 = old(self).auctions@[lid as int].unwrap();
                    &&& Self::bid_placed(*old(self), *final(self), lid as int, bidder, amount, now)
                    &&& r == Ok::<BidReceipt, ErrorCode>(
                        (BidReceipt {
                            listing_id: lid,
                            bidder,
                            amount,
                            bid_count: (a0.bid_count + 1) as u64,
                            refunded: if a0.current_bid > 0 {
                                Some(
                                    (Refund {
                                        bidder: a0.current_bidder.unwrap(),
                                        amount: a0.current_bid,
                                    }),
                                )
                            } else {
                                None::<Refund>
                            },
                        }),
                    )
                },
            },
    {
        let ghost m0 = *self;
        if self.config.paused {
            return Err(ErrorCode::MarketplacePaused);
        }
        let l = &self.listings[lid];
        let status = l.status;
        let lt = l.listing_type;
        let expires_at = l.expires_at;
        let price = l.price;
        if status != ListingStatus::Active {
            return Err(ErrorCode::ListingNotActive);
        }
        if lt != ListingType::Auction {
            return Err(ErrorCode::NotAuction);
        }
        proof {
            assert(m0.listing_wf(lid as int));
            assert(m0.auction_wf(lid as int));
        }
        let a = self.auctions[lid].unwrap();
        if now >= expires_at {
            return Err(ErrorCode::ListingExpired);
        }
        if amount <= a.current_bid {
            return Err(ErrorCode::BidTooLow);
        }
        let mut refunded: Option<Refund> = None;
        if a.current_bid > 0 {
            if (amount as u128) < (a.current_bid as u128) * 105 / 100 {
                return Err(ErrorCode::InsufficientBidIncrease);
            }
            let prev = a.current_bidder.unwrap();
            if u64::MAX - self.ledger.balance_of(prev) < a.current_bid {
                return Err(ErrorCode::BalanceOverflow);
            }
            let avail: u128 = if prev == bidder {
                (self.ledger.balance_of(bidder) as u128) + (a.current_bid as u128)
            } else {
                self.ledger.balance_of(bidder) as u128
            };
            if avail < amount as u128 {
                return Err(ErrorCode::InsufficientFunds);
            }
            self.ledger.transfer(a.escrow, prev, a.current_bid);
            refunded = Some(Refund { bidder: prev, amount: a.current_bid });
        } else {
            if self.ledger.balance_of(bidder) < amount {
                return Err(ErrorCode::InsufficientFunds);
            }
        }
        self.ledger.transfer(bidder, a.escrow, amount);
        let new_count = a.bid_count + 1;
        self.auctions.set(
            lid,
            Some(
                Auction {
                    listing_ref: a.listing_ref,
                    current_bid: amount,
                    current_bidder: Some(bidder),
                    bid_count: new_count,
                    reserve_met: a.reserve_met || amount >= price,
                    escrow: a.escrow,
                },
            ),
        );
        self.events.push(
            MarketEvent::Bid(
                BidPlaced { listing_id: lid, bidder, amount, bid_count: new_count, timestamp: now },
            ),
        );
        proof {
            let m1 = *self;
            assert(m1.listings@ =~= m0.listings@.update(lid as int, m1.listings@[lid as int]));
            assert forall|k: int|
                0 <= k < m0.ledger.accounts() && m0.ledger.escrowish(k) && k
                    != Self::own_pay_escrow(m0, lid as int) implies #[trigger] m1.ledger.bal(k)
                == m0.ledger.bal(k) by {
                assert(k != bidder as int);
                assert(a.current_bid > 0 ==> k != a.current_bidder.unwrap() as int);
                assert(k != a.escrow as int);
            }
            Self::lemma_step_wf(m0, m1, lid as int, None);
        }
        Ok(BidReceipt { listing_id: lid, bidder, amount, bid_count: new_count, refunded })
    }

    /// When `settle_auction` refuses: the listing not active (a second
    /// settlement fails here), not an auction, the auction not yet ended, or
    /// — on the winning path — a payout a receiving balance cannot take.
    pub open spec fn settle_auction_err(m: Market, lid: int, now: i64) -> Option<ErrorCode> {
        let l = m.listings@[lid];
        let a = m.auctions@[lid].unwrap();
        if !(l.status is Active) {
            Some(ErrorCode::ListingNotActive)
        } else if !(l.listing_type is Auction) {
            Some(ErrorCode::NotAuction)
        } else if now < l.expires_at {
            Some(ErrorCode::AuctionNotEnded)
        } else if a.reserve_met && a.current_bidder is Some {
            double_xfer_err(
                m.ledger.balances@,
                a.escrow as int,
                l.seller as int,
                seller_amount_of(a.current_bid, m.config.platform_fee) as u64,
                m.config.fee_collector as int,
                platform_fee_of(a.current_bid, m.config.platform_fee) as u64,
            )
        } else {
            None
        }
    }

    /// Whether settlement of listing `lid` ends in a sale: the reserve was
    /// met and a bidder stands.
    pub open spec fn settles_sold(m: Market, lid: int) -> bool {
        let a = m.auctions@[lid].unwrap();
        a.reserve_met && a.current_bidder is Some
    }

    /// How a winning settlement changes the market: the seller's share and
    /// the fee leave the auction's payment escrow for the seller and the fee
    /// collector, the asset leaves the listing's escrow for the winning
    /// bidder, the listing is sold to that bidder, and one sale event is
    /// appended. Everything else — the auction record included — is
    /// unchanged.
    pub open spec fn settled_sold(m0: Market, m1: Market, lid: int, now: i64) -> bool {
        let l = m0.listings@[lid];
        let a = m0.auctions@[lid].unwrap();
        let fee = platform_fee_of(a.current_bid, m0.config.platform_fee) as u64;
        let samt = seller_amount_of(a.current_bid, m0.config.platform_fee) as u64;
        let winner = a.current_bidder.unwrap();
        &&& m1.config == m0.config
        &&& m1.listings@ == m0.listings@.update(
            lid,
            (Listing {
                status: ListingStatus::Sold,
                buyer: Some(winner),
                sold_at: Some(now),
                ..l
            }),
        )
        &&& m1.auctions@ == m0.auctions@
        &&& m1.ledger.balances@ == xfer(
            xfer(m0.ledger.balances@, a.escrow as int, l.seller as int, samt),
            a.escrow as int,
            m0.config.fee_collector as int,
            fee,
        )
        &&& m1.ledger.escrow@ == m0.ledger.escrow@
        &&& m1.ledger.assets@ == m0.ledger.assets@.update(l.asset_id as int, winner)
        &&& m1.events@ == m0.events@.push(
            MarketEvent::Sold(
                ListingSold {
                    listing_id: lid as ListingId,
                    seller: l.seller,
                    buyer: winner,
                    asset_id: l.asset_id,
                    price: a.current_bid,
                    platform_fee: fee,
                    timestamp: now,
                },
            ),
        )
    }

    /// How a failed settlement — no bid, or reserve never met — changes the
    /// market: the asset returns to the seller, the listing expires, and no
    /// payment moves. Everything else is unchanged.
    pub open spec fn settled_expired(m0: Market, m1: Market, lid: int) -> bool {
        let l = m0.listings@[lid];
        &&& m1.config == m0.config
        &&& m1.listings@ == m0.listings@.update(
            lid,
            (Listing { status: ListingStatus::Expired, ..l }),
        )
        &&& m1.auctions@ == m0.auctions@
        &&& m1.ledger.balances@ == m0.ledger.balances@
        &&& m1.ledger.escrow@ == m0.ledger.escrow@
        &&& m1.ledger.assets@ == m0.ledger.assets@.update(l.asset_id as int, l.seller)
        &&& m1.events@ == m0.events@
    }

    /// Settles an ended auction. With the reserve met and a bidder standing,
    /// the sale commits: payment out of escrow, asset to the winner, listing
    /// sold. Otherwise the asset returns to the seller and the listing
    /// expires. Either outcome is final: a second settlement fails with a
    /// not-active error.
    pub fn settle_auction(&mut self, lid: ListingId, now: i64) -> (r: Result<
        SettlementReceipt,
        ErrorCode,
    >)
        requires
            old(self).wf(),
            old(self).valid_listing(lid as int),
        ensures
            final(self).wf(),
            match Self::settle_auction_err(*old(self), lid as int, now) {
                Some(e) => r == Err::<SettlementReceipt, ErrorCode>(e) && *final(self) == *old(
                    self,
                ),
                None => if Self::settles_sold(*old(self), lid as int) {
                    let a0 = old(self).auctions@[lid as int].unwrap();
                    &&& Self::settled_sold(*old(self), *final(self), lid as int, now)
                    &&& r == Ok::<SettlementReceipt, ErrorCode>(
                        (SettlementReceipt::Sold {
                            winner: a0.current_bidder.unwrap(),
                            price: a0.current_bid,
                            platform_fee: platform_fee_of(
                                a0.current_bid,
                                old(self).config.platform_fee,
                            ) as u64,
                        }),
                    )
                } else {
                    &&& Self::settled_expired(*old(self), *final(self), lid as int)
                    &&& r == Ok::<SettlementReceipt, ErrorCode>(SettlementReceipt::Expired)
                },
            },
    {
        let ghost m0 = *self;
        let l = &self.listings[lid];
        let status = l.status;
        let lt = l.listing_type;
        let expires_at = l.expires_at;
        let seller = l.seller;
        let asset_id = l.asset_id;
        if status != ListingStatus::Active {
            return Err(ErrorCode::ListingNotActive);
        }
        if lt != ListingType::Auction {
            return Err(ErrorCode::NotAuction);
        }
        if now < expires_at {
            return Err(ErrorCode::AuctionNotEnded);
        }
        proof {
            assert(m0.listing_wf(lid as int));
            assert(m0.auction_wf(lid as int));
        }
        let a = self.auctions[lid].unwrap();
        if a.reserve_met && a.current_bidder.is_some() {
            let winner = a.current_bidder.unwrap();
            proof {
                crate::fees::lemma_fee_bounds(a.current_bid, self.config.platform_fee);
            }
            let fee = compute_platform_fee(a.current_bid, self.config.platform_fee);
            let samt = a.current_bid - fee;
            let collector = self.config.fee_collector;
            match self.ledger.check_double_transfer(a.escrow, seller, samt, collector, fee) {
                Some(e) => {
                    return Err(e);
                },
                None => {},
            }
            self.ledger.transfer(a.escrow, seller, samt);
            self.ledger.transfer(a.escrow, collector, fee);
            self.ledger.move_asset(asset_id, winner);
            let lref = Self::listing_mut(&mut self.listings, lid);
            lref.status = ListingStatus::Sold;
            lref.buyer = Some(winner);
            lref.sold_at = Some(now);
            self.events.push(
                MarketEvent::Sold(
                    ListingSold {
                        listing_id: lid,
                        seller,
                        buyer: winner,
                        asset_id,
                        price: a.current_bid,
                        platform_fee: fee,
                        timestamp: now,
                    },
                ),
            );
            proof {
                let m1 = *self;
                assert(m1.auctions@ =~= m0.auctions@.update(
                    lid as int,
                    m1.auctions@[lid as int],
                ));
                assert forall|k: int|
                    0 <= k < m0.ledger.accounts() && m0.ledger.escrowish(k) && k
                        != Self::own_pay_escrow(m0, lid as int) implies #[trigger] m1.ledger.bal(k)
                    == m0.ledger.bal(k) by {
                    assert(k != seller as int && k != collector as int);
                    assert(k != a.escrow as int);
                }
                Self::lemma_step_wf(m0, m1, lid as int, Some(winner));
            }
            Ok(SettlementReceipt::Sold { winner, price: a.current_bid, platform_fee: fee })
        } else {
            self.ledger.move_asset(asset_id, seller);
            let lref = Self::listing_mut(&mut self.listings, lid);
            lref.status = ListingStatus::Expired;
            proof {
                let m1 = *self;
                assert(m1.auctions@ =~= m0.auctions@.update(
                    lid as int,
                    m1.auctions@[lid as int],
                ));
                Self::lemma_step_wf(m0, m1, lid as int, Some(seller));
            }
            Ok(SettlementReceipt::Expired)
        }
    }

    /// When `cancel_listing` refuses: the listing not active, a caller other
    /// than the seller, or an auction with a standing bid — which no caller,
    /// the seller included, may cancel.
    pub open spec fn cancel_listing_err(m: Market, lid: int, caller: AccountId) -> Option<
        ErrorCode,
    > {
        let l = m.listings@[lid];
        if !(l.status is Active) {
            Some(ErrorCode::ListingNotActive)
        } else if caller != l.seller {
            Some(ErrorCode::NotSeller)
        } else if l.listing_type is Auction && m.auctions@[lid].unwrap().current_bid > 0 {
            Some(ErrorCode::HasActiveBid)
        } else {
            None
        }
    }

    /// How a committed cancellation changes the market: the asset returns
    /// from escrow to the seller, the listing is cancelled, and one
    /// cancellation event is appended. No payment moves; nothing else
    /// changes.
    pub open spec fn cancelled(m0: Market, m1: Market, lid: int, now: i64) -> bool {
        let l = m0.listings@[lid];
        &&& m1.config == m0.config
        &&& m1.listings@ == m0.listings@.update(
            lid,
            (Listing { status: ListingStatus::Cancelled, ..l }),
        )
        &&& m1.auctions@ == m0.auctions@
        &&& m1.ledger.balances@ == m0.ledger.balances@
        &&& m1.ledger.escrow@ == m0.ledger.escrow@
        &&& m1.ledger.assets@ == m0.ledger.assets@.update(l.asset_id as int, l.seller)
        &&& m1.events@ == m0.events@.push(
            MarketEvent::Cancelled(
                ListingCancelled {
                    listing_id: lid as ListingId,
                    seller: l.seller,
                    asset_id: l.asset_id,
                    timestamp: now,
                },
            ),
        )
    }

    /// Cancels an active listing: only its seller may, and an auction only
    /// while no bid stands — with a standing bid the call fails whoever
    /// makes it. The asset returns to the seller. Cancellation is never
    /// blocked by the pause flag.
    pub fn cancel_listing(&mut self, lid: ListingId, caller: AccountId, now: i64) -> (r: Result<
        (),
        ErrorCode,
    >)
        requires
            old(self).wf(),
            old(self).valid_listing(lid as int),
        ensures
            final(self).wf(),
            match Self::cancel_listing_err(*old(self), lid as int, caller) {
                Some(e) => r == Err::<(), ErrorCode>(e) && *final(self) == *old(self),
                None => r == Ok::<(), ErrorCode>(()) && Self::cancelled(
                    *old(self),
                    *final(self),
                    lid as int,
                    now,
                ),
            },
    {
        let ghost m0 = *self;
        let l = &self.listings[lid];
        let status = l.status;
        let lt = l.listing_type;
        let seller = l.seller;
        let asset_id = l.asset_id;
        if status != ListingStatus::Active {
            return Err(ErrorCode::ListingNotActive);
        }
        if caller != seller {
            return Err(ErrorCode::NotSeller);
        }
        proof {
            assert(m0.listing_wf(lid as int));
            assert(m0.auction_wf(lid as int));
        }
        if lt == ListingType::Auction {
            let a = self.auctions[lid].unwrap();
            if a.current_bid > 0 {
                return Err(ErrorCode::HasActiveBid);
            }
        }
        self.ledger.move_asset(asset_id, seller);
        let lref = Self::listing_mut(&mut self.listings, lid);
        lref.status = ListingStatus::Cancelled;
        self.events.push(
            MarketEvent::Cancelled(
                ListingCancelled { listing_id: lid, seller, asset_id, timestamp: now },
            ),
        );
        proof {
            let m1 = *self;
            assert(m1.auctions@ =~= m0.auctions@.update(lid as int, m1.auctions@[lid as int]));
            Self::lemma_step_wf(m0, m1, lid as int, Some(seller));
        }
        Ok(())
    }

    /// When an admin operation refuses its caller.
    pub open spec fn admin_err(m: Market, caller: AccountId) -> Option<ErrorCode> {
        if caller != m.config.authority {
            Some(ErrorCode::NotAuthorized)
        } else {
            None
        }
    }

    /// Pauses or unpauses the marketplace; only the authority may.
    pub fn set_paused(&mut self, caller: AccountId, paused: bool) -> (r: Result<(), ErrorCode>)
        requires
            old(self).wf(),
        ensures
            final(self).wf(),
            match Self::admin_err(*old(self), caller) {
                Some(e) => r == Err::<(), ErrorCode>(e) && *final(self) == *old(self),
                None => r == Ok::<(), ErrorCode>(()) && *final(self) == (Market {
                    config: (Marketplace { paused, ..old(self).config }),
                    ..*old(self)
                }),
            },
    {
        if caller != self.config.authority {
            return Err(ErrorCode::NotAuthorized);
        }
        let ghost m0 = *self;
        self.config.paused = paused;
        proof {
            Self::lemma_wf_config_change(m0, *self);
        }
        Ok(())
    }

    /// When `set_fee` refuses.
    pub open spec fn set_fee_err(m: Market, caller: AccountId, new_fee: u16) -> Option<
        ErrorCode,
    > {
        if caller != m.config.authority {
            Some(ErrorCode::NotAuthorized)
        } else if new_fee > MAX_FEE_BPS {
            Some(ErrorCode::FeeTooHigh)
        } else {
            None
        }
    }

    /// Changes the platform fee rate; only the authority may, and never above
    /// the maximum.
    pub fn set_fee(&mut self, caller: AccountId, new_fee: u16) -> (r: Result<(), ErrorCode>)
        requires
            old(self).wf(),
        ensures
            final(self).wf(),
            match Self::set_fee_err(*old(self), caller, new_fee) {
                Some(e) => r == Err::<(), ErrorCode>(e) && *final(self) == *old(self),
                None => r == Ok::<(), ErrorCode>(()) && *final(self) == (Market {
                    config: (Marketplace { platform_fee: new_fee, ..old(self).config }),
                    ..*old(self)
                }),
            },
    {
        if caller != self.config.authority {
            return Err(ErrorCode::NotAuthorized);
        }
        if new_fee > MAX_FEE_BPS {
            return Err(ErrorCode::FeeTooHigh);
        }
        let ghost m0 = *self;
        self.config.platform_fee = new_fee;
        proof {
            Self::lemma_wf_config_change(m0, *self);
        }
        Ok(())
    }
}

} // verus!
