use chrono::TimeZone;
use vstd::prelude::*;

use crate::text::{has_prefix, strip_leading, text, trim_leading, starts_with};

verus! {

/// A non-negative decimal number, `digits` times ten to the power `-scale`.
#[derive(Debug, Clone, Copy, PartialEq, Eq)]
pub struct Decimal {
    pub digits: u128,
    pub scale: u32,
}

/// A whole number as a decimal.
pub open spec fn whole(n: u128) -> Decimal {
    Decimal { digits: n, scale: 0 }
}

/// The decimal of a whole amount stands for exactly that amount: all its
/// digits and no fractional part.
pub proof fn lemma_whole_is_exact(n: u128)
    ensures
        whole(n).digits == n,
        whole(n).scale == 0,
{
}

/// A whole number as a decimal.
pub fn whole_decimal(n: u128) -> (r: Decimal)
    ensures
        r == whole(n),
        r.digits == n,
        r.scale == 0,
{
    Decimal { digits: n, scale: 0 }
}

/// `t as i64`: the same bits read as a signed number.
pub open spec fn wrapped_i64(t: u64) -> int {
    if t <= i64::MAX {
        t as int
    } else {
        t - 0x1_0000_0000_0000_0000
    }
}

/// `t as i64`.
pub fn wrap_to_i64(t: u64) -> (r: i64)
    ensures
        r == wrapped_i64(t),
{
    if t <= 0x7fff_ffff_ffff_ffff {
        t as i64
    } else {
        let low: u64 = t - 0x8000_0000_0000_0000;
        (low as i64) - 0x7fff_ffff_ffff_ffff - 1
    }
}

/// Seconds since the epoch that chrono can turn into a `DateTime<Utc>`:
/// from January 1 of year -262143 to December 31 of year 262142.
pub open spec fn utc_seconds_in_range(secs: int) -> bool {
    -8_334_601_228_800 <= secs <= 8_210_266_876_799
}

/// Whether `Utc.timestamp_opt(secs, 0)` is a single time. chrono 0.4
/// accepts the days from January 1, -262143 to December 31, 262142, which
/// are the seconds `-8334601228800..=8210266876799`.
#[verifier::external_body]
pub(crate) fn utc_timestamp_exists(secs: i64) -> (r: bool)
    ensures
        r == utc_seconds_in_range(secs as int),
{
    chrono::Utc.timestamp_opt(secs, 0).single().is_some()
}

// ---------------------------------------------------------------------------
// Token created
// ---------------------------------------------------------------------------

/// A new cult token was deployed.
pub struct CultTokenCreatedEvent {
    pub token_address: String,
    pub token_creator: String,
    pub airdrop_contract: String,
    pub factory_address: String,
    pub protocol_fee_recipient: String,
    pub bonding_curve: String,
    pub token_uri: String,
    pub name: String,
    pub symbol: String,
    pub pool_address: String,
    pub block_number: u64,
    pub block_timestamp: u64,
    pub transaction_hash: String,
    pub chain_id: String,
    pub merkle_roots: Vec<String>,
    pub total_amount: u128,
    pub total_airdrop_recipient_count: u32,
}

/// The gateway address of an `ipfs://` token URI: `https://ipfs.io/ipfs/`
/// followed by the URI without its leading copies of `ipfs://`; `None` for
/// any other URI.
pub fn ipfs_gateway_url(token_uri: &String) -> (r: Option<String>)
    ensures
        r is Some <==> has_prefix(token_uri@, "ipfs://"@),
        r is Some ==> r->Some_0@ == "https://ipfs.io/ipfs/"@ + strip_leading(
            token_uri@,
            "ipfs://"@,
        ),
{
    if starts_with(token_uri.as_str(), "ipfs://") {
        let hash = trim_leading(token_uri.as_str(), "ipfs://");
        let mut url = text("https://ipfs.io/ipfs/");
        url.append(hash.as_str());
        Some(url)
    } else {
        None
    }
}

/// Why a created-token event cannot be stored.
#[derive(Debug, Clone, Copy, PartialEq, Eq)]
pub enum CreatedTokenError {
    /// The block number does not fit in a signed 64-bit column.
    BlockNumberTooLarge(u64),
    /// The block time is outside the range of UTC times.
    InvalidBlockTimestamp(u64),
}

/// The column values of a new cult token row, as the database takes them.
pub struct CreatedTokenRow {
    pub block_number: i64,
    /// Seconds since the epoch of the block time, a valid UTC time.
    pub block_timestamp: i64,
    /// The initial holder count and the airdrop recipient count.
    pub recipient_count: i64,
    /// The airdropped amount (also the circulating supply).
    pub total_amount: Decimal,
    /// The airdropped share of the total supply of ten billion.
    pub top_holders: Decimal,
    /// The chain the token lives on.
    pub chain: String,
}

/// Converts a created-token event for storage: the block number must fit in
/// an `i64`, then the block time (read as `i64`) must be a valid UTC time;
/// the top-holder share is the total amount divided by ten billion.
pub fn created_token_row(event: &CultTokenCreatedEvent) -> (r: Result<
    CreatedTokenRow,
    CreatedTokenError,
>)
    ensures
        event.block_number > i64::MAX ==> r is Err && r->Err_0
            == CreatedTokenError::BlockNumberTooLarge(event.block_number),
        event.block_number <= i64::MAX && !utc_seconds_in_range(
            wrapped_i64(event.block_timestamp),
        ) ==> r is Err && r->Err_0
            == CreatedTokenError::InvalidBlockTimestamp(event.block_timestamp),
        event.block_number <= i64::MAX && utc_seconds_in_range(wrapped_i64(event.block_timestamp))
            ==> r is Ok,
        r is Ok ==> ({
            let row = r->Ok_0;
            &&& row.block_number == event.block_number
            &&& row.block_timestamp == wrapped_i64(event.block_timestamp)
            &&& row.recipient_count == event.total_airdrop_recipient_count
            &&& row.total_amount == whole(event.total_amount)
            &&& row.top_holders == (Decimal { digits: event.total_amount, scale: 10 })
            &&& row.chain@ == "10143"@
        }),
{
    if event.block_number > 0x7fff_ffff_ffff_ffff {
        return Err(CreatedTokenError::BlockNumberTooLarge(event.block_number));
    }
    let block_number = event.block_number as i64;
    let recipient_count = event.total_airdrop_recipient_count as i64;
    let secs = wrap_to_i64(event.block_timestamp);
    if !utc_timestamp_exists(secs) {
        return Err(CreatedTokenError::InvalidBlockTimestamp(event.block_timestamp));
    }
    Ok(CreatedTokenRow {
        block_number,
        block_timestamp: secs,
        recipient_count,
        total_amount: whole_decimal(event.total_amount),
        top_holders: Decimal { digits: event.total_amount, scale: 10 },
        chain: text("10143"),
    })
}


// ---------------------------------------------------------------------------
// Trades
// ---------------------------------------------------------------------------

/// Side of a trade.
#[derive(Debug, Clone, Copy, PartialEq, Eq)]
pub enum TradeType {
    Buy,
    Sell,
}

/// Tokens were bought from the bonding curve.
pub struct CultTokenBuyEvent {
    pub trader_id: String,
    pub recipient_id: String,
    pub order_referrer: String,
    pub total_eth: u128,
    pub eth_fee: u128,
    pub eth_sold: u128,
    pub tokens_bought: u128,
    pub buyer_token_balance: u128,
    pub total_supply: u128,
    pub market_type: u8,
    pub block_timestamp: u64,
    pub block_number: u64,
    pub transaction_hash: String,
    pub token_id: String,
    pub chain_id: u64,
}

/// Tokens were sold to the bonding curve.
pub struct CultTokenSellEvent {
    pub seller: String,
    pub recipient: String,
    pub order_referrer: String,
    pub total_eth: u128,
    pub eth_fee: u128,
    pub eth_bought: u128,
    pub tokens_sold: u128,
    pub seller_token_balance: u128,
    pub total_supply: u128,
    pub market_type: u8,
    pub block_timestamp: u64,
    pub block_number: u64,
    pub log_index: u64,
    pub chain_id: u64,
    pub transaction_hash: String,
    pub token_id: String,
}

/// The trade row and the trader's balance update of a buy or a sell.
pub struct TradeRecord {
    pub token_id: String,
    pub trade_type: TradeType,
    /// The account whose balance row is updated.
    pub trader_id: String,
    pub recipient_id: String,
    pub order_referrer_id: String,
    pub total_eth: Decimal,
    pub eth_fee: Decimal,
    /// Ether paid in (buy) or out (sell).
    pub eth_amount: Decimal,
    /// Tokens bought or sold.
    pub token_amount: Decimal,
    /// The trader's token balance after the trade (the holdings value).
    pub trader_token_balance: Decimal,
    pub total_supply: Decimal,
    pub market_type: i16,
    /// Block time, seconds since the epoch (`u64` read as `i64`).
    pub timestamp: i64,
    pub transaction_hash: String,
}

/// The trade row of a buy; the trader is also the recipient.
pub fn buy_trade_record(event: &CultTokenBuyEvent) -> (r: TradeRecord)
    ensures
        r.token_id@ == event.token_id@,
        r.trade_type == TradeType::Buy,
        r.trader_id@ == event.trader_id@,
        r.recipient_id@ == event.trader_id@,
        r.order_referrer_id@ == event.order_referrer@,
        r.total_eth == whole(event.total_eth),
        r.eth_fee == whole(event.eth_fee),
        r.eth_amount == whole(event.eth_sold),
        r.token_amount == whole(event.tokens_bought),
        r.trader_token_balance == whole(event.buyer_token_balance),
        r.total_supply == whole(event.total_supply),
        r.market_type == event.market_type,
        r.timestamp == wrapped_i64(event.block_timestamp),
        r.transaction_hash@ == event.transaction_hash@,
{
    TradeRecord {
        token_id: event.token_id.clone(),
        trade_type: TradeType::Buy,
        trader_id: event.trader_id.clone(),
        recipient_id: event.trader_id.clone(),
        order_referrer_id: event.order_referrer.clone(),
        total_eth: whole_decimal(event.total_eth),
        eth_fee: whole_decimal(event.eth_fee),
        eth_amount: whole_decimal(event.eth_sold),
        token_amount: whole_decimal(event.tokens_bought),
        trader_token_balance: whole_decimal(event.buyer_token_balance),
        total_supply: whole_decimal(event.total_supply),
        market_type: event.market_type as i16,
        timestamp: wrap_to_i64(event.block_timestamp),
        transaction_hash: event.transaction_hash.clone(),
    }
}

/// The trade row of a sell.
pub fn sell_trade_record(event: &CultTokenSellEvent) -> (r: TradeRecord)
    ensures
        r.token_id@ == event.token_id@,
        r.trade_type == TradeType::Sell,
        r.trader_id@ == event.seller@,
        r.recipient_id@ == event.recipient@,
        r.order_referrer_id@ == event.order_referrer@,
        r.total_eth == whole(event.total_eth),
        r.eth_fee == whole(event.eth_fee),
        r.eth_amount == whole(event.eth_bought),
        r.token_amount == whole(event.tokens_sold),
        r.trader_token_balance == whole(event.seller_token_balance),
        r.total_supply == whole(event.total_supply),
        r.market_type == event.market_type,
        r.timestamp == wrapped_i64(event.block_timestamp),
        r.transaction_hash@ == event.transaction_hash@,
{
    TradeRecord {
        token_id: event.token_id.clone(),
        trade_type: TradeType::Sell,
        trader_id: event.seller.clone(),
        recipient_id: event.recipient.clone(),
        order_referrer_id: event.order_referrer.clone(),
        total_eth: whole_decimal(event.total_eth),
        eth_fee: whole_decimal(event.eth_fee),
        eth_amount: whole_decimal(event.eth_bought),
        token_amount: whole_decimal(event.tokens_sold),
        trader_token_balance: whole_decimal(event.seller_token_balance),
        total_supply: whole_decimal(event.total_supply),
        market_type: event.market_type as i16,
        timestamp: wrap_to_i64(event.block_timestamp),
        transaction_hash: event.transaction_hash.clone(),
    }
}

/// Change of the token's holder count after a sell: one holder fewer when
/// the seller has no tokens left.
pub fn sell_holder_count_adjustment(seller_token_balance: u128) -> (r: i32)
    ensures
        r == (if seller_token_balance == 0 { -1int } else { 0int }),
{
    if seller_token_balance == 0 {
        -1
    } else {
        0
    }
}

// ---------------------------------------------------------------------------
// Transfers
// ---------------------------------------------------------------------------

/// Tokens moved between two accounts.
pub struct CultTokenTransferEvent {
    pub from: String,
    pub to: String,
    pub from_token_balance: u128,
    pub to_token_balance: u128,
    pub block_timestamp: u64,
    pub transaction_hash: String,
    pub token_id: String,
}

/// The address that mints send from.
pub const ZERO_ADDRESS: &'static str = "0x0000000000000000000000000000000000000000";

/// The balances to store after a transfer.
pub struct TransferBalances {
    pub token_id: String,
    pub from: String,
    pub from_balance: Decimal,
    pub to: String,
    pub to_balance: Decimal,
}

/// The balance updates of a transfer; `None` for a transfer from the zero
/// address, which is skipped.
pub fn transfer_balances(event: &CultTokenTransferEvent) -> (r: Option<TransferBalances>)
    ensures
        r is None <==> event.from@ == ZERO_ADDRESS@,
        r is Some ==> ({
            let b = r->Some_0;
            &&& b.token_id@ == event.token_id@
            &&& b.from@ == event.from@
            &&& b.from_balance == whole(event.from_token_balance)
            &&& b.to@ == event.to@
            &&& b.to_balance == whole(event.to_token_balance)
        }),
{
    let zero = text(ZERO_ADDRESS);
    if event.from == zero {
        return None;
    }
    Some(TransferBalances {
        token_id: event.token_id.clone(),
        from: event.from.clone(),
        from_balance: whole_decimal(event.from_token_balance),
        to: event.to.clone(),
        to_balance: whole_decimal(event.to_token_balance),
    })
}

// ---------------------------------------------------------------------------
// Referral fees
// ---------------------------------------------------------------------------

/// An order referrer earned a fee.
pub struct CultTokenFeesEvent {
    pub order_referrer: String,
    pub order_referrer_fee: i64,
    pub block_timestamp: u64,
    pub transaction_hash: String,
}

/// The stored account of an order referrer, as far as the fee update reads it.
pub struct ReferrerAccount {
    pub slug: Option<String>,
    pub referrer_id: Option<String>,
    pub total_referrals: Option<i32>,
    pub diamond_hand_probability: i32,
}

/// The values written for a referrer account when a fee arrives.
pub struct ReferrerFeeUpsert {
    pub id: String,
    pub slug: String,
    pub referrer_id: Option<String>,
    pub total_referrals: i32,
    pub fee: i64,
    pub diamond_hand_probability: i32,
}

/// The slug given to a referrer account that has none.
pub open spec fn default_referrer_slug() -> Seq<char> {
    "Order Referrer Fees"@
}

/// The upsert values for a fee: the existing slug, or the default one; the
/// existing referrer; one more referral than before (one for a new account);
/// the fee; the existing diamond-hand probability, or 0.
pub fn referrer_fee_upsert(event: &CultTokenFeesEvent, existing: &Option<ReferrerAccount>) -> (r:
    ReferrerFeeUpsert)
    requires
        existing matches Some(a) ==> (a.total_referrals matches Some(n) ==> n < i32::MAX),
    ensures
        r.id@ == event.order_referrer@,
        r.fee == event.order_referrer_fee,
        r.slug@ == (match existing {
            Some(a) => match a.slug {
                Some(s) => s@,
                None => default_referrer_slug(),
            },
            None => default_referrer_slug(),
        }),
        r.referrer_id == (match existing {
            Some(a) => a.referrer_id,
            None => None,
        }),
        r.total_referrals == (match existing {
            Some(a) => match a.total_referrals {
                Some(n) => n + 1,
                None => 1,
            },
            None => 1,
        }),
        r.diamond_hand_probability == (match existing {
            Some(a) => a.diamond_hand_probability,
            None => 0,
        }),
{
    match existing {
        Some(a) => {
            let slug = match &a.slug {
                Some(s) => s.clone(),
                None => text("Order Referrer Fees"),
            };
            let total = match a.total_referrals {
                Some(n) => n + 1,
                None => 1,
            };
            ReferrerFeeUpsert {
                id: event.order_referrer.clone(),
                slug,
                referrer_id: a.referrer_id.clone(),
                total_referrals: total,
                fee: event.order_referrer_fee,
                diamond_hand_probability: a.diamond_hand_probability,
            }
        },
        None => ReferrerFeeUpsert {
            id: event.order_referrer.clone(),
            slug: text("Order Referrer Fees"),
            referrer_id: None,
            total_referrals: 1,
            fee: event.order_referrer_fee,
            diamond_hand_probability: 0,
        },
    }
}

// ---------------------------------------------------------------------------
// Claims, graduation and balance refreshes
// ---------------------------------------------------------------------------

/// Whether a claim adds a holder: only when the lookup said the recipient
/// held nothing before.
pub fn claim_adds_holder(is_new_holder: Option<bool>) -> (r: bool)
    ensures
        r == (is_new_holder == Some(true)),
{
    match is_new_holder {
        Some(b) => b,
        None => false,
    }
}

/// The update a graduated market makes to its token.
pub struct GraduationUpdate {
    pub token_address: String,
    pub pool_address: String,
    pub lp_position_id: i64,
    pub is_graduated: bool,
}

/// The graduation update: the token counts as graduated when the market type is 1.
pub fn graduation_update(
    token_address: &String,
    pool_address: &String,
    lp_position_id: i64,
    market_type: u8,
) -> (r: GraduationUpdate)
    ensures
        r.token_address@ == token_address@,
        r.pool_address@ == pool_address@,
        r.lp_position_id == lp_position_id,
        r.is_graduated == (market_type == 1),
{
    GraduationUpdate {
        token_address: token_address.clone(),
        pool_address: pool_address.clone(),
        lp_position_id,
        is_graduated: market_type == 1,
    }
}

/// Sign of a stored balance.
#[derive(Debug, Clone, Copy, PartialEq, Eq)]
pub enum BalanceSign {
    Negative,
    Zero,
    Positive,
}

/// Whether a balance change can change the holder count: a zero balance
/// becoming positive, or a positive one becoming zero.
pub fn holder_set_changes(old_balance: BalanceSign, new_balance: u128) -> (r: bool)
    ensures
        r == ((old_balance == BalanceSign::Zero && new_balance > 0) || (old_balance
            == BalanceSign::Positive && new_balance == 0)),
{
    match old_balance {
        BalanceSign::Zero => new_balance > 0,
        BalanceSign::Positive => new_balance == 0,
        BalanceSign::Negative => false,
    }
}

} // verus!
