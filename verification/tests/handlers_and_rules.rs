use cult_backend::diamond_hands::{select_weighted_sample_by_keys, SAMPLE_SIZE};
use cult_backend::events::{
    buy_trade_record, claim_adds_holder, created_token_row, graduation_update, holder_set_changes,
    ipfs_gateway_url, referrer_fee_upsert, sell_holder_count_adjustment, sell_trade_record,
    transfer_balances, wrap_to_i64, BalanceSign, CreatedTokenError, CultTokenBuyEvent,
    CultTokenCreatedEvent, CultTokenFeesEvent, CultTokenSellEvent, CultTokenTransferEvent, Decimal,
    ReferrerAccount, TradeType,
};
use cult_backend::models::{CultTokensResponse, PaginationParams, TopHolderParams};
use cult_backend::numparse::{fee_collected_amount, u128_from_decimal_text, ParseIntFailure};
use cult_backend::prices::{price_feed_url, price_symbol};
use cult_backend::referral::{generate_referral_code, referral_code_from_indices};
use cult_backend::service::{
    alchemy_api_key, community_airdrops_failure, diamond_hands_failure, is_blank, server_address,
    watchlist_insert_failure, webhook_ack, webhook_config, WebhookEventType,
};
use cult_backend::text::{chars_of, chars_vec_less, contains_text, starts_with, trim_leading};
use cult_backend::websocket::{ws_reply, WsFrame};

fn created_event(block_number: u64, block_timestamp: u64) -> CultTokenCreatedEvent {
    CultTokenCreatedEvent {
        token_address: "0xtoken".into(),
        token_creator: "0xcreator".into(),
        airdrop_contract: "0xairdrop".into(),
        factory_address: "0xfactory".into(),
        protocol_fee_recipient: "0xfee".into(),
        bonding_curve: "0xcurve".into(),
        token_uri: "ipfs://Qm".into(),
        name: "Cult".into(),
        symbol: "CULT".into(),
        pool_address: "0xpool".into(),
        block_number,
        block_timestamp,
        transaction_hash: "0xhash".into(),
        chain_id: "10143".into(),
        merkle_roots: vec![],
        total_amount: 123_456_789_000_000,
        total_airdrop_recipient_count: 42,
    }
}

fn sorted(mut v: Vec<String>) -> Vec<String> {
    v.sort();
    v
}

#[test]
fn sample_keeps_the_smallest_keys() {
    let cands: Vec<(u64, String)> = vec![
        (50, "a".into()),
        (10, "b".into()),
        (40, "c".into()),
        (20, "d".into()),
        (30, "e".into()),
    ];
    assert_eq!(sorted(select_weighted_sample_by_keys(cands.clone(), 2)), vec!["b", "d"]);
    assert_eq!(sorted(select_weighted_sample_by_keys(cands.clone(), 3)), vec!["b", "d", "e"]);
    assert_eq!(select_weighted_sample_by_keys(cands.clone(), 0), Vec::<String>::new());
    assert_eq!(sorted(select_weighted_sample_by_keys(cands.clone(), 9)).len(), 5);
    assert_eq!(select_weighted_sample_by_keys(vec![], SAMPLE_SIZE), Vec::<String>::new());
}

#[test]
fn sample_with_equal_keys_prefers_the_earlier_candidate() {
    let cands: Vec<(u64, String)> = vec![(7, "z".into()), (7, "a".into())];
    assert_eq!(select_weighted_sample_by_keys(cands, 1), vec!["z"]);
}

#[test]
fn sample_replaces_the_greatest_id_among_equal_greatest_keys() {
    let cands: Vec<(u64, String)> = vec![(3, "z".into()), (3, "a".into()), (1, "m".into())];
    assert_eq!(sorted(select_weighted_sample_by_keys(cands, 2)), vec!["a", "m"]);
}

#[test]
fn sample_of_repeated_ids_keeps_each_copy() {
    let cands: Vec<(u64, String)> = vec![(1, "x".into()), (2, "x".into()), (9, "y".into())];
    assert_eq!(select_weighted_sample_by_keys(cands, 2), vec!["x", "x"]);
}

#[test]
fn created_row_converts_numbers() {
    let row = created_token_row(&created_event(17, 1_700_000_000)).unwrap();
    assert_eq!(row.block_number, 17);
    assert_eq!(row.block_timestamp, 1_700_000_000);
    assert_eq!(row.recipient_count, 42);
    assert_eq!(row.total_amount, Decimal { digits: 123_456_789_000_000, scale: 0 });
    assert_eq!(row.top_holders, Decimal { digits: 123_456_789_000_000, scale: 10 });
    assert_eq!(row.chain, "10143");
}

#[test]
fn created_row_refuses_a_block_number_beyond_i64() {
    let e = created_event(u64::MAX, 0);
    assert_eq!(created_token_row(&e).err(), Some(CreatedTokenError::BlockNumberTooLarge(u64::MAX)));
    let e = created_event(i64::MAX as u64, 0);
    assert!(created_token_row(&e).is_ok());
}

#[test]
fn created_row_checks_the_block_time_range() {
    assert!(created_token_row(&created_event(1, 8_210_266_876_799)).is_ok());
    assert_eq!(
        created_token_row(&created_event(1, 8_210_266_876_800)).err(),
        Some(CreatedTokenError::InvalidBlockTimestamp(8_210_266_876_800))
    );
    // u64::MAX reads as -1: one second before the epoch
    let row = created_token_row(&created_event(1, u64::MAX)).unwrap();
    assert_eq!(row.block_timestamp, -1);
    let lowest = (-8_334_601_228_800i64) as u64;
    assert!(created_token_row(&created_event(1, lowest)).is_ok());
    assert!(created_token_row(&created_event(1, lowest - 1)).is_err());
}

#[test]
fn wrapping_to_i64() {
    assert_eq!(wrap_to_i64(5), 5);
    assert_eq!(wrap_to_i64(u64::MAX), -1);
    assert_eq!(wrap_to_i64(1u64 << 63), i64::MIN);
    assert_eq!(wrap_to_i64(i64::MAX as u64), i64::MAX);
}

#[test]
fn ipfs_urls() {
    assert_eq!(ipfs_gateway_url(&"ipfs://QmHash".to_string()), Some("https://ipfs.io/ipfs/QmHash".to_string()));
    assert_eq!(ipfs_gateway_url(&"ipfs://ipfs://Qm".to_string()), Some("https://ipfs.io/ipfs/Qm".to_string()));
    assert_eq!(ipfs_gateway_url(&"https://x/y".to_string()), None);
    assert_eq!(ipfs_gateway_url(&"".to_string()), None);
}

#[test]
fn buy_record_uses_the_trader_as_recipient() {
    let e = CultTokenBuyEvent {
        trader_id: "t".into(),
        recipient_id: "r".into(),
        order_referrer: "o".into(),
        total_eth: 100,
        eth_fee: 1,
        eth_sold: 99,
        tokens_bought: 1000,
        buyer_token_balance: 1500,
        total_supply: 10_000,
        market_type: 1,
        block_timestamp: 1_700_000_000,
        block_number: 5,
        transaction_hash: "h".into(),
        token_id: "tok".into(),
        chain_id: 10143,
    };
    let r = buy_trade_record(&e);
    assert_eq!(r.trade_type, TradeType::Buy);
    assert_eq!(r.trader_id, "t");
    assert_eq!(r.recipient_id, "t");
    assert_eq!(r.order_referrer_id, "o");
    assert_eq!(r.eth_amount, Decimal { digits: 99, scale: 0 });
    assert_eq!(r.token_amount, Decimal { digits: 1000, scale: 0 });
    assert_eq!(r.trader_token_balance, Decimal { digits: 1500, scale: 0 });
    assert_eq!(r.total_supply, Decimal { digits: 10_000, scale: 0 });
    assert_eq!(r.market_type, 1);
    assert_eq!(r.timestamp, 1_700_000_000);
    assert_eq!(r.token_id, "tok");
}

#[test]
fn sell_record_and_holder_adjustment() {
    let e = CultTokenSellEvent {
        seller: "s".into(),
        recipient: "r".into(),
        order_referrer: "o".into(),
        total_eth: 50,
        eth_fee: 2,
        eth_bought: 48,
        tokens_sold: 500,
        seller_token_balance: 0,
        total_supply: 9_500,
        market_type: 0,
        block_timestamp: u64::MAX,
        block_number: 6,
        log_index: 3,
        chain_id: 10143,
        transaction_hash: "h2".into(),
        token_id: "tok".into(),
    };
    let r = sell_trade_record(&e);
    assert_eq!(r.trade_type, TradeType::Sell);
    assert_eq!(r.trader_id, "s");
    assert_eq!(r.recipient_id, "r");
    assert_eq!(r.eth_amount, Decimal { digits: 48, scale: 0 });
    assert_eq!(r.timestamp, -1);
    assert_eq!(sell_holder_count_adjustment(0), -1);
    assert_eq!(sell_holder_count_adjustment(7), 0);
}

#[test]
fn transfers_from_the_zero_address_are_skipped() {
    let mut e = CultTokenTransferEvent {
        from: "0x0000000000000000000000000000000000000000".into(),
        to: "b".into(),
        from_token_balance: 0,
        to_token_balance: 10,
        block_timestamp: 1,
        transaction_hash: "h".into(),
        token_id: "tok".into(),
    };
    assert!(transfer_balances(&e).is_none());
    e.from = "a".into();
    let b = transfer_balances(&e).unwrap();
    assert_eq!(b.from, "a");
    assert_eq!(b.to, "b");
    assert_eq!(b.from_balance, Decimal { digits: 0, scale: 0 });
    assert_eq!(b.to_balance, Decimal { digits: 10, scale: 0 });
}

#[test]
fn referrer_fee_upserts() {
    let e = CultTokenFeesEvent {
        order_referrer: "ref".into(),
        order_referrer_fee: 77,
        block_timestamp: 1,
        transaction_hash: "h".into(),
    };
    let fresh = referrer_fee_upsert(&e, &None);
    assert_eq!(fresh.id, "ref");
    assert_eq!(fresh.slug, "Order Referrer Fees");
    assert_eq!(fresh.referrer_id, None);
    assert_eq!(fresh.total_referrals, 1);
    assert_eq!(fresh.fee, 77);
    assert_eq!(fresh.diamond_hand_probability, 0);

    let known = Some(ReferrerAccount {
        slug: Some("alice".into()),
        referrer_id: Some("bob".into()),
        total_referrals: Some(4),
        diamond_hand_probability: 30,
    });
    let u = referrer_fee_upsert(&e, &known);
    assert_eq!(u.slug, "alice");
    assert_eq!(u.referrer_id, Some("bob".to_string()));
    assert_eq!(u.total_referrals, 5);
    assert_eq!(u.diamond_hand_probability, 30);

    let bare = Some(ReferrerAccount {
        slug: None,
        referrer_id: None,
        total_referrals: None,
        diamond_hand_probability: 3,
    });
    let u = referrer_fee_upsert(&e, &bare);
    assert_eq!(u.slug, "Order Referrer Fees");
    assert_eq!(u.total_referrals, 1);
}

#[test]
fn small_handler_decisions() {
    assert!(claim_adds_holder(Some(true)));
    assert!(!claim_adds_holder(Some(false)));
    assert!(!claim_adds_holder(None));

    let g = graduation_update(&"tok".to_string(), &"pool".to_string(), 9, 1);
    assert!(g.is_graduated);
    assert_eq!(g.lp_position_id, 9);
    assert_eq!(g.token_address, "tok");
    assert_eq!(g.pool_address, "pool");
    assert!(!graduation_update(&"t".to_string(), &"p".to_string(), 9, 2).is_graduated);

    assert!(holder_set_changes(BalanceSign::Zero, 5));
    assert!(!holder_set_changes(BalanceSign::Zero, 0));
    assert!(holder_set_changes(BalanceSign::Positive, 0));
    assert!(!holder_set_changes(BalanceSign::Positive, 3));
    assert!(!holder_set_changes(BalanceSign::Negative, 0));
}

#[test]
fn webhook_acknowledgements() {
    let (code, body) = webhook_ack("ev1".into(), true);
    assert_eq!(code, 202);
    assert_eq!(body.status, "event_queued");
    assert_eq!(body.event_id, "ev1");
    let (code, body) = webhook_ack("ev2".into(), false);
    assert_eq!(code, 503);
    assert_eq!(body.status, "queue_full");
    assert_eq!(body.event_id, "ev2");
    let cfg = webhook_config("s3cret".into());
    assert_eq!(cfg.max_concurrent_jobs, 100);
    assert_eq!(cfg.job_queue_buffer, 10_000);
    assert_eq!(cfg.secret_key, "s3cret");
    assert_eq!(server_address(None), "127.0.0.1:8080");
    assert_eq!(server_address(Some("0.0.0.0:1".into())), "0.0.0.0:1");
    assert_eq!(WebhookEventType::CultTokenBuy, WebhookEventType::CultTokenBuy);
}

#[test]
fn alchemy_key_rules() {
    assert_eq!(
        alchemy_api_key(None),
        Err("Failed to retrieve Alchemy API key from environment".to_string())
    );
    assert_eq!(alchemy_api_key(Some(" \t\n".into())), Err("Alchemy API key is empty".to_string()));
    assert_eq!(alchemy_api_key(Some("".into())), Err("Alchemy API key is empty".to_string()));
    assert_eq!(alchemy_api_key(Some("\u{3000}\u{85}".into())), Err("Alchemy API key is empty".to_string()));
    assert_eq!(alchemy_api_key(Some(" k ".into())), Ok(" k ".to_string()));
    for s in ["", " ", "\u{a0}\u{2028}", "a", " x "] {
        assert_eq!(is_blank(s), s.trim().is_empty(), "{:?}", s);
    }
}

#[test]
fn admin_failure_replies() {
    let r = community_airdrops_failure("Alchemy API key is empty");
    assert_eq!((r.status, r.body.as_str()), (401, "Authentication failed: Invalid API key"));
    let r = community_airdrops_failure("network down");
    assert_eq!((r.status, r.body.as_str()), (503, "Network connectivity issue"));
    let r = community_airdrops_failure("database gone");
    assert_eq!((r.status, r.body.as_str()), (500, "Database operation failed"));
    let r = community_airdrops_failure("boom");
    assert_eq!((r.status, r.body.as_str()), (500, "Execution failed: boom"));

    let r = diamond_hands_failure("lost database connection");
    assert_eq!((r.status, r.body.as_str()), (503, "Database connection error"));
    let r = diamond_hands_failure("No eligible accounts today");
    assert_eq!((r.status, r.body.as_str()), (400, "No eligible accounts found"));
    let r = diamond_hands_failure("Address 0x1 is not 20 bytes");
    assert_eq!((r.status, r.body.as_str()), (500, "Execution failed: Address 0x1 is not 20 bytes"));
}

#[test]
fn referral_codes() {
    let code = generate_referral_code();
    assert_eq!(code.chars().count(), 8);
    let charset = "ABCDEFGHJKLMNPQRSTUVWXYZ23456789";
    assert!(code.chars().all(|c| charset.contains(c)));
    assert_eq!(referral_code_from_indices(&vec![0, 31, 8, 24]), "A9J2");
    assert_eq!(referral_code_from_indices(&vec![]), "");
}

#[test]
fn decimal_text_parsing() {
    assert_eq!(u128_from_decimal_text("123"), Ok(123));
    assert_eq!(u128_from_decimal_text("+7"), Ok(7));
    assert_eq!(
        u128_from_decimal_text("340282366920938463463374607431768211455"),
        Ok(u128::MAX)
    );
    assert_eq!(
        u128_from_decimal_text("340282366920938463463374607431768211456"),
        Err(ParseIntFailure::PosOverflow)
    );
    assert_eq!(u128_from_decimal_text(""), Err(ParseIntFailure::Empty));
    assert_eq!(u128_from_decimal_text("12a"), Err(ParseIntFailure::InvalidDigit));
    assert_eq!(u128_from_decimal_text("-1"), Err(ParseIntFailure::InvalidDigit));
    assert_eq!(fee_collected_amount(&None), 0);
    assert_eq!(fee_collected_amount(&Some("12.5".into())), 0);
    assert_eq!(fee_collected_amount(&Some("1200".into())), 1200);
}

#[test]
fn price_symbols() {
    assert_eq!(price_symbol(&"bitcoin".to_string()), "BTC");
    assert_eq!(price_symbol(&"ethereum".to_string()), "ETH");
    assert_eq!(price_symbol(&"solana".to_string()), "SOLANA");
    assert_eq!(price_symbol(&"straße".to_string()), "STRASSE");
    assert!(price_feed_url().starts_with("https://api.coingecko.com/api/v3/simple/price?ids=bitcoin,ethereum"));
}

#[test]
fn websocket_replies() {
    assert_eq!(ws_reply(WsFrame::Ping(vec![1, 2])), Some(WsFrame::Pong(vec![1, 2])));
    assert_eq!(ws_reply(WsFrame::Text("hi".into())), Some(WsFrame::Text("hi".into())));
    assert_eq!(ws_reply(WsFrame::Binary(vec![9])), Some(WsFrame::Binary(vec![9])));
    assert_eq!(ws_reply(WsFrame::Pong(vec![1])), None);
    assert_eq!(ws_reply(WsFrame::Close), None);
}

#[test]
fn text_helpers() {
    assert_eq!(trim_leading("0x0x1f", "0x"), "1f");
    assert_eq!(trim_leading("x0x1", "0x"), "x0x1");
    assert_eq!(trim_leading("abc", ""), "abc");
    assert!(starts_with("ipfs://a", "ipfs://"));
    assert!(!starts_with("ipfs:/", "ipfs://"));
    assert!(contains_text("the API key failed", "API key"));
    assert!(!contains_text("api key", "API key"));
    assert!(contains_text("abc", ""));
    assert!(chars_vec_less(&chars_of("ab"), &chars_of("b")));
    assert!(chars_vec_less(&chars_of("a"), &chars_of("ab")));
    assert!(!chars_vec_less(&chars_of("b"), &chars_of("ab")));
    assert!(!chars_vec_less(&chars_of("x"), &chars_of("x")));
}

#[test]
fn page_parameters() {
    let p = PaginationParams { offset: 0, limit: 20 };
    assert_eq!(p.offset + p.limit, 20);
    let t = TopHolderParams { token_address: "tok".into(), offset: 5, limit: 10 };
    assert_eq!(t.token_address, "tok");
    let c = CultTokensResponse {
        token_address: "a".into(),
        token_creator: "b".into(),
        name: "n".into(),
        symbol: "s".into(),
        ipfsData: "d".into(),
    };
    assert_eq!(c.ipfsData, "d");
}

#[test]
fn watchlist_duplicates_are_conflicts() {
    let r = watchlist_insert_failure(
        Some("duplicate key value violates unique constraint \"account_watchlist_pkey\""),
        "error returned from database: duplicate key value",
    );
    assert_eq!(r.status, 409);
    assert_eq!(r.body, "Token already in watchlist");
    let r = watchlist_insert_failure(Some("insert or update violates foreign key constraint"), "fk");
    assert_eq!(r.status, 500);
    assert_eq!(r.body, "Database error: fk");
    let r = watchlist_insert_failure(None, "pool timed out while waiting for an open connection");
    assert_eq!(r.status, 500);
    assert_eq!(r.body, "Database error: pool timed out while waiting for an open connection");
}
