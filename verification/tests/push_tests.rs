use tigeropen::config::client_config::ClientConfig;
use tigeropen::duration::Duration;
use tigeropen::model::enums::Language;
use tigeropen::push::proto_message::{
    build_connect_message, build_disconnect_message, build_heartbeat_message,
    build_subscribe_message, build_unsubscribe_message, next_request_id, subject_to_data_type,
    Command, DataType, RequestIds,
};
use tigeropen::push::push_client::{
    next_reconnect_interval, ConnectionState, PushClient, PushClientOptions,
};
use tigeropen::push::push_message::SubjectType;
use tigeropen::push::routing::{
    dispatch_push_data, dispatch_response, PushBody, PushData, PushRoute, Response, ResponseAction,
};
use tigeropen::push::tick_util::{
    convert_trade_tick, get_part_name_by_code, get_part_short_name_by_code,
    get_trade_cond_by_code, is_us_stock_symbol, TradeTickData,
};
use tigeropen::push::varint::{decode_varint32, drain_frames, encode_varint32};

fn test_config() -> ClientConfig {
    ClientConfig {
        tiger_id: "test_tiger_id".into(),
        private_key: "test_key".into(),
        account: "test_account".into(),
        license: None,
        language: Language::ZhCn,
        timezone: None,
        timeout: Duration::from_secs(15),
        token: None,
        token_refresh_duration: None,
        token_check_interval: None,
        server_url: "https://openapi.tigerfintech.com/gateway".into(),
        quote_server_url: "https://openapi.tigerfintech.com/gateway".into(),
        tiger_public_key: "".into(),
        device_id: "".into(),
    }
}

// ---------- varint framing ----------

#[test]
fn test_encode_decode_empty() {
    let data = b"";
    let encoded = encode_varint32(data);
    assert_eq!(encoded, vec![0]);
    let (msg, remaining) = decode_varint32(&encoded).unwrap();
    assert_eq!(msg, data);
    assert!(remaining.is_empty());
}

#[test]
fn test_encode_decode_small() {
    let data = b"hello";
    let encoded = encode_varint32(data);
    assert_eq!(encoded[0], 5);
    assert_eq!(&encoded[1..], b"hello");
    let (msg, remaining) = decode_varint32(&encoded).unwrap();
    assert_eq!(msg, b"hello");
    assert!(remaining.is_empty());
}

#[test]
fn test_encode_decode_128_bytes() {
    let data = vec![0xAB; 128];
    let encoded = encode_varint32(&data);
    assert_eq!(encoded[0], 0x80);
    assert_eq!(encoded[1], 0x01);
    assert_eq!(&encoded[2..], data.as_slice());
    let (msg, remaining) = decode_varint32(&encoded).unwrap();
    assert_eq!(msg, data.as_slice());
    assert!(remaining.is_empty());
}

#[test]
fn test_decode_insufficient_header() {
    let buffer = vec![0x80];
    assert!(decode_varint32(&buffer).is_none());
}

#[test]
fn test_decode_insufficient_body() {
    let mut buffer = vec![10];
    buffer.extend_from_slice(&[1, 2, 3]);
    assert!(decode_varint32(&buffer).is_none());
}

#[test]
fn test_decode_with_remaining() {
    let data1 = b"abc";
    let data2 = b"xyz";
    let mut buffer = encode_varint32(data1);
    buffer.extend_from_slice(&encode_varint32(data2));
    let (msg1, remaining) = decode_varint32(&buffer).unwrap();
    assert_eq!(msg1, b"abc");
    let (msg2, remaining) = decode_varint32(remaining).unwrap();
    assert_eq!(msg2, b"xyz");
    assert!(remaining.is_empty());
}

#[test]
fn test_decode_empty_buffer() {
    assert!(decode_varint32(&[]).is_none());
}

#[test]
fn varint_round_trip_various_sizes() {
    for n in [0usize, 1, 127, 128, 300, 16383, 16384, 70000] {
        let data: Vec<u8> = (0..n).map(|i| (i % 251) as u8).collect();
        let encoded = encode_varint32(&data);
        let (decoded, rest) = decode_varint32(&encoded).unwrap();
        assert_eq!(decoded, data.as_slice());
        assert!(rest.is_empty());
    }
    assert_eq!(encode_varint32(&vec![0u8; 16384])[..3], [0x80, 0x80, 0x01]);
}

#[test]
fn drain_frames_keeps_incomplete_tail() {
    let mut buffer = encode_varint32(b"one");
    buffer.extend_from_slice(&encode_varint32(b"two"));
    let third = encode_varint32(b"three");
    buffer.extend_from_slice(&third[..3]);
    let frames = drain_frames(&mut buffer);
    assert_eq!(frames, vec![b"one".to_vec(), b"two".to_vec()]);
    assert_eq!(buffer, third[..3].to_vec());
    buffer.extend_from_slice(&third[3..]);
    let frames = drain_frames(&mut buffer);
    assert_eq!(frames, vec![b"three".to_vec()]);
    assert!(buffer.is_empty());
}

// ---------- requests ----------

#[test]
fn test_build_connect_message() {
    let mut ids = RequestIds::new();
    let msg = build_connect_message(
        &mut ids,
        "test_tiger_id",
        "test_sign",
        "rust-sdk-1.0",
        "1.0",
        10000,
        30000,
        false,
    );
    assert_eq!(msg.command, Command::Connect.code());
    assert!(msg.id > 0);
    let connect = msg.connect.unwrap();
    assert_eq!(connect.tiger_id, "test_tiger_id");
    assert_eq!(connect.sign, "test_sign");
    assert_eq!(connect.sdk_version, "rust-sdk-1.0");
    assert_eq!(connect.accept_version, Some("1.0".to_string()));
    assert_eq!(connect.send_interval, Some(10000));
    assert_eq!(connect.receive_interval, Some(30000));
    assert_eq!(connect.use_full_tick, Some(false));
    assert!(msg.subscribe.is_none());
}

#[test]
fn test_build_heartbeat_message() {
    let mut ids = RequestIds::new();
    let msg = build_heartbeat_message(&mut ids);
    assert_eq!(msg.command, Command::Heartbeat.code());
    assert!(msg.id > 0);
    assert!(msg.connect.is_none());
    assert!(msg.subscribe.is_none());
}

#[test]
fn test_build_subscribe_message() {
    let mut ids = RequestIds::new();
    let msg = build_subscribe_message(&mut ids, DataType::Quote.code(), Some("AAPL,GOOG"), None, None);
    assert_eq!(msg.command, Command::Subscribe.code());
    assert!(msg.id > 0);
    assert!(msg.connect.is_none());
    let sub = msg.subscribe.unwrap();
    assert_eq!(sub.data_type, DataType::Quote.code());
    assert_eq!(sub.symbols, Some("AAPL,GOOG".to_string()));
    assert!(sub.account.is_none());
    assert!(sub.market.is_none());
}

#[test]
fn test_build_unsubscribe_message() {
    let mut ids = RequestIds::new();
    let msg = build_unsubscribe_message(&mut ids, DataType::Asset.code(), None, Some("test_account"), None);
    assert_eq!(msg.command, Command::Unsubscribe.code());
    assert!(msg.id > 0);
    let sub = msg.subscribe.unwrap();
    assert_eq!(sub.data_type, DataType::Asset.code());
    assert!(sub.symbols.is_none());
    assert_eq!(sub.account, Some("test_account".to_string()));
}

#[test]
fn test_build_disconnect_message() {
    let mut ids = RequestIds::new();
    let msg = build_disconnect_message(&mut ids);
    assert_eq!(msg.command, Command::Disconnect.code());
    assert!(msg.id > 0);
    assert!(msg.connect.is_none());
    assert!(msg.subscribe.is_none());
}

#[test]
fn test_request_id_increments() {
    let mut ids = RequestIds::new();
    let msg1 = build_heartbeat_message(&mut ids);
    let msg2 = build_heartbeat_message(&mut ids);
    let msg3 = build_heartbeat_message(&mut ids);
    assert!(msg2.id > msg1.id);
    assert!(msg3.id > msg2.id);
    assert_eq!(msg1.id, 1);
    assert_eq!(next_request_id(&mut ids), 4);
}

#[test]
fn test_subject_to_data_type_mapping() {
    assert_eq!(subject_to_data_type(&SubjectType::Quote), DataType::Quote.code());
    assert_eq!(subject_to_data_type(&SubjectType::Option), DataType::Option.code());
    assert_eq!(subject_to_data_type(&SubjectType::Future), DataType::Future.code());
    assert_eq!(subject_to_data_type(&SubjectType::Depth), DataType::QuoteDepth.code());
    assert_eq!(subject_to_data_type(&SubjectType::Tick), DataType::TradeTick.code());
    assert_eq!(subject_to_data_type(&SubjectType::FullTick), DataType::TradeTick.code());
    assert_eq!(subject_to_data_type(&SubjectType::Asset), DataType::Asset.code());
    assert_eq!(subject_to_data_type(&SubjectType::Position), DataType::Position.code());
    assert_eq!(subject_to_data_type(&SubjectType::Order), DataType::OrderStatus.code());
    assert_eq!(subject_to_data_type(&SubjectType::Transaction), DataType::OrderTransaction.code());
    assert_eq!(subject_to_data_type(&SubjectType::StockTop), DataType::StockTop.code());
    assert_eq!(subject_to_data_type(&SubjectType::OptionTop), DataType::OptionTop.code());
    assert_eq!(subject_to_data_type(&SubjectType::Kline), DataType::Kline.code());
    assert_eq!(subject_to_data_type(&SubjectType::QuoteBbo), DataType::Quote.code());
}

#[test]
fn wire_numbers() {
    assert_eq!(Command::Connect.code(), 1);
    assert_eq!(Command::Connected.code(), 2);
    assert_eq!(Command::Error.code(), 9);
    assert_eq!(DataType::Quote.code(), 1);
    assert_eq!(DataType::Kline.code(), 12);
}

// ---------- client state and subscriptions ----------

fn client() -> PushClient {
    PushClient::new(
        test_config(),
        Some(PushClientOptions { auto_reconnect: Some(false), ..Default::default() }),
    )
}

fn symbols_of(c: &PushClient, s: SubjectType) -> Option<Vec<String>> {
    c.get_subscriptions().into_iter().find(|(k, _)| *k == s).map(|(_, v)| v)
}

#[test]
fn test_subscription_state_management() {
    let mut client = client();
    assert_eq!(client.state(), ConnectionState::Disconnected);
    client.add_subscription(SubjectType::Quote, &["AAPL".into(), "TSLA".into()]);
    client.add_subscription(SubjectType::Tick, &["GOOG".into()]);
    let subs = client.get_subscriptions();
    assert_eq!(subs.len(), 2);
    assert_eq!(symbols_of(&client, SubjectType::Quote).unwrap().len(), 2);

    client.add_subscription(SubjectType::Quote, &["GOOG".into()]);
    assert_eq!(symbols_of(&client, SubjectType::Quote).unwrap().len(), 3);

    client.remove_subscription(SubjectType::Quote, Some(&["TSLA".into()]));
    assert_eq!(symbols_of(&client, SubjectType::Quote).unwrap().len(), 2);

    client.remove_subscription(SubjectType::Quote, None);
    assert!(symbols_of(&client, SubjectType::Quote).is_none());
}

#[test]
fn test_account_subscription_management() {
    let mut client = PushClient::new(test_config(), None);
    client.add_account_sub(SubjectType::Asset);
    client.add_account_sub(SubjectType::Position);
    client.add_account_sub(SubjectType::Order);
    client.add_account_sub(SubjectType::Transaction);
    assert_eq!(client.get_account_subscriptions().len(), 4);
    client.remove_account_sub(&SubjectType::Asset);
    client.remove_account_sub(&SubjectType::Position);
    assert_eq!(client.get_account_subscriptions().len(), 2);
}

#[test]
fn repeated_symbols_and_emptied_subjects() {
    let mut c = client();
    c.add_subscription(SubjectType::Depth, &["A".into(), "A".into(), "B".into()]);
    assert_eq!(symbols_of(&c, SubjectType::Depth).unwrap(), vec!["A".to_string(), "B".to_string()]);
    c.remove_subscription(SubjectType::Depth, Some(&["A".into(), "B".into()]));
    assert!(symbols_of(&c, SubjectType::Depth).is_none());
    c.add_subscription(SubjectType::Kline, &[]);
    assert_eq!(symbols_of(&c, SubjectType::Kline).unwrap().len(), 0);
    c.remove_subscription(SubjectType::Future, Some(&["X".into()]));
    assert!(symbols_of(&c, SubjectType::Future).is_none());
}

#[test]
fn resubscribe_replays_everything() {
    let mut c = client();
    c.add_subscription(SubjectType::Tick, &["GOOG".into()]);
    c.add_subscription(SubjectType::Quote, &["AAPL".into(), "TSLA".into()]);
    c.add_account_sub(SubjectType::Order);
    c.open_link();
    let reqs = c.resubscribe().unwrap();
    assert_eq!(reqs.len(), 3);
    let s0 = reqs[0].subscribe.as_ref().unwrap();
    assert_eq!(s0.data_type, DataType::Quote.code());
    assert_eq!(s0.symbols, Some("AAPL,TSLA".to_string()));
    let s1 = reqs[1].subscribe.as_ref().unwrap();
    assert_eq!(s1.data_type, DataType::TradeTick.code());
    assert_eq!(s1.symbols, Some("GOOG".to_string()));
    let s2 = reqs[2].subscribe.as_ref().unwrap();
    assert_eq!(s2.data_type, DataType::OrderStatus.code());
    assert_eq!(s2.account, Some("test_account".to_string()));
    assert!(s2.symbols.is_none());
    assert_eq!((reqs[0].id, reqs[1].id, reqs[2].id), (1, 2, 3));
}

#[test]
fn client_options_and_host() {
    let c = PushClient::new(test_config(), None);
    assert_eq!(c.push_url(), "openapi.tigerfintech.com:9883");
    assert_eq!(c.push_host(), "openapi.tigerfintech.com");
    assert_eq!(c.heartbeat_interval(), Duration::from_secs(10));
    assert_eq!(c.reconnect_interval(), Duration::from_secs(5));
    assert_eq!(c.connect_timeout(), Duration::from_secs(30));
    assert!(c.auto_reconnect());
    let c2 = PushClient::new(
        test_config(),
        Some(PushClientOptions {
            push_url: Some("push.example.com".to_string()),
            heartbeat_interval_secs: Some(3),
            ..Default::default()
        }),
    );
    assert_eq!(c2.push_host(), "push.example.com");
    assert_eq!(c2.heartbeat_interval(), Duration::from_secs(3));
}

#[test]
fn connect_request_and_state() {
    let mut c = client();
    assert!(c.begin_connect().is_ok());
    assert_eq!(c.state(), ConnectionState::Connecting);
    assert_eq!(c.begin_connect().unwrap_err(), "client is already connected or connecting");
    c.open_link();
    let req = c.connect_request("sig").unwrap();
    let conn = req.connect.unwrap();
    assert_eq!(conn.tiger_id, "test_tiger_id");
    assert_eq!(conn.sdk_version, "rust-sdk/1.0.0");
    assert_eq!(conn.accept_version, Some("2".to_string()));
    assert_eq!(conn.send_interval, Some(10000));
    c.mark_disconnected();
    assert_eq!(c.state(), ConnectionState::Disconnected);
}

#[test]
fn reconnect_backoff_doubles_up_to_a_minute() {
    let mut d = Duration::from_secs(5);
    let mut seen = Vec::new();
    for _ in 0..6 {
        d = next_reconnect_interval(d);
        seen.push(d.as_secs());
    }
    assert_eq!(seen, vec![10, 20, 40, 60, 60, 60]);
}

// ---------- routing ----------

fn message(data_type: i32, body: PushBody) -> Response {
    Response {
        command: Command::Message.code(),
        msg: None,
        body: Some(PushData { data_type, body: Some(body) }),
    }
}

fn simple(command: Command, msg: Option<&str>) -> Response {
    Response { command: command.code(), msg: msg.map(|s| s.to_string()), body: None }
}

#[test]
fn test_connected_response() {
    let mut c = PushClient::new(test_config(), None);
    let a = c.handle_response(&simple(Command::Connected, None));
    assert_eq!(a, ResponseAction::Connected);
    assert_eq!(c.state(), ConnectionState::Connected);
}

#[test]
fn test_quote_callback() {
    assert_eq!(
        dispatch_response(&message(DataType::Quote.code(), PushBody::QuoteData)),
        ResponseAction::Push(PushRoute::Quote)
    );
}

#[test]
fn test_depth_callback() {
    assert_eq!(
        dispatch_response(&message(DataType::QuoteDepth.code(), PushBody::QuoteDepthData)),
        ResponseAction::Push(PushRoute::Depth)
    );
}

#[test]
fn test_order_callback() {
    assert_eq!(
        dispatch_response(&message(DataType::OrderStatus.code(), PushBody::OrderStatusData)),
        ResponseAction::Push(PushRoute::Order)
    );
}

#[test]
fn test_asset_callback() {
    assert_eq!(
        dispatch_response(&message(DataType::Asset.code(), PushBody::AssetData)),
        ResponseAction::Push(PushRoute::Asset)
    );
}

#[test]
fn test_error_callback() {
    match dispatch_response(&simple(Command::Error, Some("internal error"))) {
        ResponseAction::Error(m) => {
            assert!(m.contains("服务端错误"));
            assert_eq!(m, "服务端错误: internal error");
        }
        other => panic!("unexpected {:?}", other),
    }
}

#[test]
fn test_kickout_callback() {
    match dispatch_response(&simple(Command::Error, Some("kickout: 另一设备登录"))) {
        ResponseAction::Kickout(m) => assert!(m.contains("kickout")),
        other => panic!("unexpected {:?}", other),
    }
}

#[test]
fn test_disconnect_callback() {
    let mut c = PushClient::new(test_config(), None);
    assert!(c.begin_connect().is_ok());
    c.open_link();
    let (req, action) = c.disconnect();
    assert_eq!(req.unwrap().command, Command::Disconnect.code());
    assert_eq!(action, ResponseAction::Disconnected);
    assert_eq!(c.state(), ConnectionState::Disconnected);
    // the writer is gone: nothing is sent until the client connects again
    assert!(c.send_heartbeat().is_none());
    let (again, action) = c.disconnect();
    assert!(again.is_none());
    assert_eq!(action, ResponseAction::Disconnected);
}

#[test]
fn requests_go_out_only_over_an_open_link() {
    let mut c = client();
    assert!(c.send_heartbeat().is_none());
    assert!(c.subscribe(&SubjectType::Quote, Some("AAPL"), None, None).is_none());
    assert!(c.resubscribe().is_none());
    assert_eq!(c.connect_request("sig").unwrap_err(), "failed to send CONNECT message");
    assert_eq!(c.state(), ConnectionState::Disconnected);
    assert!(c.begin_connect().is_ok());
    c.open_link();
    let hb = c.send_heartbeat().unwrap();
    assert_eq!(hb.command, Command::Heartbeat.code());
    assert_eq!(hb.id, 4);
    let sub = c.subscribe(&SubjectType::Quote, Some("AAPL"), None, None).unwrap();
    assert_eq!(sub.id, 5);
    assert_eq!(sub.subscribe.unwrap().symbols, Some("AAPL".to_string()));
    let unsub = c.unsubscribe(&SubjectType::Quote, Some("AAPL"), None, None).unwrap();
    assert_eq!(unsub.command, Command::Unsubscribe.code());
    c.mark_disconnected();
    assert!(c.send_heartbeat().is_none());
}

#[test]
fn later_ids_exceed_earlier_ones_with_other_builds_between() {
    let mut ids = RequestIds::new();
    let m1 = build_heartbeat_message(&mut ids);
    let s = build_subscribe_message(&mut ids, DataType::Quote.code(), Some("AAPL"), None, None);
    let u = build_unsubscribe_message(&mut ids, DataType::Quote.code(), Some("AAPL"), None, None);
    let d = build_disconnect_message(&mut ids);
    let m2 = build_heartbeat_message(&mut ids);
    assert!(0 < m1.id && m1.id < s.id && s.id < u.id && u.id < d.id && d.id < m2.id);
    assert_eq!(m2.command, Command::Heartbeat.code());
    assert!(m2.connect.is_none() && m2.subscribe.is_none());
}

#[test]
fn test_disconnect_response_callback() {
    assert_eq!(dispatch_response(&simple(Command::Disconnect, None)), ResponseAction::Disconnected);
}

#[test]
fn test_heartbeat_response_ignored() {
    let mut c = PushClient::new(test_config(), None);
    assert_eq!(c.handle_response(&simple(Command::Heartbeat, None)), ResponseAction::Ignore);
    assert_eq!(c.state(), ConnectionState::Disconnected);
}

#[test]
fn test_invalid_protobuf_triggers_error() {
    let invalid_data = encode_varint32(&[0xFF, 0xFF, 0xFF]);
    let (payload, rest) = decode_varint32(&invalid_data).unwrap();
    assert_eq!(payload, &[0xFF, 0xFF, 0xFF]);
    assert!(rest.is_empty());
}

#[test]
fn test_option_callback() {
    assert_eq!(
        dispatch_response(&message(DataType::Option.code(), PushBody::QuoteData)),
        ResponseAction::Push(PushRoute::Option)
    );
}

#[test]
fn test_kline_callback() {
    assert_eq!(
        dispatch_response(&message(DataType::Kline.code(), PushBody::KlineData)),
        ResponseAction::Push(PushRoute::Kline)
    );
}

#[test]
fn test_stock_top_callback() {
    assert_eq!(
        dispatch_response(&message(DataType::StockTop.code(), PushBody::StockTopData)),
        ResponseAction::Push(PushRoute::StockTop)
    );
}

#[test]
fn test_position_callback() {
    assert_eq!(
        dispatch_response(&message(DataType::Position.code(), PushBody::PositionData)),
        ResponseAction::Push(PushRoute::Position)
    );
}

#[test]
fn test_transaction_callback() {
    assert_eq!(
        dispatch_response(&message(DataType::OrderTransaction.code(), PushBody::OrderTransactionData)),
        ResponseAction::Push(PushRoute::Transaction)
    );
}

#[test]
fn routing_of_other_bodies() {
    assert_eq!(dispatch_push_data(DataType::Future.code(), Some(PushBody::QuoteData)), PushRoute::Future);
    assert_eq!(dispatch_push_data(99, Some(PushBody::QuoteData)), PushRoute::QuoteBbo);
    assert_eq!(dispatch_push_data(0, Some(PushBody::TickData)), PushRoute::FullTick);
    assert_eq!(dispatch_push_data(5, Some(PushBody::TradeTickData)), PushRoute::Tick);
    assert_eq!(dispatch_push_data(11, Some(PushBody::OptionTopData)), PushRoute::OptionTop);
    assert_eq!(dispatch_push_data(1, None), PushRoute::MissingBody);
    let no_record = Response { command: Command::Message.code(), msg: None, body: None };
    assert_eq!(dispatch_response(&no_record), ResponseAction::Ignore);
    assert_eq!(dispatch_response(&simple(Command::Send, None)), ResponseAction::Ignore);
    match dispatch_response(&simple(Command::Error, None)) {
        ResponseAction::Error(m) => assert_eq!(m, "服务端错误: "),
        other => panic!("unexpected {:?}", other),
    }
    match dispatch_response(&simple(Command::Error, Some("you were kicked"))) {
        ResponseAction::Kickout(m) => assert_eq!(m, "you were kicked"),
        other => panic!("unexpected {:?}", other),
    }
}

// ---------- trade ticks ----------

#[test]
fn part_codes_and_conditions() {
    assert_eq!(get_part_name_by_code("n"), "New York Stock Exchange, LLC (NYSE)");
    assert_eq!(get_part_short_name_by_code("t"), "NSDQ");
    assert_eq!(get_part_name_by_code("q"), "q");
    assert_eq!(get_part_short_name_by_code("nn"), "nn");
    assert_eq!(get_trade_cond_by_code(true, ' '), "US_REGULAR_SALE");
    assert_eq!(get_trade_cond_by_code(false, 'D'), "HK_ODD_LOT_TRADE");
    assert_eq!(get_trade_cond_by_code(true, '#'), "#");
    assert!(is_us_stock_symbol("AAPL"));
    assert!(!is_us_stock_symbol("BRK.B"));
    assert!(!is_us_stock_symbol("00700"));
    assert!(!is_us_stock_symbol("Aapl"));
    assert!(!is_us_stock_symbol(""));
}

fn record(sec_type: &str) -> TradeTickData {
    TradeTickData {
        symbol: "AAPL".to_string(),
        sec_type: sec_type.to_string(),
        quote_level: "usQuoteBasic".to_string(),
        timestamp: 1_700_000_000_000,
        sn: 100,
        price_base: 15000,
        price_offset: 2,
        time: vec![1_700_000_000_000, 5, 10],
        price: vec![0, 3, -2],
        volume: vec![10, 20, 30],
        cond: " I".to_string(),
        kind: "+-".to_string(),
        part_code: vec!["n".to_string(), "t".to_string(), "zz".to_string()],
        merged_vols: vec![vec![1, 2], vec![], vec![7]],
    }
}

#[test]
fn stock_ticks_decode() {
    let t = convert_trade_tick(&record("STK"));
    assert_eq!(t.symbol, "AAPL");
    assert_eq!(t.quote_level, "usQuoteBasic");
    assert_eq!(t.ticks.len(), 3);
    assert_eq!(t.ticks[0].sn, 100);
    assert_eq!(t.ticks[2].sn, 102);
    assert_eq!(t.ticks[1].time, 1_700_000_000_005);
    assert_eq!(t.ticks[2].time, 1_700_000_000_015);
    assert_eq!(t.ticks[1].price_units, 15003);
    assert_eq!(t.ticks[2].price_units, 14998);
    assert_eq!(t.ticks[0].price_offset, 2);
    assert_eq!(t.ticks[2].volume, 30);
    assert_eq!(t.ticks[0].tick_type, "+");
    assert_eq!(t.ticks[2].tick_type, "");
    assert_eq!(t.ticks[0].cond, "US_REGULAR_SALE");
    assert_eq!(t.ticks[1].cond, "US_ODD_LOT_TRADE");
    assert_eq!(t.ticks[2].cond, "US_REGULAR_SALE");
    assert_eq!(t.ticks[0].part_code, "NYSE");
    assert_eq!(t.ticks[1].part_name, "NASDAQ Stock Market, LLC (NASDAQ)");
    assert_eq!(t.ticks[2].part_code, "zz");
}

#[test]
fn future_ticks_decode() {
    let t = convert_trade_tick(&record("FUT"));
    assert_eq!(t.quote_level, "");
    assert_eq!(t.ticks.len(), 3);
    assert_eq!((t.ticks[0].sn, t.ticks[1].sn, t.ticks[2].sn), (1000, 1001, 1020));
    assert_eq!(t.ticks[1].volume, 2);
    assert_eq!(t.ticks[2].time, 1_700_000_000_015);
    assert_eq!(t.ticks[2].price_units, 14998);
    assert_eq!(t.ticks[0].cond, "");
}

#[test]
fn record_without_body_goes_to_the_error_handler() {
    let r = Response {
        command: Command::Message.code(),
        msg: None,
        body: Some(PushData { data_type: DataType::Quote.code(), body: None }),
    };
    assert_eq!(
        dispatch_response(&r),
        ResponseAction::Error("PushData body is empty".to_string())
    );
}
