use quote_lib::cache::{cache_key, cache_write, expiry_seconds, QUOTE_TTL_SECONDS, REDIS_POOL_SIZE};
use quote_lib::config::{Config, ConfigError, ConfigValues, ConfigVar};
use quote_lib::decimal::{decimal_string, parse_u16, parse_usize, push_decimal};
use quote_lib::feed::{currencies_from_body, currencies_from_document, CurrencyList, JsonDocument};
use quote_lib::inquiry::{
    quote_date, InquiryOutcome, InquiryPhase, InquiryStep, Lookup, QuoteInquiry, QuoteRequest,
    EST_OFFSET_WEST_SECONDS,
};
use quote_lib::logger::FileNameIdentifiers;

fn full_values() -> ConfigValues {
    ConfigValues {
        server_address: Some("0.0.0.0".to_string()),
        server_port: Some("4000".to_string()),
        kafka_bootstrap_servers: Some("192.168.9.183:19092".to_string()),
        kafka_group_id: Some("quote_group".to_string()),
        kafka_topic: Some("quote_feed".to_string()),
        kafka_channel_size: Some("100".to_string()),
        redis_url: Some("redis://127.0.0.1:6379".to_string()),
    }
}

#[test]
fn config_from_complete_values() {
    let c = Config::from_values(full_values()).unwrap();
    assert_eq!(c.server.address, "0.0.0.0");
    assert_eq!(c.server.port, 4000);
    assert_eq!(c.kafka.bootstrap_servers, "192.168.9.183:19092");
    assert_eq!(c.kafka.group_id, "quote_group");
    assert_eq!(c.kafka.topic, "quote_feed");
    assert_eq!(c.kafka.channel_size, 100);
    assert_eq!(c.redis.redis_url, "redis://127.0.0.1:6379");
}

#[test]
fn config_reports_first_missing_variable() {
    let mut v = full_values();
    v.kafka_group_id = None;
    v.redis_url = None;
    let e = Config::from_values(v).unwrap_err();
    assert_eq!(e, ConfigError::Missing(ConfigVar::KafkaGroupId));
    assert_eq!(e.message(), "KAFKA_GROUP_ID must be set");

    let mut v = full_values();
    v.server_address = None;
    v.server_port = Some("x".to_string());
    assert_eq!(Config::from_values(v).unwrap_err(), ConfigError::Missing(ConfigVar::ServerAddress));

    let mut v = full_values();
    v.redis_url = None;
    let e = Config::from_values(v).unwrap_err();
    assert_eq!(e, ConfigError::Missing(ConfigVar::RedisUrl));
    assert_eq!(e.message(), "REDIS_URL must be set");

    let mut v = full_values();
    v.server_port = None;
    assert_eq!(Config::from_values(v).unwrap_err().message(), "SERVER_PORT must be set");

    let mut v = full_values();
    v.kafka_bootstrap_servers = None;
    assert_eq!(Config::from_values(v).unwrap_err(), ConfigError::Missing(ConfigVar::KafkaBootstrapServers));

    let mut v = full_values();
    v.kafka_topic = None;
    assert_eq!(Config::from_values(v).unwrap_err(), ConfigError::Missing(ConfigVar::KafkaTopic));

    let mut v = full_values();
    v.kafka_channel_size = None;
    assert_eq!(Config::from_values(v).unwrap_err(), ConfigError::Missing(ConfigVar::KafkaChannelSize));
}

#[test]
fn config_rejects_bad_numbers() {
    let mut v = full_values();
    v.server_port = Some("65536".to_string());
    v.kafka_channel_size = Some("abc".to_string());
    let e = Config::from_values(v).unwrap_err();
    assert_eq!(e, ConfigError::NotU16(ConfigVar::ServerPort));
    assert_eq!(e.message(), "SERVER_PORT must be a valid u16");

    let mut v = full_values();
    v.kafka_channel_size = Some("-5".to_string());
    let e = Config::from_values(v).unwrap_err();
    assert_eq!(e, ConfigError::NotUsize(ConfigVar::KafkaChannelSize));
    assert_eq!(e.message(), "KAFKA_CHANNEL_SIZE must be a valid usize");
}

#[test]
fn config_var_names() {
    assert_eq!(ConfigVar::ServerAddress.name(), "SERVER_ADDRESS");
    assert_eq!(ConfigVar::KafkaBootstrapServers.name(), "KAFKA_BOOTSTRAP_SERVERS");
    assert_eq!(ConfigVar::KafkaGroupId.name(), "KAFKA_GROUP_ID");
    assert_eq!(ConfigVar::KafkaTopic.name(), "KAFKA_TOPIC");
}

#[test]
fn parse_u16_agrees_with_std() {
    for s in ["0", "4000", "65535", "65536", "+1", "+", "", "-1", " 1", "1 ", "007", "99999999999999999999", "1a", "++1", "٣"] {
        assert_eq!(parse_u16(s), s.parse::<u16>().ok(), "input {:?}", s);
    }
}

#[test]
fn parse_usize_agrees_with_std() {
    let max = usize::MAX.to_string();
    let over = format!("{}0", max);
    for s in ["0", "100", "+100", "", "+", "-0", "1_000", max.as_str(), over.as_str(), "18446744073709551616"] {
        assert_eq!(parse_usize(s), s.parse::<usize>().ok(), "input {:?}", s);
    }
}

#[test]
fn decimal_string_matches_to_string() {
    for n in [0u32, 7, 10, 99, 100, 1000, 65535, 4294967295] {
        assert_eq!(decimal_string(n), n.to_string());
    }
    let mut s = String::from("x=");
    push_decimal(&mut s, 305);
    assert_eq!(s, "x=305");
}

#[test]
fn printed_numbers_parse_back() {
    for n in [0u32, 1, 65535] {
        assert_eq!(parse_u16(&decimal_string(n)), Some(n as u16));
        assert_eq!(parse_usize(&decimal_string(n)), Some(n as usize));
    }
    assert_eq!(parse_usize(&decimal_string(u32::MAX)), Some(u32::MAX as usize));
}

#[test]
fn log_file_path_layout() {
    let fni = FileNameIdentifiers {
        time_stamp: "2025-02-11_18-56-06".to_string(),
        random_nbr: 728,
        name_suffix: "quote-api-collector-output.log".to_string(),
    };
    assert_eq!(fni.log_file_path(), "logs/2025-02-11_18-56-06@728@quote-api-collector-output.log");
    let fni = FileNameIdentifiers { time_stamp: String::new(), random_nbr: 0, name_suffix: String::new() };
    assert_eq!(fni.log_file_path(), "logs/@0@");
}

#[test]
fn cache_key_layout() {
    assert_eq!(cache_key("2025-02-11", "AFN", "USD"), "2025-02-11_AFN_USD");
    assert_eq!(cache_key("", "", ""), "__");
}

#[test]
fn cache_keys_tell_quotes_apart() {
    let a = cache_key("2025-02-11", "BGN", "USD");
    let b = cache_key("2025-02-11", "BG", "NUSD");
    let c = cache_key("2025-02-1", "1BGN", "USD");
    assert_ne!(a, b);
    assert_ne!(a, c);
    assert_ne!(b, c);
}

#[test]
fn cache_write_of_a_quote() {
    let w = cache_write("2025-02-11", "ADA", "USD", "{}".to_string(), QUOTE_TTL_SECONDS);
    assert_eq!(w.key, "2025-02-11_ADA_USD");
    assert_eq!(w.value, "{}");
    assert_eq!(w.seconds, 604800);
    assert_eq!(REDIS_POOL_SIZE, 16);
}

#[test]
fn expiry_keeps_the_bits() {
    assert_eq!(expiry_seconds(0), 0);
    assert_eq!(expiry_seconds(3600), 3600);
    assert_eq!(expiry_seconds(-1), u64::MAX);
    assert_eq!(expiry_seconds(i64::MIN), 1u64 << 63);
}

#[test]
fn quote_date_is_the_eastern_day() {
    // 2025-02-12T00:04:43Z is still 2025-02-11 five hours west of UTC
    assert_eq!(quote_date(1739318683).as_deref(), Some("2025-02-11"));
    assert_eq!(quote_date(1739336400).as_deref(), Some("2025-02-12"));
    assert_eq!(quote_date(0).as_deref(), Some("1969-12-31"));
    assert_eq!(quote_date(i64::MAX), None);
    assert_eq!(EST_OFFSET_WEST_SECONDS, 18000);
}

fn request() -> QuoteRequest {
    QuoteRequest { quote: "BGN".to_string(), base: "AFN".to_string() }
}

fn expect_fetch<Q>(step: &InquiryStep<Q>, date: &str, base: &str) {
    match step {
        InquiryStep::Fetch { date: d, base: b, quote: q, key } => {
            assert_eq!(d, date);
            assert_eq!(b, base);
            assert_eq!(q, "USD");
            assert_eq!(key, &format!("{}_{}_USD", date, base));
        }
        InquiryStep::Finish(_) => panic!("expected a lookup"),
    }
}

#[test]
fn inquiry_quoted_when_both_found() {
    let (inq, step) = QuoteInquiry::<u32>::start(request(), "2025-02-11".to_string());
    expect_fetch(&step, "2025-02-11", "AFN");
    let (inq, step) = inq.on_lookup(Lookup::Found(1));
    expect_fetch(&step, "2025-02-11", "BGN");
    assert!(matches!(inq.phase, InquiryPhase::AwaitingQuote(Some(1))));
    let (inq, step) = inq.on_lookup(Lookup::Found(2));
    assert!(matches!(inq.phase, InquiryPhase::Finished));
    match step {
        InquiryStep::Finish(InquiryOutcome::Quoted { base, quote, date }) => {
            assert_eq!((base, quote), (1, 2));
            assert_eq!(date, "2025-02-11");
        }
        _ => panic!("expected quotes"),
    }
}

#[test]
fn inquiry_not_found_when_one_missing() {
    let (inq, _) = QuoteInquiry::<u32>::start(request(), "2025-02-11".to_string());
    let (inq, step) = inq.on_lookup(Lookup::Missing);
    expect_fetch(&step, "2025-02-11", "BGN");
    let (_, step) = inq.on_lookup(Lookup::Found(2));
    assert!(matches!(step, InquiryStep::Finish(InquiryOutcome::NotFound)));

    let (inq, _) = QuoteInquiry::<u32>::start(request(), "2025-02-11".to_string());
    let (inq, _) = inq.on_lookup(Lookup::Found(1));
    let (_, step) = inq.on_lookup(Lookup::Missing);
    assert!(matches!(step, InquiryStep::Finish(InquiryOutcome::NotFound)));
}

#[test]
fn inquiry_server_error_when_a_lookup_fails() {
    let (inq, _) = QuoteInquiry::<u32>::start(request(), "2025-02-11".to_string());
    let (inq, step) = inq.on_lookup(Lookup::Failed);
    assert!(matches!(step, InquiryStep::Finish(InquiryOutcome::ServerError)));
    assert!(matches!(inq.phase, InquiryPhase::Finished));

    let (inq, _) = QuoteInquiry::<u32>::start(request(), "2025-02-11".to_string());
    let (inq, _) = inq.on_lookup(Lookup::Missing);
    let (_, step) = inq.on_lookup(Lookup::Failed);
    assert!(matches!(step, InquiryStep::Finish(InquiryOutcome::ServerError)));
}

#[test]
fn currencies_from_a_json_array() {
    match currencies_from_body(br#"["1inch", "aave", 3, null, "ada"]"#) {
        CurrencyList::Listed(v) => assert_eq!(v, vec!["1inch", "aave", "ada"]),
        _ => panic!("expected a list"),
    }
    match currencies_from_body(b"[]") {
        CurrencyList::Listed(v) => assert!(v.is_empty()),
        _ => panic!("expected a list"),
    }
}

#[test]
fn currencies_from_other_documents() {
    assert!(matches!(currencies_from_body(br#"{"usd": 1}"#), CurrencyList::NotAList));
    assert!(matches!(currencies_from_body(b"\"usd\""), CurrencyList::NotAList));
    assert!(matches!(currencies_from_body(b"[1, "), CurrencyList::Unreadable));
    assert!(matches!(currencies_from_body(b""), CurrencyList::Unreadable));
}

#[test]
fn currencies_from_read_documents() {
    let doc = JsonDocument::Array(vec![Some("usd".to_string()), None, Some("eur".to_string())]);
    match currencies_from_document(Some(doc)) {
        CurrencyList::Listed(v) => assert_eq!(v, vec!["usd", "eur"]),
        _ => panic!("expected a list"),
    }
    assert!(matches!(currencies_from_document(Some(JsonDocument::Other)), CurrencyList::NotAList));
    assert!(matches!(currencies_from_document(None), CurrencyList::Unreadable));
}
