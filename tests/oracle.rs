use offchain_worker::{
    keeps_submitting, fetch_price, payload_encoding, verify_payload, parse_price, price_from_members, Action, Call, DispatchError, Event, FetchError,
    HttpResponse, InvalidTransaction, Module, Origin, Params, PricePayload, SendError, Stage,
    Submission, TransactionType, LONGEVITY, MAX_LEN, UNSIGNED_SUBMITTER,
};

fn params() -> Params {
    Params { grace_period: 5, unsigned_interval: 128, unsigned_priority: 1 << 20 }
}

fn module_at(block_number: u64) -> Module {
    Module::new(params(), block_number)
}

fn signed_payload(seed: u8, block_number: u64, price: u32) -> (PricePayload, Vec<u8>) {
    let pair = <sp_core::sr25519::Pair as sp_core::Pair>::from_seed(&[seed; 32]);
    let public = <sp_core::sr25519::Pair as sp_core::Pair>::public(&pair);
    let payload = PricePayload { block_number, price, public: public.0.to_vec() };
    let message = payload_encoding(&payload);
    let signature = <sp_core::sr25519::Pair as sp_core::Pair>::sign(&pair, &message);
    (payload, signature.0.to_vec())
}

fn chars(s: &str) -> Vec<char> {
    s.chars().collect()
}

#[test]
fn average_of_empty_buffer_is_absent() {
    assert_eq!(module_at(1).average_price(), None);
}

#[test]
fn single_price_is_the_average() {
    for p in [0u32, 1, 500, 77_777, u32::MAX] {
        let mut m = module_at(1);
        m.add_price(9, p);
        assert_eq!(m.average_price(), Some(p));
    }
}

#[test]
fn first_price_emits_event_and_sets_average() {
    let mut m = module_at(1);
    m.add_price(42, 500);
    assert_eq!(m.average_price(), Some(500));
    assert_eq!(m.events, vec![Event::NewPrice(500, 42)]);
    assert_eq!(m.prices, vec![500]);
}

#[test]
fn full_buffer_overwrites_slot_price_mod_capacity() {
    let mut m = module_at(1);
    for i in 0..64u32 {
        m.add_price(1, 1000 + i);
    }
    assert_eq!(m.prices.len(), 64);
    m.add_price(2, 10);
    assert_eq!(m.prices.len(), 64);
    assert_eq!(m.prices[10], 10);
    assert_eq!(m.prices[9], 1009);
    assert_eq!(m.prices[11], 1011);
    m.add_price(2, 75);
    assert_eq!(m.prices[11], 75);
    assert_eq!(m.prices.len(), 64);
}

#[test]
fn buffer_never_exceeds_capacity() {
    let mut m = module_at(1);
    for i in 0..300u32 {
        m.add_price(1, i.wrapping_mul(2_654_435_761));
        assert!(m.prices.len() <= MAX_LEN);
    }
    assert_eq!(m.prices.len(), MAX_LEN);
    assert_eq!(m.events.len(), 300);
}

#[test]
fn average_truncates() {
    let mut m = module_at(1);
    m.add_price(1, 1);
    m.add_price(1, 2);
    assert_eq!(m.average_price(), Some(1));
    m.add_price(1, 4);
    assert_eq!(m.average_price(), Some(2));
}

#[test]
fn average_sum_saturates() {
    let mut m = module_at(1);
    m.add_price(1, u32::MAX);
    m.add_price(1, u32::MAX);
    m.add_price(1, 4);
    assert_eq!(m.average_price(), Some(u32::MAX / 3));
}

#[test]
fn selector_round_robins_by_height() {
    let m = module_at(1);
    let cases = [
        (30u64, TransactionType::Signed),
        (31, TransactionType::UnsignedForAny),
        (32, TransactionType::UnsignedForAll),
    ];
    for (block, expected) in cases {
        let mut last = None;
        assert_eq!(m.choose_transaction_type(&mut last, block), expected);
        assert_eq!(last, Some(block));
    }
}

#[test]
fn selector_second_call_same_height_skips() {
    let m = module_at(1);
    let mut last = None;
    assert_eq!(m.choose_transaction_type(&mut last, 10), TransactionType::UnsignedForAny);
    assert_eq!(m.choose_transaction_type(&mut last, 10), TransactionType::Skip);
    assert_eq!(last, Some(10));
}

#[test]
fn selector_waits_for_grace_period() {
    let m = module_at(1);
    let mut last = Some(10);
    assert_eq!(m.choose_transaction_type(&mut last, 14), TransactionType::Skip);
    assert_eq!(last, Some(10));
    assert_eq!(m.choose_transaction_type(&mut last, 15), TransactionType::Signed);
    assert_eq!(last, Some(15));
}

#[test]
fn selector_grace_end_beyond_u64_skips() {
    let m = module_at(1);
    let mut last = Some(u64::MAX - 1);
    assert_eq!(m.choose_transaction_type(&mut last, u64::MAX), TransactionType::Skip);
    assert_eq!(last, Some(u64::MAX - 1));
}

#[test]
fn validator_stale_then_valid_then_window_moves() {
    let mut m = module_at(100);
    m.next_unsigned_at = 100;
    assert_eq!(m.validate_transaction_parameters(99, 500), Err(InvalidTransaction::Stale));
    assert_eq!(m.validate_unsigned(&Call::SubmitPriceUnsigned(99, 500)), Err(InvalidTransaction::Stale));
    let v = m.validate_unsigned(&Call::SubmitPriceUnsigned(100, 500)).unwrap();
    assert_eq!(v.provides, vec![100]);
    assert!(v.requires.is_empty());
    assert_eq!(v.longevity, LONGEVITY);
    assert_eq!(v.longevity, 5);
    assert!(v.propagate);
    assert_eq!(m.submit_price_unsigned(Origin::Unsigned, 100, 500), Ok(()));
    assert_eq!(m.next_unsigned_at, 228);
    assert_eq!(m.events, vec![Event::NewPrice(500, UNSIGNED_SUBMITTER)]);
    assert_eq!(m.validate_transaction_parameters(100, 500), Err(InvalidTransaction::Stale));
}

#[test]
fn validator_rejects_future_heights() {
    let m = module_at(50);
    assert_eq!(m.validate_transaction_parameters(51, 1), Err(InvalidTransaction::Future));
    assert_eq!(m.validate_transaction_parameters(u64::MAX, 1), Err(InvalidTransaction::Future));
    assert!(m.validate_transaction_parameters(50, 1).is_ok());
}

#[test]
fn validator_stale_for_every_lower_block() {
    let mut m = module_at(1000);
    m.next_unsigned_at = 40;
    for b in 0..40u64 {
        assert_eq!(m.validate_transaction_parameters(b, 7), Err(InvalidTransaction::Stale));
    }
    assert!(m.validate_transaction_parameters(40, 7).is_ok());
}

#[test]
fn validator_payload_calls() {
    let m = module_at(10);
    let payload = PricePayload { block_number: 10, price: 3, public: vec![1, 2, 3] };
    let call = Call::SubmitPriceUnsignedWithSignedPayload(payload.clone(), vec![9; 64]);
    assert_eq!(m.validate_call(&call, false), Err(InvalidTransaction::BadProof));
    assert!(m.validate_call(&call, true).is_ok());
    assert_eq!(m.validate_unsigned(&call), Err(InvalidTransaction::BadProof));
    let future = PricePayload { block_number: 11, price: 3, public: vec![1] };
    let call = Call::SubmitPriceUnsignedWithSignedPayload(future, vec![]);
    assert_eq!(m.validate_call(&call, true), Err(InvalidTransaction::Future));
    assert_eq!(m.validate_call(&Call::SubmitPrice(3), true), Err(InvalidTransaction::Call));
    assert_eq!(m.validate_unsigned(&Call::SubmitPrice(3)), Err(InvalidTransaction::Call));
    assert_eq!(payload.public(), vec![1, 2, 3]);
}

#[test]
fn priority_grows_with_distance_from_average() {
    let mut m = module_at(10);
    let base = 1u64 << 20;
    assert_eq!(m.validate_transaction_parameters(10, 900).unwrap().priority, base);
    m.add_price(1, 1000);
    assert_eq!(m.validate_transaction_parameters(10, 1000).unwrap().priority, base);
    assert_eq!(m.validate_transaction_parameters(10, 990).unwrap().priority, base + 10);
    assert_eq!(m.validate_transaction_parameters(10, 1010).unwrap().priority, base + 10);
    assert_eq!(m.validate_transaction_parameters(10, 0).unwrap().priority, base + 1000);
    let mut last = 0;
    for p in (1000..5000u32).step_by(250) {
        let prio = m.validate_transaction_parameters(10, p).unwrap().priority;
        assert!(prio > last);
        last = prio;
    }
}

#[test]
fn priority_saturates() {
    let mut m = Module::new(Params { grace_period: 1, unsigned_interval: 1, unsigned_priority: u64::MAX - 5 }, 3);
    m.add_price(1, 100);
    assert_eq!(m.validate_transaction_parameters(3, 0).unwrap().priority, u64::MAX);
}

#[test]
fn signed_submission_needs_signed_origin() {
    let mut m = module_at(3);
    assert_eq!(m.submit_price(Origin::Unsigned, 5), Err(DispatchError::BadOrigin));
    assert_eq!(m.submit_price(Origin::Root, 5), Err(DispatchError::BadOrigin));
    assert!(m.prices.is_empty());
    assert_eq!(m.submit_price(Origin::Signed(8), 5), Ok(()));
    assert_eq!(m.events, vec![Event::NewPrice(5, 8)]);
    assert_eq!(m.next_unsigned_at, 0);
}

#[test]
fn unsigned_submissions_need_unsigned_origin() {
    let mut m = module_at(3);
    assert_eq!(m.submit_price_unsigned(Origin::Signed(1), 3, 5), Err(DispatchError::BadOrigin));
    let payload = PricePayload { block_number: 3, price: 11, public: vec![] };
    assert_eq!(m.submit_price_unsigned_with_signed_payload(Origin::Root, &payload, &vec![]), Err(DispatchError::BadOrigin));
    assert!(m.prices.is_empty());
    assert_eq!(m.submit_price_unsigned_with_signed_payload(Origin::Unsigned, &payload, &vec![]), Ok(()));
    assert_eq!(m.prices, vec![11]);
    assert_eq!(m.next_unsigned_at, 131);
}

#[test]
fn parse_price_two_fraction_digits() {
    assert_eq!(parse_price("{\"USD\":9153.38}"), Some(915_338));
    assert_eq!(parse_price("{ \"USD\": 6536.92 }"), Some(653_692));
}

#[test]
fn parse_price_normalises_fraction() {
    assert_eq!(parse_price("{\"USD\":12.3456}"), Some(1234));
    assert_eq!(parse_price("{\"USD\":1.5}"), Some(105));
    assert_eq!(parse_price("{\"USD\":7}"), Some(700));
}

#[test]
fn parse_price_first_usd_member() {
    assert_eq!(parse_price("{\"EUR\":1.00,\"USD\":2.00,\"USD\":3.00}"), Some(200));
    assert_eq!(parse_price("{\"USD\":\"2.00\",\"USD\":3.00}"), None);
}

#[test]
fn parse_price_rejects_other_shapes() {
    assert_eq!(parse_price("{\"EUR\":1.00}"), None);
    assert_eq!(parse_price("{\"US\":1.00}"), None);
    assert_eq!(parse_price("{\"\":1.00}"), None);
    assert_eq!(parse_price("[1.00]"), None);
    assert_eq!(parse_price("not json"), None);
    assert_eq!(parse_price("{\"USD\":-1.00}"), None);
    assert_eq!(parse_price("{\"USD\":50000000.00}"), None);
    assert_eq!(parse_price("{\"USD\":1234567890}"), None);
    assert_eq!(parse_price("{\"USD\":42949672.95}"), Some(u32::MAX));
}

#[test]
fn price_from_members_reads_first_usd() {
    let members = vec![
        (chars("BTC"), Some((1, 0, 0))),
        (chars("USD"), Some((12, 3456, 4))),
        (chars("USD"), Some((99, 0, 0))),
    ];
    assert_eq!(price_from_members(&members), Some(1234));
    let members = vec![(chars("USD"), None), (chars("USD"), Some((99, 0, 0)))];
    assert_eq!(price_from_members(&members), None);
    assert_eq!(price_from_members(&vec![]), None);
    let members = vec![(chars("USD"), Some((0, u64::MAX, 30)))];
    assert_eq!(price_from_members(&members), Some(0));
    let members = vec![(chars("USD"), Some((0, 99, 2)))];
    assert_eq!(price_from_members(&members), Some(99));
}

#[test]
fn fetch_deadline_keeps_error_and_state() {
    let m = module_at(10);
    let r = fetch_price(&Err(FetchError::DeadlineReached));
    assert_eq!(r, Err(FetchError::DeadlineReached));
    assert_eq!(m.offchain_step(TransactionType::UnsignedForAny, 10, &Stage::Fetched(r)), Action::Failed(SendError::FetchFailed));
    assert!(m.prices.is_empty());
    assert_eq!(fetch_price(&Err(FetchError::IoError)), Err(FetchError::IoError));
}

#[test]
fn fetch_classifies_responses() {
    let ok = HttpResponse { code: 200, body: b"{\"USD\":9153.38}".to_vec() };
    assert_eq!(fetch_price(&Ok(ok)), Ok(915_338));
    let not_found = HttpResponse { code: 404, body: b"{\"USD\":9153.38}".to_vec() };
    assert_eq!(fetch_price(&Ok(not_found)), Err(FetchError::Unknown));
    let not_utf8 = HttpResponse { code: 200, body: vec![0x7b, 0xff, 0xfe, 0x7d] };
    assert_eq!(fetch_price(&Ok(not_utf8)), Err(FetchError::Unknown));
    let no_usd = HttpResponse { code: 200, body: b"{\"EUR\":1.0}".to_vec() };
    assert_eq!(fetch_price(&Ok(no_usd)), Err(FetchError::Unknown));
}

#[test]
fn steps_of_signed_strategy() {
    let m = module_at(10);
    assert_eq!(m.fetch_price_and_send_signed(10, &Stage::Start(false)), Action::Failed(SendError::NoLocalAccounts));
    assert_eq!(m.fetch_price_and_send_signed(10, &Stage::Start(true)), Action::Fetch);
    assert_eq!(m.fetch_price_and_send_signed(10, &Stage::Fetched(Ok(7))), Action::Submit(Submission::Signed(7)));
    assert_eq!(m.fetch_price_and_send_signed(10, &Stage::Submitted(vec![false, true])), Action::Done);
}

#[test]
fn unsigned_strategies_stop_before_fetch_when_too_early() {
    let mut m = module_at(10);
    m.next_unsigned_at = 11;
    assert_eq!(m.fetch_price_and_send_raw_unsigned(10, &Stage::Start(true)), Action::Failed(SendError::TooEarly));
    assert_eq!(m.fetch_price_and_send_unsigned_for_any_account(10, &Stage::Start(true)), Action::Failed(SendError::TooEarly));
    assert_eq!(m.fetch_price_and_send_unsigned_for_all_accounts(10, &Stage::Start(true)), Action::Failed(SendError::TooEarly));
    assert_eq!(m.fetch_price_and_send_signed(10, &Stage::Start(true)), Action::Failed(SendError::TooEarly));
    assert_eq!(m.offchain_step(TransactionType::Signed, 10, &Stage::Start(true)), Action::Failed(SendError::TooEarly));
    assert_eq!(m.fetch_price_and_send_raw_unsigned(11, &Stage::Start(false)), Action::Fetch);
    assert_eq!(m.fetch_price_and_send_signed(11, &Stage::Start(true)), Action::Fetch);
}

#[test]
fn steps_of_unsigned_strategies() {
    let m = module_at(10);
    assert_eq!(m.fetch_price_and_send_raw_unsigned(10, &Stage::Fetched(Ok(3))), Action::Submit(Submission::RawUnsigned(10, 3)));
    assert_eq!(m.fetch_price_and_send_raw_unsigned(10, &Stage::Submitted(vec![true])), Action::Done);
    assert_eq!(m.fetch_price_and_send_raw_unsigned(10, &Stage::Submitted(vec![false])), Action::Failed(SendError::SubmitFailed));
    assert_eq!(m.fetch_price_and_send_unsigned_for_any_account(10, &Stage::Fetched(Ok(3))), Action::Submit(Submission::PayloadForAny(10, 3)));
    assert_eq!(m.fetch_price_and_send_unsigned_for_any_account(10, &Stage::Submitted(vec![])), Action::Failed(SendError::NoLocalAccounts));
    assert_eq!(m.fetch_price_and_send_unsigned_for_any_account(10, &Stage::Submitted(vec![false])), Action::Failed(SendError::SubmitFailed));
    assert_eq!(m.fetch_price_and_send_unsigned_for_all_accounts(10, &Stage::Fetched(Ok(3))), Action::Submit(Submission::PayloadForAll(10, 3)));
    assert_eq!(m.fetch_price_and_send_unsigned_for_all_accounts(10, &Stage::Submitted(vec![true, false, true])), Action::Failed(SendError::SubmitFailed));
    assert_eq!(m.fetch_price_and_send_unsigned_for_all_accounts(10, &Stage::Submitted(vec![true, true])), Action::Done);
    assert_eq!(m.offchain_step(TransactionType::Skip, 10, &Stage::Start(true)), Action::Done);
    assert_eq!(m.offchain_step(TransactionType::Signed, 10, &Stage::Fetched(Err(FetchError::Unknown))), Action::Failed(SendError::FetchFailed));
}

#[test]
fn payload_encoding_is_scale_of_fields() {
    let payload = PricePayload { block_number: 0x0102, price: 0x0a0b0c0d, public: vec![7, 8] };
    assert_eq!(payload_encoding(&payload), vec![2, 1, 0, 0, 0, 0, 0, 0, 0x0d, 0x0c, 0x0b, 0x0a, 7, 8]);
}

#[test]
fn signed_payload_verifies_and_tampering_does_not() {
    let (payload, signature) = signed_payload(3, 10, 500);
    assert!(verify_payload(&payload, &signature));
    let mut other = payload.clone();
    other.price = 501;
    assert!(!verify_payload(&other, &signature));
    let (stranger, _) = signed_payload(4, 10, 500);
    let forged = PricePayload { public: stranger.public.clone(), ..payload.clone() };
    assert!(!verify_payload(&forged, &signature));
    assert!(!verify_payload(&payload, &vec![0u8; 64]));
    assert!(!verify_payload(&payload, &signature[..63].to_vec()));
}

#[test]
fn validator_checks_payload_signature() {
    let mut m = module_at(10);
    m.next_unsigned_at = 8;
    let (payload, signature) = signed_payload(5, 10, 500);
    let call = Call::SubmitPriceUnsignedWithSignedPayload(payload.clone(), signature.clone());
    let v = m.validate_unsigned(&call).unwrap();
    assert_eq!(v.provides, vec![8]);
    let tampered = PricePayload { price: 9, ..payload };
    let call = Call::SubmitPriceUnsignedWithSignedPayload(tampered, signature);
    assert_eq!(m.validate_unsigned(&call), Err(InvalidTransaction::BadProof));
    let (stale, signature) = signed_payload(5, 7, 500);
    let call = Call::SubmitPriceUnsignedWithSignedPayload(stale, signature);
    assert_eq!(m.validate_unsigned(&call), Err(InvalidTransaction::Stale));
}

#[test]
fn parse_price_accepts_long_fraction_and_long_neighbours() {
    assert_eq!(parse_price("{\"USD\":1.0000000001}"), Some(100));
    assert_eq!(parse_price("{\"time\":1700000000123,\"USD\":9153.38}"), Some(915_338));
    assert_eq!(parse_price("{\"USD\":12.3456789012345678901}"), None);
    assert_eq!(parse_price("{\"USD\":12.345678901234567}"), Some(1234));
    assert_eq!(parse_price("{\"n\":123456789012345678,\"USD\":1.00}"), Some(100));
}

#[test]
fn parse_price_bounds_exponent_digits() {
    assert_eq!(parse_price("{\"USD\":1.25e123456789}"), Some(125));
    assert_eq!(parse_price("{\"USD\":1.25E-12345678901}"), None);
    assert_eq!(parse_price("{\"x\":2e+1234567890,\"USD\":1.25}"), None);
}

#[test]
fn parse_price_ignores_digits_inside_strings() {
    assert_eq!(parse_price("{\"id\":\"1234567890123456789\",\"USD\":1.00}"), Some(100));
    assert_eq!(parse_price("{\"id\":\"x\\\"1234567890123456789e12345678901\",\"USD\":2.50}"), Some(250));
    assert_eq!(parse_price("{\"id\":\"a\\\\\",\"n\":1234567890123456789,\"USD\":1.00}"), None);
}

#[test]
fn fan_out_stops_as_each_strategy_says() {
    let signed = Submission::Signed(5);
    assert!(keeps_submitting(&signed, &vec![false, false]));
    let all = Submission::PayloadForAll(1, 5);
    assert!(keeps_submitting(&all, &vec![]));
    assert!(keeps_submitting(&all, &vec![true, true]));
    assert!(!keeps_submitting(&all, &vec![true, false]));
    let any = Submission::PayloadForAny(1, 5);
    assert!(keeps_submitting(&any, &vec![]));
    assert!(!keeps_submitting(&any, &vec![true]));
    assert!(!keeps_submitting(&Submission::RawUnsigned(1, 5), &vec![false]));
}
