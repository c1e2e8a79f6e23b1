use fee_manager::handlers::healthcheck;
use fee_manager::handlers::list_mev;
use fee_manager::handlers::pubkey_get;
use fee_manager::handlers::pubkey_set;
use fee_manager::handlers::ApiError;
use fee_manager::identity::BLSPubkey;
use fee_manager::identity::Eth1Address;
use fee_manager::pipeline::handle_error;
use fee_manager::pipeline::step;
use fee_manager::pipeline::PipelineError;
use fee_manager::pipeline::RequestEvent;
use fee_manager::pipeline::RequestState;
use fee_manager::registry::Config;

const KEY_A: &str = "0xaff3071a4bff828acb8e0c6e0c73aa481162da7b8735fd798c3237bc643ae1aa325d6281abe61ffedaf2eb51b29eaf27";
const KEY_B: &str = "0xb5246e0c2e3c21dd33a28d01bc42961af922441d5b0ab9f0d4b999a756e5954a6fe0a9f38ba3b1532015f9c443b280e7";
const ADDR_B: &str = "0xb0b1b2b3b4b5b6b7b8b9c0c1c2c3c4c5c6c7c8";
const ADDR_C: &str = "0xc0c1c2c3c4c5c6c7c8c9d0d1d2d3d4d5d6d7d8";

#[test]
fn healthcheck_is_fixed() {
    assert_eq!(healthcheck(), "Application is live");
}

#[test]
fn get_before_any_write_is_not_found() {
    let config = Config::new();
    let r = pubkey_get(&config, KEY_A);
    assert_eq!(r, Err(ApiError::NotFound));
    assert_eq!(ApiError::NotFound.status_code(), 404);
}

#[test]
fn set_then_get_returns_normalized_value() {
    let mut config = Config::new();
    let upper_addr = "0xB0B1B2B3B4B5B6B7B8B9C0C1C2C3C4C5C6C7C8";
    let r = pubkey_set(&mut config, KEY_A, upper_addr);
    assert_eq!(r, Ok("Inserted".to_string()));
    let got = pubkey_get(&config, KEY_A);
    assert_eq!(got, Ok(ADDR_B.to_string()));
}

#[test]
fn set_with_short_key_is_bad_request() {
    let mut config = Config::new();
    let short_key = &KEY_A[..97];
    let r = pubkey_set(&mut config, short_key, ADDR_B);
    assert_eq!(r, Err(ApiError::BadRequest));
    assert_eq!(ApiError::BadRequest.status_code(), 400);
    // The underlying validation names the length requirement.
    let e = BLSPubkey::try_from(short_key).unwrap_err();
    assert_eq!(e.message(), "The length of pubkey should be 98");
    // No partial write occurred.
    assert_eq!(list_mev(&config).len(), 0);
}

#[test]
fn set_with_bad_body_is_bad_request() {
    let mut config = Config::new();
    let r = pubkey_set(&mut config, KEY_A, "definitely not an address");
    assert_eq!(r, Err(ApiError::BadRequest));
    assert_eq!(list_mev(&config).len(), 0);
}

#[test]
fn oversized_body_is_rejected_before_validation() {
    let mut config = Config::new();
    let big = "a".repeat(5_120_001);
    let r = pubkey_set(&mut config, KEY_A, &big);
    assert_eq!(r, Err(ApiError::PayloadTooLarge));
    assert_eq!(ApiError::PayloadTooLarge.status_code(), 413);
    assert_eq!(list_mev(&config).len(), 0);
}

#[test]
fn list_after_two_writes_holds_exactly_those_pairs() {
    let mut config = Config::new();
    pubkey_set(&mut config, KEY_A, ADDR_B).unwrap();
    pubkey_set(&mut config, KEY_B, ADDR_C).unwrap();
    let pairs = list_mev(&config);
    assert_eq!(pairs.len(), 2);
    assert_eq!(pairs[0], (KEY_A.to_string(), ADDR_B.to_string()));
    assert_eq!(pairs[1], (KEY_B.to_string(), ADDR_C.to_string()));
}

#[test]
fn overwrite_is_last_writer_wins() {
    let mut config = Config::new();
    pubkey_set(&mut config, KEY_A, ADDR_B).unwrap();
    pubkey_set(&mut config, KEY_A, ADDR_C).unwrap();
    assert_eq!(pubkey_get(&config, KEY_A), Ok(ADDR_C.to_string()));
    assert_eq!(list_mev(&config).len(), 1);
}

#[test]
fn get_on_never_written_key_is_absent() {
    let mut config = Config::new();
    pubkey_set(&mut config, KEY_A, ADDR_B).unwrap();
    let key_b = BLSPubkey::try_from(KEY_B).unwrap();
    assert!(config.get(&key_b).is_none());
    assert_eq!(pubkey_get(&config, KEY_B), Err(ApiError::NotFound));
}

#[test]
fn snapshot_is_independent_of_later_writes() {
    let mut config = Config::new();
    pubkey_set(&mut config, KEY_A, ADDR_B).unwrap();
    let before = config.snapshot();
    pubkey_set(&mut config, KEY_B, ADDR_C).unwrap();
    assert_eq!(before.len(), 1);
    assert_eq!(before[0], (KEY_A.to_string(), ADDR_B.to_string()));
    assert_eq!(config.snapshot().len(), 2);
}

#[test]
fn registry_get_returns_stored_address() {
    let mut config = Config::new();
    let key = BLSPubkey::try_from(KEY_A).unwrap();
    let addr = Eth1Address::try_from(ADDR_B).unwrap();
    config.set(key.clone(), addr.clone());
    let got = config.get(&key).unwrap();
    assert_eq!(got, &addr);
    assert_eq!(got.as_str(), ADDR_B);
}

#[test]
fn request_exceeding_timeout_times_out() {
    let running = step(
        RequestState::Admitted,
        RequestEvent::Enter { in_flight: 0 },
    );
    assert_eq!(running, RequestState::Running);
    let still_running = step(running, RequestEvent::Clock { elapsed_secs: 10 });
    assert_eq!(still_running, RequestState::Running);
    let timed_out = step(still_running, RequestEvent::Clock { elapsed_secs: 11 });
    assert_eq!(timed_out, RequestState::TimedOut);
    let (status, message) = handle_error(&PipelineError::Timeout);
    assert_eq!(status, 408);
    assert_eq!(message, "request timed out");
}

#[test]
fn saturated_pipeline_sheds() {
    let shed = step(
        RequestState::Admitted,
        RequestEvent::Enter { in_flight: 1024 },
    );
    assert_eq!(shed, RequestState::Shed);
    // Terminal states never change.
    assert_eq!(step(shed, RequestEvent::Respond), RequestState::Shed);
    let (status, message) = handle_error(&PipelineError::Overloaded);
    assert_eq!(status, 503);
    assert_eq!(message, "service is overloaded, try again later");
}

#[test]
fn unhandled_errors_map_to_internal_error() {
    let (status, message) = handle_error(&PipelineError::Other("boom".to_string()));
    assert_eq!(status, 500);
    assert_eq!(message, "Unhandled internal error: boom");
}
