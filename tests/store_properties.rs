use roracle::chain_spec::Extensions;
use roracle::pallet::{Config, GenesisConfig};
use roracle::record::{Event, OracleValue};
use roracle::validation::{check_submission, ensure_signed, validate, Error, Origin};

struct FixedClock(u64);

impl Config for FixedClock {
    fn now(&self) -> u64 {
        self.0
    }
}

fn record(value: u128, source: &[u8], updated_at: u64, status: &[u8]) -> OracleValue {
    OracleValue { value, source: source.to_vec(), updated_at, status: status.to_vec() }
}

#[test]
fn genesis_has_no_history() {
    let p = GenesisConfig::default().build();
    assert_eq!(p.history_index(), 0);
    assert_eq!(p.last_value(), None);
    assert_eq!(p.history(0), record(0, b"", 0, b""));
    assert!(p.events().is_empty());
}

#[test]
fn accepted_submission_is_stored_and_published_once() {
    let mut p = GenesisConfig::default().build();
    let value = 50000 * 1_000_000_000_000u128;
    assert_eq!(p.submit_oracle_value(&FixedClock(1000), Origin::Signed(7), value, b"Binance".to_vec(), b"success".to_vec()), Ok(()));
    let expected = record(value, b"Binance", 1000, b"success");
    assert_eq!(p.last_value(), Some(expected.duplicate()));
    assert_eq!(p.history(0), expected);
    assert_eq!(p.history(1), record(0, b"", 0, b""));
    assert_eq!(p.history_index(), 1);
    assert_eq!(
        p.events(),
        &vec![Event::ValueUpdated { value, source: b"Binance".to_vec(), updated_at: 1000, status: b"success".to_vec() }]
    );
}

#[test]
fn rejected_submissions_change_nothing() {
    let mut p = GenesisConfig::default().build();
    assert_eq!(p.submit_oracle_value_at(Origin::Signed(1), 10, b"Kraken".to_vec(), b"ok".to_vec(), 5), Ok(()));
    let cases: Vec<(Origin, u128, Vec<u8>, Error)> = vec![
        (Origin::Unsigned, 10, b"Binance".to_vec(), Error::Unauthorized),
        (Origin::Unsigned, 0, vec![], Error::Unauthorized),
        (Origin::Signed(1), 0, b"Binance".to_vec(), Error::InvalidValue),
        (Origin::Signed(1), 0, vec![], Error::InvalidValue),
        (Origin::Signed(1), 10, vec![], Error::InvalidSource),
    ];
    for (origin, value, source, err) in cases {
        assert_eq!(p.submit_oracle_value_at(origin, value, source, b"x".to_vec(), 99), Err(err));
        assert_eq!(p.history_index(), 1);
        assert_eq!(p.last_value(), Some(record(10, b"Kraken", 5, b"ok")));
        assert_eq!(p.history(0), record(10, b"Kraken", 5, b"ok"));
        assert_eq!(p.history(1), record(0, b"", 0, b""));
        assert_eq!(p.events().len(), 1);
    }
}

#[test]
fn history_follows_submission_order() {
    let mut p = GenesisConfig::default().build();
    let sources: [&[u8]; 4] = [b"a", b"bb", b"ccc", b"dddd"];
    for (i, s) in sources.iter().enumerate() {
        assert_eq!(p.submit_oracle_value_at(Origin::Signed(3), (i as u128) + 1, s.to_vec(), vec![], 100 + i as u64), Ok(()));
        assert_eq!(p.history_index(), i as u64 + 1);
        assert_eq!(p.last_value(), Some(p.history(p.history_index() - 1)));
    }
    for (i, s) in sources.iter().enumerate() {
        assert_eq!(p.history(i as u64), record((i as u128) + 1, s, 100 + i as u64, b""));
    }
    assert_eq!(p.events().len(), 4);
}

#[test]
fn empty_status_is_accepted() {
    let mut p = GenesisConfig::default().build();
    assert_eq!(p.submit_oracle_value_at(Origin::Signed(2), 1, b"s".to_vec(), vec![], 0), Ok(()));
    assert_eq!(p.last_value().unwrap().status, Vec::<u8>::new());
}

#[test]
fn saturated_index_overwrites_last_slot() {
    let mut p = GenesisConfig::default().build();
    p.put_history_index(u64::MAX - 1);
    assert_eq!(p.submit_oracle_value_at(Origin::Signed(1), 1, b"Binance".to_vec(), b"success".to_vec(), 10), Ok(()));
    assert_eq!(p.history_index(), u64::MAX);
    assert_eq!(p.history(u64::MAX - 1), record(1, b"Binance", 10, b"success"));
    assert_eq!(p.submit_oracle_value_at(Origin::Signed(1), 2, b"Coinbase".to_vec(), b"success".to_vec(), 20), Ok(()));
    assert_eq!(p.history_index(), u64::MAX);
    assert_eq!(p.history(u64::MAX), record(2, b"Coinbase", 20, b"success"));
    assert_eq!(p.submit_oracle_value_at(Origin::Signed(1), 3, b"Kraken".to_vec(), b"success".to_vec(), 30), Ok(()));
    assert_eq!(p.history_index(), u64::MAX);
    assert_eq!(p.history(u64::MAX), record(3, b"Kraken", 30, b"success"));
    assert_eq!(p.last_value(), Some(record(3, b"Kraken", 30, b"success")));
}

#[test]
fn put_history_index_moves_the_next_slot_only() {
    let mut p = GenesisConfig::default().build();
    p.put_history_index(41);
    assert_eq!(p.history_index(), 41);
    assert_eq!(p.last_value(), None);
    assert_eq!(p.submit_oracle_value_at(Origin::Signed(1), 5, b"x".to_vec(), b"y".to_vec(), 1), Ok(()));
    assert_eq!(p.history(41), record(5, b"x", 1, b"y"));
    assert_eq!(p.history(0), record(0, b"", 0, b""));
    assert_eq!(p.history_index(), 42);
}

#[test]
fn field_checks() {
    assert_eq!(validate(0, &b"Binance".to_vec()), Err(Error::InvalidValue));
    assert_eq!(validate(0, &vec![]), Err(Error::InvalidValue));
    assert_eq!(validate(1, &vec![]), Err(Error::InvalidSource));
    assert_eq!(validate(u128::MAX, &vec![0]), Ok(()));
    assert_eq!(ensure_signed(Origin::Signed(9)), Ok(9));
    assert_eq!(ensure_signed(Origin::Unsigned), Err(Error::Unauthorized));
    assert_eq!(check_submission(Origin::Unsigned, 0, &vec![]), Err(Error::Unauthorized));
    assert_eq!(check_submission(Origin::Signed(1), 1, &b"a".to_vec()), Ok(()));
}

#[test]
fn duplicate_copies_every_field() {
    let v = record(3, b"src", 4, b"st");
    assert_eq!(v.duplicate(), v);
    assert_eq!(OracleValue::empty(), record(0, b"", 0, b""));
}

#[test]
fn extensions_hold_their_fields() {
    let e = Extensions { relay_chain: "rococo-local".to_string(), para_id: 2000 };
    let c = e.clone();
    assert_eq!(c.relay_chain, "rococo-local");
    assert_eq!(c.para_id, 2000);
}
