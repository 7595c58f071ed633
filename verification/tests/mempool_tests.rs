use jormungandr_supervisor::{LogMaxEntries, Mempool, PoolMaxEntries};

#[test]
fn pool_max_entries_default_value() {
    assert_eq!(usize::from(PoolMaxEntries::default()), 10_000);
}

#[test]
fn log_max_entries_default_value() {
    assert_eq!(usize::from(LogMaxEntries::default()), 100_000);
}

#[test]
fn mempool_default_combines_both_defaults() {
    let mempool = Mempool::default();
    assert_eq!(mempool.pool_max_entries, PoolMaxEntries::default());
    assert_eq!(mempool.log_max_entries, LogMaxEntries::default());
}

#[test]
fn pool_max_entries_round_trips_through_usize() {
    let entries = PoolMaxEntries::from(7usize);
    assert_eq!(usize::from(entries), 7);
}

#[test]
fn log_max_entries_round_trips_through_usize() {
    let entries = LogMaxEntries::from(123usize);
    assert_eq!(usize::from(entries), 123);
}

#[test]
fn mempool_equality_is_by_value() {
    let built = Mempool {
        pool_max_entries: PoolMaxEntries::from(10_000usize),
        log_max_entries: LogMaxEntries::from(100_000usize),
    };
    assert_eq!(built, Mempool::default());
}
