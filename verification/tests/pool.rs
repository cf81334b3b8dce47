use chiselstore::directory::ConnectionDirectory;
use chiselstore::pool::{ConnectionPool, POOL_CAPACITY};
use chiselstore::service::execute_reply;
use chiselstore::wire::{WireQueryRow, WireQueryResults};

#[test]
fn fresh_pool_has_no_idle_handles() {
    let mut pool = ConnectionPool::new();
    assert_eq!(pool.idle_len(), 0);
    assert_eq!(pool.acquire(), None);
}

#[test]
fn releasing_twenty_handles_keeps_exactly_sixteen() {
    let mut pool = ConnectionPool::new();
    // Twenty concurrent calls found the pool empty and opened fresh
    // connections; every call then returns its handle.
    let handles: Vec<u64> = (0u64..20).collect();
    for _h in &handles {
        assert_eq!(pool.acquire(), None);
    }
    let mut kept: usize = 0;
    let mut discarded: usize = 0;
    for h in handles {
        if pool.release(h) {
            kept += 1;
        } else {
            discarded += 1;
        }
    }
    assert_eq!(kept, 16);
    assert_eq!(discarded, 4);
    assert_eq!(pool.idle_len(), POOL_CAPACITY);
}

#[test]
fn pool_hands_handles_back_oldest_first() {
    let mut pool = ConnectionPool::new();
    assert!(pool.release(10));
    assert!(pool.release(20));
    assert_eq!(pool.acquire(), Some(10));
    assert_eq!(pool.acquire(), Some(20));
    assert_eq!(pool.acquire(), None);
}

#[test]
fn release_at_capacity_does_not_grow_the_pool() {
    let mut pool = ConnectionPool::new();
    for h in 0u64..16 {
        assert!(pool.release(h));
    }
    assert_eq!(pool.idle_len(), 16);
    assert!(!pool.release(99));
    assert_eq!(pool.idle_len(), 16);
    // The overflowing handle was discarded, not queued: the oldest comes out.
    assert_eq!(pool.acquire(), Some(0));
}

#[test]
fn directory_creates_one_pool_per_address() {
    let mut dir = ConnectionDirectory::new();
    let a = String::from("127.0.0.1:50001");
    let first = dir.pool_for(&a);
    let second = dir.pool_for(&a);
    assert_eq!(first, second);
    assert_eq!(dir.len(), 1);
}

#[test]
fn directory_keeps_distinct_peers_apart() {
    let mut dir = ConnectionDirectory::new();
    let a = String::from("127.0.0.1:50001");
    let b = String::from("127.0.0.1:50002");
    let ia = dir.pool_for(&a);
    let ib = dir.pool_for(&b);
    assert_ne!(ia, ib);
    assert_eq!(dir.len(), 2);

    // Traffic on one peer's pool leaves the other's idle cache untouched.
    assert!(dir.release_at(ia, 7));
    assert_eq!(dir.idle_len_at(ia), 1);
    assert_eq!(dir.idle_len_at(ib), 0);
    assert_eq!(dir.acquire_at(ib), None);
    assert_eq!(dir.acquire_at(ia), Some(7));
}

#[test]
fn connection_for_creates_then_reuses_the_pool() {
    let mut dir = ConnectionDirectory::new();
    let a = String::from("127.0.0.1:50001");
    // First use: the pool is created empty, so no handle is cached yet.
    let (idx, handle) = dir.connection_for(&a);
    assert_eq!(handle, None);
    assert_eq!(dir.len(), 1);
    // The call completes and the handle comes back.
    assert!(dir.release_at(idx, 3));
    // Next lease for the same address finds the cached handle.
    let (again, handle) = dir.connection_for(&a);
    assert_eq!(again, idx);
    assert_eq!(handle, Some(3));
}

#[test]
fn execute_reply_returns_the_engine_rows() {
    let rows = vec![WireQueryRow { values: vec![String::from("1")] }];
    let reply = execute_reply(Ok(rows));
    assert_eq!(
        reply,
        Ok(WireQueryResults { rows: vec![WireQueryRow { values: vec![String::from("1")] }] })
    );
}

#[test]
fn execute_reply_surfaces_the_engine_error() {
    let reply = execute_reply(Err(String::from("not leader")));
    assert_eq!(reply, Err(String::from("not leader")));
}
