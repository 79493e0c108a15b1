use std::sync::Arc;

use request_counter::CountingStore;
use tokio::sync::RwLock;

const TTL: u64 = 1000;

#[test]
fn concurrent_records_none_lost() {
    let rt = tokio::runtime::Builder::new_multi_thread()
        .worker_threads(4)
        .build()
        .unwrap();
    let store = Arc::new(RwLock::new(CountingStore::new()));
    rt.block_on(async {
        let mut handles = Vec::new();
        for _ in 0..100 {
            let store = Arc::clone(&store);
            handles.push(tokio::spawn(async move {
                let mut s = store.write().await;
                s.record_and_get(String::from("10.0.0.1:/foo"), TTL, 0)
            }));
        }
        let mut seen = Vec::new();
        for h in handles {
            seen.push(h.await.unwrap());
        }
        // Every record was applied: the final count is exactly the number of
        // calls, and every count from 1 to 100 was handed to exactly one
        // caller.
        let s = store.read().await;
        assert_eq!(s.get("10.0.0.1:/foo", TTL, 0), 100);
        seen.sort();
        for (i, v) in seen.iter().enumerate() {
            assert_eq!(*v, (i + 1) as u64);
        }
    });
}

#[test]
fn concurrent_distinct_keys_stay_isolated() {
    let rt = tokio::runtime::Builder::new_multi_thread()
        .worker_threads(4)
        .build()
        .unwrap();
    let store = Arc::new(RwLock::new(CountingStore::new()));
    rt.block_on(async {
        let mut handles = Vec::new();
        for i in 0..10 {
            for _ in 0..10 {
                let store = Arc::clone(&store);
                let key = format!("10.0.0.{}:/foo", i);
                handles.push(tokio::spawn(async move {
                    let mut s = store.write().await;
                    s.record_and_get(key, TTL, 0)
                }));
            }
        }
        for h in handles {
            h.await.unwrap();
        }
        let s = store.read().await;
        for i in 0..10 {
            let key = format!("10.0.0.{}:/foo", i);
            assert_eq!(s.get(&key, TTL, 0), 10);
        }
    });
}
