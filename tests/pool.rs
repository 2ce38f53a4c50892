use chat_agents::error::ScrapingError;
use chat_agents::pool::{BrowserPool, PROXY_COOLDOWN_MS};

#[test]
fn pool_capacity() {
    let mut pool = BrowserPool::new(2, vec![]);
    let a = pool.create_instance(10).unwrap();
    let b = pool.create_instance(11).unwrap();
    assert_ne!(a.id, b.id);
    assert!(a.proxy.is_none());
    assert!(matches!(pool.create_instance(12), Err(ScrapingError::ResourceLimit(_))));
    assert_eq!(pool.get_instance_count(), 2);
    assert_eq!(pool.remove_instance(a.id).unwrap().id, a.id);
    assert!(pool.remove_instance(a.id).is_none());
    assert!(pool.get_instance(a.id).is_none());
    assert_eq!(pool.get_instance(b.id).unwrap().created_at, 11);
    assert!(pool.create_instance(13).is_ok());
}

#[test]
fn proxies_rotate_and_cool_down() {
    let proxies = vec!["alpha:1".to_string(), "beta:2".to_string(), "gamma:3".to_string()];
    let mut pool = BrowserPool::new(10, proxies);
    assert_eq!(pool.get_next_proxy(0).as_deref(), Some("alpha:1"));
    assert_eq!(pool.get_next_proxy(0).as_deref(), Some("beta:2"));
    pool.report_bad_proxy("gamma:3".to_string(), 1_000);
    assert_eq!(pool.get_next_proxy(2_000).as_deref(), Some("alpha:1"));
    pool.report_bad_proxy("alpha:1".to_string(), 2_000);
    pool.report_bad_proxy("beta:2".to_string(), 2_000);
    assert_eq!(pool.get_next_proxy(3_000), None);
    // once the cooldown has passed the proxy comes back
    assert_eq!(pool.get_next_proxy(1_000 + PROXY_COOLDOWN_MS).as_deref(), Some("gamma:3"));
    let inst = pool.create_instance(5).unwrap();
    assert_eq!(inst.proxy.as_deref(), Some("gamma:3"));
    let inst = pool.create_instance(2_000 + PROXY_COOLDOWN_MS).unwrap();
    assert_eq!(inst.proxy.as_deref(), Some("alpha:1"));
}

#[test]
fn old_instances_are_swept() {
    let mut pool = BrowserPool::new(5, vec![]);
    let a = pool.create_instance(0).unwrap();
    let b = pool.create_instance(5_000).unwrap();
    let c = pool.create_instance(9_000).unwrap();
    let swept = pool.cleanup_old_instances(10_000, 4_000);
    let ids: Vec<u128> = swept.iter().map(|i| i.id).collect();
    assert_eq!(ids, vec![a.id, b.id]);
    assert_eq!(pool.get_instance_count(), 1);
    assert!(pool.get_instance(c.id).is_some());
    assert_eq!(pool.close_all_instances().len(), 1);
    assert_eq!(pool.get_instance_count(), 0);
}

#[test]
fn register_instance_rules() {
    let mut pool = BrowserPool::new(2, vec![]);
    assert_eq!(pool.register_instance(7, 1).unwrap().id, 7);
    assert!(matches!(pool.register_instance(7, 2), Err(ScrapingError::BrowserError(_))));
    assert_eq!(pool.get_instance_count(), 1);
    assert!(pool.register_instance(8, 3).is_ok());
    assert!(matches!(pool.register_instance(9, 4), Err(ScrapingError::ResourceLimit(_))));
}
