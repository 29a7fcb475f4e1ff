use kernel_builder::config::SSHConfig;
use kernel_builder::error::SSHError;
use kernel_builder::pool::{close_failures, PoolSlot, SSHConnectionPool};
use kernel_builder::session::{AttemptOutcome, ConnectStep, SSHManager};

fn config_for(host: &str) -> SSHConfig {
    SSHConfig {
        host: host.to_string(),
        port: 22,
        user: "root".to_string(),
        key_path: "/keys/id".to_string(),
        timeout: 1_000,
        max_retries: 2,
        initial_backoff: 10,
        max_backoff: 40,
        strict_host_key_checking: false,
        compression: false,
        keep_alive_interval: None,
    }
}

fn add(pool: &mut SSHConnectionPool<u32>, key: &str, channel: u32) -> Result<(), SSHError> {
    match pool.get_or_create_connection(key, config_for(key))? {
        PoolSlot::Existing(_) => Ok(()),
        PoolSlot::Vacant(mut manager) => {
            let mut progress = manager.begin_connect();
            let step = manager.connect(&mut progress, AttemptOutcome::Established(channel), 1);
            assert!(matches!(step, ConnectStep::Connected));
            assert!(pool.settle(key.to_string(), manager, &step).is_none());
            Ok(())
        }
    }
}

#[test]
fn pool_of_one_refuses_a_second_key() {
    let mut pool = SSHConnectionPool::new(1);
    add(&mut pool, "vm-a", 1).unwrap();
    let err = add(&mut pool, "vm-b", 2).unwrap_err();
    assert_eq!(
        err,
        SSHError::ConnectionFailed("Maximum number of connections reached".to_string())
    );
    assert_eq!(pool.len(), 1);
    assert!(pool.get("vm-b").is_none());
}

#[test]
fn pool_admits_capacity_distinct_keys() {
    let capacity = 5;
    let mut pool = SSHConnectionPool::new(capacity);
    for i in 0..capacity {
        add(&mut pool, &format!("vm-{}", i), i as u32).unwrap();
        assert_eq!(pool.len(), i + 1);
    }
    let err = add(&mut pool, "vm-extra", 99).unwrap_err();
    assert!(matches!(err, SSHError::ConnectionFailed(_)));
    assert_eq!(pool.len(), capacity);
    for i in 0..capacity {
        assert!(pool.get(&format!("vm-{}", i)).is_some());
    }
}

#[test]
fn existing_key_keeps_its_session() {
    let mut pool = SSHConnectionPool::new(1);
    add(&mut pool, "vm-a", 7).unwrap();
    let mut other = config_for("elsewhere");
    other.port = 9;
    match pool.get_or_create_connection("vm-a", other).unwrap() {
        PoolSlot::Existing(position) => assert_eq!(position, 0),
        PoolSlot::Vacant(_) => panic!("the key is taken"),
    }
    assert_eq!(pool.len(), 1);
    let info = pool.get("vm-a").unwrap().connection_info().unwrap();
    assert_eq!(info.host, "vm-a");
    assert_eq!(info.port, 22);
}

#[test]
fn existing_key_is_served_by_a_full_pool() {
    let mut pool = SSHConnectionPool::new(2);
    add(&mut pool, "vm-a", 1).unwrap();
    add(&mut pool, "vm-b", 2).unwrap();
    add(&mut pool, "vm-b", 3).unwrap();
    add(&mut pool, "vm-a", 4).unwrap();
    assert_eq!(pool.len(), 2);
}

#[test]
fn invalid_configuration_is_refused_by_the_pool() {
    let pool = SSHConnectionPool::<u32>::new(2);
    let err = pool.get_or_create_connection("vm-a", config_for("")).err().unwrap();
    assert_eq!(err, SSHError::ConfigurationError("Host cannot be empty".to_string()));
    assert_eq!(pool.len(), 0);
}

#[test]
fn failed_connect_takes_no_room() {
    let mut pool = SSHConnectionPool::<u32>::new(1);
    match pool.get_or_create_connection("vm-a", config_for("vm-a")).unwrap() {
        PoolSlot::Vacant(mut manager) => {
            let mut progress = manager.begin_connect();
            let step = manager.connect(&mut progress, AttemptOutcome::TimedOut, 0);
            assert!(matches!(step, ConnectStep::Retry(_)));
            let back = pool.settle("vm-a".to_string(), manager, &step).unwrap();
            assert_eq!(pool.len(), 0);
            let mut manager = back;
            let step = manager.connect(&mut progress, AttemptOutcome::TimedOut, 0);
            assert!(matches!(step, ConnectStep::Failed(SSHError::ConnectionFailed(_))));
            let back = pool.settle("vm-a".to_string(), manager, &step).unwrap();
            assert_eq!(back.connect_request().destination, "root@vm-a");
        }
        PoolSlot::Existing(_) => panic!("the pool is empty"),
    }
    assert_eq!(pool.len(), 0);
    assert!(pool.get("vm-a").is_none());
    add(&mut pool, "vm-b", 2).unwrap();
    assert_eq!(pool.len(), 1);
}

#[test]
fn zero_capacity_admits_nothing() {
    let mut pool = SSHConnectionPool::new(0);
    assert!(add(&mut pool, "vm-a", 1).is_err());
    assert_eq!(pool.len(), 0);
}

#[test]
fn remove_connection_releases_the_channel() {
    let mut pool = SSHConnectionPool::new(3);
    add(&mut pool, "vm-a", 10).unwrap();
    add(&mut pool, "vm-b", 20).unwrap();
    add(&mut pool, "vm-c", 30).unwrap();
    assert_eq!(pool.remove_connection("vm-b"), Some(20));
    assert_eq!(pool.len(), 2);
    assert!(pool.get("vm-b").is_none());
    assert!(pool.get("vm-a").is_some());
    assert!(pool.get("vm-c").is_some());
    assert_eq!(pool.remove_connection("vm-b"), None);
    assert_eq!(pool.remove_connection("never"), None);
    assert_eq!(pool.len(), 2);
    add(&mut pool, "vm-d", 40).unwrap();
    assert_eq!(pool.len(), 3);
}

#[test]
fn close_all_releases_every_session() {
    let mut pool = SSHConnectionPool::new(4);
    add(&mut pool, "vm-a", 10).unwrap();
    add(&mut pool, "vm-b", 20).unwrap();
    add(&mut pool, "vm-c", 30).unwrap();
    let released = pool.close_all();
    assert_eq!(released, vec![Some(30), Some(20), Some(10)]);
    assert_eq!(pool.len(), 0);
    assert!(pool.close_all().is_empty());
}

#[test]
fn close_all_goes_on_after_a_failed_close() {
    let mut pool = SSHConnectionPool::new(3);
    add(&mut pool, "vm-a", 10).unwrap();
    add(&mut pool, "vm-b", 20).unwrap();
    add(&mut pool, "vm-c", 30).unwrap();
    let mut attempts = 0;
    let mut close_errors = Vec::new();
    for channel in pool.close_all() {
        let channel = channel.unwrap();
        attempts += 1;
        close_errors.push(if channel == 20 { Some("broken pipe".to_string()) } else { None });
    }
    assert_eq!(attempts, 3);
    assert_eq!(
        close_failures(&close_errors),
        vec![SSHError::SessionFailed("Failed to close session: broken pipe".to_string())]
    );
    assert_eq!(pool.len(), 0);
}

#[test]
fn close_failures_keeps_every_failure_in_order() {
    assert!(close_failures(&Vec::new()).is_empty());
    assert!(close_failures(&vec![None, None]).is_empty());
    assert_eq!(
        close_failures(&vec![Some("a".to_string()), None, Some("b".to_string())]),
        vec![
            SSHError::SessionFailed("Failed to close session: a".to_string()),
            SSHError::SessionFailed("Failed to close session: b".to_string()),
        ]
    );
}

#[test]
fn close_all_includes_unconnected_sessions() {
    let mut pool = SSHConnectionPool::<u32>::new(2);
    add(&mut pool, "vm-a", 10).unwrap();
    let idle = SSHManager::new(config_for("idle")).unwrap();
    assert!(pool.settle("idle".to_string(), idle, &ConnectStep::Connected).is_none());
    assert_eq!(pool.close_all(), vec![None, Some(10)]);
}

#[test]
fn settle_refuses_a_taken_key_and_a_full_pool() {
    let mut pool = SSHConnectionPool::<u32>::new(1);
    add(&mut pool, "vm-a", 1).unwrap();
    let spare = SSHManager::new(config_for("spare")).unwrap();
    let back = pool.settle("vm-a".to_string(), spare, &ConnectStep::Connected).unwrap();
    let back = pool.settle("vm-b".to_string(), back, &ConnectStep::Connected).unwrap();
    assert_eq!(back.connect_request().destination, "root@spare");
    assert_eq!(pool.len(), 1);
}

#[test]
fn pooled_session_is_disconnected_in_place() {
    let mut pool = SSHConnectionPool::new(2);
    add(&mut pool, "vm-a", 10).unwrap();
    add(&mut pool, "vm-b", 20).unwrap();
    assert_eq!(pool.disconnect_connection("vm-a"), Some(10));
    assert_eq!(pool.len(), 2);
    assert!(pool.get("vm-a").unwrap().connection_info().is_none());
    assert_eq!(pool.get("vm-a").unwrap().connect_request().destination, "root@vm-a");
    assert_eq!(pool.get("vm-b").unwrap().connection_info().unwrap().host, "vm-b");
    assert_eq!(pool.disconnect_connection("vm-a"), None);
    assert_eq!(pool.disconnect_connection("never"), None);
    assert_eq!(pool.len(), 2);
    assert!(add(&mut pool, "vm-c", 30).is_err());
}

#[test]
fn pooled_session_is_reconnected_in_place() {
    let mut pool = SSHConnectionPool::new(2);
    add(&mut pool, "vm-a", 10).unwrap();
    add(&mut pool, "vm-b", 20).unwrap();
    assert_eq!(pool.disconnect_connection("vm-b"), Some(20));
    let mut progress = pool.get("vm-b").unwrap().begin_connect();
    let step = pool.connect_connection("vm-b", &mut progress, AttemptOutcome::TimedOut, 5);
    match step {
        Ok(ConnectStep::Retry(delay)) => assert_eq!(delay.base, 10),
        _ => panic!("one attempt is left"),
    }
    assert_eq!(progress.failures, 1);
    assert!(pool.get("vm-b").unwrap().connection_info().is_none());
    let step = pool.connect_connection("vm-b", &mut progress, AttemptOutcome::Established(21), 9);
    assert!(matches!(step, Ok(ConnectStep::Connected)));
    assert_eq!(pool.get("vm-b").unwrap().connection_info().unwrap().connected_at, 9);
    assert_eq!(pool.get("vm-a").unwrap().connection_info().unwrap().connected_at, 1);
    assert_eq!(pool.len(), 2);
    assert_eq!(pool.close_all(), vec![Some(21), Some(10)]);
}

#[test]
fn connect_connection_hands_back_the_outcome_for_an_unknown_key() {
    let mut pool = SSHConnectionPool::<u32>::new(2);
    add(&mut pool, "vm-a", 10).unwrap();
    let mut progress = pool.get("vm-a").unwrap().begin_connect();
    let before = progress;
    match pool.connect_connection("vm-x", &mut progress, AttemptOutcome::Established(7), 3) {
        Err(AttemptOutcome::Established(channel)) => assert_eq!(channel, 7),
        _ => panic!("the pool does not hold the key"),
    }
    assert_eq!(progress, before);
    assert_eq!(pool.len(), 1);
    assert_eq!(pool.get("vm-a").unwrap().connection_info().unwrap().connected_at, 1);
}
