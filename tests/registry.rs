use compa::domain::{ChannelKey, PayloadKind};
use compa::registry::{AppState, Channel, ChannelStore, ChannelStorePort};
use compa::session::{consumer_frames, ingest_step, IngestAction, IngestEvent};

fn publish(chan: &Channel, frame: &str) {
    match ingest_step(IngestEvent::Text(frame.to_string())) {
        IngestAction::Publish(v) => {
            *chan.last.blocking_write() = Some(v.clone());
            let _ = chan.tx.send(v);
        }
        _ => panic!("a text frame must be published"),
    }
}

#[test]
fn same_key_gives_same_channel() {
    let mut store = ChannelStore::new();
    let key = ChannelKey::new("device-7", PayloadKind::CoreMotion);
    let a = store.get_or_create(&key);
    let b = store.get_or_create(&key.duplicate());
    assert_eq!(a.serial(), b.serial());
    assert!(a.tx.same_channel(&b.tx));
    assert!(std::sync::Arc::ptr_eq(&a.last, &b.last));
}

#[test]
fn distinct_keys_give_distinct_channels() {
    let mut store = ChannelStore::new();
    let a = store.get_or_create(&ChannelKey::new("device-7", PayloadKind::CoreMotion));
    let b = store.get_or_create(&ChannelKey::new("device-7", PayloadKind::PadCoordinates));
    let c = store.get_or_create(&ChannelKey::new("device-8", PayloadKind::CoreMotion));
    assert_eq!((a.serial(), b.serial(), c.serial()), (0, 1, 2));
    assert!(!a.tx.same_channel(&b.tx));
    assert!(!a.tx.same_channel(&c.tx));
}

#[test]
fn concurrent_first_touches_share_one_channel() {
    let state = std::sync::Arc::new(std::sync::Mutex::new(AppState { channels: ChannelStore::new() }));
    let rt = tokio::runtime::Builder::new_multi_thread().worker_threads(4).build().unwrap();
    let mut handles = Vec::new();
    for _ in 0..8 {
        let state = state.clone();
        handles.push(rt.spawn(async move {
            state.lock().unwrap().get_or_create_channel("device-7", PayloadKind::CoreMotion)
        }));
    }
    let chans: Vec<Channel> = handles.into_iter().map(|h| rt.block_on(h).unwrap()).collect();
    for c in &chans {
        assert_eq!(c.serial(), chans[0].serial());
        assert!(c.tx.same_channel(&chans[0].tx));
    }
}

#[test]
fn publish_on_one_key_is_not_seen_on_another() {
    let mut state = AppState { channels: ChannelStore::new() };
    let a = state.get_or_create_channel("device-7", PayloadKind::CoreMotion);
    let b = state.get_or_create_channel("device-9", PayloadKind::CoreMotion);
    let mut rx_b = b.tx.subscribe();
    publish(&a, "{x:1}");
    assert!(rx_b.try_recv().is_err());
    assert_eq!(*b.last.blocking_read(), None);
}

#[test]
fn late_subscriber_gets_latest_value_first() {
    let mut state = AppState { channels: ChannelStore::new() };
    let producer = state.get_or_create_channel("device-7", PayloadKind::CoreMotion);
    publish(&producer, "{x:1}");
    publish(&producer, "{x:2}");
    let s1 = state.get_or_create_channel("device-7", PayloadKind::CoreMotion);
    let _rx = s1.tx.subscribe();
    let snapshot = s1.last.blocking_read().clone();
    let frames = consumer_frames(snapshot, &vec![]);
    assert_eq!(frames, vec!["{x:2}".to_string()]);
}

#[test]
fn early_subscriber_gets_no_warm_start() {
    let mut state = AppState { channels: ChannelStore::new() };
    let s2 = state.get_or_create_channel("device-7", PayloadKind::CoreMotion);
    let mut rx = s2.tx.subscribe();
    let snapshot = s2.last.blocking_read().clone();
    assert_eq!(snapshot, None);
    let producer = state.get_or_create_channel("device-7", PayloadKind::CoreMotion);
    publish(&producer, "{x:3}");
    let live = vec![rx.try_recv().unwrap()];
    let frames = consumer_frames(snapshot, &live);
    assert_eq!(frames, vec!["{x:3}".to_string()]);
}

#[test]
fn two_subscribers_see_the_same_sequence() {
    let mut state = AppState { channels: ChannelStore::new() };
    let chan = state.get_or_create_channel("pad-1", PayloadKind::PadCoordinates);
    let mut rx1 = chan.tx.subscribe();
    let mut rx2 = chan.tx.subscribe();
    for v in ["a", "b", "c"] {
        publish(&chan, v);
    }
    let mut l1 = Vec::new();
    let mut l2 = Vec::new();
    while let Ok(v) = rx1.try_recv() {
        l1.push(v);
    }
    while let Ok(v) = rx2.try_recv() {
        l2.push(v);
    }
    let f1 = consumer_frames(None, &l1);
    let f2 = consumer_frames(None, &l2);
    assert_eq!(f1, vec!["a".to_string(), "b".to_string(), "c".to_string()]);
    assert_eq!(f1, f2);
}

#[test]
fn default_store_starts_empty_and_serves_through_the_port() {
    let mut store = ChannelStore::default();
    assert!(store.has_room());
    let key = ChannelKey::new("device-1", PayloadKind::PadCoordinates);
    let a = ChannelStorePort::get_or_create(&mut store, &key);
    let b = ChannelStorePort::get_or_create(&mut store, &key);
    assert_eq!((a.serial(), b.serial()), (0, 0));
    let c = ChannelStorePort::get_or_create(&mut store, &ChannelKey::new("device-2", PayloadKind::PadCoordinates));
    assert_eq!(c.serial(), 1);
}
