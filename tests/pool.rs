use dbcapi::coordinator::{SubscribeRequest, SubscriptionState};
use dbcapi::message::{Message, MessagePool, PoolError};
use dbcapi::signal::{ByteOrder, Signal, SignalDef, SignalValue, ValueKind};
use dbcapi::types::{BcmOpCode, CanBmcData, CanFrame, DataStatus, SubscribeFlag};

fn sig(name: &str, start: usize, width: usize) -> Signal {
    Signal::new(SignalDef {
        name: name.to_string(),
        start,
        width,
        order: ByteOrder::LittleEndian,
        kind: ValueKind::Unsigned,
        factor: 1,
        offset: 0,
        scale: 1,
        min: None,
        max: None,
        variants: Vec::new(),
    })
}

fn message(id: u32) -> Message {
    Message::new(id, format!("msg{}", id), vec![sig("a", 0, 8), sig("b", 8, 8)])
}

fn pool() -> MessagePool {
    MessagePool::new(vec![message(280), message(599), message(614)]).unwrap()
}

#[test]
fn pool_lists_ids_in_order() {
    let p = pool();
    assert_eq!(p.get_ids(), vec![280, 599, 614]);
    assert_eq!(p.get_messages().len(), 3);
    assert_eq!(p.find(599), Ok(1));
    assert_eq!(p.find(614), Ok(2));
    assert_eq!(p.find(280), Ok(0));
    assert_eq!(p.find(281), Err(PoolError::NotFound));
    assert_eq!(p.find(0), Err(PoolError::NotFound));
    assert_eq!(p.find(u32::MAX), Err(PoolError::NotFound));
}

#[test]
fn pool_refuses_unsorted_ids() {
    assert_eq!(MessagePool::new(vec![message(599), message(280)]).err(), Some(PoolError::UnsortedIds));
    assert_eq!(MessagePool::new(vec![message(280), message(280)]).err(), Some(PoolError::UnsortedIds));
    assert!(MessagePool::new(vec![]).is_ok());
}

#[test]
fn pool_update_dispatches_by_id() {
    let mut p = pool();
    let f = CanFrame::new(599, 77, BcmOpCode::RxChanged, vec![3, 4, 0, 0, 0, 0, 0, 0]);
    assert_eq!(p.update(&f), Ok(1));
    let m = &p.get_messages()[1];
    assert_eq!(m.get_stamp(), 77);
    assert_eq!(m.get_status(), BcmOpCode::RxChanged);
    assert_eq!(m.get_signals()[0].get_value(), SignalValue::Number(3));
    assert_eq!(m.get_signals()[1].get_value(), SignalValue::Number(4));
    assert_eq!(p.get_messages()[0].get_signals()[0].get_status(), DataStatus::Unset);
    let unknown = CanFrame::new(1, 1, BcmOpCode::RxChanged, vec![1; 8]);
    assert_eq!(p.update(&unknown), Err(PoolError::NotFound));
}

#[test]
fn pool_update_from_source_frame() {
    let mut p = pool();
    let d = CanBmcData::new(614, BcmOpCode::RxChanged, 5, vec![9, 0], 2);
    assert_eq!(p.update_from(&d), Ok(2));
    assert_eq!(p.get_messages()[2].get_signals()[0].get_value(), SignalValue::Number(9));
}

#[test]
fn message_tally_sums_signal_listeners() {
    let mut m = message(280);
    m.register(None, None);
    let f = CanFrame::new(280, 600_000, BcmOpCode::RxChanged, vec![1, 2]);
    m.update(&f);
    assert_eq!(m.get_listeners(), 0);
    assert!(m.signals[0].publish_due && m.signals[1].publish_due);
    m.record_signal_publication(0, 2);
    m.record_signal_publication(1, 5);
    assert_eq!(m.get_listeners(), 7);
    m.update(&CanFrame::new(280, 600_001, BcmOpCode::RxChanged, vec![1, 3]));
    assert_eq!(m.get_listeners(), 7);
}

#[test]
fn message_reset_clears_signals() {
    let mut m = message(280);
    m.update(&CanFrame::new(280, 9, BcmOpCode::RxChanged, vec![1, 2]));
    m.reset();
    assert_eq!(m.get_status(), BcmOpCode::Unknown);
    assert_eq!(m.get_stamp(), 0);
    for s in m.get_signals() {
        assert_eq!(s.get_status(), DataStatus::Unset);
        assert_eq!(s.get_value(), SignalValue::Number(0));
        assert_eq!(s.get_stamp(), 0);
    }
    assert_eq!(m.get_id(), 280);
    assert_eq!(m.get_name(), "msg280");
}

#[test]
fn select_signals_by_flag() {
    let mut m = message(280);
    m.update(&CanFrame::new(280, 9, BcmOpCode::RxChanged, vec![0, 2]));
    assert_eq!(m.select_signals(SubscribeFlag::ALL), vec![0, 1]);
    assert_eq!(m.select_signals(SubscribeFlag::NEW), vec![1]);
    let snap = m.snapshot();
    assert_eq!(snap.canid, 280);
    assert_eq!(snap.stamp, 9);
}

#[test]
fn listener_teardown_after_silent_publication() {
    let mut m = message(280);
    m.register(None, None);
    let p = m.subscribe(SubscribeRequest { rate: Some(100), watchdog: None, flag: None });
    assert!(p.is_some());
    m.update(&CanFrame::new(280, 1, BcmOpCode::RxChanged, vec![1, 1]));
    assert_eq!(m.get_listeners(), 0);
    let u = m.after_publish(0).expect("one unsubscription");
    assert_eq!(u.get_canids(), &vec![280]);
    let info = m.listener.unwrap();
    assert_eq!((info.stamp, info.rate, info.watchdog), (0, 0, 0));
    // a second silent publication asks again, a heard one does not
    assert!(m.after_publish(0).is_some());
    assert!(m.after_publish(1).is_none());
}

#[test]
fn publication_heard_keeps_subscription() {
    let mut m = message(280);
    m.register(Some(50), Some(900));
    let before: SubscriptionState = m.listener.unwrap();
    assert_eq!((before.rate, before.watchdog), (50, 900));
    assert!(m.after_publish(2).is_none());
    assert_eq!(m.listener.unwrap(), before);
}

#[test]
fn signal_subscription_tightens_both_levels() {
    let mut m = message(280);
    m.register(None, None);
    let p = m
        .subscribe_signal(1, SubscribeRequest { rate: Some(250), watchdog: Some(5000), flag: Some(SubscribeFlag::ALL) })
        .expect("first subscription goes upstream");
    assert_eq!(p.get_canids(), &vec![280]);
    assert_eq!((p.get_rate(), p.get_watchdog(), p.flag), (250, 5000, SubscribeFlag::ALL));
    let s = m.signals[1].listener.unwrap();
    assert_eq!((s.rate, s.watchdog, s.listeners), (250, 5000, 1));
    assert_eq!(m.signals[0].listener.unwrap(), SubscriptionState::new());
    let again = m.subscribe_signal(1, SubscribeRequest { rate: Some(300), watchdog: None, flag: None });
    assert!(again.is_none());
    assert_eq!(m.signals[1].listener.unwrap().listeners, 2);
    assert_eq!(m.listener.unwrap().rate, 250);
}
