use std::cell::RefCell;
use std::rc::Rc;

use oxibridge::broadcast::{BroadcastReceiver, Broadcaster, MessageEvent, RelayError, Source};
use oxibridge::config::GroupConfig;

struct Probe {
    source: Source,
    fails: bool,
    calls: Rc<RefCell<Vec<String>>>,
    name: &'static str,
}

impl BroadcastReceiver for Probe {
    fn get_receiver_source(&self) -> Source {
        self.source
    }

    fn receive(&mut self, _group: &GroupConfig, event: &MessageEvent) -> Result<(), RelayError> {
        self.calls.borrow_mut().push(format!("{}:{:?}", self.name, event));
        if self.fails {
            Err(RelayError::Transport(format!("{} is down", self.name)))
        } else {
            Ok(())
        }
    }
}

fn group() -> GroupConfig {
    GroupConfig { guild: None, channel: Some(1), chat: Some(-2), readonly: false, writeonly: false }
}

fn probe(
    name: &'static str,
    source: Source,
    fails: bool,
    calls: &Rc<RefCell<Vec<String>>>,
) -> Probe {
    Probe { source, fails, calls: calls.clone(), name }
}

#[test]
fn broadcast_skips_the_origin() {
    let calls = Rc::new(RefCell::new(Vec::new()));
    let mut broadcaster = Broadcaster::init();
    broadcaster.add_receiver(probe("r1", Source::Discord, false, &calls));
    broadcaster.add_receiver(probe("r2", Source::Telegram, false, &calls));
    let result = broadcaster.broadcast(&group(), &MessageEvent::Delete(7), Source::Discord);
    assert!(result.is_ok());
    assert_eq!(*calls.borrow(), vec!["r2:Delete(7)".to_owned()]);
}

#[test]
fn broadcast_stops_at_the_first_failure() {
    let calls = Rc::new(RefCell::new(Vec::new()));
    let mut broadcaster = Broadcaster::init();
    broadcaster.add_receiver(probe("r1", Source::Discord, true, &calls));
    broadcaster.add_receiver(probe("r2", Source::Discord, false, &calls));
    let result = broadcaster.broadcast(
        &group(),
        &MessageEvent::Update(3, "x".to_owned()),
        Source::Telegram,
    );
    match result {
        Err(RelayError::Transport(reason)) => assert_eq!(reason, "r1 is down"),
        other => panic!("unexpected result {other:?}"),
    }
    assert_eq!(*calls.borrow(), vec!["r1:Update(3, \"x\")".to_owned()]);
}

#[test]
fn broadcast_delivers_in_registration_order() {
    let calls = Rc::new(RefCell::new(Vec::new()));
    let mut broadcaster = Broadcaster::init();
    broadcaster
        .add_receiver(probe("a", Source::Telegram, false, &calls))
        .add_receiver(probe("b", Source::Discord, false, &calls))
        .add_receiver(probe("c", Source::Telegram, false, &calls));
    assert_eq!(broadcaster.len(), 3);
    assert_eq!(broadcaster.source_of(0), Source::Telegram);
    assert_eq!(broadcaster.source_of(1), Source::Discord);
    let result = broadcaster.broadcast(&group(), &MessageEvent::Delete(1), Source::Discord);
    assert!(result.is_ok());
    assert_eq!(*calls.borrow(), vec!["a:Delete(1)".to_owned(), "c:Delete(1)".to_owned()]);
}

#[test]
fn broadcast_without_receivers_succeeds() {
    let mut broadcaster: Broadcaster<Probe> = Broadcaster::init();
    assert!(broadcaster.broadcast(&group(), &MessageEvent::Delete(1), Source::Discord).is_ok());
}

#[test]
fn failure_of_a_later_receiver_leaves_partial_delivery() {
    let calls = Rc::new(RefCell::new(Vec::new()));
    let mut broadcaster = Broadcaster::init();
    broadcaster
        .add_receiver(probe("a", Source::Telegram, false, &calls))
        .add_receiver(probe("b", Source::Telegram, true, &calls))
        .add_receiver(probe("c", Source::Telegram, false, &calls));
    let result = broadcaster.broadcast(&group(), &MessageEvent::Delete(1), Source::Discord);
    match result {
        Err(RelayError::Transport(reason)) => assert_eq!(reason, "b is down"),
        other => panic!("unexpected result {other:?}"),
    }
    assert_eq!(*calls.borrow(), vec!["a:Delete(1)".to_owned(), "b:Delete(1)".to_owned()]);
    // A failing receiver of the origin is never asked, so the broadcast succeeds.
    calls.borrow_mut().clear();
    let result = broadcaster.broadcast(&group(), &MessageEvent::Delete(2), Source::Telegram);
    assert!(result.is_ok());
    assert!(calls.borrow().is_empty());
}
