use std::sync::{Arc, Mutex};

use cushion_notify::click::{ClickAction, NotificationClick};
use cushion_notify::commands::{show_notification, NotificationError};
use cushion_notify::links::{route_click, ClickRoute};
use cushion_notify::manager::{ManagerSlot, NotificationManager};

type Callback = Box<dyn Fn(NotificationClick) + Send + Sync>;

fn recording_callback(log: Arc<Mutex<Vec<String>>>, tag: &'static str) -> Callback {
    Box::new(move |click: NotificationClick| {
        let url = click.url.clone().unwrap_or_default();
        log.lock().unwrap().push(format!("{}:{}:{}", tag, click.id, url));
    })
}

#[test]
fn click_right_after_show_sees_the_url() {
    let mut m: NotificationManager<Callback> = NotificationManager::new();
    let req = m.show_notification(
        "n1".to_string(),
        "Title".to_string(),
        "Body".to_string(),
        Some("cushion://doc/42".to_string()),
    );
    assert_eq!(req.id, "n1");
    assert_eq!(req.title, "Title");
    assert_eq!(req.body, "Body");
    let click = m.resolve_click("n1".to_string(), ClickAction::Body);
    assert_eq!(click.id, "n1");
    assert_eq!(click.url, Some("cushion://doc/42".to_string()));
    assert!(matches!(click.action, ClickAction::Body));
}

#[test]
fn show_without_url_records_nothing() {
    let mut m: NotificationManager<Callback> = NotificationManager::new();
    m.show_notification("n2".to_string(), "T".to_string(), "B".to_string(), None);
    assert_eq!(m.get_metadata("n2"), None);
}

#[test]
fn storing_twice_keeps_the_last_url() {
    let mut m: NotificationManager<Callback> = NotificationManager::new();
    m.store_metadata("a".to_string(), "cushion://one".to_string());
    m.store_metadata("b".to_string(), "cushion://two".to_string());
    m.store_metadata("a".to_string(), "cushion://three".to_string());
    assert_eq!(m.get_metadata("a"), Some("cushion://three".to_string()));
    assert_eq!(m.get_metadata("b"), Some("cushion://two".to_string()));
}

#[test]
fn unknown_id_resolves_to_none() {
    let mut m: NotificationManager<Callback> = NotificationManager::new();
    m.store_metadata("known".to_string(), "cushion://x".to_string());
    let click = m.resolve_click("never-shown".to_string(), ClickAction::Body);
    assert_eq!(click.url, None);
    assert!(matches!(route_click(click), ClickRoute::Focus));
}

#[test]
fn unknown_id_still_dispatches_with_no_url() {
    let log = Arc::new(Mutex::new(Vec::new()));
    let mut m: NotificationManager<Callback> = NotificationManager::new();
    m.set_callback(recording_callback(log.clone(), "cb"));
    assert!(m.handle_click("ghost".to_string(), ClickAction::Body));
    assert_eq!(*log.lock().unwrap(), vec!["cb:ghost:".to_string()]);
}

#[test]
fn default_policy_on_manager_state() {
    let mut m: NotificationManager<Callback> = NotificationManager::new();
    m.show_notification("good".to_string(), "T".to_string(), "B".to_string(), Some("https://cushion.so/y".to_string()));
    m.show_notification("bad".to_string(), "T".to_string(), "B".to_string(), Some("https://evil.com/y".to_string()));
    match m.route_default_click("good".to_string(), ClickAction::Body) {
        ClickRoute::NavigateAndFocus(u) => assert_eq!(u, "https://cushion.so/y"),
        _ => panic!("recorded app link not emitted"),
    }
    match m.route_default_click("bad".to_string(), ClickAction::Button("open".to_string())) {
        ClickRoute::RejectAndFocus(u) => assert_eq!(u, "https://evil.com/y"),
        _ => panic!("recorded foreign link not rejected"),
    }
    assert!(matches!(m.route_default_click("good".to_string(), ClickAction::Dismiss), ClickRoute::Dismissed));
    assert!(matches!(m.route_default_click("unknown".to_string(), ClickAction::Body), ClickRoute::Focus));
}

#[test]
fn prepared_dispatch_carries_click_and_callback() {
    let log = Arc::new(Mutex::new(Vec::new()));
    let mut m: NotificationManager<Callback> = NotificationManager::new();
    m.store_metadata("n".to_string(), "cushion://x".to_string());
    let (click, cb) = m.prepare_dispatch("n".to_string(), ClickAction::Body);
    assert!(cb.is_none());
    assert_eq!(click.url, Some("cushion://x".to_string()));
    m.set_callback(recording_callback(log.clone(), "cb"));
    let (click, cb) = m.prepare_dispatch("n".to_string(), ClickAction::Body);
    cb.unwrap()(click);
    assert_eq!(*log.lock().unwrap(), vec!["cb:n:cushion://x".to_string()]);
}

#[test]
fn click_without_callback_is_dropped() {
    let m: NotificationManager<Callback> = NotificationManager::new();
    assert!(m.callback().is_none());
    assert!(!m.handle_click("n".to_string(), ClickAction::Body));
}

#[test]
fn last_registered_callback_wins() {
    let log = Arc::new(Mutex::new(Vec::new()));
    let mut m: NotificationManager<Callback> = NotificationManager::new();
    m.show_notification("n".to_string(), "T".to_string(), "B".to_string(), Some("cushion://x".to_string()));
    m.set_callback(recording_callback(log.clone(), "A"));
    m.set_callback(recording_callback(log.clone(), "B"));
    assert!(m.handle_click("n".to_string(), ClickAction::Body));
    assert_eq!(*log.lock().unwrap(), vec!["B:n:cushion://x".to_string()]);
}

#[test]
fn get_before_init_reports_not_initialized_every_time() {
    let slot: ManagerSlot<Mutex<NotificationManager<Callback>>> = ManagerSlot::new();
    assert!(slot.get().is_none());
    assert!(slot.get().is_none());
    let first = show_notification::<Callback>(None, "T".to_string(), "B".to_string(), None);
    let second = show_notification::<Callback>(None, "T".to_string(), "B".to_string(), None);
    for r in [first, second] {
        match r {
            Err(e) => {
                assert!(matches!(e, NotificationError::NotInitialized));
                assert_eq!(e.message(), "Notification manager not initialized");
            }
            Ok(_) => panic!("a manager that was never initialized showed a notification"),
        }
    }
}

#[test]
fn slot_keeps_its_first_value() {
    let mut slot: ManagerSlot<u32> = ManagerSlot::new();
    assert!(slot.init(1));
    assert!(!slot.init(2));
    assert_eq!(slot.get(), Some(&1));
}

#[test]
fn concurrent_show_and_click_on_disjoint_ids() {
    let log = Arc::new(Mutex::new(Vec::new()));
    let mut m: NotificationManager<Callback> = NotificationManager::new();
    m.set_callback(recording_callback(log.clone(), "cb"));
    for i in 0..50 {
        m.store_metadata(format!("old-{}", i), format!("cushion://old/{}", i));
    }
    let shared = Arc::new(Mutex::new(m));
    // Four writers and one clicker, interleaved in a scrambled order: each step
    // takes the lock only for one map access, as the host's command handlers
    // and the native click thread do.
    let mut next = [0usize; 4];
    let mut seed: u64 = 7;
    let mut clicks = 0;
    while next.iter().any(|&n| n < 50) {
        seed = seed.wrapping_mul(6364136223846793005).wrapping_add(1442695040888963407);
        let t = ((seed >> 33) % 5) as usize;
        if t == 4 {
            let i = (seed >> 40) as usize % 50;
            let click = shared.lock().unwrap().resolve_click(format!("old-{}", i), ClickAction::Body);
            assert_eq!(click.url, Some(format!("cushion://old/{}", i)));
            clicks += 1;
        } else if next[t] < 50 {
            let i = next[t];
            let id = format!("new-{}-{}", t, i);
            shared
                .lock()
                .unwrap()
                .show_notification(id, "T".to_string(), "B".to_string(), Some(format!("cushion://new/{}/{}", t, i)));
            next[t] += 1;
        }
    }
    assert!(clicks > 0);
    let m = shared.lock().unwrap();
    for i in 0..50 {
        assert_eq!(m.get_metadata(&format!("old-{}", i)), Some(format!("cushion://old/{}", i)));
        for t in 0..4 {
            assert_eq!(
                m.get_metadata(&format!("new-{}-{}", t, i)),
                Some(format!("cushion://new/{}/{}", t, i))
            );
        }
    }
    assert!(m.handle_click("new-3-49".to_string(), ClickAction::Dismiss));
    assert_eq!(log.lock().unwrap().last().unwrap(), "cb:new-3-49:cushion://new/3/49");
}

#[test]
fn show_command_records_url_under_fresh_id() {
    let mut m: NotificationManager<Callback> = NotificationManager::new();
    let req = show_notification(
        Some(&mut m),
        "Hello".to_string(),
        "World".to_string(),
        Some("https://app.cushion.so/inbox".to_string()),
    )
    .ok()
    .unwrap();
    assert!(req.id.starts_with("cushion-"));
    assert_eq!(req.id.len(), 44);
    assert_eq!(req.title, "Hello");
    assert_eq!(req.body, "World");
    assert_eq!(m.get_metadata(&req.id), Some("https://app.cushion.so/inbox".to_string()));
    let other = show_notification(Some(&mut m), "a".to_string(), "b".to_string(), None).ok().unwrap();
    assert_ne!(other.id, req.id);
    assert_eq!(m.get_metadata(&other.id), None);
}

#[test]
fn show_command_rejects_scheme_before_anything_else() {
    let mut m: NotificationManager<Callback> = NotificationManager::new();
    let r = show_notification(Some(&mut m), "a".to_string(), "b".to_string(), Some("javascript:alert(1)".to_string()));
    match r {
        Err(NotificationError::InvalidUrl(msg)) => assert_eq!(
            msg,
            "Notification URL scheme 'javascript' is not allowed. Allowed schemes: [\"cushion\", \"cushion-dev\", \"https\"]"
        ),
        _ => panic!("expected the URL to be refused"),
    }
    let r = show_notification::<Callback>(None, "a".to_string(), "b".to_string(), Some("ftp://x".to_string()));
    assert!(matches!(r, Err(NotificationError::InvalidUrl(_))));
}
