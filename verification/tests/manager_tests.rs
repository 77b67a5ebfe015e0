use std::cell::RefCell;
use std::rc::Rc;

use mafia::action::{ActionE, ActionMessage};
use mafia::connection::{should_unregister, takeover_terminate, ConnRef};
use mafia::managers::{ConnectionManager, SessionManager, WebsocketAuth};
use mafia::player_connection::PlayerConnection;
use mafia::response::Response;
use mafia::Error;

#[derive(Clone)]
struct RecConn {
    tag: u32,
    log: Rc<RefCell<Vec<String>>>,
}

impl RecConn {
    fn new(tag: u32) -> (RecConn, Rc<RefCell<Vec<String>>>) {
        let log = Rc::new(RefCell::new(Vec::new()));
        (RecConn { tag, log: log.clone() }, log)
    }
}

impl PlayerConnection for RecConn {
    fn send(&self, r: Response) {
        self.log.borrow_mut().push(r.to_json());
    }

    fn is_alive(&self) -> bool {
        true
    }
}

#[test]
fn end_to_end_create_join_connect_and_message() {
    let mut sm: SessionManager<RecConn> = SessionManager::default();
    let created = sm.create_session("alice".to_string());
    let sid = created.session_id.clone();
    assert_eq!(sid.len(), 36);
    assert_eq!(created.secret.len(), 36);

    let joined = sm.join_session(&sid, "bob".to_string()).unwrap();
    assert_eq!(joined.session_id, sid);
    assert_eq!(joined.secret.len(), 36);

    // Both transports authenticate by secret and register themselves.
    let alice = sm
        .authenticate(&WebsocketAuth { session: sid.clone(), secret: created.secret.clone() })
        .unwrap();
    assert_eq!(alice, "alice");
    let bob = sm
        .authenticate(&WebsocketAuth { session: sid.clone(), secret: joined.secret.clone() })
        .unwrap();
    assert_eq!(bob, "bob");

    let (conn_a, log_a) = RecConn::new(1);
    let (conn_b, log_b) = RecConn::new(2);
    sm.register_connection(&sid, alice.clone(), Some(conn_a));
    sm.register_connection(&sid, bob.clone(), Some(conn_b));

    let r = sm.handle_action(
        &sid,
        "alice".to_string(),
        ActionE::Message(ActionMessage { text: "hi".to_string() }),
    );
    assert!(r.is_ok());

    let expected = "{\"type\":\"Message\",\"from\":\"alice\",\"text\":\"hi\"}";
    assert_eq!(log_b.borrow().as_slice(), [expected.to_string()]);
    // A living sender is heard by every living player, themselves included.
    assert_eq!(log_a.borrow().as_slice(), [expected.to_string()]);
}

#[test]
fn join_of_unknown_session_is_invalid() {
    let mut sm: SessionManager<RecConn> = SessionManager::default();
    let r = sm.join_session("unknown-id", "carol".to_string());
    assert!(matches!(r, Err(Error::InvalidSession)));
}

#[test]
fn second_join_under_same_name_is_taken() {
    let mut sm: SessionManager<RecConn> = SessionManager::default();
    let created = sm.create_session("alice".to_string());
    let sid = created.session_id;
    assert!(sm.join_session(&sid, "bob".to_string()).is_ok());
    let r = sm.join_session(&sid, "bob".to_string());
    assert!(matches!(r, Err(Error::PlayerNameTaken(n)) if n == "bob"));
}

#[test]
fn authenticate_rejects_bad_session_and_bad_secret() {
    let mut sm: SessionManager<RecConn> = SessionManager::default();
    let created = sm.create_session("alice".to_string());
    let r = sm.authenticate(&WebsocketAuth {
        session: "no-such-session".to_string(),
        secret: created.secret.clone(),
    });
    assert!(matches!(r, Err(Error::InvalidSession)));
    let r2 = sm.authenticate(&WebsocketAuth {
        session: created.session_id.clone(),
        secret: "wrong".to_string(),
    });
    assert!(matches!(r2, Err(Error::InvalidSecret)));
}

#[test]
fn handle_action_on_unknown_session_is_invalid() {
    let mut sm: SessionManager<RecConn> = SessionManager::default();
    let r = sm.handle_action(
        "nowhere",
        "alice".to_string(),
        ActionE::Message(ActionMessage { text: "hi".to_string() }),
    );
    assert!(matches!(r, Err(Error::InvalidSession)));
}

#[test]
fn reconnect_terminates_the_prior_live_connection() {
    let mut sm: SessionManager<RecConn> = SessionManager::default();
    let created = sm.create_session("alice".to_string());
    let sid = created.session_id.clone();

    let (c1, _log1) = RecConn::new(1);
    sm.register_connection(&sid, "alice".to_string(), Some(c1));
    let prior = sm.get_connection(&sid, "alice").map(|c| ConnRef {
        id: "conn-1".to_string(),
        alive: c.is_alive(),
    });
    // The new transport terminates exactly the live predecessor ...
    assert_eq!(takeover_terminate(&prior), Some("conn-1".to_string()));
    // ... and takes the slot over.
    let (c2, _log2) = RecConn::new(2);
    sm.register_connection(&sid, "alice".to_string(), Some(c2));
    assert_eq!(sm.get_connection(&sid, "alice").unwrap().tag, 2);
}

#[test]
fn takeover_decision_spares_dead_and_absent_predecessors() {
    assert_eq!(takeover_terminate(&None), None);
    assert_eq!(
        takeover_terminate(&Some(ConnRef { id: "c9".to_string(), alive: false })),
        None
    );
    assert_eq!(
        takeover_terminate(&Some(ConnRef { id: "c9".to_string(), alive: true })),
        Some("c9".to_string())
    );
}

#[test]
fn shutdown_race_leaves_the_successor_registered() {
    let c1_id = "conn-1".to_string();
    // Takeover first: the stopping connection sees its successor's
    // registration and must not clear it.
    let current = Some(ConnRef { id: "conn-2".to_string(), alive: true });
    assert!(!should_unregister(&current, &c1_id));
    // Cleanup first: an empty slot, or its own live registration, may
    // be cleared; the successor then registers after.
    assert!(should_unregister(&None, &c1_id));
    assert!(should_unregister(&Some(ConnRef { id: "conn-1".to_string(), alive: true }), &c1_id));
    // A registration whose transport is already gone is left alone.
    assert!(!should_unregister(&Some(ConnRef { id: "conn-1".to_string(), alive: false }), &c1_id));
}

#[test]
fn connection_registry_inserts_overwrites_and_removes() {
    let mut cm: ConnectionManager<u32> = ConnectionManager::default();
    cm.connect("a".to_string(), 1);
    cm.connect("b".to_string(), 2);
    assert_eq!(cm.connections.len(), 2);
    cm.connect("a".to_string(), 3);
    assert_eq!(cm.connections.len(), 2);
    assert_eq!(cm.connections[0], ("a".to_string(), 3));
    cm.disconnect("a");
    assert_eq!(cm.connections.len(), 1);
    assert_eq!(cm.connections[0], ("b".to_string(), 2));
    cm.disconnect("ghost");
    assert_eq!(cm.connections.len(), 1);
}

#[test]
fn connection_entity_keeps_its_player_name() {
    let c = mafia::connection::Connection::new("alice".to_string());
    assert_eq!(c.name, "alice");
    assert_eq!(c.id.len(), 36);
    let c2 = mafia::connection::Connection::new("alice".to_string());
    assert_ne!(c.id, c2.id);
}
