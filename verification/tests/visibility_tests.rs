use std::cell::RefCell;
use std::rc::Rc;

use mafia::action::ActionMessage;
use mafia::player::{Player, PlayerState};
use mafia::player_connection::PlayerConnection;
use mafia::response::Response;
use mafia::util::{basic_visible, message_basic, message_if, visible_targets};
use mafia::Error;

#[derive(Clone)]
struct RecConn {
    log: Rc<RefCell<Vec<String>>>,
}

impl RecConn {
    fn new() -> (RecConn, Rc<RefCell<Vec<String>>>) {
        let log = Rc::new(RefCell::new(Vec::new()));
        (RecConn { log: log.clone() }, log)
    }
}

impl PlayerConnection for RecConn {
    fn send(&self, r: Response) {
        self.log.borrow_mut().push(r.to_json());
    }

    fn is_alive(&self) -> bool {
        true
    }
}

fn roster() -> (Vec<Player<RecConn>>, Vec<Rc<RefCell<Vec<String>>>>) {
    let names = ["alice", "bob", "carol", "dave"];
    let states = [
        PlayerState::Alive,
        PlayerState::Alive,
        PlayerState::Dead,
        PlayerState::Dead,
    ];
    let mut players = Vec::new();
    let mut logs = Vec::new();
    for (i, name) in names.iter().enumerate() {
        let (conn, log) = RecConn::new();
        let mut p: Player<RecConn> =
            Player::new(name.to_string(), format!("sec-{}", name));
        p.state = states[i];
        p.connection = Some(conn);
        players.push(p);
        logs.push(log);
    }
    (players, logs)
}

#[test]
fn visibility_rule_on_liveness_pairs() {
    let alive = PlayerState::Alive;
    let dead = PlayerState::Dead;
    assert!(basic_visible(alive, alive));
    assert!(!basic_visible(alive, dead));
    assert!(!basic_visible(dead, alive));
    assert!(basic_visible(dead, dead));
}

#[test]
fn visible_targets_of_living_and_dead_senders() {
    let (players, _logs) = roster();
    assert_eq!(visible_targets(&players, 0), vec![0, 1]);
    assert_eq!(visible_targets(&players, 1), vec![0, 1]);
    assert_eq!(visible_targets(&players, 2), vec![2, 3]);
    assert_eq!(visible_targets(&players, 3), vec![2, 3]);
}

#[test]
fn living_sender_reaches_the_living_and_never_the_dead() {
    let (players, logs) = roster();
    let r = message_basic("alice", ActionMessage { text: "hi".to_string() }, &players);
    assert!(r.is_ok());
    let expected = "{\"type\":\"Message\",\"from\":\"alice\",\"text\":\"hi\"}".to_string();
    assert_eq!(logs[0].borrow().as_slice(), [expected.clone()]);
    assert_eq!(logs[1].borrow().as_slice(), [expected]);
    assert!(logs[2].borrow().is_empty());
    assert!(logs[3].borrow().is_empty());
}

#[test]
fn dead_sender_reaches_only_the_dead() {
    let (players, logs) = roster();
    let r = message_basic("carol", ActionMessage { text: "boo".to_string() }, &players);
    assert!(r.is_ok());
    let expected = "{\"type\":\"Message\",\"from\":\"carol\",\"text\":\"boo\"}".to_string();
    assert!(logs[0].borrow().is_empty());
    assert!(logs[1].borrow().is_empty());
    assert_eq!(logs[2].borrow().as_slice(), [expected.clone()]);
    assert_eq!(logs[3].borrow().as_slice(), [expected]);
}

#[test]
fn unknown_sender_fails_and_nothing_is_delivered() {
    let (players, logs) = roster();
    let r = message_basic("ghost", ActionMessage { text: "hi".to_string() }, &players);
    assert!(matches!(r, Err(Error::InvalidPlayerName(n)) if n == "ghost"));
    for log in &logs {
        assert!(log.borrow().is_empty());
    }
}

#[test]
fn message_if_with_a_condition_that_admits_nobody() {
    let (players, logs) = roster();
    let r = message_if(
        "alice",
        ActionMessage { text: "hi".to_string() },
        &players,
        |_a: PlayerState, _b: PlayerState| false,
    );
    assert!(r.is_ok());
    for log in &logs {
        assert!(log.borrow().is_empty());
    }
}

#[test]
fn unreachable_players_are_skipped_silently() {
    let (mut players, logs) = roster();
    players[1].connection = None;
    let r = message_basic("alice", ActionMessage { text: "hi".to_string() }, &players);
    assert!(r.is_ok());
    assert_eq!(logs[0].borrow().len(), 1);
    assert!(logs[1].borrow().is_empty());
    assert!(logs[2].borrow().is_empty());
}

#[test]
fn message_json_with_and_without_sender() {
    let r = Response::message(Some("alice".to_string()), "hi".to_string());
    assert_eq!(r.to_json(), "{\"type\":\"Message\",\"from\":\"alice\",\"text\":\"hi\"}");
    let anon = Response::message(None, "hello".to_string());
    assert_eq!(anon.to_json(), "{\"type\":\"Message\",\"from\":null,\"text\":\"hello\"}");
}

#[test]
fn message_json_escapes_special_characters() {
    let r = Response::message(
        Some("a\"b".to_string()),
        "line1\nline2\t\\end \u{1}".to_string(),
    );
    assert_eq!(
        r.to_json(),
        "{\"type\":\"Message\",\"from\":\"a\\\"b\",\"text\":\"line1\\nline2\\t\\\\end \\u0001\"}"
    );
    let ctl = Response::message(None, "\u{8}\u{c}\r\u{1f}".to_string());
    assert_eq!(
        ctl.to_json(),
        "{\"type\":\"Message\",\"from\":null,\"text\":\"\\b\\f\\r\\u001f\"}"
    );
}

#[test]
fn error_json_names_the_kind_and_player() {
    let r: Response = Response::from(Error::InvalidSession);
    assert_eq!(r.to_json(), "{\"type\":\"Error\",\"error\":\"InvalidSession\"}");
    let taken: Response = Response::from(Error::PlayerNameTaken("bob".to_string()));
    assert_eq!(
        taken.to_json(),
        "{\"type\":\"Error\",\"error\":\"PlayerNameTaken\",\"name\":\"bob\"}"
    );
    let bad: Response = Response::from(Error::InvalidPlayerName("eve".to_string()));
    assert_eq!(
        bad.to_json(),
        "{\"type\":\"Error\",\"error\":\"InvalidPlayerName\",\"name\":\"eve\"}"
    );
    let internal: Response = Response::from(Error::InternalError);
    assert_eq!(internal.to_json(), "{\"type\":\"Error\",\"error\":\"InternalError\"}");
    let secret: Response = Response::from(Error::InvalidSecret);
    assert_eq!(secret.to_json(), "{\"type\":\"Error\",\"error\":\"InvalidSecret\"}");
    let wrong: Response = Response::from(Error::WrongStateForAction);
    assert_eq!(wrong.to_json(), "{\"type\":\"Error\",\"error\":\"WrongStateForAction\"}");
}

#[test]
fn errors_describe_themselves() {
    assert_eq!(
        Error::InvalidPlayerName("eve".to_string()).describe(),
        "invalid player name: eve"
    );
    assert_eq!(Error::InvalidSession.describe(), "invalid session id");
    assert_eq!(Error::InvalidSecret.describe(), "invalid secret");
    assert_eq!(
        Error::PlayerNameTaken("bob".to_string()).describe(),
        "name bob is already taken!"
    );
    assert_eq!(Error::InternalError.describe(), "internal error");
    assert_eq!(Error::WrongStateForAction.describe(), "wrong state for action");
}

#[test]
fn errors_compare_by_kind_and_name() {
    assert_eq!(Error::InvalidSession, Error::InvalidSession);
    assert_ne!(Error::InvalidSession, Error::InternalError);
    assert_eq!(
        Error::PlayerNameTaken("bob".to_string()),
        Error::PlayerNameTaken("bob".to_string())
    );
    assert_ne!(
        Error::PlayerNameTaken("bob".to_string()),
        Error::PlayerNameTaken("eve".to_string())
    );
    assert_ne!(
        Error::PlayerNameTaken("bob".to_string()),
        Error::InvalidPlayerName("bob".to_string())
    );
}
