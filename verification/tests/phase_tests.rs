use mafia::action::{ActionE, ActionMessage};
use mafia::phases::{Evening, LastWords, Lobby, Morning, Night, Vote};
use mafia::player_connection::PlayerConnection;
use mafia::response::Response;
use mafia::ruleset::{deadline_add, Ruleset};
use mafia::state::{Phase, State};
use mafia::Error;

#[derive(Clone)]
struct NullConn;

impl PlayerConnection for NullConn {
    fn send(&self, _r: Response) {}

    fn is_alive(&self) -> bool {
        true
    }
}

fn fresh_state() -> State<NullConn> {
    State::new_at(
        Ruleset { morning_limit: Some(300), vote_limit: Some(90) },
        "alice".to_string(),
        "sec-alice".to_string(),
        1000,
    )
}

#[test]
fn same_phase_goes_by_variant_alone() {
    let m = Phase::Morning(Morning {});
    let m2 = Phase::Morning(Morning {});
    let v = Phase::Vote(Vote { votes: vec![] });
    let v2 = Phase::Vote(Vote {
        votes: vec![("alice".to_string(), "bob".to_string())],
    });
    assert!(m.same_phase(&m2));
    assert!(v.same_phase(&v2));
    assert!(!m.same_phase(&v));
    assert!(!v.same_phase(&m));
    assert!(Phase::Lobby(Lobby {}).same_phase(&Phase::Lobby(Lobby {})));
    assert!(Phase::Evening(Evening {}).same_phase(&Phase::Evening(Evening {})));
    assert!(Phase::Night(Night {}).same_phase(&Phase::Night(Night {})));
    assert!(Phase::LastWords(LastWords {}).same_phase(&Phase::LastWords(LastWords {})));
    assert!(!Phase::Lobby(Lobby {}).same_phase(&Phase::Night(Night {})));
}

#[test]
fn advance_of_matching_morning_yields_the_vote() {
    let mut s = fresh_state();
    s.root.vote_skip.push("alice".to_string());
    s.advance_at(&Phase::Morning(Morning {}), 2000);
    assert!(s.root.vote_skip.is_empty());
    assert_eq!(s.root.next_state_time, Some(2090));
    assert!(matches!(&s.phase, Phase::Vote(v) if v.votes.is_empty()));
    assert_eq!(s.root.players.len(), 1);
}

#[test]
fn duplicate_signal_after_the_phase_moved_on_is_ignored() {
    let mut s = fresh_state();
    s.advance_at(&Phase::Morning(Morning {}), 2000);
    assert!(matches!(s.phase, Phase::Vote(_)));
    // The morning's timeout fires a second time, late: the phase has
    // legitimately moved on, so nothing may change.
    s.advance_at(&Phase::Morning(Morning {}), 2500);
    assert!(matches!(s.phase, Phase::Vote(_)));
    assert_eq!(s.root.next_state_time, Some(2090));
}

#[test]
fn stale_advance_signal_has_no_effect() {
    let mut s = fresh_state();
    // The phase that scheduled a vote timeout has since moved on: a
    // late signal carrying the old phase must change nothing.
    s.phase = Phase::Vote(Vote { votes: vec![] });
    s.root.next_state_time = Some(5000);
    s.root.vote_skip.push("alice".to_string());
    s.advance_at(&Phase::Morning(Morning {}), 9000);
    assert!(matches!(s.phase, Phase::Vote(_)));
    assert_eq!(s.root.next_state_time, Some(5000));
    assert_eq!(s.root.vote_skip.len(), 1);
    // A duplicate of the same stale signal is just as ineffective.
    s.advance_at(&Phase::Morning(Morning {}), 9001);
    assert_eq!(s.root.next_state_time, Some(5000));
}

#[test]
fn morning_handle_action_broadcasts_and_keeps_state() {
    let mut s = fresh_state();
    let r = s.handle_action(
        "alice".to_string(),
        ActionE::Message(ActionMessage { text: "hi".to_string() }),
    );
    assert!(r.is_ok());
    assert_eq!(s.root.players.len(), 1);
    assert!(matches!(s.phase, Phase::Morning(_)));
}

#[test]
fn handle_action_from_unknown_sender_fails() {
    let mut s = fresh_state();
    let r = s.handle_action(
        "ghost".to_string(),
        ActionE::Message(ActionMessage { text: "hi".to_string() }),
    );
    assert!(matches!(r, Err(Error::InvalidPlayerName(n)) if n == "ghost"));
}

#[test]
fn handle_action_outside_morning_is_refused() {
    let mut s = fresh_state();
    s.phase = Phase::Night(Night {});
    let r = s.handle_action(
        "alice".to_string(),
        ActionE::Message(ActionMessage { text: "hi".to_string() }),
    );
    assert!(matches!(r, Err(Error::WrongStateForAction)));
}

#[test]
fn morning_next_phase_hands_over_to_the_vote() {
    let root = fresh_state().root;
    let (p, root2) = Morning {}.next_phase_at(root, 4000);
    assert!(matches!(&p, Phase::Vote(v) if v.votes.is_empty()));
    assert!(root2.vote_skip.is_empty());
    assert_eq!(root2.next_state_time, Some(4090));
    assert_eq!(root2.day, 1);
    assert_eq!(root2.players.len(), 1);
}

#[test]
fn deadline_arithmetic_is_exact_and_clamped() {
    assert_eq!(deadline_add(10, 20), 30);
    assert_eq!(deadline_add(0, 0), 0);
    assert_eq!(deadline_add(-50, 20), -30);
    assert_eq!(deadline_add(i64::MAX - 5, 10), i64::MAX);
    assert_eq!(deadline_add(i64::MIN + 5, -10), i64::MIN);
}

#[test]
fn ruleset_deadlines_follow_limits() {
    let rules = Ruleset { morning_limit: Some(300), vote_limit: None };
    assert_eq!(rules.morning_end_at(1000), Some(1300));
    assert_eq!(rules.vote_end_at(1000), None);
    let d = Ruleset::default();
    assert_eq!(d.morning_limit, Some(300));
    assert_eq!(d.vote_limit, Some(90));
    assert!(d.morning_end().is_some());
}
