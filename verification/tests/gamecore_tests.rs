use mafia::gamecore::game::{Game, State};
use mafia::gamecore::lobby_state::LobbyState;
use mafia::gamecore::night_action::NightAction;
use mafia::gamecore::player::{Player, PlayerRole, PlayerState};
use mafia::gamecore::playing_state::PlayingState;
use mafia::gamecore::rules::Rules;
use mafia::gamecore::session::Session;
use mafia::gamecore::Error;

fn player(name: &str, role: PlayerRole) -> Player {
    Player::new(name.to_string()).set_role(role)
}

fn night_game() -> Game {
    Game {
        players: vec![
            player("alice", PlayerRole::Detective),
            player("bob", PlayerRole::Mafioso),
            player("carol", PlayerRole::Doctor),
            player("dave", PlayerRole::Bartender),
            player("erin", PlayerRole::Townie),
        ],
        state: State::Playing(PlayingState::gen_night(0)),
        rules: Rules::default(),
    }
}

fn night_actions(g: &Game) -> &Vec<(String, NightAction)> {
    match &g.state {
        State::Playing(PlayingState::Night { actions, .. }) => actions,
        _ => panic!("not a night"),
    }
}

#[test]
fn night_action_of_unknown_player_fails() {
    let g = night_game();
    let r = g.take_night_action("ghost".to_string(), NightAction::Idle);
    assert!(matches!(r, Err(Error::NameNotFound(n)) if n == "ghost"));
}

#[test]
fn night_action_must_suit_the_role() {
    let g = night_game();
    let r = g.take_night_action(
        "erin".to_string(),
        NightAction::Investigate("bob".to_string()),
    );
    assert!(matches!(
        r,
        Err(Error::InvalidNightAction(PlayerRole::Townie, NightAction::Investigate(t))) if t == "bob"
    ));
}

#[test]
fn each_role_takes_its_own_night_action() {
    let g = night_game();
    let g = g
        .take_night_action("alice".to_string(), NightAction::Investigate("bob".to_string()))
        .unwrap();
    let g = g
        .take_night_action("bob".to_string(), NightAction::Vote("alice".to_string()))
        .unwrap();
    let g = g
        .take_night_action("carol".to_string(), NightAction::Save("alice".to_string()))
        .unwrap();
    let g = g
        .take_night_action("dave".to_string(), NightAction::Negate("bob".to_string()))
        .unwrap();
    let g = g.take_night_action("erin".to_string(), NightAction::Idle).unwrap();
    let actions = night_actions(&g);
    assert_eq!(actions.len(), 5);
    assert_eq!(actions[0].0, "alice");
    assert!(matches!(&actions[0].1, NightAction::Investigate(t) if t == "bob"));
    assert!(matches!(&actions[4].1, NightAction::Idle));
}

#[test]
fn resubmitted_night_action_replaces_the_first() {
    let g = night_game();
    let g = g
        .take_night_action("alice".to_string(), NightAction::Investigate("bob".to_string()))
        .unwrap();
    let g = g
        .take_night_action("alice".to_string(), NightAction::Investigate("erin".to_string()))
        .unwrap();
    let actions = night_actions(&g);
    assert_eq!(actions.len(), 1);
    assert!(matches!(&actions[0].1, NightAction::Investigate(t) if t == "erin"));
}

#[test]
fn valid_night_action_outside_the_night_changes_nothing() {
    let mut g = Game::default();
    g.players.push(Player::new("erin".to_string()));
    let g = g.take_night_action("erin".to_string(), NightAction::Idle).unwrap();
    assert!(matches!(g.state, State::Lobby(_)));
}

#[test]
fn lobby_connect_updates_or_adds() {
    let lobby = LobbyState::default();
    let lobby = lobby.connect("alice", Session::Connected { session_id: "s1".to_string() });
    assert_eq!(lobby.players.len(), 1);
    assert_eq!(lobby.players[0].name, "alice");
    // A newly added player starts unattached, whatever was offered.
    assert!(matches!(lobby.players[0].session, Session::Disconnected));
    let lobby = lobby.connect("alice", Session::Connected { session_id: "s2".to_string() });
    assert_eq!(lobby.players.len(), 1);
    assert!(
        matches!(&lobby.players[0].session, Session::Connected { session_id } if session_id == "s2")
    );
}

#[test]
fn role_alignment_and_legality() {
    assert!(PlayerRole::Townie.is_town());
    assert!(PlayerRole::Doctor.is_town());
    assert!(PlayerRole::Detective.is_town());
    assert!(PlayerRole::Bartender.is_town());
    assert!(!PlayerRole::Mafioso.is_town());
    assert!(PlayerRole::Mafioso.is_mafia());
    assert!(!PlayerRole::Doctor.is_mafia());

    let target = "x".to_string();
    assert!(PlayerRole::Townie.valid_night_action(&NightAction::Idle));
    assert!(PlayerRole::Detective.valid_night_action(&NightAction::Investigate(target.clone())));
    assert!(!PlayerRole::Townie.valid_night_action(&NightAction::Investigate(target.clone())));
    assert!(PlayerRole::Doctor.valid_night_action(&NightAction::Save(target.clone())));
    assert!(!PlayerRole::Mafioso.valid_night_action(&NightAction::Save(target.clone())));
    assert!(PlayerRole::Bartender.valid_night_action(&NightAction::Negate(target.clone())));
    assert!(PlayerRole::Mafioso.valid_night_action(&NightAction::Vote(target.clone())));
    assert!(!PlayerRole::Bartender.valid_night_action(&NightAction::Vote(target)));
}

#[test]
fn liveness_predicates() {
    assert!(PlayerState::Alive.is_alive());
    assert!(!PlayerState::Alive.is_dead());
    assert!(PlayerState::Dead.is_dead());
    assert!(!PlayerState::Dead.is_alive());
}

#[test]
fn defaults_of_the_game_model() {
    let g = Game::default();
    assert!(g.players.is_empty());
    assert!(matches!(g.state, State::Lobby(l) if l.players.is_empty()));
    assert_eq!(g.rules.morning_duration, 300);
    assert_eq!(g.rules.night_duration, 90);
    assert!(matches!(PlayerState::default(), PlayerState::Alive));
    assert!(matches!(PlayerRole::default(), PlayerRole::Townie));
    assert!(matches!(NightAction::default(), NightAction::Idle));
    assert!(matches!(Session::default(), Session::Disconnected));
}

#[test]
fn player_setters_replace_one_field() {
    let p = Player::new("alice".to_string());
    assert!(matches!(p.session, Session::Disconnected));
    let p = p.set_role(PlayerRole::Doctor);
    assert!(matches!(p.role, PlayerRole::Doctor));
    let p = p.set_state(PlayerState::Dead);
    assert!(matches!(p.state, PlayerState::Dead));
    let p = p.set_session(Session::Connected { session_id: "s".to_string() });
    assert!(matches!(p.session, Session::Connected { .. }));
    assert_eq!(p.name, "alice");
    assert!(matches!(p.role, PlayerRole::Doctor));
}

#[test]
fn opening_states_carry_their_deadlines() {
    let rules = Rules { morning_duration: 300, night_duration: 90 };
    let s = rules.initial_state_at(100);
    assert!(matches!(s, PlayingState::Morning { ends_at } if ends_at == 400));
    let night = PlayingState::gen_night(50);
    assert!(matches!(night, PlayingState::Night { ends_at, actions } if ends_at == 170 && actions.is_empty()));
}
