use sulmo::config::ModelConfig;
use sulmo::mode::Mode;
use sulmo::session::{PollOutcome, ReadEvent};
use sulmo::store::SessionStore;
use sulmo::turn::Turn;

fn store_of(names: &[&str]) -> SessionStore {
    let pairs: Vec<(String, ModelConfig)> = names
        .iter()
        .map(|name| (format!("./models/{}.bin", name), ModelConfig::new_default(4)))
        .collect();
    SessionStore::new(pairs)
}

#[test]
fn new_store_selects_the_first_model() {
    let store = store_of(&["alpha", "beta"]);
    assert_eq!(store.len(), 2);
    assert_eq!(store.current_index(), 0);
    assert_eq!(store.current().model_ref(), "./models/alpha.bin");
}

#[test]
fn next_wraps_from_last_to_first() {
    let mut store = store_of(&["alpha", "beta", "gamma"]);
    store.next();
    assert_eq!(store.current_index(), 1);
    store.next();
    assert_eq!(store.current_index(), 2);
    store.next();
    assert_eq!(store.current_index(), 0);
}

#[test]
fn prev_wraps_from_first_to_last() {
    let mut store = store_of(&["alpha", "beta", "gamma"]);
    store.prev();
    assert_eq!(store.current_index(), 2);
    store.prev();
    assert_eq!(store.current_index(), 1);
}

#[test]
fn navigation_is_a_no_op_on_a_single_session() {
    let mut store = store_of(&["only"]);
    store.next();
    assert_eq!(store.current_index(), 0);
    store.prev();
    assert_eq!(store.current_index(), 0);
}

#[test]
fn tick_polls_every_session_not_only_the_selected_one() {
    let mut store = store_of(&["alpha", "beta"]);
    // Start a generation on the first session, then select the second.
    store.push_char_current('x');
    assert!(store.submit_current(0).is_some());
    store.next();
    let events = vec![
        ReadEvent::Data("###Instruction: x ###Response: ok".as_bytes().to_vec()),
        ReadEvent::NoData,
    ];
    let outcomes = store.tick(10, 420000, events);
    assert_eq!(outcomes.len(), 2);
    assert!(matches!(outcomes[0], PollOutcome::Running));
    assert!(matches!(outcomes[1], PollOutcome::Idle));
    assert_eq!(store.session_at(0).get_pro_output(), "ok");
}

#[test]
fn tick_times_out_an_overrun_session() {
    let mut store = store_of(&["alpha"]);
    store.push_char_current('x');
    store.submit_current(0);
    let outcomes = store.tick(60001, 60000, vec![ReadEvent::NoData]);
    match &outcomes[0] {
        PollOutcome::TimedOut(process) => assert!(!process.is_live()),
        _ => panic!("the overrun session must time out"),
    }
    assert!(!store.session_at(0).is_generating());
}

#[test]
fn commands_act_on_the_selected_session_only() {
    let mut store = store_of(&["alpha", "beta"]);
    store.push_char_current('a');
    store.next();
    store.push_char_current('b');
    assert_eq!(store.session_at(0).get_usr_input(), "a");
    assert_eq!(store.session_at(1).get_usr_input(), "b");
    store.pop_back_input_current();
    assert_eq!(store.session_at(0).get_usr_input(), "a");
    assert_eq!(store.session_at(1).get_usr_input(), "");
}

#[test]
fn cancel_current_returns_the_terminated_process() {
    let mut store = store_of(&["alpha"]);
    store.push_char_current('x');
    store.submit_current(0);
    let process = store.cancel_current().expect("a generation was in flight");
    assert!(!process.is_live());
    assert!(store.cancel_current().is_none());
}

#[test]
fn delete_current_clears_the_pending_turn() {
    let mut store = store_of(&["alpha"]);
    store.push_string_current("hi");
    store.submit_current(0);
    store.tick(
        1,
        420000,
        vec![ReadEvent::Data("###Instruction: hi ###Response: reply".as_bytes().to_vec())],
    );
    store.delete_last_exchange_current();
    assert_eq!(store.current().get_pro_output(), "");
    assert!(!store.current().is_generating());
}

#[test]
fn sync_history_at_reports_the_config_path() {
    let mut store = store_of(&["alpha"]);
    store.push_string_current("hi");
    store.submit_current(0);
    store.tick(
        1,
        420000,
        vec![ReadEvent::Data("###Instruction: hi ###Response: reply".as_bytes().to_vec())],
    );
    store.tick(2, 420000, vec![ReadEvent::Closed]);
    // Archive the completed turn by submitting the next one.
    store.push_string_current("again");
    store.submit_current(100);
    let path = store.sync_history_at(0);
    assert_eq!(path, Some("./configs/alpha.conf".to_string()));
    assert_eq!(store.sync_history_at(0), None);
}

#[test]
fn mode_tab_positions() {
    assert_eq!(Mode::Home.to_usize(), 0);
    assert_eq!(Mode::Chat.to_usize(), 1);
    assert_eq!(Mode::Settings.to_usize(), 2);
    assert_eq!(Mode::Exit.to_usize(), 3);
}

#[test]
fn mode_cycles_through_all_screens() {
    assert_eq!(Mode::Home.next_mode(), Mode::Chat);
    assert_eq!(Mode::Chat.next_mode(), Mode::Settings);
    assert_eq!(Mode::Settings.next_mode(), Mode::Exit);
    assert_eq!(Mode::Exit.next_mode(), Mode::Home);
}

#[test]
fn turn_content_equality() {
    let a = Turn::from_parts("a".into(), "b".into(), "c".into());
    let b = a.duplicate();
    assert!(a.same_content(&b));
    let c = Turn::new();
    assert!(!a.same_content(&c));
}
