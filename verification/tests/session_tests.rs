use sulmo::config::ModelConfig;
use sulmo::session::{PollOutcome, ReadEvent, Session};

fn new_session() -> Session {
    Session::new("./models/llama.bin".to_string(), ModelConfig::new_default(4))
}

fn type_text(session: &mut Session, text: &str) {
    for chr in text.chars() {
        session.push_char(chr);
    }
}

fn data(bytes: &str) -> ReadEvent {
    ReadEvent::Data(bytes.as_bytes().to_vec())
}

#[test]
fn submit_builds_spawn_arguments() {
    let mut session = new_session();
    type_text(&mut session, "Hello");
    let args = session.submit(0).expect("an idle session must spawn on submit");
    let expected: Vec<String> = [
        "--n-predict",
        "-1",
        "--threads",
        "4",
        "--n-gpu-layers",
        "32",
        "--ctx-size",
        "2048",
        "--temp",
        "0.75",
        "--repeat-penalty",
        "1.15",
        "--model",
        "./models/llama.bin",
        "--prompt",
        "###Instruction: Hello ###Response: ",
    ]
    .iter()
    .map(|s| s.to_string())
    .collect();
    assert_eq!(args, expected);
    assert_eq!(session.get_usr_input(), "");
    assert_eq!(session.get_pro_input(), "Hello");
    assert_eq!(session.get_pro_output(), "");
    assert!(session.is_generating());
}

#[test]
fn submit_while_generating_is_a_no_op() {
    let mut session = new_session();
    type_text(&mut session, "first");
    assert!(session.submit(0).is_some());
    type_text(&mut session, "second");
    assert_eq!(session.submit(1), None);
    // Pending turn, draft, and history are all untouched by the refused call.
    assert_eq!(session.get_pro_input(), "first");
    assert_eq!(session.get_usr_input(), "second");
    assert!(session.get_past_conversations_str().is_empty());
    assert!(session.is_generating());
}

#[test]
fn echoed_prompt_is_stripped_from_response() {
    let mut session = new_session();
    type_text(&mut session, "Hello");
    session.submit(0);
    let out = session.poll(10, 420000, data("###Instruction: Hello ###Response: "));
    assert!(matches!(out, PollOutcome::Running));
    assert_eq!(session.get_pro_output(), "");
    session.poll(20, 420000, data("World"));
    assert_eq!(session.get_pro_output(), "World");
}

#[test]
fn echo_is_stripped_only_once() {
    let mut session = new_session();
    type_text(&mut session, "Hello");
    session.submit(0);
    session.poll(10, 420000, data("###Instruction: Hello ###Response: World"));
    assert_eq!(session.get_pro_output(), "World");
    // Later output longer than the prompt must not be trimmed again.
    session.poll(20, 420000, data(" and more text, well beyond the prompt length"));
    assert_eq!(session.get_pro_output(), "World and more text, well beyond the prompt length");
}

#[test]
fn echo_arriving_in_small_chunks() {
    let mut session = new_session();
    type_text(&mut session, "Hello");
    session.submit(0);
    session.poll(1, 420000, data("###Instruction: "));
    assert_eq!(session.get_pro_output(), "###Instruction: ");
    session.poll(2, 420000, data("Hello ###Response: W"));
    assert_eq!(session.get_pro_output(), "W");
    session.poll(3, 420000, data("orld"));
    assert_eq!(session.get_pro_output(), "World");
}

#[test]
fn invalid_bytes_are_replaced_not_fatal() {
    let mut session = new_session();
    session.submit(0);
    session.poll(1, 420000, ReadEvent::Data(vec![0xff, 0xfe]));
    assert!(session.is_generating());
    // Too short to strip yet; the two invalid bytes became replacement chars.
    assert_eq!(session.get_pro_output(), "\u{fffd}\u{fffd}");
}

#[test]
fn stream_close_ends_the_generation() {
    let mut session = new_session();
    type_text(&mut session, "Hello");
    session.submit(0);
    session.poll(10, 420000, data("###Instruction: Hello ###Response: done"));
    let out = session.poll(20, 420000, ReadEvent::Closed);
    match out {
        PollOutcome::Done(process) => assert!(!process.is_live()),
        _ => panic!("a closed stream must finish the turn"),
    }
    assert!(!session.is_generating());
    assert_eq!(session.get_pro_output(), "done");
}

#[test]
fn timeout_stops_the_process_and_keeps_the_partial_response() {
    let mut session = new_session();
    type_text(&mut session, "Hello");
    session.submit(0);
    session.poll(10, 420000, data("###Instruction: Hello ###Response: par"));
    assert_eq!(session.get_pro_output(), "par");
    // Strictly past the timeout: data handed in alongside is discarded.
    let out = session.poll(5001, 5000, data("late bytes"));
    match out {
        PollOutcome::TimedOut(process) => {
            assert!(!process.is_live());
            assert_eq!(process.start_ms(), 0);
        }
        _ => panic!("an overrun generation must time out"),
    }
    assert!(!session.is_generating());
    assert_eq!(session.get_pro_output(), "par");
}

#[test]
fn timeout_is_strict() {
    let mut session = new_session();
    session.submit(0);
    // Exactly at the limit: not yet an overrun.
    let out = session.poll(5000, 5000, ReadEvent::NoData);
    assert!(matches!(out, PollOutcome::Running));
    assert!(session.is_generating());
}

#[test]
fn poll_on_idle_session_does_nothing() {
    let mut session = new_session();
    let out = session.poll(0, 420000, data("stray bytes"));
    assert!(matches!(out, PollOutcome::Idle));
    assert_eq!(session.get_pro_output(), "");
}

#[test]
fn terminated_process_cannot_be_polled_again() {
    let mut session = new_session();
    session.submit(0);
    let out = session.poll(10000, 5000, ReadEvent::NoData);
    let mut process = match out {
        PollOutcome::TimedOut(process) => process,
        _ => panic!("an overrun generation must time out"),
    };
    // Sentinel check: the record is terminated, and stays terminated.
    assert!(!process.is_live());
    process.terminate();
    assert!(!process.is_live());
    // The session holds no process any more: polling finds nothing.
    let again = session.poll(10001, 5000, ReadEvent::NoData);
    assert!(matches!(again, PollOutcome::Idle));
}

#[test]
fn cancel_keeps_the_partial_response() {
    let mut session = new_session();
    type_text(&mut session, "Hello");
    session.submit(0);
    session.poll(10, 420000, data("###Instruction: Hello ###Response: half"));
    let cancelled = session.cancel().expect("a generation was in flight");
    assert!(!cancelled.is_live());
    assert!(!session.is_generating());
    assert_eq!(session.get_pro_output(), "half");
    assert!(session.cancel().is_none());
}

#[test]
fn read_failure_stops_only_this_generation() {
    let mut session = new_session();
    session.submit(0);
    let out = session.poll(10, 420000, ReadEvent::Failed);
    match out {
        PollOutcome::Failed(process) => assert!(!process.is_live()),
        _ => panic!("a read failure must stop the generation"),
    }
    assert!(!session.is_generating());
}

fn completed_turn(session: &mut Session, input: &str, reply: &str, now: u64) {
    type_text(session, input);
    session.submit(now);
    let prompt = format!("###Instruction: {} ###Response: ", input);
    session.poll(now + 1, 420000, ReadEvent::Data(prompt.into_bytes()));
    session.poll(now + 2, 420000, ReadEvent::Data(reply.as_bytes().to_vec()));
    session.poll(now + 3, 420000, ReadEvent::Closed);
}

#[test]
fn completed_turns_are_archived_on_the_next_submit() {
    let mut session = new_session();
    completed_turn(&mut session, "one", "first reply", 0);
    assert!(session.get_past_conversations_str().is_empty());
    completed_turn(&mut session, "two", "second reply", 100);
    let history = session.get_past_conversations_str();
    assert_eq!(history.len(), 1);
    assert_eq!(history[0], ("one".to_string(), "first reply".to_string()));
}

#[test]
fn delete_last_exchange_pops_exactly_the_most_recent_entry() {
    let mut session = new_session();
    completed_turn(&mut session, "one", "first reply", 0);
    completed_turn(&mut session, "two", "second reply", 100);
    completed_turn(&mut session, "three", "third reply", 200);
    // History holds turns one and two; "three" is still pending.
    type_text(&mut session, "draft text");
    session.delete_last_exchange(); // clears the pending turn (it has a response)
    assert_eq!(session.get_pro_output(), "");
    assert_eq!(session.get_usr_input(), "draft text");
    let history = session.get_past_conversations_str();
    assert_eq!(history.len(), 2);
    // Now the pending turn is empty: exactly the most recent entry goes.
    session.delete_last_exchange();
    let history = session.get_past_conversations_str();
    assert_eq!(history.len(), 1);
    assert_eq!(history[0], ("one".to_string(), "first reply".to_string()));
}

#[test]
fn delete_last_exchange_cancels_an_active_generation() {
    let mut session = new_session();
    type_text(&mut session, "Hello");
    session.submit(0);
    session.poll(1, 420000, data("###Instruction: Hello ###Response: part"));
    let process = session.delete_last_exchange().expect("a generation was in flight");
    assert!(!process.is_live());
    assert!(!session.is_generating());
    assert_eq!(session.get_pro_output(), "");
}

#[test]
fn delete_on_empty_session_does_nothing() {
    let mut session = new_session();
    assert!(session.delete_last_exchange().is_none());
    assert!(session.get_past_conversations_str().is_empty());
}

#[test]
fn backspace_on_empty_draft_is_a_no_op() {
    let mut session = new_session();
    session.pop_back_input();
    assert_eq!(session.get_usr_input(), "");
}

#[test]
fn backspace_removes_a_combining_accent_cluster() {
    let mut session = new_session();
    session.push_char('e');
    session.push_char('\u{301}'); // combining acute accent: one perceived char
    assert_eq!(session.get_usr_input(), "e\u{301}");
    session.pop_back_input();
    assert_eq!(session.get_usr_input(), "");
}

#[test]
fn backspace_removes_a_multi_codepoint_emoji() {
    let mut session = new_session();
    type_text(&mut session, "a\u{1F44D}\u{1F3FD}"); // thumbs up + skin tone: one cluster
    session.pop_back_input();
    assert_eq!(session.get_usr_input(), "a");
    session.pop_back_input();
    assert_eq!(session.get_usr_input(), "");
}

#[test]
fn pasted_text_lands_in_the_draft() {
    let mut session = new_session();
    session.push_string("pasted text");
    session.push_char('!');
    assert_eq!(session.get_usr_input(), "pasted text!");
}

#[test]
fn clear_output_empties_the_pending_response() {
    let mut session = new_session();
    type_text(&mut session, "Hello");
    session.submit(0);
    session.poll(1, 420000, data("###Instruction: Hello ###Response: text"));
    session.clear_output();
    assert_eq!(session.get_pro_output(), "");
    assert_eq!(session.get_pro_input(), "Hello");
}

#[test]
fn sync_history_reports_changes_once() {
    let mut session = new_session();
    completed_turn(&mut session, "one", "first reply", 0);
    completed_turn(&mut session, "two", "second reply", 100);
    // One archived turn now differs from the empty snapshot.
    let path = session.sync_history();
    assert_eq!(path, Some("./configs/llama.conf".to_string()));
    assert_eq!(session.sync_history(), None);
    assert_eq!(session.config().get_past_chunks().len(), 1);
}
