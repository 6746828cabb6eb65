//! One conversation against one model: the draft being composed, the turn in
//! flight, the ordered history of completed turns, and the lifecycle of the
//! generator process that produces each response.
//!
//! The session is a state machine driven by the host: `submit` hands back the
//! argument list for a process the host must spawn, `poll` consumes what the
//! host read from that process (or the absence of anything to read), and every
//! path that stops a generation hands the terminated process record back so
//! the host can kill the real child. The transition taken by each call is
//! pinned down by the `*_rel` relations below.

use vstd::prelude::*;
use vstd::string::*;
use vstd::utf8::{decode_utf8, encode_utf8, encode_utf8_decode_utf8, is_char_boundary, valid_utf8};

use crate::config::{spec_args, spec_prompt, ConfigView, ModelConfig};
use crate::paths::spec_pathbuf_helper;
use crate::process::{proc_timed_out, terminated_proc, GeneratorProcess, ProcessView};
use crate::text::push_char_onto;
use crate::turn::{empty_turn, Turn, TurnView};

verus! {

broadcast use vstd::slice::group_slice_axioms;

/// What the host observed when it tried to read the generator's output
/// without blocking.
pub enum ReadEvent {
    /// Nothing was available yet.
    NoData,
    /// These bytes arrived.
    Data(Vec<u8>),
    /// The output stream closed: the generation is complete.
    Closed,
    /// Reading failed; the session's generation is abandoned.
    Failed,
}

/// What one poll did. Every variant that carries a [`GeneratorProcess`] hands
/// the terminated record back to the host, which must kill the real child.
pub enum PollOutcome {
    /// No process was active; nothing happened.
    Idle,
    /// The generation is still in progress.
    Running,
    /// The stream closed: the generation completed normally.
    Done(GeneratorProcess),
    /// The generation overran its timeout and was terminated.
    TimedOut(GeneratorProcess),
    /// Reading failed and the generation was terminated.
    Failed(GeneratorProcess),
}

/// The mathematical content of a [`Session`].
#[verifier::ext_equal]
pub struct SessionView {
    pub model_ref: Seq<char>,
    pub config: ConfigView,
    pub draft: TurnView,
    pub pending: Option<TurnView>,
    pub history: Seq<TurnView>,
    pub process: Option<ProcessView>,
    pub echo_stripped: bool,
}

/// One conversation bound to one model.
pub struct Session {
    model_ref: String,
    config: ModelConfig,
    draft: Turn,
    pending: Option<Turn>,
    history: Vec<Turn>,
    process: Option<GeneratorProcess>,
    echo_stripped: bool,
}

impl View for Session {
    type V = SessionView;

    closed spec fn view(&self) -> SessionView {
        SessionView {
            model_ref: self.model_ref@,
            config: self.config@,
            draft: self.draft@,
            pending: self.pending.deep_view(),
            history: self.history.deep_view(),
            process: match self.process {
                Some(p) => Some(p@),
                None => None,
            },
            echo_stripped: self.echo_stripped,
        }
    }
}

impl DeepView for Session {
    type V = SessionView;

    open spec fn deep_view(&self) -> SessionView {
        self.view()
    }
}

/// A session is well formed when a live process record exists only while a
/// turn is pending, and the draft — a turn never yet submitted — carries no
/// formatted prompt and no response.
pub open spec fn session_wf(s: SessionView) -> bool {
    &&& (s.process matches Some(p) ==> (s.pending is Some && p.live))
    &&& s.draft.formatted_prompt.len() == 0
    &&& s.draft.response.len() == 0
}

/// A fresh session for one model: empty draft, nothing pending, no history,
/// no process.
pub open spec fn spec_new_session(model_ref: Seq<char>, config: ConfigView) -> SessionView {
    SessionView {
        model_ref,
        config,
        draft: empty_turn(),
        pending: None,
        history: Seq::<TurnView>::empty(),
        process: None,
        echo_stripped: false,
    }
}

/// The same session with its process removed.
pub open spec fn stopped(pre: SessionView) -> SessionView {
    SessionView { process: None, ..pre }
}

/// The full argument list for one spawn: the configuration's arguments, then
/// the model path and the formatted prompt.
pub open spec fn spec_spawn_args(c: ConfigView, model_ref: Seq<char>, prompt: Seq<char>) -> Seq<
    Seq<char>,
> {
    spec_args(c) + seq!["--model"@, model_ref, "--prompt"@, prompt]
}

/// A response with the leading echoed prompt removed: the slice of exactly
/// `plen` bytes is cut when it ends on a character boundary, and the text is
/// left alone when it does not (the echo assumption failed; cutting would
/// corrupt the response).
pub open spec fn spec_strip_echo(resp: Seq<char>, plen: int) -> Seq<char> {
    if is_char_boundary(encode_utf8(resp), plen) {
        decode_utf8(encode_utf8(resp).skip(plen))
    } else {
        resp
    }
}

/// The pending turn and the echo flag after one chunk of output: the decoded
/// chunk is appended, and the echoed prompt is cut exactly once, the first
/// time the response holds at least the prompt's bytes.
pub open spec fn spec_append_response(t: TurnView, stripped: bool, chunk: Seq<u8>) -> (TurnView,
    bool,
) {
    let grown = t.response + lossy_decode(chunk);
    let plen = encode_utf8(t.formatted_prompt).len() as int;
    if !stripped && encode_utf8(grown).len() >= plen {
        (TurnView { response: spec_strip_echo(grown, plen), ..t }, true)
    } else {
        (TurnView { response: grown, ..t }, stripped)
    }
}

/// The session after a successful submission: the previous pending turn is
/// archived when it has a response, the draft becomes the new pending turn
/// with its formatted prompt, and a fresh process record starts at `now_ms`.
pub open spec fn spec_submitted(pre: SessionView, now_ms: u64) -> SessionView {
    SessionView {
        draft: empty_turn(),
        pending: Some(
            TurnView {
                raw_input: pre.draft.raw_input,
                formatted_prompt: spec_prompt(pre.config, pre.draft.raw_input),
                response: Seq::<char>::empty(),
            },
        ),
        history: if pre.pending matches Some(t) && t.response.len() > 0 {
            pre.history.push(pre.pending.unwrap())
        } else {
            pre.history
        },
        process: Some(ProcessView { start_ms: now_ms, live: true }),
        echo_stripped: false,
        ..pre
    }
}

/// What `submit` does: a no-op while generating, otherwise the transition of
/// [`spec_submitted`] together with the spawn arguments for the host.
pub open spec fn submit_rel(
    pre: SessionView,
    post: SessionView,
    now_ms: u64,
    r: Option<Vec<String>>,
) -> bool {
    if pre.process is Some {
        post == pre && r is None
    } else {
        &&& post == spec_submitted(pre, now_ms)
        &&& r matches Some(args) && args.deep_view() == spec_spawn_args(
            pre.config,
            pre.model_ref,
            spec_prompt(pre.config, pre.draft.raw_input),
        )
    }
}

/// What `poll` does, case by case.
pub open spec fn poll_rel(
    pre: SessionView,
    post: SessionView,
    now_ms: u64,
    timeout_ms: u64,
    ev: ReadEvent,
    out: PollOutcome,
) -> bool {
    match pre.process {
        None => post == pre && out is Idle,
        Some(p) => if proc_timed_out(p, now_ms, timeout_ms) {
            post == stopped(pre) && (out matches PollOutcome::TimedOut(g) && g@ == terminated_proc(
                p,
            ))
        } else {
            match ev {
                ReadEvent::NoData => post == pre && out is Running,
                ReadEvent::Closed => post == stopped(pre) && (out matches PollOutcome::Done(g)
                    && g@ == terminated_proc(p)),
                ReadEvent::Failed => post == stopped(pre) && (out matches PollOutcome::Failed(g)
                    && g@ == terminated_proc(p)),
                ReadEvent::Data(chunk) => match pre.pending {
                    Some(t) => {
                        let grown = spec_append_response(t, pre.echo_stripped, chunk@);
                        post == (SessionView {
                            pending: Some(grown.0),
                            echo_stripped: grown.1,
                            ..pre
                        }) && out is Running
                    },
                    None => post == pre && out is Running,
                },
            }
        },
    }
}

/// What `cancel` does: the process record leaves the session terminated;
/// everything else, the partial response included, stays.
pub open spec fn cancel_rel(pre: SessionView, post: SessionView, r: Option<
    GeneratorProcess,
>) -> bool {
    &&& post == stopped(pre)
    &&& match pre.process {
        Some(p) => r matches Some(g) && g@ == terminated_proc(p),
        None => r is None,
    }
}

/// The session after deleting the last exchange: a pending turn with a
/// response is discarded whole; otherwise the most recent history entry is
/// dropped. The active process, if any, is cancelled either way.
pub open spec fn spec_deleted(pre: SessionView) -> SessionView {
    if pre.pending matches Some(t) && t.response.len() > 0 {
        SessionView { pending: None, process: None, ..pre }
    } else {
        SessionView {
            history: if pre.history.len() > 0 {
                pre.history.drop_last()
            } else {
                pre.history
            },
            process: None,
            ..pre
        }
    }
}

/// What `delete_last_exchange` does.
pub open spec fn delete_rel(pre: SessionView, post: SessionView, r: Option<
    GeneratorProcess,
>) -> bool {
    &&& post == spec_deleted(pre)
    &&& match pre.process {
        Some(p) => r matches Some(g) && g@ == terminated_proc(p),
        None => r is None,
    }
}

/// The characters that `String::from_utf8_lossy` decodes the given bytes to.
pub uninterp spec fn lossy_decode(bytes: Seq<u8>) -> Seq<char>;

/// Relies on `String::from_utf8_lossy`: invalid sequences are replaced with
/// the replacement character, so the result is a function of the bytes alone,
/// and valid UTF-8 decodes to exactly its characters.
#[verifier::external_body]
fn decode_chunk(bytes: &Vec<u8>) -> (r: String)
    ensures
        r@ == lossy_decode(bytes@),
        valid_utf8(bytes@) ==> r@ == decode_utf8(bytes@),
{
    String::from_utf8_lossy(bytes.as_slice()).into_owned()
}

/// The string with its last extended grapheme cluster removed.
pub uninterp spec fn drop_last_grapheme(s: Seq<char>) -> Seq<char>;

/// Relies on unicode_segmentation's `grapheme_indices`: extended grapheme
/// clusters partition the string into non-empty pieces whose boundaries
/// depend on the characters alone, so cutting at the byte offset of the last
/// cluster keeps a strictly shorter prefix of the characters.
#[verifier::external_body]
fn pop_last_grapheme(s: &str) -> (r: String)
    requires
        s@.len() > 0,
    ensures
        r@ == drop_last_grapheme(s@),
        r@.len() < s@.len(),
        r@ == s@.take(r@.len() as int),
{
    match unicode_segmentation::UnicodeSegmentation::grapheme_indices(s, true).last() {
        Some((i, _)) => s[..i].to_string(),
        None => String::new(),
    }
}

impl Session {
    /// A fresh session for one model.
    pub fn new(model_ref: String, config: ModelConfig) -> (r: Session)
        ensures
            r@ == spec_new_session(model_ref@, config@),
            session_wf(r@),
    {
        let r = Session {
            model_ref,
            config,
            draft: Turn::new(),
            pending: None,
            history: Vec::new(),
            process: None,
            echo_stripped: false,
        };
        proof {
            assert(r@.history =~= Seq::<TurnView>::empty());
            assert(r@ =~= spec_new_session(r.model_ref@, r.config@));
        }
        r
    }

    /// Submits the draft: a no-op while a generation is in flight, otherwise
    /// the draft becomes the pending turn, the previous pending turn is
    /// archived when it has a response, and the returned argument list names
    /// the process the host must spawn (started at `now_ms`).
    pub fn submit(&mut self, now_ms: u64) -> (r: Option<Vec<String>>)
        requires
            session_wf(old(self)@),
        ensures
            session_wf(final(self)@),
            submit_rel(old(self)@, final(self)@, now_ms, r),
            old(self)@.process is Some ==> final(self)@ == old(self)@ && r is None,
    {
        if self.process.is_some() {
            proof {
                assert(self@ =~= old(self)@);
            }
            return None;
        }
        let prompt = self.config.to_prompt(self.draft.raw_input.as_str());
        let mut args = self.config.to_args();
        args.push("--model".to_owned());
        args.push(self.model_ref.clone());
        args.push("--prompt".to_owned());
        args.push(prompt.clone());
        proof {
            assert(args.deep_view() =~~= spec_spawn_args(
                self@.config,
                self@.model_ref,
                prompt@,
            ));
        }
        let raw = self.draft.raw_input.clone();
        self.draft = Turn::new();
        match self.pending.take() {
            Some(t) => {
                if !t.response.as_str().is_empty() {
                    self.history.push(t);
                }
            },
            None => {},
        }
        self.pending = Some(Turn::from_parts(raw, prompt, String::new()));
        self.process = Some(GeneratorProcess::begin(now_ms));
        self.echo_stripped = false;
        proof {
            assert(self@ =~= spec_submitted(old(self)@, now_ms));
        }
        Some(args)
    }

    /// Appends one decoded chunk of generator output to the pending turn and
    /// cuts the echoed prompt exactly once, as [`spec_append_response`] says.
    fn append_output(&mut self, chunk: &Vec<u8>)
        ensures
            final(self)@ == match old(self)@.pending {
                Some(t) => {
                    let grown = spec_append_response(t, old(self)@.echo_stripped, chunk@);
                    SessionView { pending: Some(grown.0), echo_stripped: grown.1, ..old(self)@ }
                },
                None => old(self)@,
            },
    {
        let decoded = decode_chunk(chunk);
        match self.pending.take() {
            None => {
                proof {
                    assert(self@ =~= old(self)@);
                }
            },
            Some(mut t) => {
                let ghost t0 = t@;
                t.response.append(decoded.as_str());
                let ghost grown = t.response@;
                let plen = t.formatted_prompt.as_str().as_bytes().len();
                let rlen = t.response.as_str().as_bytes().len();
                if !self.echo_stripped && rlen >= plen {
                    if t.response.as_str().is_char_boundary(plen) {
                        let rest_owned = {
                            let whole = t.response.as_str();
                            let (_, rest) = whole.split_at(plen);
                            rest.to_owned()
                        };
                        proof {
                            encode_utf8_decode_utf8(rest_owned@);
                            assert(encode_utf8(rest_owned@) =~= encode_utf8(grown).skip(
                                plen as int,
                            ));
                            assert(rest_owned@ == decode_utf8(encode_utf8(grown).skip(plen as int)));
                            assert(rest_owned@ == spec_strip_echo(grown, plen as int));
                        }
                        t.response = rest_owned;
                    }
                    self.echo_stripped = true;
                    proof {
                        assert(t@ =~= spec_append_response(t0, old(self)@.echo_stripped, chunk@).0);
                    }
                } else {
                    proof {
                        assert(t@ =~= spec_append_response(t0, old(self)@.echo_stripped, chunk@).0);
                    }
                }
                self.pending = Some(t);
                proof {
                    let grown_pair = spec_append_response(t0, old(self)@.echo_stripped, chunk@);
                    assert(self@ =~= (SessionView {
                        pending: Some(grown_pair.0),
                        echo_stripped: grown_pair.1,
                        ..old(self)@
                    }));
                }
            },
        }
    }

    /// One poll step, with the wall clock, the configured timeout, and what
    /// the host read. Checked in this order: no process means nothing to do;
    /// an overrun generation is terminated with its partial response kept;
    /// otherwise the read event is applied. Every outcome that carries a
    /// process record hands it back terminated, and the session keeps no
    /// process record past this call in those cases.
    pub fn poll(&mut self, now_ms: u64, timeout_ms: u64, event: ReadEvent) -> (r: PollOutcome)
        requires
            session_wf(old(self)@),
        ensures
            session_wf(final(self)@),
            poll_rel(old(self)@, final(self)@, now_ms, timeout_ms, event, r),
            old(self)@.echo_stripped ==> final(self)@.echo_stripped,
    {
        match self.process.take() {
            None => {
                proof {
                    assert(self@ =~= old(self)@);
                }
                PollOutcome::Idle
            },
            Some(mut p) => {
                if p.timed_out(now_ms, timeout_ms) {
                    p.terminate();
                    proof {
                        assert(self@ =~= stopped(old(self)@));
                    }
                    PollOutcome::TimedOut(p)
                } else {
                    match event {
                        ReadEvent::NoData => {
                            self.process = Some(p);
                            proof {
                                assert(self@ =~= old(self)@);
                            }
                            PollOutcome::Running
                        },
                        ReadEvent::Closed => {
                            p.terminate();
                            proof {
                                assert(self@ =~= stopped(old(self)@));
                            }
                            PollOutcome::Done(p)
                        },
                        ReadEvent::Failed => {
                            p.terminate();
                            proof {
                                assert(self@ =~= stopped(old(self)@));
                            }
                            PollOutcome::Failed(p)
                        },
                        ReadEvent::Data(chunk) => {
                            self.process = Some(p);
                            proof {
                                assert(self@ =~= old(self)@);
                            }
                            self.append_output(&chunk);
                            PollOutcome::Running
                        },
                    }
                }
            },
        }
    }

    /// Cancels the in-flight generation, if any: the terminated process
    /// record comes back for the host to kill, and the pending turn keeps its
    /// partial response.
    pub fn cancel(&mut self) -> (r: Option<GeneratorProcess>)
        requires
            session_wf(old(self)@),
        ensures
            session_wf(final(self)@),
            cancel_rel(old(self)@, final(self)@, r),
    {
        let r = match self.process.take() {
            Some(mut p) => {
                p.terminate();
                Some(p)
            },
            None => None,
        };
        proof {
            assert(self@ =~= stopped(old(self)@));
        }
        r
    }

    /// Deletes the most recent exchange: a pending turn with a response is
    /// discarded whole (the draft is untouched); otherwise the most recent
    /// history entry is dropped. An active generation is cancelled first.
    pub fn delete_last_exchange(&mut self) -> (r: Option<GeneratorProcess>)
        requires
            session_wf(old(self)@),
        ensures
            session_wf(final(self)@),
            delete_rel(old(self)@, final(self)@, r),
    {
        let r = match self.process.take() {
            Some(mut p) => {
                p.terminate();
                Some(p)
            },
            None => None,
        };
        let clear_pending = match &self.pending {
            Some(t) => !t.response.as_str().is_empty(),
            None => false,
        };
        if clear_pending {
            self.pending = None;
        } else {
            let ghost h0 = self@.history;
            let _dropped = self.history.pop();
            proof {
                if h0.len() > 0 {
                    assert(self@.history =~= h0.drop_last());
                } else {
                    assert(self@.history =~= h0);
                }
            }
        }
        proof {
            assert(self@ =~= spec_deleted(old(self)@));
        }
        r
    }

    /// Appends one character to the draft.
    pub fn push_char(&mut self, chr: char)
        ensures
            final(self)@ == (SessionView {
                draft: TurnView {
                    raw_input: old(self)@.draft.raw_input.push(chr),
                    ..old(self)@.draft
                },
                ..old(self)@
            }),
    {
        push_char_onto(&mut self.draft.raw_input, chr);
        proof {
            assert(self@.draft.raw_input =~= old(self)@.draft.raw_input.push(chr));
            assert(self@ =~= (SessionView {
                draft: TurnView {
                    raw_input: old(self)@.draft.raw_input.push(chr),
                    ..old(self)@.draft
                },
                ..old(self)@
            }));
        }
    }

    /// Appends a whole string to the draft (pasting).
    pub fn push_string(&mut self, s: &str)
        ensures
            final(self)@ == (SessionView {
                draft: TurnView {
                    raw_input: old(self)@.draft.raw_input + s@,
                    ..old(self)@.draft
                },
                ..old(self)@
            }),
    {
        self.draft.raw_input.append(s);
        proof {
            assert(self@ =~= (SessionView {
                draft: TurnView {
                    raw_input: old(self)@.draft.raw_input + s@,
                    ..old(self)@.draft
                },
                ..old(self)@
            }));
        }
    }

    /// Removes the last user-perceived character (one extended grapheme
    /// cluster) from the draft; a no-op on an empty draft.
    pub fn pop_back_input(&mut self)
        ensures
            old(self)@.draft.raw_input.len() == 0 ==> final(self)@ == old(self)@,
            old(self)@.draft.raw_input.len() > 0 ==> {
                let shorter = drop_last_grapheme(old(self)@.draft.raw_input);
                &&& final(self)@ == (SessionView {
                    draft: TurnView { raw_input: shorter, ..old(self)@.draft },
                    ..old(self)@
                })
                &&& shorter.len() < old(self)@.draft.raw_input.len()
                &&& shorter == old(self)@.draft.raw_input.take(shorter.len() as int)
            },
    {
        if self.draft.raw_input.as_str().is_empty() {
            proof {
                assert(self@ =~= old(self)@);
            }
            return;
        }
        let shorter = pop_last_grapheme(self.draft.raw_input.as_str());
        self.draft.raw_input = shorter;
        proof {
            assert(self@ =~= (SessionView {
                draft: TurnView {
                    raw_input: drop_last_grapheme(old(self)@.draft.raw_input),
                    ..old(self)@.draft
                },
                ..old(self)@
            }));
        }
    }

    /// Clears the pending turn's accumulated response.
    pub fn clear_output(&mut self)
        ensures
            final(self)@ == match old(self)@.pending {
                Some(t) => SessionView {
                    pending: Some(TurnView { response: Seq::<char>::empty(), ..t }),
                    ..old(self)@
                },
                None => old(self)@,
            },
    {
        match self.pending.take() {
            Some(mut t) => {
                t.response = String::new();
                self.pending = Some(t);
                proof {
                    assert(self@ =~= (SessionView {
                        pending: Some(
                            TurnView {
                                response: Seq::<char>::empty(),
                                ..old(self)@.pending.unwrap()
                            },
                        ),
                        ..old(self)@
                    }));
                }
            },
            None => {
                proof {
                    assert(self@ =~= old(self)@);
                }
            },
        }
    }

    /// Hands the history snapshot to the configuration when it changed,
    /// returning the configuration-store path the host should persist the
    /// configuration to; nothing when the history is unchanged.
    pub fn sync_history(&mut self) -> (r: Option<String>)
        ensures
            old(self)@.config.past_chunks == old(self)@.history ==> final(self)@ == old(self)@
                && r is None,
            old(self)@.config.past_chunks != old(self)@.history ==> {
                &&& final(self)@ == (SessionView {
                    config: ConfigView {
                        past_chunks: old(self)@.history,
                        ..old(self)@.config
                    },
                    ..old(self)@
                })
                &&& (match r {
                    Some(p) => spec_pathbuf_helper(
                        old(self)@.model_ref,
                        "./configs/"@,
                        "conf"@,
                    ) == Some(p@),
                    None => spec_pathbuf_helper(
                        old(self)@.model_ref,
                        "./configs/"@,
                        "conf"@,
                    ) is None,
                })
            },
    {
        let r = self.config.try_update(self.model_ref.as_str(), &self.history);
        proof {
            if old(self)@.config.past_chunks == old(self)@.history {
                assert(self@ =~= old(self)@);
            } else {
                assert(self@ =~= (SessionView {
                    config: ConfigView {
                        past_chunks: old(self)@.history,
                        ..old(self)@.config
                    },
                    ..old(self)@
                }));
            }
        }
        r
    }

    /// The draft text being composed.
    pub fn get_usr_input(&self) -> (r: &str)
        ensures
            r@ == self@.draft.raw_input,
    {
        self.draft.raw_input.as_str()
    }

    /// The pending turn's raw input, for display as the in-flight prompt;
    /// empty when nothing is pending.
    pub fn get_pro_input(&self) -> (r: &str)
        ensures
            r@ == match self@.pending {
                Some(t) => t.raw_input,
                None => Seq::<char>::empty(),
            },
    {
        match &self.pending {
            Some(t) => t.raw_input.as_str(),
            None => {
                let empty = "";
                proof {
                    reveal_strlit("");
                    assert(empty@ =~= Seq::<char>::empty());
                }
                empty
            },
        }
    }

    /// The pending turn's accumulated response, for live display; empty when
    /// nothing is pending.
    pub fn get_pro_output(&self) -> (r: &str)
        ensures
            r@ == match self@.pending {
                Some(t) => t.response,
                None => Seq::<char>::empty(),
            },
    {
        match &self.pending {
            Some(t) => t.response.as_str(),
            None => {
                let empty = "";
                proof {
                    reveal_strlit("");
                    assert(empty@ =~= Seq::<char>::empty());
                }
                empty
            },
        }
    }

    /// The completed history, oldest first, as (raw input, response) pairs.
    pub fn get_past_conversations_str(&self) -> (r: Vec<(String, String)>)
        ensures
            r@.len() == self@.history.len(),
            forall|i: int|
                0 <= i < r@.len() ==> r@[i].0@ == self@.history[i].raw_input && r@[i].1@
                    == self@.history[i].response,
    {
        let mut out: Vec<(String, String)> = Vec::new();
        let n = self.history.len();
        let mut i: usize = 0;
        while i < n
            invariant
                0 <= i <= n,
                n == self.history@.len(),
                self.history@.len() == self@.history.len(),
                out@.len() == i,
                forall|j: int|
                    0 <= j < i ==> out@[j].0@ == self@.history[j].raw_input && out@[j].1@
                        == self@.history[j].response,
            decreases n - i,
        {
            let t = &self.history[i];
            out.push((t.raw_input.clone(), t.response.clone()));
            i = i + 1;
        }
        out
    }

    /// Whether a generation is in flight.
    pub fn is_generating(&self) -> (r: bool)
        ensures
            r == (self@.process is Some),
    {
        self.process.is_some()
    }

    /// The model this session is bound to.
    pub fn model_ref(&self) -> (r: &str)
        ensures
            r@ == self@.model_ref,
    {
        self.model_ref.as_str()
    }

    /// The session's generation configuration.
    pub fn config(&self) -> (r: &ModelConfig)
        ensures
            r@ == self@.config,
    {
        &self.config
    }

}

/// Echo-stripping happens at most once per turn: a poll that finds the echo
/// already stripped never re-trims the response; whatever the event, the old
/// response stays as a prefix and only grows.
pub proof fn lemma_poll_never_restrips(
    pre: SessionView,
    post: SessionView,
    now_ms: u64,
    timeout_ms: u64,
    ev: ReadEvent,
    out: PollOutcome,
)
    requires
        poll_rel(pre, post, now_ms, timeout_ms, ev, out),
        pre.echo_stripped,
        pre.pending is Some,
    ensures
        post.echo_stripped,
        post.pending is Some,
        post.pending.unwrap().response.len() >= pre.pending.unwrap().response.len(),
        post.pending.unwrap().response.take(pre.pending.unwrap().response.len() as int)
            == pre.pending.unwrap().response,
{
    let r0 = pre.pending.unwrap().response;
    if post.pending.unwrap().response != r0 {
        match pre.process {
            Some(p) => {
                if !proc_timed_out(p, now_ms, timeout_ms) {
                    match ev {
                        ReadEvent::Data(chunk) => {
                            assert(post.pending.unwrap().response == r0 + lossy_decode(chunk@));
                            assert((r0 + lossy_decode(chunk@)).take(r0.len() as int) =~= r0);
                        },
                        _ => {},
                    }
                }
            },
            None => {},
        }
    } else {
        assert(r0.take(r0.len() as int) =~= r0);
    }
}

/// A poll past the timeout stops the session: the process is gone and comes
/// back terminated, and the partial response is exactly what had been
/// accumulated.
pub proof fn lemma_poll_timeout(
    pre: SessionView,
    post: SessionView,
    now_ms: u64,
    timeout_ms: u64,
    ev: ReadEvent,
    out: PollOutcome,
)
    requires
        poll_rel(pre, post, now_ms, timeout_ms, ev, out),
        pre.process matches Some(p) && proc_timed_out(p, now_ms, timeout_ms),
    ensures
        post.process is None,
        post.pending == pre.pending,
        post.history == pre.history,
        out matches PollOutcome::TimedOut(g) && !g@.live && g@.start_ms
            == pre.process.unwrap().start_ms,
{
}

/// No generation outlives its session reference: whenever a poll takes the
/// process away (completion, timeout, or failure), the session keeps no
/// process record and the record handed back is terminated.
pub proof fn lemma_poll_leaves_no_live_process(
    pre: SessionView,
    post: SessionView,
    now_ms: u64,
    timeout_ms: u64,
    ev: ReadEvent,
    out: PollOutcome,
)
    requires
        poll_rel(pre, post, now_ms, timeout_ms, ev, out),
    ensures
        match out {
            PollOutcome::Done(g) => post.process is None && !g@.live,
            PollOutcome::TimedOut(g) => post.process is None && !g@.live,
            PollOutcome::Failed(g) => post.process is None && !g@.live,
            PollOutcome::Idle => post == pre && pre.process is None,
            PollOutcome::Running => post.process == pre.process,
        },
{
}

} // verus!
