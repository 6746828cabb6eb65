//! The ordered collection of sessions, one per discovered model, with a
//! cyclically navigable current selection and tick-driven fan-out polling.

use vstd::prelude::*;

use crate::config::ModelConfig;
use crate::process::GeneratorProcess;
use crate::session::{
    cancel_rel, delete_rel, poll_rel, session_wf, spec_new_session, submit_rel, PollOutcome,
    ReadEvent, Session,
};

verus! {

/// The sessions, in model-discovery order, plus the selected index. The
/// collection is built once and never resized; the selection is always a
/// valid index.
pub struct SessionStore {
    sessions: Vec<Session>,
    current_index: usize,
}

impl SessionStore {
    /// The sessions, in order.
    pub closed spec fn spec_sessions(&self) -> Seq<Session> {
        self.sessions@
    }

    /// The selected index.
    pub closed spec fn spec_current(&self) -> int {
        self.current_index as int
    }

    /// Well-formedness: at least one session, a valid selection, and every
    /// session well formed.
    pub open spec fn wf(&self) -> bool {
        &&& self.spec_sessions().len() >= 1
        &&& 0 <= self.spec_current() < self.spec_sessions().len()
        &&& forall|i: int|
            0 <= i < self.spec_sessions().len() ==> session_wf(#[trigger] self.spec_sessions()[i]@)
    }

    /// One fresh session per (model, configuration) pair, in the given
    /// order, with the first selected.
    pub fn new(models_with_config: Vec<(String, ModelConfig)>) -> (r: SessionStore)
        requires
            models_with_config@.len() >= 1,
        ensures
            r.wf(),
            r.spec_current() == 0,
            r.spec_sessions().len() == models_with_config@.len(),
            forall|i: int|
                0 <= i < models_with_config@.len() ==> #[trigger] r.spec_sessions()[i]@
                    == spec_new_session(
                    models_with_config@[i].0@,
                    models_with_config@[i].1@,
                ),
    {
        let mut pairs = models_with_config;
        let ghost orig = pairs@;
        let mut sessions: Vec<Session> = Vec::new();
        while pairs.len() > 0
            invariant
                sessions@.len() + pairs@.len() == orig.len(),
                pairs@ =~= orig.skip(sessions@.len() as int),
                forall|j: int|
                    0 <= j < sessions@.len() ==> #[trigger] sessions@[j]@ == spec_new_session(
                        orig[j].0@,
                        orig[j].1@,
                    ),
            decreases pairs@.len(),
        {
            let ghost k = sessions@.len();
            let (model_ref, config) = pairs.remove(0);
            proof {
                assert(pairs@ =~= orig.skip(k as int + 1));
            }
            sessions.push(Session::new(model_ref, config));
        }
        SessionStore { sessions, current_index: 0 }
    }

    /// How many sessions the store holds.
    pub fn len(&self) -> (r: usize)
        ensures
            r == self.spec_sessions().len(),
    {
        self.sessions.len()
    }

    /// The selected index.
    pub fn current_index(&self) -> (r: usize)
        ensures
            r == self.spec_current(),
    {
        self.current_index
    }

    /// The selected session.
    pub fn current(&self) -> (r: &Session)
        requires
            self.wf(),
        ensures
            *r == self.spec_sessions()[self.spec_current()],
    {
        &self.sessions[self.current_index]
    }

    /// The session at a given index.
    pub fn session_at(&self, i: usize) -> (r: &Session)
        requires
            i < self.spec_sessions().len(),
        ensures
            *r == self.spec_sessions()[i as int],
    {
        &self.sessions[i]
    }

    /// Advances the selection, wrapping from the last session to the first.
    /// With a single session the selection stays put.
    pub fn next(&mut self)
        requires
            old(self).wf(),
        ensures
            final(self).wf(),
            final(self).spec_sessions() == old(self).spec_sessions(),
            final(self).spec_current() == if old(self).spec_current() + 1 < old(
                self,
            ).spec_sessions().len() {
                old(self).spec_current() + 1
            } else {
                0
            },
            old(self).spec_sessions().len() == 1 ==> final(self).spec_current() == old(
                self,
            ).spec_current(),
    {
        let n = self.sessions.len();
        if self.current_index < n - 1 {
            self.current_index = self.current_index + 1;
        } else {
            self.current_index = 0;
        }
    }

    /// Retreats the selection, wrapping from the first session to the last.
    /// With a single session the selection stays put.
    pub fn prev(&mut self)
        requires
            old(self).wf(),
        ensures
            final(self).wf(),
            final(self).spec_sessions() == old(self).spec_sessions(),
            final(self).spec_current() == if old(self).spec_current() > 0 {
                old(self).spec_current() - 1
            } else {
                old(self).spec_sessions().len() - 1
            },
            old(self).spec_sessions().len() == 1 ==> final(self).spec_current() == old(
                self,
            ).spec_current(),
    {
        if self.current_index > 0 {
            self.current_index = self.current_index - 1;
        } else {
            self.current_index = self.sessions.len() - 1;
        }
    }

    /// Polls every session in index order, each with what the host read for
    /// it, and returns the outcomes in the same order.
    pub fn tick(&mut self, now_ms: u64, timeout_ms: u64, events: Vec<ReadEvent>) -> (r: Vec<
        PollOutcome,
    >)
        requires
            old(self).wf(),
            events@.len() == old(self).spec_sessions().len(),
        ensures
            final(self).wf(),
            final(self).spec_current() == old(self).spec_current(),
            final(self).spec_sessions().len() == old(self).spec_sessions().len(),
            r@.len() == old(self).spec_sessions().len(),
            forall|i: int|
                0 <= i < r@.len() ==> poll_rel(
                    old(self).spec_sessions()[i]@,
                    final(self).spec_sessions()[i]@,
                    now_ms,
                    timeout_ms,
                    events@[i],
                    #[trigger] r@[i],
                ),
    {
        let mut events = events;
        let ghost evs = events@;
        let mut outcomes: Vec<PollOutcome> = Vec::new();
        let n = self.sessions.len();
        let mut i: usize = 0;
        proof {
            assert(events@ =~= evs.skip(0));
        }
        while i < n
            invariant
                0 <= i <= n,
                n == self.sessions@.len(),
                n == old(self).spec_sessions().len(),
                n == evs.len(),
                self.current_index == old(self).current_index,
                events@ =~= evs.skip(i as int),
                outcomes@.len() == i,
                forall|j: int|
                    0 <= j < i ==> poll_rel(
                        old(self).spec_sessions()[j]@,
                        self.sessions@[j]@,
                        now_ms,
                        timeout_ms,
                        evs[j],
                        #[trigger] outcomes@[j],
                    ),
                forall|j: int|
                    i <= j < n ==> #[trigger] self.sessions@[j] == old(self).spec_sessions()[j],
                forall|j: int| 0 <= j < n ==> session_wf(#[trigger] self.sessions@[j]@),
            decreases n - i,
        {
            let ev = events.remove(0);
            proof {
                assert(events@ =~= evs.skip(i as int + 1));
                assert(ev == evs[i as int]);
            }
            let ghost before = self.sessions@;
            let mut s = self.sessions.remove(i);
            let out = s.poll(now_ms, timeout_ms, ev);
            self.sessions.insert(i, s);
            proof {
                assert(self.sessions@ =~= before.update(i as int, self.sessions@[i as int]));
            }
            outcomes.push(out);
            i = i + 1;
        }
        outcomes
    }

    /// Submits the selected session's draft; the other sessions are
    /// untouched.
    pub fn submit_current(&mut self, now_ms: u64) -> (r: Option<Vec<String>>)
        requires
            old(self).wf(),
        ensures
            final(self).wf(),
            final(self).spec_current() == old(self).spec_current(),
            final(self).spec_sessions().len() == old(self).spec_sessions().len(),
            submit_rel(
                old(self).spec_sessions()[old(self).spec_current()]@,
                final(self).spec_sessions()[old(self).spec_current()]@,
                now_ms,
                r,
            ),
            forall|j: int|
                0 <= j < old(self).spec_sessions().len() && j != old(self).spec_current()
                    ==> #[trigger] final(self).spec_sessions()[j] == old(self).spec_sessions()[j],
    {
        let i = self.current_index;
        let ghost before = self.sessions@;
        let mut s = self.sessions.remove(i);
        let r = s.submit(now_ms);
        self.sessions.insert(i, s);
        proof {
            assert(self.sessions@ =~= before.update(i as int, self.sessions@[i as int]));
        }
        r
    }

    /// Cancels the selected session's generation; the other sessions are
    /// untouched.
    pub fn cancel_current(&mut self) -> (r: Option<GeneratorProcess>)
        requires
            old(self).wf(),
        ensures
            final(self).wf(),
            final(self).spec_current() == old(self).spec_current(),
            final(self).spec_sessions().len() == old(self).spec_sessions().len(),
            cancel_rel(
                old(self).spec_sessions()[old(self).spec_current()]@,
                final(self).spec_sessions()[old(self).spec_current()]@,
                r,
            ),
            forall|j: int|
                0 <= j < old(self).spec_sessions().len() && j != old(self).spec_current()
                    ==> #[trigger] final(self).spec_sessions()[j] == old(self).spec_sessions()[j],
    {
        let i = self.current_index;
        let ghost before = self.sessions@;
        let mut s = self.sessions.remove(i);
        let r = s.cancel();
        self.sessions.insert(i, s);
        proof {
            assert(self.sessions@ =~= before.update(i as int, self.sessions@[i as int]));
        }
        r
    }

    /// Deletes the selected session's most recent exchange; the other
    /// sessions are untouched.
    pub fn delete_last_exchange_current(&mut self) -> (r: Option<GeneratorProcess>)
        requires
            old(self).wf(),
        ensures
            final(self).wf(),
            final(self).spec_current() == old(self).spec_current(),
            final(self).spec_sessions().len() == old(self).spec_sessions().len(),
            delete_rel(
                old(self).spec_sessions()[old(self).spec_current()]@,
                final(self).spec_sessions()[old(self).spec_current()]@,
                r,
            ),
            forall|j: int|
                0 <= j < old(self).spec_sessions().len() && j != old(self).spec_current()
                    ==> #[trigger] final(self).spec_sessions()[j] == old(self).spec_sessions()[j],
    {
        let i = self.current_index;
        let ghost before = self.sessions@;
        let mut s = self.sessions.remove(i);
        let r = s.delete_last_exchange();
        self.sessions.insert(i, s);
        proof {
            assert(self.sessions@ =~= before.update(i as int, self.sessions@[i as int]));
        }
        r
    }

    /// Appends one character to the selected session's draft.
    pub fn push_char_current(&mut self, chr: char)
        requires
            old(self).wf(),
        ensures
            final(self).wf(),
            final(self).spec_current() == old(self).spec_current(),
            final(self).spec_sessions().len() == old(self).spec_sessions().len(),
            final(self).spec_sessions()[old(self).spec_current()]@.draft.raw_input == old(
                self,
            ).spec_sessions()[old(self).spec_current()]@.draft.raw_input.push(chr),
            forall|j: int|
                0 <= j < old(self).spec_sessions().len() && j != old(self).spec_current()
                    ==> #[trigger] final(self).spec_sessions()[j] == old(self).spec_sessions()[j],
    {
        let i = self.current_index;
        let ghost before = self.sessions@;
        let mut s = self.sessions.remove(i);
        s.push_char(chr);
        self.sessions.insert(i, s);
        proof {
            assert(self.sessions@ =~= before.update(i as int, self.sessions@[i as int]));
        }
    }

    /// Appends a whole string to the selected session's draft.
    pub fn push_string_current(&mut self, text: &str)
        requires
            old(self).wf(),
        ensures
            final(self).wf(),
            final(self).spec_current() == old(self).spec_current(),
            final(self).spec_sessions().len() == old(self).spec_sessions().len(),
            final(self).spec_sessions()[old(self).spec_current()]@.draft.raw_input == old(
                self,
            ).spec_sessions()[old(self).spec_current()]@.draft.raw_input + text@,
            forall|j: int|
                0 <= j < old(self).spec_sessions().len() && j != old(self).spec_current()
                    ==> #[trigger] final(self).spec_sessions()[j] == old(self).spec_sessions()[j],
    {
        let i = self.current_index;
        let ghost before = self.sessions@;
        let mut s = self.sessions.remove(i);
        s.push_string(text);
        self.sessions.insert(i, s);
        proof {
            assert(self.sessions@ =~= before.update(i as int, self.sessions@[i as int]));
        }
    }

    /// Removes the last user-perceived character from the selected session's
    /// draft; a no-op on an empty draft.
    pub fn pop_back_input_current(&mut self)
        requires
            old(self).wf(),
        ensures
            final(self).wf(),
            final(self).spec_current() == old(self).spec_current(),
            final(self).spec_sessions().len() == old(self).spec_sessions().len(),
            old(self).spec_sessions()[old(self).spec_current()]@.draft.raw_input.len() == 0
                ==> final(self).spec_sessions()[old(self).spec_current()]@ == old(
                self,
            ).spec_sessions()[old(self).spec_current()]@,
            old(self).spec_sessions()[old(self).spec_current()]@.draft.raw_input.len() > 0
                ==> final(self).spec_sessions()[old(self).spec_current()]@.draft.raw_input.len()
                < old(self).spec_sessions()[old(self).spec_current()]@.draft.raw_input.len(),
            forall|j: int|
                0 <= j < old(self).spec_sessions().len() && j != old(self).spec_current()
                    ==> #[trigger] final(self).spec_sessions()[j] == old(self).spec_sessions()[j],
    {
        let i = self.current_index;
        let ghost before = self.sessions@;
        let mut s = self.sessions.remove(i);
        s.pop_back_input();
        self.sessions.insert(i, s);
        proof {
            assert(self.sessions@ =~= before.update(i as int, self.sessions@[i as int]));
        }
    }

    /// Hands the session's history to its configuration when it changed,
    /// returning the path the host should persist that configuration to.
    pub fn sync_history_at(&mut self, i: usize) -> (r: Option<String>)
        requires
            old(self).wf(),
            i < old(self).spec_sessions().len(),
        ensures
            final(self).wf(),
            final(self).spec_current() == old(self).spec_current(),
            final(self).spec_sessions().len() == old(self).spec_sessions().len(),
            final(self).spec_sessions()[i as int]@.history == old(self).spec_sessions()[
                i as int
            ]@.history,
            final(self).spec_sessions()[i as int]@.config.past_chunks == old(
                self,
            ).spec_sessions()[i as int]@.history,
            r is Some ==> old(self).spec_sessions()[i as int]@.config.past_chunks != old(
                self,
            ).spec_sessions()[i as int]@.history,
            forall|j: int|
                0 <= j < old(self).spec_sessions().len() && j != i
                    ==> #[trigger] final(self).spec_sessions()[j] == old(self).spec_sessions()[j],
    {
        let ghost before = self.sessions@;
        let mut s = self.sessions.remove(i);
        let r = s.sync_history();
        self.sessions.insert(i, s);
        proof {
            assert(self.sessions@ =~= before.update(i as int, self.sessions@[i as int]));
        }
        r
    }
}

} // verus!
