//! One request/response exchange: what the user typed, the prompt that was
//! actually submitted, and the accumulated response text.

use vstd::prelude::*;

verus! {

/// The mathematical content of a [`Turn`]: three character sequences.
#[verifier::ext_equal]
pub struct TurnView {
    pub raw_input: Seq<char>,
    pub formatted_prompt: Seq<char>,
    pub response: Seq<char>,
}

/// A single request/response exchange. `formatted_prompt` is set exactly when
/// the turn has been (or is being) submitted; a draft keeps it empty.
pub struct Turn {
    /// Exactly what the user typed, unprocessed.
    pub raw_input: String,
    /// `prefix + raw_input + suffix`, computed once at submission time.
    pub formatted_prompt: String,
    /// Accumulated, echo-stripped generation output; empty until the
    /// generator produces bytes.
    pub response: String,
}

impl View for Turn {
    type V = TurnView;

    open spec fn view(&self) -> TurnView {
        TurnView {
            raw_input: self.raw_input@,
            formatted_prompt: self.formatted_prompt@,
            response: self.response@,
        }
    }
}

impl DeepView for Turn {
    type V = TurnView;

    open spec fn deep_view(&self) -> TurnView {
        self.view()
    }
}

/// The view of an empty turn.
pub open spec fn empty_turn() -> TurnView {
    TurnView {
        raw_input: Seq::<char>::empty(),
        formatted_prompt: Seq::<char>::empty(),
        response: Seq::<char>::empty(),
    }
}

impl Turn {
    /// An empty turn: nothing typed, not submitted, no output.
    pub fn new() -> (r: Turn)
        ensures
            r@ == empty_turn(),
    {
        let t = Turn {
            raw_input: String::new(),
            formatted_prompt: String::new(),
            response: String::new(),
        };
        proof {
            assert(t@ =~= empty_turn());
        }
        t
    }

    /// A turn assembled from its three parts.
    pub fn from_parts(raw_input: String, formatted_prompt: String, response: String) -> (r: Turn)
        ensures
            r@ == (TurnView {
                raw_input: raw_input@,
                formatted_prompt: formatted_prompt@,
                response: response@,
            }),
    {
        Turn { raw_input, formatted_prompt, response }
    }

    /// A copy of this turn with the same content.
    pub fn duplicate(&self) -> (r: Turn)
        ensures
            r@ == self@,
    {
        Turn {
            raw_input: self.raw_input.clone(),
            formatted_prompt: self.formatted_prompt.clone(),
            response: self.response.clone(),
        }
    }

    /// Whether two turns hold the same content.
    pub fn same_content(&self, other: &Turn) -> (r: bool)
        ensures
            r == (self@ == other@),
    {
        let r = self.raw_input == other.raw_input && self.formatted_prompt
            == other.formatted_prompt && self.response == other.response;
        proof {
            if self.raw_input@ == other.raw_input@ && self.formatted_prompt@
                == other.formatted_prompt@ && self.response@ == other.response@ {
                assert(self@ =~= other@);
            }
        }
        r
    }
}

/// Whether two sequences of turns hold the same content, element by element.
pub fn turns_equal(a: &Vec<Turn>, b: &Vec<Turn>) -> (r: bool)
    ensures
        r == (a.deep_view() == b.deep_view()),
{
    if a.len() != b.len() {
        proof {
            assert(a.deep_view().len() == a@.len());
            assert(b.deep_view().len() == b@.len());
        }
        return false;
    }
    let n = a.len();
    let mut i: usize = 0;
    while i < n
        invariant
            0 <= i <= n,
            n == a@.len() == b@.len(),
            forall|j: int| 0 <= j < i ==> a.deep_view()[j] == b.deep_view()[j],
        decreases n - i,
    {
        if !a[i].same_content(&b[i]) {
            proof {
                assert(a.deep_view()[i as int] != b.deep_view()[i as int]);
            }
            return false;
        }
        i = i + 1;
    }
    proof {
        assert(a.deep_view() =~= b.deep_view());
    }
    true
}

/// Copies a sequence of turns, content for content.
pub fn duplicate_turns(a: &Vec<Turn>) -> (r: Vec<Turn>)
    ensures
        r.deep_view() == a.deep_view(),
{
    let mut out: Vec<Turn> = Vec::new();
    let n = a.len();
    let mut i: usize = 0;
    while i < n
        invariant
            0 <= i <= n,
            n == a@.len(),
            out@.len() == i,
            forall|j: int| 0 <= j < i ==> out.deep_view()[j] == a.deep_view()[j],
        decreases n - i,
    {
        out.push(a[i].duplicate());
        i = i + 1;
    }
    proof {
        assert(out.deep_view() =~= a.deep_view());
    }
    out
}

} // verus!
