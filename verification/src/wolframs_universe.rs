//! The generation store: an append-only history of generations driven by a
//! rule evaluator, stepped one generation at a time.

use vstd::prelude::*;
use crate::indexing::MAX_WIDTH;
use crate::pattern_state_handler::{
    PatternStateHandler, pattern_next_state, patterns_of, lemma_patterns_from_shape,
    lemma_nonzero_rule_selects,
};

verus! {

/// The capability a rule evaluator offers: compute the next state of the
/// cell at a position, reading only the current row.
pub trait GetNextState {
    /// Construction-time well-formedness of the evaluator itself.
    spec fn wf(&self) -> bool;

    /// Whether the evaluator may be applied to a row of this shape.
    spec fn compatible(&self, row: Seq<bool>) -> bool;

    /// The next state of the cell at `index`, as a mathematical function of
    /// the row.
    spec fn next_state_spec(&self, row: Seq<bool>, index: int) -> bool;

    /// Computes the next state of the cell at `index` from the current row.
    fn get_next_element_state(&self, current_states: &Vec<bool>, index: usize) -> (next: bool)
        requires
            self.wf(),
            self.compatible(current_states@),
            (index as int) < current_states@.len(),
        ensures
            next == self.next_state_spec(current_states@, index as int),
    ;
}

/// The successor of a whole row under the pattern rule: every cell evaluated
/// in parallel against the same, unchanged row.
pub open spec fn next_row(patterns: Seq<Seq<bool>>, row: Seq<bool>) -> Seq<bool> {
    Seq::new(row.len(), |i: int| pattern_next_state(patterns, row, i))
}

/// A well-formed pattern evaluator built from a nonzero rule number.
pub proof fn lemma_pattern_handler_wf(handler: PatternStateHandler, rule: u8)
    requires
        handler.patterns.deep_view() == patterns_of(rule),
        rule != 0,
    ensures
        handler.wf(),
{
    lemma_nonzero_rule_selects(rule);
    lemma_patterns_from_shape(rule, 0);
}

/// The generation store: the ordered history of generations, the active rule
/// evaluator, and the simulation age.
#[derive(Clone)]
pub struct WolframsUniverse {
    /// Number of generations beyond the seed; increments by one per step.
    pub current_age: usize,
    /// Append-only history of generations; the entry at position 0 is the
    /// seed and the entry at position `current_age` is the newest.
    pub current_state: Vec<Vec<bool>>,
    /// The seed row the history was last reset to.
    pub last_state: Vec<bool>,
    /// The active rule evaluator; replaced wholesale on reset.
    pub state_handler: PatternStateHandler,
    /// The fixed row width of every generation in the history.
    pub x_len: usize,
}

impl WolframsUniverse {
    /// The structural invariant: every generation has the fixed width, the
    /// history holds exactly `current_age + 1` generations led by the seed,
    /// and the evaluator is well formed.
    pub open spec fn wf(&self) -> bool {
        &&& 0 < self.x_len <= MAX_WIDTH
        &&& self.current_state@.len() == self.current_age as int + 1
        &&& forall|i: int|
            0 <= i < self.current_state@.len() ==> (#[trigger] self.current_state@[i])@.len()
                == self.x_len as int
        &&& self.last_state@ == self.current_state@[0]@
        &&& self.state_handler.wf()
    }

    /// Builds a universe from a given seed row and rule number: history is
    /// just the seed, age is zero. The seed row stands in for an externally
    /// produced initial generation, random or otherwise.
    pub fn new_from_initial_state(initial_state: Vec<bool>, rule: u8) -> (universe: Self)
        requires
            0 < initial_state@.len() <= MAX_WIDTH,
            rule != 0,
        ensures
            universe.wf(),
            universe.x_len as int == initial_state@.len(),
            universe.current_age == 0,
            universe.current_state@.len() == 1,
            universe.current_state@[0]@ == initial_state@,
            universe.state_handler.patterns.deep_view() == patterns_of(rule),
    {
        let x_len = initial_state.len();
        let seed_copy = initial_state.clone();
        proof {
            assert(seed_copy@ =~= initial_state@);
        }
        let mut current_state: Vec<Vec<bool>> = Vec::new();
        current_state.push(seed_copy);
        let state_handler = PatternStateHandler::new(rule);
        proof {
            lemma_pattern_handler_wf(state_handler, rule);
        }
        Self { current_age: 0, current_state, last_state: initial_state, state_handler, x_len }
    }

    /// Builds a universe whose seed is all dead cells, under the default
    /// rule number 182.
    pub fn _new_empty(x_len: usize) -> (universe: Self)
        requires
            0 < x_len <= MAX_WIDTH,
        ensures
            universe.wf(),
            universe.x_len == x_len,
            universe.current_age == 0,
            universe.current_state@.len() == 1,
            universe.current_state@[0]@.len() == x_len as int,
            forall|i: int| 0 <= i < x_len ==> universe.current_state@[0]@[i] == false,
            universe.state_handler.patterns.deep_view() == patterns_of(182),
    {
        let init_state = uniform_row(x_len, false);
        Self::new_from_initial_state(init_state, 182)
    }

    /// Builds a universe whose seed is all alive cells, under the default
    /// rule number 182.
    pub fn _new_full(x_len: usize) -> (universe: Self)
        requires
            0 < x_len <= MAX_WIDTH,
        ensures
            universe.wf(),
            universe.x_len == x_len,
            universe.current_age == 0,
            universe.current_state@.len() == 1,
            universe.current_state@[0]@.len() == x_len as int,
            forall|i: int| 0 <= i < x_len ==> universe.current_state@[0]@[i] == true,
            universe.state_handler.patterns.deep_view() == patterns_of(182),
    {
        let init_state = uniform_row(x_len, true);
        Self::new_from_initial_state(init_state, 182)
    }

    /// Builds a universe whose seed has a single alive cell at the middle
    /// position, under the default rule number 182.
    pub fn _new_with_full_middle(x_len: usize) -> (universe: Self)
        requires
            0 < x_len <= MAX_WIDTH,
        ensures
            universe.wf(),
            universe.x_len == x_len,
            universe.current_age == 0,
            universe.current_state@.len() == 1,
            universe.current_state@[0]@.len() == x_len as int,
            universe.current_state@[0]@[x_len as int / 2] == true,
            forall|i: int|
                0 <= i < x_len && i != x_len as int / 2 ==> universe.current_state@[0]@[i] == false,
            universe.state_handler.patterns.deep_view() == patterns_of(182),
    {
        let init_state = Self::init_with_full_middle(x_len);
        Self::new_from_initial_state(init_state, 182)
    }

    /// A seed row of the given width, all dead except the single cell at the
    /// middle position `x_len / 2` (truncating division).
    pub fn init_with_full_middle(x_len: usize) -> (state: Vec<bool>)
        requires
            0 < x_len,
        ensures
            state@.len() == x_len as int,
            state@[x_len as int / 2] == true,
            forall|i: int| 0 <= i < x_len && i != x_len as int / 2 ==> state@[i] == false,
    {
        let middle: usize = x_len / 2;
        let mut state: Vec<bool> = Vec::new();
        let mut i: usize = 0;
        while i < x_len
            invariant
                i <= x_len,
                middle == x_len as int / 2,
                state@.len() == i as int,
                forall|j: int| 0 <= j < i ==> state@[j] == (j == middle as int),
            decreases x_len - i,
        {
            state.push(i == middle);
            i = i + 1;
        }
        state
    }

    /// Computes the successor of a whole row: the evaluator is asked once per
    /// position, every query reading the same prior row.
    pub fn get_next_universe_state<Handler: GetNextState>(
        current_states: &Vec<bool>,
        state_handler: &Handler,
    ) -> (next: Vec<bool>)
        requires
            state_handler.wf(),
            state_handler.compatible(current_states@),
        ensures
            next@.len() == current_states@.len(),
            forall|i: int|
                0 <= i < next@.len() ==> next@[i] == state_handler.next_state_spec(
                    current_states@,
                    i,
                ),
    {
        let mut result: Vec<bool> = Vec::new();
        let mut position: usize = 0;
        while position < current_states.len()
            invariant
                state_handler.wf(),
                state_handler.compatible(current_states@),
                position as int <= current_states@.len(),
                result@.len() == position as int,
                forall|i: int|
                    0 <= i < result@.len() ==> result@[i] == state_handler.next_state_spec(
                        current_states@,
                        i,
                    ),
            decreases current_states@.len() - position as int,
        {
            let state = state_handler.get_next_element_state(current_states, position);
            result.push(state);
            position = position + 1;
        }
        result
    }

    /// Advances the simulation by one generation: the newest generation's
    /// successor is appended to the history and the age grows by one. The
    /// history below the new entry is left untouched.
    pub fn iterate(&mut self)
        requires
            old(self).wf(),
            old(self).current_age < usize::MAX,
        ensures
            final(self).wf(),
            final(self).x_len == old(self).x_len,
            final(self).state_handler == old(self).state_handler,
            final(self).last_state == old(self).last_state,
            final(self).current_age as int == old(self).current_age as int + 1,
            final(self).current_state@.len() == old(self).current_state@.len() + 1,
            forall|i: int|
                0 <= i < old(self).current_state@.len() ==> final(self).current_state@[i] == old(
                    self,
                ).current_state@[i],
            final(self).current_state@.last()@ == next_row(
                old(self).state_handler.patterns.deep_view(),
                old(self).current_state@.last()@,
            ),
    {
        self.current_age = self.current_age + 1;
        let last_index: usize = self.current_state.len() - 1;
        let next_state = Self::get_next_universe_state(
            &self.current_state[last_index],
            &self.state_handler,
        );
        proof {
            assert(next_state@ =~= next_row(
                self.state_handler.patterns.deep_view(),
                self.current_state@.last()@,
            ));
        }
        self.current_state.push(next_state);
    }

    /// Resets the universe to a given seed row and rule number, whatever its
    /// prior state: the history is replaced by the seed alone and the age
    /// returns to zero.
    pub fn recreate_from_initial_state(&mut self, initial_state: Vec<bool>, rule: u8)
        requires
            0 < initial_state@.len() <= MAX_WIDTH,
            rule != 0,
        ensures
            final(self).wf(),
            final(self).x_len as int == initial_state@.len(),
            final(self).current_age == 0,
            final(self).current_state@.len() == 1,
            final(self).current_state@[0]@ == initial_state@,
            final(self).state_handler.patterns.deep_view() == patterns_of(rule),
    {
        let replacement = Self::new_from_initial_state(initial_state, rule);
        *self = replacement;
    }

    /// Resets the universe to a single-alive-center seed of the given width
    /// and a fresh evaluator for `rule`, whatever its prior state: the
    /// history is replaced by the seed alone and the age returns to zero.
    pub fn recreate_with_full_middle(&mut self, x_len: usize, rule: u8)
        requires
            0 < x_len <= MAX_WIDTH,
            rule != 0,
        ensures
            final(self).wf(),
            final(self).x_len == x_len,
            final(self).current_age == 0,
            final(self).current_state@.len() == 1,
            final(self).current_state@[0]@.len() == x_len as int,
            final(self).current_state@[0]@[x_len as int / 2] == true,
            forall|i: int|
                0 <= i < x_len && i != x_len as int / 2 ==> final(self).current_state@[0]@[i] == false,
            final(self).state_handler.patterns.deep_view() == patterns_of(rule),
    {
        let init_state = Self::init_with_full_middle(x_len);
        self.recreate_from_initial_state(init_state, rule);
    }
}

impl Default for WolframsUniverse {
    /// The default universe is degenerate: an empty history under the default
    /// rule number 182 and width 50. It must be re-seeded before stepping.
    fn default() -> (universe: Self)
        ensures
            universe.current_age == 0,
            universe.current_state@.len() == 0,
            universe.last_state@.len() == 0,
            universe.state_handler.patterns.deep_view() == patterns_of(182),
            universe.x_len == 50,
    {
        Self {
            current_age: 0,
            current_state: Vec::new(),
            last_state: Vec::new(),
            state_handler: PatternStateHandler::new(182),
            x_len: 50,
        }
    }
}

/// A row of the given width with every cell in the same state.
fn uniform_row(x_len: usize, state: bool) -> (row: Vec<bool>)
    ensures
        row@.len() == x_len as int,
        forall|i: int| 0 <= i < x_len ==> row@[i] == state,
{
    let mut row: Vec<bool> = Vec::new();
    let mut i: usize = 0;
    while i < x_len
        invariant
            i <= x_len,
            row@.len() == i as int,
            forall|j: int| 0 <= j < i ==> row@[j] == state,
        decreases x_len - i,
    {
        row.push(state);
        i = i + 1;
    }
    row
}

} // verus!
