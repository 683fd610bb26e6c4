//! The decision engine: a behavioural state, a catalog of actions supplied by
//! the caller, and a free-text memory. The state names the action it desires;
//! the catalog says whether the agent has such an action and what it is.

use crate::text::str_eq;
use vstd::hash_map::StringHashMap;
use vstd::prelude::*;

verus! {

/// The label of a behavioural state. Any text is a legal label.
pub type State = String;

/// Something the agent could attempt.
#[derive(Debug, Clone)]
pub struct Action {
    pub name: String,
    pub description: String,
}

/// The mathematical model of an [`Action`].
pub ghost struct ActionText {
    pub name: Seq<char>,
    pub description: Seq<char>,
}

impl View for Action {
    type V = ActionText;

    open spec fn view(&self) -> ActionText {
        ActionText { name: self.name@, description: self.description@ }
    }
}

/// The model of a catalog: the models of its actions, in catalog order.
pub open spec fn catalog_of(actions: Seq<Action>) -> Seq<ActionText> {
    actions.map_values(|action: Action| action@)
}

/// What a state label means to the decision table. Every label that the
/// table has no entry for is `Unmapped`.
#[derive(Debug, Clone, Copy, PartialEq, Eq)]
pub enum Situation {
    Idle,
    Alert,
    Engaged,
    Fleeing,
    Unmapped,
}

impl Situation {
    /// The situation that a state label stands for.
    pub open spec fn of_label(label: Seq<char>) -> Situation {
        if label == "Idle"@ {
            Situation::Idle
        } else if label == "Alert"@ {
            Situation::Alert
        } else if label == "Engaged"@ {
            Situation::Engaged
        } else if label == "Fleeing"@ {
            Situation::Fleeing
        } else {
            Situation::Unmapped
        }
    }

    /// The name of the action that this situation desires, if it desires one.
    pub open spec fn desired_name(self) -> Option<Seq<char>> {
        match self {
            Situation::Idle => Some("Rest"@),
            Situation::Alert => Some("Investigate"@),
            Situation::Engaged => Some("Talk"@),
            Situation::Fleeing => Some("Run"@),
            Situation::Unmapped => None,
        }
    }

    /// Reads a state label.
    pub fn classify(label: &str) -> (situation: Situation)
        ensures
            situation == Situation::of_label(label@),
    {
        if str_eq(label, "Idle") {
            Situation::Idle
        } else if str_eq(label, "Alert") {
            Situation::Alert
        } else if str_eq(label, "Engaged") {
            Situation::Engaged
        } else if str_eq(label, "Fleeing") {
            Situation::Fleeing
        } else {
            Situation::Unmapped
        }
    }

    /// The name of the action that this situation desires, if it desires one.
    pub fn desired_action(self) -> (name: Option<&'static str>)
        ensures
            match name {
                Some(text) => self.desired_name() == Some(text@),
                None => self.desired_name() is None,
            },
    {
        match self {
            Situation::Idle => Some("Rest"),
            Situation::Alert => Some("Investigate"),
            Situation::Engaged => Some("Talk"),
            Situation::Fleeing => Some("Run"),
            Situation::Unmapped => None,
        }
    }
}

/// Whether position `i` holds the first action of the catalog called `name`.
pub open spec fn is_first_named(actions: Seq<ActionText>, name: Seq<char>, i: int) -> bool {
    &&& 0 <= i < actions.len()
    &&& actions[i].name == name
    &&& forall|j: int| 0 <= j < i ==> actions[j].name != name
}

/// What selecting the action called `name` from a catalog reports: the
/// description of the first action of that name, or that there is none.
pub open spec fn selection(actions: Seq<ActionText>, name: Seq<char>) -> Seq<char> {
    if exists|i: int| is_first_named(actions, name, i) {
        let first = choose|i: int| is_first_named(actions, name, i);
        "Action selected: "@ + actions[first].description
    } else {
        "Action not found"@
    }
}

/// A catalog has at most one first action of a given name.
pub proof fn lemma_first_named_is_unique(
    actions: Seq<ActionText>,
    name: Seq<char>,
    i: int,
    j: int,
)
    requires
        is_first_named(actions, name, i),
        is_first_named(actions, name, j),
    ensures
        i == j,
{
    if i < j {
        assert(actions[i].name != name);
    } else if j < i {
        assert(actions[j].name != name);
    }
}

/// Selecting a name reports the description of the first action that bears
/// it, however many later actions share the name.
pub proof fn lemma_selection_takes_first(actions: Seq<ActionText>, name: Seq<char>, i: int)
    requires
        is_first_named(actions, name, i),
    ensures
        selection(actions, name) == "Action selected: "@ + actions[i].description,
{
    let first = choose|k: int| is_first_named(actions, name, k);
    lemma_first_named_is_unique(actions, name, i, first);
}

/// Selecting a name that no action of the catalog bears reports that the
/// action was not found.
pub proof fn lemma_selection_of_absent_name(actions: Seq<ActionText>, name: Seq<char>)
    requires
        forall|i: int| 0 <= i < actions.len() ==> actions[i].name != name,
    ensures
        selection(actions, name) == "Action not found"@,
{
}

/// The mathematical model of an [`AdaptiveIntelligence`].
pub ghost struct DecisionState {
    /// The label of the current behavioural state.
    pub state: Seq<char>,
    /// What is remembered under each key.
    pub memory: Map<Seq<char>, Seq<char>>,
    /// The catalog of actions, in the order it was supplied.
    pub actions: Seq<ActionText>,
}

impl DecisionState {
    /// The state of a freshly created engine with the catalog `actions`.
    pub open spec fn initial(actions: Seq<ActionText>) -> DecisionState {
        DecisionState { state: "Idle"@, memory: Map::empty(), actions }
    }

    /// This state after the behavioural state was set to `label`.
    pub open spec fn with_state(self, label: Seq<char>) -> DecisionState {
        DecisionState { state: label, memory: self.memory, actions: self.actions }
    }

    /// This state after `value` was remembered under `key`; an earlier memory
    /// under the same key is overwritten.
    pub open spec fn remember(self, key: Seq<char>, value: Seq<char>) -> DecisionState {
        DecisionState {
            state: self.state,
            memory: self.memory.insert(key, value),
            actions: self.actions,
        }
    }

    /// What is remembered under `key`, if anything.
    pub open spec fn recall(self, key: Seq<char>) -> Option<Seq<char>> {
        if self.memory.contains_key(key) {
            Some(self.memory[key])
        } else {
            None
        }
    }

    /// What choosing an action reports in this state. The state names the
    /// action it desires; the catalog is then searched for that name.
    pub open spec fn chosen_action(self) -> Seq<char> {
        match Situation::of_label(self.state).desired_name() {
            Some(name) => selection(self.actions, name),
            None => "No action available"@,
        }
    }
}

/// The adaptive intelligence of an agent.
pub struct AdaptiveIntelligence {
    current_state: State,
    memory: StringHashMap<String>,
    actions: Vec<Action>,
}

impl View for AdaptiveIntelligence {
    type V = DecisionState;

    closed spec fn view(&self) -> DecisionState {
        DecisionState {
            state: self.current_state@,
            memory: self.memory@.map_values(|value: String| value@),
            actions: catalog_of(self.actions@),
        }
    }
}

impl AdaptiveIntelligence {
    /// Creates an engine in the state "Idle" with an empty memory and the
    /// given catalog of actions.
    pub fn new(actions: Vec<Action>) -> (result: Self)
        ensures
            result@ == DecisionState::initial(catalog_of(actions@)),
    {
        let result = AdaptiveIntelligence {
            current_state: "Idle".to_owned(),
            memory: StringHashMap::new(),
            actions,
        };
        assert(result@.memory =~= Map::empty());
        result
    }

    /// Sets the behavioural state to `new_state`. Any label is accepted,
    /// also one that the decision table has no entry for.
    pub fn update_state(&mut self, new_state: &str)
        ensures
            final(self)@ == old(self)@.with_state(new_state@),
    {
        self.current_state = new_state.to_owned();
    }

    /// Chooses an action for the current state and reports the choice.
    pub fn choose_action(&self) -> (result: String)
        ensures
            result@ == self@.chosen_action(),
    {
        match Situation::classify(self.current_state.as_str()).desired_action() {
            Some(name) => self.select_action(name),
            None => "No action available".to_owned(),
        }
    }

    /// Looks the action called `action_name` up in the catalog and reports
    /// the first match, or that there is none.
    fn select_action(&self, action_name: &str) -> (result: String)
        ensures
            result@ == selection(self@.actions, action_name@),
    {
        let ghost catalog = self@.actions;
        let mut i: usize = 0;
        while i < self.actions.len()
            invariant
                i <= self.actions.len(),
                catalog == catalog_of(self.actions@),
                forall|j: int| 0 <= j < i ==> catalog[j].name != action_name@,
            decreases self.actions.len() - i,
        {
            let action = &self.actions[i];
            if str_eq(action.name.as_str(), action_name) {
                proof {
                    lemma_selection_takes_first(catalog, action_name@, i as int);
                }
                return "Action selected: ".to_owned().concat(action.description.as_str());
            }
            i += 1;
        }
        "Action not found".to_owned()
    }

    /// Remembers `value` under `key`, replacing any earlier memory under
    /// that key.
    pub fn record_memory(&mut self, key: &str, value: &str)
        ensures
            final(self)@ == old(self)@.remember(key@, value@),
    {
        self.memory.insert(key.to_owned(), value.to_owned());
        assert(self@.memory =~= old(self)@.memory.insert(key@, value@));
    }

    /// What is remembered under `key`, or `None` if nothing was recorded.
    pub fn get_memory(&self, key: &str) -> (result: Option<&String>)
        ensures
            match result {
                Some(value) => self@.recall(key@) == Some(value@),
                None => self@.recall(key@) is None,
            },
    {
        self.memory.get(key)
    }

    /// The label of the current behavioural state.
    pub fn get_current_state(&self) -> (result: &String)
        ensures
            result@ == self@.state,
    {
        &self.current_state
    }
}

/// A state that the decision table has no entry for yields no action,
/// whatever the catalog holds.
pub proof fn lemma_unmapped_state_has_no_action(state: DecisionState)
    requires
        Situation::of_label(state.state) is Unmapped,
    ensures
        state.chosen_action() == "No action available"@,
{
}

/// The choice of action depends on the behavioural state and the catalog
/// alone: the memory takes no part in it.
pub proof fn lemma_choice_ignores_memory(a: DecisionState, b: DecisionState)
    requires
        a.state == b.state,
        a.actions == b.actions,
    ensures
        a.chosen_action() == b.chosen_action(),
{
}

/// A state whose desired action is missing from the catalog is told so,
/// although the decision table did name an action.
pub proof fn lemma_desired_action_may_be_missing(state: DecisionState, name: Seq<char>)
    requires
        Situation::of_label(state.state).desired_name() == Some(name),
        forall|i: int| 0 <= i < state.actions.len() ==> state.actions[i].name != name,
    ensures
        state.chosen_action() == "Action not found"@,
{
    lemma_selection_of_absent_name(state.actions, name);
}

/// What was recorded under a key is what is recalled under it, and what is
/// remembered under other keys stays as it was.
pub proof fn lemma_recorded_memory_is_recalled(
    state: DecisionState,
    key: Seq<char>,
    value: Seq<char>,
    other: Seq<char>,
)
    ensures
        state.remember(key, value).recall(key) == Some(value),
        other != key ==> state.remember(key, value).recall(other) == state.recall(other),
{
}

/// A fresh engine recalls nothing, and a change of state does not change
/// what is recalled.
pub proof fn lemma_unrecorded_key_is_absent(
    state: DecisionState,
    actions: Seq<ActionText>,
    key: Seq<char>,
    label: Seq<char>,
)
    ensures
        DecisionState::initial(actions).recall(key) is None,
        !state.memory.contains_key(key) ==> state.recall(key) is None,
        state.with_state(label).recall(key) == state.recall(key),
{
}

} // verus!
