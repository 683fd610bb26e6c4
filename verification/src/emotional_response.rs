//! The emotional state tracker: one active emotion, a keyed memory of the
//! emotions that past triggers caused, and the fixed table that turns the
//! active emotion into an action.

use vstd::hash_map::StringHashMap;
use vstd::prelude::*;

verus! {

/// The emotional states an agent can be in. Exactly one is active at a time.
#[derive(Debug, Clone, Copy, PartialEq, Eq)]
pub enum Emotion {
    Joy,
    Trust,
    Fear,
    Surprise,
    Sadness,
    Disgust,
    Anger,
    Anticipation,
    Neutral,
}

/// The name of the action that an emotion calls for.
pub open spec fn action_for_emotion(emotion: Emotion) -> Seq<char> {
    match emotion {
        Emotion::Joy => "Dance"@,
        Emotion::Trust => "Collaborate"@,
        Emotion::Fear => "Hide"@,
        Emotion::Surprise => "Investigate"@,
        Emotion::Sadness => "Cry"@,
        Emotion::Disgust => "Reject"@,
        Emotion::Anger => "Shout"@,
        Emotion::Anticipation => "Prepare"@,
        Emotion::Neutral => "Observe"@,
    }
}

/// The mathematical model of an [`EmotionalResponse`]: the active emotion and
/// the emotion remembered for each trigger.
pub ghost struct EmotionalState {
    pub current: Emotion,
    pub memory: Map<Seq<char>, Emotion>,
}

impl EmotionalState {
    /// The state of a freshly created tracker: neutral, with nothing remembered.
    pub open spec fn initial() -> EmotionalState {
        EmotionalState { current: Emotion::Neutral, memory: Map::empty() }
    }

    /// This state with `emotion` as the active emotion.
    pub open spec fn with_emotion(self, emotion: Emotion) -> EmotionalState {
        EmotionalState { current: emotion, memory: self.memory }
    }

    /// This state after `emotion` was remembered for `trigger`; an earlier
    /// memory of the same trigger is overwritten.
    pub open spec fn remember(self, trigger: Seq<char>, emotion: Emotion) -> EmotionalState {
        EmotionalState { current: self.current, memory: self.memory.insert(trigger, emotion) }
    }

    /// The emotion remembered for `trigger`, if any.
    pub open spec fn recall(self, trigger: Seq<char>) -> Option<Emotion> {
        if self.memory.contains_key(trigger) {
            Some(self.memory[trigger])
        } else {
            None
        }
    }

    /// The action that this state calls for.
    pub open spec fn chosen_action(self) -> Seq<char> {
        action_for_emotion(self.current)
    }
}

/// The emotional response system of an agent.
pub struct EmotionalResponse {
    current_emotion: Emotion,
    memory: StringHashMap<Emotion>,
}

impl View for EmotionalResponse {
    type V = EmotionalState;

    closed spec fn view(&self) -> EmotionalState {
        EmotionalState { current: self.current_emotion, memory: self.memory@ }
    }
}

impl EmotionalResponse {
    /// Creates a tracker in the neutral state with an empty memory.
    pub fn new() -> (result: Self)
        ensures
            result@ == EmotionalState::initial(),
    {
        EmotionalResponse { current_emotion: Emotion::Neutral, memory: StringHashMap::new() }
    }

    /// Makes `emotion` the active emotion, whatever the active one was.
    pub fn set_emotion(&mut self, emotion: Emotion)
        ensures
            final(self)@ == old(self)@.with_emotion(emotion),
    {
        self.current_emotion = emotion;
    }

    /// The active emotion.
    pub fn get_emotion(&self) -> (result: &Emotion)
        ensures
            *result == self@.current,
    {
        &self.current_emotion
    }

    /// Remembers `emotion` as what `trigger` caused, replacing any earlier
    /// memory of that trigger.
    pub fn record_memory(&mut self, trigger: &str, emotion: Emotion)
        ensures
            final(self)@ == old(self)@.remember(trigger@, emotion),
    {
        self.memory.insert(trigger.to_owned(), emotion);
    }

    /// The emotion remembered for `trigger`, or `None` if none was recorded.
    pub fn get_memory(&self, trigger: &str) -> (result: Option<&Emotion>)
        ensures
            match result {
                Some(emotion) => self@.recall(trigger@) == Some(*emotion),
                None => self@.recall(trigger@) is None,
            },
    {
        self.memory.get(trigger)
    }

    /// The action that the active emotion calls for. Neither the memory nor
    /// anything outside this tracker takes part in the choice.
    pub fn choose_action(&self) -> (result: String)
        ensures
            result@ == self@.chosen_action(),
    {
        match self.current_emotion {
            Emotion::Joy => "Dance".to_owned(),
            Emotion::Trust => "Collaborate".to_owned(),
            Emotion::Fear => "Hide".to_owned(),
            Emotion::Surprise => "Investigate".to_owned(),
            Emotion::Sadness => "Cry".to_owned(),
            Emotion::Disgust => "Reject".to_owned(),
            Emotion::Anger => "Shout".to_owned(),
            Emotion::Anticipation => "Prepare".to_owned(),
            Emotion::Neutral => "Observe".to_owned(),
        }
    }
}

/// Whatever emotion is set is the active emotion afterwards; any emotion can
/// follow any other.
pub proof fn lemma_set_emotion_is_read_back(state: EmotionalState, emotion: Emotion)
    ensures
        state.with_emotion(emotion).current == emotion,
        state.with_emotion(emotion).memory == state.memory,
{
}

/// The choice of action depends on the active emotion alone: two trackers
/// with the same active emotion choose alike, whatever they remember.
pub proof fn lemma_choice_depends_on_emotion_alone(a: EmotionalState, b: EmotionalState)
    requires
        a.current == b.current,
    ensures
        a.chosen_action() == b.chosen_action(),
{
}

/// Recording a memory changes neither the active emotion nor the choice of
/// action.
pub proof fn lemma_memory_leaves_choice_alone(
    state: EmotionalState,
    trigger: Seq<char>,
    emotion: Emotion,
)
    ensures
        state.remember(trigger, emotion).current == state.current,
        state.remember(trigger, emotion).chosen_action() == state.chosen_action(),
{
}

/// What was recorded for a trigger is what is recalled for it, and the
/// memories of other triggers stay as they were.
pub proof fn lemma_recorded_emotion_is_recalled(
    state: EmotionalState,
    trigger: Seq<char>,
    emotion: Emotion,
    other: Seq<char>,
)
    ensures
        state.remember(trigger, emotion).recall(trigger) == Some(emotion),
        other != trigger ==> state.remember(trigger, emotion).recall(other) == state.recall(other),
{
}

/// A fresh tracker recalls nothing, and setting the emotion does not change
/// what is recalled.
pub proof fn lemma_unrecorded_trigger_is_absent(
    state: EmotionalState,
    trigger: Seq<char>,
    emotion: Emotion,
)
    ensures
        EmotionalState::initial().recall(trigger) is None,
        !state.memory.contains_key(trigger) ==> state.recall(trigger) is None,
        state.with_emotion(emotion).recall(trigger) == state.recall(trigger),
{
}

} // verus!
