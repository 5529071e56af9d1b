//! Edge-triggered detection of hotkey chords.
//!
//! A sample is the list of keys that are down at one instant; it stands for
//! the set of its members, so neither order nor repetition matters. A chord
//! is a set of three keys. A sample triggers when it differs from the sample
//! before it and is exactly one of the configured chords.

use vstd::prelude::*;

verus! {

/// A key, by the number that the input source gives it.
pub type KeyCode = u16;

/// What the detector makes of a change from one sample to the next.
#[derive(Debug, Clone, Copy, PartialEq, Eq, Structural)]
pub enum Action {
    /// The keys changed into one of the configured chords.
    Trigger,
    /// Nothing to do.
    NoAction,
}

/// Three different keys that are recognised when pressed together.
#[derive(Debug, Clone, Copy)]
pub struct Chord {
    first: KeyCode,
    second: KeyCode,
    third: KeyCode,
}

impl View for Chord {
    type V = Set<KeyCode>;

    /// The keys of the chord.
    closed spec fn view(&self) -> Set<KeyCode> {
        set![self.first, self.second, self.third]
    }
}

impl Chord {
    /// The three keys differ from each other.
    pub closed spec fn wf(&self) -> bool {
        self.first != self.second && self.first != self.third && self.second != self.third
    }

    /// The chord of the three keys; `None` unless they differ from each
    /// other.
    pub fn new(first: KeyCode, second: KeyCode, third: KeyCode) -> (made: Option<Chord>)
        ensures
            made.is_some() <==> first != second && first != third && second != third,
            made matches Some(chord) ==> chord.wf() && chord@ == set![first, second, third],
    {
        if first == second || first == third || second == third {
            None
        } else {
            Some(Chord { first, second, third })
        }
    }

    /// Whether the keys that are down are those of the chord and no others.
    pub fn is_pressed_exactly(&self, keys: &Vec<KeyCode>) -> (exact: bool)
        ensures
            exact == (keys@.to_set() == self@),
    {
        let all_down = contains_key(keys, self.first) && contains_key(keys, self.second)
            && contains_key(keys, self.third);
        if !all_down {
            assert(self@.contains(self.first) && self@.contains(self.second) && self@.contains(
                self.third,
            ));
            return false;
        }
        let mut i: usize = 0;
        while i < keys.len()
            invariant
                i <= keys.len(),
                forall|k: int| 0 <= k < i ==> self@.contains(#[trigger] keys@[k]),
            decreases keys.len() - i,
        {
            let key = keys[i];
            if key != self.first && key != self.second && key != self.third {
                assert(keys@.contains(keys@[i as int]));
                assert(keys@.to_set().contains(key));
                return false;
            }
            i += 1;
        }
        assert(keys@.to_set() =~= self@);
        true
    }
}

/// A chord has exactly three keys.
pub proof fn lemma_chord_has_three_keys(chord: Chord)
    requires
        chord.wf(),
    ensures
        chord@.finite(),
        chord@.len() == 3,
{
    let one = Set::<KeyCode>::empty().insert(chord.first);
    let two = one.insert(chord.second);
    assert(chord@ =~= two.insert(chord.third));
    assert(one.len() == 1);
    assert(two.len() == 2);
}

/// Whether `key` is among `keys`.
pub fn contains_key(keys: &Vec<KeyCode>, key: KeyCode) -> (found: bool)
    ensures
        found == keys@.contains(key),
{
    let mut i: usize = 0;
    while i < keys.len()
        invariant
            i <= keys.len(),
            forall|k: int| 0 <= k < i ==> keys@[k] != key,
        decreases keys.len() - i,
    {
        if keys[i] == key {
            return true;
        }
        i += 1;
    }
    false
}

/// Whether every key of `keys` is among `others`.
fn all_among(keys: &Vec<KeyCode>, others: &Vec<KeyCode>) -> (all: bool)
    ensures
        all == keys@.to_set().subset_of(others@.to_set()),
{
    let mut i: usize = 0;
    while i < keys.len()
        invariant
            i <= keys.len(),
            forall|k: int| 0 <= k < i ==> others@.contains(#[trigger] keys@[k]),
        decreases keys.len() - i,
    {
        if !contains_key(others, keys[i]) {
            assert(keys@.contains(keys@[i as int]));
            assert(keys@.to_set().contains(keys@[i as int]));
            return false;
        }
        i += 1;
    }
    true
}

/// Whether two samples show the same set of keys.
pub fn same_keys(current: &Vec<KeyCode>, previous: &Vec<KeyCode>) -> (same: bool)
    ensures
        same == (current@.to_set() == previous@.to_set()),
{
    let same = all_among(current, previous) && all_among(previous, current);
    proof {
        if same {
            assert(current@.to_set() =~= previous@.to_set());
        }
    }
    same
}

/// Whether `keys` is the key set of one of `chords`.
pub open spec fn is_configured_chord(chords: Seq<Chord>, keys: Set<KeyCode>) -> bool {
    exists|i: int| 0 <= i < chords.len() && (#[trigger] chords[i])@ =~= keys
}

/// The action for a change from `previous` to `current`: a trigger on the
/// change into a configured chord, and nothing while the keys stay as they
/// were.
pub open spec fn classify_keys(
    chords: Seq<Chord>,
    current: Set<KeyCode>,
    previous: Set<KeyCode>,
) -> Action {
    if current =~= previous {
        Action::NoAction
    } else if is_configured_chord(chords, current) {
        Action::Trigger
    } else {
        Action::NoAction
    }
}

/// The configured chords and the sample seen last.
pub struct HotkeyDetector {
    chords: Vec<Chord>,
    previous: Vec<KeyCode>,
}

impl HotkeyDetector {
    /// The chords that trigger, in the order they were given.
    pub closed spec fn chords(&self) -> Seq<Chord> {
        self.chords@
    }

    /// The keys of the sample seen last.
    pub closed spec fn previous(&self) -> Set<KeyCode> {
        self.previous@.to_set()
    }

    /// A detector for `chords` that has seen no key down yet.
    pub fn new(chords: Vec<Chord>) -> (detector: Self)
        ensures
            detector.chords() == chords@,
            detector.previous() == Set::<KeyCode>::empty(),
    {
        let detector = HotkeyDetector { chords, previous: Vec::new() };
        assert(detector.previous() =~= Set::<KeyCode>::empty());
        detector
    }

    /// The index of the first configured chord that `current` is exactly,
    /// if there is one.
    pub fn matching_chord(&self, current: &Vec<KeyCode>) -> (found: Option<usize>)
        ensures
            found.is_some() <==> is_configured_chord(self.chords(), current@.to_set()),
            found matches Some(at) ==> at < self.chords().len() && self.chords()[at as int]@
                == current@.to_set() && forall|k: int|
                0 <= k < at ==> (#[trigger] self.chords()[k])@ != current@.to_set(),
    {
        let mut i: usize = 0;
        while i < self.chords.len()
            invariant
                i <= self.chords.len(),
                forall|k: int| 0 <= k < i ==> (#[trigger] self.chords@[k])@ != current@.to_set(),
            decreases self.chords.len() - i,
        {
            if self.chords[i].is_pressed_exactly(current) {
                return Some(i);
            }
            i += 1;
        }
        None
    }

    /// The action for a change from `previous` to `current`.
    pub fn classify(&self, current: &Vec<KeyCode>, previous: &Vec<KeyCode>) -> (action: Action)
        ensures
            action == classify_keys(self.chords(), current@.to_set(), previous@.to_set()),
    {
        if same_keys(current, previous) {
            return Action::NoAction;
        }
        match self.matching_chord(current) {
            Some(_) => Action::Trigger,
            None => Action::NoAction,
        }
    }

    /// Classifies `current` against the sample seen last and remembers
    /// `current` in its place, whatever the action.
    pub fn observe(&mut self, current: Vec<KeyCode>) -> (action: Action)
        ensures
            action == classify_keys(old(self).chords(), current@.to_set(), old(self).previous()),
            final(self).chords() == old(self).chords(),
            final(self).previous() == current@.to_set(),
    {
        let action = self.classify(&current, &self.previous);
        self.previous = current;
        action
    }
}

/// Keys that stay as they were never trigger, chord or not.
pub proof fn lemma_held_keys_do_not_trigger(chords: Seq<Chord>, keys: Set<KeyCode>)
    ensures
        classify_keys(chords, keys, keys) == Action::NoAction,
{
}

/// From no key down, a press triggers exactly when the keys pressed are
/// one of the configured chords.
pub proof fn lemma_press_triggers_iff_chord(chords: Seq<Chord>, keys: Set<KeyCode>)
    requires
        forall|i: int| 0 <= i < chords.len() ==> (#[trigger] chords[i]).wf(),
    ensures
        classify_keys(chords, keys, Set::empty()) == Action::Trigger <==> is_configured_chord(
            chords,
            keys,
        ),
{
    if is_configured_chord(chords, keys) {
        let i = choose|i: int| 0 <= i < chords.len() && (#[trigger] chords[i])@ == keys;
        lemma_chord_has_three_keys(chords[i]);
        assert(keys != Set::<KeyCode>::empty());
    }
}

/// Keys that are not three in number never trigger, whatever was down
/// before: neither part of a chord nor a chord with another key added.
pub proof fn lemma_only_three_keys_trigger(
    chords: Seq<Chord>,
    current: Set<KeyCode>,
    previous: Set<KeyCode>,
)
    requires
        forall|i: int| 0 <= i < chords.len() ==> (#[trigger] chords[i]).wf(),
        !(current.finite() && current.len() == 3),
    ensures
        classify_keys(chords, current, previous) == Action::NoAction,
{
    if is_configured_chord(chords, current) {
        let i = choose|i: int| 0 <= i < chords.len() && (#[trigger] chords[i])@ == current;
        lemma_chord_has_three_keys(chords[i]);
    }
}

} // verus!
