//! The signals of one round, and the choice of the next speaker among them.

use vstd::prelude::*;

use crate::agent_act::{ReactionFunctionArgs, ReactionFunctionArgsView};
use crate::openai::text_of;

verus! {

/// Mathematical model of one signal: who reacted, and how.
pub struct SignalView {
    pub name: Seq<char>,
    pub reaction: ReactionFunctionArgsView,
}

/// No two signals of `signals` come from the same name.
pub open spec fn distinct_names(signals: Seq<SignalView>) -> bool {
    forall|i: int, j: int|
        0 <= i < j < signals.len() ==> (#[trigger] signals[i]).name != (#[trigger] signals[j]).name
}

/// Some signal of `signals` comes from `name`.
pub open spec fn has_signal(signals: Seq<SignalView>, name: Seq<char>) -> bool {
    exists|i: int| 0 <= i < signals.len() && (#[trigger] signals[i]).name == name
}

/// The place of a signal from `name`, where there is one.
pub open spec fn signal_index(signals: Seq<SignalView>, name: Seq<char>) -> int {
    choose|i: int| 0 <= i < signals.len() && (#[trigger] signals[i]).name == name
}

/// The signals as a map from each name to its reaction.
pub open spec fn signal_map(signals: Seq<SignalView>) -> Map<Seq<char>, ReactionFunctionArgsView> {
    Map::new(
        |name: Seq<char>| has_signal(signals, name),
        |name: Seq<char>| signals[signal_index(signals, name)].reaction,
    )
}

/// The signals after `name` has signalled `reaction`: a first signal from a
/// name goes to the end, a later one takes the place of the earlier.
pub open spec fn with_signal(
    signals: Seq<SignalView>,
    name: Seq<char>,
    reaction: ReactionFunctionArgsView,
) -> Seq<SignalView> {
    if has_signal(signals, name) {
        signals.update(signal_index(signals, name), SignalView { name, reaction })
    } else {
        signals.push(SignalView { name, reaction })
    }
}

/// What recording a signal does to the signals seen as a map: the name maps
/// to the new reaction, every other name to what it mapped to before, and no
/// name occurs twice.
pub proof fn lemma_with_signal(
    signals: Seq<SignalView>,
    name: Seq<char>,
    reaction: ReactionFunctionArgsView,
)
    requires
        distinct_names(signals),
    ensures
        distinct_names(with_signal(signals, name, reaction)),
        signal_map(with_signal(signals, name, reaction)) == signal_map(signals).insert(
            name,
            reaction,
        ),
{
    let after = with_signal(signals, name, reaction);
    if has_signal(signals, name) {
        assert forall|other: Seq<char>| has_signal(after, other) <==> has_signal(
            signals,
            other,
        ) by {
            if has_signal(after, other) {
                assert(signals[signal_index(after, other)].name == other);
            }
            if has_signal(signals, other) {
                assert(after[signal_index(signals, other)].name == other);
            }
        }
        assert(signal_map(after) =~= signal_map(signals).insert(name, reaction));
    } else {
        assert(after[signals.len() as int].name == name);
        assert forall|other: Seq<char>| has_signal(after, other) <==> (other == name || has_signal(
            signals,
            other,
        )) by {
            if has_signal(signals, other) {
                assert(after[signal_index(signals, other)].name == other);
            }
        }
        assert forall|other: Seq<char>| has_signal(after, other) implies signal_map(after)[other]
            == signal_map(signals).insert(name, reaction)[other] by {
            let i = signal_index(after, other);
            if other == name {
                lemma_same_name_same_place(after, i, signals.len() as int);
            } else {
                let j = signal_index(signals, other);
                lemma_same_name_same_place(signals, i, j);
            }
        }
        assert(signal_map(after) =~= signal_map(signals).insert(name, reaction));
    }
}

/// Among signals with distinct names, a name is found at one place only.
pub proof fn lemma_same_name_same_place(signals: Seq<SignalView>, i: int, j: int)
    requires
        distinct_names(signals),
        0 <= i < signals.len(),
        0 <= j < signals.len(),
        signals[i].name == signals[j].name,
    ensures
        i == j,
{
}

/// The signal at `i` leads: none is more urgent, and none after it is as
/// urgent. Among equally urgent signals the last one leads.
pub open spec fn leads(signals: Seq<SignalView>, i: int) -> bool {
    &&& 0 <= i < signals.len()
    &&& forall|j: int|
        0 <= j < signals.len() ==> (#[trigger] signals[j]).reaction.aggressiveness
            <= signals[i].reaction.aggressiveness
    &&& forall|j: int|
        i < j < signals.len() ==> (#[trigger] signals[j]).reaction.aggressiveness
            < signals[i].reaction.aggressiveness
}

/// The place of the leading signal.
pub open spec fn leader(signals: Seq<SignalView>) -> int {
    choose|i: int| leads(signals, i)
}

/// Who speaks next: the name behind the leading signal, nobody where there
/// is no signal.
pub open spec fn chosen_speaker(signals: Seq<SignalView>) -> Option<Seq<char>> {
    if signals.len() == 0 {
        None
    } else {
        Some(signals[leader(signals)].name)
    }
}

/// At most one signal leads.
pub proof fn lemma_leader_is_unique(signals: Seq<SignalView>, i: int, j: int)
    requires
        leads(signals, i),
        leads(signals, j),
    ensures
        i == j,
{
    if i < j {
        assert(signals[j].reaction.aggressiveness < signals[i].reaction.aggressiveness);
    } else if j < i {
        assert(signals[i].reaction.aggressiveness < signals[j].reaction.aggressiveness);
    }
}

/// Where a signal leads, its name is the chosen speaker.
pub proof fn lemma_leader_is_chosen(signals: Seq<SignalView>, i: int)
    requires
        leads(signals, i),
    ensures
        leader(signals) == i,
        chosen_speaker(signals) == Some(signals[i].name),
{
    lemma_leader_is_unique(signals, i, leader(signals));
}

/// Among any signals, as long as there is one, one leads.
pub proof fn lemma_leader_exists(signals: Seq<SignalView>)
    requires
        signals.len() > 0,
    ensures
        leads(signals, leader(signals)),
    decreases signals.len(),
{
    let last = signals.len() - 1;
    if signals.len() == 1 {
        assert(leads(signals, last));
    } else {
        let front = signals.drop_last();
        lemma_leader_exists(front);
        let before = leader(front);
        assert(forall|j: int| 0 <= j < front.len() ==> front[j] == signals[j]);
        if signals[last].reaction.aggressiveness >= signals[before].reaction.aggressiveness {
            assert(leads(signals, last));
        } else {
            assert(leads(signals, before));
        }
    }
}

/// Whoever is chosen did signal, and nobody signalled more urgently.
pub proof fn lemma_chosen_is_most_urgent(signals: Seq<SignalView>)
    requires
        signals.len() > 0,
    ensures
        chosen_speaker(signals) is Some,
        exists|i: int|
            0 <= i < signals.len() && (#[trigger] signals[i]).name == chosen_speaker(signals)->0
                && forall|j: int|
                0 <= j < signals.len() ==> (#[trigger] signals[j]).reaction.aggressiveness
                    <= signals[i].reaction.aggressiveness,
{
    lemma_leader_exists(signals);
}

/// A signal more urgent than every other is the one that is chosen.
pub proof fn lemma_unique_maximum_is_chosen(signals: Seq<SignalView>, i: int)
    requires
        0 <= i < signals.len(),
        forall|j: int|
            0 <= j < signals.len() && j != i ==> (#[trigger] signals[j]).reaction.aggressiveness
                < signals[i].reaction.aggressiveness,
    ensures
        chosen_speaker(signals) == Some(signals[i].name),
{
    lemma_leader_is_chosen(signals, i);
}

/// Where one signal is more urgent than every other, the choice does not
/// depend on the order of the signals: any two arrangements of the same map
/// from names to reactions give the same speaker.
pub proof fn lemma_choice_ignores_order(first: Seq<SignalView>, second: Seq<SignalView>, i: int)
    requires
        distinct_names(first),
        distinct_names(second),
        signal_map(first) == signal_map(second),
        0 <= i < first.len(),
        forall|j: int|
            0 <= j < first.len() && j != i ==> (#[trigger] first[j]).reaction.aggressiveness
                < first[i].reaction.aggressiveness,
    ensures
        chosen_speaker(first) == Some(first[i].name),
        chosen_speaker(second) == Some(first[i].name),
{
    lemma_unique_maximum_is_chosen(first, i);
    let top = first[i];
    lemma_signal_in_map(first, i);
    let k = signal_index(second, top.name);
    lemma_signal_in_map(second, k);
    assert forall|j: int| 0 <= j < second.len() && j != k implies (
    #[trigger] second[j]).reaction.aggressiveness < second[k].reaction.aggressiveness by {
        lemma_signal_in_map(second, j);
        let name = second[j].name;
        if name == top.name {
            lemma_same_name_same_place(second, j, k);
        }
        let back = signal_index(first, name);
        lemma_signal_in_map(first, back);
    }
    lemma_unique_maximum_is_chosen(second, k);
}

/// Among signals with distinct names, each signal is found in the map under
/// its name.
pub proof fn lemma_signal_in_map(signals: Seq<SignalView>, i: int)
    requires
        distinct_names(signals),
        0 <= i < signals.len(),
    ensures
        has_signal(signals, signals[i].name),
        signal_index(signals, signals[i].name) == i,
        signal_map(signals).contains_key(signals[i].name),
        signal_map(signals)[signals[i].name] == signals[i].reaction,
{
    let name = signals[i].name;
    lemma_same_name_same_place(signals, i, signal_index(signals, name));
}

/// One signal: a name and the reaction it answered with.
struct Signal {
    name: String,
    reaction: ReactionFunctionArgs,
}

impl DeepView for Signal {
    type V = SignalView;

    closed spec fn deep_view(&self) -> SignalView {
        SignalView { name: self.name@, reaction: self.reaction.deep_view() }
    }
}

/// The signals of one round: each name that answered, with its reaction, in
/// the order in which the names first signalled. A name occurs at most once.
pub struct RoundSignal {
    signals: Vec<Signal>,
}

impl DeepView for RoundSignal {
    type V = Seq<SignalView>;

    closed spec fn deep_view(&self) -> Seq<SignalView> {
        self.signals.deep_view()
    }
}

impl RoundSignal {
    #[verifier::type_invariant]
    spec fn well_formed(self) -> bool {
        distinct_names(self.signals.deep_view())
    }

    /// No signal at all.
    pub fn new() -> (signal: Self)
        ensures
            signal.deep_view() == Seq::<SignalView>::empty(),
    {
        let signal = RoundSignal { signals: Vec::new() };
        signal
    }

    /// How many names have signalled.
    pub fn len(&self) -> (count: usize)
        ensures
            count == self.deep_view().len(),
            distinct_names(self.deep_view()),
    {
        proof {
            use_type_invariant(self);
        }
        self.signals.len()
    }

    /// The reaction that `name` has signalled, if it has.
    pub fn get(&self, name: &String) -> (reaction: Option<&ReactionFunctionArgs>)
        ensures
            distinct_names(self.deep_view()),
            reaction is Some <==> has_signal(self.deep_view(), name@),
            reaction matches Some(r) ==> r.deep_view() == signal_map(self.deep_view())[name@],
    {
        proof {
            use_type_invariant(self);
        }
        match position(&self.signals, name) {
            Some(i) => Some(&self.signals[i].reaction),
            None => None,
        }
    }

    /// Records that `name` has signalled `reaction`. A name that signals
    /// again keeps its place, with the later reaction.
    pub fn insert(&mut self, name: String, reaction: ReactionFunctionArgs)
        ensures
            final(self).deep_view() == with_signal(
                old(self).deep_view(),
                name@,
                reaction.deep_view(),
            ),
            distinct_names(final(self).deep_view()),
    {
        proof {
            use_type_invariant(&*self);
        }
        let ghost before = self.deep_view();
        let mut signals: Vec<Signal> = Vec::new();
        core::mem::swap(&mut self.signals, &mut signals);
        let place = position(&signals, &name);
        let entry = Signal { name, reaction };
        match place {
            Some(i) => {
                signals.set(i, entry);
            },
            None => {
                signals.push(entry);
            },
        }
        assert(signals.deep_view() =~= with_signal(before, name@, reaction.deep_view()));
        core::mem::swap(&mut self.signals, &mut signals);
    }

    /// The turn selector: picks the name behind the most urgent signal, the
    /// last such signal where several are equally urgent, and nobody where
    /// nobody has signalled. The signals stay as they are.
    pub fn select_speaker(&self) -> (speaker: Option<String>)
        ensures
            text_of(speaker) == chosen_speaker(self.deep_view()),
    {
        if self.signals.len() == 0 {
            return None;
        }
        let mut best: usize = 0;
        let mut i: usize = 1;
        while i < self.signals.len()
            invariant
                1 <= i <= self.signals@.len(),
                self.signals@.len() == self.deep_view().len(),
                leads(self.deep_view().take(i as int), best as int),
            decreases self.signals.len() - i,
        {
            if self.signals[i].reaction.aggressiveness
                >= self.signals[best].reaction.aggressiveness
            {
                best = i;
            }
            i += 1;
        }
        proof {
            assert(self.deep_view().take(i as int) =~= self.deep_view());
            lemma_leader_is_chosen(self.deep_view(), best as int);
        }
        Some(self.signals[best].name.clone())
    }
}

/// Finds the signal from `name`.
fn position(signals: &Vec<Signal>, name: &String) -> (place: Option<usize>)
    requires
        distinct_names(signals.deep_view()),
    ensures
        place is Some <==> has_signal(signals.deep_view(), name@),
        place matches Some(i) ==> i < signals.len() && signals.deep_view()[i as int].name == name@
            && signal_index(signals.deep_view(), name@) == i,
{
    let mut i: usize = 0;
    while i < signals.len()
        invariant
            i <= signals.len(),
            distinct_names(signals.deep_view()),
            forall|j: int| 0 <= j < i ==> (#[trigger] signals.deep_view()[j]).name != name@,
        decreases signals.len() - i,
    {
        if signals[i].name == *name {
            proof {
                let found = signals.deep_view();
                assert(found[i as int].name == name@);
            }
            return Some(i);
        }
        i += 1;
    }
    None
}

} // verus!
