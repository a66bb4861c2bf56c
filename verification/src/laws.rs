//! What holds of every round, whatever comes in from outside.

use vstd::prelude::*;

use crate::agent_act::ReactionFunctionArgsView;
use crate::broadcaster::informed;
use crate::model::AgentView;
use crate::round::{
    aired, begun, lemma_aired, lemma_begun, lemma_reacted, lemma_selected, lemma_spoken,
    logs_extend, reacted, selected, spoken, valid, ConversationView,
};
use crate::signal::{chosen_speaker, lemma_leader_exists};
use crate::solicitor::{reacted_agent, reaction_event};

verus! {

/// What comes into one round from outside: the order of asking, the answers
/// of the agents asked, and what the speaker brought forth.
pub struct RoundInput {
    pub order: Seq<usize>,
    pub answers: Seq<Option<ReactionFunctionArgsView>>,
    pub speech: Option<Seq<char>>,
}

/// The conversation once all answers of a round have settled.
pub open spec fn settled(run: ConversationView, input: RoundInput) -> ConversationView {
    reacted(begun(run, input.order), input.answers)
}

/// Who is picked to speak in a round.
pub open spec fn round_speaker(run: ConversationView, input: RoundInput) -> Option<Seq<char>> {
    chosen_speaker(settled(run, input).signals)
}

/// One whole round, from idle to idle.
pub open spec fn round(run: ConversationView, input: RoundInput) -> ConversationView {
    aired(spoken(selected(settled(run, input)), input.speech))
}

/// The logs after each of the rounds that `inputs` feeds, one after another.
pub open spec fn replay(run: ConversationView, inputs: Seq<RoundInput>) -> Seq<Seq<AgentView>>
    decreases inputs.len(),
{
    if inputs.len() == 0 {
        Seq::empty()
    } else {
        let next = round(run, inputs.first());
        seq![next.agents] + replay(next, inputs.drop_first())
    }
}

/// Logs that continue logs that continue others continue those too.
pub proof fn lemma_logs_extend_transitive(
    first: Seq<AgentView>,
    second: Seq<AgentView>,
    third: Seq<AgentView>,
)
    requires
        logs_extend(first, second),
        logs_extend(second, third),
    ensures
        logs_extend(first, third),
{
}

/// Where logs continue others, no log has become shorter and every earlier
/// entry stands where it stood, unchanged.
pub proof fn lemma_logs_extend_keeps_entries(before: Seq<AgentView>, after: Seq<AgentView>)
    requires
        logs_extend(before, after),
    ensures
        forall|k: int|
            0 <= k < before.len() ==> before[k].events.len() <= (#[trigger] after[k]).events.len(),
        forall|k: int, e: int|
            0 <= k < before.len() && 0 <= e < before[k].events.len() ==> (
            #[trigger] after[k]).events[e] == (#[trigger] before[k].events[e]),
{
}

/// A whole round leads a valid idle conversation to a valid idle
/// conversation.
pub proof fn lemma_round_comes_to_rest(run: ConversationView, input: RoundInput)
    requires
        valid(run),
        run.phase is Idle,
    ensures
        valid(round(run, input)),
        round(run, input).phase is Idle,
        round(run, input).common_prompts == run.common_prompts,
{
    lemma_begun(run, input.order);
    let asked = begun(run, input.order);
    lemma_reacted(asked, input.answers);
    let heard = settled(run, input);
    lemma_selected(heard);
    let picked = selected(heard);
    lemma_spoken(picked, input.speech);
    lemma_aired(spoken(picked, input.speech));
}

/// The speaker of a round is never the one who spoke in the round before.
/// Where a round changes who spoke last, it is to the speaker it picked.
pub proof fn lemma_speaker_never_repeats(run: ConversationView, input: RoundInput)
    requires
        valid(run),
        run.phase is Idle,
    ensures
        round_speaker(run, input) matches Some(name) ==> run.latest_speaker != Some(name),
        round(run, input).latest_speaker == run.latest_speaker || (round(
            run,
            input,
        ).latest_speaker == round_speaker(run, input) && round_speaker(run, input) is Some
            && input.speech is Some),
{
    lemma_begun(run, input.order);
    let asked = begun(run, input.order);
    lemma_reacted(asked, input.answers);
    let heard = settled(run, input);
    lemma_selected(heard);
    let picked = selected(heard);
    lemma_spoken(picked, input.speech);
    lemma_aired(spoken(picked, input.speech));
    if heard.phase is SelectionPhase && heard.signals.len() > 0 {
        lemma_leader_exists(heard.signals);
    }
}

/// Nobody takes two turns in a row: who spoke in one round is not picked in
/// the round that follows.
pub proof fn lemma_no_two_turns_in_a_row(
    run: ConversationView,
    first: RoundInput,
    second: RoundInput,
)
    requires
        valid(run),
        run.phase is Idle,
        round_speaker(run, first) is Some,
        first.speech is Some,
    ensures
        round(run, first).latest_speaker == round_speaker(run, first),
        round_speaker(round(run, first), second) != round_speaker(run, first),
{
    lemma_begun(run, first.order);
    lemma_reacted(begun(run, first.order), first.answers);
    let heard = settled(run, first);
    lemma_selected(heard);
    lemma_leader_exists(heard.signals);
    lemma_round_comes_to_rest(run, first);
    lemma_speaker_never_repeats(round(run, first), second);
}

/// Over a whole round every log only grows: none gets shorter, and no entry
/// it held is changed or removed.
pub proof fn lemma_round_extends_logs(run: ConversationView, input: RoundInput)
    requires
        valid(run),
        run.phase is Idle,
    ensures
        logs_extend(run.agents, round(run, input).agents),
{
    lemma_begun(run, input.order);
    let asked = begun(run, input.order);
    lemma_reacted(asked, input.answers);
    let heard = settled(run, input);
    lemma_selected(heard);
    let picked = selected(heard);
    lemma_spoken(picked, input.speech);
    let said = spoken(picked, input.speech);
    lemma_aired(said);
    lemma_logs_extend_transitive(run.agents, heard.agents, aired(said).agents);
}

/// Settling the reactions appends to each log at most one entry: the agent's
/// own reaction, where it signalled.
pub proof fn lemma_reactions_append_once(run: ConversationView, input: RoundInput, k: int)
    requires
        valid(run),
        run.phase is Idle,
        0 <= k < run.agents.len(),
    ensures
        settled(run, input).agents.len() == run.agents.len(),
        settled(run, input).agents[k] == reacted_agent(
            run.agents[k],
            settled(run, input).signals,
        ),
        settled(run, input).agents[k].events == run.agents[k].events || exists|
            reaction: ReactionFunctionArgsView,
        |
            settled(run, input).agents[k].events == run.agents[k].events.push(
                #[trigger] reaction_event(reaction),
            ),
{
    lemma_begun(run, input.order);
}

/// What is said in a round is told to everybody or to nobody: either every
/// log gains what its agent perceived of the speech, or no log changes after
/// the reactions have settled.
pub proof fn lemma_speech_reaches_all_or_none(run: ConversationView, input: RoundInput)
    requires
        valid(run),
        run.phase is Idle,
    ensures
        round(run, input).agents == settled(run, input).agents || (input.speech is Some
            && round_speaker(run, input) is Some && round(run, input).agents == informed(
            settled(run, input).agents,
            round_speaker(run, input)->0,
            input.speech->0,
        )),
{
    lemma_begun(run, input.order);
    lemma_reacted(begun(run, input.order), input.answers);
    let heard = settled(run, input);
    lemma_selected(heard);
    if heard.phase is SelectionPhase && heard.signals.len() > 0 {
        lemma_leader_exists(heard.signals);
    }
}

/// Where the speaker of a round brings nothing forth, nobody perceives
/// anything beyond the reactions of the round, and who spoke last stays.
pub proof fn lemma_failed_speech_leaves_no_trace(run: ConversationView, input: RoundInput)
    requires
        valid(run),
        run.phase is Idle,
        input.speech is None,
    ensures
        round(run, input).latest_speaker == run.latest_speaker,
        round(run, input).agents == settled(run, input).agents,
{
    lemma_begun(run, input.order);
    lemma_reacted(begun(run, input.order), input.answers);
    lemma_selected(settled(run, input));
}

/// What a round does to the logs and to who spoke last depends on the roster
/// with its logs, on who spoke last and on what comes in from outside, and on
/// nothing else.
pub proof fn lemma_round_is_determined(
    first: ConversationView,
    second: ConversationView,
    input: RoundInput,
)
    requires
        valid(first),
        valid(second),
        first.phase is Idle,
        second.phase is Idle,
        first.agents == second.agents,
        first.latest_speaker == second.latest_speaker,
    ensures
        round(first, input).agents == round(second, input).agents,
        round(first, input).latest_speaker == round(second, input).latest_speaker,
{
    let a = begun(first, input.order);
    let b = begun(second, input.order);
    let c = reacted(a, input.answers);
    let d = reacted(b, input.answers);
    lemma_begun(first, input.order);
    lemma_begun(second, input.order);
    lemma_reacted(a, input.answers);
    lemma_reacted(b, input.answers);
    lemma_selected(c);
    lemma_selected(d);
}

/// Replaying the same inputs on two idle conversations with the same roster,
/// the same logs and the same last speaker gives the same logs after every
/// round.
pub proof fn lemma_replay_is_identical(
    first: ConversationView,
    second: ConversationView,
    inputs: Seq<RoundInput>,
)
    requires
        valid(first),
        valid(second),
        first.phase is Idle,
        second.phase is Idle,
        first.agents == second.agents,
        first.latest_speaker == second.latest_speaker,
    ensures
        replay(first, inputs) == replay(second, inputs),
    decreases inputs.len(),
{
    if inputs.len() > 0 {
        let input = inputs.first();
        lemma_round_is_determined(first, second, input);
        lemma_round_comes_to_rest(first, input);
        lemma_round_comes_to_rest(second, input);
        lemma_replay_is_identical(round(first, input), round(second, input), inputs.drop_first());
    }
}

} // verus!
