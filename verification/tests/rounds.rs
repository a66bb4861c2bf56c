use roundtable::agent_act::{agent_act, ChatFunctionArgs, ReactionFunctionArgs};
use roundtable::model::{Agent, Event};
use roundtable::openai::{failed, Failure, OpenAIClientError, Reply};
use roundtable::conversation::Conversation;
use roundtable::round::{Phase, Solicitation};

fn roster(names: &[&str]) -> Vec<Agent> {
    names.iter().map(|name| Agent::new(name.to_string(), format!("persona of {}", name))).collect()
}

fn prompts() -> Vec<String> {
    vec!["rules of the game".to_string(), "who takes part".to_string()]
}

fn open(names: &[&str]) -> Conversation {
    Conversation::new(roster(names), prompts()).unwrap()
}

fn answer(urgency: usize, thinking: &str) -> Reply<ReactionFunctionArgs> {
    Ok(Some(ReactionFunctionArgs { aggressiveness: urgency, thinking: thinking.to_string() }))
}

fn says(message: &str) -> Reply<ChatFunctionArgs> {
    Ok(Some(ChatFunctionArgs { message: message.to_string() }))
}

fn thought(thinking: &str, urgency: usize) -> Event {
    Event::Reaction { thinking: thinking.to_string(), urgency }
}

fn spoke(message: &str) -> Event {
    Event::Spoke { message: message.to_string() }
}

fn heard(speaker: &str, message: &str) -> Event {
    Event::Heard { speaker: speaker.to_string(), message: message.to_string() }
}

fn names_of(requests: &Vec<Solicitation>) -> Vec<String> {
    requests.iter().map(|request| request.name.clone()).collect()
}

fn logs_of(run: &Conversation) -> Vec<Vec<Event>> {
    run.agents().iter().map(|agent| agent.events.clone()).collect()
}

/// Runs one whole round and hands back the logs after it.
fn play(
    run: &mut Conversation,
    order: &Vec<usize>,
    replies: &Vec<Reply<ReactionFunctionArgs>>,
    speech: Reply<ChatFunctionArgs>,
) -> Vec<Vec<Event>> {
    assert!(run.begin_round_with(order).is_some());
    run.settle_reactions(replies);
    run.select();
    run.settle_speech(speech);
    run.broadcast();
    assert_eq!(run.phase(), Phase::Idle);
    logs_of(run)
}

#[test]
fn agents_with_the_same_name_make_no_conversation() {
    assert!(Conversation::new(roster(&["A", "B", "A"]), prompts()).is_none());
    assert!(Conversation::new(roster(&["A", "A"]), Vec::new()).is_none());
    assert!(Conversation::new(roster(&["A", "B", "C"]), prompts()).is_some());
    assert!(Conversation::new(Vec::new(), Vec::new()).is_some());
}

#[test]
fn a_new_conversation_is_idle_and_nobody_has_spoken() {
    let run = open(&["A", "B"]);
    assert_eq!(run.phase(), Phase::Idle);
    assert_eq!(run.state().latest_speaker, None);
    assert_eq!(run.agents(), &roster(&["A", "B"]));
}

#[test]
fn three_agents_play_a_round_and_the_speaker_sits_out_the_next() {
    let mut run = open(&["A", "B", "C"]);

    let requests = run.begin_round_with(&vec![0, 1, 2]).unwrap();
    assert_eq!(run.phase(), Phase::ReactionPhase);
    assert_eq!(names_of(&requests), vec!["A", "B", "C"]);
    for (place, request) in requests.iter().enumerate() {
        assert_eq!(
            request.body,
            agent_act::<ReactionFunctionArgs>(&run.agents()[place], &prompts())
        );
    }

    run.settle_reactions(&vec![answer(2, "a waits"), answer(5, "b wants to talk"), Ok(None)]);
    assert_eq!(run.phase(), Phase::SelectionPhase);
    assert_eq!(
        logs_of(&run),
        vec![vec![thought("a waits", 2)], vec![thought("b wants to talk", 5)], vec![]]
    );

    let request = run.select().unwrap();
    assert_eq!(run.phase(), Phase::SpeechPhase);
    assert_eq!(request.name, "B");
    assert_eq!(request.body, agent_act::<ChatFunctionArgs>(&run.agents()[1], &prompts()));
    assert_eq!(run.state().latest_speaker, None);

    run.settle_speech(says("hello"));
    assert_eq!(run.phase(), Phase::BroadcastPhase);
    assert_eq!(run.state().latest_speaker, None);

    run.broadcast();
    assert_eq!(run.phase(), Phase::Idle);
    assert_eq!(
        logs_of(&run),
        vec![
            vec![thought("a waits", 2), heard("B", "hello")],
            vec![thought("b wants to talk", 5), spoke("hello")],
            vec![heard("B", "hello")],
        ]
    );
    assert_eq!(run.state().latest_speaker, Some("B".to_string()));

    let next = run.begin_round_with(&vec![0, 1, 2]).unwrap();
    assert_eq!(names_of(&next), vec!["A", "C"]);
}

#[test]
fn the_speaker_of_one_round_never_speaks_in_the_next() {
    let mut run = open(&["A", "B", "C"]);
    let eager = vec![answer(9, "me"), answer(9, "me"), answer(9, "me")];
    let mut last: Option<String> = None;
    for round in 0..12 {
        let order = vec![round % 3, (round + 1) % 3, (round + 2) % 3];
        let requests = run.begin_round_with(&order).unwrap();
        for request in requests.iter() {
            assert_ne!(Some(request.name.clone()), last);
        }
        run.settle_reactions(&eager);
        let speaker = run.select().unwrap().name;
        assert_ne!(Some(speaker.clone()), last);
        run.settle_speech(says("again"));
        run.broadcast();
        assert_eq!(run.state().latest_speaker, Some(speaker.clone()));
        last = Some(speaker);
    }
}

#[test]
fn a_lone_agent_speaks_once_and_then_sits_out() {
    let mut run = open(&["A"]);
    let requests = run.begin_round_with(&vec![0]).unwrap();
    assert_eq!(names_of(&requests), vec!["A"]);
    run.settle_reactions(&vec![answer(1, "alone")]);
    assert_eq!(run.select().unwrap().name, "A");
    run.settle_speech(says("anybody?"));
    run.broadcast();
    assert_eq!(run.state().latest_speaker, Some("A".to_string()));

    let requests = run.begin_round_with(&vec![0]).unwrap();
    assert!(requests.is_empty());
    assert_eq!(run.phase(), Phase::ReactionPhase);
    run.settle_reactions(&Vec::new());
    assert_eq!(run.phase(), Phase::SelectionPhase);
    assert!(run.select().is_none());
    assert_eq!(run.phase(), Phase::Idle);
    assert_eq!(run.state().latest_speaker, Some("A".to_string()));
    assert_eq!(logs_of(&run), vec![vec![thought("alone", 1), spoke("anybody?")]]);
}

#[test]
fn when_nobody_answers_nobody_speaks() {
    let mut run = open(&["A", "B"]);
    run.begin_round_with(&vec![1, 0]).unwrap();
    run.settle_reactions(&vec![Err(OpenAIClientError), Ok(None)]);
    assert_eq!(run.phase(), Phase::SelectionPhase);
    assert!(run.select().is_none());
    assert_eq!(run.phase(), Phase::Idle);
    assert_eq!(run.state().latest_speaker, None);
    assert_eq!(logs_of(&run), vec![vec![], vec![]]);
}

#[test]
fn a_failed_speech_leaves_no_trace() {
    let failures: Vec<Reply<ChatFunctionArgs>> = vec![Err(OpenAIClientError), Ok(None)];
    for failure in failures {
        let mut run = open(&["A", "B", "C"]);
        play(
            &mut run,
            &vec![0, 1, 2],
            &vec![answer(1, "a"), answer(2, "b"), answer(0, "c")],
            says("first"),
        );
        assert_eq!(run.state().latest_speaker, Some("B".to_string()));

        let requests = run.begin_round_with(&vec![0, 1, 2]).unwrap();
        assert_eq!(names_of(&requests), vec!["A", "C"]);
        run.settle_reactions(&vec![answer(3, "a again"), answer(1, "c again")]);
        let settled = logs_of(&run);
        assert_eq!(run.select().unwrap().name, "A");
        run.settle_speech(failure);
        assert_eq!(run.phase(), Phase::Idle);
        assert_eq!(run.state().latest_speaker, Some("B".to_string()));
        assert_eq!(logs_of(&run), settled);
        run.broadcast();
        assert_eq!(logs_of(&run), settled);
        assert_eq!(run.state().latest_speaker, Some("B".to_string()));

        // B still sits out the round after.
        let requests = run.begin_round_with(&vec![0, 1, 2]).unwrap();
        assert_eq!(names_of(&requests), vec!["A", "C"]);
    }
}

#[test]
fn logs_only_ever_grow() {
    let mut run = open(&["A", "B", "C"]);
    let mut before = logs_of(&run);
    let speeches: Vec<Reply<ChatFunctionArgs>> =
        vec![says("one"), Err(OpenAIClientError), says("three"), Ok(None), says("five")];
    for (round, speech) in speeches.into_iter().enumerate() {
        let order = vec![(round + 2) % 3, round % 3, (round + 1) % 3];
        let replies = vec![answer(round, "x"), Err(OpenAIClientError), answer(3, "z")];
        let steps: Vec<Vec<Vec<Event>>> = {
            let mut steps = Vec::new();
            run.begin_round_with(&order).unwrap();
            steps.push(logs_of(&run));
            run.settle_reactions(&replies);
            steps.push(logs_of(&run));
            run.select();
            steps.push(logs_of(&run));
            run.settle_speech(speech);
            steps.push(logs_of(&run));
            run.broadcast();
            steps.push(logs_of(&run));
            steps
        };
        for after in steps {
            assert_eq!(after.len(), before.len());
            for (old, new) in before.iter().zip(after.iter()) {
                assert!(old.len() <= new.len());
                assert_eq!(&new[..old.len()], &old[..]);
            }
            before = after;
        }
    }
    assert_eq!(run.agents()[0].name, "A");
    assert_eq!(run.agents()[1].prompt, "persona of B");
}

#[test]
fn the_same_responses_replayed_give_the_same_logs() {
    let orders = vec![vec![0, 1, 2], vec![2, 1, 0], vec![1, 2, 0], vec![0, 2, 1]];
    let replies = vec![
        vec![answer(2, "a"), answer(2, "b"), answer(1, "c")],
        vec![answer(4, "x"), Err(OpenAIClientError)],
        vec![Ok(None), answer(0, "y")],
        vec![answer(7, "p"), answer(7, "q")],
    ];
    let mut traces: Vec<Vec<Vec<Vec<Event>>>> = Vec::new();
    for _ in 0..2 {
        let mut run = open(&["A", "B", "C"]);
        let mut trace = Vec::new();
        for round in 0..4 {
            let speech = if round == 1 { Ok(None) } else { says(&format!("speech {}", round)) };
            trace.push(play(&mut run, &orders[round], &replies[round], speech));
        }
        traces.push(trace);
    }
    assert_eq!(traces[0], traces[1]);
    assert_eq!(traces[0].len(), 4);
}

#[test]
fn what_comes_at_the_wrong_time_is_ignored() {
    let mut run = open(&["A", "B"]);
    let untouched = roster(&["A", "B"]);

    // Idle: only a round can begin.
    run.settle_reactions(&vec![answer(1, "a"), answer(2, "b")]);
    assert!(run.select().is_none());
    run.settle_speech(says("too early"));
    run.broadcast();
    assert_eq!(run.phase(), Phase::Idle);
    assert_eq!(run.agents(), &untouched);
    assert_eq!(run.state().latest_speaker, None);

    // What is no order of the roster begins no round.
    assert!(run.begin_round_with(&vec![0]).is_none());
    assert!(run.begin_round_with(&vec![0, 0]).is_none());
    assert!(run.begin_round_with(&vec![0, 2]).is_none());
    assert_eq!(run.phase(), Phase::Idle);

    // Reaction phase: no second beginning, no selection, no speech.
    assert!(run.begin_round_with(&vec![1, 0]).is_some());
    assert!(run.begin_round_with(&vec![1, 0]).is_none());
    assert!(run.begin_round().is_none());
    assert!(run.select().is_none());
    run.settle_speech(says("too early"));
    run.broadcast();
    assert_eq!(run.phase(), Phase::ReactionPhase);
    assert_eq!(run.agents(), &untouched);

    // Selection phase: the reactions settle once.
    run.settle_reactions(&vec![answer(1, "b"), answer(2, "a")]);
    let settled = logs_of(&run);
    run.settle_reactions(&vec![answer(9, "b"), answer(9, "a")]);
    run.settle_speech(says("too early"));
    run.broadcast();
    assert!(run.begin_round_with(&vec![0, 1]).is_none());
    assert_eq!(run.phase(), Phase::SelectionPhase);
    assert_eq!(logs_of(&run), settled);

    // Speech phase.
    assert_eq!(run.select().unwrap().name, "A");
    assert!(run.select().is_none());
    run.broadcast();
    assert_eq!(run.phase(), Phase::SpeechPhase);
    assert_eq!(logs_of(&run), settled);

    // Broadcast phase: the speech settles once.
    run.settle_speech(says("now"));
    run.settle_speech(says("again"));
    assert!(run.select().is_none());
    assert_eq!(run.phase(), Phase::BroadcastPhase);
    run.broadcast();
    assert_eq!(run.phase(), Phase::Idle);
    assert_eq!(
        logs_of(&run),
        vec![vec![thought("a", 2), spoke("now")], vec![thought("b", 1), heard("A", "now")]]
    );
}

#[test]
fn a_round_in_an_order_left_to_chance_asks_everybody_eligible() {
    let mut run = open(&["A", "B", "C", "D"]);
    play(
        &mut run,
        &vec![0, 1, 2, 3],
        &vec![answer(1, "a"), Ok(None), Ok(None), Ok(None)],
        says("hi"),
    );
    for _ in 0..20 {
        let requests = run.begin_round().unwrap();
        let mut names = names_of(&requests);
        names.sort();
        assert_eq!(names, vec!["B", "C", "D"]);
        for request in requests.iter() {
            let place = run.agents().iter().position(|agent| agent.name == request.name).unwrap();
            assert_eq!(
                request.body,
                agent_act::<ReactionFunctionArgs>(&run.agents()[place], &prompts())
            );
        }
        run.settle_reactions(&Vec::new());
        assert!(run.select().is_none());
    }
}

#[test]
fn the_order_left_to_chance_varies() {
    let straight = vec!["A", "B", "C", "D", "E", "F", "G", "H"];
    let mut varied = false;
    for _ in 0..50 {
        let mut run = open(&straight);
        if names_of(&run.begin_round().unwrap()) != straight {
            varied = true;
        }
    }
    assert!(varied);
}

#[test]
fn a_tie_goes_to_the_one_asked_last() {
    let mut run = open(&["A", "B", "C"]);
    run.begin_round_with(&vec![1, 2, 0]).unwrap();
    run.settle_reactions(&vec![answer(5, "b"), answer(5, "c"), answer(3, "a")]);
    assert_eq!(run.select().unwrap().name, "C");

    let mut run = open(&["A", "B", "C"]);
    run.begin_round_with(&vec![2, 1, 0]).unwrap();
    run.settle_reactions(&vec![answer(5, "c"), answer(5, "b"), answer(3, "a")]);
    assert_eq!(run.select().unwrap().name, "B");
}

#[test]
fn the_speaker_is_asked_with_its_own_fresh_reaction_in_view() {
    let mut run = open(&["A", "B"]);
    run.begin_round_with(&vec![0, 1]).unwrap();
    run.settle_reactions(&vec![answer(1, "a"), answer(8, "b is keen")]);
    let request = run.select().unwrap();
    let mut expected = Agent::new("B".to_string(), "persona of B".to_string());
    expected.events.push(thought("b is keen", 8));
    assert_eq!(request.body, agent_act::<ChatFunctionArgs>(&expected, &prompts()));
    // Nothing of A's log is in B's request.
    for message in request.body.messages.iter() {
        if let Some(call) = &message.function_call {
            assert!(!call.arguments.contains("\"a\""));
        }
    }
}

#[test]
fn every_kind_of_failure_is_passed_over_alike() {
    let kinds = [Failure::TransportFailure, Failure::DeclinedAnswer, Failure::MalformedResult];
    for kind in kinds.iter() {
        let mut run = open(&["A", "B"]);
        run.begin_round_with(&vec![0, 1]).unwrap();
        run.settle_reactions(&vec![failed(*kind), answer(0, "b")]);
        assert_eq!(logs_of(&run), vec![vec![], vec![thought("b", 0)]]);
        assert_eq!(run.select().unwrap().name, "B");
        run.settle_speech(failed(*kind));
        assert_eq!(run.phase(), Phase::Idle);
        assert_eq!(run.state().latest_speaker, None);
        assert_eq!(logs_of(&run), vec![vec![], vec![thought("b", 0)]]);
    }
}
