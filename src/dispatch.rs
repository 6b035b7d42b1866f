//! The action dispatch engine, as decisions from state and event to the next
//! step: resolve, validate, confirm, execute under a deadline, report.
use vstd::prelude::*;
use vstd::string::*;
use crate::chat::Message;
use crate::events::EventType;
use crate::invocation::{pairs_map, Invocation};
use crate::namespaces::{Action, ActionOutput};
use crate::registry::{action_name, is_first_slot, lemma_first_slot_unique, resolvable, valid_slot, Registry};

verus! {

/// The next step for an invocation.
#[derive(Debug)]
pub enum Step {
    /// Terminal: the invocation was refused; the event says why.
    Rejected { event: EventType },
    /// Wait for the user's yes or no, then call `on_confirmation`.
    AwaitConfirmation { invocation: Invocation, action: (usize, usize) },
    /// Run the action, racing it against `timeout_ms` where set.
    Run { invocation: Invocation, action: (usize, usize), timeout_ms: Option<u64> },
    /// Terminal: the user declined; the action was not run.
    Skipped { invocation: Invocation },
}

/// How a run ended.
#[derive(Debug)]
pub enum RunOutcome {
    /// The deadline passed first; the run was abandoned.
    TimedOut { elapsed_ms: u64 },
    Failed { error: String, elapsed_ms: u64 },
    Succeeded { result: Option<ActionOutput>, elapsed_ms: u64 },
}

/// The first of `required` that is not a key of `vars`, by position.
pub open spec fn first_missing(required: Seq<String>, vars: Map<Seq<char>, Seq<char>>, k: int) -> bool {
    0 <= k < required.len() && !vars.contains_key(required[k]@)
        && forall|x: int| 0 <= x < k ==> vars.contains_key(#[trigger] required[x]@)
}

pub open spec fn all_present(required: Seq<String>, vars: Map<Seq<char>, Seq<char>>) -> bool {
    forall|x: int| 0 <= x < required.len() ==> vars.contains_key(#[trigger] required[x]@)
}

pub open spec fn required_of(a: Action) -> Seq<String> {
    match a.required_variables {
        Some(v) => v@,
        None => Seq::empty(),
    }
}

/// The error text of an invocation whose action is not known.
pub open spec fn unknown_action_text() -> Seq<char> {
    "unknown action"@
}

/// The error text of an invocation that misses variable `name`.
pub open spec fn missing_variable_text(name: Seq<char>) -> Seq<char> {
    "missing variable "@ + name
}

/// Whether `vars` has the key `name`.
fn has_key(vars: &Vec<(String, String)>, name: &String) -> (r: bool)
    ensures
        r == pairs_map(vars@).contains_key(name@),
{
    let mut k: usize = vars.len();
    assert(vars@.take(k as int) =~= vars@);
    while k > 0
        invariant
            k <= vars.len(),
            pairs_map(vars@).contains_key(name@) == pairs_map(vars@.take(k as int)).contains_key(name@),
        decreases k,
    {
        assert(vars@.take(k as int).drop_last() =~= vars@.take(k - 1));
        if vars[k - 1].0 == *name {
            return true;
        }
        k = k - 1;
    }
    assert(vars@.take(0) =~= Seq::<(String, String)>::empty());
    false
}

/// The position of the action that `name` resolves to: the first action of
/// that name, in registry order, among the enabled namespaces.
pub open spec fn resolved_slot(ns: Seq<crate::namespaces::Namespace>, activated: Seq<String>, name: Seq<char>) -> (int, int) {
    choose|a: int, b: int| #[trigger] is_first_slot(ns, activated, name, a, b)
}

/// The position of the first required variable that `vars` lacks, if any.
pub open spec fn missing_index(required: Seq<String>, vars: Map<Seq<char>, Seq<char>>) -> Option<int> {
    if exists|k: int| first_missing(required, vars, k) {
        Some(choose|k: int| first_missing(required, vars, k))
    } else {
        None
    }
}

/// Whether `r` refuses `invocation` with the error text `text`.
pub open spec fn rejected_with(r: Step, invocation: Invocation, text: Seq<char>) -> bool {
    match r {
        Step::Rejected { event: EventType::InvalidAction { invocation: i, error: Some(e) } } => i == invocation
            && e@ == text,
        _ => false,
    }
}

/// The step for `invocation`: refused as unknown where no enabled action has
/// its name; refused for the first required variable that is missing; else
/// confirmation where the action asks for it; else a run under its timeout.
pub open spec fn planned(
    r: Step,
    ns: Seq<crate::namespaces::Namespace>,
    activated: Seq<String>,
    vars: Map<Seq<char>, Seq<char>>,
    invocation: Invocation,
) -> bool {
    if !resolvable(ns, activated, invocation.action@) {
        rejected_with(r, invocation, unknown_action_text())
    } else {
        let (a, b) = resolved_slot(ns, activated, invocation.action@);
        let act = ns[a].actions@[b];
        match missing_index(required_of(act), vars) {
            Some(k) => rejected_with(r, invocation, missing_variable_text(required_of(act)[k]@)),
            None => if act.requires_user_confirmation {
                r == (Step::AwaitConfirmation { invocation, action: (a as usize, b as usize) })
            } else {
                r == (Step::Run { invocation, action: (a as usize, b as usize), timeout_ms: act.timeout_ms })
            },
        }
    }
}

/// Resolves and validates an invocation against the registry, the activated
/// namespaces and the state's variables (as key/value pairs).
pub fn plan(registry: &Registry, activated: &Vec<String>, variables: &Vec<(String, String)>, invocation: Invocation) -> (r: Step)
    ensures
        planned(r, registry.namespaces@, activated@, pairs_map(variables@), invocation),
{
    match registry.resolve(activated, invocation.action.as_str()) {
        None => {
            let error = Some(String::from_str("unknown action"));
            Step::Rejected { event: EventType::InvalidAction { invocation, error } }
        },
        Some((a, b)) => {
            let action = &registry.namespaces[a].actions[b];
            let ghost ns = registry.namespaces@;
            proof {
                assert(is_first_slot(ns, activated@, invocation.action@, a as int, b as int));
                let (a2, b2) = resolved_slot(ns, activated@, invocation.action@);
                lemma_first_slot_unique(ns, activated@, invocation.action@, a as int, b as int, a2, b2);
            }
            assert(*action == ns[a as int].actions@[b as int]);
            match &action.required_variables {
                Some(required) => {
                    let mut k: usize = 0;
                    while k < required.len()
                        invariant
                            k <= required.len(),
                            required@ == required_of(*action),
                            ns == registry.namespaces@,
                            valid_slot(ns, a as int, b as int),
                            *action == ns[a as int].actions@[b as int],
                            resolvable(ns, activated@, invocation.action@),
                            resolved_slot(ns, activated@, invocation.action@) == (a as int, b as int),
                            forall|x: int| 0 <= x < k ==> pairs_map(variables@).contains_key(#[trigger] required@[x]@),
                        decreases required.len() - k,
                    {
                        if !has_key(variables, &required[k]) {
                            let mut text = String::from_str("missing variable ");
                            text.append(required[k].as_str());
                            assert(first_missing(required@, pairs_map(variables@), k as int));
                            assert(missing_index(required@, pairs_map(variables@)) == Some(k as int)) by {
                                let c = choose|c: int| first_missing(required@, pairs_map(variables@), c);
                                if c < k {
                                    assert(pairs_map(variables@).contains_key(required@[c]@));
                                } else if c > k {
                                    assert(pairs_map(variables@).contains_key(required@[k as int]@));
                                }
                            }
                            assert(text@ == missing_variable_text(required@[k as int]@));
                            assert(action == ns[a as int].actions@[b as int]);
                            assert(resolvable(ns, activated@, invocation.action@));
                            let ghost inv = invocation;
                            let error = Some(text);
                            let r = Step::Rejected { event: EventType::InvalidAction { invocation, error } };
                            assert(rejected_with(r, inv, missing_variable_text(required@[k as int]@)));
                            return r;
                        }
                        k = k + 1;
                    }
                },
                None => {},
            }
            assert(missing_index(required_of(*action), pairs_map(variables@)) is None);
            if action.requires_user_confirmation {
                Step::AwaitConfirmation { invocation, action: (a, b) }
            } else {
                Step::Run { invocation, action: (a, b), timeout_ms: action.timeout_ms }
            }
        },
    }
}

/// An invocation of an action of a namespace that is not a default one and
/// was never activated is refused as an unknown action.
pub proof fn lemma_opt_in_invocation_unknown(
    registry: &Registry,
    activated: Seq<String>,
    vars: Map<Seq<char>, Seq<char>>,
    invocation: Invocation,
    i: int,
    j: int,
    r: Step,
)
    requires
        registry.wf(),
        valid_slot(registry.namespaces@, i, j),
        !registry.namespaces@[i].default,
        forall|k: int| 0 <= k < activated.len() ==> (#[trigger] activated[k])@ != registry.namespaces@[i].name@,
        invocation.action@ == action_name(registry.namespaces@, i, j),
        planned(r, registry.namespaces@, activated, vars, invocation),
    ensures
        rejected_with(r, invocation, unknown_action_text()),
{
    registry.lemma_opt_in_actions_hidden(activated, i, j);
}

/// The step after the user's decision on an action that asked for it: run it
/// under its timeout, or skip it without running.
pub fn on_confirmation(approved: bool, invocation: Invocation, action: (usize, usize), timeout_ms: Option<u64>) -> (r: Step)
    ensures
        approved ==> r == (Step::Run { invocation, action, timeout_ms }),
        !approved ==> r == (Step::Skipped { invocation }),
{
    if approved {
        Step::Run { invocation, action, timeout_ms }
    } else {
        Step::Skipped { invocation }
    }
}

/// The outcome of racing a run against its deadline: `finished` is what the
/// run returned, or `None` where the deadline passed first, `elapsed_ms`
/// after the start.
pub fn settle(finished: Option<Result<Option<ActionOutput>, String>>, elapsed_ms: u64) -> (r: RunOutcome)
    ensures
        match finished {
            None => r == (RunOutcome::TimedOut { elapsed_ms }),
            Some(Err(error)) => r == (RunOutcome::Failed { error, elapsed_ms }),
            Some(Ok(result)) => r == (RunOutcome::Succeeded { result, elapsed_ms }),
        },
{
    match finished {
        None => RunOutcome::TimedOut { elapsed_ms },
        Some(Err(error)) => RunOutcome::Failed { error, elapsed_ms },
        Some(Ok(result)) => RunOutcome::Succeeded { result, elapsed_ms },
    }
}

/// The one event that reports how a run of `invocation` ended.
pub open spec fn outcome_event(invocation: Invocation, complete_task: bool, outcome: RunOutcome) -> EventType {
    match outcome {
        RunOutcome::TimedOut { elapsed_ms } => EventType::ActionTimeout { invocation, elapsed_ms },
        RunOutcome::Failed { error, elapsed_ms } => EventType::ActionExecuted {
            invocation,
            error: Some(error),
            result: None,
            elapsed_ms,
            complete_task: false,
        },
        RunOutcome::Succeeded { result, elapsed_ms } => EventType::ActionExecuted {
            invocation,
            error: None,
            result,
            elapsed_ms,
            complete_task,
        },
    }
}

/// Reports how a run ended; `complete_task` is the action's own flag, and
/// only a successful run carries it.
pub fn execution_event(invocation: Invocation, complete_task: bool, outcome: RunOutcome) -> (r: EventType)
    ensures
        r == outcome_event(invocation, complete_task, outcome),
{
    match outcome {
        RunOutcome::TimedOut { elapsed_ms } => EventType::ActionTimeout { invocation, elapsed_ms },
        RunOutcome::Failed { error, elapsed_ms } => EventType::ActionExecuted {
            invocation,
            error: Some(error),
            result: None,
            elapsed_ms,
            complete_task: false,
        },
        RunOutcome::Succeeded { result, elapsed_ms } => EventType::ActionExecuted {
            invocation,
            error: None,
            result,
            elapsed_ms,
            complete_task,
        },
    }
}

/// A run that has not finished when its deadline of `timeout_ms` passes is
/// reported by exactly one event, an `ActionTimeout` whose elapsed time is at
/// least the deadline; no `ActionExecuted` is reported for it.
pub proof fn lemma_deadline_reports_timeout(
    invocation: Invocation,
    complete_task: bool,
    timeout_ms: u64,
    elapsed_ms: u64,
    outcome: RunOutcome,
)
    requires
        elapsed_ms >= timeout_ms,
        outcome == (RunOutcome::TimedOut { elapsed_ms }),
    ensures
        outcome_event(invocation, complete_task, outcome) matches EventType::ActionTimeout { invocation: i, elapsed_ms: e }
            && i == invocation && e >= timeout_ms,
        !(outcome_event(invocation, complete_task, outcome) is ActionExecuted),
{
}

/// Whether `m` is the message that feeds `event` back to the model: the error
/// text of a refusal or a failed run, `action timed out` for a timeout, the
/// output of a successful run (empty text where it gave none), each tagged
/// with its invocation; no message for the other events.
pub open spec fn feedback_for(event: EventType, m: Option<Message>) -> bool {
    match event {
        EventType::InvalidAction { invocation, error } => m matches Some(Message::Feedback(ActionOutput::Text(t), Some(i)))
            && i == invocation && t@ == match error {
            Some(e) => e@,
            None => Seq::<char>::empty(),
        },
        EventType::ActionTimeout { invocation, .. } => m matches Some(Message::Feedback(ActionOutput::Text(t), Some(i)))
            && i == invocation && t@ == "action timed out"@,
        EventType::ActionExecuted { invocation, error: Some(e), .. } => m matches Some(Message::Feedback(ActionOutput::Text(t), Some(i)))
            && i == invocation && t@ == e@,
        EventType::ActionExecuted { invocation, error: None, result: Some(o), .. } => m == Some(
            Message::Feedback(o, Some(invocation)),
        ),
        EventType::ActionExecuted { invocation, error: None, result: None, .. } => m matches Some(Message::Feedback(ActionOutput::Text(t), Some(i)))
            && i == invocation && t@.len() == 0,
        _ => m is None,
    }
}

/// The feedback message for an event of the dispatch engine.
pub fn feedback_message(event: EventType) -> (r: Option<Message>)
    ensures
        feedback_for(event, r),
{
    match event {
        EventType::InvalidAction { invocation, error } => {
            let t = match error {
                Some(e) => e,
                None => String::new(),
            };
            Some(Message::Feedback(ActionOutput::Text(t), Some(invocation)))
        },
        EventType::ActionTimeout { invocation, .. } => Some(
            Message::Feedback(ActionOutput::Text(String::from_str("action timed out")), Some(invocation)),
        ),
        EventType::ActionExecuted { invocation, error, result, .. } => match error {
            Some(e) => Some(Message::Feedback(ActionOutput::Text(e), Some(invocation))),
            None => match result {
                Some(o) => Some(Message::Feedback(o, Some(invocation))),
                None => Some(Message::Feedback(ActionOutput::Text(String::new()), Some(invocation))),
            },
        },
        _ => None,
    }
}

/// The feedback for an invocation that the user declined: an empty text,
/// tagged with the invocation; the action was not run.
pub fn skipped_feedback(invocation: Invocation) -> (r: Message)
    ensures
        r matches Message::Feedback(ActionOutput::Text(t), Some(i)) && i == invocation && t@.len() == 0,
{
    Message::Feedback(ActionOutput::Text(String::new()), Some(invocation))
}

} // verus!
