use nerve::dispatch::{execution_event, feedback_message, on_confirmation, plan, settle, skipped_feedback, RunOutcome, Step};
use nerve::events::{Event, EventType};
use nerve::chat::Message;
use nerve::invocation::Invocation;
use nerve::namespaces::{Action, ActionClone, ActionOutput, Namespace, StorageDescriptor, StorageType};
use nerve::registry::{namespace_enabled, Registry, RegistryError};
use nerve::storage::Storage;

fn action(name: &str) -> Action {
    Action::new(name.to_string(), format!("{name} action"))
}

fn sample_registry() -> Registry {
    let mut guarded = action("guarded");
    guarded.required_variables = Some(vec!["target".to_string()]);
    let mut ask = action("ask");
    ask.requires_user_confirmation = true;
    let mut slow = action("slow");
    slow.timeout_ms = Some(200);
    slow.complete_task = true;
    let core = Namespace::new_default(
        "core".to_string(),
        "core actions".to_string(),
        vec![action("echo"), guarded, ask, slow],
        None,
    );
    let extra = Namespace::new_non_default("extra".to_string(), "opt-in".to_string(), vec![action("hidden")], None);
    Registry::new(vec![core, extra]).unwrap()
}

fn inv(name: &str) -> Invocation {
    Invocation::new(name.to_string(), None, None)
}

fn rejection(step: &Step) -> Option<String> {
    match step {
        Step::Rejected { event: EventType::InvalidAction { error, .. } } => error.clone(),
        _ => None,
    }
}

#[test]
fn duplicate_action_names_rejected() {
    let a = Namespace::new_default("a".to_string(), String::new(), vec![action("x")], None);
    let b = Namespace::new_non_default("b".to_string(), String::new(), vec![action("x")], None);
    assert_eq!(Registry::new(vec![a, b]).unwrap_err(), RegistryError::DuplicateAction("x".to_string()));
    let c = Namespace::new_default("c".to_string(), String::new(), vec![action("y"), action("y")], None);
    assert!(Registry::new(vec![c]).is_err());
}

#[test]
fn resolve_finds_enabled_actions() {
    let reg = sample_registry();
    assert_eq!(reg.resolve(&vec![], "echo"), Some((0, 0)));
    assert_eq!(reg.resolve(&vec![], "slow"), Some((0, 3)));
    assert_eq!(reg.resolve(&vec![], "nope"), None);
}

#[test]
fn opt_in_namespace_hidden_until_activated() {
    let reg = sample_registry();
    assert!(!namespace_enabled(&reg.namespaces[1], &vec![]));
    assert_eq!(reg.resolve(&vec![], "hidden"), None);
    let step = plan(&reg, &vec![], &vec![], inv("hidden"));
    assert_eq!(rejection(&step), Some("unknown action".to_string()));
    let activated = vec!["extra".to_string()];
    assert_eq!(reg.resolve(&activated, "hidden"), Some((1, 0)));
    assert!(matches!(plan(&reg, &activated, &vec![], inv("hidden")), Step::Run { action: (1, 0), .. }));
}

#[test]
fn unknown_action_rejected() {
    let reg = sample_registry();
    let step = plan(&reg, &vec![], &vec![], inv("missing"));
    assert_eq!(rejection(&step), Some("unknown action".to_string()));
}

#[test]
fn missing_variable_rejected() {
    let reg = sample_registry();
    let step = plan(&reg, &vec![], &vec![], inv("guarded"));
    assert_eq!(rejection(&step), Some("missing variable target".to_string()));
    let vars = vec![("target".to_string(), "x".to_string())];
    assert!(matches!(plan(&reg, &vec![], &vars, inv("guarded")), Step::Run { timeout_ms: None, .. }));
}

#[test]
fn confirmation_gates_the_run() {
    let reg = sample_registry();
    let step = plan(&reg, &vec![], &vec![], inv("ask"));
    let (invocation, act) = match step {
        Step::AwaitConfirmation { invocation, action } => (invocation, action),
        _ => panic!("expected a confirmation step"),
    };
    assert!(matches!(on_confirmation(true, invocation.clone(), act, None), Step::Run { .. }));
    assert!(matches!(on_confirmation(false, invocation.clone(), act, None), Step::Skipped { .. }));
    match skipped_feedback(invocation) {
        Message::Feedback(ActionOutput::Text(t), Some(i)) => {
            assert!(t.is_empty());
            assert_eq!(i.action, "ask");
        }
        _ => panic!("expected feedback"),
    }
}

#[test]
fn timeout_yields_one_timeout_event() {
    let reg = sample_registry();
    let step = plan(&reg, &vec![], &vec![], inv("slow"));
    let (invocation, timeout) = match step {
        Step::Run { invocation, timeout_ms, .. } => (invocation, timeout_ms),
        _ => panic!("expected a run"),
    };
    assert_eq!(timeout, Some(200));
    let outcome = settle(None, 201);
    let event = execution_event(invocation, true, outcome);
    match &event {
        EventType::ActionTimeout { elapsed_ms, invocation } => {
            assert!(*elapsed_ms >= 200);
            assert_eq!(invocation.action, "slow");
        }
        _ => panic!("expected a timeout event"),
    }
    match feedback_message(event) {
        Some(Message::Feedback(ActionOutput::Text(t), Some(_))) => assert_eq!(t, "action timed out"),
        _ => panic!("expected feedback"),
    }
}

#[test]
fn failed_and_successful_runs() {
    let failed = execution_event(inv("slow"), true, settle(Some(Err("boom".to_string())), 5));
    match failed {
        EventType::ActionExecuted { error, result, complete_task, elapsed_ms, .. } => {
            assert_eq!(error, Some("boom".to_string()));
            assert!(result.is_none());
            assert!(!complete_task);
            assert_eq!(elapsed_ms, 5);
        }
        _ => panic!("expected an executed event"),
    }
    let ok = execution_event(inv("slow"), true, settle(Some(Ok(Some(ActionOutput::text("done".to_string())))), 7));
    match &ok {
        EventType::ActionExecuted { error, result, complete_task, .. } => {
            assert!(error.is_none());
            assert_eq!(result, &Some(ActionOutput::Text("done".to_string())));
            assert!(*complete_task);
        }
        _ => panic!("expected an executed event"),
    }
    match feedback_message(ok) {
        Some(Message::Feedback(o, Some(_))) => assert_eq!(o, ActionOutput::Text("done".to_string())),
        _ => panic!("expected feedback"),
    }
    assert!(matches!(settle(None, 3), RunOutcome::TimedOut { elapsed_ms: 3 }));
    assert!(feedback_message(EventType::EmptyResponse).is_none());
}

#[test]
fn current_previous_write_sequence() {
    let mut s = Storage::new("status".to_string(), StorageType::CurrentPrevious);
    match s.set("k", "a".to_string()) {
        EventType::StorageUpdate { storage_name, storage_type, key, prev, new } => {
            assert_eq!(storage_name, "status");
            assert_eq!(storage_type, StorageType::CurrentPrevious);
            assert_eq!(key, "k");
            assert_eq!(prev, None);
            assert_eq!(new, Some("a".to_string()));
        }
        _ => panic!("expected a storage update"),
    }
    match s.set("k", "b".to_string()) {
        EventType::StorageUpdate { prev, new, .. } => {
            assert_eq!(prev, Some("a".to_string()));
            assert_eq!(new, Some("b".to_string()));
        }
        _ => panic!("expected a storage update"),
    }
    assert_eq!(s.get("k"), Some("b".to_string()));
    assert_eq!(s.get("other"), None);
}

#[test]
fn storage_descriptors() {
    assert_eq!(StorageDescriptor::tagged("t").type_, StorageType::Tagged);
    assert_eq!(StorageDescriptor::untagged("u").type_, StorageType::Untagged);
    assert_eq!(StorageDescriptor::previous_current("p").type_, StorageType::CurrentPrevious);
    assert_eq!(StorageDescriptor::completion("c").type_, StorageType::Completion);
    let d = StorageDescriptor::time("when");
    assert_eq!(d.name, "when");
    assert_eq!(d.type_, StorageType::Time);
    assert!(d.predefined.is_none());
    let mut seed = std::collections::HashMap::new();
    seed.insert("a".to_string(), "b".to_string());
    let d = StorageDescriptor::tagged("x").predefine(seed.clone());
    assert_eq!(d.predefined, Some(seed));
}

#[test]
fn action_output_text() {
    assert_eq!(ActionOutput::text("hi".to_string()).to_display_string(), "hi");
    let img = ActionOutput::image("abc".to_string(), "image/png".to_string());
    assert_eq!(img.to_display_string(), "image: abc (image/png)");
}

#[test]
fn action_clone_keeps_contents() {
    let mut a = action("x");
    a.example_attributes = Some(vec![("k".to_string(), "v".to_string())]);
    a.timeout_ms = Some(9);
    let b = a.clone_box();
    assert_eq!(b.name(), "x");
    assert_eq!(b.timeout(), Some(9));
    assert_eq!(b.example_attributes(), &Some(vec![("k".to_string(), "v".to_string())]));
    assert!(!b.complete_task() && !b.requires_user_confirmation());
}

#[test]
fn event_stamps() {
    let e = Event::at(42, EventType::EmptyResponse);
    assert_eq!(e.timestamp, 42);
    let now = Event::new(EventType::Thinking("t".to_string()));
    assert!(now.timestamp > 1_600_000_000);
    assert!(matches!(now.event, EventType::Thinking(_)));
}

#[test]
fn state_activation_and_variables() {
    let reg = sample_registry();
    let mut st = nerve::state::State::new(true);
    assert!(rejection(&st.plan(&reg, inv("hidden"))).is_some());
    assert_eq!(st.tools(&reg).len(), 4);
    st.activate("extra".to_string());
    assert!(matches!(st.plan(&reg, inv("hidden")), Step::Run { .. }));
    assert_eq!(st.tools(&reg).len(), 5);
    assert_eq!(rejection(&st.plan(&reg, inv("guarded"))), Some("missing variable target".to_string()));
    st.set_variable("target".to_string(), "x".to_string());
    assert!(matches!(st.plan(&reg, inv("guarded")), Step::Run { .. }));
    let off = nerve::state::State::new(false);
    assert!(off.tools(&reg).is_empty());
}
