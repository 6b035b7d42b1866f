//! The shared state of a task: its variables and globals, the namespaces
//! activated for it, the native tool-calling flag and its metrics.
use vstd::prelude::*;
use crate::dispatch::{plan, planned, Step};
use crate::events::Metrics;
use crate::invocation::{pairs_map, Invocation};
use crate::registry::{is_enabled, Registry};
use crate::schema::{synthesize_tools, tool_listing, tools_view, ToolFunction};

verus! {

/// The mutable aggregate that actions and the dispatch engine work on; a
/// later pair of `variables` or `globals` overrides an earlier one.
#[derive(Debug, Clone)]
pub struct State {
    pub variables: Vec<(String, String)>,
    pub globals: Vec<(String, String)>,
    /// Names of the namespaces activated beyond the default ones.
    pub activated: Vec<String>,
    pub use_native_tools_format: bool,
    pub metrics: Metrics,
}

impl State {
    /// A state with no variables, globals or activations.
    pub fn new(use_native_tools_format: bool) -> (r: State)
        ensures
            r.variables@.len() == 0,
            r.globals@.len() == 0,
            r.activated@.len() == 0,
            r.use_native_tools_format == use_native_tools_format,
            r.metrics == (Metrics { valid_actions: 0, errored_actions: 0, unknown_actions: 0, timedout_actions: 0 }),
    {
        State {
            variables: Vec::new(),
            globals: Vec::new(),
            activated: Vec::new(),
            use_native_tools_format,
            metrics: Metrics { valid_actions: 0, errored_actions: 0, unknown_actions: 0, timedout_actions: 0 },
        }
    }

    /// Sets variable `name` to `value`.
    pub fn set_variable(&mut self, name: String, value: String)
        ensures
            pairs_map(final(self).variables@) == pairs_map(old(self).variables@).insert(name@, value@),
            final(self).globals == old(self).globals,
            final(self).activated == old(self).activated,
            final(self).use_native_tools_format == old(self).use_native_tools_format,
    {
        let ghost before = self.variables@;
        self.variables.push((name, value));
        assert(self.variables@.drop_last() =~= before);
    }

    /// Activates the namespace `name`, beyond the default ones.
    pub fn activate(&mut self, name: String)
        ensures
            final(self).activated@ == old(self).activated@.push(name),
            final(self).variables == old(self).variables,
            final(self).use_native_tools_format == old(self).use_native_tools_format,
    {
        self.activated.push(name);
    }

    /// The tool listing for this state, from one read of the flag and of the
    /// activations.
    pub fn tools(&self, registry: &Registry) -> (r: Vec<ToolFunction>)
        ensures
            tools_view(r@) == tool_listing(registry.namespaces@, self.activated@, self.use_native_tools_format),
    {
        synthesize_tools(registry, &self.activated, self.use_native_tools_format)
    }

    /// The dispatch step for `invocation` in this state.
    pub fn plan(&self, registry: &Registry, invocation: Invocation) -> (r: Step)
        ensures
            planned(r, registry.namespaces@, self.activated@, pairs_map(self.variables@), invocation),
    {
        plan(registry, &self.activated, &self.variables, invocation)
    }
}

/// Activating a namespace enables it, and leaves every namespace that was
/// enabled enabled.
pub proof fn lemma_activation_enables(before: State, after: State, name: String, n: crate::namespaces::Namespace, m: crate::namespaces::Namespace)
    requires
        after.activated@ == before.activated@.push(name),
        n.name@ == name@,
        is_enabled(m, before.activated@),
    ensures
        is_enabled(n, after.activated@),
        is_enabled(m, after.activated@),
{
    let k = before.activated@.len() as int;
    assert(after.activated@[k]@ == n.name@);
    if !m.default {
        let j = choose|j: int| 0 <= j < before.activated@.len() && #[trigger] before.activated@[j]@ == m.name@;
        assert(after.activated@[j] == before.activated@[j]);
    }
}

} // verus!
