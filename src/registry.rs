//! The registry of namespaces: built once, rejects duplicate action names,
//! and resolves an action name against the enabled namespaces.
use vstd::prelude::*;
use vstd::string::*;
use crate::namespaces::Namespace;

verus! {

/// The name of action `j` of namespace `i`.
pub open spec fn action_name(ns: Seq<Namespace>, i: int, j: int) -> Seq<char> {
    ns[i].actions@[j].name@
}

pub open spec fn valid_slot(ns: Seq<Namespace>, i: int, j: int) -> bool {
    0 <= i < ns.len() && 0 <= j < ns[i].actions@.len()
}

/// No two actions of the registry, in one namespace or in two, share a name.
pub open spec fn unique_action_names(ns: Seq<Namespace>) -> bool {
    forall|i1: int, j1: int, i2: int, j2: int|
        valid_slot(ns, i1, j1) && valid_slot(ns, i2, j2) && (i1 != i2 || j1 != j2)
            ==> #[trigger] action_name(ns, i1, j1) != #[trigger] action_name(ns, i2, j2)
}

/// Whether namespace `n` is visible: it is a default one, or it was activated.
pub open spec fn is_enabled(n: Namespace, activated: Seq<String>) -> bool {
    n.default || exists|k: int| 0 <= k < activated.len() && #[trigger] activated[k]@ == n.name@
}

/// Whether some action of an enabled namespace is named `name`.
pub open spec fn resolvable(ns: Seq<Namespace>, activated: Seq<String>, name: Seq<char>) -> bool {
    exists|i: int, j: int|
        valid_slot(ns, i, j) && is_enabled(ns[i], activated) && #[trigger] action_name(ns, i, j) == name
}

/// Whether action `j` of namespace `i` is the first action named `name`, in
/// registry order, among the enabled namespaces.
pub open spec fn is_first_slot(ns: Seq<Namespace>, activated: Seq<String>, name: Seq<char>, i: int, j: int) -> bool {
    &&& valid_slot(ns, i, j)
    &&& is_enabled(ns[i], activated)
    &&& action_name(ns, i, j) == name
    &&& forall|a: int, b: int|
        valid_slot(ns, a, b) && (a < i || (a == i && b < j)) && is_enabled(ns[a], activated)
            ==> #[trigger] action_name(ns, a, b) != name
}

/// There is at most one first slot.
pub proof fn lemma_first_slot_unique(ns: Seq<Namespace>, activated: Seq<String>, name: Seq<char>, i1: int, j1: int, i2: int, j2: int)
    requires
        is_first_slot(ns, activated, name, i1, j1),
        is_first_slot(ns, activated, name, i2, j2),
    ensures
        i1 == i2 && j1 == j2,
{
    if i1 < i2 || (i1 == i2 && j1 < j2) {
        assert(action_name(ns, i1, j1) != name);
    } else if i2 < i1 || (i2 == i1 && j2 < j1) {
        assert(action_name(ns, i2, j2) != name);
    }
}

/// Why a registry could not be built.
#[derive(Debug, Clone, PartialEq, Eq)]
pub enum RegistryError {
    /// Two actions share this name.
    DuplicateAction(String),
}

/// An insertion-ordered collection of namespaces whose action names are
/// unique across all of them.
#[derive(Debug)]
pub struct Registry {
    pub namespaces: Vec<Namespace>,
}

impl Registry {
    pub open spec fn wf(&self) -> bool {
        unique_action_names(self.namespaces@)
    }

    /// Whether another action than action `j1` of namespace `i1` has its name.
    fn has_namesake(ns: &Vec<Namespace>, i1: usize, j1: usize) -> (r: bool)
        requires
            valid_slot(ns@, i1 as int, j1 as int),
        ensures
            r == exists|i2: int, j2: int|
                valid_slot(ns@, i2, j2) && (i1 != i2 || j1 != j2)
                    && #[trigger] action_name(ns@, i2, j2) == action_name(ns@, i1 as int, j1 as int),
    {
        let name = &ns[i1].actions[j1].name;
        let mut i2: usize = 0;
        while i2 < ns.len()
            invariant
                i2 <= ns.len(),
                valid_slot(ns@, i1 as int, j1 as int),
                name@ == action_name(ns@, i1 as int, j1 as int),
                forall|a: int, b: int|
                    valid_slot(ns@, a, b) && a < i2 && (i1 != a || j1 != b)
                        ==> #[trigger] action_name(ns@, a, b) != name@,
            decreases ns.len() - i2,
        {
            let actions = &ns[i2].actions;
            let mut j2: usize = 0;
            while j2 < actions.len()
                invariant
                    i2 < ns.len(),
                    j2 <= actions.len(),
                    actions@ == ns@[i2 as int].actions@,
                    valid_slot(ns@, i1 as int, j1 as int),
                    name@ == action_name(ns@, i1 as int, j1 as int),
                    forall|a: int, b: int|
                        valid_slot(ns@, a, b) && (a < i2 || (a == i2 && b < j2)) && (i1 != a || j1 != b)
                            ==> #[trigger] action_name(ns@, a, b) != name@,
                decreases actions.len() - j2,
            {
                if (i1 != i2 || j1 != j2) && actions[j2].name == *name {
                    assert(action_name(ns@, i2 as int, j2 as int) == name@);
                    return true;
                }
                j2 = j2 + 1;
            }
            i2 = i2 + 1;
        }
        false
    }

    /// Builds a registry from `namespaces`, in their order; fails with the
    /// first duplicated action name, if any.
    pub fn new(namespaces: Vec<Namespace>) -> (r: Result<Registry, RegistryError>)
        ensures
            unique_action_names(namespaces@) <==> r is Ok,
            r matches Ok(reg) ==> reg.namespaces == namespaces && reg.wf(),
            r matches Err(RegistryError::DuplicateAction(n)) ==> exists|i1: int, j1: int, i2: int, j2: int|
                valid_slot(namespaces@, i1, j1) && valid_slot(namespaces@, i2, j2) && (i1 != i2 || j1 != j2)
                    && action_name(namespaces@, i1, j1) == n@ && action_name(namespaces@, i2, j2) == n@,
    {
        let mut i: usize = 0;
        while i < namespaces.len()
            invariant
                i <= namespaces.len(),
                forall|a: int, b: int|
                    valid_slot(namespaces@, a, b) && a < i ==> !(exists|i2: int, j2: int|
                        valid_slot(namespaces@, i2, j2) && (a != i2 || b != j2)
                            && #[trigger] action_name(namespaces@, i2, j2) == #[trigger] action_name(namespaces@, a, b)),
            decreases namespaces.len() - i,
        {
            let mut j: usize = 0;
            while j < namespaces[i].actions.len()
                invariant
                    i < namespaces.len(),
                    j <= namespaces@[i as int].actions@.len(),
                    forall|a: int, b: int|
                        valid_slot(namespaces@, a, b) && (a < i || (a == i && b < j)) ==> !(exists|i2: int, j2: int|
                            valid_slot(namespaces@, i2, j2) && (a != i2 || b != j2)
                                && #[trigger] action_name(namespaces@, i2, j2) == #[trigger] action_name(namespaces@, a, b)),
                decreases namespaces@[i as int].actions@.len() - j,
            {
                if Self::has_namesake(&namespaces, i, j) {
                    let n = namespaces[i].actions[j].name.clone();
                    return Err(RegistryError::DuplicateAction(n));
                }
                j = j + 1;
            }
            i = i + 1;
        }
        Ok(Registry { namespaces })
    }
}


/// Whether `n` is enabled: a default namespace, or one whose name is among
/// the explicitly activated ones.
pub fn namespace_enabled(n: &Namespace, activated: &Vec<String>) -> (r: bool)
    ensures
        r == is_enabled(*n, activated@),
{
    if n.default {
        return true;
    }
    let mut k: usize = 0;
    while k < activated.len()
        invariant
            k <= activated.len(),
            forall|x: int| 0 <= x < k ==> #[trigger] activated@[x]@ != n.name@,
        decreases activated.len() - k,
    {
        if activated[k] == n.name {
            return true;
        }
        k = k + 1;
    }
    false
}

impl Registry {
    /// Looks `name` up among the actions of the enabled namespaces; gives the
    /// namespace's and the action's positions.
    pub fn resolve(&self, activated: &Vec<String>, name: &str) -> (r: Option<(usize, usize)>)
        ensures
            r is None <==> !resolvable(self.namespaces@, activated@, name@),
            r matches Some((i, j)) ==> is_first_slot(self.namespaces@, activated@, name@, i as int, j as int),
    {
        let ns = &self.namespaces;
        let target = String::from_str(name);
        let mut i: usize = 0;
        while i < ns.len()
            invariant
                i <= ns.len(),
                ns == &self.namespaces,
                target@ == name@,
                forall|a: int, b: int|
                    valid_slot(ns@, a, b) && a < i && is_enabled(ns@[a], activated@)
                        ==> #[trigger] action_name(ns@, a, b) != name@,
            decreases ns.len() - i,
        {
            if namespace_enabled(&ns[i], activated) {
                let actions = &ns[i].actions;
                let mut j: usize = 0;
                while j < actions.len()
                    invariant
                        i < ns.len(),
                        j <= actions.len(),
                        actions@ == ns@[i as int].actions@,
                        is_enabled(ns@[i as int], activated@),
                        target@ == name@,
                        ns == &self.namespaces,
                        forall|a: int, b: int|
                            valid_slot(ns@, a, b) && (a < i || (a == i && b < j)) && is_enabled(ns@[a], activated@)
                                ==> #[trigger] action_name(ns@, a, b) != name@,
                    decreases actions.len() - j,
                {
                    if actions[j].name == target {
                        assert(valid_slot(ns@, i as int, j as int) && is_enabled(ns@[i as int], activated@)
                            && action_name(ns@, i as int, j as int) == name@);
                        return Some((i, j));
                    }
                    j = j + 1;
                }
            }
            i = i + 1;
        }
        None
    }

    /// An action of a namespace that is neither a default one nor activated
    /// cannot be resolved: its name is unique, so no enabled namespace holds it.
    pub proof fn lemma_opt_in_actions_hidden(&self, activated: Seq<String>, i: int, j: int)
        requires
            self.wf(),
            valid_slot(self.namespaces@, i, j),
            !is_enabled(self.namespaces@[i], activated),
        ensures
            !resolvable(self.namespaces@, activated, action_name(self.namespaces@, i, j)),
    {
        let ns = self.namespaces@;
        if resolvable(ns, activated, action_name(ns, i, j)) {
            let (a, b) = choose|a: int, b: int|
                valid_slot(ns, a, b) && is_enabled(ns[a], activated) && #[trigger] action_name(ns, a, b)
                    == action_name(ns, i, j);
            assert(a != i);
        }
    }
}

} // verus!
