//! Synthesis of native tool-calling schemas from the enabled namespaces.
use vstd::prelude::*;
use vstd::string::*;
use crate::namespaces::{Action, Namespace};
use crate::registry::{action_name, is_enabled, namespace_enabled, valid_slot, Registry};

verus! {

/// One parameter of a tool function: always of JSON type "string".
#[derive(Debug, Clone)]
pub struct OpenAiToolFunctionParameterProperty {
    pub the_type: String,
    pub description: String,
}

/// The parameter object of a tool function: JSON type "object", the names of
/// the required parameters and each parameter's property, in order.
#[derive(Debug, Clone)]
pub struct OpenAiToolFunctionParameters {
    pub the_type: String,
    pub required: Vec<String>,
    pub properties: Vec<(String, OpenAiToolFunctionParameterProperty)>,
}

/// One function definition offered to the model, named after an action.
#[derive(Debug, Clone)]
pub struct ToolFunction {
    pub name: String,
    pub description: String,
    pub parameters: OpenAiToolFunctionParameters,
}

/// A tool function as plain text: name, description, parameter object type,
/// required names, and (name, type, description) of each property.
pub struct ToolView {
    pub name: Seq<char>,
    pub description: Seq<char>,
    pub the_type: Seq<char>,
    pub required: Seq<Seq<char>>,
    pub properties: Seq<(Seq<char>, Seq<char>, Seq<char>)>,
}

pub open spec fn property_view(p: (String, OpenAiToolFunctionParameterProperty)) -> (Seq<char>, Seq<char>, Seq<char>) {
    (p.0@, p.1.the_type@, p.1.description@)
}

pub open spec fn tool_view(t: ToolFunction) -> ToolView {
    ToolView {
        name: t.name@,
        description: t.description@,
        the_type: t.parameters.the_type@,
        required: t.parameters.required@.map_values(|s: String| s@),
        properties: t.parameters.properties@.map_values(|p| property_view(p)),
    }
}

/// The description given to the payload parameter of an action with an
/// example payload.
pub open spec fn payload_description(example: Seq<char>) -> Seq<char> {
    "The main function argument, use this as a template: "@ + example
}

pub open spec fn example_keys(a: Action) -> Seq<Seq<char>> {
    match a.example_attributes {
        Some(v) => v@.map_values(|p: (String, String)| p.0@),
        None => Seq::empty(),
    }
}

/// `keys` appended to `base` in order, each only where it is not there yet.
pub open spec fn add_distinct(base: Seq<Seq<char>>, keys: Seq<Seq<char>>) -> Seq<Seq<char>>
    decreases keys.len(),
{
    if keys.len() == 0 {
        base
    } else {
        let d = add_distinct(base, keys.drop_last());
        if d.contains(keys.last()) {
            d
        } else {
            d.push(keys.last())
        }
    }
}

/// Appending only absent keys keeps a list free of repeats.
pub proof fn lemma_add_distinct_no_repeats(base: Seq<Seq<char>>, keys: Seq<Seq<char>>)
    requires
        base.no_duplicates(),
    ensures
        add_distinct(base, keys).no_duplicates(),
    decreases keys.len(),
{
    if keys.len() > 0 {
        lemma_add_distinct_no_repeats(base, keys.drop_last());
        let d = add_distinct(base, keys.drop_last());
        if !d.contains(keys.last()) {
            assert forall|i: int, j: int| 0 <= i < j < d.push(keys.last()).len() implies d.push(keys.last())[i] != d.push(
                keys.last(),
            )[j] by {
                if j == d.len() {
                    assert(d[i] != keys.last());
                }
            }
        }
    }
}

pub open spec fn key_property(k: Seq<char>) -> (Seq<char>, Seq<char>, Seq<char>) {
    (k, "string"@, k)
}

/// The schema of one action: a required "payload" string parameter where the
/// action has an example payload, then one required string parameter per
/// distinct example attribute key not already a parameter, described by the
/// key itself. Parameter names are thus distinct.
pub open spec fn action_schema(a: Action) -> ToolView {
    let payload_req: Seq<Seq<char>> = match a.example_payload {
        Some(_) => seq!["payload"@],
        None => Seq::empty(),
    };
    let payload_prop: Seq<(Seq<char>, Seq<char>, Seq<char>)> = match a.example_payload {
        Some(e) => seq![("payload"@, "string"@, payload_description(e@))],
        None => Seq::empty(),
    };
    ToolView {
        name: a.name@,
        description: a.description@,
        the_type: "object"@,
        required: add_distinct(payload_req, example_keys(a)),
        properties: payload_prop + add_distinct(payload_req, example_keys(a)).skip(payload_req.len() as int).map_values(
            |k: Seq<char>| key_property(k),
        ),
    }
}

/// The schemas of every action of every enabled namespace, in registry order.
pub open spec fn registry_schemas(ns: Seq<Namespace>, activated: Seq<String>) -> Seq<ToolView>
    decreases ns.len(),
{
    if ns.len() == 0 {
        Seq::empty()
    } else {
        registry_schemas(ns.drop_last(), activated) + if is_enabled(ns.last(), activated) {
            ns.last().actions@.map_values(|a: Action| action_schema(a))
        } else {
            Seq::empty()
        }
    }
}

/// The tool listing for a state: empty unless native tool calling is on.
pub open spec fn tool_listing(ns: Seq<Namespace>, activated: Seq<String>, native_tools: bool) -> Seq<ToolView> {
    if native_tools {
        registry_schemas(ns, activated)
    } else {
        Seq::empty()
    }
}

pub open spec fn tools_view(v: Seq<ToolFunction>) -> Seq<ToolView> {
    v.map_values(|t: ToolFunction| tool_view(t))
}

fn string_property(description: String) -> (r: OpenAiToolFunctionParameterProperty)
    ensures
        r.the_type@ == "string"@,
        r.description == description,
{
    OpenAiToolFunctionParameterProperty { the_type: String::from_str("string"), description }
}

/// Builds the function definition of one action.
pub fn action_tool(a: &Action) -> (r: ToolFunction)
    ensures
        tool_view(r) == action_schema(*a),
        tool_view(r).required.no_duplicates(),
{
    let mut required: Vec<String> = Vec::new();
    let mut properties: Vec<(String, OpenAiToolFunctionParameterProperty)> = Vec::new();
    match &a.example_payload {
        Some(example) => {
            let mut d = String::from_str("The main function argument, use this as a template: ");
            d.append(example.as_str());
            required.push(String::from_str("payload"));
            properties.push((String::from_str("payload"), string_property(d)));
        },
        None => {},
    }
    let ghost base_req = required@.map_values(|s: String| s@);
    let ghost base_props = properties@.map_values(|p| property_view(p));
    let ghost keys = example_keys(*a);
    match &a.example_attributes {
        Some(attrs) => {
            proof {
                assert(keys.take(0) =~= Seq::<Seq<char>>::empty());
                assert(base_req.skip(base_req.len() as int) =~= Seq::<Seq<char>>::empty());
                assert(base_props + Seq::<(Seq<char>, Seq<char>, Seq<char>)>::empty() =~= base_props);
                assert(base_req.take(base_req.len() as int) =~= base_req);
            }
            let mut k: usize = 0;
            while k < attrs.len()
                invariant
                    k <= attrs.len(),
                    keys == attrs@.map_values(|p: (String, String)| p.0@),
                    base_req.len() <= 1,
                    required@.map_values(|s: String| s@) == add_distinct(base_req, keys.take(k as int)),
                    properties@.map_values(|p| property_view(p)) == base_props + add_distinct(
                        base_req,
                        keys.take(k as int),
                    ).skip(base_req.len() as int).map_values(|x: Seq<char>| key_property(x)),
                    add_distinct(base_req, keys.take(k as int)).len() >= base_req.len(),
                    add_distinct(base_req, keys.take(k as int)).take(base_req.len() as int) == base_req,
                decreases attrs.len() - k,
            {
                let key = &attrs[k].0;
                let ghost old_req = required@;
                let ghost old_props = properties@;
                let ghost d = add_distinct(base_req, keys.take(k as int));
                assert(keys.take(k + 1).drop_last() =~= keys.take(k as int));
                assert(keys.take(k + 1).last() == key@);
                let mut present = false;
                let mut q: usize = 0;
                while q < required.len()
                    invariant
                        q <= required.len(),
                        required@ == old_req,
                        old_req.map_values(|s: String| s@) == d,
                        present <==> exists|x: int| 0 <= x < q && d[x] == key@,
                    decreases required.len() - q,
                {
                    if required[q] == *key {
                        assert(d[q as int] == key@);
                        present = true;
                    }
                    q = q + 1;
                }
                assert(present == d.contains(key@));
                if !present {
                    required.push(key.clone());
                    properties.push((key.clone(), string_property(key.clone())));
                    assert(required@.map_values(|s: String| s@) =~= d.push(key@));
                    assert(d.push(key@).skip(base_req.len() as int) =~= d.skip(base_req.len() as int).push(key@));
                    assert(properties@.map_values(|p| property_view(p))
                        =~= old_props.map_values(|p| property_view(p)).push(key_property(key@)));
                    assert(d.push(key@).skip(base_req.len() as int).map_values(|x: Seq<char>| key_property(x))
                        =~= d.skip(base_req.len() as int).map_values(|x: Seq<char>| key_property(x)).push(key_property(key@)));
                    assert(d.push(key@).take(base_req.len() as int) =~= d.take(base_req.len() as int));
                }
                k = k + 1;
            }
            assert(keys.take(attrs.len() as int) =~= keys);
        },
        None => {
            assert(keys.take(0) =~= keys);
        },
    }
    proof {
        if a.example_attributes is None {
            assert(add_distinct(base_req, keys) == base_req);
            assert(base_req.skip(base_req.len() as int) =~= Seq::<Seq<char>>::empty());
            assert(properties@.map_values(|p| property_view(p)) =~= base_props + add_distinct(base_req, keys).skip(
                base_req.len() as int,
            ).map_values(|x: Seq<char>| key_property(x)));
        }
    }
    let parameters = OpenAiToolFunctionParameters {
        the_type: String::from_str("object"),
        required,
        properties,
    };
    let r = ToolFunction { name: a.name.clone(), description: a.description.clone(), parameters };
    proof {
        let s = action_schema(*a);
        let payload_req: Seq<Seq<char>> = match a.example_payload {
            Some(_) => seq!["payload"@],
            None => Seq::empty(),
        };
        assert(base_req =~= payload_req);
        lemma_add_distinct_no_repeats(payload_req, example_keys(*a));
        assert(tool_view(r).required =~= s.required);
        assert(tool_view(r).properties =~= s.properties);
    }
    r
}

/// Builds the tool listing of a state in one read of it: one function
/// definition per action of every enabled namespace, in registry order, or
/// none when native tool calling is off.
pub fn synthesize_tools(registry: &Registry, activated: &Vec<String>, native_tools: bool) -> (r: Vec<ToolFunction>)
    ensures
        tools_view(r@) == tool_listing(registry.namespaces@, activated@, native_tools),
{
    let mut tools: Vec<ToolFunction> = Vec::new();
    if !native_tools {
        assert(tools_view(tools@) =~= Seq::<ToolView>::empty());
        return tools;
    }
    let ns = &registry.namespaces;
    let mut i: usize = 0;
    while i < ns.len()
        invariant
            i <= ns.len(),
            ns == &registry.namespaces,
            tools_view(tools@) == registry_schemas(ns@.take(i as int), activated@),
        decreases ns.len() - i,
    {
        let ghost before = tools_view(tools@);
        assert(ns@.take(i + 1).drop_last() =~= ns@.take(i as int));
        assert(ns@.take(i + 1).last() == ns@[i as int]);
        if namespace_enabled(&ns[i], activated) {
            let actions = &ns[i].actions;
            let mut j: usize = 0;
            while j < actions.len()
                invariant
                    j <= actions.len(),
                    i < ns.len(),
                    actions@ == ns@[i as int].actions@,
                    tools_view(tools@) == before + actions@.take(j as int).map_values(|a: Action| action_schema(a)),
                decreases actions.len() - j,
            {
                let ghost old_tools = tools@;
                let t = action_tool(&actions[j]);
                tools.push(t);
                assert(tools_view(tools@) =~= tools_view(old_tools).push(tool_view(t)));
                assert(actions@.take(j + 1).map_values(|a: Action| action_schema(a))
                    =~= actions@.take(j as int).map_values(|a: Action| action_schema(a)).push(action_schema(actions@[j as int])));
                j = j + 1;
            }
            assert(actions@.take(actions.len() as int) =~= actions@);
        } else {
            assert(before + Seq::<ToolView>::empty() =~= before);
        }
        i = i + 1;
    }
    assert(ns@.take(ns.len() as int) =~= ns@);
    tools
}

/// Synthesis is deterministic: two listings built from the same registry,
/// activation and native-tool flag are identical, in the same order.
pub proof fn lemma_synthesis_deterministic(
    registry: &Registry,
    activated: Seq<String>,
    native_tools: bool,
    first: Seq<ToolFunction>,
    second: Seq<ToolFunction>,
)
    requires
        tools_view(first) == tool_listing(registry.namespaces@, activated, native_tools),
        tools_view(second) == tool_listing(registry.namespaces@, activated, native_tools),
    ensures
        first.len() == second.len(),
        forall|i: int| 0 <= i < first.len() ==> tool_view(#[trigger] first[i]) == tool_view(second[i]),
{
    let a = tools_view(first);
    let b = tools_view(second);
    assert(a.len() == first.len());
    assert(b.len() == second.len());
    assert forall|i: int| 0 <= i < first.len() implies tool_view(#[trigger] first[i]) == tool_view(second[i]) by {
        assert(a[i] == tool_view(first[i]));
        assert(b[i] == tool_view(second[i]));
    }
}

/// A parameter of a Groq tool function; the same shape as the OpenAI one.
#[derive(Debug, Clone)]
pub struct GroqFunctionParameterProperty {
    pub the_type: String,
    pub description: String,
}

/// The parameter object of a Groq tool function.
#[derive(Debug, Clone)]
pub struct GroqFunctionParameters {
    pub the_type: String,
    pub required: Vec<String>,
    pub properties: Vec<(String, GroqFunctionParameterProperty)>,
}

pub open spec fn groq_property_view(p: (String, GroqFunctionParameterProperty)) -> (Seq<char>, Seq<char>, Seq<char>) {
    (p.0@, p.1.the_type@, p.1.description@)
}

impl GroqFunctionParameters {
    /// The same parameter object, field for field, in Groq's types.
    pub fn from_openai(p: OpenAiToolFunctionParameters) -> (r: GroqFunctionParameters)
        ensures
            r.the_type == p.the_type,
            r.required == p.required,
            r.properties@.map_values(|q| groq_property_view(q)) == p.properties@.map_values(|q| property_view(q)),
    {
        let mut properties: Vec<(String, GroqFunctionParameterProperty)> = Vec::new();
        let mut i: usize = 0;
        while i < p.properties.len()
            invariant
                i <= p.properties.len(),
                properties@.map_values(|q| groq_property_view(q)) == p.properties@.take(i as int).map_values(|q| property_view(q)),
            decreases p.properties.len() - i,
        {
            let ghost before = properties@;
            let (name, prop) = (&p.properties[i].0, &p.properties[i].1);
            properties.push((
                name.clone(),
                GroqFunctionParameterProperty { the_type: prop.the_type.clone(), description: prop.description.clone() },
            ));
            assert(properties@.map_values(|q| groq_property_view(q)) =~= before.map_values(|q| groq_property_view(q)).push(
                property_view(p.properties@[i as int]),
            ));
            assert(p.properties@.take(i + 1).map_values(|q| property_view(q)) =~= p.properties@.take(i as int).map_values(|q| property_view(q)).push(
                property_view(p.properties@[i as int]),
            ));
            i = i + 1;
        }
        assert(p.properties@.take(p.properties.len() as int) =~= p.properties@);
        GroqFunctionParameters { the_type: p.the_type, required: p.required, properties }
    }
}

/// Whether `name` is the name of an action of an enabled namespace among the
/// first `k` of the registry.
pub open spec fn enabled_action_named(ns: Seq<Namespace>, activated: Seq<String>, k: int, name: Seq<char>) -> bool {
    exists|a: int, b: int|
        valid_slot(ns, a, b) && a < k && is_enabled(ns[a], activated) && #[trigger] action_name(ns, a, b) == name
}

/// Every listed schema is named after an action of an enabled namespace
/// among the first `k` of the registry.
proof fn lemma_listed_names(ns: Seq<Namespace>, activated: Seq<String>, k: int)
    requires
        0 <= k <= ns.len(),
    ensures
        forall|t: int| 0 <= t < registry_schemas(ns.take(k), activated).len() ==> enabled_action_named(
            ns,
            activated,
            k,
            (#[trigger] registry_schemas(ns.take(k), activated)[t]).name,
        ),
    decreases k,
{
    if k > 0 {
        lemma_listed_names(ns, activated, k - 1);
        let pre = ns.take(k);
        assert(pre.drop_last() =~= ns.take(k - 1));
        assert(pre.last() == ns[k - 1]);
        let front = registry_schemas(ns.take(k - 1), activated);
        let all = registry_schemas(pre, activated);
        let tail = if is_enabled(ns[k - 1], activated) {
            ns[k - 1].actions@.map_values(|a: Action| action_schema(a))
        } else {
            Seq::empty()
        };
        assert(all == front + tail);
        assert forall|t: int| 0 <= t < all.len() implies enabled_action_named(ns, activated, k, (#[trigger] all[t]).name) by {
            if t < front.len() {
                assert(all[t] == front[t]);
                assert(enabled_action_named(ns, activated, k - 1, front[t].name));
                let (a, b) = choose|a: int, b: int|
                    valid_slot(ns, a, b) && a < k - 1 && is_enabled(ns[a], activated)
                        && #[trigger] action_name(ns, a, b) == front[t].name;
                assert(valid_slot(ns, a, b) && a < k && is_enabled(ns[a], activated)
                    && action_name(ns, a, b) == all[t].name);
            } else {
                let b = t - front.len();
                assert(tail.len() > 0);
                assert(is_enabled(ns[k - 1], activated));
                assert(all[t] == tail[b]);
                assert(all[t] == action_schema(ns[k - 1].actions@[b]));
                assert(valid_slot(ns, k - 1, b) && k - 1 < k && is_enabled(ns[k - 1], activated)
                    && action_name(ns, k - 1, b) == all[t].name);
            }
        }
    } else {
        assert(ns.take(0) =~= Seq::<Namespace>::empty());
        assert(registry_schemas(ns.take(0), activated).len() == 0);
    }
}

/// The tool listing never names an action of a namespace that is not a
/// default one and was never activated.
pub proof fn lemma_opt_in_actions_unlisted(
    registry: &Registry,
    activated: Seq<String>,
    native_tools: bool,
    i: int,
    j: int,
)
    requires
        registry.wf(),
        valid_slot(registry.namespaces@, i, j),
        !registry.namespaces@[i].default,
        forall|k: int| 0 <= k < activated.len() ==> (#[trigger] activated[k])@ != registry.namespaces@[i].name@,
    ensures
        forall|t: int| 0 <= t < tool_listing(registry.namespaces@, activated, native_tools).len()
            ==> (#[trigger] tool_listing(registry.namespaces@, activated, native_tools)[t]).name
                != action_name(registry.namespaces@, i, j),
{
    let ns = registry.namespaces@;
    if native_tools {
        lemma_listed_names(ns, activated, ns.len() as int);
        assert(ns.take(ns.len() as int) =~= ns);
        assert forall|t: int| 0 <= t < tool_listing(ns, activated, native_tools).len()
            implies (#[trigger] tool_listing(ns, activated, native_tools)[t]).name != action_name(ns, i, j) by {
            let all = registry_schemas(ns.take(ns.len() as int), activated);
            assert(all[t] == tool_listing(ns, activated, native_tools)[t]);
            assert(enabled_action_named(ns, activated, ns.len() as int, all[t].name));
            let (a, b) = choose|a: int, b: int|
                valid_slot(ns, a, b) && a < ns.len() && is_enabled(ns[a], activated)
                    && #[trigger] action_name(ns, a, b) == all[t].name;
            assert(a != i);
        }
    }
}

} // verus!
