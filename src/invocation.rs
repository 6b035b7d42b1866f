//! Invocations and the single decoding path from a provider tool call to one.
use vstd::prelude::*;
use vstd::string::*;
use crate::text::{strip_one_quote, strip_quotes};
use crate::error::GeneratorError;

verus! {

/// A requested action call: the action's name, its attributes as key/value
/// pairs (a later pair overrides an earlier one with the same key) and an
/// optional payload.
#[derive(Clone, Debug, PartialEq)]
pub struct Invocation {
    pub action: String,
    pub attributes: Option<Vec<(String, String)>>,
    pub payload: Option<String>,
}

/// The key/value mapping that a list of pairs describes; a later pair
/// overrides an earlier one with the same key.
pub open spec fn pairs_map(s: Seq<(String, String)>) -> Map<Seq<char>, Seq<char>>
    decreases s.len(),
{
    if s.len() == 0 {
        Map::empty()
    } else {
        pairs_map(s.drop_last()).insert(s.last().0@, s.last().1@)
    }
}

pub open spec fn opt_pairs_map(o: Option<Vec<(String, String)>>) -> Option<Map<Seq<char>, Seq<char>>> {
    match o {
        Some(v) => Some(pairs_map(v@)),
        None => None,
    }
}

pub open spec fn opt_view(o: Option<String>) -> Option<Seq<char>> {
    match o {
        Some(s) => Some(s@),
        None => None,
    }
}

pub struct InvocationView {
    pub action: Seq<char>,
    pub attributes: Option<Map<Seq<char>, Seq<char>>>,
    pub payload: Option<Seq<char>>,
}

impl View for Invocation {
    type V = InvocationView;

    open spec fn view(&self) -> InvocationView {
        InvocationView {
            action: self.action@,
            attributes: opt_pairs_map(self.attributes),
            payload: opt_view(self.payload),
        }
    }
}

impl Invocation {
    pub fn new(action: String, attributes: Option<Vec<(String, String)>>, payload: Option<String>) -> (r: Invocation)
        ensures
            r.action == action,
            r.attributes == attributes,
            r.payload == payload,
    {
        Invocation { action, attributes, payload }
    }
}

/// The argument name that carries an invocation's payload.
pub open spec fn payload_key() -> Seq<char> {
    "payload"@
}

/// The attributes decoded from a tool call's arguments: every key but the
/// payload key, each value stripped of one leading and one trailing quote.
pub open spec fn decoded_attributes(m: Map<Seq<char>, Seq<char>>) -> Map<Seq<char>, Seq<char>> {
    Map::new(|k: Seq<char>| m.contains_key(k) && k != payload_key(), |k: Seq<char>| strip_quotes(m[k]))
}

/// Whether the arguments hold no key other than the payload key.
pub open spec fn only_payload(m: Map<Seq<char>, Seq<char>>) -> bool {
    forall|k: Seq<char>| m.contains_key(k) ==> k == payload_key()
}

/// The invocation that a tool call of `action` with the argument mapping `m`
/// decodes to.
pub open spec fn decoded(action: Seq<char>, m: Map<Seq<char>, Seq<char>>) -> InvocationView {
    InvocationView {
        action,
        attributes: if only_payload(m) { None } else { Some(decoded_attributes(m)) },
        payload: if m.contains_key(payload_key()) {
            Some(strip_quotes(m[payload_key()]))
        } else {
            None
        },
    }
}

proof fn lemma_last_key_present(s: Seq<(String, String)>)
    requires
        s.len() > 0,
    ensures
        pairs_map(s).contains_key(s.last().0@),
{
}

/// Whether `d` has the attribute `k` with the value `v`.
pub open spec fn has_attribute(d: InvocationView, k: Seq<char>, v: Seq<char>) -> bool {
    d.attributes matches Some(a) && a.contains_key(k) && a[k] == v
}

/// The split that decoding makes, for every argument mapping: the "payload"
/// key, and only it, gives the payload; every other key gives an attribute of
/// the same name; each value loses one leading and one trailing quote where
/// present; and the same mapping always decodes to the same invocation.
pub proof fn lemma_decoding_split(action: Seq<char>, m: Map<Seq<char>, Seq<char>>, m2: Map<Seq<char>, Seq<char>>)
    requires
        m2 == m,
    ensures
        decoded(action, m).action == action,
        decoded(action, m).payload is Some <==> m.contains_key(payload_key()),
        m.contains_key(payload_key()) ==> decoded(action, m).payload == Some(strip_quotes(m[payload_key()])),
        forall|k: Seq<char>| #[trigger] m.contains_key(k) && k != payload_key() ==> has_attribute(
            decoded(action, m),
            k,
            strip_quotes(m[k]),
        ),
        decoded(action, m).attributes matches Some(a) ==> !a.contains_key(payload_key())
            && forall|k: Seq<char>| #[trigger] a.contains_key(k) ==> m.contains_key(k),
        decoded(action, m) == decoded(action, m2),
{
    assert forall|k: Seq<char>| #[trigger] m.contains_key(k) && k != payload_key() implies has_attribute(
        decoded(action, m),
        k,
        strip_quotes(m[k]),
    ) by {
        assert(!only_payload(m));
    }
}

/// Builds the invocation of `action` from its already stringified arguments.
pub fn invocation_from_arguments(action: &str, args: &Vec<(String, String)>) -> (r: Invocation)
    ensures
        r@ == decoded(action@, pairs_map(args@)),
{
    let key = String::from_str("payload");
    let mut attrs: Vec<(String, String)> = Vec::new();
    let mut payload: Option<String> = None;
    let mut i: usize = 0;
    while i < args.len()
        invariant
            i <= args.len(),
            key@ == payload_key(),
            pairs_map(attrs@) == decoded_attributes(pairs_map(args@.take(i as int))),
            opt_view(payload) == decoded(action@, pairs_map(args@.take(i as int))).payload,
            attrs.len() == 0 <==> only_payload(pairs_map(args@.take(i as int))),
        decreases args.len() - i,
    {
        let ghost before = pairs_map(args@.take(i as int));
        let name = &args[i].0;
        let value = strip_one_quote(args[i].1.as_str());
        assert(args@.take(i + 1).drop_last() =~= args@.take(i as int));
        let ghost after = pairs_map(args@.take(i + 1));
        assert(after == before.insert(args@[i as int].0@, args@[i as int].1@));
        if *name == key {
            payload = Some(value);
            assert(only_payload(after) == only_payload(before)) by {
                if only_payload(before) {
                    assert forall|k: Seq<char>| after.contains_key(k) implies k == payload_key() by {
                        if k != name@ {
                            assert(before.contains_key(k));
                        }
                    }
                }
                if only_payload(after) {
                    assert forall|k: Seq<char>| before.contains_key(k) implies k == payload_key() by {
                        assert(after.contains_key(k));
                    }
                }
            }
            assert(decoded_attributes(after) =~= decoded_attributes(before));
        } else {
            let ghost old_attrs = attrs@;
            let ghost value_view = value@;
            attrs.push((name.clone(), value));
            assert(attrs@.drop_last() =~= old_attrs);
            assert(pairs_map(attrs@) == pairs_map(old_attrs).insert(name@, value_view));
            assert(decoded_attributes(after) =~= decoded_attributes(before).insert(name@, strip_quotes(args@[i as int].1@)));
            proof { lemma_last_key_present(attrs@); }
            assert(after.contains_key(name@));
            assert(!only_payload(after));
        }
        i = i + 1;
    }
    assert(args@.take(args.len() as int) =~= args@);
    let attributes = if attrs.len() == 0 {
        None
    } else {
        Some(attrs)
    };
    Invocation { action: String::from_str(action), attributes, payload }
}

} // verus!

verus! {

#[verifier::external_type_specification]
#[verifier::external_body]
pub struct ExJsonError(serde_json::Error);

/// What `serde_json` reads from a tool call's argument text: `None` where the
/// text is not a JSON object, else each key mapped to its value's text (the
/// content of a string value, the compact JSON text of any other value).
pub uninterp spec fn json_arguments_of(s: Seq<char>) -> Option<Map<Seq<char>, Seq<char>>>;

/// Relies on `serde_json::from_str` into a map of `serde_json::Value`, and on
/// `Value`'s `Display` (compact JSON text) for values that are not strings.
/// The pairs come in the map's own order; their keys are distinct.
#[verifier::external_body]
fn parse_arguments(s: &str) -> (r: Result<Vec<(String, String)>, serde_json::Error>)
    ensures
        r is Ok <==> json_arguments_of(s@) is Some,
        r matches Ok(v) ==> json_arguments_of(s@) == Some(pairs_map(v@)),
{
    let map: std::collections::HashMap<String, serde_json::Value> = serde_json::from_str(s)?;
    let mut out = Vec::new();
    for (k, v) in map {
        match v {
            serde_json::Value::String(t) => out.push((k, t)),
            other => out.push((k, other.to_string())),
        }
    }
    Ok(out)
}

/// Decodes one provider tool call of `action` with the JSON argument text
/// `arguments` into an invocation: the "payload" argument becomes the
/// payload, every other argument an attribute.
pub fn decode_tool_call(action: &str, arguments: &str) -> (r: Result<Invocation, GeneratorError>)
    ensures
        match json_arguments_of(arguments@) {
            None => r == Err::<Invocation, GeneratorError>(GeneratorError::Unparseable),
            Some(m) => r matches Ok(inv) && inv@ == decoded(action@, m),
        },
{
    match parse_arguments(arguments) {
        Ok(pairs) => Ok(invocation_from_arguments(action, &pairs)),
        Err(_) => Err(GeneratorError::Unparseable),
    }
}

} // verus!
