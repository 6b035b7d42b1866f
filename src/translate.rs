//! Translation of a chat's options and history into the turns that a
//! provider's protocol expects.
use vstd::prelude::*;
use vstd::string::*;
use crate::chat::{ChatOptions, Message};
use crate::invocation::{opt_view, Invocation};
use crate::namespaces::ActionOutput;
use crate::text::{has_prefix, starts_with};

verus! {

/// The role of a turn.
#[derive(Debug, Clone, Copy, PartialEq, Eq, Structural)]
pub enum Role {
    System,
    User,
    Assistant,
    Tool,
}

/// One turn as sent to a provider.
#[derive(Debug, Clone)]
pub struct WireMessage {
    pub role: Role,
    pub content: Option<String>,
    /// The id pairing a tool call with its result, where the protocol has one.
    pub tool_call_id: Option<String>,
    /// An image reference: an http(s) URL or a `data:` URI.
    pub image_url: Option<String>,
}

pub struct WireView {
    pub role: Role,
    pub content: Option<Seq<char>>,
    pub tool_call_id: Option<Seq<char>>,
    pub image_url: Option<Seq<char>>,
}

pub open spec fn wire_view(m: WireMessage) -> WireView {
    WireView {
        role: m.role,
        content: opt_view(m.content),
        tool_call_id: opt_view(m.tool_call_id),
        image_url: opt_view(m.image_url),
    }
}

pub open spec fn wire_views(v: Seq<WireMessage>) -> Seq<WireView> {
    v.map_values(|m: WireMessage| wire_view(m))
}

/// Whether `c` has the Unicode White_Space property.
pub open spec fn is_white_space(c: char) -> bool {
    ('\u{9}' <= c && c <= '\u{d}') || c == ' ' || c == '\u{85}' || c == '\u{a0}' || c == '\u{1680}'
        || ('\u{2000}' <= c && c <= '\u{200a}') || c == '\u{2028}' || c == '\u{2029}' || c == '\u{202f}'
        || c == '\u{205f}' || c == '\u{3000}'
}

/// `s` without its leading white space.
pub open spec fn trim_start_of(s: Seq<char>) -> Seq<char>
    decreases s.len(),
{
    if s.len() > 0 && is_white_space(s[0]) {
        trim_start_of(s.subrange(1, s.len() as int))
    } else {
        s
    }
}

/// `s` without its trailing white space.
pub open spec fn trim_end_of(s: Seq<char>) -> Seq<char>
    decreases s.len(),
{
    if s.len() > 0 && is_white_space(s.last()) {
        trim_end_of(s.drop_last())
    } else {
        s
    }
}

/// `s` without leading and trailing white space.
pub open spec fn trim_of(s: Seq<char>) -> Seq<char> {
    trim_end_of(trim_start_of(s))
}

/// Relies on `str::trim`: removes the leading and trailing characters that
/// have the Unicode White_Space property.
#[verifier::external_body]
fn trimmed(s: &str) -> (r: String)
    ensures
        r@ == trim_of(s@),
{
    s.trim().to_string()
}

pub open spec fn view_turn(role: Role, content: Option<Seq<char>>, id: Option<Seq<char>>, image: Option<Seq<char>>) -> WireView {
    WireView { role, content, tool_call_id: id, image_url: image }
}

/// The seed turns: the trimmed system prompt (if any), then the trimmed prompt.
pub open spec fn seed_turns(o: ChatOptions) -> Seq<WireView> {
    let user = view_turn(Role::User, Some(trim_of(o.prompt@)), None, None);
    match o.system_prompt {
        Some(sp) => seq![view_turn(Role::System, Some(trim_of(sp@)), None, None), user],
        None => seq![user],
    }
}

fn seed_messages(o: &ChatOptions) -> (r: Vec<WireMessage>)
    ensures
        wire_views(r@) == seed_turns(*o),
{
    let user = WireMessage { role: Role::User, content: Some(trimmed(o.prompt.as_str())), tool_call_id: None, image_url: None };
    let mut out: Vec<WireMessage> = Vec::new();
    match &o.system_prompt {
        Some(sp) => {
            out.push(WireMessage { role: Role::System, content: Some(trimmed(sp.as_str())), tool_call_id: None, image_url: None });
        },
        None => {},
    }
    out.push(user);
    assert(wire_views(out@) =~= seed_turns(*o));
    out
}

/// The OpenAI-protocol turn of a history message: the model's trimmed text
/// as an assistant turn; an action's trimmed output text as a user turn,
/// `<no output>` where that text is empty; an image as a user turn that
/// carries the image reference.
pub open spec fn openai_turn(m: Message) -> WireView {
    match m {
        Message::Agent(data, _) => view_turn(Role::Assistant, Some(trim_of(data@)), None, None),
        Message::Feedback(ActionOutput::Text(t), _) => {
            let c = trim_of(t@);
            view_turn(Role::User, Some(if c.len() == 0 { "<no output>"@ } else { c }), None, None)
        },
        Message::Feedback(ActionOutput::Image { data, mime_type }, _) => view_turn(
            Role::User,
            None,
            None,
            Some(image_url_of(data@, mime_type@)),
        ),
    }
}

/// The turns of a chat in the OpenAI protocol, history in its own order.
pub open spec fn openai_turns(o: ChatOptions) -> Seq<WireView> {
    seed_turns(o) + o.history@.map_values(|m: Message| openai_turn(m))
}

fn openai_message(m: &Message) -> (r: WireMessage)
    ensures
        wire_view(r) == openai_turn(*m),
{
    match m {
        Message::Agent(data, _) => WireMessage {
            role: Role::Assistant,
            content: Some(trimmed(data.as_str())),
            tool_call_id: None,
            image_url: None,
        },
        Message::Feedback(ActionOutput::Text(t), _) => {
            let mut c = trimmed(t.as_str());
            if c.unicode_len() == 0 {
                c = String::from_str("<no output>");
            }
            WireMessage { role: Role::User, content: Some(c), tool_call_id: None, image_url: None }
        },
        Message::Feedback(ActionOutput::Image { data, mime_type }, _) => WireMessage {
            role: Role::User,
            content: None,
            tool_call_id: None,
            image_url: Some(image_url(data, mime_type)),
        },
    }
}

/// Translates a chat for an OpenAI-compatible provider.
pub fn openai_messages(o: &ChatOptions) -> (r: Vec<WireMessage>)
    ensures
        wire_views(r@) == openai_turns(*o),
{
    let mut out = seed_messages(o);
    let ghost seeds = seed_turns(*o);
    let mut i: usize = 0;
    while i < o.history.len()
        invariant
            i <= o.history.len(),
            wire_views(out@) == seeds + o.history@.take(i as int).map_values(|m: Message| openai_turn(m)),
            seeds == seed_turns(*o),
        decreases o.history.len() - i,
    {
        let ghost before = out@;
        let w = openai_message(&o.history[i]);
        out.push(w);
        assert(wire_views(out@) =~= wire_views(before).push(wire_view(w)));
        assert(o.history@.take(i + 1).map_values(|m: Message| openai_turn(m))
            =~= o.history@.take(i as int).map_values(|m: Message| openai_turn(m)).push(openai_turn(o.history@[i as int])));
        i = i + 1;
    }
    assert(o.history@.take(o.history.len() as int) =~= o.history@);
    out
}

/// The decimal digits of `n`.
pub open spec fn decimal_of(n: nat) -> Seq<char>
    decreases n,
{
    if n < 10 {
        seq!["0123456789"@[n as int]]
    } else {
        decimal_of(n / 10) + seq!["0123456789"@[(n % 10) as int]]
    }
}

/// Writes `n` in decimal.
pub fn decimal(n: u64) -> (r: String)
    ensures
        r@ == decimal_of(n as nat),
    decreases n,
{
    let digits = "0123456789";
    proof {
        reveal_strlit("0123456789");
    }
    let d = (n % 10) as usize;
    let last = digits.substring_char(d, d + 1);
    assert(last@ =~= seq!["0123456789"@[d as int]]);
    if n < 10 {
        String::from_str(last)
    } else {
        let mut s = decimal(n / 10);
        s.append(last);
        s
    }
}

/// The id that pairs a call of `action` with its result: `<action>-<n>`.
pub open spec fn call_id(action: Seq<char>, n: nat) -> Seq<char> {
    action + "-"@ + decimal_of(n)
}

fn make_call_id(action: &String, n: u64) -> (r: String)
    ensures
        r@ == call_id(action@, n as nat),
{
    let mut s = action.clone();
    s.append("-");
    let d = decimal(n);
    s.append(d.as_str());
    s
}

/// The reference to an image: the data itself where it is an http(s) URL,
/// else the data URI `data:<mime type>;base64,<data>`.
pub open spec fn image_url_of(data: Seq<char>, mime_type: Seq<char>) -> Seq<char> {
    if has_prefix(data, "http://"@) || has_prefix(data, "https://"@) {
        data
    } else {
        "data:"@ + mime_type + ";base64,"@ + data
    }
}

pub fn image_url(data: &String, mime_type: &String) -> (r: String)
    ensures
        r@ == image_url_of(data@, mime_type@),
{
    if starts_with(data.as_str(), "http://") || starts_with(data.as_str(), "https://") {
        data.clone()
    } else {
        let mut s = String::from_str("data:");
        s.append(mime_type.as_str());
        s.append(";base64,");
        s.append(data.as_str());
        s
    }
}

/// The number of model turns in `h` that carry an invocation.
pub open spec fn calls_before(h: Seq<Message>) -> nat
    decreases h.len(),
{
    if h.len() == 0 {
        0
    } else {
        calls_before(h.drop_last()) + if h.last() matches Message::Agent(_, Some(_)) { 1nat } else { 0nat }
    }
}

pub open spec fn opt_call_id(inv: Option<Invocation>, n: nat) -> Option<Seq<char>> {
    match inv {
        Some(i) => Some(call_id(i.action@, n)),
        None => None,
    }
}

/// The number of the call that a result answers, `n` model turns with an
/// invocation standing before it: the nearest of them, `n - 1` (0 where there
/// is none).
pub open spec fn answered_call(n: nat) -> nat {
    if n > 0 { (n - 1) as nat } else { 0 }
}

/// The Groq-protocol turn of a history message, `n` being the number of
/// earlier model turns that carried an invocation: the model's trimmed text
/// with call id `<action>-<n>` for its invocation; an action's text as a tool
/// turn where it answers an invocation, else as a user turn; an image always
/// as a user turn that carries the image reference. A result carries the id
/// of the call it answers, the nearest earlier one.
pub open spec fn groq_turn(m: Message, n: nat) -> WireView {
    match m {
        Message::Agent(data, inv) => view_turn(Role::Assistant, Some(trim_of(data@)), opt_call_id(inv, n), None),
        Message::Feedback(ActionOutput::Text(t), Some(inv)) => view_turn(
            Role::Tool,
            Some(t@),
            Some(call_id(inv.action@, answered_call(n))),
            None,
        ),
        Message::Feedback(ActionOutput::Text(t), None) => view_turn(Role::User, Some(t@), None, None),
        Message::Feedback(ActionOutput::Image { data, mime_type }, inv) => view_turn(
            Role::User,
            None,
            opt_call_id(inv, answered_call(n)),
            Some(image_url_of(data@, mime_type@)),
        ),
    }
}

fn groq_message(m: &Message, n: u64) -> (r: WireMessage)
    ensures
        wire_view(r) == groq_turn(*m, n as nat),
{
    match m {
        Message::Agent(data, inv) => {
            let id = match inv {
                Some(i) => Some(make_call_id(&i.action, n)),
                None => None,
            };
            WireMessage { role: Role::Assistant, content: Some(trimmed(data.as_str())), tool_call_id: id, image_url: None }
        },
        Message::Feedback(ActionOutput::Text(t), Some(inv)) => WireMessage {
            role: Role::Tool,
            content: Some(t.clone()),
            tool_call_id: Some(make_call_id(&inv.action, if n > 0 { n - 1 } else { 0 })),
            image_url: None,
        },
        Message::Feedback(ActionOutput::Text(t), None) => WireMessage {
            role: Role::User,
            content: Some(t.clone()),
            tool_call_id: None,
            image_url: None,
        },
        Message::Feedback(ActionOutput::Image { data, mime_type }, inv) => {
            let id = match inv {
                Some(i) => Some(make_call_id(&i.action, if n > 0 { n - 1 } else { 0 })),
                None => None,
            };
            WireMessage { role: Role::User, content: None, tool_call_id: id, image_url: Some(image_url(data, mime_type)) }
        },
    }
}

/// The turns of a chat in the Groq protocol, history in its own order.
pub open spec fn groq_turns_ok(o: ChatOptions, v: Seq<WireView>) -> bool {
    let seeds = seed_turns(o);
    &&& v.len() == seeds.len() + o.history@.len()
    &&& v.take(seeds.len() as int) == seeds
    &&& forall|i: int| 0 <= i < o.history@.len() ==> #[trigger] v[seeds.len() + i] == groq_turn(
        o.history@[i],
        calls_before(o.history@.take(i)),
    )
}

/// Translates a chat for Groq.
pub fn groq_messages(o: &ChatOptions) -> (r: Vec<WireMessage>)
    requires
        o.history.len() < u64::MAX,
    ensures
        groq_turns_ok(*o, wire_views(r@)),
{
    let mut out = seed_messages(o);
    let ghost seeds = seed_turns(*o);
    let mut n: u64 = 0;
    let mut i: usize = 0;
    while i < o.history.len()
        invariant
            i <= o.history.len(),
            o.history.len() < u64::MAX,
            seeds == seed_turns(*o),
            n as nat == calls_before(o.history@.take(i as int)),
            n <= i,
            out@.len() == seeds.len() + i,
            wire_views(out@).take(seeds.len() as int) == seeds,
            forall|k: int| 0 <= k < i ==> #[trigger] wire_views(out@)[seeds.len() + k] == groq_turn(
                o.history@[k],
                calls_before(o.history@.take(k)),
            ),
        decreases o.history.len() - i,
    {
        let ghost before = out@;
        let m = &o.history[i];
        let w = groq_message(m, n);
        out.push(w);
        assert(wire_views(out@) =~= wire_views(before).push(wire_view(w)));
        assert(wire_views(out@).take(seeds.len() as int) =~= wire_views(before).take(seeds.len() as int));
        assert(o.history@.take(i + 1).drop_last() =~= o.history@.take(i as int));
        if let Message::Agent(_, Some(_)) = m {
            n = n + 1;
        }
        i = i + 1;
    }
    out
}

} // verus!
