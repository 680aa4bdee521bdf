//! Scripted responses: a JSON array of turns, each an array whose strings are
//! prose fragments and whose objects `{tool_use_id, name, args}` are tool uses.
use vstd::prelude::*;
use crate::command::word_is;
use crate::parser::{StreamEvent, split_events_ok, split_tool_use_event};

verus! {

/// One element of a scripted turn.
pub enum ScriptElement {
    /// A fragment of prose.
    Text(String),
    /// A whole tool use; `args` is its arguments as JSON text.
    ToolUse { tool_use_id: String, name: String, args: String },
}

/// How many stream events stand for `e`.
pub open spec fn event_count(e: ScriptElement) -> nat {
    match e {
        ScriptElement::Text(_) => 1,
        ScriptElement::ToolUse { .. } => 4,
    }
}

/// Where the events of element `k` of `es` start.
pub open spec fn event_start(es: Seq<ScriptElement>, k: int) -> nat
    decreases k,
{
    if k <= 0 {
        0
    } else {
        event_start(es, k - 1) + event_count(es[k - 1])
    }
}

/// `evs` are the stream events that stand for `e`: one prose fragment for a
/// text, the four fragments of a split tool use for a tool use.
#[verifier::opaque]
pub open spec fn stands_for(e: ScriptElement, evs: Seq<StreamEvent>) -> bool {
    match e {
        ScriptElement::Text(t) => evs.len() == 1 && (evs[0] matches StreamEvent::AssistantResponse { content }
            && content@ == t@),
        ScriptElement::ToolUse { tool_use_id, name, args } => split_events_ok(evs, tool_use_id@, name@, args@),
    }
}

/// `evs` are the events of the elements `es`, element by element and in order.
pub open spec fn expands(es: Seq<ScriptElement>, evs: Seq<StreamEvent>) -> bool {
    &&& evs.len() == event_start(es, es.len() as int)
    &&& forall|k: int| 0 <= k < es.len() ==> stands_for(
        #[trigger] es[k],
        evs.subrange(event_start(es, k) as int, event_start(es, k + 1) as int),
    )
}

/// The stream events of one scripted turn, element by element and in order.
pub fn script_events(elements: &Vec<ScriptElement>) -> (r: Vec<StreamEvent>)
    ensures
        expands(elements@, r@),
{
    let mut out: Vec<StreamEvent> = Vec::new();
    let mut i: usize = 0;
    while i < elements.len()
        invariant
            i <= elements@.len(),
            out@.len() == event_start(elements@, i as int),
            forall|k: int| 0 <= k < i ==> stands_for(
                #[trigger] elements@[k],
                out@.subrange(event_start(elements@, k) as int, event_start(elements@, k + 1) as int),
            ),
        decreases elements@.len() - i,
    {
        let ghost before = out@;
        let ghost s = event_start(elements@, i as int) as int;
        let ghost e = event_start(elements@, i + 1) as int;
        match &elements[i] {
            ScriptElement::Text(t) => {
                out.push(StreamEvent::AssistantResponse { content: t.clone() });
                proof {
                    reveal(stands_for);
                    assert(out@.subrange(s, e) =~= seq![out@[s]]);
                }
            },
            ScriptElement::ToolUse { tool_use_id, name, args } => {
                let mut evs = split_tool_use_event(tool_use_id, name, args.as_str());
                let ghost pieces = evs@;
                out.append(&mut evs);
                proof {
                    reveal(stands_for);
                    assert(out@.subrange(s, e) =~= pieces);
                }
            },
        }
        proof {
            assert(out@.subrange(0, s) =~= before);
            lemma_extend(elements@, before, out@, i as int);
        }
        i = i + 1;
    }
    out
}

proof fn lemma_extend(es: Seq<ScriptElement>, before: Seq<StreamEvent>, after: Seq<StreamEvent>, i: int)
    requires
        0 <= i < es.len(),
        before.len() == event_start(es, i),
        after.len() == event_start(es, i + 1),
        after.subrange(0, before.len() as int) == before,
        stands_for(es[i], after.subrange(event_start(es, i) as int, event_start(es, i + 1) as int)),
        forall|k: int| 0 <= k < i ==> stands_for(
            #[trigger] es[k],
            before.subrange(event_start(es, k) as int, event_start(es, k + 1) as int),
        ),
    ensures
        forall|k: int| 0 <= k < i + 1 ==> stands_for(
            #[trigger] es[k],
            after.subrange(event_start(es, k) as int, event_start(es, k + 1) as int),
        ),
{
    assert forall|k: int| 0 <= k < i + 1 implies stands_for(
        #[trigger] es[k],
        after.subrange(event_start(es, k) as int, event_start(es, k + 1) as int),
    ) by {
        if k < i {
            lemma_start_monotonic(es, k + 1, i);
            lemma_start_monotonic(es, k, k + 1);
            assert(after.subrange(event_start(es, k) as int, event_start(es, k + 1) as int)
                =~= before.subrange(event_start(es, k) as int, event_start(es, k + 1) as int));
        }
    }
}

proof fn lemma_start_monotonic(es: Seq<ScriptElement>, a: int, b: int)
    requires
        0 <= a <= b,
    ensures
        event_start(es, a) <= event_start(es, b),
    decreases b - a,
{
    if a < b {
        lemma_start_monotonic(es, a, b - 1);
    }
}

/// The stream events of each scripted turn, turn by turn.
pub fn turns_events(turns: &Vec<Vec<ScriptElement>>) -> (r: Vec<Vec<StreamEvent>>)
    ensures
        r@.len() == turns@.len(),
        forall|k: int| 0 <= k < turns@.len() ==> expands(#[trigger] turns@[k]@, r@[k]@),
{
    let mut out: Vec<Vec<StreamEvent>> = Vec::new();
    let mut i: usize = 0;
    while i < turns.len()
        invariant
            i <= turns@.len(),
            out@.len() == i,
            forall|k: int| 0 <= k < i ==> expands(#[trigger] turns@[k]@, out@[k]@),
        decreases turns@.len() - i,
    {
        out.push(script_events(&turns[i]));
        i = i + 1;
    }
    out
}

/// A JSON document of a script, as far as reading a script looks into it.
pub enum ScriptJson {
    Str(String),
    Arr(Vec<ScriptJson>),
    Obj(Vec<ScriptMember>),
    /// Any other value.
    Other,
}

/// One member of a JSON object: its key, its value, and the value's JSON text.
pub struct ScriptMember {
    pub key: String,
    pub value: ScriptJson,
    pub text: String,
}

/// The first member of `ms` under `key`.
pub open spec fn member_named(ms: Seq<ScriptMember>, key: Seq<char>) -> Option<ScriptMember>
    decreases ms.len(),
{
    if ms.len() == 0 {
        None
    } else if ms[0].key@ == key {
        Some(ms[0])
    } else {
        member_named(ms.drop_first(), key)
    }
}

/// The id, the name and the argument text of a tool use object: string
/// members `tool_use_id` and `name`, and any member `args`.
pub open spec fn tool_fields(ms: Seq<ScriptMember>) -> Option<(Seq<char>, Seq<char>, Seq<char>)> {
    match (member_named(ms, "tool_use_id"@), member_named(ms, "name"@), member_named(ms, "args"@)) {
        (Some(a), Some(b), Some(c)) => match (a.value, b.value) {
            (ScriptJson::Str(x), ScriptJson::Str(y)) => Some((x@, y@, c.text@)),
            _ => None,
        },
        _ => None,
    }
}

/// `v` is a string or a tool use object.
pub open spec fn element_readable(v: ScriptJson) -> bool {
    match v {
        ScriptJson::Str(_) => true,
        ScriptJson::Obj(ms) => tool_fields(ms@) is Some,
        _ => false,
    }
}

/// `e` is what element `v` of a script says.
pub open spec fn element_matches(e: ScriptElement, v: ScriptJson) -> bool {
    match e {
        ScriptElement::Text(t) => v matches ScriptJson::Str(s) && s@ == t@,
        ScriptElement::ToolUse { tool_use_id, name, args } => v matches ScriptJson::Obj(ms) && tool_fields(ms@)
            == Some((tool_use_id@, name@, args@)),
    }
}

/// The items of an array (none for another value).
pub open spec fn items(v: ScriptJson) -> Seq<ScriptJson> {
    match v {
        ScriptJson::Arr(xs) => xs@,
        _ => seq![],
    }
}

/// `v` is an array of strings and tool use objects.
pub open spec fn turn_readable(v: ScriptJson) -> bool {
    &&& v is Arr
    &&& forall|k: int| 0 <= k < items(v).len() ==> element_readable(#[trigger] items(v)[k])
}

/// `v` is an array of turns that can be read.
pub open spec fn script_readable(v: ScriptJson) -> bool {
    &&& v is Arr
    &&& forall|k: int| 0 <= k < items(v).len() ==> turn_readable(#[trigger] items(v)[k])
}

/// `es` are what the elements of turn `v` say, in order.
pub open spec fn turn_matches(es: Seq<ScriptElement>, v: ScriptJson) -> bool {
    &&& es.len() == items(v).len()
    &&& forall|k: int| 0 <= k < es.len() ==> element_matches(#[trigger] es[k], items(v)[k])
}

/// The member of `ms` under `key`, if any.
fn find_member<'a>(ms: &'a Vec<ScriptMember>, key: &str) -> (r: Option<&'a ScriptMember>)
    ensures
        match member_named(ms@, key@) {
            Some(m) => r matches Some(x) && *x == m,
            None => r is None,
        },
{
    let mut i: usize = 0;
    assert(ms@.subrange(0, ms@.len() as int) =~= ms@);
    while i < ms.len()
        invariant
            i <= ms@.len(),
            member_named(ms@, key@) == member_named(ms@.subrange(i as int, ms@.len() as int), key@),
        decreases ms@.len() - i,
    {
        let ghost rest = ms@.subrange(i as int, ms@.len() as int);
        assert(rest[0] == ms@[i as int]);
        assert(rest.drop_first() =~= ms@.subrange(i + 1, ms@.len() as int));
        if word_is(&ms[i].key, key) {
            return Some(&ms[i]);
        }
        i = i + 1;
    }
    None
}

fn str_of(v: &ScriptJson) -> (r: Option<String>)
    ensures
        match *v {
            ScriptJson::Str(s) => r matches Some(x) && x@ == s@,
            _ => r is None,
        },
{
    match v {
        ScriptJson::Str(s) => Some(s.clone()),
        _ => None,
    }
}

/// Reads one element of a scripted turn.
pub fn read_element(v: &ScriptJson) -> (r: Option<ScriptElement>)
    ensures
        r is Some <==> element_readable(*v),
        r matches Some(e) ==> element_matches(e, *v),
{
    match v {
        ScriptJson::Str(s) => Some(ScriptElement::Text(s.clone())),
        ScriptJson::Obj(ms) => {
            let id = match find_member(ms, "tool_use_id") {
                Some(m) => str_of(&m.value),
                None => None,
            };
            let name = match find_member(ms, "name") {
                Some(m) => str_of(&m.value),
                None => None,
            };
            let args = match find_member(ms, "args") {
                Some(m) => Some(m.text.clone()),
                None => None,
            };
            match (id, name, args) {
                (Some(tool_use_id), Some(name), Some(args)) => Some(ScriptElement::ToolUse { tool_use_id, name, args }),
                _ => None,
            }
        },
        _ => None,
    }
}

/// Reads one scripted turn: an array of strings and tool use objects.
pub fn read_turn(v: &ScriptJson) -> (r: Option<Vec<ScriptElement>>)
    ensures
        r is Some <==> turn_readable(*v),
        r matches Some(es) ==> turn_matches(es@, *v),
{
    let xs = match v {
        ScriptJson::Arr(xs) => xs,
        _ => return None,
    };
    let mut out: Vec<ScriptElement> = Vec::new();
    let mut i: usize = 0;
    while i < xs.len()
        invariant
            items(*v) == xs@,
            i <= xs@.len(),
            out@.len() == i,
            forall|k: int| 0 <= k < i ==> element_readable(#[trigger] xs@[k]),
            forall|k: int| 0 <= k < i ==> element_matches(#[trigger] out@[k], xs@[k]),
        decreases xs@.len() - i,
    {
        match read_element(&xs[i]) {
            Some(e) => out.push(e),
            None => return None,
        }
        i = i + 1;
    }
    Some(out)
}

/// `evs` are the events of `script`, read turn by turn as the elements `es`.
pub open spec fn read_as(es: Seq<Vec<ScriptElement>>, script: ScriptJson, evs: Seq<Vec<StreamEvent>>) -> bool {
    &&& es.len() == items(script).len()
    &&& evs.len() == es.len()
    &&& forall|k: int| 0 <= k < es.len() ==> turn_matches(#[trigger] es[k]@, items(script)[k]) && expands(es[k]@, evs[k]@)
}

/// Reads a script into the elements of each turn, in order.
pub fn script_elements(script: &ScriptJson) -> (r: Option<Vec<Vec<ScriptElement>>>)
    ensures
        r is Some <==> script_readable(*script),
        r matches Some(ts) ==> ts@.len() == items(*script).len() && forall|k: int|
            0 <= k < ts@.len() ==> turn_matches(#[trigger] ts@[k]@, items(*script)[k]),
{
    let turns = match script {
        ScriptJson::Arr(t) => t,
        _ => return None,
    };
    let mut out: Vec<Vec<ScriptElement>> = Vec::new();
    let mut i: usize = 0;
    while i < turns.len()
        invariant
            items(*script) == turns@,
            i <= turns@.len(),
            out@.len() == i,
            forall|k: int| 0 <= k < i ==> turn_readable(#[trigger] turns@[k]),
            forall|k: int| 0 <= k < i ==> turn_matches(#[trigger] out@[k]@, turns@[k]),
        decreases turns@.len() - i,
    {
        match read_turn(&turns[i]) {
            Some(t) => out.push(t),
            None => return None,
        }
        i = i + 1;
    }
    Some(out)
}

/// The stream events of each turn of a script, in order: a string stands for
/// one prose fragment, a tool use object for the four fragments of its split
/// arguments. The script must be readable (see `script_elements`).
pub fn script_turns(script: &ScriptJson) -> (r: Vec<Vec<StreamEvent>>)
    requires
        script_readable(*script),
    ensures
        exists|es: Seq<Vec<ScriptElement>>| #[trigger] read_as(es, *script, r@),
{
    let turns = script_elements(script).unwrap();
    let r = turns_events(&turns);
    assert(read_as(turns@, *script, r@));
    r
}

} // verus!
