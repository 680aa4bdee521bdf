//! The record kept of each tool use for product telemetry.
use vstd::prelude::*;

verus! {

/// What is reported about one suggested tool use.
#[derive(Debug)]
pub struct ToolUseEventBuilder {
    pub conversation_id: String,
    pub utterance_id: Option<String>,
    pub user_input_id: Option<String>,
    pub tool_use_id: Option<String>,
    pub tool_name: Option<String>,
    pub is_accepted: bool,
    pub is_success: Option<bool>,
    pub is_valid: Option<bool>,
}

pub open spec fn opt_view(o: Option<String>) -> Option<Seq<char>> {
    match o {
        Some(s) => Some(s@),
        None => None,
    }
}

impl ToolUseEventBuilder {
    /// A record for tool use `tool_use_id` of conversation `conv_id`, with
    /// nothing else known yet.
    pub fn new(conv_id: String, tool_use_id: String) -> (r: Self)
        ensures
            r.conversation_id@ == conv_id@,
            opt_view(r.tool_use_id) == Some(tool_use_id@),
            r.utterance_id is None,
            r.user_input_id is None,
            r.tool_name is None,
            !r.is_accepted,
            r.is_success is None,
            r.is_valid is None,
    {
        Self {
            conversation_id: conv_id,
            utterance_id: None,
            user_input_id: None,
            tool_use_id: Some(tool_use_id),
            tool_name: None,
            is_accepted: false,
            is_success: None,
            is_valid: None,
        }
    }

    pub fn utterance_id(self, id: Option<String>) -> (r: Self)
        ensures
            r == (Self { utterance_id: id, ..self }),
    {
        Self { utterance_id: id, ..self }
    }

    pub fn set_tool_use_id(self, id: String) -> (r: Self)
        ensures
            r == (Self { tool_use_id: Some(id), ..self }),
    {
        Self { tool_use_id: Some(id), ..self }
    }

    pub fn set_tool_name(self, name: String) -> (r: Self)
        ensures
            r == (Self { tool_name: Some(name), ..self }),
    {
        Self { tool_name: Some(name), ..self }
    }
}

/// The tool use that a telemetry record is about.
pub open spec fn record_id(e: ToolUseEventBuilder) -> Option<Seq<char>> {
    crate::telemetry::opt_view(e.tool_use_id)
}

/// Both records name the same tool use.
pub open spec fn shares_id(a: ToolUseEventBuilder, b: ToolUseEventBuilder) -> bool {
    record_id(a) is Some && record_id(a) == record_id(b)
}

/// No two records name the same tool use.
pub open spec fn ids_unique(evs: Seq<ToolUseEventBuilder>) -> bool {
    forall|a: int, b: int| 0 <= a < b < evs.len() && #[trigger] record_id(evs[a]) is Some ==> record_id(evs[a])
        != #[trigger] record_id(evs[b])
}

/// `e` marked as run, and whether it succeeded.
pub open spec fn marked(e: ToolUseEventBuilder, success: bool) -> ToolUseEventBuilder {
    ToolUseEventBuilder { is_accepted: true, is_success: Some(success), ..e }
}

/// The telemetry records of one session, at most one per tool use.
pub struct ToolTelemetry {
    events: Vec<ToolUseEventBuilder>,
}

impl View for ToolTelemetry {
    type V = Seq<ToolUseEventBuilder>;

    closed spec fn view(&self) -> Seq<ToolUseEventBuilder> {
        self.events@
    }
}

impl ToolTelemetry {
    #[verifier::type_invariant]
    spec fn one_per_tool_use(&self) -> bool {
        ids_unique(self.events@)
    }

    pub fn new() -> (r: Self)
        ensures
            r@.len() == 0,
    {
        ToolTelemetry { events: Vec::new() }
    }

    /// Hands out every record, in order, and forgets them.
    pub fn take(&mut self) -> (r: Vec<ToolUseEventBuilder>)
        ensures
            r@ == old(self)@,
            final(self)@.len() == 0,
    {
        let mut owned = ToolTelemetry::new();
        std::mem::swap(self, &mut owned);
        let ToolTelemetry { events } = owned;
        events
    }

    /// Keeps `event` as the telemetry record of its tool use, in place of an earlier one.
    pub fn record(&mut self, event: ToolUseEventBuilder)
        ensures
            ({
                let t0 = old(self)@;
                let t1 = final(self)@;
                &&& t0.len() <= t1.len() <= t0.len() + 1
                &&& exists|j: int| 0 <= j < t1.len() && #[trigger] t1[j] == event
                &&& forall|j: int| 0 <= j < t0.len() && record_id(t0[j]) != record_id(event) ==> #[trigger] t1[j] == t0[j]
            }),
    {
        let mut owned = ToolTelemetry::new();
        std::mem::swap(self, &mut owned);
        proof {
            use_type_invariant(&owned);
        }
        let ToolTelemetry { mut events } = owned;
        let ghost t0 = events@;
        let mut i: usize = 0;
        while i < events.len()
            invariant
                events@ == t0,
                t0 == old(self)@,
                ids_unique(t0),
                i <= t0.len(),
                forall|m: int| 0 <= m < i ==> !shares_id(#[trigger] t0[m], event),
            decreases events.len() - i,
        {
            let same = match (&events[i].tool_use_id, &event.tool_use_id) {
                (Some(a), Some(b)) => *a == *b,
                _ => false,
            };
            if same {
                events.set(i, event);
                proof {
                    let t1 = events@;
                    assert(t1 =~= t0.update(i as int, event));
                    assert(record_id(t0[i as int]) == record_id(event));
                    assert(t1[i as int] == event);
                    if ids_unique(t0) {
                        assert forall|a: int, b: int| 0 <= a < b < t1.len() && #[trigger] record_id(t1[a]) is Some
                            implies record_id(t1[a]) != #[trigger] record_id(t1[b]) by {
                            assert(record_id(t1[a]) == record_id(t0[a]));
                            assert(record_id(t1[b]) == record_id(t0[b]));
                        }
                    }
                }
                *self = ToolTelemetry { events };
                return;
            }
            i = i + 1;
        }
        events.push(event);
        let ghost t1 = events@;
        proof {
            let t1 = events@;
            assert(t1[t0.len() as int] == event);
            assert forall|j: int| 0 <= j < t0.len() implies #[trigger] t1[j] == t0[j] by {}
            if ids_unique(t0) {
                assert forall|a: int, b: int| 0 <= a < b < t1.len() && #[trigger] record_id(t1[a]) is Some
                    implies record_id(t1[a]) != #[trigger] record_id(t1[b]) by {
                    assert(t1[a] == t0[a]);
                    if b < t0.len() {
                        assert(t1[b] == t0[b]);
                    } else {
                        assert(!shares_id(t0[a], event));
                    }
                }
            }
        }
        *self = ToolTelemetry { events };
    }

    /// Notes in the telemetry record of tool use `id` that it was run, and how it went.
    pub fn mark(&mut self, id: &String, success: bool)
        ensures
            ({
                let t0 = old(self)@;
                let t1 = final(self)@;
                &&& t1.len() == t0.len()
                &&& forall|j: int| 0 <= j < t0.len() ==> record_id(#[trigger] t1[j]) == record_id(t0[j])
                &&& forall|j: int| 0 <= j < t0.len() && record_id(t0[j]) != Some(id@) ==> #[trigger] t1[j] == t0[j]
                &&& forall|j: int| 0 <= j < t0.len() && record_id(t0[j]) == Some(id@) ==> #[trigger] t1[j]
                    == marked(t0[j], success)
            }),
    {
        let mut owned = ToolTelemetry::new();
        std::mem::swap(self, &mut owned);
        proof {
            use_type_invariant(&owned);
        }
        let ToolTelemetry { mut events } = owned;
        let ghost t0 = events@;
        let mut i: usize = 0;
        while i < events.len()
            invariant
                events@ == t0,
                t0 == old(self)@,
                ids_unique(t0),
                i <= t0.len(),
                forall|m: int| 0 <= m < i ==> record_id(#[trigger] t0[m]) != Some(id@),
            decreases events.len() - i,
        {
            let same = match &events[i].tool_use_id {
                Some(a) => *a == *id,
                None => false,
            };
            if same {
                let mut ev = events.remove(i);
                ev.is_accepted = true;
                ev.is_success = Some(success);
                events.insert(i, ev);
                proof {
                    let t1 = events@;
                    assert(t1 =~= t0.update(i as int, marked(t0[i as int], success)));
                    assert(record_id(t0[i as int]) == Some(id@));
                    assert forall|j: int| 0 <= j < t0.len() implies record_id(#[trigger] t1[j]) == record_id(t0[j]) by {}
                    if ids_unique(t0) {
                        assert forall|j: int| 0 <= j < t0.len() && record_id(t0[j]) == Some(id@) implies #[trigger] t1[j]
                            == marked(t0[j], success) by {
                            if j < i {
                            } else if j > i {
                                assert(record_id(t0[i as int]) is Some);
                                assert(record_id(t0[i as int]) != record_id(t0[j]));
                            }
                        }
                    }
                }
                *self = ToolTelemetry { events };
                return;
            }
            i = i + 1;
        }
        *self = ToolTelemetry { events };
    }
}

} // verus!
