//! Local monitoring: finding the monitor's own nodes and ports in the PipeWire graph and
//! deciding when it is ready, linked or timed out. Running `pw-loopback`, `pw-dump`, `wpctl`
//! and `pw-link` is left to the caller.
//!
//! Time is a count of microseconds on a monotonic clock chosen by the caller.
use vstd::prelude::*;
use vstd::string::StringSliceAdditionalSpecFns;
use vstd::utf8::encode_utf8;
use crate::control::elapsed;
use crate::text::{parse_u64, str_eq, unsigned_of};

verus! {

/// How long the monitor may take to become ready, in microseconds.
pub const READY_TIMEOUT_US: u64 = 3_000_000;

/// The fields of one object of the PipeWire graph (one element of `pw-dump`'s output) that
/// the monitor reads; a field that is absent or of another JSON type is `None`.
pub struct GraphObject {
    /// `id`, as an unsigned integer.
    pub id: Option<u64>,
    /// `type`, as text.
    pub kind: Option<String>,
    /// `info.props["application.process.id"]`, when it is an unsigned integer.
    pub process_id: Option<u64>,
    /// `info.props["application.process.id"]`, when it is text.
    pub process_id_text: Option<String>,
    /// `info.props["node.name"]`, as text.
    pub node_name: Option<String>,
    /// `info.props["client.id"]`, as an unsigned integer.
    pub client_id: Option<u64>,
    /// `info.props["node.id"]`, as an unsigned integer.
    pub node_id: Option<u64>,
    /// `info.props["port.direction"]`, as text.
    pub port_direction: Option<String>,
}

/// What the monitor looks for in the graph.
pub enum GraphQuery {
    /// The client object of the process with this id.
    Client(u64),
    /// The node of this name that belongs to this client, if the client is known.
    OwnedNode(String, Option<u64>),
    /// The node of this name.
    Node(String),
    /// The port of this node, if known, in this direction (`out` or `in`).
    Port(Option<u64>, String),
}

/// A query as the contracts read it, names as character sequences.
pub enum QueryView {
    Client(u64),
    OwnedNode(Seq<char>, Option<u64>),
    Node(Seq<char>),
    Port(Option<u64>, Seq<char>),
}

impl View for GraphQuery {
    type V = QueryView;

    open spec fn view(&self) -> QueryView {
        match self {
            GraphQuery::Client(pid) => QueryView::Client(*pid),
            GraphQuery::OwnedNode(name, client) => QueryView::OwnedNode(name@, *client),
            GraphQuery::Node(name) => QueryView::Node(name@),
            GraphQuery::Port(node, direction) => QueryView::Port(*node, direction@),
        }
    }
}

/// Whether a text field is present and holds `s`.
pub open spec fn text_is(field: Option<String>, s: Seq<char>) -> bool {
    field is Some && field->Some_0@ == s
}

/// Whether an object answers a query.
pub open spec fn answers(o: GraphObject, q: QueryView) -> bool {
    match q {
        QueryView::Client(pid) => text_is(o.kind, "PipeWire:Interface:Client"@) && (o.process_id
            == Some(pid) || (o.process_id_text is Some && unsigned_of(
            encode_utf8(o.process_id_text->Some_0@),
            u64::MAX as int,
        ) == Some(pid as int))),
        QueryView::OwnedNode(name, client) => text_is(o.node_name, name) && client is Some
            && o.client_id == client,
        QueryView::Node(name) => text_is(o.kind, "PipeWire:Interface:Node"@) && text_is(
            o.node_name,
            name,
        ),
        QueryView::Port(node, direction) => node is Some && text_is(
            o.kind,
            "PipeWire:Interface:Port"@,
        ) && o.node_id == node && text_is(o.port_direction, direction),
    }
}

/// The first object in `graph` that answers `q`.
pub open spec fn first_answer(graph: Seq<GraphObject>, q: QueryView) -> Option<GraphObject>
    decreases graph.len(),
{
    if graph.len() == 0 {
        None
    } else if answers(graph[0], q) {
        Some(graph[0])
    } else {
        first_answer(graph.skip(1), q)
    }
}

/// The id of the first object that answers `q`; `None` also when that object has no id.
pub open spec fn found_id(graph: Seq<GraphObject>, q: QueryView) -> Option<u64> {
    match first_answer(graph, q) {
        Some(o) => o.id,
        None => None,
    }
}

fn text_equals(field: &Option<String>, s: &str) -> (r: bool)
    ensures
        r == text_is(*field, s@),
{
    match field {
        Some(f) => str_eq(f.as_str(), s),
        None => false,
    }
}

fn same_id(a: Option<u64>, b: Option<u64>) -> (r: bool)
    ensures
        r == (a == b),
{
    match (a, b) {
        (Some(x), Some(y)) => x == y,
        (None, None) => true,
        _ => false,
    }
}

fn answers_query(o: &GraphObject, q: &GraphQuery) -> (r: bool)
    ensures
        r == answers(*o, q@),
{
    match q {
        GraphQuery::Client(pid) => {
            if !text_equals(&o.kind, "PipeWire:Interface:Client") {
                return false;
            }
            if same_id(o.process_id, Some(*pid)) {
                return true;
            }
            match &o.process_id_text {
                Some(t) => match parse_u64(t.as_str()) {
                    Some(v) => v == *pid,
                    None => false,
                },
                None => false,
            }
        },
        GraphQuery::OwnedNode(name, client) => text_equals(&o.node_name, name.as_str())
            && client.is_some() && same_id(o.client_id, *client),
        GraphQuery::Node(name) => text_equals(&o.kind, "PipeWire:Interface:Node") && text_equals(
            &o.node_name,
            name.as_str(),
        ),
        GraphQuery::Port(node, direction) => node.is_some() && text_equals(
            &o.kind,
            "PipeWire:Interface:Port",
        ) && same_id(o.node_id, *node) && text_equals(&o.port_direction, direction.as_str()),
    }
}

/// The id of the first graph object that answers `q`.
pub fn find_id(graph: &[GraphObject], q: &GraphQuery) -> (r: Option<u64>)
    ensures
        r == found_id(graph@, q@),
{
    let mut i: usize = 0;
    assert(graph@.skip(0) =~= graph@);
    while i < graph.len()
        invariant
            i <= graph@.len(),
            first_answer(graph@, q@) == first_answer(graph@.skip(i as int), q@),
        decreases graph@.len() - i,
    {
        assert(graph@.skip(i as int)[0] == graph@[i as int]);
        if answers_query(&graph[i], q) {
            return graph[i].id;
        }
        assert(graph@.skip(i as int).skip(1) =~= graph@.skip(i + 1));
        i += 1;
    }
    assert(graph@.skip(i as int).len() == 0);
    None
}

/// Why monitoring could not start.
#[derive(Debug, Clone, Copy, PartialEq, Eq, Structural)]
pub enum MonitorError {
    /// No LinMic source is available to monitor.
    NoSource,
}

/// How far local monitoring has come: the source it listens to, the playback node whose
/// volume it controls, whether the source is linked to its capture, and when it started.
pub struct MonitorLinks {
    pub source: String,
    pub node: Option<u64>,
    pub linked: bool,
    pub started_us: Option<u64>,
}

/// Name of the monitor's playback node.
pub open spec fn playback_name() -> Seq<char> {
    "linmic_monitor_playback"@
}

/// Name of the monitor's capture node.
pub open spec fn capture_name() -> Seq<char> {
    "linmic_monitor_capture"@
}

/// The client object of the monitor process `pid`.
pub open spec fn monitor_client(graph: Seq<GraphObject>, pid: u64) -> Option<u64> {
    found_id(graph, QueryView::Client(pid))
}

impl MonitorLinks {
    /// Not monitoring.
    pub fn new() -> (r: Self)
        ensures
            r.source@ == Seq::<char>::empty(),
            r.node is None,
            !r.linked,
            r.started_us is None,
    {
        MonitorLinks { source: String::new(), node: None, linked: false, started_us: None }
    }

    /// Forgets the monitor's nodes and link; the caller ends its process.
    pub fn stop(&mut self)
        ensures
            final(self).node is None,
            !final(self).linked,
            final(self).started_us is None,
            final(self).source@ == old(self).source@,
    {
        self.node = None;
        self.linked = false;
        self.started_us = None;
    }

    /// Starts over on `source` at `now`; refused when there is no source. The caller then
    /// starts the loopback process.
    pub fn start(&mut self, source: &str, now: u64) -> (r: Result<(), MonitorError>)
        ensures
            final(self).node is None,
            !final(self).linked,
            source@.len() == 0 ==> r == Err::<(), MonitorError>(MonitorError::NoSource)
                && final(self).started_us is None && final(self).source@ == old(self).source@,
            source@.len() > 0 ==> r is Ok && final(self).started_us == Some(now)
                && final(self).source@ == source@,
    {
        self.stop();
        if source.unicode_len() == 0 {
            return Err(MonitorError::NoSource);
        }
        self.source = source.to_owned();
        self.started_us = Some(now);
        Ok(())
    }

    /// Whether the monitor's volume can be set and its audio flows.
    pub fn volume_ready(&self) -> (r: bool)
        ensures
            r == (self.node is Some && self.linked),
    {
        self.node.is_some() && self.linked
    }

    /// Whether the caller must read the graph (`pw-dump`) for this step.
    pub fn needs_graph(&self) -> (r: bool)
        ensures
            r == (self.node is None || !self.linked),
    {
        self.node.is_none() || !self.linked
    }

    /// Finds, once, the playback node that the monitor process `pid` created; returns the
    /// node whose volume the caller sets.
    pub fn locate_playback(&mut self, graph: &[GraphObject], pid: u64) -> (r: Option<u64>)
        ensures
            old(self).node is None ==> final(self).node == found_id(
                graph@,
                QueryView::OwnedNode(playback_name(), monitor_client(graph@, pid)),
            ),
            old(self).node is Some ==> final(self).node == old(self).node,
            r == final(self).node,
            final(self).linked == old(self).linked,
            final(self).started_us == old(self).started_us,
            final(self).source@ == old(self).source@,
    {
        if self.node.is_none() {
            let client = find_id(graph, &GraphQuery::Client(pid));
            let name = "linmic_monitor_playback".to_owned();
            self.node = find_id(graph, &GraphQuery::OwnedNode(name, client));
        }
        self.node
    }

    /// The output port of the monitored source and the input port of the monitor's capture
    /// node, when the source is not linked yet, the playback node is known and both ports are
    /// in the graph; the caller links them and then calls `mark_linked`.
    pub fn ports_to_link(&self, graph: &[GraphObject], pid: u64) -> (r: Option<(u64, u64)>)
        ensures
            r == (if !self.linked && self.node is Some {
                match (
                    found_id(
                        graph@,
                        QueryView::Port(found_id(graph@, QueryView::Node(self.source@)), "out"@),
                    ),
                    found_id(
                        graph@,
                        QueryView::Port(
                            found_id(
                                graph@,
                                QueryView::OwnedNode(capture_name(), monitor_client(graph@, pid)),
                            ),
                            "in"@,
                        ),
                    ),
                ) {
                    (Some(o), Some(i)) => Some((o, i)),
                    _ => None,
                }
            } else {
                None
            }),
    {
        if self.linked || self.node.is_none() {
            return None;
        }
        let client = find_id(graph, &GraphQuery::Client(pid));
        let capture = find_id(graph, &GraphQuery::OwnedNode("linmic_monitor_capture".to_owned(), client));
        let source = find_id(graph, &GraphQuery::Node(self.source.clone()));
        let output = find_id(graph, &GraphQuery::Port(source, "out".to_owned()));
        let input = find_id(graph, &GraphQuery::Port(capture, "in".to_owned()));
        match (output, input) {
            (Some(o), Some(i)) => Some((o, i)),
            _ => None,
        }
    }

    /// Records that the source is linked to the monitor's capture.
    pub fn mark_linked(&mut self)
        ensures
            final(self).linked,
            final(self).node == old(self).node,
            final(self).started_us == old(self).started_us,
            final(self).source@ == old(self).source@,
    {
        self.linked = true;
    }

    /// Whether the monitor failed to become ready within three seconds of starting.
    pub fn timed_out(&self, now: u64) -> (r: bool)
        ensures
            r == (!(self.node is Some && self.linked) && self.started_us is Some && elapsed(
                now,
                self.started_us->Some_0,
            ) >= READY_TIMEOUT_US),
    {
        if self.volume_ready() {
            return false;
        }
        match self.started_us {
            Some(t) => now >= t && now - t >= READY_TIMEOUT_US,
            None => false,
        }
    }
}

} // verus!