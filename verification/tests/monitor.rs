use linmic::monitor::{find_id, GraphObject, GraphQuery, MonitorError, MonitorLinks};

fn object(id: u64, kind: &str) -> GraphObject {
    GraphObject {
        id: Some(id),
        kind: Some(kind.to_string()),
        process_id: None,
        process_id_text: None,
        node_name: None,
        client_id: None,
        node_id: None,
        port_direction: None,
    }
}

fn client(id: u64, pid: u64) -> GraphObject {
    GraphObject { process_id: Some(pid), ..object(id, "PipeWire:Interface:Client") }
}

fn node(id: u64, name: &str, client: Option<u64>) -> GraphObject {
    GraphObject {
        node_name: Some(name.to_string()),
        client_id: client,
        ..object(id, "PipeWire:Interface:Node")
    }
}

fn port(id: u64, node: u64, direction: &str) -> GraphObject {
    GraphObject {
        node_id: Some(node),
        port_direction: Some(direction.to_string()),
        ..object(id, "PipeWire:Interface:Port")
    }
}

fn graph() -> Vec<GraphObject> {
    vec![
        client(30, 999),
        GraphObject { process_id_text: Some("4242".into()), ..object(31, "PipeWire:Interface:Client") },
        node(40, "linmic_input", Some(2)),
        node(41, "linmic_monitor_capture", Some(31)),
        node(42, "linmic_monitor_playback", Some(31)),
        node(43, "linmic_monitor_playback", Some(30)),
        port(50, 40, "out"),
        port(51, 41, "out"),
        port(52, 41, "in"),
    ]
}

#[test]
fn queries_find_the_first_answer() {
    let g = graph();
    assert_eq!(find_id(&g, &GraphQuery::Client(4242)), Some(31));
    assert_eq!(find_id(&g, &GraphQuery::Client(999)), Some(30));
    assert_eq!(find_id(&g, &GraphQuery::Client(7)), None);
    assert_eq!(find_id(&g, &GraphQuery::OwnedNode("linmic_monitor_playback".into(), Some(31))), Some(42));
    assert_eq!(find_id(&g, &GraphQuery::OwnedNode("linmic_monitor_playback".into(), None)), None);
    assert_eq!(find_id(&g, &GraphQuery::Node("linmic_input".into())), Some(40));
    assert_eq!(find_id(&g, &GraphQuery::Port(Some(41), "in".into())), Some(52));
    assert_eq!(find_id(&g, &GraphQuery::Port(None, "in".into())), None);
    let mut idless = graph();
    idless.insert(0, GraphObject { id: None, ..node(0, "linmic_input", None) });
    assert_eq!(find_id(&idless, &GraphQuery::Node("linmic_input".into())), None);
    let text = vec![GraphObject { process_id_text: Some("+17".into()), ..object(9, "PipeWire:Interface:Client") }];
    assert_eq!(find_id(&text, &GraphQuery::Client(17)), Some(9));
    let bad = vec![GraphObject { process_id_text: Some("17x".into()), ..object(9, "PipeWire:Interface:Client") }];
    assert_eq!(find_id(&bad, &GraphQuery::Client(17)), None);
}

#[test]
fn monitor_finds_its_nodes_then_links_once() {
    let g = graph();
    let mut m = MonitorLinks::new();
    assert_eq!(m.start("", 0), Err(MonitorError::NoSource));
    assert_eq!(m.start("linmic_input", 100), Ok(()));
    assert!(m.needs_graph());
    assert_eq!(m.locate_playback(&g, 4242), Some(42));
    assert_eq!(m.locate_playback(&[], 4242), Some(42));
    assert!(!m.volume_ready());
    assert_eq!(m.ports_to_link(&g, 4242), Some((50, 52)));
    assert!(!m.timed_out(100 + 2_999_999));
    assert!(m.timed_out(100 + 3_000_000));
    m.mark_linked();
    assert!(m.volume_ready());
    assert!(!m.needs_graph());
    assert_eq!(m.ports_to_link(&g, 4242), None);
    assert!(!m.timed_out(100 + 9_000_000));
    m.stop();
    assert!(!m.volume_ready());
    assert!(!m.timed_out(100 + 9_000_000));
}

#[test]
fn nodes_of_other_processes_are_never_taken() {
    let g = graph();
    let mut m = MonitorLinks::new();
    m.start("linmic_input", 0).unwrap();
    assert_eq!(m.locate_playback(&g, 1), None);
    assert_eq!(m.ports_to_link(&g, 1), None);
}
