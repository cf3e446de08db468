use contower::nodes::{fastest_nodes, select_fastest_nodes, sort_by_response_time, LocationNodes, NodeInfo};

fn node(id: &str, time: u128, location: &str) -> NodeInfo {
    NodeInfo { peer_id: id.to_string(), response_time: time, location: location.to_string() }
}

fn ids(nodes: &[NodeInfo]) -> Vec<&str> {
    nodes.iter().map(|n| n.peer_id.as_str()).collect()
}

#[test]
fn sort_is_ascending_and_stable() {
    let nodes = vec![
        node("a", 30, "eu"),
        node("b", 10, "eu"),
        node("c", 30, "eu"),
        node("d", 5, "eu"),
        node("e", 10, "eu"),
    ];
    let sorted = sort_by_response_time(&nodes);
    assert_eq!(ids(&sorted), vec!["d", "b", "e", "a", "c"]);
}

#[test]
fn fastest_takes_at_most_n() {
    let nodes = vec![node("a", 3, "us"), node("b", 1, "us"), node("c", 2, "us")];
    assert_eq!(ids(&fastest_nodes(&nodes, 2)), vec!["b", "c"]);
    assert_eq!(ids(&fastest_nodes(&nodes, 5)), vec!["b", "c", "a"]);
    assert!(fastest_nodes(&nodes, 0).is_empty());
    assert!(fastest_nodes(&Vec::new(), 3).is_empty());
}

#[test]
fn fastest_per_location() {
    let groups = vec![
        LocationNodes {
            location: "eu".to_string(),
            nodes: vec![node("a", 50, "eu"), node("b", 20, "eu"), node("c", 20, "eu")],
        },
        LocationNodes { location: "asia".to_string(), nodes: vec![] },
        LocationNodes { location: "us".to_string(), nodes: vec![node("d", 7, "us")] },
    ];
    let fastest = select_fastest_nodes(&groups, 2);
    assert_eq!(fastest.len(), 3);
    assert_eq!(fastest[0].location, "eu");
    assert_eq!(ids(&fastest[0].nodes), vec!["b", "c"]);
    assert_eq!(fastest[1].location, "asia");
    assert!(fastest[1].nodes.is_empty());
    assert_eq!(fastest[2].location, "us");
    assert_eq!(ids(&fastest[2].nodes), vec!["d"]);
    assert_eq!(fastest[2].nodes[0].response_time, 7);
}
