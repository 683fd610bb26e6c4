use athena::knowledge_graph::{Entity, KnowledgeGraph, Relationship};
use std::collections::HashMap;

fn properties(pairs: &[(&str, &str)]) -> HashMap<String, String> {
    let mut map = HashMap::new();
    for (key, value) in pairs {
        map.insert(key.to_string(), value.to_string());
    }
    map
}

fn edge(source: &str, target: &str, relation_type: &str) -> Relationship {
    Relationship::new(
        source.to_string(),
        target.to_string(),
        relation_type.to_string(),
        HashMap::new(),
    )
}

#[test]
fn entity_new_keeps_id_and_properties() {
    let entity = Entity::new("1".to_string(), properties(&[("name", "Alice")]));
    assert_eq!(entity.id, "1");
    assert_eq!(entity.properties.len(), 1);
    assert_eq!(entity.properties.get("name"), Some(&"Alice".to_string()));
}

#[test]
fn relationship_new_keeps_every_field() {
    let relationship = Relationship::new(
        "1".to_string(),
        "2".to_string(),
        "friend".to_string(),
        properties(&[("since", "2021")]),
    );
    assert_eq!(relationship.source, "1");
    assert_eq!(relationship.target, "2");
    assert_eq!(relationship.relation_type, "friend");
    assert_eq!(relationship.properties.get("since"), Some(&"2021".to_string()));
}

#[test]
fn new_graph_knows_nothing() {
    let graph = KnowledgeGraph::new();
    assert!(graph.get_entity("1").is_none());
    assert!(graph.get_entity("").is_none());
    assert!(graph.get_relationships("1").is_empty());
}

#[test]
fn added_entity_is_found_by_id() {
    let mut graph = KnowledgeGraph::new();
    graph.add_entity(Entity::new("1".to_string(), properties(&[("name", "Alice")])));
    let found = graph.get_entity("1").expect("entity 1 was added");
    assert_eq!(found.id, "1");
    assert_eq!(found.properties, properties(&[("name", "Alice")]));
}

#[test]
fn missing_entity_is_absent() {
    let mut graph = KnowledgeGraph::new();
    graph.add_entity(Entity::new("1".to_string(), HashMap::new()));
    assert!(graph.get_entity("2").is_none());
    assert!(graph.get_entity("11").is_none());
    assert!(graph.get_entity("").is_none());
}

#[test]
fn second_insert_with_same_id_replaces_first() {
    let mut graph = KnowledgeGraph::new();
    graph.add_entity(Entity::new(
        "1".to_string(),
        properties(&[("name", "Alice"), ("age", "30")]),
    ));
    graph.add_entity(Entity::new("1".to_string(), properties(&[("name", "Bob")])));
    let found = graph.get_entity("1").expect("entity 1 was added");
    assert_eq!(found.id, "1");
    assert_eq!(found.properties, properties(&[("name", "Bob")]));
    assert!(found.properties.get("age").is_none());
}

#[test]
fn entities_with_different_ids_are_kept_apart() {
    let mut graph = KnowledgeGraph::new();
    graph.add_entity(Entity::new("a".to_string(), properties(&[("kind", "first")])));
    graph.add_entity(Entity::new("b".to_string(), properties(&[("kind", "second")])));
    assert_eq!(
        graph.get_entity("a").unwrap().properties.get("kind"),
        Some(&"first".to_string())
    );
    assert_eq!(
        graph.get_entity("b").unwrap().properties.get("kind"),
        Some(&"second".to_string())
    );
}

#[test]
fn single_relationship_is_found_from_its_source() {
    let mut graph = KnowledgeGraph::new();
    graph.add_relationship(Relationship::new(
        "1".to_string(),
        "2".to_string(),
        "friend".to_string(),
        properties(&[("since", "2021")]),
    ));
    let relationships = graph.get_relationships("1");
    assert_eq!(relationships.len(), 1);
    assert_eq!(relationships[0].relation_type, "friend");
}

#[test]
fn relationships_are_found_from_either_end_in_insertion_order() {
    let mut graph = KnowledgeGraph::new();
    graph.add_relationship(edge("x", "a", "first"));
    graph.add_relationship(edge("b", "c", "second"));
    graph.add_relationship(edge("d", "x", "third"));
    graph.add_relationship(edge("x", "x", "fourth"));
    graph.add_relationship(edge("e", "f", "fifth"));
    graph.add_relationship(edge("x", "g", "sixth"));

    let of_x: Vec<&str> = graph
        .get_relationships("x")
        .iter()
        .map(|r| r.relation_type.as_str())
        .collect();
    assert_eq!(of_x, vec!["first", "third", "fourth", "sixth"]);

    let of_c: Vec<&str> = graph
        .get_relationships("c")
        .iter()
        .map(|r| r.relation_type.as_str())
        .collect();
    assert_eq!(of_c, vec!["second"]);

    assert!(graph.get_relationships("z").is_empty());
}

#[test]
fn equal_relationships_are_all_kept() {
    let mut graph = KnowledgeGraph::new();
    graph.add_relationship(edge("1", "2", "friend"));
    graph.add_relationship(edge("1", "2", "friend"));
    assert_eq!(graph.get_relationships("1").len(), 2);
    assert_eq!(graph.get_relationships("2").len(), 2);
}

#[test]
fn relationship_may_name_unknown_entities() {
    let mut graph = KnowledgeGraph::new();
    graph.add_entity(Entity::new("1".to_string(), HashMap::new()));
    graph.add_relationship(edge("1", "ghost", "haunted_by"));
    graph.add_relationship(edge("nobody", "nowhere", "lost"));
    assert!(graph.get_entity("ghost").is_none());
    assert_eq!(graph.get_relationships("ghost").len(), 1);
    assert_eq!(graph.get_relationships("nobody").len(), 1);
    assert_eq!(graph.get_relationships("1").len(), 1);
}

#[test]
fn entities_and_relationships_do_not_disturb_each_other() {
    let mut graph = KnowledgeGraph::new();
    graph.add_relationship(edge("1", "2", "friend"));
    graph.add_entity(Entity::new("1".to_string(), HashMap::new()));
    graph.add_entity(Entity::new("1".to_string(), properties(&[("name", "Alice")])));
    assert_eq!(graph.get_relationships("1").len(), 1);
    graph.add_relationship(edge("3", "1", "colleague"));
    assert_eq!(
        graph.get_entity("1").unwrap().properties.get("name"),
        Some(&"Alice".to_string())
    );
    assert_eq!(graph.get_relationships("1").len(), 2);
}

#[test]
fn ids_are_compared_exactly() {
    let mut graph = KnowledgeGraph::new();
    graph.add_entity(Entity::new("Alice".to_string(), HashMap::new()));
    graph.add_relationship(edge("Alice", "Bob", "knows"));
    assert!(graph.get_entity("alice").is_none());
    assert!(graph.get_entity("Alice ").is_none());
    assert!(graph.get_relationships("alice").is_empty());
    assert!(graph.get_relationships("Alic").is_empty());
    assert!(graph.get_relationships("Alice!").is_empty());
    assert_eq!(graph.get_relationships("Bob").len(), 1);
}

#[test]
fn ids_outside_ascii_are_found() {
    let mut graph = KnowledgeGraph::new();
    graph.add_entity(Entity::new("éléphant".to_string(), HashMap::new()));
    graph.add_relationship(edge("éléphant", "象", "same_as"));
    assert!(graph.get_entity("éléphant").is_some());
    assert!(graph.get_entity("elephant").is_none());
    assert_eq!(graph.get_relationships("象").len(), 1);
    assert!(graph.get_relationships("豹").is_empty());
}
