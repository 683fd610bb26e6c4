//! The knowledge store: entities found by their id, and the relationships
//! between them in the order they were learned. A relationship may name an
//! id that no entity bears.

use crate::text::str_eq;
use std::collections::HashMap;
use vstd::hash_map::StringHashMap;
use vstd::prelude::*;

verus! {

/// A node of the knowledge graph: an id and string-valued properties.
#[derive(Debug, Clone)]
pub struct Entity {
    pub id: String,
    pub properties: HashMap<String, String>,
}

impl Entity {
    /// Creates an entity with the given id and properties.
    pub fn new(id: String, properties: HashMap<String, String>) -> (result: Self)
        ensures
            result.id == id,
            result.properties == properties,
    {
        Entity { id, properties }
    }
}

/// A directed, typed edge between two entity ids, with properties of its own.
#[derive(Debug, Clone)]
pub struct Relationship {
    pub source: String,
    pub target: String,
    pub relation_type: String,
    pub properties: HashMap<String, String>,
}

impl Relationship {
    /// Whether the relationship starts or ends at the entity `id`.
    pub open spec fn involves(self, id: Seq<char>) -> bool {
        self.source@ == id || self.target@ == id
    }

    /// Creates a relationship of type `relation_type` from `source` to
    /// `target`.
    pub fn new(
        source: String,
        target: String,
        relation_type: String,
        properties: HashMap<String, String>,
    ) -> (result: Self)
        ensures
            result.source == source,
            result.target == target,
            result.relation_type == relation_type,
            result.properties == properties,
    {
        Relationship { source, target, relation_type, properties }
    }
}

/// The test that picks the relationships of the entity `id`.
pub open spec fn involving(id: Seq<char>) -> spec_fn(Relationship) -> bool {
    |relationship: Relationship| relationship.involves(id)
}

/// The relationships that a sequence of references refers to.
pub open spec fn referents(references: Seq<&Relationship>) -> Seq<Relationship> {
    references.map_values(|reference: &Relationship| *reference)
}

/// Whether every entity of the map is stored under its own id.
pub open spec fn keyed_by_id(entities: Map<Seq<char>, Entity>) -> bool {
    forall|id: Seq<char>| #[trigger] entities.contains_key(id) ==> entities[id].id@ == id
}

/// A map that stores every entity under its own id still does so after
/// another entity was inserted under its id.
pub proof fn lemma_insert_keeps_keys(entities: Map<Seq<char>, Entity>, entity: Entity)
    requires
        keyed_by_id(entities),
    ensures
        keyed_by_id(entities.insert(entity.id@, entity)),
{
}

/// The mathematical model of a [`KnowledgeGraph`].
pub ghost struct GraphContents {
    /// The entity stored under each id.
    pub entities: Map<Seq<char>, Entity>,
    /// The relationships, oldest first.
    pub relationships: Seq<Relationship>,
}

impl GraphContents {
    /// The contents of a graph that knows nothing.
    pub open spec fn empty() -> GraphContents {
        GraphContents { entities: Map::empty(), relationships: Seq::empty() }
    }

    /// These contents after `entity` was added: it takes the place of any
    /// entity that bore its id.
    pub open spec fn add_entity(self, entity: Entity) -> GraphContents {
        GraphContents {
            entities: self.entities.insert(entity.id@, entity),
            relationships: self.relationships,
        }
    }

    /// These contents after `relationship` was added behind all others.
    pub open spec fn add_relationship(self, relationship: Relationship) -> GraphContents {
        GraphContents {
            entities: self.entities,
            relationships: self.relationships.push(relationship),
        }
    }

    /// The entity that bears `id`, if there is one.
    pub open spec fn entity(self, id: Seq<char>) -> Option<Entity> {
        if self.entities.contains_key(id) {
            Some(self.entities[id])
        } else {
            None
        }
    }

    /// The relationships that start or end at `id`, oldest first.
    pub open spec fn relationships_of(self, id: Seq<char>) -> Seq<Relationship> {
        self.relationships.filter(involving(id))
    }
}

/// The knowledge graph of an agent.
pub struct KnowledgeGraph {
    entities: StringHashMap<Entity>,
    relationships: Vec<Relationship>,
}

impl View for KnowledgeGraph {
    type V = GraphContents;

    closed spec fn view(&self) -> GraphContents {
        GraphContents { entities: self.entities@, relationships: self.relationships@ }
    }
}

impl KnowledgeGraph {
    #[verifier::type_invariant]
    spec fn entities_are_keyed_by_id(self) -> bool {
        keyed_by_id(self.entities@)
    }

    /// Creates a graph that knows nothing.
    pub fn new() -> (result: Self)
        ensures
            result@ == GraphContents::empty(),
    {
        KnowledgeGraph { entities: StringHashMap::new(), relationships: Vec::new() }
    }

    /// Adds `entity` to the graph, in place of any entity that bore its id.
    pub fn add_entity(&mut self, entity: Entity)
        ensures
            final(self)@ == old(self)@.add_entity(entity),
    {
        proof {
            use_type_invariant(&*self);
        }
        let mut entities = StringHashMap::new();
        std::mem::swap(&mut entities, &mut self.entities);
        entities.insert(entity.id.clone(), entity);
        proof {
            lemma_insert_keeps_keys(old(self).entities@, entity);
        }
        self.entities = entities;
    }

    /// Adds `relationship` to the graph, behind all it already holds.
    /// Neither end of it needs to be the id of a known entity.
    pub fn add_relationship(&mut self, relationship: Relationship)
        ensures
            final(self)@ == old(self)@.add_relationship(relationship),
    {
        proof {
            use_type_invariant(&*self);
        }
        let mut relationships = Vec::new();
        std::mem::swap(&mut relationships, &mut self.relationships);
        relationships.push(relationship);
        self.relationships = relationships;
    }

    /// The entity that bears `id`, or `None` if the graph knows none.
    pub fn get_entity(&self, id: &str) -> (result: Option<&Entity>)
        ensures
            match result {
                Some(entity) => self@.entity(id@) == Some(*entity) && entity.id@ == id@,
                None => self@.entity(id@) is None,
            },
    {
        proof {
            use_type_invariant(self);
        }
        self.entities.get(id)
    }

    /// Every relationship that starts or ends at `entity_id`, in the order
    /// in which they were added.
    pub fn get_relationships(&self, entity_id: &str) -> (result: Vec<&Relationship>)
        ensures
            referents(result@) == self@.relationships_of(entity_id@),
    {
        let mut found: Vec<&Relationship> = Vec::new();
        let mut i: usize = 0;
        proof {
            assert(self.relationships@.take(0) =~= Seq::empty());
            assert(referents(found@) =~= Seq::empty());
            Seq::<Relationship>::empty().lemma_all_neg_filter_empty(involving(entity_id@));
        }
        while i < self.relationships.len()
            invariant
                i <= self.relationships.len(),
                referents(found@) == self.relationships@.take(i as int).filter(
                    involving(entity_id@),
                ),
            decreases self.relationships.len() - i,
        {
            let relationship = &self.relationships[i];
            let ghost before = found@;
            if str_eq(relationship.source.as_str(), entity_id) || str_eq(
                relationship.target.as_str(),
                entity_id,
            ) {
                found.push(relationship);
                assert(referents(found@) =~= referents(before).push(*relationship));
            }
            proof {
                self.relationships@.lemma_take_succ_push(i as int);
                self.relationships@.take(i as int).lemma_filter_push(
                    *relationship,
                    involving(entity_id@),
                );
            }
            i += 1;
        }
        proof {
            assert(self.relationships@.take(i as int) =~= self.relationships@);
        }
        found
    }
}

/// An entity that was added is found under its id, whatever the graph held
/// before.
pub proof fn lemma_added_entity_is_found(graph: GraphContents, entity: Entity)
    ensures
        graph.add_entity(entity).entity(entity.id@) == Some(entity),
{
}

/// Adding an entity changes nothing about the entities of other ids.
pub proof fn lemma_add_entity_leaves_others(graph: GraphContents, entity: Entity, id: Seq<char>)
    requires
        id != entity.id@,
    ensures
        graph.add_entity(entity).entity(id) == graph.entity(id),
{
}

/// Of two entities added under one id the second fully replaces the first:
/// the graph is as if the first had never been added.
pub proof fn lemma_later_entity_replaces_earlier(
    graph: GraphContents,
    first: Entity,
    second: Entity,
)
    requires
        first.id@ == second.id@,
    ensures
        graph.add_entity(first).add_entity(second) == graph.add_entity(second),
{
    assert(graph.add_entity(first).add_entity(second).entities =~= graph.add_entity(
        second,
    ).entities);
}

/// A graph that knows nothing has no relationships of any entity.
pub proof fn lemma_empty_graph_has_no_relationships(id: Seq<char>)
    ensures
        GraphContents::empty().relationships_of(id) == Seq::<Relationship>::empty(),
{
    Seq::<Relationship>::empty().lemma_all_neg_filter_empty(involving(id));
}

/// A relationship that is added comes last among the relationships of the
/// entities at its two ends, and changes nothing for any other entity.
pub proof fn lemma_relationships_after_add(
    graph: GraphContents,
    relationship: Relationship,
    id: Seq<char>,
)
    ensures
        graph.add_relationship(relationship).relationships_of(id) == if relationship.involves(id) {
            graph.relationships_of(id).push(relationship)
        } else {
            graph.relationships_of(id)
        },
{
    graph.relationships.lemma_filter_push(relationship, involving(id));
}

/// Whether `picked` is what stands in `all` at `positions`, where the
/// positions rise strictly and are exactly those of the relationships that
/// start or end at `id`.
pub open spec fn picks_in_order(
    all: Seq<Relationship>,
    id: Seq<char>,
    picked: Seq<Relationship>,
    positions: Seq<int>,
) -> bool {
    &&& positions.len() == picked.len()
    &&& forall|k: int|
        0 <= k < positions.len() ==> 0 <= #[trigger] positions[k] < all.len() && all[positions[k]]
            == picked[k]
    &&& forall|j: int, k: int|
        0 <= j < k < positions.len() ==> #[trigger] positions[j] < #[trigger] positions[k]
    &&& forall|k: int| 0 <= k < positions.len() ==> (#[trigger] all[positions[k]]).involves(id)
    &&& forall|i: int|
        0 <= i < all.len() && (#[trigger] all[i]).involves(id) ==> positions.contains(i)
}

/// The positions at which the relationships of `id` stand among `all`.
pub proof fn lemma_filter_picks_in_order(all: Seq<Relationship>, id: Seq<char>) -> (positions:
    Seq<int>)
    ensures
        picks_in_order(all, id, all.filter(involving(id)), positions),
    decreases all.len(),
{
    if all.len() == 0 {
        all.lemma_all_neg_filter_empty(involving(id));
        Seq::empty()
    } else {
        let earlier = all.drop_last();
        let last = all.last();
        let before = lemma_filter_picks_in_order(earlier, id);
        assert(earlier.push(last) =~= all);
        earlier.lemma_filter_push(last, involving(id));
        if last.involves(id) {
            let positions = before.push(all.len() - 1);
            assert forall|i: int| 0 <= i < all.len() && (#[trigger] all[i]).involves(
                id,
            ) implies positions.contains(i) by {
                if i < earlier.len() {
                    assert(earlier[i].involves(id));
                    let k = choose|k: int| 0 <= k < before.len() && before[k] == i;
                    assert(positions[k] == i);
                } else {
                    assert(positions[before.len() as int] == i);
                }
            }
            positions
        } else {
            assert forall|i: int| 0 <= i < all.len() && (#[trigger] all[i]).involves(
                id,
            ) implies before.contains(i) by {
                assert(earlier[i].involves(id));
            }
            before
        }
    }
}

/// The relationships of an entity are exactly those of the graph that start
/// or end at it, each once and in the order in which they were added: they
/// stand in the graph at strictly rising positions, and no other position
/// holds a relationship that starts or ends at the entity.
pub proof fn lemma_relationships_of_keep_their_order(graph: GraphContents, id: Seq<char>)
    ensures
        exists|positions: Seq<int>|
            picks_in_order(graph.relationships, id, graph.relationships_of(id), positions),
        graph.relationships_of(id).len() <= graph.relationships.len(),
{
    let positions = lemma_filter_picks_in_order(graph.relationships, id);
    assert(picks_in_order(graph.relationships, id, graph.relationships_of(id), positions));
    graph.relationships.lemma_filter_len(involving(id));
}

} // verus!
