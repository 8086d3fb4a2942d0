//! Ontology types: the schema of entity and relation types that a knowledge
//! graph is built with.
use vstd::prelude::*;

use crate::strs::str_eq;

verus! {

/// An entity type definition in the ontology.
#[derive(Debug, Clone)]
pub struct EntityType {
    /// Entity type name (e.g. "Person", "Organization").
    pub name: String,
    pub description: String,
    /// Key attributes for this entity type.
    pub attributes: Vec<EntityAttribute>,
}

/// An attribute of an entity type.
#[derive(Debug, Clone)]
pub struct EntityAttribute {
    pub name: String,
    pub description: String,
    /// "string", "number", "boolean" or "date".
    pub data_type: String,
}

/// An edge (relation) type definition in the ontology.
#[derive(Debug, Clone)]
pub struct EdgeType {
    /// Edge type name (e.g. "KNOWS", "WORKS_FOR").
    pub name: String,
    pub description: String,
    /// Entity types this relation can originate from.
    pub source_types: Vec<String>,
    /// Entity types this relation can point to.
    pub target_types: Vec<String>,
}

/// A complete ontology definition.
#[derive(Debug, Clone)]
pub struct Ontology {
    pub entity_types: Vec<EntityType>,
    pub edge_types: Vec<EdgeType>,
    /// Human-readable analysis summary of the documents.
    pub analysis_summary: String,
}

/// The names of a sequence of entity types, in order.
pub open spec fn entity_names(ts: Seq<EntityType>) -> Seq<Seq<char>> {
    ts.map_values(|t: EntityType| t.name@)
}

/// The names of a sequence of edge types, in order.
pub open spec fn edge_names(ts: Seq<EdgeType>) -> Seq<Seq<char>> {
    ts.map_values(|t: EdgeType| t.name@)
}

/// The index of the first occurrence of `name` in `names`, if any.
pub open spec fn first_index(names: Seq<Seq<char>>, name: Seq<char>) -> Option<int> {
    if exists|i: int| 0 <= i < names.len() && names[i] == name {
        Some(
            choose|i: int|
                0 <= i < names.len() && names[i] == name && forall|j: int|
                    0 <= j < i ==> names[j] != name,
        )
    } else {
        None
    }
}

/// The index found by a scan from the front: the first position holding
/// `name`, where none before it does.
pub proof fn lemma_first_index(names: Seq<Seq<char>>, name: Seq<char>, k: int)
    requires
        0 <= k < names.len(),
        names[k] == name,
        forall|j: int| 0 <= j < k ==> names[j] != name,
    ensures
        first_index(names, name) == Some(k),
{
    let c = choose|i: int|
        0 <= i < names.len() && names[i] == name && forall|j: int| 0 <= j < i ==> names[j] != name;
    assert(0 <= c < names.len() && names[c] == name && forall|j: int|
        0 <= j < c ==> names[j] != name);
    if c < k {
        assert(names[c] != name);
    }
    if k < c {
        assert(names[k] != name);
    }
}

/// Where `name` occurs in `names`, its first occurrence is found.
pub proof fn lemma_first_index_found(names: Seq<Seq<char>>, name: Seq<char>)
    requires
        exists|i: int| 0 <= i < names.len() && names[i] == name,
    ensures
        first_index(names, name) matches Some(k) && 0 <= k < names.len() && names[k] == name
            && forall|j: int| 0 <= j < k ==> names[j] != name,
{
    let w = choose|i: int| 0 <= i < names.len() && names[i] == name;
    lemma_first_from(names, name, 0, w);
}

proof fn lemma_first_from(names: Seq<Seq<char>>, name: Seq<char>, i: int, w: int)
    requires
        0 <= i <= w < names.len(),
        names[w] == name,
        forall|j: int| 0 <= j < i ==> names[j] != name,
    ensures
        first_index(names, name) matches Some(k) && 0 <= k < names.len() && names[k] == name
            && forall|j: int| 0 <= j < k ==> names[j] != name,
    decreases w - i,
{
    if names[i] == name {
        lemma_first_index(names, name, i);
    } else {
        lemma_first_from(names, name, i + 1, w);
    }
}

/// No name occurs twice.
pub open spec fn distinct_names(names: Seq<Seq<char>>) -> bool {
    forall|i: int, j: int|
        0 <= i < names.len() && 0 <= j < names.len() && i != j ==> names[i] != names[j]
}

/// With distinct names, the first index of a name is where it stands.
pub proof fn lemma_first_index_at(names: Seq<Seq<char>>, k: int)
    requires
        distinct_names(names),
        0 <= k < names.len(),
    ensures
        first_index(names, names[k]) == Some(k),
{
    lemma_first_index(names, names[k], k);
}

/// An absent name has no first index.
pub proof fn lemma_first_index_absent(names: Seq<Seq<char>>, name: Seq<char>)
    requires
        forall|j: int| 0 <= j < names.len() ==> names[j] != name,
    ensures
        first_index(names, name) is None,
{
}

impl Ontology {
    /// An ontology with no entity or edge types and an empty summary.
    pub fn empty() -> (r: Self)
        ensures
            r.entity_types@.len() == 0,
            r.edge_types@.len() == 0,
            r.analysis_summary@ == Seq::<char>::empty(),
    {
        Ontology { entity_types: Vec::new(), edge_types: Vec::new(), analysis_summary: String::new() }
    }

    /// The first entity type called `name`.
    pub fn get_entity_type(&self, name: &str) -> (r: Option<&EntityType>)
        ensures
            match first_index(entity_names(self.entity_types@), name@) {
                Some(i) => r == Some(&self.entity_types@[i]),
                None => r is None,
            },
    {
        let mut i: usize = 0;
        while i < self.entity_types.len()
            invariant
                i <= self.entity_types.len(),
                forall|j: int| 0 <= j < i ==> entity_names(self.entity_types@)[j] != name@,
            decreases self.entity_types.len() - i,
        {
            if str_eq(self.entity_types[i].name.as_str(), name) {
                proof {
                    lemma_first_index(entity_names(self.entity_types@), name@, i as int);
                }
                return Some(&self.entity_types[i]);
            }
            i = i + 1;
        }
        assert(!exists|k: int|
            0 <= k < entity_names(self.entity_types@).len() && entity_names(self.entity_types@)[k]
                == name@);
        None
    }

    /// The first edge type called `name`.
    pub fn get_edge_type(&self, name: &str) -> (r: Option<&EdgeType>)
        ensures
            match first_index(edge_names(self.edge_types@), name@) {
                Some(i) => r == Some(&self.edge_types@[i]),
                None => r is None,
            },
    {
        let mut i: usize = 0;
        while i < self.edge_types.len()
            invariant
                i <= self.edge_types.len(),
                forall|j: int| 0 <= j < i ==> edge_names(self.edge_types@)[j] != name@,
            decreases self.edge_types.len() - i,
        {
            if str_eq(self.edge_types[i].name.as_str(), name) {
                proof {
                    lemma_first_index(edge_names(self.edge_types@), name@, i as int);
                }
                return Some(&self.edge_types[i]);
            }
            i = i + 1;
        }
        assert(!exists|k: int|
            0 <= k < edge_names(self.edge_types@).len() && edge_names(self.edge_types@)[k]
                == name@);
        None
    }

    /// The names of all entity types, in order.
    pub fn entity_type_names(&self) -> (r: Vec<&str>)
        ensures
            r@.map_values(|s: &str| s@) == entity_names(self.entity_types@),
    {
        let mut r: Vec<&str> = Vec::new();
        let mut i: usize = 0;
        while i < self.entity_types.len()
            invariant
                i <= self.entity_types.len(),
                r@.map_values(|s: &str| s@) == entity_names(self.entity_types@).take(i as int),
            decreases self.entity_types.len() - i,
        {
            r.push(self.entity_types[i].name.as_str());
            assert(entity_names(self.entity_types@).take(i + 1) =~= entity_names(
                self.entity_types@,
            ).take(i as int).push(self.entity_types@[i as int].name@));
            i = i + 1;
        }
        assert(entity_names(self.entity_types@).take(i as int) =~= entity_names(
            self.entity_types@,
        ));
        r
    }

    /// The names of all edge types, in order.
    pub fn edge_type_names(&self) -> (r: Vec<&str>)
        ensures
            r@.map_values(|s: &str| s@) == edge_names(self.edge_types@),
    {
        let mut r: Vec<&str> = Vec::new();
        let mut i: usize = 0;
        while i < self.edge_types.len()
            invariant
                i <= self.edge_types.len(),
                r@.map_values(|s: &str| s@) == edge_names(self.edge_types@).take(i as int),
            decreases self.edge_types.len() - i,
        {
            r.push(self.edge_types[i].name.as_str());
            assert(edge_names(self.edge_types@).take(i + 1) =~= edge_names(
                self.edge_types@,
            ).take(i as int).push(self.edge_types@[i as int].name@));
            i = i + 1;
        }
        assert(edge_names(self.edge_types@).take(i as int) =~= edge_names(self.edge_types@));
        r
    }

    /// An ontology is valid when it defines at least one entity type and one
    /// edge type.
    pub fn is_valid(&self) -> (r: bool)
        ensures
            r == (self.entity_types@.len() > 0 && self.edge_types@.len() > 0),
    {
        !self.entity_types.is_empty() && !self.edge_types.is_empty()
    }
}

/// Request to build a knowledge graph from documents.
#[derive(Debug, Clone)]
pub struct GraphBuildRequest {
    pub project_id: String,
    pub document_text: String,
    pub filename: Option<String>,
}

/// Response from graph building.
#[derive(Debug, Clone)]
pub struct GraphBuildResponse {
    pub graph_id: String,
    pub node_count: usize,
    pub edge_count: usize,
    pub entity_types: Vec<String>,
    pub ontology: Ontology,
}

/// Request to create or update an ontology.
#[derive(Debug, Clone)]
pub struct OntologyRequest {
    pub entity_types: Vec<EntityType>,
    pub edge_types: Vec<EdgeType>,
    pub analysis_summary: String,
}

/// Response from ontology operations.
#[derive(Debug, Clone)]
pub struct OntologyResponse {
    pub ontology: Ontology,
    pub message: String,
}

} // verus!
