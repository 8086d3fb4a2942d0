//! Knowledge-graph records as the graph service returns them, and the
//! decisions made around its calls: which entities a simulation uses, the
//! schema sent for an ontology, and what a reply says.
use vstd::prelude::*;

use crate::error::GraphError;
use crate::json::{JsonModel, JsonValue, json_model, json_get, json_as_str};
use crate::ontology::{EdgeType, EntityAttribute, EntityType, Ontology};
use crate::strs::{decimal, decimal_string, owned, push_str, str_eq, views};

verus! {

broadcast use vstd::string::group_string_axioms;

/// An entity node of the graph.
#[derive(Debug)]
pub struct ZepEntity {
    pub uuid: String,
    pub name: String,
    pub entity_type: String,
    pub summary: Option<String>,
    pub description: Option<String>,
    pub metadata: Option<JsonValue>,
}

/// A node of the graph.
#[derive(Debug)]
pub struct GraphNode {
    pub uuid: String,
    pub name: String,
    pub entity_type: String,
    pub summary: Option<String>,
    pub description: Option<String>,
    pub metadata: Option<JsonValue>,
}

/// An edge of the graph.
#[derive(Debug, Clone)]
pub struct GraphEdge {
    pub uuid: String,
    pub name: String,
    pub source_node_uuid: String,
    pub target_node_uuid: String,
    pub facts: Option<Vec<String>>,
}

/// The nodes and edges of a graph.
#[derive(Debug)]
pub struct GraphData {
    pub nodes: Vec<GraphNode>,
    pub edges: Vec<GraphEdge>,
    pub node_count: usize,
    pub edge_count: usize,
}

/// What a search hit holds for the report tools: its entity and facts.
#[derive(Debug)]
pub struct SearchHit {
    pub entity: Option<ZepEntity>,
    pub facts: Option<Vec<String>>,
}

/// The entities chosen for a simulation.
#[derive(Debug)]
pub struct FilteredEntities {
    pub entities: Vec<ZepEntity>,
    pub filtered_count: usize,
    pub entity_types: Vec<String>,
}

/// The entity types of a sequence of entities, in order.
pub open spec fn types_of(es: Seq<ZepEntity>) -> Seq<Seq<char>> {
    es.map_values(|e: ZepEntity| e.entity_type@)
}

/// Whether an entity is wanted: where types are given (and not empty),
/// those of one of them; else all.
pub open spec fn wanted(e: ZepEntity, types: Option<Seq<Seq<char>>>) -> bool {
    match types {
        Some(ts) => ts.len() == 0 || ts.contains(e.entity_type@),
        None => true,
    }
}

/// The views of the given types, if any are given.
pub open spec fn type_views(types: Option<&[String]>) -> Option<Seq<Seq<char>>> {
    match types {
        Some(ts) => Some(ts@.map_values(|s: String| s@)),
        None => None,
    }
}

/// The test that `filter_entities` applies.
pub open spec fn wanted_pred(types: Option<Seq<Seq<char>>>) -> spec_fn(ZepEntity) -> bool {
    |e: ZepEntity| wanted(e, types)
}

fn type_listed(types: &[String], t: &str) -> (r: bool)
    ensures
        r == types@.map_values(|s: String| s@).contains(t@),
{
    let mut i: usize = 0;
    while i < types.len()
        invariant
            i <= types@.len(),
            forall|j: int| 0 <= j < i ==> types@[j]@ != t@,
        decreases types.len() - i,
    {
        if str_eq(types[i].as_str(), t) {
            assert(types@.map_values(|s: String| s@)[i as int] == t@);
            return true;
        }
        i = i + 1;
    }
    let ghost tv = types@.map_values(|s: String| s@);
    assert(forall|j: int| 0 <= j < tv.len() ==> #[trigger] tv[j] != t@);
    false
}

/// The entities of the given types, in order, with their types; all of
/// them where no types (or an empty list) are given.
pub fn filter_entities(all_entities: Vec<ZepEntity>, entity_types: Option<&[String]>) -> (r:
    FilteredEntities)
    ensures
        r.entities@ == all_entities@.filter(wanted_pred(type_views(entity_types))),
        r.filtered_count == r.entities@.len(),
        views(r.entity_types@) == types_of(r.entities@),
{
    let ghost want = type_views(entity_types);
    let ghost pred = wanted_pred(want);
    let ghost all = all_entities@;
    let mut kept: Vec<ZepEntity> = Vec::new();
    let mut names: Vec<String> = Vec::new();
    let mut rest = all_entities;
    let ghost mut i: int = 0;
    while rest.len() > 0
        invariant
            0 <= i <= all.len(),
            rest@ == all.skip(i),
            kept@ == all.take(i).filter(pred),
            views(names@) == types_of(kept@),
            pred == wanted_pred(want),
            want == type_views(entity_types),
        decreases rest.len(),
    {
        let e = rest.remove(0);
        let keep = match entity_types {
            Some(ts) => ts.len() == 0 || type_listed(ts, e.entity_type.as_str()),
            None => true,
        };
        proof {
            assert(e == all[i]);
            assert(all.take(i + 1).drop_last() =~= all.take(i));
            reveal(Seq::filter);
            assert(all.skip(i + 1) =~= all.skip(i).subrange(1, all.skip(i).len() as int));
            assert(keep == pred(e));
        }
        if keep {
            let t = e.entity_type.clone();
            let ghost n0 = names@;
            let ghost k0 = kept@;
            kept.push(e);
            names.push(t);
            assert(views(names@) =~= views(n0).push(t@));
            assert(types_of(kept@) =~= types_of(k0).push(t@));
        }
        proof {
            i = i + 1;
        }
    }
    assert(all.take(i) =~= all);
    let count = kept.len();
    FilteredEntities { entities: kept, filtered_count: count, entity_types: names }
}

/// A JSON array of strings.
pub open spec fn string_array(v: Seq<String>) -> JsonModel {
    JsonModel::Array(Seq::new(v.len(), |i: int| JsonModel::String(v[i]@)))
}

/// The schema of an entity type: its description and name.
pub open spec fn entity_schema(t: EntityType) -> JsonModel {
    JsonModel::Object(
        seq![("description"@, JsonModel::String(t.description@)), ("name"@, JsonModel::String(t.name@))],
    )
}

/// The schema of an edge type: its description, name, source and target
/// types.
pub open spec fn edge_schema(t: EdgeType) -> JsonModel {
    JsonModel::Object(
        seq![
            ("description"@, JsonModel::String(t.description@)),
            ("name"@, JsonModel::String(t.name@)),
            ("source_types"@, string_array(t.source_types@)),
            ("target_types"@, string_array(t.target_types@)),
        ],
    )
}

/// The schema sent to the graph service for an ontology: its edge types
/// and entity types.
pub open spec fn zep_schema(o: Ontology) -> JsonModel {
    JsonModel::Object(
        seq![
            ("edge_types"@, JsonModel::Array(
                Seq::new(o.edge_types@.len(), |i: int| edge_schema(o.edge_types@[i])),
            )),
            ("entity_types"@, JsonModel::Array(
                Seq::new(o.entity_types@.len(), |i: int| entity_schema(o.entity_types@[i])),
            )),
        ],
    )
}

fn string_array_value(v: &Vec<String>) -> (r: JsonValue)
    ensures
        json_model(r) == string_array(v@),
{
    let mut items: Vec<JsonValue> = Vec::new();
    let mut i: usize = 0;
    while i < v.len()
        invariant
            i <= v@.len(),
            items@.len() == i,
            forall|j: int| 0 <= j < i ==> json_model(#[trigger] items@[j]) == JsonModel::String(v@[j]@),
        decreases v.len() - i,
    {
        items.push(JsonValue::String(v[i].clone()));
        i = i + 1;
    }
    let r = JsonValue::Array(items);
    proof {
        if let JsonModel::Array(x) = json_model(r) {
            assert(x =~= Seq::new(v@.len(), |i: int| JsonModel::String(v@[i]@)));
        }
    }
    r
}

/// An entity of a defined type: one whose type is not the bare "Entity"
/// label every node carries.
pub open spec fn is_defined(e: ZepEntity) -> bool {
    e.entity_type@ != "Entity"@
}

/// The test that `defined_entities` applies.
pub open spec fn defined_pred() -> spec_fn(ZepEntity) -> bool {
    |e: ZepEntity| is_defined(e)
}

/// The entities of a defined type, in order: those that carry only the
/// "Entity" label are left out.
pub fn defined_entities(all_entities: Vec<ZepEntity>) -> (r: Vec<ZepEntity>)
    ensures
        r@ == all_entities@.filter(defined_pred()),
{
    let ghost all = all_entities@;
    let mut kept: Vec<ZepEntity> = Vec::new();
    let mut rest = all_entities;
    let ghost mut i: int = 0;
    while rest.len() > 0
        invariant
            0 <= i <= all.len(),
            rest@ == all.skip(i),
            kept@ == all.take(i).filter(defined_pred()),
        decreases rest.len(),
    {
        let e = rest.remove(0);
        let keep = !str_eq(e.entity_type.as_str(), "Entity");
        proof {
            assert(e == all[i]);
            assert(all.take(i + 1).drop_last() =~= all.take(i));
            reveal(Seq::filter);
            assert(all.skip(i + 1) =~= all.skip(i).subrange(1, all.skip(i).len() as int));
            assert(keep == defined_pred()(e));
        }
        if keep {
            kept.push(e);
        }
        proof {
            i = i + 1;
        }
    }
    assert(all.take(i) =~= all);
    kept
}

fn pair(key: &str, v: JsonValue) -> (r: (String, JsonValue))
    ensures
        r.0@ == key@,
        r.1 == v,
{
    (owned(key), v)
}

/// The schema sent to the graph service for `ontology`.
pub fn ontology_to_zep_schema(ontology: &Ontology) -> (r: JsonValue)
    ensures
        json_model(r) == zep_schema(*ontology),
{
    let mut ents: Vec<JsonValue> = Vec::new();
    let mut i: usize = 0;
    while i < ontology.entity_types.len()
        invariant
            i <= ontology.entity_types@.len(),
            ents@.len() == i,
            forall|j: int| 0 <= j < i ==> json_model(#[trigger] ents@[j]) == entity_schema(ontology.entity_types@[j]),
        decreases ontology.entity_types.len() - i,
    {
        let t = &ontology.entity_types[i];
        let d = pair("description", JsonValue::String(t.description.clone()));
        let nm = pair("name", JsonValue::String(t.name.clone()));
        let fields = vec![d, nm];
        assert(fields@[0].0@ == "description"@ && json_model(fields@[0].1) == JsonModel::String(t.description@));
        assert(fields@[1].0@ == "name"@ && json_model(fields@[1].1) == JsonModel::String(t.name@));
        let o = JsonValue::Object(fields);
        proof {
            if let JsonModel::Object(x) = json_model(o) {
                assert(x =~= seq![("description"@, JsonModel::String(t.description@)), ("name"@, JsonModel::String(t.name@))]);
            }
        }
        ents.push(o);
        i = i + 1;
    }
    let mut edges: Vec<JsonValue> = Vec::new();
    let mut k: usize = 0;
    while k < ontology.edge_types.len()
        invariant
            k <= ontology.edge_types@.len(),
            edges@.len() == k,
            forall|j: int| 0 <= j < k ==> json_model(#[trigger] edges@[j]) == edge_schema(ontology.edge_types@[j]),
        decreases ontology.edge_types.len() - k,
    {
        let t = &ontology.edge_types[k];
        let d = pair("description", JsonValue::String(t.description.clone()));
        let nm = pair("name", JsonValue::String(t.name.clone()));
        let st = pair("source_types", string_array_value(&t.source_types));
        let tt = pair("target_types", string_array_value(&t.target_types));
        let fields = vec![d, nm, st, tt];
        assert(fields@[0].0@ == "description"@ && json_model(fields@[0].1) == JsonModel::String(t.description@));
        assert(fields@[1].0@ == "name"@ && json_model(fields@[1].1) == JsonModel::String(t.name@));
        assert(fields@[2].0@ == "source_types"@ && json_model(fields@[2].1) == string_array(t.source_types@));
        assert(fields@[3].0@ == "target_types"@ && json_model(fields@[3].1) == string_array(t.target_types@));
        let o = JsonValue::Object(fields);
        proof {
            if let JsonModel::Object(x) = json_model(o) {
                assert(x =~= seq![
                    ("description"@, JsonModel::String(t.description@)),
                    ("name"@, JsonModel::String(t.name@)),
                    ("source_types"@, string_array(t.source_types@)),
                    ("target_types"@, string_array(t.target_types@)),
                ]);
            }
        }
        edges.push(o);
        k = k + 1;
    }
    let ea = JsonValue::Array(edges);
    let na = JsonValue::Array(ents);
    proof {
        if let JsonModel::Array(x) = json_model(ea) {
            assert(x =~= Seq::new(ontology.edge_types@.len(), |i: int| edge_schema(ontology.edge_types@[i])));
        }
        if let JsonModel::Array(x) = json_model(na) {
            assert(x =~= Seq::new(ontology.entity_types@.len(), |i: int| entity_schema(ontology.entity_types@[i])));
        }
    }
    let ghost em = json_model(ea);
    let ghost nm = json_model(na);
    let r = JsonValue::Object(vec![pair("edge_types", ea), pair("entity_types", na)]);
    proof {
        if let JsonModel::Object(x) = json_model(r) {
            assert(x =~= seq![("edge_types"@, em), ("entity_types"@, nm)]);
        }
    }
    r
}

/// The text an ontology is generated from: the first 2000 bytes of the
/// documents where they are longer.
pub open spec fn ontology_sample(text: Seq<char>) -> Seq<char> {
    if crate::strs::utf8_bytes(text).len() > 2000 {
        crate::strs::byte_prefix(text, 2000)
    } else {
        text
    }
}

/// The user prompt for generating an ontology: the template with the
/// sample and the requirement filled in.
pub open spec fn ontology_prompt_text(text: Seq<char>, requirement: Seq<char>) -> Seq<char> {
    crate::strs::replace_all(
        crate::strs::replace_all(
            crate::prompts::ONTOLOGY_USER_PROMPT_TEMPLATE@,
            "{sample_text}"@,
            ontology_sample(text),
        ),
        "{simulation_requirement}"@,
        requirement,
    )
}

/// The user prompt for generating an ontology from `text`.
pub fn ontology_prompt(text: &str, simulation_requirement: &str) -> (r: String)
    requires
        crate::strs::cuttable_at(text@, 2000),
    ensures
        r@ == ontology_prompt_text(text@, simulation_requirement@),
{
    let sample = crate::strs::cut_bytes(text, 2000);
    proof {
        reveal_strlit("{sample_text}");
        reveal_strlit("{simulation_requirement}");
    }
    let a = crate::strs::replace_str(crate::prompts::ONTOLOGY_USER_PROMPT_TEMPLATE, "{sample_text}", sample);
    crate::strs::replace_str(a.as_str(), "{simulation_requirement}", simulation_requirement)
}

/// An entity type as the model answers it.
#[derive(Debug, Clone)]
pub struct EntityTypeResponse {
    pub name: String,
    pub description: String,
    pub attributes: Vec<EntityAttribute>,
}

/// An edge type as the model answers it.
#[derive(Debug, Clone)]
pub struct EdgeTypeResponse {
    pub name: String,
    pub description: String,
    pub source_types: Vec<String>,
    pub target_types: Vec<String>,
}

/// The model's answer when asked for an ontology.
#[derive(Debug, Clone)]
pub struct OntologyResponse {
    pub entity_types: Vec<EntityTypeResponse>,
    pub edge_types: Vec<EdgeTypeResponse>,
    pub analysis_summary: String,
}

/// The ontology an answer describes: its types one for one, in order.
pub open spec fn ontology_of_response(r: OntologyResponse, o: Ontology) -> bool {
    &&& o.entity_types@.len() == r.entity_types@.len()
    &&& o.edge_types@.len() == r.edge_types@.len()
    &&& o.analysis_summary == r.analysis_summary
    &&& forall|i: int|
        0 <= i < o.entity_types@.len() ==> {
            let (t, a) = (#[trigger] o.entity_types@[i], r.entity_types@[i]);
            t.name == a.name && t.description == a.description && t.attributes == a.attributes
        }
    &&& forall|i: int|
        0 <= i < o.edge_types@.len() ==> {
            let (t, a) = (#[trigger] o.edge_types@[i], r.edge_types@[i]);
            t.name == a.name && t.description == a.description && t.source_types == a.source_types
                && t.target_types == a.target_types
        }
}

/// The ontology that the model's answer describes.
pub fn ontology_from_response(response: OntologyResponse) -> (o: Ontology)
    ensures
        ontology_of_response(response, o),
{
    let ghost r = response;
    let OntologyResponse { entity_types, edge_types, analysis_summary } = response;
    let mut ents: Vec<EntityType> = Vec::new();
    let mut rest = entity_types;
    let ghost src = r.entity_types@;
    while rest.len() > 0
        invariant
            ents@.len() + rest@.len() == src.len(),
            rest@ == src.skip(ents@.len() as int),
            forall|i: int|
                0 <= i < ents@.len() ==> {
                    let (t, a) = (#[trigger] ents@[i], src[i]);
                    t.name == a.name && t.description == a.description && t.attributes == a.attributes
                },
        decreases rest.len(),
    {
        let ghost k: int = ents@.len() as int;
        let a = rest.remove(0);
        assert(a == src[k]);
        assert(rest@ =~= src.skip(k + 1));
        ents.push(EntityType { name: a.name, description: a.description, attributes: a.attributes });
    }
    let mut edges: Vec<EdgeType> = Vec::new();
    let mut rest = edge_types;
    let ghost src = r.edge_types@;
    while rest.len() > 0
        invariant
            edges@.len() + rest@.len() == src.len(),
            rest@ == src.skip(edges@.len() as int),
            forall|i: int|
                0 <= i < edges@.len() ==> {
                    let (t, a) = (#[trigger] edges@[i], src[i]);
                    t.name == a.name && t.description == a.description && t.source_types
                        == a.source_types && t.target_types == a.target_types
                },
        decreases rest.len(),
    {
        let ghost k: int = edges@.len() as int;
        let a = rest.remove(0);
        assert(a == src[k]);
        assert(rest@ =~= src.skip(k + 1));
        edges.push(
            EdgeType {
                name: a.name,
                description: a.description,
                source_types: a.source_types,
                target_types: a.target_types,
            },
        );
    }
    Ontology { entity_types: ents, edge_types: edges, analysis_summary }
}

/// The ontology the model generated, or an ontology error where it has no
/// entity types or no edge types.
pub fn check_generated_ontology(ontology: Ontology) -> (r: Result<Ontology, GraphError>)
    ensures
        ontology.entity_types@.len() > 0 && ontology.edge_types@.len() > 0 ==> r == Ok::<
            Ontology,
            GraphError,
        >(ontology),
        !(ontology.entity_types@.len() > 0 && ontology.edge_types@.len() > 0) ==> (r matches Err(
            GraphError::Ontology(m),
        ) && m@ == "Generated ontology is invalid: empty entity or edge types"@),
{
    if !ontology.is_valid() {
        return Err(GraphError::Ontology(owned("Generated ontology is invalid: empty entity or edge types")));
    }
    Ok(ontology)
}

/// Whether an ontology may be set on a graph: an ontology error where it
/// has no entity types or no edge types.
pub fn validate_ontology(ontology: &Ontology) -> (r: Result<(), GraphError>)
    ensures
        ontology.entity_types@.len() > 0 && ontology.edge_types@.len() > 0 ==> r is Ok,
        !(ontology.entity_types@.len() > 0 && ontology.edge_types@.len() > 0) ==> (r matches Err(
            GraphError::Ontology(m),
        ) && m@ == "Invalid ontology: empty entity or edge types"@),
{
    if !ontology.is_valid() {
        return Err(GraphError::Ontology(owned("Invalid ontology: empty entity or edge types")));
    }
    Ok(())
}

/// The identifier in a reply of the graph service: its string member
/// `uuid`, or a service error with `missing` as message.
pub fn uuid_from_reply(body: &JsonValue, missing: &str) -> (r: Result<String, GraphError>)
    ensures
        match json_as_str(json_get(*body, "uuid"@)) {
            Some(u) => r matches Ok(s) && s@ == u,
            None => r matches Err(GraphError::ZepApi(m)) && m@ == missing@,
        },
{
    proof {
        reveal_strlit("uuid");
    }
    match body.get("uuid") {
        Some(v) => match v.as_str() {
            Some(u) => Ok(owned(u)),
            None => Err(GraphError::ZepApi(owned(missing))),
        },
        None => Err(GraphError::ZepApi(owned(missing))),
    }
}

/// Whether a reply on an episode says its processing is complete; `false`
/// where it says nothing of it.
pub fn processing_complete(body: &JsonValue) -> (r: bool)
    ensures
        r == (crate::json::json_as_bool(json_get(*body, "processing_complete"@)) == Some(true)),
{
    match body.get("processing_complete") {
        Some(v) => match v.as_bool() {
            Some(b) => b,
            None => false,
        },
        None => false,
    }
}

/// The number of batches of three that `n` chunks make.
pub open spec fn batch_count(n: int) -> int {
    (n + 2) / 3
}

/// `Adding chunks batch <i + 1>/<batches>...`
pub open spec fn batch_message_text(batch_idx: int, total_chunks: int) -> Seq<char> {
    "Adding chunks batch "@ + decimal((batch_idx + 1) as nat) + "/"@ + decimal(
        batch_count(total_chunks) as nat,
    ) + "..."@
}

/// The progress message for adding batch `batch_idx` of `total_chunks`
/// chunks, three to a batch.
pub fn batch_message(batch_idx: usize, total_chunks: usize) -> (r: String)
    requires
        batch_idx < u64::MAX,
        total_chunks + 2 <= u64::MAX,
    ensures
        r@ == batch_message_text(batch_idx as int, total_chunks as int),
{
    let mut s = owned("Adding chunks batch ");
    push_str(&mut s, decimal_string(batch_idx as u64 + 1).as_str());
    push_str(&mut s, "/");
    push_str(&mut s, decimal_string((total_chunks as u64 + 2) / 3).as_str());
    push_str(&mut s, "...");
    s
}

/// What one round of checking the episodes decides.
#[derive(Debug, Clone, Copy, PartialEq, Eq, Structural)]
pub enum EpisodePoll {
    /// Every episode is processed: the wait is over.
    Done,
    /// Some episode is still being processed: check again after a pause.
    Wait,
    /// Some episode is still being processed after the last allowed round.
    TimedOut,
}

/// The number of checks that said the episode is processed (`Some(true)`);
/// `None` stands for a check that failed.
pub open spec fn processed_count(checks: Seq<Option<bool>>) -> nat
    decreases checks.len(),
{
    if checks.len() == 0 {
        0
    } else {
        processed_count(checks.drop_last()) + if checks.last() == Some(true) {
            1nat
        } else {
            0nat
        }
    }
}

/// No check said that its episode is still being processed; a failed
/// check does not hold the wait up.
pub open spec fn none_pending(checks: Seq<Option<bool>>) -> bool {
    forall|i: int| 0 <= i < checks.len() ==> checks[i] != Some(false)
}

/// The decision after round `attempt` (from 0) of at most `max_attempts`
/// rounds of checks, with the number of processed episodes to report.
pub fn episodes_poll(checks: &[Option<bool>], attempt: usize, max_attempts: usize) -> (r: (
    usize,
    EpisodePoll,
))
    requires
        attempt < max_attempts,
    ensures
        r.0 == processed_count(checks@),
        none_pending(checks@) ==> r.1 == EpisodePoll::Done,
        !none_pending(checks@) && attempt + 1 < max_attempts ==> r.1 == EpisodePoll::Wait,
        !none_pending(checks@) && attempt + 1 >= max_attempts ==> r.1 == EpisodePoll::TimedOut,
{
    let mut processed: usize = 0;
    let mut all_done = true;
    let mut i: usize = 0;
    while i < checks.len()
        invariant
            i <= checks@.len(),
            processed == processed_count(checks@.take(i as int)),
            processed <= i,
            all_done == none_pending(checks@.take(i as int)),
        decreases checks.len() - i,
    {
        assert(checks@.take(i + 1).drop_last() =~= checks@.take(i as int));
        match checks[i] {
            Some(true) => {
                processed = processed + 1;
            },
            Some(false) => {
                all_done = false;
            },
            None => {},
        }
        proof {
            let t = checks@.take(i + 1);
            if all_done {
                assert forall|j: int| 0 <= j < t.len() implies t[j] != Some(false) by {
                    if j < i {
                        assert(t[j] == checks@.take(i as int)[j]);
                    }
                }
            } else if checks@[i as int] == Some(false) {
                assert(t[i as int] == Some(false));
            } else {
                let w = choose|j: int| 0 <= j < i && checks@.take(i as int)[j] == Some(false);
                assert(t[w] == Some(false));
            }
        }
        i = i + 1;
    }
    assert(checks@.take(i as int) =~= checks@);
    let step = if all_done {
        EpisodePoll::Done
    } else if attempt + 1 < max_attempts {
        EpisodePoll::Wait
    } else {
        EpisodePoll::TimedOut
    };
    (processed, step)
}

/// `Processing <done>/<total> episodes...`
pub open spec fn episodes_message_text(done: int, total: int) -> Seq<char> {
    "Processing "@ + decimal(done as nat) + "/"@ + decimal(total as nat) + " episodes..."@
}

/// The progress message while waiting for episodes.
pub fn episodes_message(processed: usize, total: usize) -> (r: String)
    ensures
        r@ == episodes_message_text(processed as int, total as int),
{
    let mut s = owned("Processing ");
    push_str(&mut s, decimal_string(processed as u64).as_str());
    push_str(&mut s, "/");
    push_str(&mut s, decimal_string(total as u64).as_str());
    push_str(&mut s, " episodes...");
    s
}


/// The value of the first member named `key` among `fields`.
pub open spec fn first_member(fields: Seq<(Seq<char>, JsonModel)>, key: Seq<char>) -> Option<JsonModel>
    decreases fields.len(),
{
    if fields.len() == 0 {
        None
    } else if fields[0].0 == key {
        Some(fields[0].1)
    } else {
        first_member(fields.drop_first(), key)
    }
}

/// The member named `key` of a JSON object, as a reader looks it up.
pub open spec fn model_member(m: Option<JsonModel>, key: Seq<char>) -> Option<JsonModel> {
    match m {
        Some(JsonModel::Object(fields)) => first_member(fields, key),
        _ => None,
    }
}

/// Element `i` of a JSON array.
pub open spec fn model_element(m: Option<JsonModel>, i: int) -> Option<JsonModel> {
    match m {
        Some(JsonModel::Array(items)) => if 0 <= i < items.len() {
            Some(items[i])
        } else {
            None
        },
        _ => None,
    }
}

/// In the schema sent for an ontology, the entry of edge type `i` names
/// that edge type, and its "source_types" and "target_types" members list
/// exactly that edge type's source types and target types, in order: the
/// schema keeps the direction of every edge.
pub proof fn lemma_schema_keeps_edge_direction(o: Ontology, i: int)
    requires
        0 <= i < o.edge_types@.len(),
    ensures
        ({
            let e = o.edge_types@[i];
            let entry = model_element(model_member(Some(zep_schema(o)), "edge_types"@), i);
            &&& model_member(entry, "name"@) == Some(JsonModel::String(e.name@))
            &&& model_member(entry, "source_types"@) == Some(JsonModel::Array(
                Seq::new(e.source_types@.len(), |j: int| JsonModel::String(e.source_types@[j]@)),
            ))
            &&& model_member(entry, "target_types"@) == Some(JsonModel::Array(
                Seq::new(e.target_types@.len(), |j: int| JsonModel::String(e.target_types@[j]@)),
            ))
        }),
{
    reveal_strlit("edge_types");
    reveal_strlit("entity_types");
    reveal_strlit("description");
    reveal_strlit("name");
    reveal_strlit("source_types");
    reveal_strlit("target_types");
    reveal_with_fuel(first_member, 5);
    let e = o.edge_types@[i];
    let top = seq![
        ("edge_types"@, JsonModel::Array(
            Seq::new(o.edge_types@.len(), |k: int| edge_schema(o.edge_types@[k])),
        )),
        ("entity_types"@, JsonModel::Array(
            Seq::new(o.entity_types@.len(), |k: int| entity_schema(o.entity_types@[k])),
        )),
    ];
    assert(top[0].0 == "edge_types"@);
    let fs = seq![
        ("description"@, JsonModel::String(e.description@)),
        ("name"@, JsonModel::String(e.name@)),
        ("source_types"@, string_array(e.source_types@)),
        ("target_types"@, string_array(e.target_types@)),
    ];
    assert(fs.drop_first()[0].0 == "name"@);
    assert("description"@ != "name"@);
    assert("description"@[0] != "source_types"@[0]);
    assert("description"@ != "source_types"@);
    assert("name"@ != "source_types"@);
    assert("description"@[0] != "target_types"@[0]);
    assert("description"@ != "target_types"@);
    assert("name"@ != "target_types"@);
    assert("source_types"@ != "target_types"@);
    assert(fs.drop_first().drop_first()[0].0 == "source_types"@);
    assert(fs.drop_first().drop_first().drop_first()[0].0 == "target_types"@);
}

} // verus!
