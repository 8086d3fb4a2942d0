//! Agent profiles made from graph entities: by hand, or from what the
//! language model answered, with defaults for whatever it left out.
use vstd::prelude::*;

use crate::graph::ZepEntity;
use crate::json::{
    JsonValue, get_in, get_in_value, json_get, json_string_list, json_string_table,
    json_usize_list, str_or, str_value_or, string_list, string_table, usize_list,
};
use crate::simulation::{ActivityPattern, AgentProfile, Demographics, Persona};
use crate::strs::{first_chars, owned, push_str, replace_all, replace_str, take_chars, views};

verus! {

/// `user_` and the first eight characters of the entity's identifier.
pub open spec fn default_username(uuid: Seq<char>) -> Seq<char> {
    "user_"@ + take_chars(uuid, 8)
}

/// The text of an optional string, or the empty text.
pub open spec fn opt_text(s: Option<String>) -> Seq<char> {
    match s {
        Some(t) => t@,
        None => Seq::empty(),
    }
}

/// The hours an agent is most active at, where nothing else is said.
pub open spec fn default_peak_hours() -> Seq<usize> {
    seq![9usize, 12usize, 18usize, 21usize]
}

/// The profile made by hand for entity `e`, agent number `index`.
pub open spec fn is_manual_profile(p: AgentProfile, e: ZepEntity, index: usize) -> bool {
    &&& p.agent_id == index
    &&& p.name@ == e.name@
    &&& p.username@ == default_username(e.uuid@)
    &&& p.bio@ == opt_text(e.summary)
    &&& p.persona.personality_traits@.len() == 0
    &&& p.persona.interests@.len() == 0
    &&& p.persona.behavioral_tendencies@.len() == 0
    &&& p.persona.communication_style@ == "neutral"@
    &&& p.persona.stance_on_topic@ == Seq::<char>::empty()
    &&& p.demographics.age_group@ == "unknown"@
    &&& p.demographics.gender@ == "unknown"@
    &&& p.demographics.occupation@ == e.entity_type@
    &&& p.demographics.location@ == "unknown"@
    &&& p.demographics.education@ == "unknown"@
    &&& p.activity_pattern.activity_level@ == "medium"@
    &&& p.activity_pattern.posting_frequency@ == "normal"@
    &&& p.activity_pattern.peak_hours@ == default_peak_hours()
    &&& p.activity_pattern.preferred_topics@.len() == 0
    &&& p.initial_beliefs@.len() == 0
    &&& p.social_network@.len() == 0
}

fn username_for(uuid: &str) -> (r: String)
    ensures
        r@ == default_username(uuid@),
{
    let mut s = owned("user_");
    push_str(&mut s, first_chars(uuid, 8).as_str());
    s
}

fn text_or_empty(s: &Option<String>) -> (r: String)
    ensures
        r@ == opt_text(*s),
{
    match s {
        Some(t) => t.clone(),
        None => String::new(),
    }
}

fn peak_hours_default() -> (r: Vec<usize>)
    ensures
        r@ == default_peak_hours(),
{
    let r = vec![9usize, 12, 18, 21];
    assert(r@ =~= default_peak_hours());
    r
}

/// The profile of entity `entity` made without the language model, as
/// agent number `index`.
pub fn generate_profile_manual(entity: &ZepEntity, index: usize) -> (r: AgentProfile)
    ensures
        is_manual_profile(r, *entity, index),
{
    AgentProfile {
        agent_id: index,
        name: entity.name.clone(),
        username: username_for(entity.uuid.as_str()),
        bio: text_or_empty(&entity.summary),
        persona: Persona {
            personality_traits: Vec::new(),
            interests: Vec::new(),
            behavioral_tendencies: Vec::new(),
            communication_style: owned("neutral"),
            stance_on_topic: String::new(),
        },
        demographics: Demographics {
            age_group: owned("unknown"),
            gender: owned("unknown"),
            occupation: entity.entity_type.clone(),
            location: owned("unknown"),
            education: owned("unknown"),
        },
        activity_pattern: ActivityPattern {
            activity_level: owned("medium"),
            posting_frequency: owned("normal"),
            peak_hours: peak_hours_default(),
            preferred_topics: Vec::new(),
        },
        initial_beliefs: Vec::new(),
        social_network: Vec::new(),
    }
}

/// The text of member `key` of the section `section` of `data`, or `d`.
pub open spec fn nested_str(data: JsonValue, section: Seq<char>, key: Seq<char>, d: Seq<char>) -> Seq<
    char,
> {
    str_or(get_in(json_get(data, section), key), d)
}

/// A string list read from member `key` of section `section`, or none.
pub open spec fn nested_list(data: JsonValue, section: Seq<char>, key: Seq<char>) -> Seq<Seq<char>> {
    match json_string_list(get_in(json_get(data, section), key)) {
        Some(l) => l,
        None => Seq::empty(),
    }
}

/// A string table read from member `key` of section `section`, or none.
pub open spec fn nested_table(data: JsonValue, section: Seq<char>, key: Seq<char>) -> Seq<
    (Seq<char>, Seq<char>),
> {
    match json_string_table(get_in(json_get(data, section), key)) {
        Some(t) => t,
        None => Seq::empty(),
    }
}

/// The profile that a model's answer `data` describes for entity `e`,
/// each field defaulting where the answer does not give it as expected.
pub open spec fn is_profile_from(p: AgentProfile, data: JsonValue, e: ZepEntity) -> bool {
    &&& p.agent_id == 0
    &&& p.name@ == str_or(json_get(data, "name"@), e.name@)
    &&& p.username@ == str_or(json_get(data, "username"@), default_username(e.uuid@))
    &&& p.bio@ == str_or(json_get(data, "bio"@), opt_text(e.summary))
    &&& p.persona.personality_traits@.map_values(|t: (String, String)| (t.0@, t.1@))
        == nested_table(data, "persona"@, "personality_traits"@)
    &&& views(p.persona.interests@) == nested_list(data, "persona"@, "interests"@)
    &&& p.persona.behavioral_tendencies@.map_values(|t: (String, String)| (t.0@, t.1@))
        == nested_table(data, "persona"@, "behavioral_tendencies"@)
    &&& p.persona.communication_style@ == nested_str(
        data,
        "persona"@,
        "communication_style"@,
        "neutral"@,
    )
    &&& p.persona.stance_on_topic@ == nested_str(data, "persona"@, "stance_on_topic"@, Seq::empty())
    &&& p.demographics.age_group@ == nested_str(data, "demographics"@, "age_group"@, "unknown"@)
    &&& p.demographics.gender@ == nested_str(data, "demographics"@, "gender"@, "unknown"@)
    &&& p.demographics.occupation@ == nested_str(data, "demographics"@, "occupation"@, "unknown"@)
    &&& p.demographics.location@ == nested_str(data, "demographics"@, "location"@, "unknown"@)
    &&& p.demographics.education@ == nested_str(data, "demographics"@, "education"@, "unknown"@)
    &&& p.activity_pattern.activity_level@ == nested_str(
        data,
        "activity_pattern"@,
        "activity_level"@,
        "medium"@,
    )
    &&& p.activity_pattern.posting_frequency@ == nested_str(
        data,
        "activity_pattern"@,
        "posting_frequency"@,
        "normal"@,
    )
    &&& p.activity_pattern.peak_hours@ == match json_usize_list(
        get_in(json_get(data, "activity_pattern"@), "peak_hours"@),
    ) {
        Some(h) => h,
        None => default_peak_hours(),
    }
    &&& views(p.activity_pattern.preferred_topics@) == nested_list(
        data,
        "activity_pattern"@,
        "preferred_topics"@,
    )
    &&& p.initial_beliefs@.len() == 0
    &&& p.social_network@.len() == 0
}

fn opt_ref(v: Option<&JsonValue>) -> (r: Option<&JsonValue>)
    ensures
        r == v,
{
    v
}

/// The text of member `key` of section `section` of `data`, or `d`.
fn section_str(data: &JsonValue, section: &str, key: &str, d: &str) -> (r: String)
    ensures
        r@ == str_or(get_in(json_get(*data, section@), key@), d@),
{
    let s = data.get(section);
    let v = get_in_value(s, key);
    str_value_or(v, d)
}

fn section_list(data: &JsonValue, section: &str, key: &str) -> (r: Vec<String>)
    ensures
        views(r@) == match json_string_list(get_in(json_get(*data, section@), key@)) {
            Some(l) => l,
            None => Seq::empty(),
        },
{
    let s = data.get(section);
    let v = get_in_value(s, key);
    match string_list(v) {
        Some(l) => l,
        None => Vec::new(),
    }
}

fn section_table(data: &JsonValue, section: &str, key: &str) -> (r: Vec<(String, String)>)
    ensures
        r@.map_values(|t: (String, String)| (t.0@, t.1@)) == match json_string_table(
            get_in(json_get(*data, section@), key@),
        ) {
            Some(t) => t,
            None => Seq::empty(),
        },
{
    let s = data.get(section);
    let v = get_in_value(s, key);
    match string_table(v) {
        Some(t) => t,
        None => {
            let e: Vec<(String, String)> = Vec::new();
            assert(e@.map_values(|t: (String, String)| (t.0@, t.1@)) =~= Seq::empty());
            e
        },
    }
}

/// The profile that the model's answer `data` describes for `entity`.
pub fn profile_from_json(data: &JsonValue, entity: &ZepEntity) -> (r: AgentProfile)
    ensures
        is_profile_from(r, *data, *entity),
{
    let default_name = entity.name.clone();
    let name = str_value_or(data.get("name"), default_name.as_str());
    let default_user = username_for(entity.uuid.as_str());
    let username = str_value_or(data.get("username"), default_user.as_str());
    let default_bio = text_or_empty(&entity.summary);
    let bio = str_value_or(data.get("bio"), default_bio.as_str());
    let pa = data.get("activity_pattern");
    proof {
        reveal_strlit("");
        assert(""@ =~= Seq::<char>::empty());
    }
    let peak_hours = match usize_list(get_in_value(pa, "peak_hours")) {
        Some(h) => h,
        None => peak_hours_default(),
    };
    let r = AgentProfile {
        agent_id: 0,
        name,
        username,
        bio,
        persona: Persona {
            personality_traits: section_table(data, "persona", "personality_traits"),
            interests: section_list(data, "persona", "interests"),
            behavioral_tendencies: section_table(data, "persona", "behavioral_tendencies"),
            communication_style: section_str(data, "persona", "communication_style", "neutral"),
            stance_on_topic: section_str(data, "persona", "stance_on_topic", ""),
        },
        demographics: Demographics {
            age_group: section_str(data, "demographics", "age_group", "unknown"),
            gender: section_str(data, "demographics", "gender", "unknown"),
            occupation: section_str(data, "demographics", "occupation", "unknown"),
            location: section_str(data, "demographics", "location", "unknown"),
            education: section_str(data, "demographics", "education", "unknown"),
        },
        activity_pattern: ActivityPattern {
            activity_level: section_str(data, "activity_pattern", "activity_level", "medium"),
            posting_frequency: section_str(data, "activity_pattern", "posting_frequency", "normal"),
            peak_hours,
            preferred_topics: section_list(data, "activity_pattern", "preferred_topics"),
        },
        initial_beliefs: Vec::new(),
        social_network: Vec::new(),
    };
    assert(r.name@ == str_or(json_get(*data, "name"@), entity.name@));
    assert(r.username@ == str_or(json_get(*data, "username"@), default_username(entity.uuid@)));
    assert(r.bio@ == str_or(json_get(*data, "bio"@), opt_text(entity.summary)));
    assert(r.persona.stance_on_topic@ == nested_str(*data, "persona"@, "stance_on_topic"@, Seq::empty()));
    assert(r.activity_pattern.peak_hours@ == match json_usize_list(
        get_in(json_get(*data, "activity_pattern"@), "peak_hours"@),
    ) {
        Some(h) => h,
        None => default_peak_hours(),
    });
    r
}

/// The user prompt for generating the profile of `entity`: the template
/// with the entity's name, type, description, attributes (as JSON text),
/// no relations, and the requirement filled in.
pub open spec fn profile_prompt_text(
    e: ZepEntity,
    attributes: Seq<char>,
    requirement: Seq<char>,
) -> Seq<char> {
    replace_all(
        replace_all(
            replace_all(
                replace_all(
                    replace_all(
                        replace_all(
                            crate::prompts::PROFILE_USER_PROMPT_TEMPLATE@,
                            "{entity_name}"@,
                            e.name@,
                        ),
                        "{entity_type}"@,
                        e.entity_type@,
                    ),
                    "{entity_description}"@,
                    opt_text(e.description),
                ),
                "{entity_attributes}"@,
                attributes,
            ),
            "{entity_relations}"@,
            Seq::empty(),
        ),
        "{simulation_requirement}"@,
        requirement,
    )
}

/// The user prompt for generating the profile of `entity`, given its
/// attributes as JSON text (empty where it has none).
pub fn profile_prompt(entity: &ZepEntity, entity_attributes: &str, simulation_requirement: &str) -> (r:
    String)
    ensures
        r@ == profile_prompt_text(*entity, entity_attributes@, simulation_requirement@),
{
    proof {
        reveal_strlit("{entity_name}");
        reveal_strlit("{entity_type}");
        reveal_strlit("{entity_description}");
        reveal_strlit("{entity_attributes}");
        reveal_strlit("{entity_relations}");
        reveal_strlit("{simulation_requirement}");
        reveal_strlit("");
        assert(""@ =~= Seq::<char>::empty());
    }
    let desc = text_or_empty(&entity.description);
    let a = replace_str(crate::prompts::PROFILE_USER_PROMPT_TEMPLATE, "{entity_name}", entity.name.as_str());
    let b = replace_str(a.as_str(), "{entity_type}", entity.entity_type.as_str());
    let c = replace_str(b.as_str(), "{entity_description}", desc.as_str());
    let d = replace_str(c.as_str(), "{entity_attributes}", entity_attributes);
    let e = replace_str(d.as_str(), "{entity_relations}", "");
    replace_str(e.as_str(), "{simulation_requirement}", simulation_requirement)
}

} // verus!
