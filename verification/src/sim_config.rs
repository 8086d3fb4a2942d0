//! Reading a simulation configuration from what the language model
//! answered: timing, initial events and platforms, each with defaults.
use vstd::prelude::*;

use crate::graph::ZepEntity;
use crate::json::{
    JsonValue, get_in, get_in_value, json_as_array, json_as_str, json_as_u64, json_get, str_or,
    str_value_or,
};
use crate::simulation::{EventConfig, HotTopic, InitialPost, PlatformConfig, PlatformDetailConfig};
use crate::strs::{
    decimal, decimal_string, first_chars, join, join_strings, owned, replace_all, replace_str,
    str_eq, take_chars, views,
};

verus! {

/// The timing of a simulation, but for its peak activity multiplier.
#[derive(Debug, Clone)]
pub struct TimeSettings {
    pub total_simulation_hours: u32,
    pub minutes_per_round: u32,
    pub peak_hours: Vec<usize>,
    pub off_peak_hours: Vec<usize>,
}

/// The peak hours: more of them for more than 50 entities.
pub open spec fn peak_hours_for(entities_count: usize) -> Seq<usize> {
    if entities_count > 50 {
        seq![8usize, 9usize, 10usize, 11usize, 12usize, 13usize, 14usize, 18usize, 19usize, 20usize, 21usize, 22usize]
    } else {
        seq![9usize, 12usize, 18usize, 21usize]
    }
}

/// The hours of the day, in order, that are not in `peak`.
pub open spec fn off_peak_of(peak: Seq<usize>) -> Seq<usize> {
    Seq::new(24, |h: int| h as usize).filter(|h: usize| !peak.contains(h))
}

/// The number of member `key` of `time_config`, or `d`, as a `u32`.
pub open spec fn time_value(data: JsonValue, key: Seq<char>, d: u64) -> u32 {
    match json_as_u64(get_in(json_get(data, "time_config"@), key)) {
        Some(n) => n as u32,
        None => d as u32,
    }
}

fn peak_hours_of(entities_count: usize) -> (r: Vec<usize>)
    ensures
        r@ == peak_hours_for(entities_count),
{
    if entities_count > 50 {
        let r = vec![8usize, 9, 10, 11, 12, 13, 14, 18, 19, 20, 21, 22];
        assert(r@ =~= peak_hours_for(entities_count));
        r
    } else {
        let r = vec![9usize, 12, 18, 21];
        assert(r@ =~= peak_hours_for(entities_count));
        r
    }
}

fn contains_hour(v: &Vec<usize>, h: usize) -> (r: bool)
    ensures
        r == v@.contains(h),
{
    let mut i: usize = 0;
    while i < v.len()
        invariant
            i <= v@.len(),
            forall|j: int| 0 <= j < i ==> v@[j] != h,
        decreases v.len() - i,
    {
        if v[i] == h {
            return true;
        }
        i = i + 1;
    }
    false
}

/// The timing that the model's answer `data` gives for `entities_count`
/// entities: 72 hours of 30-minute rounds where it says nothing.
pub fn parse_time_config(data: &JsonValue, entities_count: usize) -> (r: TimeSettings)
    ensures
        r.total_simulation_hours == time_value(*data, "total_simulation_hours"@, 72),
        r.minutes_per_round == time_value(*data, "minutes_per_round"@, 30),
        r.peak_hours@ == peak_hours_for(entities_count),
        r.off_peak_hours@ == off_peak_of(peak_hours_for(entities_count)),
{
    let t = data.get("time_config");
    let total_hours = match get_in_value(t, "total_simulation_hours") {
        Some(v) => match v.as_u64() {
            Some(n) => n as u32,
            None => 72,
        },
        None => 72,
    };
    let minutes_per_round = match get_in_value(t, "minutes_per_round") {
        Some(v) => match v.as_u64() {
            Some(n) => n as u32,
            None => 30,
        },
        None => 30,
    };
    let peak_hours = peak_hours_of(entities_count);
    let ghost pred = |h: usize| !peak_hours@.contains(h);
    let ghost all = Seq::new(24, |h: int| h as usize);
    let mut off: Vec<usize> = Vec::new();
    let mut h: usize = 0;
    while h < 24
        invariant
            h <= 24,
            all == Seq::new(24, |h: int| h as usize),
            pred == (|h: usize| !peak_hours@.contains(h)),
            off@ == all.take(h as int).filter(pred),
        decreases 24 - h,
    {
        proof {
            assert(all.take(h + 1).drop_last() =~= all.take(h as int));
            reveal(Seq::filter);
        }
        if !contains_hour(&peak_hours, h) {
            off.push(h);
        }
        h = h + 1;
    }
    assert(all.take(24) =~= all);
    TimeSettings { total_simulation_hours: total_hours, minutes_per_round, peak_hours, off_peak_hours: off }
}

/// The initial post that an element of the answer describes.
pub open spec fn initial_post_from(p: JsonValue, post: InitialPost) -> bool {
    &&& post.content@ == str_or(json_get(p, "content"@), Seq::empty())
    &&& post.topic@ == str_or(json_get(p, "topic"@), Seq::empty())
    &&& post.sentiment@ == str_or(json_get(p, "sentiment"@), "neutral"@)
}

/// The strings among the elements of an array, in order.
pub open spec fn strings_among(a: Seq<JsonValue>) -> Seq<Seq<char>>
    decreases a.len(),
{
    if a.len() == 0 {
        Seq::empty()
    } else {
        strings_among(a.drop_last()) + match a.last() {
            JsonValue::String(s) => seq![s@],
            _ => Seq::empty(),
        }
    }
}

/// The hot topic that an element of the answer describes.
pub open spec fn hot_topic_from(t: JsonValue, topic: HotTopic) -> bool {
    &&& topic.title@ == str_or(json_get(t, "title"@), Seq::empty())
    &&& topic.description@ == str_or(json_get(t, "description"@), Seq::empty())
    &&& views(topic.related_entities@) == match json_as_array(json_get(t, "related_entities"@)) {
        Some(a) => strings_among(a),
        None => Seq::empty(),
    }
}

/// The elements of member `key` of `event_config`, where it is an array.
pub open spec fn event_items(data: JsonValue, key: Seq<char>) -> Seq<JsonValue> {
    match json_as_array(get_in(json_get(data, "event_config"@), key)) {
        Some(a) => a,
        None => Seq::empty(),
    }
}

fn str_member(v: &JsonValue, key: &str, d: &str) -> (r: String)
    ensures
        r@ == str_or(json_get(*v, key@), d@),
{
    str_value_or(v.get(key), d)
}

fn strings_of(a: &Vec<JsonValue>) -> (r: Vec<String>)
    ensures
        views(r@) == strings_among(a@),
{
    let mut out: Vec<String> = Vec::new();
    let mut i: usize = 0;
    while i < a.len()
        invariant
            i <= a@.len(),
            views(out@) == strings_among(a@.take(i as int)),
        decreases a.len() - i,
    {
        assert(a@.take(i + 1).drop_last() =~= a@.take(i as int));
        match &a[i] {
            JsonValue::String(s) => {
                let ghost o0 = out@;
                out.push(s.clone());
                assert(views(out@) =~= views(o0).push(s@));
            },
            _ => {},
        }
        assert(views(out@) =~= strings_among(a@.take(i + 1)));
        i = i + 1;
    }
    assert(a@.take(i as int) =~= a@);
    out
}

fn no_strings() -> (r: Vec<String>)
    ensures
        views(r@) == Seq::<Seq<char>>::empty(),
{
    let r: Vec<String> = Vec::new();
    assert(views(r@) =~= Seq::<Seq<char>>::empty());
    r
}

fn event_array<'a>(data: &'a JsonValue, key: &str) -> (r: Option<&'a Vec<JsonValue>>)
    ensures
        match r {
            Some(a) => json_as_array(get_in(json_get(*data, "event_config"@), key@)) == Some(a@),
            None => json_as_array(get_in(json_get(*data, "event_config"@), key@)) is None,
        },
{
    match get_in_value(data.get("event_config"), key) {
        Some(v) => v.as_array(),
        None => None,
    }
}

/// The initial posts and hot topics that the model's answer `data` gives;
/// none of either where it gives no list of them.
pub fn parse_event_config(data: &JsonValue) -> (r: EventConfig)
    ensures
        r.initial_posts@.len() == event_items(*data, "initial_posts"@).len(),
        forall|i: int|
            0 <= i < r.initial_posts@.len() ==> initial_post_from(
                event_items(*data, "initial_posts"@)[i],
                #[trigger] r.initial_posts@[i],
            ),
        r.hot_topics@.len() == event_items(*data, "hot_topics"@).len(),
        forall|i: int|
            0 <= i < r.hot_topics@.len() ==> hot_topic_from(
                event_items(*data, "hot_topics"@)[i],
                #[trigger] r.hot_topics@[i],
            ),
{
    let mut posts: Vec<InitialPost> = Vec::new();
    if let Some(a) = event_array(data, "initial_posts") {
        let mut i: usize = 0;
        while i < a.len()
            invariant
                i <= a@.len(),
                a@ == event_items(*data, "initial_posts"@),
                posts@.len() == i,
                forall|j: int| 0 <= j < i ==> initial_post_from(a@[j], #[trigger] posts@[j]),
            decreases a.len() - i,
        {
            let p = &a[i];
            posts.push(
                InitialPost {
                    content: str_member(p, "content", ""),
                    topic: str_member(p, "topic", ""),
                    sentiment: str_member(p, "sentiment", "neutral"),
                },
            );
            proof {
                reveal_strlit("");
                assert(""@ =~= Seq::<char>::empty());
            }
            i = i + 1;
        }
    }
    let mut topics: Vec<HotTopic> = Vec::new();
    if let Some(a) = event_array(data, "hot_topics") {
        let mut i: usize = 0;
        while i < a.len()
            invariant
                i <= a@.len(),
                a@ == event_items(*data, "hot_topics"@),
                topics@.len() == i,
                forall|j: int| 0 <= j < i ==> hot_topic_from(a@[j], #[trigger] topics@[j]),
            decreases a.len() - i,
        {
            let t = &a[i];
            let related = match t.get("related_entities") {
                Some(v) => match v.as_array() {
                    Some(arr) => strings_of(arr),
                    None => no_strings(),
                },
                None => no_strings(),
            };
            proof {
                reveal_strlit("");
                assert(""@ =~= Seq::<char>::empty());
            }
            topics.push(
                HotTopic {
                    title: str_member(t, "title", ""),
                    description: str_member(t, "description", ""),
                    related_entities: related,
                },
            );
            i = i + 1;
        }
    }
    EventConfig { initial_posts: posts, hot_topics: topics }
}

/// The platform settings: on each enabled platform all entities take part,
/// with the first 50 characters of the requirement as topic.
pub fn platform_config(
    entities_count: usize,
    simulation_requirement: &str,
    enable_twitter: bool,
    enable_reddit: bool,
) -> (r: PlatformConfig)
    ensures
        enable_twitter ==> (r.twitter_config matches Some(c) && c.agent_count == entities_count
            && c.subreddit@ == "twitter"@ && c.topic@ == take_chars(simulation_requirement@, 50)),
        !enable_twitter ==> r.twitter_config is None,
        enable_reddit ==> (r.reddit_config matches Some(c) && c.agent_count == entities_count
            && c.subreddit@ == "simulation"@ && c.topic@ == take_chars(simulation_requirement@, 50)),
        !enable_reddit ==> r.reddit_config is None,
{
    let twitter_config = if enable_twitter {
        Some(
            PlatformDetailConfig {
                agent_count: entities_count,
                subreddit: owned("twitter"),
                topic: first_chars(simulation_requirement, 50),
            },
        )
    } else {
        None
    };
    let reddit_config = if enable_reddit {
        Some(
            PlatformDetailConfig {
                agent_count: entities_count,
                subreddit: owned("simulation"),
                topic: first_chars(simulation_requirement, 50),
            },
        )
    } else {
        None
    };
    PlatformConfig { twitter_config, reddit_config }
}

/// The reasoning the model gave for its configuration, or a default
/// sentence.
pub fn generation_reasoning(data: &JsonValue) -> (r: String)
    ensures
        r@ == str_or(
            json_get(*data, "generation_reasoning"@),
            "Configuration generated based on entity analysis and simulation requirements."@,
        ),
{
    str_member(
        data,
        "generation_reasoning",
        "Configuration generated based on entity analysis and simulation requirements.",
    )
}

/// The entity types of `es`, each once, in the order they first appear.
pub open spec fn distinct_types(es: Seq<ZepEntity>) -> Seq<Seq<char>>
    decreases es.len(),
{
    if es.len() == 0 {
        Seq::empty()
    } else {
        let before = distinct_types(es.drop_last());
        if before.contains(es.last().entity_type@) {
            before
        } else {
            before.push(es.last().entity_type@)
        }
    }
}

fn listed(v: &Vec<String>, t: &str) -> (r: bool)
    ensures
        r == views(v@).contains(t@),
{
    let mut i: usize = 0;
    while i < v.len()
        invariant
            i <= v@.len(),
            forall|j: int| 0 <= j < i ==> v@[j]@ != t@,
        decreases v.len() - i,
    {
        if str_eq(v[i].as_str(), t) {
            assert(views(v@)[i as int] == t@);
            return true;
        }
        i = i + 1;
    }
    let ghost vv = views(v@);
    assert(forall|j: int| 0 <= j < vv.len() ==> #[trigger] vv[j] != t@);
    false
}

/// The user prompt for generating a simulation configuration: the
/// requirement, the first 5000 characters of the documents, the number of
/// entities and their types (each once, as first met) filled in.
pub open spec fn sim_config_prompt_text(
    requirement: Seq<char>,
    document_text: Seq<char>,
    es: Seq<ZepEntity>,
) -> Seq<char> {
    replace_all(
        replace_all(
            replace_all(
                replace_all(
                    crate::prompts::SIM_CONFIG_USER_PROMPT_TEMPLATE@,
                    "{simulation_requirement}"@,
                    requirement,
                ),
                "{document_text}"@,
                take_chars(document_text, 5000),
            ),
            "{entities_count}"@,
            decimal(es.len()),
        ),
        "{entity_types}"@,
        join(distinct_types(es), ", "@),
    )
}

/// The user prompt for generating a simulation configuration.
pub fn sim_config_prompt(simulation_requirement: &str, document_text: &str, entities: &[ZepEntity]) -> (r:
    String)
    ensures
        r@ == sim_config_prompt_text(simulation_requirement@, document_text@, entities@),
{
    let mut types: Vec<String> = Vec::new();
    let mut i: usize = 0;
    while i < entities.len()
        invariant
            i <= entities@.len(),
            views(types@) == distinct_types(entities@.take(i as int)),
        decreases entities.len() - i,
    {
        assert(entities@.take(i + 1).drop_last() =~= entities@.take(i as int));
        let t = entities[i].entity_type.as_str();
        if !listed(&types, t) {
            let ghost t0 = types@;
            types.push(owned(t));
            assert(views(types@) =~= views(t0).push(t@));
        }
        i = i + 1;
    }
    assert(entities@.take(i as int) =~= entities@);
    proof {
        reveal_strlit("{simulation_requirement}");
        reveal_strlit("{document_text}");
        reveal_strlit("{entities_count}");
        reveal_strlit("{entity_types}");
    }
    let a = replace_str(crate::prompts::SIM_CONFIG_USER_PROMPT_TEMPLATE, "{simulation_requirement}", simulation_requirement);
    let doc = first_chars(document_text, 5000);
    let b = replace_str(a.as_str(), "{document_text}", doc.as_str());
    let count = decimal_string(entities.len() as u64);
    let c = replace_str(b.as_str(), "{entities_count}", count.as_str());
    let joined = join_strings(&types, ", ");
    replace_str(c.as_str(), "{entity_types}", joined.as_str())
}

} // verus!
