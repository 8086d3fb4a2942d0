//! The in-memory store of generated reports: by report, and by the
//! simulation each report is about.
use vstd::prelude::*;

use crate::json::{JsonModel, JsonNumber, JsonValue, json_model};
use crate::ontology::{distinct_names, first_index, lemma_first_index_absent, lemma_first_index_at};
use crate::strs::{decimal, decimal_string, lex_lt, lemma_lex_trans, lemma_lex_trichotomy, owned, push_str, str_eq, str_less, views};

verus! {

/// A section of a stored report.
#[derive(Debug, Clone)]
pub struct ReportSection {
    pub index: usize,
    pub title: String,
    pub content: String,
}

/// A stored report.
#[derive(Debug, Clone)]
pub struct StoredReport {
    pub report_id: String,
    pub simulation_id: String,
    pub status: String,
    pub sections: Vec<ReportSection>,
    pub markdown_content: String,
    /// Nanoseconds since the Unix epoch.
    pub created_at: i64,
    pub completed_at: Option<i64>,
    pub error: Option<String>,
}

/// The RFC 3339 text of a time given in nanoseconds since the Unix epoch,
/// as chrono writes it.
pub uninterp spec fn rfc3339_text(nanos: i64) -> Seq<char>;

/// Formats a time with chrono (`DateTime::from_timestamp_nanos`, which
/// holds every such count, then `DateTime::to_rfc3339`). The text is named,
/// not described: it is whatever chrono writes for that time.
#[verifier::external_body]
fn rfc3339(nanos: i64) -> (r: String)
    ensures
        r@ == rfc3339_text(nanos),
{
    chrono::DateTime::from_timestamp_nanos(nanos).to_rfc3339()
}

/// A time as a JSON value: its RFC 3339 text.
pub open spec fn time_json(nanos: i64) -> JsonModel {
    JsonModel::String(rfc3339_text(nanos))
}

/// An optional time as a JSON value.
pub open spec fn opt_time_json(nanos: Option<i64>) -> JsonModel {
    match nanos {
        Some(m) => time_json(m),
        None => JsonModel::Null,
    }
}

/// An optional text as a JSON value.
pub open spec fn opt_text_json(s: Option<String>) -> JsonModel {
    match s {
        Some(t) => JsonModel::String(t@),
        None => JsonModel::Null,
    }
}

/// A section as JSON.
pub open spec fn section_json(s: ReportSection) -> JsonModel {
    JsonModel::Object(
        seq![
            ("content"@, JsonModel::String(s.content@)),
            ("index"@, JsonModel::Number(JsonNumber::PosInt(s.index as u64))),
            ("title"@, JsonModel::String(s.title@)),
        ],
    )
}

/// A stored report as JSON, its members in order of name.
pub open spec fn report_json(r: StoredReport) -> JsonModel {
    JsonModel::Object(
        seq![
            ("completed_at"@, opt_time_json(r.completed_at)),
            ("created_at"@, time_json(r.created_at)),
            ("error"@, opt_text_json(r.error)),
            ("markdown_content"@, JsonModel::String(r.markdown_content@)),
            ("report_id"@, JsonModel::String(r.report_id@)),
            ("sections"@, JsonModel::Array(
                Seq::new(r.sections@.len(), |i: int| section_json(r.sections@[i])),
            )),
            ("simulation_id"@, JsonModel::String(r.simulation_id@)),
            ("status"@, JsonModel::String(r.status@)),
        ],
    )
}

fn time_value(nanos: i64) -> (r: JsonValue)
    ensures
        json_model(r) == time_json(nanos),
{
    JsonValue::String(rfc3339(nanos))
}

fn text_value(s: &Option<String>) -> (r: JsonValue)
    ensures
        json_model(r) == opt_text_json(*s),
{
    match s {
        Some(t) => JsonValue::String(t.clone()),
        None => JsonValue::Null,
    }
}

impl StoredReport {
    /// The report as JSON.
    pub fn to_json(&self) -> (r: JsonValue)
        ensures
            json_model(r) == report_json(*self),
    {
        let mut secs: Vec<JsonValue> = Vec::new();
        let mut i: usize = 0;
        while i < self.sections.len()
            invariant
                i <= self.sections@.len(),
                secs@.len() == i,
                forall|j: int| 0 <= j < i ==> json_model(#[trigger] secs@[j]) == section_json(self.sections@[j]),
            decreases self.sections.len() - i,
        {
            let s = &self.sections[i];
            let a = (owned("content"), JsonValue::String(s.content.clone()));
            let b = (owned("index"), JsonValue::Number(JsonNumber::PosInt(s.index as u64)));
            let c = (owned("title"), JsonValue::String(s.title.clone()));
            let fields = vec![a, b, c];
            assert(fields@[0].0@ == "content"@ && json_model(fields@[0].1) == JsonModel::String(s.content@));
            assert(fields@[1].0@ == "index"@ && json_model(fields@[1].1) == JsonModel::Number(JsonNumber::PosInt(s.index as u64)));
            assert(fields@[2].0@ == "title"@ && json_model(fields@[2].1) == JsonModel::String(s.title@));
            let o = JsonValue::Object(fields);
            proof {
                if let JsonModel::Object(x) = json_model(o) {
                    assert(x =~= seq![
                        ("content"@, JsonModel::String(s.content@)),
                        ("index"@, JsonModel::Number(JsonNumber::PosInt(s.index as u64))),
                        ("title"@, JsonModel::String(s.title@)),
                    ]);
                }
            }
            secs.push(o);
            i = i + 1;
        }
        let sections = JsonValue::Array(secs);
        proof {
            if let JsonModel::Array(x) = json_model(sections) {
                assert(x =~= Seq::new(self.sections@.len(), |i: int| section_json(self.sections@[i])));
            }
        }
        let completed = match self.completed_at {
            Some(m) => time_value(m),
            None => JsonValue::Null,
        };
        let f0 = (owned("completed_at"), completed);
        let f1 = (owned("created_at"), time_value(self.created_at));
        let f2 = (owned("error"), text_value(&self.error));
        let f3 = (owned("markdown_content"), JsonValue::String(self.markdown_content.clone()));
        let f4 = (owned("report_id"), JsonValue::String(self.report_id.clone()));
        let f5 = (owned("sections"), sections);
        let f6 = (owned("simulation_id"), JsonValue::String(self.simulation_id.clone()));
        let f7 = (owned("status"), JsonValue::String(self.status.clone()));
        let ghost m = seq![
            (f0.0@, json_model(f0.1)),
            (f1.0@, json_model(f1.1)),
            (f2.0@, json_model(f2.1)),
            (f3.0@, json_model(f3.1)),
            (f4.0@, json_model(f4.1)),
            (f5.0@, json_model(f5.1)),
            (f6.0@, json_model(f6.1)),
            (f7.0@, json_model(f7.1)),
        ];
        let fields = vec![f0, f1, f2, f3, f4, f5, f6, f7];
        let r = JsonValue::Object(fields);
        proof {
            if let JsonModel::Object(x) = json_model(r) {
                assert(x =~= m);
            }
        }
        r
    }
}

/// The identifiers of a sequence of reports.
pub open spec fn report_ids(rs: Seq<StoredReport>) -> Seq<Seq<char>> {
    rs.map_values(|r: StoredReport| r.report_id@)
}

/// The simulations of a sequence of links.
pub open spec fn link_keys(ls: Seq<(String, String)>) -> Seq<Seq<char>> {
    ls.map_values(|l: (String, String)| l.0@)
}

/// The report with identifier `id` among `rs`.
pub open spec fn report_in(rs: Seq<StoredReport>, id: Seq<char>) -> Option<StoredReport> {
    match first_index(report_ids(rs), id) {
        Some(i) => Some(rs[i]),
        None => None,
    }
}

/// The report identifier linked to simulation `sim` among `ls`.
pub open spec fn link_in(ls: Seq<(String, String)>, sim: Seq<char>) -> Option<Seq<char>> {
    match first_index(link_keys(ls), sim) {
        Some(i) => Some(ls[i].1@),
        None => None,
    }
}

/// Where the keys are distinct, the entry found for a key present at `k`
/// is the one at `k`, and a key absent is found nowhere.
proof fn lemma_keys(names: Seq<Seq<char>>, key: Seq<char>) -> (k: Option<int>)
    requires
        distinct_names(names),
    ensures
        match k {
            Some(i) => 0 <= i < names.len() && names[i] == key && first_index(names, key) == Some(i),
            None => first_index(names, key) is None && forall|j: int|
                0 <= j < names.len() ==> names[j] != key,
        },
{
    if exists|i: int| 0 <= i < names.len() && names[i] == key {
        let i = choose|i: int| 0 <= i < names.len() && names[i] == key;
        lemma_first_index_at(names, i);
        Some(i)
    } else {
        lemma_first_index_absent(names, key);
        None
    }
}

/// Pushing a new key keeps the lookups of the other keys.
proof fn lemma_push_key(names: Seq<Seq<char>>, x: Seq<char>, key: Seq<char>)
    requires
        distinct_names(names),
        forall|j: int| 0 <= j < names.len() ==> names[j] != x,
    ensures
        distinct_names(names.push(x)),
        key != x ==> first_index(names.push(x), key) == first_index(names, key),
        first_index(names.push(x), x) == Some(names.len() as int),
{
    let m = names.push(x);
    assert(distinct_names(m)) by {
        assert forall|i: int, j: int| 0 <= i < m.len() && 0 <= j < m.len() && i != j implies m[i] != m[j] by {
            if i < names.len() && j < names.len() {
                assert(m[i] == names[i] && m[j] == names[j]);
            } else if i < names.len() {
                assert(m[i] == names[i]);
            } else {
                assert(m[j] == names[j]);
            }
        }
    }
    lemma_first_index_at(m, names.len() as int);
    if key == x {
        return;
    }
    match lemma_keys(names, key) {
        Some(i) => {
            assert(m[i] == key);
            lemma_first_index_at(m, i);
        },
        None => {
            assert forall|j: int| 0 <= j < m.len() implies m[j] != key by {
                if j < names.len() {
                    assert(m[j] == names[j]);
                }
            }
            lemma_first_index_absent(m, key);
        },
    }
}

/// Removing the entry at `k` keeps the lookups of the other keys.
proof fn lemma_remove_key(names: Seq<Seq<char>>, k: int, key: Seq<char>)
    requires
        distinct_names(names),
        0 <= k < names.len(),
    ensures
        distinct_names(names.remove(k)),
        key != names[k] ==> match first_index(names, key) {
            Some(i) => first_index(names.remove(k), key) == Some(if i < k { i } else { i - 1 }),
            None => first_index(names.remove(k), key) is None,
        },
        first_index(names.remove(k), names[k]) is None,
{
    let m = names.remove(k);
    assert(distinct_names(m)) by {
        assert forall|i: int, j: int| 0 <= i < m.len() && 0 <= j < m.len() && i != j implies m[i] != m[j] by {
            let i2 = if i < k { i } else { i + 1 };
            let j2 = if j < k { j } else { j + 1 };
            assert(m[i] == names[i2] && m[j] == names[j2]);
        }
    }
    assert forall|j: int| 0 <= j < m.len() implies m[j] != names[k] by {
        let j2 = if j < k { j } else { j + 1 };
        assert(m[j] == names[j2]);
    }
    lemma_first_index_absent(m, names[k]);
    if key == names[k] {
        return;
    }
    match lemma_keys(names, key) {
        Some(i) => {
            let i2 = if i < k { i } else { i - 1 };
            assert(m[i2] == key);
            lemma_first_index_at(m, i2);
        },
        None => {
            assert forall|j: int| 0 <= j < m.len() implies m[j] != key by {
                let j2 = if j < k { j } else { j + 1 };
                assert(m[j] == names[j2]);
            }
            lemma_first_index_absent(m, key);
        },
    }
}

/// The in-memory report store.
pub struct ReportStore {
    reports: Vec<StoredReport>,
    simulation_to_report: Vec<(String, String)>,
}

impl ReportStore {
    /// The stored reports, in order of first storage.
    pub closed spec fn reports(self) -> Seq<StoredReport> {
        self.reports@
    }

    /// The links from simulation to report.
    pub closed spec fn links(self) -> Seq<(String, String)> {
        self.simulation_to_report@
    }

    /// The store's invariant: one report per identifier, one link per
    /// simulation.
    pub open spec fn wf(self) -> bool {
        &&& distinct_names(report_ids(self.reports()))
        &&& distinct_names(link_keys(self.links()))
    }

    /// The report stored under `id`.
    pub open spec fn report(self, id: Seq<char>) -> Option<StoredReport> {
        report_in(self.reports(), id)
    }

    /// The report identifier linked to simulation `sim`.
    pub open spec fn linked(self, sim: Seq<char>) -> Option<Seq<char>> {
        link_in(self.links(), sim)
    }

    /// An empty store.
    pub fn new() -> (r: Self)
        ensures
            r.wf(),
            forall|id: Seq<char>| r.report(id) is None,
            forall|sim: Seq<char>| r.linked(sim) is None,
    {
        let r = ReportStore { reports: Vec::new(), simulation_to_report: Vec::new() };
        assert forall|id: Seq<char>| r.report(id) is None by {
            lemma_first_index_absent(report_ids(r.reports@), id);
        }
        assert forall|sim: Seq<char>| r.linked(sim) is None by {
            lemma_first_index_absent(link_keys(r.simulation_to_report@), sim);
        }
        r
    }

    fn report_index(&self, id: &str) -> (r: Option<usize>)
        requires
            self.wf(),
        ensures
            match r {
                Some(k) => k < self.reports().len() && self.reports()[k as int].report_id@ == id@
                    && first_index(report_ids(self.reports()), id@) == Some(k as int),
                None => first_index(report_ids(self.reports()), id@) is None,
            },
    {
        let ghost ids = report_ids(self.reports@);
        let mut i: usize = 0;
        while i < self.reports.len()
            invariant
                i <= self.reports@.len(),
                ids == report_ids(self.reports@),
                distinct_names(ids),
                forall|j: int| 0 <= j < i ==> ids[j] != id@,
            decreases self.reports.len() - i,
        {
            if str_eq(self.reports[i].report_id.as_str(), id) {
                proof {
                    assert(ids[i as int] == id@);
                    lemma_first_index_at(ids, i as int);
                }
                return Some(i);
            }
            i = i + 1;
        }
        proof {
            lemma_first_index_absent(ids, id@);
        }
        None
    }

    fn link_index(&self, sim: &str) -> (r: Option<usize>)
        requires
            self.wf(),
        ensures
            match r {
                Some(k) => k < self.links().len() && self.links()[k as int].0@ == sim@
                    && first_index(link_keys(self.links()), sim@) == Some(k as int),
                None => first_index(link_keys(self.links()), sim@) is None,
            },
    {
        let ghost keys = link_keys(self.simulation_to_report@);
        let mut i: usize = 0;
        while i < self.simulation_to_report.len()
            invariant
                i <= self.simulation_to_report@.len(),
                keys == link_keys(self.simulation_to_report@),
                distinct_names(keys),
                forall|j: int| 0 <= j < i ==> keys[j] != sim@,
            decreases self.simulation_to_report.len() - i,
        {
            if str_eq(self.simulation_to_report[i].0.as_str(), sim) {
                proof {
                    assert(keys[i as int] == sim@);
                    lemma_first_index_at(keys, i as int);
                }
                return Some(i);
            }
            i = i + 1;
        }
        proof {
            lemma_first_index_absent(keys, sim@);
        }
        None
    }
}

impl ReportStore {
    fn put_report(&mut self, report: StoredReport)
        requires
            old(self).wf(),
        ensures
            distinct_names(report_ids(final(self).reports())),
            final(self).links() == old(self).links(),
            final(self).report(report.report_id@) == Some(report),
            forall|id: Seq<char>| id != report.report_id@ ==> final(self).report(id) == old(self).report(id),
    {
        let ghost r = report;
        let ghost ids0 = report_ids(self.reports@);
        match self.report_index(report.report_id.as_str()) {
            Some(k) => {
                self.reports.set(k, report);
                proof {
                    assert(report_ids(self.reports@) =~= ids0);
                    lemma_first_index_at(ids0, k as int);
                }
            },
            None => {
                let ghost n = self.reports@.len();
                self.reports.push(report);
                proof {
                    assert(report_ids(self.reports@) =~= ids0.push(r.report_id@));
                    match lemma_keys(ids0, r.report_id@) {
                        Some(i) => {},
                        None => {},
                    }
                    assert forall|id: Seq<char>| id != r.report_id@ implies report_in(self.reports@, id) == report_in(old(self).reports@, id) by {
                        lemma_push_key(ids0, r.report_id@, id);
                        if let Some(i) = first_index(ids0, id) {
                            assert(self.reports@[i] == old(self).reports@[i]);
                        }
                    }
                    lemma_push_key(ids0, r.report_id@, Seq::empty());
                    lemma_first_index_at(report_ids(self.reports@), n as int);
                }
            },
        }
    }

    fn put_link(&mut self, sim: String, id: String)
        requires
            old(self).wf(),
        ensures
            distinct_names(link_keys(final(self).links())),
            final(self).reports() == old(self).reports(),
            final(self).linked(sim@) == Some(id@),
            forall|s: Seq<char>| s != sim@ ==> final(self).linked(s) == old(self).linked(s),
    {
        let ghost sv = sim@;
        let ghost iv = id@;
        let ghost keys0 = link_keys(self.simulation_to_report@);
        match self.link_index(sim.as_str()) {
            Some(k) => {
                self.simulation_to_report.set(k, (sim, id));
                proof {
                    assert(link_keys(self.simulation_to_report@) =~= keys0);
                    lemma_first_index_at(keys0, k as int);
                }
            },
            None => {
                let ghost n = self.simulation_to_report@.len();
                self.simulation_to_report.push((sim, id));
                proof {
                    assert(link_keys(self.simulation_to_report@) =~= keys0.push(sv));
                    match lemma_keys(keys0, sv) {
                        Some(i) => {},
                        None => {},
                    }
                    assert forall|s2: Seq<char>| s2 != sv implies link_in(self.simulation_to_report@, s2) == link_in(old(self).simulation_to_report@, s2) by {
                        lemma_push_key(keys0, sv, s2);
                        if let Some(i) = first_index(keys0, s2) {
                            assert(self.simulation_to_report@[i] == old(self).simulation_to_report@[i]);
                        }
                    }
                    lemma_push_key(keys0, sv, Seq::empty());
                    lemma_first_index_at(link_keys(self.simulation_to_report@), n as int);
                }
            },
        }
    }

    /// Stores `report` under its identifier (in place of one stored there
    /// before) and links its simulation to it.
    pub fn save_report(&mut self, report: StoredReport)
        requires
            old(self).wf(),
        ensures
            final(self).wf(),
            final(self).report(report.report_id@) == Some(report),
            final(self).linked(report.simulation_id@) == Some(report.report_id@),
            forall|id: Seq<char>| id != report.report_id@ ==> final(self).report(id) == old(self).report(id),
            forall|s: Seq<char>| s != report.simulation_id@ ==> final(self).linked(s) == old(self).linked(s),
    {
        let sim_id = report.simulation_id.clone();
        let report_id = report.report_id.clone();
        self.put_report(report);
        self.put_link(sim_id, report_id);
    }

    /// The report stored under `report_id`, as JSON.
    pub fn get_report(&self, report_id: &str) -> (r: Option<JsonValue>)
        requires
            self.wf(),
        ensures
            match self.report(report_id@) {
                Some(rep) => r matches Some(j) && json_model(j) == report_json(rep),
                None => r is None,
            },
    {
        match self.report_index(report_id) {
            Some(k) => Some(self.reports[k].to_json()),
            None => None,
        }
    }

    /// The report linked to simulation `simulation_id`, as JSON.
    pub fn get_report_by_simulation(&self, simulation_id: &str) -> (r: Option<JsonValue>)
        requires
            self.wf(),
        ensures
            match self.linked(simulation_id@) {
                Some(id) => match self.report(id) {
                    Some(rep) => r matches Some(j) && json_model(j) == report_json(rep),
                    None => r is None,
                },
                None => r is None,
            },
    {
        match self.link_index(simulation_id) {
            Some(k) => {
                let id = self.simulation_to_report[k].1.as_str();
                self.get_report(id)
            },
            None => None,
        }
    }

    /// Deletes the report stored under `report_id`, and the link of its
    /// simulation; `false` where there is no such report.
    pub fn delete_report(&mut self, report_id: &str) -> (r: bool)
        requires
            old(self).wf(),
        ensures
            final(self).wf(),
            r == old(self).report(report_id@) is Some,
            final(self).report(report_id@) is None,
            forall|id: Seq<char>| id != report_id@ ==> final(self).report(id) == old(self).report(id),
            match old(self).report(report_id@) {
                Some(rep) => final(self).linked(rep.simulation_id@) is None && forall|s: Seq<char>|
                    s != rep.simulation_id@ ==> final(self).linked(s) == old(self).linked(s),
                None => final(self).links() == old(self).links(),
            },
    {
        let k = match self.report_index(report_id) {
            Some(k) => k,
            None => return false,
        };
        let ghost ids0 = report_ids(self.reports@);
        let ghost rs0 = self.reports@;
        let removed = self.reports.remove(k);
        proof {
            assert(report_ids(self.reports@) =~= ids0.remove(k as int));
            lemma_remove_key(ids0, k as int, Seq::empty());
            assert forall|id: Seq<char>| id != report_id@ implies report_in(self.reports@, id) == report_in(rs0, id) by {
                lemma_remove_key(ids0, k as int, id);
                if let Some(i) = first_index(ids0, id) {
                    let i2 = if i < k { i } else { i - 1 };
                    assert(self.reports@[i2] == rs0[i]);
                }
            }
        }
        let ghost keys0 = link_keys(self.simulation_to_report@);
        let ghost ls0 = self.simulation_to_report@;
        if let Some(j) = self.link_index(removed.simulation_id.as_str()) {
            self.simulation_to_report.remove(j);
            proof {
                assert(link_keys(self.simulation_to_report@) =~= keys0.remove(j as int));
                lemma_remove_key(keys0, j as int, Seq::empty());
                assert forall|s2: Seq<char>| s2 != removed.simulation_id@ implies link_in(self.simulation_to_report@, s2) == link_in(ls0, s2) by {
                    lemma_remove_key(keys0, j as int, s2);
                    if let Some(i) = first_index(keys0, s2) {
                        let i2 = if i < j { i } else { i - 1 };
                        assert(self.simulation_to_report@[i2] == ls0[i]);
                    }
                }
            }
        }
        true
    }

    /// The content of the first section numbered `section_index` of the
    /// report stored under `report_id`.
    pub fn get_section(&self, report_id: &str, section_index: usize) -> (r: Option<String>)
        requires
            self.wf(),
        ensures
            match self.report(report_id@) {
                Some(rep) => match r {
                    Some(c) => exists|i: int|
                        0 <= i < rep.sections@.len() && (#[trigger] rep.sections@[i]).index
                            == section_index && rep.sections@[i].content@ == c@ && forall|j: int|
                            0 <= j < i ==> rep.sections@[j].index != section_index,
                    None => forall|i: int|
                        0 <= i < rep.sections@.len() ==> (#[trigger] rep.sections@[i]).index
                            != section_index,
                },
                None => r is None,
            },
    {
        let k = match self.report_index(report_id) {
            Some(k) => k,
            None => return None,
        };
        let rep = &self.reports[k];
        assert(self.report(report_id@) == Some(*rep));
        let mut i: usize = 0;
        while i < rep.sections.len()
            invariant
                self.report(report_id@) == Some(*rep),
                i <= rep.sections@.len(),
                forall|j: int| 0 <= j < i ==> rep.sections@[j].index != section_index,
            decreases rep.sections.len() - i,
        {
            if rep.sections[i].index == section_index {
                let c = rep.sections[i].content.clone();
                assert(rep.sections@[i as int].index == section_index && rep.sections@[i as int].content@ == c@);
                return Some(c);
            }
            i = i + 1;
        }
        None
    }

    /// Whether the report stored under `report_id` has status "completed".
    pub fn is_report_complete(&self, report_id: &str) -> (r: bool)
        requires
            self.wf(),
        ensures
            r == (self.report(report_id@) matches Some(rep) && rep.status@ == "completed"@),
    {
        match self.report_index(report_id) {
            Some(k) => str_eq(self.reports[k].status.as_str(), "completed"),
            None => false,
        }
    }
}

/// What a report read back by its simulation is: the report last saved
/// for that simulation, where it is still stored.
pub proof fn lemma_saved_report_found_by_simulation(before: ReportStore, after: ReportStore, saved: StoredReport)
    requires
        after.report(saved.report_id@) == Some(saved),
        after.linked(saved.simulation_id@) == Some(saved.report_id@),
    ensures
        match after.linked(saved.simulation_id@) {
            Some(id) => after.report(id) == Some(saved),
            None => false,
        },
{
}

/// The text a report is listed by: its creation time in RFC 3339.
pub open spec fn created_key(r: StoredReport) -> Seq<char> {
    rfc3339_text(r.created_at)
}

/// Report `i` is listed before report `j`: it was created later by its
/// listed text, or at the same text and stored earlier.
pub open spec fn listed_before(rs: Seq<StoredReport>, i: int, j: int) -> bool {
    lex_lt(created_key(rs[j]), created_key(rs[i])) || (created_key(rs[i]) == created_key(rs[j])
        && i < j)
}

/// `order` lists the indices of all of `rs`, newest first.
pub open spec fn newest_first(rs: Seq<StoredReport>, order: Seq<int>) -> bool {
    &&& order.len() == rs.len()
    &&& forall|a: int| 0 <= a < order.len() ==> 0 <= #[trigger] order[a] < rs.len()
    &&& forall|a: int, b: int|
        0 <= a < b < order.len() ==> listed_before(rs, #[trigger] order[a], #[trigger] order[b])
}

/// `section_<nn>.md`, the index written with at least two digits.
pub open spec fn section_filename(index: nat) -> Seq<char> {
    "section_"@ + (if index < 10 {
        "0"@ + decimal(index)
    } else {
        decimal(index)
    }) + ".md"@
}

/// A section as the section list shows it.
pub open spec fn section_entry(s: ReportSection) -> JsonModel {
    JsonModel::Object(
        seq![
            ("content"@, JsonModel::String(s.content@)),
            ("filename"@, JsonModel::String(section_filename(s.index as nat))),
            ("section_index"@, JsonModel::Number(JsonNumber::PosInt(s.index as u64))),
        ],
    )
}

fn section_filename_of(index: usize) -> (r: String)
    ensures
        r@ == section_filename(index as nat),
{
    let mut s = owned("section_");
    if index < 10 {
        push_str(&mut s, "0");
    }
    push_str(&mut s, decimal_string(index as u64).as_str());
    push_str(&mut s, ".md");
    proof {
        reveal_strlit("0");
    }
    s
}

impl ReportStore {
    /// The sections of the report stored under `report_id`, each with its
    /// file name; none where there is no such report.
    pub fn get_sections(&self, report_id: &str) -> (r: Vec<JsonValue>)
        requires
            self.wf(),
        ensures
            match self.report(report_id@) {
                Some(rep) => r@.len() == rep.sections@.len() && forall|i: int|
                    0 <= i < r@.len() ==> json_model(#[trigger] r@[i]) == section_entry(
                        rep.sections@[i],
                    ),
                None => r@.len() == 0,
            },
    {
        let mut out: Vec<JsonValue> = Vec::new();
        let k = match self.report_index(report_id) {
            Some(k) => k,
            None => return out,
        };
        let rep = &self.reports[k];
        assert(self.report(report_id@) == Some(*rep));
        let mut i: usize = 0;
        while i < rep.sections.len()
            invariant
                self.report(report_id@) == Some(*rep),
                i <= rep.sections@.len(),
                out@.len() == i,
                forall|j: int| 0 <= j < i ==> json_model(#[trigger] out@[j]) == section_entry(rep.sections@[j]),
            decreases rep.sections.len() - i,
        {
            let s = &rep.sections[i];
            let a = (owned("content"), JsonValue::String(s.content.clone()));
            let b = (owned("filename"), JsonValue::String(section_filename_of(s.index)));
            let c = (owned("section_index"), JsonValue::Number(JsonNumber::PosInt(s.index as u64)));
            let fields = vec![a, b, c];
            assert(fields@[0].0@ == "content"@ && json_model(fields@[0].1) == JsonModel::String(s.content@));
            assert(fields@[1].0@ == "filename"@ && json_model(fields@[1].1) == JsonModel::String(section_filename(s.index as nat)));
            assert(fields@[2].0@ == "section_index"@ && json_model(fields@[2].1) == JsonModel::Number(JsonNumber::PosInt(s.index as u64)));
            let o = JsonValue::Object(fields);
            proof {
                if let JsonModel::Object(x) = json_model(o) {
                    assert(x =~= seq![
                        ("content"@, JsonModel::String(s.content@)),
                        ("filename"@, JsonModel::String(section_filename(s.index as nat))),
                        ("section_index"@, JsonModel::Number(JsonNumber::PosInt(s.index as u64))),
                    ]);
                }
            }
            out.push(o);
            i = i + 1;
        }
        out
    }

    /// The indices of the stored reports, newest first.
    fn listing_order(&self) -> (r: Vec<usize>)
        ensures
            newest_first(self.reports(), r@.map_values(|i: usize| i as int)),
    {
        let ghost rs = self.reports@;
        let n = self.reports.len();
        let mut keys: Vec<String> = Vec::new();
        let mut i: usize = 0;
        while i < n
            invariant
                n == rs.len(),
                rs == self.reports@,
                i <= n,
                keys@.len() == i,
                forall|j: int| 0 <= j < i ==> (#[trigger] keys@[j])@ == created_key(rs[j]),
            decreases n - i,
        {
            let k = rfc3339(self.reports[i].created_at);
            keys.push(k);
            i = i + 1;
        }
        let mut order: Vec<usize> = Vec::new();
        let mut i: usize = 0;
        while i < n
            invariant
                n == rs.len(),
                rs == self.reports@,
                keys@.len() == n,
                forall|j: int| 0 <= j < n ==> (#[trigger] keys@[j])@ == created_key(rs[j]),
                i <= n,
                order@.len() == i,
                forall|a: int| 0 <= a < order@.len() ==> #[trigger] order@[a] < i,
                forall|a: int, b: int|
                    0 <= a < b < order@.len() ==> listed_before(
                        rs,
                        #[trigger] order@[a] as int,
                        #[trigger] order@[b] as int,
                    ),
            decreases n - i,
        {
            let mut pos: usize = 0;
            while pos < order.len() && !str_less(keys[order[pos]].as_str(), keys[i].as_str())
                invariant
                    n == rs.len(),
                    keys@.len() == n,
                    forall|j: int| 0 <= j < n ==> (#[trigger] keys@[j])@ == created_key(rs[j]),
                    i < n,
                    pos <= order@.len(),
                    forall|a: int| 0 <= a < order@.len() ==> #[trigger] order@[a] < i,
                    forall|a: int| 0 <= a < pos ==> !lex_lt(created_key(rs[#[trigger] order@[a] as int]), created_key(rs[i as int])),
                decreases order@.len() - pos,
            {
                pos = pos + 1;
            }
            let ghost o0 = order@;
            let ghost ki = created_key(rs[i as int]);
            order.insert(pos, i);
            proof {
                assert forall|a: int, b: int|
                    0 <= a < b < order@.len() implies listed_before(
                    rs,
                    #[trigger] order@[a] as int,
                    #[trigger] order@[b] as int,
                ) by {
                    if b < pos {
                        assert(order@[a] == o0[a] && order@[b] == o0[b]);
                    } else if b == pos {
                        assert(order@[a] == o0[a]);
                        lemma_lex_trichotomy(created_key(rs[o0[a] as int]), ki);
                    } else if a == pos {
                        assert(order@[b] == o0[b - 1]);
                        let kp = created_key(rs[o0[pos as int] as int]);
                        let kb = created_key(rs[o0[b - 1] as int]);
                        assert(lex_lt(kp, ki));
                        if b - 1 > pos {
                            assert(listed_before(rs, o0[pos as int] as int, o0[b - 1] as int));
                            if lex_lt(kb, kp) {
                                lemma_lex_trans(kb, kp, ki);
                            }
                        }
                    } else if a < pos {
                        assert(order@[a] == o0[a] && order@[b] == o0[b - 1]);
                    } else {
                        assert(order@[a] == o0[a - 1] && order@[b] == o0[b - 1]);
                    }
                }
            }
            i = i + 1;
        }
        order
    }

    /// The stored reports as JSON, newest first, at most `limit` of them.
    pub fn list_reports(&self, limit: usize) -> (r: Vec<JsonValue>)
        ensures
            exists|order: Seq<int>|
                #[trigger] newest_first(self.reports(), order) && r@.len() == (if limit
                    < order.len() {
                    limit as int
                } else {
                    order.len() as int
                }) && forall|a: int|
                    0 <= a < r@.len() ==> json_model(#[trigger] r@[a]) == report_json(
                        self.reports()[order[a]],
                    ),
    {
        let order = self.listing_order();
        let ghost ord = order@.map_values(|i: usize| i as int);
        let k = if limit < order.len() {
            limit
        } else {
            order.len()
        };
        let mut out: Vec<JsonValue> = Vec::new();
        let mut a: usize = 0;
        while a < k
            invariant
                k <= order@.len(),
                ord == order@.map_values(|i: usize| i as int),
                newest_first(self.reports@, ord),
                a <= k,
                out@.len() == a,
                forall|b: int| 0 <= b < a ==> json_model(#[trigger] out@[b]) == report_json(self.reports@[ord[b]]),
            decreases k - a,
        {
            assert(ord[a as int] == order@[a as int] as int);
            out.push(self.reports[order[a]].to_json());
            a = a + 1;
        }
        out
    }
}

} // verus!
