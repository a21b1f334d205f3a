use vstd::prelude::*;
use crate::error::PipelineError;
use crate::text::str_eq;

verus! {

/// The chart repository that every template is resolved against.
pub const CHART_REPO: &'static str = "https://charts.vaughn.sh";

/// The path of the index document within the chart repository.
pub const INDEX_PATH: &'static str = "/index.yaml";

/// A chart resolved to a concrete name and version.
#[derive(Debug)]
pub struct Template {
    pub name: String,
    pub version: String,
}

/// A chart index: for each chart name, its versions, newest first.
#[derive(Debug)]
pub struct Charts {
    pub api_version: String,
    pub entries: Vec<(String, Vec<ChartVersion>)>,
    pub generated: String,
}

/// One version of a chart in the index.
#[derive(Debug)]
pub struct ChartVersion {
    pub api_version: String,
    pub app_version: String,
    pub created: String,
    pub description: String,
    pub digest: String,
    pub name: String,
    pub chart_type: String,
    pub urls: Vec<String>,
    pub version: String,
}

/// `i` is the first entry of the index under `name`.
pub open spec fn is_first_entry(
    entries: Seq<(String, Vec<ChartVersion>)>,
    name: Seq<char>,
    i: int,
) -> bool {
    0 <= i < entries.len() && entries[i].0@ == name && forall|k: int|
        0 <= k < i ==> entries[k].0@ != name
}

/// The position of the first entry under `name`, or -1 where there is none.
pub open spec fn first_entry(entries: Seq<(String, Vec<ChartVersion>)>, name: Seq<char>) -> int {
    if exists|i: int| is_first_entry(entries, name, i) {
        choose|i: int| is_first_entry(entries, name, i)
    } else {
        -1
    }
}

/// What a chart name resolves to in an index: the first version listed
/// under the name, as the index orders them; no versions are compared.
pub open spec fn resolution(entries: Seq<(String, Vec<ChartVersion>)>, name: Seq<char>) -> Result<
    Template,
    PipelineError,
> {
    let i = first_entry(entries, name);
    if 0 <= i && entries[i].1@.len() > 0 {
        Ok(Template { name: entries[i].1@[0].name, version: entries[i].1@[0].version })
    } else {
        Err(PipelineError::TemplateNotFound)
    }
}

/// The address of the chart index document.
pub fn chart_index_url() -> (r: String)
    ensures
        r@ == CHART_REPO@ + INDEX_PATH@,
{
    let mut url = String::from_str(CHART_REPO);
    url.append(INDEX_PATH);
    url
}

impl Template {
    /// Resolves a chart name against an index.
    pub fn from_index(charts: &Charts, chart_name: &str) -> (r: Result<Template, PipelineError>)
        ensures
            r == resolution(charts.entries@, chart_name@),
    {
        let mut i: usize = 0;
        while i < charts.entries.len()
            invariant
                0 <= i <= charts.entries.len(),
                forall|k: int| 0 <= k < i ==> charts.entries@[k].0@ != chart_name@,
            decreases charts.entries.len() - i,
        {
            if str_eq(charts.entries[i].0.as_str(), chart_name) {
                let versions = &charts.entries[i].1;
                proof {
                    assert(is_first_entry(charts.entries@, chart_name@, i as int));
                    let first = first_entry(charts.entries@, chart_name@);
                    assert forall|j: int| #[trigger]
                        is_first_entry(charts.entries@, chart_name@, j) implies j == i by {
                        if j < i {
                            assert(charts.entries@[j].0@ != chart_name@);
                        } else if j > i {
                            assert(charts.entries@[i as int].0@ != chart_name@);
                        }
                    }
                    assert(first == i);
                }
                if versions.len() == 0 {
                    return Err(PipelineError::TemplateNotFound);
                }
                return Ok(
                    Template { name: versions[0].name.clone(), version: versions[0].version.clone() },
                );
            }
            i += 1;
        }
        proof {
            if exists|j: int| is_first_entry(charts.entries@, chart_name@, j) {
                let j = choose|j: int| is_first_entry(charts.entries@, chart_name@, j);
                assert(charts.entries@[j].0@ != chart_name@);
            }
        }
        Err(PipelineError::TemplateNotFound)
    }
}

} // verus!
