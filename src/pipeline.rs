use vstd::prelude::*;
use crate::argo::{Application, is_descriptor};
use crate::error::PipelineError;
use crate::github::{PublishEvent, RegistryPublished, normalized};
use crate::helm::{CHART_REPO, INDEX_PATH, Charts, Template, chart_index_url, resolution};
use crate::merge::merge;
use crate::project::{
    CONFIG_PATH, Synkronized, SynkronizedProject, decode_config, decoded_config, image_document,
};
use crate::yaml::{YamlValue, well_formed};

verus! {

/// Where the delivery of a published package stands. Each stage but the last
/// two waits for the outcome of one outside action.
pub enum Stage {
    /// The event is known; the project's configuration file is awaited.
    Normalized(PublishEvent),
    /// The configuration text is awaited, read as a project document.
    ConfigFetched(PublishEvent),
    /// The computed values are merged in; the chart index is awaited.
    ConfigResolved(SynkronizedProject),
    /// The chart is resolved; the merged values are awaited, serialized.
    ChartResolved(Synkronized, Template),
    /// The descriptor is assembled; the cluster's answer to it is awaited.
    Synthesized,
    /// The descriptor was applied.
    Applied,
    /// The delivery failed.
    Rejected(PipelineError),
}

/// The outside work that the pipeline asks for next.
pub enum Action {
    /// Fetch the file `path` at the head of the repository `owner`/`repo`.
    FetchConfig { owner: String, repo: String, path: String },
    /// Read the text as a project document.
    ReadProject(String),
    /// Fetch the chart index at this address and read it.
    FetchIndex(String),
    /// Serialize the merged values.
    SerializeValues(YamlValue),
    /// Apply the descriptor to the cluster.
    Apply(Application),
    /// Answer the delivery.
    Finish(Result<(), PipelineError>),
}

/// Why the chart index could not be had.
#[derive(PartialEq, Eq, Structural, Clone, Copy, Debug)]
pub enum IndexFailure {
    Unreachable,
    Malformed,
}

/// Why the cluster did not take the descriptor.
#[derive(PartialEq, Eq, Structural, Clone, Copy, Debug)]
pub enum ApplyFailure {
    Rejected,
    Unreachable,
}

/// The outcome of an action.
pub enum Outcome {
    /// The content of the configuration file, where there is one.
    ConfigFile(Option<String>),
    /// The project document, where the text reads as one.
    Project(Option<SynkronizedProject>),
    /// The chart index.
    Index(Result<Charts, IndexFailure>),
    /// The serialized values, where they could be serialized.
    Values(Option<String>),
    /// The cluster's answer.
    ApplyResult(Result<(), ApplyFailure>),
}

/// The outcome answers the action that the stage asked for.
pub open spec fn answers(stage: Stage, outcome: Outcome) -> bool {
    match (stage, outcome) {
        (Stage::Normalized(_), Outcome::ConfigFile(_)) => true,
        (Stage::ConfigFetched(_), Outcome::Project(_)) => true,
        (Stage::ConfigResolved(_), Outcome::Index(_)) => true,
        (Stage::ChartResolved(_, _), Outcome::Values(_)) => true,
        (Stage::Synthesized, Outcome::ApplyResult(_)) => true,
        _ => false,
    }
}

/// How many actions a stage is at most away from its answer.
pub open spec fn remaining(stage: Stage) -> nat {
    match stage {
        Stage::Normalized(_) => 5,
        Stage::ConfigFetched(_) => 4,
        Stage::ConfigResolved(_) => 3,
        Stage::ChartResolved(_, _) => 2,
        Stage::Synthesized => 1,
        Stage::Applied => 0,
        Stage::Rejected(_) => 0,
    }
}

pub open spec fn is_final(stage: Stage) -> bool {
    stage is Applied || stage is Rejected
}

pub open spec fn rejected(e: PipelineError) -> (Stage, Action) {
    (Stage::Rejected(e), Action::Finish(Err(e)))
}

pub open spec fn opt_string_view(s: Option<String>) -> Option<Seq<char>> {
    match s {
        Some(t) => Some(t@),
        None => None,
    }
}

impl Stage {
    /// The first stage of a published-package delivery, and its first action.
    pub fn start(published: &RegistryPublished) -> (r: (Stage, Action))
        ensures
            match normalized(*published) {
                Ok(e) => r.0 == Stage::Normalized(e) && r.1 is FetchConfig
                    && r.1->owner == e.owner_login && r.1->repo == e.repo_name
                    && r.1->path@ == CONFIG_PATH@,
                Err(x) => r == rejected(x),
            },
    {
        match PublishEvent::from_published(published) {
            Ok(event) => {
                let owner = event.owner_login.clone();
                let repo = event.repo_name.clone();
                (
                    Stage::Normalized(event),
                    Action::FetchConfig { owner, repo, path: String::from_str(CONFIG_PATH) },
                )
            },
            Err(x) => (Stage::Rejected(x), Action::Finish(Err(x))),
        }
    }

    /// Whether the outcome answers the action that this stage asked for.
    pub fn expects(&self, outcome: &Outcome) -> (r: bool)
        ensures
            r == answers(*self, *outcome),
    {
        match (self, outcome) {
            (Stage::Normalized(_), Outcome::ConfigFile(_)) => true,
            (Stage::ConfigFetched(_), Outcome::Project(_)) => true,
            (Stage::ConfigResolved(_), Outcome::Index(_)) => true,
            (Stage::ChartResolved(_, _), Outcome::Values(_)) => true,
            (Stage::Synthesized, Outcome::ApplyResult(_)) => true,
            _ => false,
        }
    }

    /// The next stage and action, given the outcome of the last action.
    /// Every failure rejects the delivery at once, and nothing is applied
    /// after one.
    pub fn step(self, outcome: Outcome) -> (r: (Stage, Action))
        requires
            answers(self, outcome),
        ensures
            remaining(r.0) < remaining(self),
            r.1 is Finish <==> is_final(r.0),
            match (self, outcome) {
                (Stage::Normalized(e), Outcome::ConfigFile(c)) => match decoded_config(
                    opt_string_view(c),
                ) {
                    Ok(text) => r.0 == Stage::ConfigFetched(e) && r.1 is ReadProject
                        && r.1->ReadProject_0@ == text,
                    Err(x) => r == rejected(x),
                },
                (Stage::ConfigFetched(e), Outcome::Project(p)) => match p {
                    None => r == rejected(PipelineError::SourceFileMalformed),
                    Some(p) => if well_formed(p.config@) {
                        &&& r.0 is ConfigResolved
                        &&& r.0->ConfigResolved_0.synkronized == p.synkronized
                        &&& r.0->ConfigResolved_0.config@ == merge(
                            p.config@,
                            image_document(e.package_name@, e.image_reference@),
                        )
                        &&& r.1 is FetchIndex
                        &&& r.1->FetchIndex_0@ == CHART_REPO@ + INDEX_PATH@
                    } else {
                        r == rejected(PipelineError::SourceFileMalformed)
                    },
                },
                (Stage::ConfigResolved(p), Outcome::Index(i)) => match i {
                    Err(IndexFailure::Unreachable) => r == rejected(PipelineError::IndexUnreachable),
                    Err(IndexFailure::Malformed) => r == rejected(PipelineError::IndexMalformed),
                    Ok(charts) => match resolution(charts.entries@, p.synkronized.template@) {
                        Ok(t) => r == (
                            Stage::ChartResolved(p.synkronized, t),
                            Action::SerializeValues(p.config),
                        ),
                        Err(x) => r == rejected(x),
                    },
                },
                (Stage::ChartResolved(s, t), Outcome::Values(v)) => match v {
                    None => r == rejected(PipelineError::ValuesSerializationError),
                    Some(values) => r.0 == Stage::Synthesized && r.1 is Apply && is_descriptor(
                        r.1->Apply_0,
                        s,
                        t,
                        values,
                    ),
                },
                (Stage::Synthesized, Outcome::ApplyResult(a)) => match a {
                    Ok(_) => r == (Stage::Applied, Action::Finish(Ok(()))),
                    Err(ApplyFailure::Rejected) => r == rejected(PipelineError::ApplyRejected),
                    Err(ApplyFailure::Unreachable) => r == rejected(
                        PipelineError::ApplyUnreachable,
                    ),
                },
                _ => false,
            },
    {
        match (self, outcome) {
            (Stage::Normalized(event), Outcome::ConfigFile(content)) => {
                let decoded = match &content {
                    Some(c) => decode_config(Some(c.as_str())),
                    None => decode_config(None),
                };
                match decoded {
                    Ok(text) => (Stage::ConfigFetched(event), Action::ReadProject(text)),
                    Err(x) => (Stage::Rejected(x), Action::Finish(Err(x))),
                }
            },
            (Stage::ConfigFetched(event), Outcome::Project(project)) => match project {
                None => (
                    Stage::Rejected(PipelineError::SourceFileMalformed),
                    Action::Finish(Err(PipelineError::SourceFileMalformed)),
                ),
                Some(project) => {
                    let mut project = project;
                    match project.with_image(&event) {
                        Ok(()) => (Stage::ConfigResolved(project), Action::FetchIndex(chart_index_url())),
                        Err(x) => (Stage::Rejected(x), Action::Finish(Err(x))),
                    }
                },
            },
            (Stage::ConfigResolved(project), Outcome::Index(index)) => match index {
                Err(IndexFailure::Unreachable) => (
                    Stage::Rejected(PipelineError::IndexUnreachable),
                    Action::Finish(Err(PipelineError::IndexUnreachable)),
                ),
                Err(IndexFailure::Malformed) => (
                    Stage::Rejected(PipelineError::IndexMalformed),
                    Action::Finish(Err(PipelineError::IndexMalformed)),
                ),
                Ok(charts) => match Template::from_index(&charts, project.synkronized.template.as_str()) {
                    Ok(template) => {
                        let SynkronizedProject { synkronized, config } = project;
                        (Stage::ChartResolved(synkronized, template), Action::SerializeValues(config))
                    },
                    Err(x) => (Stage::Rejected(x), Action::Finish(Err(x))),
                },
            },
            (Stage::ChartResolved(settings, template), Outcome::Values(values)) => match values {
                None => (
                    Stage::Rejected(PipelineError::ValuesSerializationError),
                    Action::Finish(Err(PipelineError::ValuesSerializationError)),
                ),
                Some(values) => {
                    let application = Application::create(&settings, template, values);
                    (Stage::Synthesized, Action::Apply(application))
                },
            },
            (Stage::Synthesized, Outcome::ApplyResult(answer)) => match answer {
                Ok(()) => (Stage::Applied, Action::Finish(Ok(()))),
                Err(ApplyFailure::Rejected) => (
                    Stage::Rejected(PipelineError::ApplyRejected),
                    Action::Finish(Err(PipelineError::ApplyRejected)),
                ),
                Err(ApplyFailure::Unreachable) => (
                    Stage::Rejected(PipelineError::ApplyUnreachable),
                    Action::Finish(Err(PipelineError::ApplyUnreachable)),
                ),
            },
            // No other pair answers the pending action.
            (stage, _) => (stage, Action::Finish(Ok(()))),
        }
    }
}

} // verus!
