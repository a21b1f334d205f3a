use vstd::prelude::*;
use crate::helm::{CHART_REPO, Template};
use crate::project::Synkronized;

verus! {

/// The namespace in which the cluster's GitOps controller keeps applications.
pub const ARGO_NAMESPACE: &'static str = "argocd";

/// The identity under which this service owns the fields it applies.
pub const FIELD_MANAGER: &'static str = "kubectl-light";

/// The GitOps project that every application belongs to.
pub const DEFAULT_PROJECT: &'static str = "default";

/// The cluster that every application is deployed to.
pub const DEFAULT_SERVER: &'static str = "https://kubernetes.default.svc";

/// The sync option that lets the controller create the target namespace.
pub const CREATE_NAMESPACE_OPTION: &'static str = "CreateNamespace=true";

#[derive(Debug)]
pub struct Helm {
    pub values: String,
}

#[derive(Debug)]
pub struct Source {
    pub repo_url: String,
    pub target_revision: String,
    pub chart: String,
    pub helm: Helm,
}

#[derive(Debug)]
pub struct Destination {
    pub server: String,
    pub namespace: String,
}

#[derive(Debug)]
pub struct SyncPolicy {
    pub automated: Automated,
    pub sync_options: Vec<String>,
}

#[derive(Debug)]
pub struct Automated {
    pub prune: bool,
    pub self_heal: bool,
    pub allow_empty: bool,
}

/// The desired state of a deployed application.
#[derive(Debug)]
pub struct Spec {
    pub project: String,
    pub source: Source,
    pub destination: Destination,
    pub sync_policy: SyncPolicy,
}

/// A deployment descriptor: an application resource keyed by its name.
#[derive(Debug)]
pub struct Application {
    pub name: String,
    pub spec: Spec,
}

/// How a descriptor is submitted: a forced server-side apply, by the field
/// manager, of the resource `name` in `namespace`.
#[derive(Debug)]
pub struct ApplyTarget {
    pub namespace: String,
    pub name: String,
    pub field_manager: String,
    pub force: bool,
}

/// `a` is the descriptor of the application `settings`, deployed from the
/// chart `template` with the serialized merged `values`.
pub open spec fn is_descriptor(a: Application, settings: Synkronized, template: Template, values: String) -> bool {
    &&& a.name@ == settings.name@
    &&& a.spec.project@ == DEFAULT_PROJECT@
    &&& a.spec.source.repo_url@ == CHART_REPO@
    &&& a.spec.source.chart == template.name
    &&& a.spec.source.target_revision == template.version
    &&& a.spec.source.helm.values == values
    &&& a.spec.destination.server@ == DEFAULT_SERVER@
    &&& a.spec.destination.namespace@ == settings.name@
    &&& !a.spec.sync_policy.automated.prune
    &&& !a.spec.sync_policy.automated.self_heal
    &&& !a.spec.sync_policy.automated.allow_empty
    &&& a.spec.sync_policy.sync_options@.len() == 1
    &&& a.spec.sync_policy.sync_options@[0]@ == CREATE_NAMESPACE_OPTION@
}

impl Application {
    /// Assembles the descriptor of an application from its resolved chart
    /// and its merged values, serialized.
    pub fn create(settings: &Synkronized, template: Template, values: String) -> (r: Application)
        ensures
            is_descriptor(r, *settings, template, values),
    {
        let mut sync_options: Vec<String> = Vec::new();
        sync_options.push(String::from_str(CREATE_NAMESPACE_OPTION));
        Application {
            name: settings.name.clone(),
            spec: Spec {
                project: String::from_str(DEFAULT_PROJECT),
                source: Source {
                    repo_url: String::from_str(CHART_REPO),
                    target_revision: template.version,
                    chart: template.name,
                    helm: Helm { values },
                },
                destination: Destination {
                    server: String::from_str(DEFAULT_SERVER),
                    namespace: settings.name.clone(),
                },
                sync_policy: SyncPolicy {
                    automated: Automated { prune: false, self_heal: false, allow_empty: false },
                    sync_options,
                },
            },
        }
    }

    /// Where and how the descriptor is applied: forced, by this service's
    /// field manager, under the application's name in the controller's namespace.
    pub fn apply_target(&self) -> (r: ApplyTarget)
        ensures
            r.namespace@ == ARGO_NAMESPACE@,
            r.name == self.name,
            r.field_manager@ == FIELD_MANAGER@,
            r.force,
    {
        ApplyTarget {
            namespace: String::from_str(ARGO_NAMESPACE),
            name: self.name.clone(),
            field_manager: String::from_str(FIELD_MANAGER),
            force: true,
        }
    }
}

} // verus!
