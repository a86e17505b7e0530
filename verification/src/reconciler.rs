use vstd::prelude::*;
use vstd::string::StringExecFns;

use crate::action::Action;
use crate::api::{Memcached, MemcachedView};
use crate::dispatcher::Reconciler;
use crate::deployment::{
    Container, ContainerPort, ContainerPortView, ContainerView, Deployment, DeploymentView, Label,
    LabelView, OwnerReference, OwnerReferenceView,
};
use crate::errors::{ApiFailure, Error, ErrorView, NOT_FOUND};

verus! {

/// Seconds until the periodic re-visit after a successful reconcile, to
/// catch external drift that no notification reports.
pub const RESYNC_SECS: u64 = 60;

/// Seconds until the retry after a failed reconcile.
pub const ERROR_RETRY_SECS: u64 = 5;

/// The single mutating call a reconcile attempt decides to issue, if any.
#[derive(Clone, Debug, PartialEq, Eq)]
pub enum ChildOp {
    /// Issue one create call with this object.
    Create(Deployment),
    /// Issue one update call replacing the child's spec with this object.
    Update(Deployment),
    /// Issue no mutating call: observed state already matches desired state.
    Noop,
}

/// The mathematical value of a [`ChildOp`].
#[verifier::ext_equal]
pub enum ChildOpView {
    Create(DeploymentView),
    Update(DeploymentView),
    Noop,
}

impl View for ChildOp {
    type V = ChildOpView;

    open spec fn view(&self) -> ChildOpView {
        match *self {
            ChildOp::Create(ref d) => ChildOpView::Create(d@),
            ChildOp::Update(ref d) => ChildOpView::Update(d@),
            ChildOp::Noop => ChildOpView::Noop,
        }
    }
}

/// The mathematical value of a reconcile attempt's outcome.
pub open spec fn outcome_view(r: Result<(ChildOp, Action), Error>) -> Result<
    (ChildOpView, Action),
    ErrorView,
> {
    match r {
        Ok(p) => Ok((p.0@, p.1)),
        Err(e) => Err(e@),
    }
}

/// The mathematical value of a fetch of the child object.
pub open spec fn fetched_view(f: Result<Deployment, ApiFailure>) -> Result<
    DeploymentView,
    ApiFailure,
> {
    match f {
        Ok(d) => Ok(d@),
        Err(e) => Err(e),
    }
}

/// The child's name derived from its parent's name.
pub open spec fn spec_deployment_name(parent: Seq<char>) -> Seq<char> {
    parent + "-deployment"@
}

/// The parent's unique id as written into the owner reference: the observed
/// id, or empty when the observation carried none.
pub open spec fn spec_uid_or_empty(uid: Option<Seq<char>>) -> Seq<char> {
    match uid {
        Some(u) => u,
        None => Seq::<char>::empty(),
    }
}

/// The child object that a desired resource calls for: one container with
/// the fixed image, the declared port and replica count, `app` labels tying
/// selector and pod template to the parent's name, and exactly one owner
/// reference marking the parent as controller.
pub open spec fn spec_desired_deployment(m: MemcachedView) -> DeploymentView {
    DeploymentView {
        name: spec_deployment_name(m.name),
        namespace: m.namespace,
        owner_references: seq![
            OwnerReferenceView {
                api_version: "cache.example.com/v1alpha1"@,
                kind: "Memcached"@,
                name: m.name,
                uid: spec_uid_or_empty(m.uid),
                controller: Some(true),
                block_owner_deletion: Some(true),
            },
        ],
        replicas: Some(m.spec.size),
        selector: seq![LabelView { key: "app"@, value: m.name }],
        template_labels: seq![LabelView { key: "app"@, value: m.name }],
        containers: seq![
            ContainerView {
                name: "memcached"@,
                image: "memcached:1.4.36-alpine"@,
                ports: seq![ContainerPortView { container_port: m.spec.container_port }],
            },
        ],
    }
}

/// The replica count a fetched child declares; the cluster treats an absent
/// value as 1.
pub open spec fn spec_current_replicas(d: DeploymentView) -> int {
    match d.replicas {
        Some(r) => r,
        None => 1,
    }
}

/// The decision one reconcile attempt takes on the fetched child state:
/// update the replica count when it drifted, create the child when the fetch
/// reported not-found, pass any other fetch failure on as an error, and on
/// every success schedule the periodic re-visit.
pub open spec fn spec_reconcile(m: MemcachedView, fetched: Result<DeploymentView, ApiFailure>) -> Result<
    (ChildOpView, Action),
    ErrorView,
> {
    match fetched {
        Ok(d) => if spec_current_replicas(d) != m.spec.size {
            Ok(
                (
                    ChildOpView::Update(DeploymentView { replicas: Some(m.spec.size), ..d }),
                    Action::RequeueAfter(RESYNC_SECS),
                ),
            )
        } else {
            Ok((ChildOpView::Noop, Action::RequeueAfter(RESYNC_SECS)))
        },
        Err(f) => if f.spec_is_not_found() {
            Ok((ChildOpView::Create(spec_desired_deployment(m)), Action::RequeueAfter(RESYNC_SECS)))
        } else {
            Err(ErrorView::KubeError(f))
        },
    }
}

/// The child's name derived from its parent's name.
pub fn deployment_name(parent: &String) -> (r: String)
    ensures
        r@ == spec_deployment_name(parent@),
{
    parent.clone().concat("-deployment")
}

/// Build the child object that a desired resource calls for.
pub fn create_deployment(m: &Memcached) -> (r: Result<Deployment, Error>)
    ensures
        r matches Ok(d) && d@ == spec_desired_deployment(m@),
{
    let owner = OwnerReference {
        api_version: String::from_str("cache.example.com/v1alpha1"),
        kind: String::from_str("Memcached"),
        name: m.name.clone(),
        uid: match &m.uid {
            Some(u) => u.clone(),
            None => String::new(),
        },
        controller: Some(true),
        block_owner_deletion: Some(true),
    };
    let mut owner_references: Vec<OwnerReference> = Vec::new();
    owner_references.push(owner);

    let mut selector: Vec<Label> = Vec::new();
    selector.push(Label { key: String::from_str("app"), value: m.name.clone() });
    let mut template_labels: Vec<Label> = Vec::new();
    template_labels.push(Label { key: String::from_str("app"), value: m.name.clone() });

    let mut ports: Vec<ContainerPort> = Vec::new();
    ports.push(ContainerPort { container_port: m.spec.container_port });
    let mut containers: Vec<Container> = Vec::new();
    containers.push(
        Container {
            name: String::from_str("memcached"),
            image: String::from_str("memcached:1.4.36-alpine"),
            ports,
        },
    );

    let d = Deployment {
        name: deployment_name(&m.name),
        namespace: m.namespace.clone(),
        owner_references,
        replicas: Some(m.spec.size),
        selector,
        template_labels,
        containers,
    };
    proof {
        let s = spec_desired_deployment(m@);
        assert(d@.owner_references =~~= s.owner_references);
        assert(d@.selector =~~= s.selector);
        assert(d@.template_labels =~~= s.template_labels);
        assert(d@.containers[0].ports =~~= s.containers[0].ports);
        assert(d@.containers =~~= s.containers);
        assert(d@ =~~= s);
    }
    Ok(d)
}

/// The convergence algorithm for one resource kind: computes the child
/// state a desired resource calls for and decides the single mutating call
/// that converges the observed child toward it.
pub struct MemcachedReconciler;

impl MemcachedReconciler {
    /// One reconcile attempt: decide from the desired resource and the
    /// fetched child state which single mutating call to issue and when to
    /// visit the key again.
    pub fn reconcile(m: &Memcached, fetched: Result<Deployment, ApiFailure>) -> (r: Result<
        (ChildOp, Action),
        Error,
    >)
        ensures
            outcome_view(r) == spec_reconcile(m@, fetched_view(fetched)),
    {
        match fetched {
            Ok(existing) => {
                let current: i32 = match existing.replicas {
                    Some(r) => r,
                    None => 1,
                };
                if current != m.spec.size {
                    let updated = Deployment { replicas: Some(m.spec.size), ..existing };
                    Ok((ChildOp::Update(updated), Action::RequeueAfter(RESYNC_SECS)))
                } else {
                    Ok((ChildOp::Noop, Action::RequeueAfter(RESYNC_SECS)))
                }
            },
            Err(f) => {
                if f.is_not_found() {
                    match create_deployment(m) {
                        Ok(d) => Ok((ChildOp::Create(d), Action::RequeueAfter(RESYNC_SECS))),
                        Err(e) => Err(e),
                    }
                } else {
                    Err(Error::KubeError(f))
                }
            },
        }
    }

    /// The scheduling decision after a failed reconcile attempt: a flat
    /// retry delay, the same for every error kind.
    pub fn error_policy(_obj: &Memcached, _err: &Error) -> (a: Action)
        ensures
            a == Action::RequeueAfter(ERROR_RETRY_SECS),
    {
        Action::RequeueAfter(ERROR_RETRY_SECS)
    }
}

impl Reconciler<Memcached> for MemcachedReconciler {
    type Observed = Result<Deployment, ApiFailure>;

    type Op = ChildOp;

    /// Every reconcile decision is exactly the one [`spec_reconcile`]
    /// takes on the observed values.
    open spec fn reconcile_ens(
        obj: Memcached,
        observed: Result<Deployment, ApiFailure>,
        r: Result<(ChildOp, Action), Error>,
    ) -> bool {
        outcome_view(r) == spec_reconcile(obj@, fetched_view(observed))
    }

    fn reconcile(obj: &Memcached, observed: Result<Deployment, ApiFailure>) -> (r: Result<
        (ChildOp, Action),
        Error,
    >) {
        MemcachedReconciler::reconcile(obj, observed)
    }

    /// The flat backoff: every failure, of either kind, is retried after
    /// the same fixed delay.
    open spec fn error_policy_spec(obj: Memcached, err: Error) -> Action {
        Action::RequeueAfter(ERROR_RETRY_SECS)
    }

    fn error_policy(obj: &Memcached, err: &Error) -> (a: Action) {
        MemcachedReconciler::error_policy(obj, err)
    }
}

/// What a fetch of the child reports: the object when it exists, the
/// not-found status when it does not.
pub open spec fn spec_fetch_of(child: Option<DeploymentView>) -> Result<DeploymentView, ApiFailure> {
    match child {
        Some(d) => Ok(d),
        None => Err(ApiFailure::Status(NOT_FOUND)),
    }
}

/// The child state the cluster holds once the decided call has succeeded.
pub open spec fn spec_apply_op(child: Option<DeploymentView>, op: ChildOpView) -> Option<
    DeploymentView,
> {
    match op {
        ChildOpView::Create(d) => Some(d),
        ChildOpView::Update(d) => Some(d),
        ChildOpView::Noop => child,
    }
}

/// Law: reconciling is idempotent. For every desired state and observed
/// child, a successful reconcile followed by its decided call leaves the
/// cluster in a state in which the next reconcile, run with no external
/// change in between, issues no mutating call.
pub proof fn lemma_reconcile_idempotent(m: MemcachedView, child: Option<DeploymentView>)
    ensures
        spec_reconcile(m, spec_fetch_of(child)) matches Ok(p) ==> spec_reconcile(
            m,
            spec_fetch_of(spec_apply_op(child, p.0)),
        ) == Ok::<(ChildOpView, Action), ErrorView>(
            (ChildOpView::Noop, Action::RequeueAfter(RESYNC_SECS)),
        ),
{
}

/// Law: drift in the replica count is corrected by one update that sets the
/// desired count and changes no other field. A reconcile decides a single
/// mutating call, so no second write can accompany it.
pub proof fn lemma_convergence_on_drift(m: MemcachedView, d: DeploymentView)
    requires
        spec_current_replicas(d) != m.spec.size,
    ensures
        spec_reconcile(m, Ok(d)) matches Ok(p) && p.0 matches ChildOpView::Update(u)
            && p.1 == Action::RequeueAfter(RESYNC_SECS)
            && u.replicas == Some(m.spec.size)
            && u.name == d.name
            && u.namespace == d.namespace
            && u.owner_references == d.owner_references
            && u.selector == d.selector
            && u.template_labels == d.template_labels
            && u.containers == d.containers,
{
}

/// Law: from an absent child, one create call is decided. The created
/// object carries the owner reference that binds the child's lifecycle to
/// its parent, the desired replica count and container port, and the `app`
/// label on both the selector and the pod template.
pub proof fn lemma_creation_from_absent(m: MemcachedView)
    ensures
        spec_reconcile(m, spec_fetch_of(None)) matches Ok(p) && p.0 matches ChildOpView::Create(d)
            && p.1 == Action::RequeueAfter(RESYNC_SECS)
            && d == spec_desired_deployment(m)
            && d.name == spec_deployment_name(m.name)
            && d.owner_references.len() == 1
            && d.owner_references[0].kind == "Memcached"@
            && d.owner_references[0].name == m.name
            && d.owner_references[0].controller == Some(true)
            && d.owner_references[0].block_owner_deletion == Some(true)
            && d.replicas == Some(m.spec.size)
            && d.selector == seq![LabelView { key: "app"@, value: m.name }]
            && d.template_labels == seq![LabelView { key: "app"@, value: m.name }]
            && d.containers.len() == 1
            && d.containers[0].ports == seq![
                ContainerPortView { container_port: m.spec.container_port },
            ],
{
}

} // verus!
