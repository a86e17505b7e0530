use memcached_operator::action::Action;
use memcached_operator::api::{Memcached, MemcachedSpec};
use memcached_operator::deployment::Deployment;
use memcached_operator::errors::{ApiFailure, Error};
use memcached_operator::reconciler::{
    create_deployment, deployment_name, ChildOp, MemcachedReconciler, ERROR_RETRY_SECS,
    RESYNC_SECS,
};

fn example(size: i32, container_port: i32) -> Memcached {
    Memcached {
        name: "example".to_string(),
        namespace: "default".to_string(),
        uid: Some("uid-1234".to_string()),
        spec: MemcachedSpec { size, container_port },
        status: None,
    }
}

fn not_found() -> Result<Deployment, ApiFailure> {
    Err(ApiFailure::Status(404))
}

#[test]
fn deployment_name_appends_suffix() {
    assert_eq!(deployment_name(&"example".to_string()), "example-deployment");
    assert_eq!(deployment_name(&"a".to_string()), "a-deployment");
}

#[test]
fn created_deployment_carries_owner_reference_and_spec() {
    let m = example(3, 11211);
    let d = create_deployment(&m).unwrap();

    assert_eq!(d.name, "example-deployment");
    assert_eq!(d.namespace, "default");
    assert_eq!(d.replicas, Some(3));

    assert_eq!(d.owner_references.len(), 1);
    let owner = &d.owner_references[0];
    assert_eq!(owner.api_version, "cache.example.com/v1alpha1");
    assert_eq!(owner.kind, "Memcached");
    assert_eq!(owner.name, "example");
    assert_eq!(owner.uid, "uid-1234");
    assert_eq!(owner.controller, Some(true));
    assert_eq!(owner.block_owner_deletion, Some(true));

    assert_eq!(d.selector.len(), 1);
    assert_eq!(d.selector[0].key, "app");
    assert_eq!(d.selector[0].value, "example");
    assert_eq!(d.template_labels.len(), 1);
    assert_eq!(d.template_labels[0].key, "app");
    assert_eq!(d.template_labels[0].value, "example");

    assert_eq!(d.containers.len(), 1);
    assert_eq!(d.containers[0].name, "memcached");
    assert_eq!(d.containers[0].image, "memcached:1.4.36-alpine");
    assert_eq!(d.containers[0].ports.len(), 1);
    assert_eq!(d.containers[0].ports[0].container_port, 11211);
}

#[test]
fn created_deployment_with_absent_uid_writes_empty_uid() {
    let mut m = example(1, 11211);
    m.uid = None;
    let d = create_deployment(&m).unwrap();
    assert_eq!(d.owner_references[0].uid, "");
}

#[test]
fn reconcile_creates_when_child_absent() {
    let m = example(3, 11211);
    let (op, action) = MemcachedReconciler::reconcile(&m, not_found()).unwrap();
    let expected = create_deployment(&m).unwrap();
    match op {
        ChildOp::Create(d) => assert_eq!(d, expected),
        other => panic!("expected a create, got {:?}", other),
    }
    assert_eq!(action, Action::RequeueAfter(RESYNC_SECS));
}

#[test]
fn reconcile_updates_only_replicas_on_drift() {
    let m = example(5, 11211);
    let mut existing = create_deployment(&example(3, 11211)).unwrap();
    existing.replicas = Some(3);

    let (op, action) = MemcachedReconciler::reconcile(&m, Ok(existing.clone())).unwrap();
    match op {
        ChildOp::Update(u) => {
            assert_eq!(u.replicas, Some(5));
            assert_eq!(u.name, existing.name);
            assert_eq!(u.namespace, existing.namespace);
            assert_eq!(u.owner_references, existing.owner_references);
            assert_eq!(u.selector, existing.selector);
            assert_eq!(u.template_labels, existing.template_labels);
            assert_eq!(u.containers, existing.containers);
        }
        other => panic!("expected an update, got {:?}", other),
    }
    assert_eq!(action, Action::RequeueAfter(RESYNC_SECS));
}

#[test]
fn reconcile_is_idempotent_after_create() {
    let m = example(3, 11211);
    let (op, _) = MemcachedReconciler::reconcile(&m, not_found()).unwrap();
    let child = match op {
        ChildOp::Create(d) => d,
        other => panic!("expected a create, got {:?}", other),
    };
    let (second, action) = MemcachedReconciler::reconcile(&m, Ok(child)).unwrap();
    assert_eq!(second, ChildOp::Noop);
    assert_eq!(action, Action::RequeueAfter(RESYNC_SECS));
}

#[test]
fn reconcile_is_idempotent_after_update() {
    let m = example(5, 11211);
    let mut existing = create_deployment(&m).unwrap();
    existing.replicas = Some(2);
    let (op, _) = MemcachedReconciler::reconcile(&m, Ok(existing)).unwrap();
    let child = match op {
        ChildOp::Update(u) => u,
        other => panic!("expected an update, got {:?}", other),
    };
    let (second, _) = MemcachedReconciler::reconcile(&m, Ok(child)).unwrap();
    assert_eq!(second, ChildOp::Noop);
}

#[test]
fn reconcile_treats_absent_replica_count_as_one() {
    let m1 = example(1, 11211);
    let mut child = create_deployment(&m1).unwrap();
    child.replicas = None;
    let (op, _) = MemcachedReconciler::reconcile(&m1, Ok(child.clone())).unwrap();
    assert_eq!(op, ChildOp::Noop);

    let m3 = example(3, 11211);
    let (op, _) = MemcachedReconciler::reconcile(&m3, Ok(child)).unwrap();
    match op {
        ChildOp::Update(u) => assert_eq!(u.replicas, Some(3)),
        other => panic!("expected an update, got {:?}", other),
    }
}

#[test]
fn reconcile_propagates_other_fetch_failures() {
    let m = example(3, 11211);
    let r = MemcachedReconciler::reconcile(&m, Err(ApiFailure::Status(500)));
    assert_eq!(r.unwrap_err(), Error::KubeError(ApiFailure::Status(500)));

    let r = MemcachedReconciler::reconcile(&m, Err(ApiFailure::Transport));
    assert_eq!(r.unwrap_err(), Error::KubeError(ApiFailure::Transport));
}

#[test]
fn error_policy_is_flat_for_every_kind() {
    let m = example(3, 11211);
    let transient = Error::KubeError(ApiFailure::Status(500));
    let lost = Error::KubeError(ApiFailure::Transport);
    let invalid = Error::UserInputError("bad spec".to_string());
    assert_eq!(
        MemcachedReconciler::error_policy(&m, &transient),
        Action::RequeueAfter(ERROR_RETRY_SECS)
    );
    assert_eq!(
        MemcachedReconciler::error_policy(&m, &lost),
        Action::RequeueAfter(ERROR_RETRY_SECS)
    );
    assert_eq!(
        MemcachedReconciler::error_policy(&m, &invalid),
        Action::RequeueAfter(ERROR_RETRY_SECS)
    );
    assert_eq!(ERROR_RETRY_SECS, 5);
    assert_eq!(RESYNC_SECS, 60);
}
