use memcached_operator::action::Action;
use memcached_operator::api::{Memcached, MemcachedSpec};
use memcached_operator::deployment::Deployment;
use memcached_operator::dispatcher::ControllerRunner;
use memcached_operator::errors::ApiFailure;
use memcached_operator::reconciler::{ChildOp, MemcachedReconciler};

// The whole lifecycle of one resource: created, scaled, deleted.
#[test]
fn example_resource_lifecycle() {
    // resource {name: "example", size: 3, containerPort: 11211} created
    let m = Memcached {
        name: "example".to_string(),
        namespace: "default".to_string(),
        uid: Some("af12".to_string()),
        spec: MemcachedSpec { size: 3, container_port: 11211 },
        status: None,
    };

    // first reconcile: no child yet, so one create call is decided
    let fetched: Result<Deployment, ApiFailure> = Err(ApiFailure::Status(404));
    let (op, action) = MemcachedReconciler::reconcile(&m, fetched).unwrap();
    let child = match op {
        ChildOp::Create(d) => d,
        other => panic!("expected a create, got {:?}", other),
    };
    assert_eq!(action, Action::RequeueAfter(60));
    assert_eq!(child.name, "example-deployment");
    assert_eq!(child.replicas, Some(3));
    assert_eq!(child.containers.len(), 1);
    assert_eq!(child.containers[0].ports.len(), 1);
    assert_eq!(child.containers[0].ports[0].container_port, 11211);
    assert_eq!(child.owner_references.len(), 1);
    assert_eq!(child.owner_references[0].name, "example");

    // resource updated to size 5: the next reconcile issues exactly one
    // update that sets replicas and touches nothing else
    let mut scaled = m.clone();
    scaled.spec.size = 5;
    let (op, action) = MemcachedReconciler::reconcile(&scaled, Ok(child.clone())).unwrap();
    let updated = match op {
        ChildOp::Update(u) => u,
        other => panic!("expected an update, got {:?}", other),
    };
    assert_eq!(action, Action::RequeueAfter(60));
    assert_eq!(updated.replicas, Some(5));
    assert_eq!(updated.name, child.name);
    assert_eq!(updated.namespace, child.namespace);
    assert_eq!(updated.owner_references, child.owner_references);
    assert_eq!(updated.selector, child.selector);
    assert_eq!(updated.template_labels, child.template_labels);
    assert_eq!(updated.containers, child.containers);

    // the converged state needs no further write
    let (op, _) = MemcachedReconciler::reconcile(&scaled, Ok(updated)).unwrap();
    assert_eq!(op, ChildOp::Noop);

    // resource deleted: the key resolves to nothing and no reconcile runs;
    // the garbage collector removes the child through its owner reference
    let gone: Option<Memcached> = None;
    assert!(!ControllerRunner::<Memcached>::should_invoke(&gone));
}
