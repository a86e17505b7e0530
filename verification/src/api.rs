use vstd::prelude::*;

verus! {

/// The desired state declared by one custom resource: how many replicas the
/// managed child should run and which port its container should expose.
#[derive(Clone, Copy, Debug, PartialEq, Eq, Structural)]
pub struct MemcachedSpec {
    pub size: i32,
    pub container_port: i32,
}

/// The mathematical value of a [`MemcachedSpec`].
#[verifier::ext_equal]
pub struct MemcachedSpecView {
    pub size: int,
    pub container_port: int,
}

impl View for MemcachedSpec {
    type V = MemcachedSpecView;

    open spec fn view(&self) -> MemcachedSpecView {
        MemcachedSpecView { size: self.size as int, container_port: self.container_port as int }
    }
}

/// One entry of a resource's status conditions.
#[derive(Clone, Debug, PartialEq, Eq)]
pub struct Condition {
    pub type_: String,
    pub status: String,
    pub reason: Option<String>,
    pub message: Option<String>,
}

/// The mathematical value of a [`Condition`].
#[verifier::ext_equal]
pub struct ConditionView {
    pub type_: Seq<char>,
    pub status: Seq<char>,
    pub reason: Option<Seq<char>>,
    pub message: Option<Seq<char>>,
}

impl View for Condition {
    type V = ConditionView;

    open spec fn view(&self) -> ConditionView {
        ConditionView {
            type_: self.type_@,
            status: self.status@,
            reason: self.reason.deep_view(),
            message: self.message.deep_view(),
        }
    }
}

impl DeepView for Condition {
    type V = ConditionView;

    open spec fn deep_view(&self) -> ConditionView {
        self.view()
    }
}

/// The observed status of a resource. The reconcile algorithm never writes
/// it; the field exists because the resource schema declares it.
#[derive(Clone, Debug, PartialEq, Eq)]
pub struct MemcachedStatus {
    pub conditions: Vec<Condition>,
}

/// The mathematical value of a [`MemcachedStatus`].
#[verifier::ext_equal]
pub struct MemcachedStatusView {
    pub conditions: Seq<ConditionView>,
}

impl View for MemcachedStatus {
    type V = MemcachedStatusView;

    open spec fn view(&self) -> MemcachedStatusView {
        MemcachedStatusView { conditions: self.conditions.deep_view() }
    }
}

impl DeepView for MemcachedStatus {
    type V = MemcachedStatusView;

    open spec fn deep_view(&self) -> MemcachedStatusView {
        self.view()
    }
}

/// One desired resource as last observed: its identity on the cluster and
/// its declared spec. The library only reads it.
#[derive(Clone, Debug, PartialEq, Eq)]
pub struct Memcached {
    /// The resource's name; also the stem of the managed child's name.
    pub name: String,
    /// The namespace the resource, and its child, live in.
    pub namespace: String,
    /// The unique id the cluster assigned to this resource instance, if the
    /// observation carried one.
    pub uid: Option<String>,
    pub spec: MemcachedSpec,
    pub status: Option<MemcachedStatus>,
}

/// The mathematical value of a [`Memcached`].
#[verifier::ext_equal]
pub struct MemcachedView {
    pub name: Seq<char>,
    pub namespace: Seq<char>,
    pub uid: Option<Seq<char>>,
    pub spec: MemcachedSpecView,
    pub status: Option<MemcachedStatusView>,
}

impl View for Memcached {
    type V = MemcachedView;

    open spec fn view(&self) -> MemcachedView {
        MemcachedView {
            name: self.name@,
            namespace: self.namespace@,
            uid: self.uid.deep_view(),
            spec: self.spec@,
            status: self.status.deep_view(),
        }
    }
}

} // verus!
