use vstd::prelude::*;

verus! {

/// One `key: value` label.
#[derive(Clone, Debug, PartialEq, Eq)]
pub struct Label {
    pub key: String,
    pub value: String,
}

/// The mathematical value of a [`Label`].
#[verifier::ext_equal]
pub struct LabelView {
    pub key: Seq<char>,
    pub value: Seq<char>,
}

impl View for Label {
    type V = LabelView;

    open spec fn view(&self) -> LabelView {
        LabelView { key: self.key@, value: self.value@ }
    }
}

impl DeepView for Label {
    type V = LabelView;

    open spec fn deep_view(&self) -> LabelView {
        self.view()
    }
}

/// A back-reference from a child object to the parent that controls it.
/// The cluster's garbage collector cascades deletion of the parent to every
/// child that carries such a reference.
#[derive(Clone, Debug, PartialEq, Eq)]
pub struct OwnerReference {
    pub api_version: String,
    pub kind: String,
    pub name: String,
    pub uid: String,
    pub controller: Option<bool>,
    pub block_owner_deletion: Option<bool>,
}

/// The mathematical value of an [`OwnerReference`].
#[verifier::ext_equal]
pub struct OwnerReferenceView {
    pub api_version: Seq<char>,
    pub kind: Seq<char>,
    pub name: Seq<char>,
    pub uid: Seq<char>,
    pub controller: Option<bool>,
    pub block_owner_deletion: Option<bool>,
}

impl View for OwnerReference {
    type V = OwnerReferenceView;

    open spec fn view(&self) -> OwnerReferenceView {
        OwnerReferenceView {
            api_version: self.api_version@,
            kind: self.kind@,
            name: self.name@,
            uid: self.uid@,
            controller: self.controller,
            block_owner_deletion: self.block_owner_deletion,
        }
    }
}

impl DeepView for OwnerReference {
    type V = OwnerReferenceView;

    open spec fn deep_view(&self) -> OwnerReferenceView {
        self.view()
    }
}

/// One port a container exposes.
#[derive(Clone, Copy, Debug, PartialEq, Eq, Structural)]
pub struct ContainerPort {
    pub container_port: i32,
}

/// The mathematical value of a [`ContainerPort`].
#[verifier::ext_equal]
pub struct ContainerPortView {
    pub container_port: int,
}

impl View for ContainerPort {
    type V = ContainerPortView;

    open spec fn view(&self) -> ContainerPortView {
        ContainerPortView { container_port: self.container_port as int }
    }
}

impl DeepView for ContainerPort {
    type V = ContainerPortView;

    open spec fn deep_view(&self) -> ContainerPortView {
        self.view()
    }
}

/// One container of the child's pod template.
#[derive(Clone, Debug, PartialEq, Eq)]
pub struct Container {
    pub name: String,
    pub image: String,
    pub ports: Vec<ContainerPort>,
}

/// The mathematical value of a [`Container`].
#[verifier::ext_equal]
pub struct ContainerView {
    pub name: Seq<char>,
    pub image: Seq<char>,
    pub ports: Seq<ContainerPortView>,
}

impl View for Container {
    type V = ContainerView;

    open spec fn view(&self) -> ContainerView {
        ContainerView { name: self.name@, image: self.image@, ports: self.ports.deep_view() }
    }
}

impl DeepView for Container {
    type V = ContainerView;

    open spec fn deep_view(&self) -> ContainerView {
        self.view()
    }
}

/// The managed child object as the control loop reads and writes it: the
/// fields of a Deployment that the convergence algorithm observes or sets.
#[derive(Clone, Debug, PartialEq, Eq)]
pub struct Deployment {
    pub name: String,
    pub namespace: String,
    pub owner_references: Vec<OwnerReference>,
    /// The declared replica count; the cluster treats an absent value as 1.
    pub replicas: Option<i32>,
    /// The labels the child selects its pods by.
    pub selector: Vec<Label>,
    /// The labels stamped on the pod template.
    pub template_labels: Vec<Label>,
    pub containers: Vec<Container>,
}

/// The mathematical value of a [`Deployment`].
#[verifier::ext_equal]
pub struct DeploymentView {
    pub name: Seq<char>,
    pub namespace: Seq<char>,
    pub owner_references: Seq<OwnerReferenceView>,
    pub replicas: Option<int>,
    pub selector: Seq<LabelView>,
    pub template_labels: Seq<LabelView>,
    pub containers: Seq<ContainerView>,
}

impl View for Deployment {
    type V = DeploymentView;

    open spec fn view(&self) -> DeploymentView {
        DeploymentView {
            name: self.name@,
            namespace: self.namespace@,
            owner_references: self.owner_references.deep_view(),
            replicas: match self.replicas {
                Some(r) => Some(r as int),
                None => None,
            },
            selector: self.selector.deep_view(),
            template_labels: self.template_labels.deep_view(),
            containers: self.containers.deep_view(),
        }
    }
}

impl DeepView for Deployment {
    type V = DeploymentView;

    open spec fn deep_view(&self) -> DeploymentView {
        self.view()
    }
}

} // verus!
