//! A Kubernetes-style operator core: the reconciliation control loop that
//! drives cluster state toward a declared desired state.
//!
//! The library holds the decision logic of the operator: the convergence
//! algorithm that manages a single child Deployment per parent resource
//! (create when absent, patch when drifted), the error policy, and the
//! per-key scheduling state machine that serializes and requeues reconcile
//! attempts. All cluster I/O is performed by the surrounding program, which
//! hands the observed state in and carries the decided effect out.

pub mod action;
pub mod api;
pub mod deployment;
pub mod dispatcher;
pub mod errors;
pub mod reconciler;
