//! How secrets travel when projects are stamped out of a template, and the
//! input of the deploy workflow.

use vstd::prelude::*;

verus! {

/// What happens to a template's secrets in the projects created from it.
#[derive(Debug, Clone, Copy, PartialEq, Eq, Structural)]
pub enum SecretCopyMode {
    CopyEncrypted,
    Rebind,
    Empty,
}

/// The input handed to the deploy workflow.
#[derive(Debug, Clone)]
pub struct DeployWorkflowInput {
    pub deployment_id: String,
    pub service_id: String,
}

} // verus!
