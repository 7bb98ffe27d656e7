use vstd::prelude::*;

verus! {

/// How to reach one node, and what to do when its deployment fails.
#[derive(Clone, Debug)]
pub struct NodeCfg {
    /// Host name or address to connect to.
    pub location: String,
    /// SSH port; the transport's default when absent.
    pub ssh_port: Option<u16>,
    /// Whether a failed copy or build is followed by a rollback on the node.
    pub rollback_on_failure: bool,
}

impl NodeCfg {
    /// An equal copy.
    pub fn duplicate(&self) -> (r: NodeCfg)
        ensures
            r == *self,
    {
        NodeCfg {
            location: self.location.clone(),
            ssh_port: self.ssh_port,
            rollback_on_failure: self.rollback_on_failure,
        }
    }
}

/// Options shared, read-only, by every node of one run.
#[derive(Clone, Debug)]
pub struct DeployOpts {
    /// Make the new configuration the boot default instead of switching now.
    pub boot: bool,
    /// When present, only the nodes with these names are deployed.
    pub targets: Option<Vec<String>>,
    /// Ask the remote build for full traces on evaluation errors.
    pub show_trace: bool,
}

} // verus!
