//! Which nodes a run deploys.
//!
//! Every target name must name a node before any node is touched; the run
//! then deploys every node, or only the targets when some are given, each in
//! a [`NodeRun`] of its own.
use vstd::prelude::*;
use crate::config::{DeployOpts, NodeCfg};
use crate::node::{DeploymentResult, NodeRun, Phase};

verus! {

/// Why a run was refused before any node was touched.
#[derive(Clone, Debug)]
pub enum ValidationError {
    /// A target names no node.
    UnknownTarget(String),
}

/// Whether some node is named `name`.
pub open spec fn has_node(nodes: Seq<(String, NodeCfg)>, name: Seq<char>) -> bool {
    exists|j: int| 0 <= j < nodes.len() && nodes[j].0@ == name
}

/// Whether no two nodes share a name.
pub open spec fn names_unique(nodes: Seq<(String, NodeCfg)>) -> bool {
    forall|a: int, b: int| 0 <= a < b < nodes.len() ==> nodes[a].0@ != nodes[b].0@
}

/// Whether `names` holds `name`.
pub open spec fn names_hold(names: Seq<String>, name: Seq<char>) -> bool {
    exists|k: int| 0 <= k < names.len() && names[k]@ == name
}

/// Whether the node named `name` is deployed under the target filter.
pub open spec fn is_selected(targets: Option<Vec<String>>, name: Seq<char>) -> bool {
    match targets {
        None => true,
        Some(ts) => names_hold(ts@, name),
    }
}

/// Whether every target, if there are any, names a node.
pub open spec fn targets_known(nodes: Seq<(String, NodeCfg)>, targets: Option<Vec<String>>) -> bool {
    match targets {
        None => true,
        Some(ts) => forall|k: int| 0 <= k < ts@.len() ==> has_node(nodes, #[trigger] ts@[k]@),
    }
}

/// Whether `t` is the first target that names no node.
pub open spec fn first_unknown(nodes: Seq<(String, NodeCfg)>, targets: Option<Vec<String>>, t: Seq<char>) -> bool {
    match targets {
        None => false,
        Some(ts) => exists|k: int|
            0 <= k < ts@.len() && #[trigger] ts@[k]@ == t && !has_node(nodes, t) && forall|m: int|
                0 <= m < k ==> has_node(nodes, #[trigger] ts@[m]@),
    }
}

/// Whether `sel` lists, in increasing order, exactly the positions of the
/// nodes that the target filter selects.
pub open spec fn is_selection(nodes: Seq<(String, NodeCfg)>, targets: Option<Vec<String>>, sel: Seq<usize>) -> bool {
    &&& forall|a: int, b: int| 0 <= a < b < sel.len() ==> sel[a] < sel[b]
    &&& forall|a: int| 0 <= a < sel.len() ==> sel[a] < nodes.len()
    &&& forall|a: int| 0 <= a < sel.len() ==> is_selected(targets, nodes[sel[a] as int].0@)
    &&& forall|j: int|
        0 <= j < nodes.len() && is_selected(targets, nodes[j].0@) ==> exists|a: int|
            0 <= a < sel.len() && sel[a] == j
}

/// The position of the node named `name`, if there is one.
pub fn find_node(nodes: &Vec<(String, NodeCfg)>, name: &String) -> (r: Option<usize>)
    ensures
        r is None <==> !has_node(nodes@, name@),
        r matches Some(j) ==> j < nodes@.len() && nodes@[j as int].0@ == name@,
{
    let mut j: usize = 0;
    while j < nodes.len()
        invariant
            j <= nodes@.len(),
            forall|m: int| 0 <= m < j ==> nodes@[m].0@ != name@,
        decreases nodes@.len() - j,
    {
        if nodes[j].0 == *name {
            return Some(j);
        }
        j += 1;
    }
    None
}

/// Whether `names` holds `name`.
pub fn contains_name(names: &Vec<String>, name: &String) -> (r: bool)
    ensures
        r == names_hold(names@, name@),
{
    let mut k: usize = 0;
    while k < names.len()
        invariant
            k <= names@.len(),
            forall|m: int| 0 <= m < k ==> names@[m]@ != name@,
        decreases names@.len() - k,
    {
        if names[k] == *name {
            return true;
        }
        k += 1;
    }
    false
}

/// Whether no two nodes share a name.
pub fn names_are_unique(nodes: &Vec<(String, NodeCfg)>) -> (r: bool)
    ensures
        r == names_unique(nodes@),
{
    let mut b: usize = 0;
    while b < nodes.len()
        invariant
            b <= nodes@.len(),
            forall|x: int, y: int| 0 <= x < y < b ==> nodes@[x].0@ != nodes@[y].0@,
        decreases nodes@.len() - b,
    {
        let mut a: usize = 0;
        while a < b
            invariant
                a <= b < nodes@.len(),
                forall|x: int, y: int| 0 <= x < y < b ==> nodes@[x].0@ != nodes@[y].0@,
                forall|x: int| 0 <= x < a ==> nodes@[x].0@ != nodes@[b as int].0@,
            decreases b - a,
        {
            if nodes[a].0 == nodes[b].0 {
                assert(!names_unique(nodes@)) by {
                    assert(nodes@[a as int].0@ == nodes@[b as int].0@);
                }
                return false;
            }
            a += 1;
        }
        b += 1;
    }
    true
}

/// Check that every target names a node; the error names the first that
/// does not.
pub fn validate_targets(nodes: &Vec<(String, NodeCfg)>, targets: &Option<Vec<String>>) -> (r: Result<(), ValidationError>)
    ensures
        r is Ok <==> targets_known(nodes@, *targets),
        r matches Err(ValidationError::UnknownTarget(t)) ==> first_unknown(nodes@, *targets, t@),
{
    match targets {
        None => Ok(()),
        Some(ts) => {
            let mut k: usize = 0;
            while k < ts.len()
                invariant
                    *targets == Some(*ts),
                    k <= ts@.len(),
                    forall|m: int| 0 <= m < k ==> has_node(nodes@, #[trigger] ts@[m]@),
                decreases ts@.len() - k,
            {
                if find_node(nodes, &ts[k]).is_none() {
                    let t = ts[k].clone();
                    let ghost kk = k as int;
                    assert(ts@[kk]@ == t@ && !has_node(nodes@, t@));
                    assert(!targets_known(nodes@, *targets)) by {
                        if targets_known(nodes@, *targets) {
                            assert(has_node(nodes@, (*targets)->Some_0@[kk]@));
                        }
                    }
                    return Err(ValidationError::UnknownTarget(t));
                }
                k += 1;
            }
            Ok(())
        },
    }
}

/// The positions of the nodes that the run deploys, or the refusal of a
/// target that names no node. Node names are unique within a run.
pub fn select_nodes(nodes: &Vec<(String, NodeCfg)>, opts: &DeployOpts) -> (r: Result<Vec<usize>, ValidationError>)
    requires
        names_unique(nodes@),
    ensures
        r is Ok <==> targets_known(nodes@, opts.targets),
        r matches Err(ValidationError::UnknownTarget(t)) ==> first_unknown(nodes@, opts.targets, t@),
        r matches Ok(sel) ==> is_selection(nodes@, opts.targets, sel@),
{
    match validate_targets(nodes, &opts.targets) {
        Err(e) => return Err(e),
        Ok(()) => {},
    }
    let mut sel: Vec<usize> = Vec::new();
    let mut j: usize = 0;
    while j < nodes.len()
        invariant
            j <= nodes@.len(),
            forall|a: int, b: int| 0 <= a < b < sel@.len() ==> sel@[a] < sel@[b],
            forall|a: int| 0 <= a < sel@.len() ==> sel@[a] < j,
            forall|a: int| 0 <= a < sel@.len() ==> is_selected(opts.targets, nodes@[sel@[a] as int].0@),
            forall|i: int|
                0 <= i < j && is_selected(opts.targets, nodes@[i].0@) ==> exists|a: int|
                    0 <= a < sel@.len() && sel@[a] == i,
        decreases nodes@.len() - j,
    {
        let chosen = match &opts.targets {
            None => true,
            Some(ts) => contains_name(ts, &nodes[j].0),
        };
        if chosen {
            let ghost before = sel@;
            sel.push(j);
            assert forall|i: int|
                0 <= i <= j && is_selected(opts.targets, nodes@[i].0@) implies exists|a: int|
                    0 <= a < sel@.len() && sel@[a] == i by {
                if i < j {
                    let a = choose|a: int| 0 <= a < before.len() && before[a] == i;
                    assert(sel@[a] == i);
                } else {
                    assert(sel@[before.len() as int] == i);
                }
            }
        }
        j += 1;
    }
    Ok(sel)
}

/// The runs of the nodes that the run deploys, one per selected node in the
/// order of `nodes`, each not yet connected; or the refusal of a target that
/// names no node, in which case no run exists and nothing is deployed.
pub fn plan_runs(nodes: &Vec<(String, NodeCfg)>, opts: &DeployOpts, cfg_dir: &String) -> (r: Result<Vec<NodeRun>, ValidationError>)
    requires
        names_unique(nodes@),
    ensures
        r is Ok <==> targets_known(nodes@, opts.targets),
        r matches Err(ValidationError::UnknownTarget(t)) ==> first_unknown(nodes@, opts.targets, t@),
        r matches Ok(runs) ==> exists|sel: Seq<usize>| {
            &&& is_selection(nodes@, opts.targets, sel)
            &&& runs@.len() == sel.len()
            &&& forall|a: int| 0 <= a < sel.len() ==> #[trigger] runs@[a].starts(nodes@[sel[a] as int], *cfg_dir, *opts)
        },
{
    let sel = match select_nodes(nodes, opts) {
        Err(e) => return Err(e),
        Ok(sel) => sel,
    };
    let mut runs: Vec<NodeRun> = Vec::new();
    let mut a: usize = 0;
    while a < sel.len()
        invariant
            a <= sel@.len(),
            is_selection(nodes@, opts.targets, sel@),
            runs@.len() == a,
            forall|b: int| 0 <= b < a ==> #[trigger] runs@[b].starts(nodes@[sel@[b] as int], *cfg_dir, *opts),
        decreases sel@.len() - a,
    {
        let j = sel[a];
        let run = NodeRun::new(nodes[j].0.clone(), nodes[j].1.duplicate(), cfg_dir.clone(), opts);
        runs.push(run);
        a += 1;
    }
    Ok(runs)
}

/// Whether every node's run ended `Succeeded`: the run's overall status.
pub fn all_succeeded(results: &Vec<DeploymentResult>) -> (r: bool)
    ensures
        r == forall|k: int| 0 <= k < results@.len() ==> (#[trigger] results@[k]).is_success(),
{
    let mut k: usize = 0;
    while k < results.len()
        invariant
            k <= results@.len(),
            forall|m: int| 0 <= m < k ==> (#[trigger] results@[m]).is_success(),
        decreases results@.len() - k,
    {
        match &results[k] {
            DeploymentResult::Succeeded => {},
            _ => return false,
        }
        k += 1;
    }
    true
}

} // verus!
