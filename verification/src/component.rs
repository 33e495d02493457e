//! Components of the surrounding system that an all-in-one launcher can
//! dispatch to. Only the alias table is part of this library; actually
//! starting a component is external plumbing.

use vstd::prelude::*;

verus! {

/// A component of the surrounding system that can be launched by name.
#[derive(Clone, Copy, Debug, PartialEq, Eq)]
pub enum Component {
    Compute,
    Meta,
    Frontend,
    Compactor,
    Ctl,
    Playground,
}

/// The alternative command names under which each component can be launched.
pub open spec fn spec_aliases(c: Component) -> Seq<Seq<char>> {
    match c {
        Component::Compute => seq!["compute-node"@, "compute_node"@],
        Component::Meta => seq!["meta-node"@, "meta_node"@],
        Component::Frontend => seq!["frontend-node"@, "frontend_node"@],
        Component::Compactor => seq!["compactor-node"@, "compactor_node"@],
        Component::Ctl => seq!["risectl"@],
        Component::Playground => seq!["play"@],
    }
}

impl Component {
    /// Aliases that can be used to launch the component.
    pub fn aliases(self) -> (r: Vec<&'static str>)
        ensures
            r@.len() == spec_aliases(self).len(),
            forall|i: int| 0 <= i < r@.len() ==> r@[i]@ == spec_aliases(self)[i],
    {
        match self {
            Component::Compute => vec!["compute-node", "compute_node"],
            Component::Meta => vec!["meta-node", "meta_node"],
            Component::Frontend => vec!["frontend-node", "frontend_node"],
            Component::Compactor => vec!["compactor-node", "compactor_node"],
            Component::Ctl => vec!["risectl"],
            Component::Playground => vec!["play"],
        }
    }
}

} // verus!
