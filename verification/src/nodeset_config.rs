//! Configuration records for generating node-set code: which schema files to
//! read, where to put the output, and which event types to emit. The
//! generator itself works on syntax trees and lives outside the core.

use vstd::prelude::*;

verus! {

/// One schema file and the path its generated types live under.
#[derive(Clone, Debug, PartialEq, Eq)]
pub struct NodeSetTypes {
    /// The schema file to read.
    pub file: String,
    /// The path the generated types are rooted at.
    pub root_path: String,
}

/// A node set another node set depends on.
#[derive(Clone, Debug, PartialEq, Eq)]
pub struct DependentNodeset {
    /// The schema file of the dependency.
    pub file: String,
    /// Where the dependency's generated code is imported from.
    pub import_path: String,
}

/// Where generated event types go.
#[derive(Clone, Debug, PartialEq, Eq)]
pub struct EventsTarget {
    /// The directory the event code is written to.
    pub output_dir: String,
    /// A header prepended to every generated file.
    pub extra_header: String,
    /// Node sets the events depend on.
    pub dependent_nodesets: Vec<DependentNodeset>,
}

/// One node-set code-generation target.
#[derive(Debug)]
pub struct NodeSetCodeGenTarget {
    /// The node-set file to read.
    pub file: String,
    /// The directory the generated code is written to.
    pub output_dir: String,
    /// How many node constructors go into one generated file.
    pub max_nodes_per_file: usize,
    /// The schema types the node set refers to.
    pub types: Vec<NodeSetTypes>,
    /// The name of the generated module.
    pub name: String,
    /// A header prepended to every generated file.
    pub extra_header: String,
    /// Where event types go, when they are generated.
    pub events: Option<EventsTarget>,
}

impl NodeSetCodeGenTarget {
    /// How many generated files a node count fills: full chunks plus a
    /// partial one.
    pub fn chunk_count(&self, node_count: usize) -> (r: usize)
        requires
            self.max_nodes_per_file > 0,
        ensures
            r == node_count as int / self.max_nodes_per_file as int + (
            if node_count as int % self.max_nodes_per_file as int > 0 {
                1int
            } else {
                0int
            }),
    {
        let full = node_count / self.max_nodes_per_file;
        if node_count % self.max_nodes_per_file > 0 {
            proof {
                vstd::arithmetic::div_mod::lemma_fundamental_div_mod(
                    node_count as int,
                    self.max_nodes_per_file as int,
                );
                assert((self.max_nodes_per_file as int) * (full as int) >= full as int)
                    by (nonlinear_arith)
                    requires
                        self.max_nodes_per_file as int >= 1,
                        full as int >= 0,
                ;
                assert(full < node_count);
            }
            full + 1
        } else {
            full
        }
    }
}

} // verus!
