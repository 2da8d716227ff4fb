//! The nodes and edges handed to a graph store, and the graph a stream of
//! edge records stands for once merged.

use vstd::prelude::*;

verus! {

/// A graph node, identified by its key fields alone.
#[derive(Debug, Clone, PartialEq, Eq)]
pub enum Node {
    Project { name: String },
    File { path: String },
    /// All functions of one name in a project are one node.
    Function { name: String, project: String },
    Struct { name: String, project: String },
    Trait { name: String, project: String },
}

/// The kind of a relationship.
#[derive(Debug, Clone, Copy, PartialEq, Eq)]
pub enum EdgeKind {
    /// Project to File.
    ContainsFile,
    /// File to Function, Struct or Trait declared in it.
    Contains,
    /// Function to Function it calls.
    Calls,
    /// Function to Struct it builds.
    Instantiates,
    /// Struct to Trait it implements.
    Implements,
}

/// A relationship record. Storing it upserts both end nodes, then the edge.
#[derive(Debug, Clone, PartialEq, Eq)]
pub struct Edge {
    pub kind: EdgeKind,
    pub source: Node,
    pub target: Node,
}

/// The edges of the graph that merging `records` into a store yields.
pub open spec fn graph_edges(records: Seq<Edge>) -> Set<Edge> {
    records.to_set()
}

/// The nodes of the graph that merging `records` into a store yields: the
/// end nodes of every record.
pub open spec fn graph_nodes(records: Seq<Edge>) -> Set<Node> {
    Set::new(|n: Node| exists|i: int| 0 <= i < records.len() && (#[trigger] records[i].source == n || records[i].target == n))
}

/// The record linking a project to one of its files.
pub fn file_record(project: &String, path: &String) -> (r: Edge)
    ensures
        r == (Edge {
            kind: EdgeKind::ContainsFile,
            source: Node::Project { name: *project },
            target: Node::File { path: *path },
        }),
{
    Edge {
        kind: EdgeKind::ContainsFile,
        source: Node::Project { name: project.clone() },
        target: Node::File { path: path.clone() },
    }
}

} // verus!
