//! The scene graph: the nodes of the scene, in the order they were added.

use vstd::prelude::*;

verus! {

#[derive(Debug, Clone)]
pub struct SceneNode {
    pub name: String,
}

#[derive(Debug)]
pub struct SceneGraph {
    nodes: Vec<SceneNode>,
}

impl SceneNode {
    /// A node called `name`.
    pub fn new(name: &str) -> (node: SceneNode)
        ensures
            node.name@ == name@,
    {
        SceneNode { name: name.to_owned() }
    }
}

impl SceneGraph {
    /// The nodes, oldest first.
    pub closed spec fn nodes(&self) -> Seq<SceneNode> {
        self.nodes@
    }

    /// A graph without nodes.
    pub fn new() -> (graph: SceneGraph)
        ensures
            graph.nodes() == Seq::<SceneNode>::empty(),
    {
        SceneGraph { nodes: Vec::new() }
    }

    /// Adds `node` after the nodes that are there.
    pub fn add_node(&mut self, node: SceneNode)
        ensures
            final(self).nodes() == old(self).nodes().push(node),
    {
        self.nodes.push(node);
    }

    /// Number of nodes.
    pub fn len(&self) -> (n: usize)
        ensures
            n == self.nodes().len(),
    {
        self.nodes.len()
    }
}

impl Default for SceneGraph {
    fn default() -> (graph: SceneGraph)
        ensures
            graph.nodes() == Seq::<SceneNode>::empty(),
    {
        SceneGraph::new()
    }
}

} // verus!
