//! Data model of the render graph: nodes are identified by handle or name,
//! resource slots describe what a node consumes and produces, and edges
//! order nodes either directly or through a resource flowing between two
//! slots.

use crate::define::{Buffer as BufferTag, ImageView as ImageViewTag, Sampler as SamplerTag};
use crate::pool::Handle;
use vstd::prelude::*;

verus! {

/// The identity of a graph node.
#[derive(Debug, Clone, Copy, PartialEq, Eq, Structural, Hash)]
pub struct NodeHandle {
    pub id: u64,
}

impl NodeHandle {
    /// Builds a node handle from its raw id.
    pub fn from_raw(id: u64) -> (r: Self)
        ensures
            r.id == id,
    {
        NodeHandle { id }
    }
}

/// A node named either by handle or by name.
#[derive(Debug, Clone, PartialEq, Eq)]
pub enum NodeIdentifier {
    Name(String),
    Handle(NodeHandle),
}

/// An ordering constraint between two nodes: either a bare dependency, or
/// a resource flowing from an output slot into an input slot.
#[derive(Debug, Clone, Copy, PartialEq, Eq, Structural)]
pub enum Edge {
    NodeEdge { input_node_handle: NodeHandle, output_node_handle: NodeHandle },
    ResourceEdge {
        input_node_handle: NodeHandle,
        input_slot_index: usize,
        output_node_handle: NodeHandle,
        output_slot_index: usize,
    },
}

impl Edge {
    /// The spec-level input node of an edge.
    pub open spec fn spec_input_node(&self) -> NodeHandle {
        match self {
            Edge::NodeEdge { input_node_handle, .. } => *input_node_handle,
            Edge::ResourceEdge { input_node_handle, .. } => *input_node_handle,
        }
    }

    /// The spec-level output node of an edge.
    pub open spec fn spec_output_node(&self) -> NodeHandle {
        match self {
            Edge::NodeEdge { output_node_handle, .. } => *output_node_handle,
            Edge::ResourceEdge { output_node_handle, .. } => *output_node_handle,
        }
    }

    /// The node on the consuming end of the edge.
    pub fn get_input_node(&self) -> (r: NodeHandle)
        ensures
            r == self.spec_input_node(),
    {
        match self {
            Edge::NodeEdge { input_node_handle: input, .. } => *input,
            Edge::ResourceEdge { input_node_handle: input, .. } => *input,
        }
    }

    /// The node on the producing end of the edge.
    pub fn get_output_node(&self) -> (r: NodeHandle)
        ensures
            r == self.spec_output_node(),
    {
        match self {
            Edge::NodeEdge { output_node_handle: output, .. } => *output,
            Edge::ResourceEdge { output_node_handle: output, .. } => *output,
        }
    }
}

/// A graph-visible resource: a buffer, an image view, or a sampler.
#[derive(Debug, Clone, Copy, PartialEq, Eq)]
pub enum Resource {
    Buffer(Buffer),
    ImageView(ImageView),
    Sampler(Sampler),
}

impl Resource {
    /// The spec-level classification of the resource.
    pub open spec fn spec_resource_type(&self) -> ResourceType {
        match self {
            Resource::Buffer(_) => ResourceType::Buffer,
            Resource::ImageView(_) => ResourceType::ImageView,
            Resource::Sampler(_) => ResourceType::Sampler,
        }
    }

    /// Which kind of resource this is.
    pub fn resource_type(&self) -> (r: ResourceType)
        ensures
            r == self.spec_resource_type(),
    {
        match self {
            Resource::Buffer(_) => ResourceType::Buffer,
            Resource::ImageView(_) => ResourceType::ImageView,
            Resource::Sampler(_) => ResourceType::Sampler,
        }
    }
}

/// The kinds of graph resources.
#[derive(Debug, Clone, Copy, PartialEq, Eq, Structural)]
pub enum ResourceType {
    Buffer,
    ImageView,
    Sampler,
}

/// A buffer resource.
#[derive(Debug, Clone, Copy, PartialEq, Eq)]
pub struct Buffer {
    pub handle: Handle<BufferTag>,
}

/// An image view resource.
#[derive(Debug, Clone, Copy, PartialEq, Eq)]
pub struct ImageView {
    pub handle: Handle<ImageViewTag>,
}

/// A sampler resource.
#[derive(Debug, Clone, Copy, PartialEq, Eq)]
pub struct Sampler {
    pub handle: Handle<SamplerTag>,
}

/// A named, typed slot through which a node consumes or produces one
/// resource.
#[derive(Debug, Clone)]
pub struct ResourceSlot {
    pub name: String,
    pub resource_type: ResourceType,
}

impl ResourceSlot {
    /// A slot with the given name and resource kind.
    pub fn new(name: String, resource_type: ResourceType) -> (r: Self)
        ensures
            r.name@ == name@,
            r.resource_type == resource_type,
    {
        ResourceSlot { name, resource_type }
    }

    /// A slot carrying an image view.
    pub fn image_view(name: &str) -> (r: Self)
        ensures
            r.name@ == name@,
            r.resource_type == ResourceType::ImageView,
    {
        ResourceSlot { name: name.to_owned(), resource_type: ResourceType::ImageView }
    }
}

/// A slot named either by name or by position.
#[derive(Debug, Clone, PartialEq, Eq)]
pub enum ResourceSlotIdentifier {
    Name(String),
    Index(usize),
}

/// Why a graph operation failed.
#[derive(Debug)]
pub enum RenderGraphError {
    InvalidNode(NodeIdentifier),
    InvalidNodeInputSlot(NodeIdentifier, ResourceSlotIdentifier),
    InvalidNodeOutputSlot(NodeIdentifier, ResourceSlotIdentifier),
    MismatchNodeSlotResourceType(
        NodeIdentifier,
        ResourceSlotIdentifier,
        NodeIdentifier,
        ResourceSlotIdentifier,
    ),
    NodeInputSlotAlreadyConnected(NodeIdentifier, ResourceSlotIdentifier, NodeIdentifier),
    EdgeAlreadyExists(Edge),
    EdgeDoesNotExist(Edge),
    NodeOnUpdateError(NodeIdentifier),
    NodeOnRenderError(NodeIdentifier),
    Unknown,
}

/// The runner that walks a graph and drives a backend; graph execution
/// itself is outside this crate's scope, so the type only marks the
/// component.
#[derive(Debug, Clone, Copy, PartialEq, Eq, Structural)]
pub struct RenderGraphSystem;

} // verus!
