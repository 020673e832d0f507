//! Types of the DOM protocol domain: node mirrors and the query commands.

use vstd::prelude::*;

use crate::cdp::runtime::{ExecutionContextId, RemoteObject, RemoteObjectId};
use crate::types::FrameId;

verus! {

/// Unique DOM node identifier.
#[derive(Debug, Clone, Copy, PartialEq, Eq, Structural, Hash)]
pub struct NodeId(pub u32);

/// Unique DOM node identifier used to reference a node that may not have
/// been pushed to the front-end.
#[derive(Debug, Clone, Copy, PartialEq, Eq, Structural, Hash)]
pub struct BackendNodeId(pub u32);

/// Shadow root type.
#[derive(Debug, Clone, PartialEq, Eq, Structural, Hash)]
pub enum ShadowRootType {
    /// A user-agent shadow root.
    UserAgent,
    /// An open shadow root.
    Open,
    /// A closed shadow root.
    Closed,
}

impl ShadowRootType {
    /// The wire name of the shadow root type.
    pub fn as_str(&self) -> (r: &'static str)
        ensures
            *self is UserAgent ==> r@ == "user-agent"@,
            *self is Open ==> r@ == "open"@,
            *self is Closed ==> r@ == "closed"@,
    {
        match self {
            ShadowRootType::UserAgent => "user-agent",
            ShadowRootType::Open => "open",
            ShadowRootType::Closed => "closed",
        }
    }
}

/// Pseudo element type.
#[derive(Debug, Clone, PartialEq, Eq, Structural, Hash)]
pub enum PseudoType {
    /// The `first-line` pseudo element.
    FirstLine,
    /// The `first-letter` pseudo element.
    FirstLetter,
    /// The `before` pseudo element.
    Before,
    /// The `after` pseudo element.
    After,
    /// The `marker` pseudo element.
    Marker,
    /// The `backdrop` pseudo element.
    Backdrop,
    /// The `selection` pseudo element.
    Selection,
    /// The `target-text` pseudo element.
    TargetText,
    /// The `first-line-inherited` pseudo element.
    FirstLineInherited,
    /// The `scrollbar` pseudo element.
    Scrollbar,
    /// The `scrollbar-thumb` pseudo element.
    ScrollbarThumb,
    /// The `scrollbar-button` pseudo element.
    ScrollbarButton,
    /// The `scrollbar-track` pseudo element.
    ScrollbarTrack,
    /// The `scrollbar-track-piece` pseudo element.
    ScrollbarTrackPiece,
    /// The `scrollbar-corner` pseudo element.
    ScrollbarCorner,
    /// The `resizer` pseudo element.
    Resizer,
    /// The `input-list-button` pseudo element.
    InputListButton,
}

impl PseudoType {
    /// The wire name of the pseudo element type.
    pub fn as_str(&self) -> (r: &'static str)
        ensures
            *self is FirstLine ==> r@ == "first-line"@,
            *self is FirstLetter ==> r@ == "first-letter"@,
            *self is Before ==> r@ == "before"@,
            *self is After ==> r@ == "after"@,
            *self is Marker ==> r@ == "marker"@,
            *self is Backdrop ==> r@ == "backdrop"@,
            *self is Selection ==> r@ == "selection"@,
            *self is TargetText ==> r@ == "target-text"@,
            *self is FirstLineInherited ==> r@ == "first-line-inherited"@,
            *self is Scrollbar ==> r@ == "scrollbar"@,
            *self is ScrollbarThumb ==> r@ == "scrollbar-thumb"@,
            *self is ScrollbarButton ==> r@ == "scrollbar-button"@,
            *self is ScrollbarTrack ==> r@ == "scrollbar-track"@,
            *self is ScrollbarTrackPiece ==> r@ == "scrollbar-track-piece"@,
            *self is ScrollbarCorner ==> r@ == "scrollbar-corner"@,
            *self is Resizer ==> r@ == "resizer"@,
            *self is InputListButton ==> r@ == "input-list-button"@,
    {
        match self {
            PseudoType::FirstLine => "first-line",
            PseudoType::FirstLetter => "first-letter",
            PseudoType::Before => "before",
            PseudoType::After => "after",
            PseudoType::Marker => "marker",
            PseudoType::Backdrop => "backdrop",
            PseudoType::Selection => "selection",
            PseudoType::TargetText => "target-text",
            PseudoType::FirstLineInherited => "first-line-inherited",
            PseudoType::Scrollbar => "scrollbar",
            PseudoType::ScrollbarThumb => "scrollbar-thumb",
            PseudoType::ScrollbarButton => "scrollbar-button",
            PseudoType::ScrollbarTrack => "scrollbar-track",
            PseudoType::ScrollbarTrackPiece => "scrollbar-track-piece",
            PseudoType::ScrollbarCorner => "scrollbar-corner",
            PseudoType::Resizer => "resizer",
            PseudoType::InputListButton => "input-list-button",
        }
    }
}

/// Backend node with a friendly name.
#[derive(Debug)]
pub struct BackendNode {
    /// The node's type.
    pub node_type: u32,
    /// The node's name.
    pub node_name: String,
    /// The node's backend identifier.
    pub backend_node_id: BackendNodeId,
}

impl BackendNode {
    /// A backend node mirror.
    pub fn new(node_type: u32, node_name: String, backend_node_id: BackendNodeId) -> (r:
        BackendNode)
        ensures
            r.node_type == node_type,
            r.node_name == node_name,
            r.backend_node_id == backend_node_id,
    {
        BackendNode { node_type, node_name, backend_node_id }
    }
}

/// A mirror of an actual DOM node.
#[derive(Debug)]
pub struct Node {
    /// Node identifier used by the rest of the DOM messages.
    pub node_id: NodeId,
    /// The id of the parent node if any.
    pub parent_id: Option<NodeId>,
    /// The backend identifier for this node.
    pub backend_node_id: BackendNodeId,
    /// The node's type.
    pub node_type: u32,
    /// The node's name.
    pub node_name: String,
    /// The node's local name.
    pub local_name: String,
    /// The node's value.
    pub node_value: String,
    /// Child count for container nodes.
    pub child_node_count: Option<u32>,
    /// Child nodes of this node when requested with children.
    pub children: Option<Vec<Node>>,
    /// Attributes of the element node as a flat array `[name1, value1, ...]`.
    pub attributes: Option<Vec<String>>,
    /// Document URL that the document or frame-owner node points to.
    pub document_url: Option<String>,
    /// Base URL the node uses for URL completion.
    pub base_url: Option<String>,
    /// The document type's public id.
    pub public_id: Option<String>,
    /// The document type's system id.
    pub system_id: Option<String>,
    /// The document type's internal subset.
    pub internal_subset: Option<String>,
    /// The document's XML version for XML documents.
    pub xml_version: Option<String>,
    /// An attribute's name.
    pub name: Option<String>,
    /// An attribute's value.
    pub value: Option<String>,
    /// Pseudo element type for this node.
    pub pseudo_type: Option<PseudoType>,
    /// Shadow root type.
    pub shadow_root_type: Option<ShadowRootType>,
    /// Frame id for frame-owner elements.
    pub frame_id: Option<FrameId>,
    /// Content document for frame-owner elements.
    pub content_document: Option<Box<Node>>,
    /// Shadow root list for the given element host.
    pub shadow_roots: Option<Vec<Node>>,
    /// Content document fragment for template elements.
    pub template_content: Option<Box<Node>>,
    /// Pseudo elements associated with this node.
    pub pseudo_elements: Option<Vec<Node>>,
    /// Import document for HTML-import links.
    pub imported_document: Option<Box<Node>>,
    /// Distributed nodes for the given insertion point.
    pub distributed_nodes: Option<Vec<BackendNode>>,
    /// Whether the node is an SVG node.
    pub is_svg: Option<bool>,
}

impl Node {
    /// A node mirror with the required fields set and every optional field
    /// absent.
    pub fn new(
        node_id: NodeId,
        backend_node_id: BackendNodeId,
        node_type: u32,
        node_name: String,
        local_name: String,
        node_value: String,
    ) -> (r: Node)
        ensures
            r.node_id == node_id,
            r.backend_node_id == backend_node_id,
            r.node_type == node_type,
            r.node_name == node_name,
            r.local_name == local_name,
            r.node_value == node_value,
            r.parent_id is None,
            r.child_node_count is None,
            r.children is None,
            r.attributes is None,
            r.document_url is None,
            r.base_url is None,
            r.public_id is None,
            r.system_id is None,
            r.internal_subset is None,
            r.xml_version is None,
            r.name is None,
            r.value is None,
            r.pseudo_type is None,
            r.shadow_root_type is None,
            r.frame_id is None,
            r.content_document is None,
            r.shadow_roots is None,
            r.template_content is None,
            r.pseudo_elements is None,
            r.imported_document is None,
            r.distributed_nodes is None,
            r.is_svg is None,
    {
        Node {
            node_id,
            backend_node_id,
            node_type,
            node_name,
            local_name,
            node_value,
            parent_id: None,
            child_node_count: None,
            children: None,
            attributes: None,
            document_url: None,
            base_url: None,
            public_id: None,
            system_id: None,
            internal_subset: None,
            xml_version: None,
            name: None,
            value: None,
            pseudo_type: None,
            shadow_root_type: None,
            frame_id: None,
            content_document: None,
            shadow_roots: None,
            template_content: None,
            pseudo_elements: None,
            imported_document: None,
            distributed_nodes: None,
            is_svg: None,
        }
    }
}

/// The `DOM.getDocument` command: returns the root DOM node to the caller.
#[derive(Debug)]
pub struct GetDocumentParams {
    /// The maximum depth at which children should be retrieved.
    pub depth: Option<u32>,
    /// Whether iframes and shadow roots should be traversed.
    pub pierce: Option<bool>,
}

/// What `DOM.getDocument` returns.
#[derive(Debug)]
pub struct GetDocumentReturns {
    /// The resulting node.
    pub root: Node,
}

impl GetDocumentReturns {
    /// Wraps the returned root node.
    pub fn new(root: Node) -> (r: GetDocumentReturns)
        ensures
            r.root == root,
    {
        GetDocumentReturns { root }
    }
}

/// The `DOM.querySelector` command: executes a selector on a given node.
#[derive(Debug)]
pub struct QuerySelectorParams {
    /// The node to query upon.
    pub node_id: NodeId,
    /// The selector string.
    pub selector: String,
}

impl QuerySelectorParams {
    /// A selector query against the given node.
    pub fn new(node_id: NodeId, selector: String) -> (r: QuerySelectorParams)
        ensures
            r.node_id == node_id,
            r.selector == selector,
    {
        QuerySelectorParams { node_id, selector }
    }
}

/// What `DOM.querySelector` returns.
#[derive(Debug)]
pub struct QuerySelectorReturns {
    /// The query result.
    pub node_id: NodeId,
}

impl QuerySelectorReturns {
    /// Wraps the returned node id.
    pub fn new(node_id: NodeId) -> (r: QuerySelectorReturns)
        ensures
            r.node_id == node_id,
    {
        QuerySelectorReturns { node_id }
    }
}

/// The `DOM.querySelectorAll` command.
#[derive(Debug)]
pub struct QuerySelectorAllParams {
    /// The node to query upon.
    pub node_id: NodeId,
    /// The selector string.
    pub selector: String,
}

impl QuerySelectorAllParams {
    /// A selector query against the given node.
    pub fn new(node_id: NodeId, selector: String) -> (r: QuerySelectorAllParams)
        ensures
            r.node_id == node_id,
            r.selector == selector,
    {
        QuerySelectorAllParams { node_id, selector }
    }
}

/// What `DOM.querySelectorAll` returns.
#[derive(Debug)]
pub struct QuerySelectorAllReturns {
    /// The query results.
    pub node_ids: Vec<NodeId>,
}

impl QuerySelectorAllReturns {
    /// Wraps the returned node ids.
    pub fn new(node_ids: Vec<NodeId>) -> (r: QuerySelectorAllReturns)
        ensures
            r.node_ids == node_ids,
    {
        QuerySelectorAllReturns { node_ids }
    }
}

/// The `DOM.resolveNode` command: resolves the JavaScript node object for a
/// given node.
#[derive(Debug)]
pub struct ResolveNodeParams {
    /// The node to resolve.
    pub node_id: Option<NodeId>,
    /// The backend identifier of the node to resolve.
    pub backend_node_id: Option<BackendNodeId>,
    /// A symbolic group name for releasing multiple objects.
    pub object_group: Option<String>,
    /// The execution context in which to resolve the node.
    pub execution_context_id: Option<ExecutionContextId>,
}

impl ResolveNodeParams {
    /// A resolve request by backend node id.
    pub fn with_backend_node(backend_node_id: BackendNodeId) -> (r: ResolveNodeParams)
        ensures
            r.backend_node_id == Some(backend_node_id),
            r.node_id is None,
            r.object_group is None,
            r.execution_context_id is None,
    {
        ResolveNodeParams {
            node_id: None,
            backend_node_id: Some(backend_node_id),
            object_group: None,
            execution_context_id: None,
        }
    }
}

/// What `DOM.resolveNode` returns.
#[derive(Debug)]
pub struct ResolveNodeReturns {
    /// The JavaScript object wrapper for the given node.
    pub object: RemoteObject,
}

impl ResolveNodeReturns {
    /// Wraps the returned object.
    pub fn new(object: RemoteObject) -> (r: ResolveNodeReturns)
        ensures
            r.object == object,
    {
        ResolveNodeReturns { object }
    }
}

/// The `DOM.describeNode` command: describes a node given its id.
#[derive(Debug)]
pub struct DescribeNodeParams {
    /// The node's identifier.
    pub node_id: Option<NodeId>,
    /// The node's backend identifier.
    pub backend_node_id: Option<BackendNodeId>,
    /// The JavaScript object id of the node wrapper.
    pub object_id: Option<RemoteObjectId>,
    /// The maximum depth at which children should be retrieved.
    pub depth: Option<i64>,
    /// Whether iframes and shadow roots should be traversed.
    pub pierce: Option<bool>,
}

impl DescribeNodeParams {
    /// A describe request limited to the given depth.
    pub fn with_depth(depth: i64) -> (r: DescribeNodeParams)
        ensures
            r.depth == Some(depth),
            r.node_id is None,
            r.backend_node_id is None,
            r.object_id is None,
            r.pierce is None,
    {
        DescribeNodeParams {
            node_id: None,
            backend_node_id: None,
            object_id: None,
            depth: Some(depth),
            pierce: None,
        }
    }

    /// A describe request for the given node.
    pub fn with_node_id(node_id: NodeId) -> (r: DescribeNodeParams)
        ensures
            r.node_id == Some(node_id),
            r.depth is None,
            r.backend_node_id is None,
            r.object_id is None,
            r.pierce is None,
    {
        DescribeNodeParams {
            node_id: Some(node_id),
            backend_node_id: None,
            object_id: None,
            depth: None,
            pierce: None,
        }
    }

    /// A describe request for the given node limited to the given depth.
    pub fn with_node_id_and_depth(node_id: NodeId, depth: i64) -> (r: DescribeNodeParams)
        ensures
            r.node_id == Some(node_id),
            r.depth == Some(depth),
            r.backend_node_id is None,
            r.object_id is None,
            r.pierce is None,
    {
        DescribeNodeParams {
            node_id: Some(node_id),
            backend_node_id: None,
            object_id: None,
            depth: Some(depth),
            pierce: None,
        }
    }
}

/// What `DOM.describeNode` returns.
#[derive(Debug)]
pub struct DescribeNodeReturns {
    /// The node description.
    pub node: Node,
}

impl DescribeNodeReturns {
    /// Wraps the returned node.
    pub fn new(node: Node) -> (r: DescribeNodeReturns)
        ensures
            r.node == node,
    {
        DescribeNodeReturns { node }
    }
}

} // verus!
