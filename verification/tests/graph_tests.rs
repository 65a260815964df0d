//! Tests of the render-graph data model.

use luxseed::render_graph::{
    Edge, NodeHandle, Resource, ResourceSlot, ResourceType, Sampler,
};
use luxseed::pool::Handle;

#[test]
fn edges_report_their_endpoints() {
    let a = NodeHandle::from_raw(1);
    let b = NodeHandle::from_raw(2);
    let plain = Edge::NodeEdge { input_node_handle: a, output_node_handle: b };
    assert_eq!(plain.get_input_node(), a);
    assert_eq!(plain.get_output_node(), b);
    let flow = Edge::ResourceEdge {
        input_node_handle: a,
        input_slot_index: 0,
        output_node_handle: b,
        output_slot_index: 3,
    };
    assert_eq!(flow.get_input_node(), a);
    assert_eq!(flow.get_output_node(), b);
}

#[test]
fn resources_classify_themselves() {
    let sampler = Resource::Sampler(Sampler { handle: Handle::default() });
    assert_eq!(sampler.resource_type(), ResourceType::Sampler);
    let slot = ResourceSlot::new("swapchain".to_string(), ResourceType::ImageView);
    assert_eq!(slot.name, "swapchain");
    assert_eq!(slot.resource_type, ResourceType::ImageView);
    let view_slot = ResourceSlot::image_view("color");
    assert_eq!(view_slot.resource_type, ResourceType::ImageView);
}
