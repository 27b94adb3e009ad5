use pax_core::registry::InstanceRegistry;
use pax_core::rendering::{wrap_render_node_ptr_into_list, Rectangle, RenderNode};
use pax_core::value::{Property, Size};

fn rectangle(instance_id: u64) -> RenderNode {
    RenderNode::Rectangle(Rectangle {
        instance_id,
        align: (0, 0),
        size: (
            Property::literal(Size::Pixel(10.0f64.to_bits())),
            Property::literal(Size::Pixel(20.0f64.to_bits())),
        ),
        origin: (Size::Pixel(0), Size::Pixel(0)),
        transform: Property::literal([0; 6]),
        fill: Property::literal(0xff00_00ff),
    })
}

#[test]
fn minted_ids_count_up_and_never_repeat() {
    let mut registry = InstanceRegistry::new();
    let a = registry.mint_id();
    let b = registry.mint_id();
    let c = registry.mint_id();
    assert_eq!((a, b, c), (0, 1, 2));
    registry.register(b, rectangle(b));
    registry.deregister(b);
    assert_eq!(registry.mint_id(), 3);
}

#[test]
fn a_registered_node_is_found_under_its_id() {
    let mut registry = InstanceRegistry::new();
    let id = registry.mint_id();
    assert!(!registry.is_registered(id));
    assert!(registry.get(id).is_none());
    registry.register(id, rectangle(id));
    assert!(registry.is_registered(id));
    assert_eq!(registry.get(id).unwrap().get_instance_id(), id);
}

#[test]
fn deregistering_twice_is_harmless() {
    let mut registry = InstanceRegistry::new();
    let id = registry.mint_id();
    registry.register(id, rectangle(id));
    registry.deregister(id);
    assert!(!registry.is_registered(id));
    registry.deregister(id);
    assert!(!registry.is_registered(id));
    registry.deregister(99);
}

#[test]
fn marking_for_unmount_leaves_the_node_registered() {
    let mut registry = InstanceRegistry::new();
    let id = registry.mint_id();
    registry.register(id, rectangle(id));
    assert!(!registry.is_marked_for_unmount(id));
    registry.mark_for_unmount(id);
    assert!(registry.is_marked_for_unmount(id));
    assert!(registry.is_registered(id));
}

#[test]
fn take_removes_and_returns_the_node() {
    let mut registry = InstanceRegistry::new();
    let id = registry.mint_id();
    registry.register(id, rectangle(id));
    let node = registry.take(id).unwrap();
    assert_eq!(node.get_instance_id(), id);
    assert!(!registry.is_registered(id));
    assert!(registry.take(id).is_none());
}

#[test]
fn unmount_all_deregisters_and_marks_each_id() {
    let mut registry = InstanceRegistry::new();
    let a = registry.mint_id();
    let b = registry.mint_id();
    let c = registry.mint_id();
    registry.register(a, rectangle(a));
    registry.register(b, rectangle(b));
    registry.register(c, rectangle(c));
    registry.unmount_all(&vec![a, c]);
    assert!(!registry.is_registered(a) && registry.is_marked_for_unmount(a));
    assert!(registry.is_registered(b) && !registry.is_marked_for_unmount(b));
    assert!(!registry.is_registered(c) && registry.is_marked_for_unmount(c));
}

#[test]
fn wrapping_a_node_gives_a_list_of_that_node() {
    assert_eq!(wrap_render_node_ptr_into_list(5), vec![5u64]);
}
