use pax_core::conditional::{check_selection, ConditionalInstance};
use pax_core::engine::recurse_compute_properties;
use pax_core::frame::FrameInstance;
use pax_core::message::NativeMessage;
use pax_core::registry::InstanceRegistry;
use pax_core::rendering::{InstantiationArgs, Layer, Rectangle, RenderNode};
use pax_core::repeat::Repeat;
use pax_core::runtime::Runtime;
use pax_core::value::{EngineError, Property, Size, TypeTag, TypedValue};

fn px(x: f64) -> Size<u64> {
    Size::Pixel(x.to_bits())
}

fn identity() -> [u64; 6] {
    [1.0f64.to_bits(), 0, 0, 1.0f64.to_bits(), 0, 0]
}

fn rectangle(registry: &mut InstanceRegistry) -> u64 {
    let id = registry.mint_id();
    registry.register(
        id,
        RenderNode::Rectangle(Rectangle {
            instance_id: id,
            align: (0, 0),
            size: (Property::literal(px(10.0)), Property::expression(px(20.0), 7)),
            origin: (Size::Pixel(0), Size::Pixel(0)),
            transform: Property::literal(identity()),
            fill: Property::literal(0x0000_00ff),
        }),
    );
    id
}

fn conditional_args(children: Option<Vec<u64>>, shown: bool) -> InstantiationArgs {
    InstantiationArgs {
        transform: Property::literal(identity()),
        size: None,
        children,
        conditional_boolean_expression: Some(Property::expression(shown, 1)),
    }
}

fn take_conditional(registry: &mut InstanceRegistry, id: u64) -> ConditionalInstance {
    match registry.take(id) {
        Some(RenderNode::Conditional(node)) => node,
        _ => panic!("no conditional under {}", id),
    }
}

#[test]
fn a_repeat_materializes_one_child_per_element_in_list_order() {
    let list = vec![TypedValue::Integer(10), TypedValue::Integer(20), TypedValue::Integer(30)];
    let mut repeat = Repeat::new(list, vec![1, 2], 9, Property::literal(identity()));
    assert!(repeat.get_children().is_empty());
    repeat.eval_properties_in_place();
    let children = repeat.get_children();
    assert_eq!(children.len(), 3);
    for (position, child) in children.iter().enumerate() {
        assert_eq!(child.i, position);
        assert!(child.i < 3);
    }
    assert!(matches!(children[0].datum, TypedValue::Integer(10)));
    assert!(matches!(children[1].datum, TypedValue::Integer(20)));
    assert!(matches!(children[2].datum, TypedValue::Integer(30)));
    assert_eq!(repeat.children, vec![1u64, 2]);
}

#[test]
fn a_repeat_over_nothing_has_no_children() {
    let mut repeat = Repeat::new(vec![], vec![1], 3, Property::literal(identity()));
    repeat.eval_properties_in_place();
    assert!(repeat.get_children().is_empty());
}

#[test]
fn a_repeat_rebuilds_its_children_on_every_pass() {
    let mut repeat =
        Repeat::new(vec![TypedValue::Bool(true)], vec![], 3, Property::literal(identity()));
    repeat.eval_properties_in_place();
    repeat.eval_properties_in_place();
    assert_eq!(repeat.get_children().len(), 1);
    repeat.list.push(TypedValue::Bool(false));
    repeat.eval_properties_in_place();
    assert_eq!(repeat.get_children().len(), 2);
    assert!(matches!(repeat.get_children()[1].datum, TypedValue::Bool(false)));
}

#[test]
fn a_materialized_child_binds_index_and_datum() {
    let mut repeat = Repeat::new(
        vec![TypedValue::Integer(5), TypedValue::Integer(6)],
        vec![],
        3,
        Property::literal(identity()),
    );
    repeat.eval_properties_in_place();
    let scope = repeat.get_children()[1].scope();
    assert!(matches!(scope.get("index"), Some(TypedValue::Index(1))));
    assert!(matches!(scope.get("datum"), Some(TypedValue::Integer(6))));
    assert!(scope.get("other").is_none());
}

#[test]
fn a_repeat_flattens() {
    let repeat = Repeat::new(vec![], vec![], 3, Property::literal(identity()));
    assert!(repeat.should_flatten());
    assert!(RenderNode::Repeat(repeat).should_flatten());
}

#[test]
fn a_conditional_is_instantiated_with_its_children_as_the_true_branch() {
    let mut registry = InstanceRegistry::new();
    let child = rectangle(&mut registry);
    let id = ConditionalInstance::instantiate(conditional_args(Some(vec![child]), true), &mut registry);
    assert_eq!(id, 1);
    assert!(registry.is_registered(id));
    let node = take_conditional(&mut registry, id);
    assert_eq!(node.get_instance_id(), id);
    assert_eq!(node.true_branch_children, vec![child]);
    assert!(node.false_branch_children.is_empty());
    assert!(node.next_frame_expression.is_none());
    assert!(node.should_flatten());
    assert!(node.get_size().is_none());
    assert_eq!(node.get_layer_type(), Layer::DontCare);
    assert_eq!(node.get_rendering_children(), &vec![child]);
}

#[test]
fn a_conditional_without_children_has_an_empty_true_branch() {
    let mut registry = InstanceRegistry::new();
    let id = ConditionalInstance::instantiate(conditional_args(None, true), &mut registry);
    let node = take_conditional(&mut registry, id);
    assert!(node.true_branch_children.is_empty());
    assert!(node.get_rendering_children().is_empty());
}

#[test]
fn a_conditional_shows_the_branch_its_boolean_selects() {
    let mut registry = InstanceRegistry::new();
    let id = ConditionalInstance::instantiate(conditional_args(Some(vec![]), false), &mut registry);
    let mut node = take_conditional(&mut registry, id);
    node.true_branch_children = vec![10];
    node.false_branch_children = vec![20];
    assert_eq!(node.get_rendering_children(), &vec![20u64]);
    node.boolean_expression.set(true);
    assert_eq!(node.get_rendering_children(), &vec![10u64]);
}

#[test]
fn a_deselected_branch_is_deregistered_and_marked_and_the_switch_is_buffered() {
    let mut registry = InstanceRegistry::new();
    let a = rectangle(&mut registry);
    let b = rectangle(&mut registry);
    let id = ConditionalInstance::instantiate(conditional_args(Some(vec![a, b]), true), &mut registry);
    let mut node = take_conditional(&mut registry, id);

    node.compute_properties(Some(TypedValue::Bool(false)), &mut registry);
    assert!(!registry.is_registered(a) && registry.is_marked_for_unmount(a));
    assert!(!registry.is_registered(b) && registry.is_marked_for_unmount(b));
    assert_eq!(node.next_frame_expression, Some(false));
    assert!(*node.boolean_expression.get());
    assert_eq!(node.get_rendering_children(), &vec![a, b]);

    node.compute_properties(None, &mut registry);
    assert!(!*node.boolean_expression.get());
    assert!(node.next_frame_expression.is_none());
    assert!(node.get_rendering_children().is_empty());
}

#[test]
fn a_conditional_that_keeps_its_selection_unmounts_nothing() {
    let mut registry = InstanceRegistry::new();
    let a = rectangle(&mut registry);
    let id = ConditionalInstance::instantiate(conditional_args(Some(vec![a]), true), &mut registry);
    let mut node = take_conditional(&mut registry, id);
    node.compute_properties(Some(TypedValue::Bool(true)), &mut registry);
    assert!(registry.is_registered(a));
    assert!(!registry.is_marked_for_unmount(a));
    assert_eq!(node.next_frame_expression, Some(true));
}

#[test]
fn a_switch_to_the_true_branch_unmounts_the_false_branch() {
    let mut registry = InstanceRegistry::new();
    let a = rectangle(&mut registry);
    let b = rectangle(&mut registry);
    let id = ConditionalInstance::instantiate(conditional_args(Some(vec![a]), false), &mut registry);
    let mut node = take_conditional(&mut registry, id);
    node.false_branch_children = vec![b];
    node.compute_properties(Some(TypedValue::Bool(true)), &mut registry);
    assert!(registry.is_registered(a) && !registry.is_marked_for_unmount(a));
    assert!(!registry.is_registered(b) && registry.is_marked_for_unmount(b));
}

#[test]
fn the_buffered_selection_decides_what_a_later_evaluation_deselects() {
    let mut registry = InstanceRegistry::new();
    let a = rectangle(&mut registry);
    let id = ConditionalInstance::instantiate(conditional_args(Some(vec![a]), false), &mut registry);
    let mut node = take_conditional(&mut registry, id);
    node.compute_properties(Some(TypedValue::Bool(true)), &mut registry);
    assert!(registry.is_registered(a));
    node.compute_properties(Some(TypedValue::Bool(false)), &mut registry);
    assert!(*node.boolean_expression.get());
    assert!(!registry.is_registered(a) && registry.is_marked_for_unmount(a));
}

#[test]
fn a_value_that_is_no_boolean_is_a_type_mismatch_and_changes_nothing() {
    let mut registry = InstanceRegistry::new();
    let a = rectangle(&mut registry);
    let id = ConditionalInstance::instantiate(conditional_args(Some(vec![a]), true), &mut registry);
    let mut node = take_conditional(&mut registry, id);
    node.next_frame_expression = Some(false);
    registry.register(id, RenderNode::Conditional(node));
    let yields_an_integer = |_: u64, _: &Runtime| Some(TypedValue::Integer(1));
    let mut runtime = Runtime::new();
    let outcome =
        recurse_compute_properties(&mut registry, id, &mut runtime, &yields_an_integer);
    assert_eq!(
        outcome,
        Err(EngineError::TypeMismatch { expected: TypeTag::Bool, found: TypeTag::Integer })
    );
    assert!(registry.is_registered(a));
    let node = take_conditional(&mut registry, id);
    assert_eq!(node.next_frame_expression, Some(false));
    assert!(*node.boolean_expression.get());
}

#[test]
fn only_a_boolean_or_nothing_is_a_selection() {
    assert_eq!(check_selection(None), Ok(None));
    assert_eq!(check_selection(Some(TypedValue::Bool(true))), Ok(Some(true)));
    assert_eq!(check_selection(Some(TypedValue::Bool(false))), Ok(Some(false)));
    assert_eq!(
        check_selection(Some(TypedValue::Size(px(1.0)))),
        Err(EngineError::TypeMismatch { expected: TypeTag::Bool, found: TypeTag::Size })
    );
}

fn child_frame(registry: &mut InstanceRegistry, children: Vec<u64>) -> u64 {
    FrameInstance::instantiate(
        InstantiationArgs {
            transform: Property::literal(identity()),
            size: Some((Property::literal(px(1.0)), Property::literal(px(1.0)))),
            children: Some(children),
            conditional_boolean_expression: None,
        },
        registry,
    )
}

#[test]
fn a_deselected_branch_is_unmounted_with_all_beneath_it() {
    let mut registry = InstanceRegistry::new();
    let great_grandchild = rectangle(&mut registry);
    let grandchild = child_frame(&mut registry, vec![great_grandchild]);
    let hidden = rectangle(&mut registry);
    let inner = ConditionalInstance::instantiate(
        conditional_args(Some(vec![hidden]), false),
        &mut registry,
    );
    let child = child_frame(&mut registry, vec![grandchild, inner]);
    let sibling = rectangle(&mut registry);
    let kept = rectangle(&mut registry);
    let id = ConditionalInstance::instantiate(
        conditional_args(Some(vec![child, sibling]), true),
        &mut registry,
    );
    let mut node = take_conditional(&mut registry, id);
    node.false_branch_children = vec![kept];

    node.compute_properties(Some(TypedValue::Bool(false)), &mut registry);
    for gone in [child, sibling, grandchild, great_grandchild, inner, hidden] {
        assert!(!registry.is_registered(gone), "{} is still registered", gone);
        assert!(registry.is_marked_for_unmount(gone), "{} is not marked", gone);
    }
    assert!(registry.is_registered(kept));
    assert!(!registry.is_marked_for_unmount(kept));
}

#[test]
fn the_instances_beneath_a_branch_are_its_members_and_their_subtrees() {
    let mut registry = InstanceRegistry::new();
    let g = child_frame(&mut registry, vec![]);
    let c0 = child_frame(&mut registry, vec![g]);
    let apart = rectangle(&mut registry);
    let mut beneath = registry.instances_beneath(&vec![c0, 77]);
    beneath.sort();
    beneath.dedup();
    assert_eq!(beneath, vec![g, c0, 77]);
    assert!(registry.instances_beneath(&vec![]).is_empty());
    registry.unmount_beneath(&vec![c0]);
    assert!(!registry.is_registered(g) && registry.is_marked_for_unmount(g));
    assert!(!registry.is_registered(c0) && registry.is_marked_for_unmount(c0));
    assert!(registry.is_registered(apart) && !registry.is_marked_for_unmount(apart));
}

#[test]
fn a_frame_is_instantiated_with_its_children_and_size() {
    let mut registry = InstanceRegistry::new();
    let child = rectangle(&mut registry);
    let id = FrameInstance::instantiate(
        InstantiationArgs {
            transform: Property::literal(identity()),
            size: Some((Property::literal(px(100.0)), Property::literal(Size::Percent(50.0f64.to_bits())))),
            children: Some(vec![child]),
            conditional_boolean_expression: None,
        },
        &mut registry,
    );
    let node = registry.get(id).unwrap();
    assert_eq!(node.get_instance_id(), id);
    assert!(node.is_clipping());
    assert!(!node.should_flatten());
    assert_eq!(node.get_rendering_children(), vec![child]);
    assert_eq!(node.get_layer_type(), Layer::DontCare);
    assert!(matches!(
        node.get_size(),
        Some((Size::Pixel(w), Size::Percent(h))) if w == 100.0f64.to_bits() && h == 50.0f64.to_bits()
    ));
    assert_eq!(node.get_transform(), identity());
}

fn frame() -> FrameInstance {
    FrameInstance {
        instance_id: 3,
        children: vec![],
        size: (Property::expression(px(1.0), 10), Property::expression(px(2.0), 11)),
        transform: Property::expression(identity(), 12),
        last_patches: pax_core::patch::PatchCache::new(),
    }
}

#[test]
fn a_frame_takes_over_evaluated_sizes_and_transform() {
    let mut node = frame();
    let moved = [1.0f64.to_bits(), 0, 0, 1.0f64.to_bits(), 5.0f64.to_bits(), 0];
    let yielded = (Some(TypedValue::Size(px(30.0))), None, Some(TypedValue::Transform(moved)));
    assert!(node.check_properties(yielded.0, yielded.1, yielded.2).is_ok());
    node.compute_properties(yielded.0, yielded.1, yielded.2);
    assert!(matches!(node.get_size(), Some((Size::Pixel(w), Size::Pixel(h)))
        if w == 30.0f64.to_bits() && h == 2.0f64.to_bits()));
    assert_eq!(*node.get_transform().get(), moved);
    assert_eq!(node.size.0._get_vtable_id(), Some(10));
}

#[test]
fn a_frame_rejects_a_value_of_the_wrong_type_and_keeps_its_properties() {
    let mut node = frame();
    let mut registry = InstanceRegistry::new();
    let id = registry.mint_id();
    node.instance_id = id;
    let outcome = node.check_properties(
        Some(TypedValue::Size(px(30.0))),
        Some(TypedValue::Size(px(40.0))),
        Some(TypedValue::Bool(true)),
    );
    assert_eq!(
        outcome,
        Err(EngineError::TypeMismatch { expected: TypeTag::Transform, found: TypeTag::Bool })
    );
    registry.register(id, RenderNode::Frame(node));
    let yields = |vtable_id: u64, _: &Runtime| match vtable_id {
        12 => Some(TypedValue::Bool(true)),
        _ => Some(TypedValue::Size(px(30.0))),
    };
    let mut runtime = Runtime::new();
    assert_eq!(
        recurse_compute_properties(&mut registry, id, &mut runtime, &yields),
        Err(EngineError::TypeMismatch { expected: TypeTag::Transform, found: TypeTag::Bool })
    );
    let node = match registry.take(id) {
        Some(RenderNode::Frame(node)) => node,
        _ => panic!("no frame"),
    };
    assert!(matches!(node.get_size(), Some((Size::Pixel(w), Size::Pixel(h)))
        if w == 1.0f64.to_bits() && h == 2.0f64.to_bits()));
    let outcome = node.check_properties(Some(TypedValue::Color(1)), Some(TypedValue::Bool(true)), None);
    assert_eq!(
        outcome,
        Err(EngineError::TypeMismatch { expected: TypeTag::Size, found: TypeTag::Color })
    );
}

#[test]
fn a_rectangle_takes_over_evaluated_size_and_fill() {
    let mut registry = InstanceRegistry::new();
    let id = rectangle(&mut registry);
    let mut node = match registry.take(id) {
        Some(RenderNode::Rectangle(node)) => node,
        _ => panic!("no rectangle"),
    };
    assert!(node
        .check_properties(None, Some(TypedValue::Size(px(25.0))), Some(TypedValue::Color(7)))
        .is_ok());
    node.eval_properties_in_place(None, Some(TypedValue::Size(px(25.0))), Some(TypedValue::Color(7)));
    assert!(matches!(node.size.0.get(), Size::Pixel(w) if *w == 10.0f64.to_bits()));
    assert!(matches!(node.size.1.get(), Size::Pixel(h) if *h == 25.0f64.to_bits()));
    assert_eq!(*node.fill.get(), 7);
    let outcome = node.check_properties(None, None, Some(TypedValue::Number(0)));
    assert_eq!(
        outcome,
        Err(EngineError::TypeMismatch { expected: TypeTag::Color, found: TypeTag::Number })
    );
    assert_eq!(*node.fill.get(), 7);
}

#[test]
fn a_frame_enqueues_an_update_only_when_something_changed() {
    let mut node = frame();
    let mut runtime = Runtime::new();
    let path = vec![3u64];
    let coeffs = identity().to_vec();
    node.compute_native_patches(&mut runtime, &path, (100.0f64.to_bits(), 50.0f64.to_bits()), &coeffs, 1);
    node.compute_native_patches(&mut runtime, &path, (100.0f64.to_bits(), 50.0f64.to_bits()), &coeffs, 1);
    node.compute_native_patches(&mut runtime, &path, (100.0f64.to_bits(), 75.0f64.to_bits()), &coeffs, 1);
    let messages = runtime.take_native_message_queue();
    assert_eq!(messages.len(), 2);
    match &messages[0] {
        NativeMessage::FrameUpdate(patch) => {
            assert_eq!(patch.id_chain, path);
            assert_eq!(patch.depth, Some(1));
            assert_eq!(patch.size_x, Some(100.0f64.to_bits()));
            assert_eq!(patch.size_y, Some(50.0f64.to_bits()));
            assert_eq!(patch.transform, Some(coeffs.clone()));
        }
        _ => panic!("expected an update"),
    }
    match &messages[1] {
        NativeMessage::FrameUpdate(patch) => {
            assert_eq!(patch.id_chain, path);
            assert_eq!(patch.size_y, Some(75.0f64.to_bits()));
            assert_eq!(patch.size_x, None);
            assert_eq!(patch.transform, None);
            assert_eq!(patch.depth, None);
        }
        _ => panic!("expected an update"),
    }
}

#[test]
fn mounting_a_frame_tells_the_host_its_clipping_ancestors() {
    let node = frame();
    let mut runtime = Runtime::new();
    runtime.push_clipping_stack_id(vec![1]);
    node.handle_did_mount(&mut runtime, &vec![1, 3]);
    node.handle_will_render(&mut runtime, &vec![1, 3]);
    assert_eq!(runtime.get_current_clipping_ids(), vec![vec![1u64], vec![1, 3]]);
    node.handle_did_render(&mut runtime);
    assert_eq!(runtime.get_current_clipping_ids(), vec![vec![1u64]]);
    let messages = runtime.take_native_message_queue();
    assert_eq!(messages.len(), 1);
    match &messages[0] {
        NativeMessage::FrameCreate(patch) => {
            assert_eq!(patch.id_chain, vec![1u64, 3]);
            assert_eq!(patch.clipping_ids, vec![vec![1u64]]);
        }
        _ => panic!("expected a create"),
    }
}

fn half_up(bound: u64, percent: u64) -> u64 {
    (f64::from_bits(bound) * (f64::from_bits(percent) / 100.0)).to_bits()
}

#[test]
fn pixel_sizes_are_absolute_and_percentages_are_taken_of_the_parent() {
    let mut registry = InstanceRegistry::new();
    let id = FrameInstance::instantiate(
        InstantiationArgs {
            transform: Property::literal(identity()),
            size: Some((Property::literal(px(120.0)), Property::literal(Size::Percent(25.0f64.to_bits())))),
            children: Some(vec![]),
            conditional_boolean_expression: None,
        },
        &mut registry,
    );
    let bounds = (800.0f64.to_bits(), 600.0f64.to_bits());
    let size = registry.get(id).unwrap().get_size_calc(bounds, &half_up);
    assert_eq!(size, (120.0f64.to_bits(), 150.0f64.to_bits()));
}

#[test]
fn a_node_without_a_size_takes_the_bounds_of_its_parent() {
    let repeat = RenderNode::Repeat(Repeat::new(vec![], vec![], 3, Property::literal(identity())));
    let bounds = (800.0f64.to_bits(), 600.0f64.to_bits());
    assert_eq!(repeat.get_size_calc(bounds, &half_up), bounds);
    assert!(repeat.get_size().is_none());
}

#[test]
fn a_length_resolves_by_its_unit() {
    let bound = 200.0f64.to_bits();
    assert_eq!(pax_core::rendering::resolve_size(px(7.5), bound, &half_up), 7.5f64.to_bits());
    assert_eq!(
        pax_core::rendering::resolve_size(Size::Percent(10.0f64.to_bits()), bound, &half_up),
        20.0f64.to_bits()
    );
}

#[test]
fn nodes_answer_for_their_alignment_origin_and_transform() {
    let mut registry = InstanceRegistry::new();
    let id = rectangle(&mut registry);
    let node = registry.get(id).unwrap();
    assert_eq!(node.get_align(), (0, 0));
    assert!(matches!(node.get_origin(), (Size::Pixel(0), Size::Pixel(0))));
    assert_eq!(node.get_transform(), identity());
    assert!(!node.is_clipping());
    assert!(!node.should_flatten());
    assert!(node.get_rendering_children().is_empty());
    let repeat = RenderNode::Repeat(Repeat::new(vec![], vec![id], 3, Property::literal(identity())));
    assert_eq!(repeat.get_align(), (0, 0));
    assert_eq!(repeat.get_rendering_children(), vec![id]);
    assert_eq!(repeat.get_layer_type(), Layer::DontCare);
}
