use pax_core::message::NativeMessage;
use pax_core::runtime::Runtime;
use pax_core::scope::{Scope, StackFrame};
use pax_core::value::TypedValue;

fn as_index(v: Option<TypedValue>) -> Option<usize> {
    match v {
        Some(TypedValue::Index(i)) => Some(i),
        _ => None,
    }
}

fn as_integer(v: Option<TypedValue>) -> Option<i64> {
    match v {
        Some(TypedValue::Integer(i)) => Some(i),
        _ => None,
    }
}

#[test]
fn a_scope_answers_with_what_was_bound() {
    let mut scope = Scope::new();
    scope.bind("index", TypedValue::Index(3));
    scope.bind("count", TypedValue::Integer(-7));
    assert_eq!(as_index(scope.get("index")), Some(3));
    assert_eq!(as_integer(scope.get("count")), Some(-7));
}

#[test]
fn a_missing_key_is_a_lookup_failure() {
    let mut scope = Scope::new();
    scope.bind("index", TypedValue::Index(3));
    assert!(scope.get("datum").is_none());
    assert!(Scope::new().get("index").is_none());
}

#[test]
fn a_later_binding_replaces_an_earlier_one() {
    let mut scope = Scope::new();
    scope.bind("index", TypedValue::Index(1));
    scope.bind("other", TypedValue::Index(9));
    scope.bind("index", TypedValue::Index(2));
    assert_eq!(as_index(scope.get("index")), Some(2));
    assert_eq!(as_index(scope.get("other")), Some(9));
}

#[test]
fn a_duplicate_binds_the_same_names() {
    let mut scope = Scope::new();
    scope.bind("index", TypedValue::Index(1));
    scope.bind("index", TypedValue::Index(5));
    scope.bind("flag", TypedValue::Bool(true));
    let copy = scope.duplicate();
    assert_eq!(as_index(copy.get("index")), Some(5));
    assert!(matches!(copy.get("flag"), Some(TypedValue::Bool(true))));
    assert!(copy.get("absent").is_none());
}

#[test]
fn a_stack_frame_keeps_its_adoptees_and_scope() {
    let mut scope = Scope::new();
    scope.bind("index", TypedValue::Index(4));
    let frame = StackFrame::new(vec![7, 8], scope);
    assert_eq!(frame.get_adoptees(), &vec![7u64, 8]);
    assert_eq!(as_index(frame.get_scope().get("index")), Some(4));
}

#[test]
fn a_new_runtime_has_no_frame() {
    let runtime = Runtime::new();
    assert!(runtime.peek_stack_frame().is_none());
    assert!(runtime.resolve("index").is_none());
}

#[test]
fn peek_returns_the_innermost_frame() {
    let mut runtime = Runtime::new();
    let mut outer = Scope::new();
    outer.bind("index", TypedValue::Index(0));
    let mut inner = Scope::new();
    inner.bind("index", TypedValue::Index(1));
    runtime.push_stack_frame(vec![1], outer);
    runtime.push_stack_frame(vec![2], inner);
    let top = runtime.peek_stack_frame().unwrap();
    assert_eq!(top.get_adoptees(), &vec![2u64]);
    assert_eq!(as_index(top.get_scope().get("index")), Some(1));
}

#[test]
fn pop_removes_exactly_the_innermost_frame() {
    let mut runtime = Runtime::new();
    runtime.push_stack_frame(vec![1], Scope::new());
    runtime.push_stack_frame(vec![2], Scope::new());
    runtime.pop_stack_frame();
    assert_eq!(runtime.peek_stack_frame().unwrap().get_adoptees(), &vec![1u64]);
    runtime.pop_stack_frame();
    assert!(runtime.peek_stack_frame().is_none());
}

#[test]
fn peek_does_not_change_the_stack() {
    let mut runtime = Runtime::new();
    runtime.push_stack_frame(vec![1], Scope::new());
    assert!(runtime.peek_stack_frame().is_some());
    assert!(runtime.peek_stack_frame().is_some());
    assert_eq!(runtime.stack.len(), 1);
}

#[test]
fn resolve_searches_the_whole_stack_and_the_innermost_binding_wins() {
    let mut runtime = Runtime::new();
    let mut outer = Scope::new();
    outer.bind("index", TypedValue::Index(10));
    outer.bind("outer_only", TypedValue::Integer(42));
    let mut inner = Scope::new();
    inner.bind("index", TypedValue::Index(20));
    runtime.push_stack_frame(vec![], outer);
    runtime.push_stack_frame(vec![], inner);
    assert_eq!(as_index(runtime.resolve("index")), Some(20));
    assert_eq!(as_integer(runtime.resolve("outer_only")), Some(42));
    assert!(runtime.resolve("nowhere").is_none());
    runtime.pop_stack_frame();
    assert_eq!(as_index(runtime.resolve("index")), Some(10));
}

#[test]
fn a_sibling_never_sees_a_popped_binding() {
    let mut runtime = Runtime::new();
    let mut child = Scope::new();
    child.bind("datum", TypedValue::Integer(1));
    runtime.push_stack_frame(vec![], child);
    runtime.pop_stack_frame();
    assert!(runtime.resolve("datum").is_none());
}

#[test]
fn the_clipping_stack_lists_outermost_first() {
    let mut runtime = Runtime::new();
    assert!(runtime.get_current_clipping_ids().is_empty());
    runtime.push_clipping_stack_id(vec![1]);
    runtime.push_clipping_stack_id(vec![1, 2]);
    assert_eq!(runtime.get_current_clipping_ids(), vec![vec![1u64], vec![1, 2]]);
    runtime.pop_clipping_stack_id();
    assert_eq!(runtime.get_current_clipping_ids(), vec![vec![1u64]]);
    runtime.pop_clipping_stack_id();
    runtime.pop_clipping_stack_id();
    assert!(runtime.get_current_clipping_ids().is_empty());
}

#[test]
fn taking_the_queue_hands_over_the_messages_in_order_and_empties_it() {
    let mut runtime = Runtime::new();
    runtime.enqueue_native_message(NativeMessage::FrameDelete(vec![1]));
    runtime.enqueue_native_message(NativeMessage::FrameDelete(vec![2]));
    let taken = runtime.take_native_message_queue();
    assert_eq!(taken.len(), 2);
    assert!(matches!(&taken[0], NativeMessage::FrameDelete(c) if c == &vec![1u64]));
    assert!(matches!(&taken[1], NativeMessage::FrameDelete(c) if c == &vec![2u64]));
    assert!(runtime.take_native_message_queue().is_empty());
}
