use stack_vm::types::primitive_types::vm_integer::VMInteger;
use stack_vm::types::stack_item::{StackItem, StackItemWrapper};
use stack_vm::types::compound_types::vm_array::VMArray;
use stack_vm::types::compound_types::vm_compound::VMCompound;
use stack_vm::vm::evaluation_stack::EvaluationStack;
use stack_vm::vm::reference_counter::ReferenceCounter;
use stack_vm::vm::slot::Slot;
use stack_vm::vm::vm_error::{VMError, VMErrorKind};

fn num(v: i64) -> StackItem {
    StackItem::Integer(VMInteger::from_i64(v))
}

#[test]
fn stack_references_are_counted() {
    let mut rc = ReferenceCounter::new();
    let a = rc.new_sequence(vec![], false).unwrap();
    assert!(!rc.get(a).unwrap().is_watched());
    assert!(rc.add_stack_reference(&StackItem::Array(a), 2));
    assert!(rc.add_stack_reference(&num(1), 1));
    assert_eq!(rc.count(), 3);
    let w = rc.get(a).unwrap();
    assert!(w.is_watched());
    assert_eq!(w.get_stack_references(), 2);
    assert!(rc.remove_stack_reference(&StackItem::Array(a)));
    assert!(!rc.get(a).unwrap().metadata.waits());
    assert!(rc.remove_stack_reference(&StackItem::Array(a)));
    assert!(rc.get(a).unwrap().metadata.waits());
    assert_eq!(rc.count(), 1);
    // No reference is left to remove from the array.
    assert!(!rc.remove_stack_reference(&StackItem::Array(a)));
    assert_eq!(rc.count(), 1);
    // An item that names no object is refused.
    assert!(!rc.add_stack_reference(&StackItem::Array(50), 1));
    assert!(rc.remove_stack_reference(&num(1)));
    assert!(!rc.remove_stack_reference(&num(1)));
    assert_eq!(rc.count(), 0);
    assert!(ReferenceCounter::need_track(&StackItem::Buffer(0)));
    assert!(!ReferenceCounter::need_track(&num(0)));
    assert_eq!(rc.len(), 1);
    assert!(rc.is_live(a));
    assert!(!rc.is_live(1));
}

#[test]
fn object_references_are_counted_per_holder() {
    let mut rc = ReferenceCounter::new();
    let parent = rc.new_sequence(vec![], false).unwrap();
    let other = rc.new_sequence(vec![], false).unwrap();
    let child = rc.new_sequence(vec![], false).unwrap();
    let item = StackItem::Array(child);
    assert!(rc.add_reference(&item, parent));
    assert!(rc.add_reference(&item, parent));
    assert!(rc.add_reference(&item, other));
    assert_eq!(rc.count(), 3);
    let refs = rc.get(child).unwrap().get_object_references().clone();
    assert_eq!(refs.len(), 2);
    assert_eq!((refs[0].item, refs[0].references), (parent, 2));
    assert_eq!((refs[1].item, refs[1].references), (other, 1));
    assert_eq!(rc.get(child).unwrap().successors(), vec![parent, other]);
    assert!(rc.remove_reference(&item, other));
    assert_eq!(rc.get(child).unwrap().successors(), vec![parent]);
    assert!(rc.get(child).unwrap().metadata.zero_referred);
    // The holder holds nothing more.
    assert!(!rc.remove_reference(&item, other));
    assert!(!rc.remove_reference(&item, 77));
    assert_eq!(rc.count(), 2);
    assert!(rc.add_reference(&num(1), parent));
    assert!(rc.remove_reference(&num(1), parent));
    assert_eq!(rc.count(), 2);
}

#[test]
fn collection_reclaims_an_unreachable_cycle() {
    let mut rc = ReferenceCounter::new();
    let a = rc.new_sequence(vec![], false).unwrap();
    let b = rc.new_sequence(vec![], false).unwrap();
    let kept = rc.new_sequence(vec![], false).unwrap();
    let held = rc.new_sequence(vec![num(5)], false).unwrap();
    // a and b hold each other; kept is on a stack and holds held.
    assert!(rc.add_stack_reference(&StackItem::Array(a), 1));
    assert!(rc.append(a, StackItem::Array(b)));
    assert!(rc.append(b, StackItem::Array(a)));
    assert!(rc.add_stack_reference(&StackItem::Array(kept), 1));
    assert!(rc.append(kept, StackItem::Array(held)));
    assert_eq!(rc.count(), 6);
    // While a is on a stack nothing is reclaimed.
    assert_eq!(rc.check_zero_referred(), 6);
    assert!(rc.is_live(a) && rc.is_live(b));
    assert!(rc.remove_stack_reference(&StackItem::Array(a)));
    assert_eq!(rc.count(), 5);
    // Now the cycle is unreachable: its two references go with it.
    assert_eq!(rc.check_zero_referred(), 3);
    assert!(!rc.is_live(a));
    assert!(!rc.is_live(b));
    assert!(rc.is_live(kept));
    assert!(rc.is_live(held));
    assert!(rc.get(a).is_none());
    assert!(rc.sequence(a).is_none());
    assert_eq!(rc.sequence(held).unwrap().len(), 1);
    // Nothing waits for collection any more.
    assert_eq!(rc.check_zero_referred(), 3);
}

#[test]
fn collection_follows_the_holders_of_an_object() {
    let mut rc = ReferenceCounter::new();
    let root = rc.new_sequence(vec![], false).unwrap();
    let middle = rc.new_sequence(vec![], true).unwrap();
    let leaf = rc.new_buffer(vec![1]);
    let lost = rc.new_map();
    assert!(rc.add_stack_reference(&StackItem::Array(root), 1));
    assert!(rc.append(root, StackItem::Struct(middle)));
    assert!(rc.append(middle, StackItem::Buffer(leaf)));
    assert!(rc.add_stack_reference(&StackItem::Mapping(lost), 1));
    assert!(rc.map_set(lost, num(1), StackItem::Buffer(leaf)));
    assert!(rc.remove_stack_reference(&StackItem::Mapping(lost)));
    // The map goes with its key and its value; the buffer stays, because
    // the struct still holds it.
    assert_eq!(rc.count(), 5);
    assert_eq!(rc.check_zero_referred(), 3);
    assert!(!rc.is_live(lost));
    assert!(rc.is_live(leaf));
    assert_eq!(rc.get(leaf).unwrap().successors(), vec![middle]);
    // An object that was never referenced is not watched and stays.
    let fresh = rc.new_map();
    assert!(rc.remove_sequence_item(root, 0));
    assert_eq!(rc.check_zero_referred(), 1);
    assert!(!rc.is_live(middle));
    assert!(!rc.is_live(leaf));
    assert!(rc.is_live(fresh));
}

#[test]
fn compound_operations_keep_the_count() {
    let mut rc = ReferenceCounter::new();
    let a = rc.new_sequence(vec![num(1), num(2)], false).unwrap();
    assert_eq!(rc.count(), 2);
    assert!(rc.append(a, num(3)));
    assert!(rc.set_sequence_item(a, 0, num(9)));
    assert!(!rc.set_sequence_item(a, 3, num(9)));
    assert!(rc.reverse_sequence(a));
    assert!(rc.sequence(a).unwrap()[2].same(&num(9)));
    assert!(rc.remove_sequence_item(a, 0));
    assert!(!rc.remove_sequence_item(a, 5));
    assert_eq!(rc.count(), 2);
    assert!(rc.clear_items(a));
    assert_eq!(rc.count(), 0);
    let m = rc.new_map();
    assert!(rc.map_set(m, num(1), num(10)));
    assert_eq!(rc.count(), 2);
    assert!(rc.map_set(m, num(1), num(11)));
    assert_eq!(rc.count(), 2);
    assert!(!rc.map_set(m, StackItem::Null, num(1)));
    assert!(!rc.map_set(m, StackItem::ByteString(vec![0; 65]), num(1)));
    assert!(rc.map_set(m, StackItem::ByteString(vec![0; 64]), num(1)));
    assert!(rc.map_remove(m, &num(1)));
    assert!(rc.map_remove(m, &num(1)));
    assert_eq!(rc.count(), 2);
    assert!(rc.clear_items(m));
    assert_eq!(rc.count(), 0);
    let b = rc.new_buffer(vec![1, 2]);
    assert!(rc.set_buffer(b, vec![3]));
    assert_eq!(rc.buffer(b).unwrap().to_vec(), vec![3]);
    assert!(!rc.set_buffer(a, vec![3]));
    assert!(!rc.clear_items(b));
    assert!(!rc.append(m, num(1)));
    assert!(rc.freeze(a));
    assert!(!rc.append(a, num(1)));
    assert!(!rc.clear_items(a));
    assert!(!rc.reverse_sequence(a));
    let id = rc.adopt(VMCompound::Array(VMArray::new(None)));
    assert_eq!(id, 3);
    let w = StackItemWrapper::new(VMCompound::Array(VMArray::new(None)));
    assert_eq!(w.get_stack_references(), 0);
    assert!(!w.is_freed());
}

#[test]
fn evaluation_stack_positions_count_from_the_top() {
    let mut rc = ReferenceCounter::new();
    let mut stack = EvaluationStack::new();
    for v in 1..=4 {
        stack.push(num(v), &mut rc).unwrap();
    }
    assert_eq!(stack.count(), 4);
    assert_eq!(rc.count(), 4);
    assert!(stack.peek(0).unwrap().same(&num(4)));
    assert!(stack.peek(3).unwrap().same(&num(1)));
    assert_eq!(stack.peek(4).unwrap_err().kind(), VMErrorKind::InvalidParameter);
    stack.insert(1, num(9), &mut rc).unwrap();
    assert!(stack.peek(1).unwrap().same(&num(9)));
    assert_eq!(stack.insert(9, num(9), &mut rc).unwrap_err().kind(), VMErrorKind::InvalidParameter);
    assert!(stack.remove(1, &mut rc).unwrap().same(&num(9)));
    assert_eq!(stack.remove(7, &mut rc).unwrap_err().kind(), VMErrorKind::InvalidParameter);
    stack.reverse(3).unwrap();
    assert!(stack.peek(0).unwrap().same(&num(2)));
    assert!(stack.peek(2).unwrap().same(&num(4)));
    assert!(stack.peek(3).unwrap().same(&num(1)));
    assert_eq!(stack.reverse(5).unwrap_err().kind(), VMErrorKind::InvalidParameter);
    assert!(stack.pop(&mut rc).unwrap().same(&num(2)));
    assert_eq!(rc.count(), 3);
    let mut other = EvaluationStack::new();
    assert!(stack.copy_to(&mut other, Some(2), &mut rc));
    assert_eq!(other.count(), 2);
    assert!(other.peek(0).unwrap().same(&num(3)));
    assert!(other.peek(1).unwrap().same(&num(4)));
    assert_eq!(rc.count(), 5);
    assert!(stack.move_to(&mut other, None, &mut rc));
    assert_eq!(stack.count(), 0);
    assert_eq!(other.count(), 5);
    assert!(other.peek(0).unwrap().same(&num(3)));
    assert!(other.peek(2).unwrap().same(&num(1)));
    assert_eq!(rc.count(), 5);
    let popped = other.pop_n(2, &mut rc).unwrap();
    assert!(popped[0].same(&num(3)) && popped[1].same(&num(4)));
    assert!(other.pop_n(9, &mut rc).is_none());
    assert!(other.clear(&mut rc));
    assert_eq!(rc.count(), 0);
    assert_eq!(stack.pop(&mut rc).unwrap_err().kind(), VMErrorKind::InvalidParameter);
    // The counter refuses an item that names no object.
    assert_eq!(
        stack.push(StackItem::Array(5), &mut rc).unwrap_err().kind(),
        VMErrorKind::StackOverflow
    );
}

#[test]
fn slots_count_their_places() {
    let mut rc = ReferenceCounter::new();
    let mut slot = Slot::with_count(3, &mut rc).unwrap();
    assert_eq!(slot.count(), 3);
    assert_eq!(rc.count(), 3);
    assert!(slot.get(0).unwrap().is_null());
    assert!(slot.get(3).is_none());
    assert!(slot.set(1, num(5), &mut rc));
    assert!(!slot.set(3, num(5), &mut rc));
    assert!(slot.get(1).unwrap().same(&num(5)));
    assert_eq!(rc.count(), 3);
    assert!(slot.clear_references(&mut rc));
    assert_eq!(rc.count(), 0);
    let filled = Slot::new(vec![num(1), num(2)], &mut rc).unwrap();
    assert_eq!(filled.count(), 2);
    assert_eq!(rc.count(), 2);
    assert!(Slot::new(vec![StackItem::Array(9)], &mut rc).is_none());
}

#[test]
fn error_texts() {
    let cases: Vec<(VMError, &str, VMErrorKind)> = vec![
        (VMError::InvocationStackOverflow("a".into()), "Invocation stack size limit exceeded: a", VMErrorKind::InvocationStackOverflow),
        (VMError::TryNestingOverflow("b".into()), "Try nesting depth limit exceeded: b", VMErrorKind::TryNestingOverflow),
        (VMError::StackOverflow("c".into()), "Stack size limit exceeded: c", VMErrorKind::StackOverflow),
        (VMError::ItemTooLarge("d".into()), "Item size exceeds limit: d", VMErrorKind::ItemTooLarge),
        (VMError::InvalidOpcode("e".into()), "Encountered invalid opcode: e", VMErrorKind::InvalidOpcode),
        (VMError::DivisionByZero("f".into()), "Tried to divide by zero: f", VMErrorKind::DivisionByZero),
        (VMError::InvalidJump("g".into()), "Invalid jump offset or pointer: g", VMErrorKind::InvalidJump),
        (VMError::InvalidToken("h".into()), "Invalid token encountered: h", VMErrorKind::InvalidToken),
        (VMError::InvalidParameter("i".into()), "Invalid parameter for operation: i", VMErrorKind::InvalidParameter),
        (VMError::ItemNotFound("j".into()), "Item not found in collection: j", VMErrorKind::ItemNotFound),
        (VMError::InvalidType("k".into()), "Type mismatch for operation: k", VMErrorKind::InvalidType),
        (VMError::Custom("l".into()), "Custom VM error: l", VMErrorKind::Custom),
    ];
    for (error, text, kind) in cases {
        assert_eq!(error.to_string(), text);
        assert_eq!(error.kind(), kind);
        assert_eq!(error.message().len(), 1);
        assert!(text.starts_with(error.prefix()));
    }
}
