use stack_vm::types::compound_types::vm_array::VMArray;
use stack_vm::types::compound_types::vm_compound::VMCompound;
use stack_vm::types::compound_types::vm_map::VMMap;
use stack_vm::types::compound_types::vm_struct::VMStruct;
use stack_vm::types::deep_copy::CopyEntry;
use stack_vm::types::null::Null;
use stack_vm::types::primitive_types::vm_boolean::VMBoolean;
use stack_vm::types::primitive_types::vm_byte_string::VMByteString;
use stack_vm::types::primitive_types::vm_integer::VMInteger;
use stack_vm::types::primitive_types::vm_primitive::VMPrimitive;
use stack_vm::types::stack_item::StackItem;
use stack_vm::types::stack_item_type::StackItemType;
use stack_vm::types::vm_buffer::VMBuffer;
use stack_vm::types::vm_interop_interface::VMInteropInterface;
use stack_vm::types::vm_null::VMNull;
use stack_vm::types::vm_pointer::VMPointer;
use stack_vm::vm::execution_engine_limits::ExecutionEngineLimits;
use stack_vm::vm::reference_counter::ReferenceCounter;
use std::io::Cursor;

fn num(v: i64) -> StackItem {
    StackItem::Integer(VMInteger::from_i64(v))
}

fn bytes(b: &[u8]) -> StackItem {
    StackItem::ByteString(b.to_vec())
}

fn as_int(item: &StackItem) -> i64 {
    match item {
        StackItem::Integer(v) => v.value().to_i64().unwrap(),
        other => panic!("not an integer: {:?}", other),
    }
}

#[test]
fn truth_values() {
    let mut heap = ReferenceCounter::new();
    let zeros = heap.new_buffer(vec![0, 0]);
    let mixed = heap.new_buffer(vec![0, 3]);
    let array = heap.new_sequence(vec![], false).unwrap();
    assert_eq!(StackItem::Null.get_boolean(&heap), Some(false));
    assert_eq!(StackItem::Boolean(true).get_boolean(&heap), Some(true));
    assert_eq!(num(0).get_boolean(&heap), Some(false));
    assert_eq!(num(-1).get_boolean(&heap), Some(true));
    assert_eq!(bytes(&[]).get_boolean(&heap), Some(false));
    assert_eq!(bytes(&[0, 0]).get_boolean(&heap), Some(false));
    assert_eq!(bytes(&[0, 1]).get_boolean(&heap), Some(true));
    assert_eq!(StackItem::Buffer(zeros).get_boolean(&heap), Some(false));
    assert_eq!(StackItem::Buffer(mixed).get_boolean(&heap), Some(true));
    assert_eq!(StackItem::Buffer(99).get_boolean(&heap), None);
    assert_eq!(StackItem::Array(array).get_boolean(&heap), Some(true));
    assert_eq!(StackItem::Pointer(VMPointer::new(0, 0)).get_boolean(&heap), Some(true));
    assert_eq!(
        StackItem::InteropInterface(VMInteropInterface::new(7)).get_boolean(&heap),
        Some(true)
    );
}

#[test]
fn numbers_and_bytes_of_items() {
    let mut heap = ReferenceCounter::new();
    let buffer = heap.new_buffer(vec![0x01, 0x01]);
    assert_eq!(StackItem::Boolean(true).get_integer(&heap).map(|v| as_int(&StackItem::Integer(v))), Some(1));
    assert_eq!(bytes(&[0xFF]).get_integer(&heap).map(|v| as_int(&StackItem::Integer(v))), Some(-1));
    assert_eq!(bytes(&[]).get_integer(&heap).map(|v| as_int(&StackItem::Integer(v))), Some(0));
    assert_eq!(
        StackItem::Buffer(buffer).get_integer(&heap).map(|v| as_int(&StackItem::Integer(v))),
        Some(257)
    );
    assert!(bytes(&[1; 33]).get_integer(&heap).is_none());
    assert!(bytes(&[1; 32]).get_integer(&heap).is_some());
    assert!(StackItem::Null.get_integer(&heap).is_none());
    assert_eq!(StackItem::Boolean(false).get_span(&heap), Some(vec![0]));
    assert_eq!(num(256).get_span(&heap), Some(vec![0x00, 0x01]));
    assert_eq!(num(0).get_span(&heap), Some(vec![]));
    assert_eq!(StackItem::Buffer(buffer).get_span(&heap), Some(vec![1, 1]));
    assert_eq!(StackItem::Null.get_span(&heap), None);
    assert_eq!(bytes(b"hi").get_string(&heap), Some("hi".to_string()));
    assert_eq!(bytes(&[0xFF]).get_string(&heap), None);
    assert_eq!(num(1).get_string(&heap), None);
    assert_eq!(
        StackItem::InteropInterface(VMInteropInterface::new(7)).get_interface(),
        Some(VMInteropInterface::new(7))
    );
    assert_eq!(num(1).get_interface(), None);
}

#[test]
fn conversion_matrix() {
    let mut heap = ReferenceCounter::new();
    // The same type gives the item back.
    assert!(num(5).convert_to(StackItemType::Integer, &mut heap).unwrap().same(&num(5)));
    // Null converts to Any alone.
    assert!(StackItem::Null.convert_to(StackItemType::Any, &mut heap).unwrap().is_null());
    assert!(StackItem::Null.convert_to(StackItemType::Boolean, &mut heap).is_none());
    assert!(num(5).convert_to(StackItemType::Any, &mut heap).is_none());
    // Everything else has a truth value.
    assert!(num(0)
        .convert_to(StackItemType::Boolean, &mut heap)
        .unwrap()
        .same(&StackItem::Boolean(false)));
    // Primitives to integers and byte strings.
    assert!(bytes(&[0x00, 0x01]).convert_to(StackItemType::Integer, &mut heap).unwrap().same(&num(256)));
    assert!(StackItem::Boolean(true)
        .convert_to(StackItemType::ByteString, &mut heap)
        .unwrap()
        .same(&bytes(&[1])));
    assert!(bytes(&[1; 33]).convert_to(StackItemType::Integer, &mut heap).is_none());
    // A byte string becomes a new buffer with the same bytes.
    let buffer = bytes(&[9, 8]).convert_to(StackItemType::Buffer, &mut heap).unwrap();
    assert_eq!(buffer.get_type(), StackItemType::Buffer);
    assert_eq!(buffer.get_span(&heap), Some(vec![9, 8]));
    assert!(buffer.convert_to(StackItemType::ByteString, &mut heap).unwrap().same(&bytes(&[9, 8])));
    assert!(num(1).convert_to(StackItemType::Buffer, &mut heap).is_none());
    // No conversion between unrelated types.
    assert!(num(1).convert_to(StackItemType::Array, &mut heap).is_none());
    assert!(StackItem::Pointer(VMPointer::new(0, 1))
        .convert_to(StackItemType::Integer, &mut heap)
        .is_none());
}

#[test]
fn integer_and_byte_string_round_trip() {
    let mut heap = ReferenceCounter::new();
    for v in [0i64, 1, -1, 127, 128, -128, -129, 65535, i64::MAX, i64::MIN] {
        let there = num(v).convert_to(StackItemType::ByteString, &mut heap).unwrap();
        let back = there.convert_to(StackItemType::Integer, &mut heap).unwrap();
        assert_eq!(as_int(&back), v);
    }
    // The byte string of an integer comes back as it was; a longer encoding
    // of the same number comes back shortened.
    let canonical = bytes(&[0x80, 0x00]);
    let number = canonical.convert_to(StackItemType::Integer, &mut heap).unwrap();
    assert!(number.convert_to(StackItemType::ByteString, &mut heap).unwrap().same(&canonical));
    let padded = bytes(&[0x01, 0x00]);
    let number = padded.convert_to(StackItemType::Integer, &mut heap).unwrap();
    assert!(number.convert_to(StackItemType::ByteString, &mut heap).unwrap().same(&bytes(&[0x01])));
}

#[test]
fn array_and_struct_round_trip_keeps_the_items() {
    let mut heap = ReferenceCounter::new();
    let array = heap.new_sequence(vec![num(1), bytes(&[2]), StackItem::Null], false).unwrap();
    let as_struct = StackItem::Array(array).convert_to(StackItemType::Struct, &mut heap).unwrap();
    assert_eq!(as_struct.get_type(), StackItemType::Struct);
    let back = as_struct.convert_to(StackItemType::Array, &mut heap).unwrap();
    assert_eq!(back.get_type(), StackItemType::Array);
    let id = back.handle().unwrap();
    assert_ne!(id, array);
    let items = heap.sequence(id).unwrap();
    assert_eq!(items.len(), 3);
    assert!(items[0].same(&num(1)));
    assert!(items[1].same(&bytes(&[2])));
    assert!(items[2].is_null());
    // Three objects hold three items each.
    assert_eq!(heap.count(), 9);
}

#[test]
fn equality_rules() {
    let limits = ExecutionEngineLimits::default();
    let mut heap = ReferenceCounter::new();
    let a = heap.new_sequence(vec![num(1)], false).unwrap();
    let b = heap.new_sequence(vec![num(1)], false).unwrap();
    let m = heap.new_map();
    let n = heap.new_map();
    let x = heap.new_buffer(vec![1, 2]);
    let y = heap.new_buffer(vec![1, 2]);
    let eq = |l: &StackItem, r: &StackItem, heap: &ReferenceCounter| l.equals(r, heap, &limits);
    assert_eq!(eq(&StackItem::Null, &StackItem::Null, &heap), Some(true));
    assert_eq!(eq(&StackItem::Null, &num(0), &heap), Some(false));
    assert_eq!(eq(&num(3), &num(3), &heap), Some(true));
    assert_eq!(eq(&num(1), &StackItem::Boolean(true), &heap), Some(false));
    assert_eq!(eq(&bytes(&[1]), &bytes(&[1]), &heap), Some(true));
    assert_eq!(eq(&bytes(&[1]), &num(1), &heap), Some(false));
    // Arrays and maps are equal to themselves alone.
    assert_eq!(eq(&StackItem::Array(a), &StackItem::Array(a), &heap), Some(true));
    assert_eq!(eq(&StackItem::Array(a), &StackItem::Array(b), &heap), Some(false));
    assert_eq!(eq(&StackItem::Mapping(m), &StackItem::Mapping(n), &heap), Some(false));
    // Buffers are compared by their bytes.
    assert_eq!(eq(&StackItem::Buffer(x), &StackItem::Buffer(y), &heap), Some(true));
    assert_eq!(eq(&StackItem::Buffer(x), &StackItem::Buffer(77), &heap), None);
    // Pointers and host objects.
    let p = StackItem::Pointer(VMPointer::new(1, 4));
    assert_eq!(eq(&p, &StackItem::Pointer(VMPointer::new(1, 4)), &heap), Some(true));
    assert_eq!(eq(&p, &StackItem::Pointer(VMPointer::new(2, 4)), &heap), Some(false));
    let o = StackItem::InteropInterface(VMInteropInterface::new(5));
    assert_eq!(eq(&o, &StackItem::InteropInterface(VMInteropInterface::new(5)), &heap), Some(true));
    assert_eq!(eq(&o, &StackItem::InteropInterface(VMInteropInterface::new(6)), &heap), Some(false));
}

#[test]
fn struct_equality_is_an_equivalence_within_the_budget() {
    let limits = ExecutionEngineLimits::default();
    let mut heap = ReferenceCounter::new();
    let make = |heap: &mut ReferenceCounter, last: i64| {
        let inner = heap.new_sequence(vec![num(7), bytes(&[1, 2])], true).unwrap();
        let outer = heap.new_sequence(vec![StackItem::Struct(inner), num(last)], true).unwrap();
        StackItem::Struct(outer)
    };
    let a = make(&mut heap, 3);
    let b = make(&mut heap, 3);
    let c = make(&mut heap, 3);
    let d = make(&mut heap, 4);
    assert_eq!(a.equals(&a, &heap, &limits), Some(true));
    assert_eq!(a.equals(&b, &heap, &limits), Some(true));
    assert_eq!(b.equals(&a, &heap, &limits), Some(true));
    assert_eq!(b.equals(&c, &heap, &limits), Some(true));
    assert_eq!(a.equals(&c, &heap, &limits), Some(true));
    assert_eq!(a.equals(&d, &heap, &limits), Some(false));
    assert_eq!(d.equals(&a, &heap, &limits), Some(false));
    // Structs with different numbers of fields differ.
    let short = StackItem::Struct(heap.new_sequence(vec![num(3)], true).unwrap());
    assert_eq!(a.equals(&short, &heap, &limits), Some(false));
    // The comparison gives up when the budget runs out: the two structs
    // need five visits.
    let tight = ExecutionEngineLimits { max_comparable_size: 4, ..limits };
    assert_eq!(a.equals(&b, &heap, &tight), None);
    let enough = ExecutionEngineLimits { max_comparable_size: 5, ..limits };
    assert_eq!(a.equals(&b, &heap, &enough), Some(true));
    // A byte string that is too long is not compared.
    let tiny = ExecutionEngineLimits { max_comparable_size: 1, ..limits };
    assert_eq!(bytes(&[1, 2]).equals(&bytes(&[1, 2]), &heap, &tiny), None);
}

#[test]
fn cyclic_structs_exhaust_the_budget() {
    let limits = ExecutionEngineLimits::default();
    let mut heap = ReferenceCounter::new();
    let a = heap.new_sequence(vec![], true).unwrap();
    let b = heap.new_sequence(vec![], true).unwrap();
    assert!(heap.append(a, StackItem::Struct(a)));
    assert!(heap.append(b, StackItem::Struct(b)));
    assert_eq!(StackItem::Struct(a).equals(&StackItem::Struct(a), &heap, &limits), Some(true));
    assert_eq!(StackItem::Struct(a).equals(&StackItem::Struct(b), &heap, &limits), None);
}

#[test]
fn struct_clone_copies_nested_structs_by_value() {
    let limits = ExecutionEngineLimits::default();
    let mut heap = ReferenceCounter::new();
    let shared_array = heap.new_sequence(vec![num(9)], false).unwrap();
    let inner = heap.new_sequence(vec![num(1)], true).unwrap();
    let source = VMStruct::new(Some(vec![
        StackItem::Struct(inner),
        StackItem::Array(shared_array),
        num(5),
    ]));
    let copy = source.clone(&mut heap, &limits).unwrap();
    assert_eq!(copy.count(), 3);
    let copied_inner = copy.get(0).handle().unwrap();
    assert_ne!(copied_inner, inner);
    assert!(heap.sequence(copied_inner).unwrap()[0].same(&num(1)));
    assert!(copy.get(1).same(&StackItem::Array(shared_array)));
    assert!(copy.get(2).same(&num(5)));
    assert_eq!(copy.equals(&source, &heap, &limits), Some(true));
    // Changing the copy of the nested struct leaves the source alone.
    assert!(heap.append(copied_inner, num(2)));
    assert_eq!(heap.sequence(inner).unwrap().len(), 1);
    // Every field costs one unit: four fields need a budget of five.
    let tight = ExecutionEngineLimits { max_stack_size: 5, ..limits };
    assert!(source.clone(&mut heap, &tight).is_none());
    let enough = ExecutionEngineLimits { max_stack_size: 6, ..limits };
    assert!(source.clone(&mut heap, &enough).is_some());
    // A struct that holds itself has no copy.
    let cyclic = heap.new_sequence(vec![], true).unwrap();
    assert!(heap.append(cyclic, StackItem::Struct(cyclic)));
    let holder = VMStruct::new(Some(vec![StackItem::Struct(cyclic)]));
    assert!(holder.clone(&mut heap, &limits).is_none());
    assert_eq!(source.to_array().count(), 3);
    assert_eq!(VMStruct::from(source.to_array()).count(), 3);
}

#[test]
fn deep_copy_preserves_sharing_and_cycles() {
    let mut heap = ReferenceCounter::new();
    let leaf = heap.new_sequence(vec![num(1)], false).unwrap();
    let root = heap
        .new_sequence(vec![StackItem::Array(leaf), StackItem::Array(leaf)], false)
        .unwrap();
    assert!(heap.append(leaf, StackItem::Array(root)));
    let mut map: Vec<CopyEntry> = Vec::new();
    let copy = StackItem::Array(root).deep_copy(&mut heap, &mut map, false).unwrap();
    let new_root = copy.handle().unwrap();
    assert_ne!(new_root, root);
    let items = heap.sequence(new_root).unwrap();
    let new_leaf = items[0].handle().unwrap();
    assert_ne!(new_leaf, leaf);
    // Both places hold the same copy, and the copy points back to the copy.
    assert_eq!(items[1].handle(), Some(new_leaf));
    let leaf_items = heap.sequence(new_leaf).unwrap();
    assert!(leaf_items[0].same(&num(1)));
    assert_eq!(leaf_items[1].handle(), Some(new_root));
    assert_eq!(map.len(), 2);
    // The source is untouched.
    assert_eq!(heap.sequence(root).unwrap()[0].handle(), Some(leaf));
}

#[test]
fn immutable_deep_copy_is_read_only() {
    let mut heap = ReferenceCounter::new();
    let buffer = heap.new_buffer(vec![1, 2, 3]);
    let m = heap.new_map();
    assert!(heap.map_set(m, num(1), StackItem::Buffer(buffer)));
    let array = heap.new_sequence(vec![StackItem::Mapping(m)], false).unwrap();
    let mut map: Vec<CopyEntry> = Vec::new();
    let copy = StackItem::Array(array).deep_copy(&mut heap, &mut map, true).unwrap();
    let new_array = copy.handle().unwrap();
    assert!(heap.compound(new_array).unwrap().is_read_only());
    assert!(!heap.append(new_array, num(1)));
    let new_map = heap.sequence(new_array).unwrap()[0].handle().unwrap();
    assert!(heap.compound(new_map).unwrap().is_read_only());
    let value = heap.map(new_map).unwrap().get(&num(1)).unwrap().clone();
    assert!(value.same(&bytes(&[1, 2, 3])));
    // A mutable copy of a buffer is a new buffer.
    let mut map: Vec<CopyEntry> = Vec::new();
    let other = StackItem::Buffer(buffer).deep_copy(&mut heap, &mut map, false).unwrap();
    assert_ne!(other.handle(), Some(buffer));
    assert_eq!(other.get_span(&heap), Some(vec![1, 2, 3]));
    // Primitives are their own copies.
    assert!(num(4).deep_copy(&mut heap, &mut map, true).unwrap().same(&num(4)));
}

#[test]
fn map_keeps_insertion_order_and_replaces_values() {
    let mut m = VMMap::new();
    assert!(m.is_empty());
    assert!(m.insert(num(2), bytes(&[2])).is_none());
    assert!(m.insert(num(1), bytes(&[1])).is_none());
    assert!(m.insert(num(2), bytes(&[9])).unwrap().same(&bytes(&[2])));
    assert_eq!(m.len(), 2);
    assert!(m.key_at(0).same(&num(2)));
    assert!(m.value_at(0).same(&bytes(&[9])));
    assert!(m.contains_key(&num(1)));
    assert!(!m.contains_key(&bytes(&[1])));
    assert!(m.get(&num(1)).unwrap().same(&bytes(&[1])));
    assert_eq!(m.find(&num(1)), Some(1));
    assert_eq!(m.keys().len(), 2);
    assert_eq!(m.values().len(), 2);
    assert!(m.remove(&num(2)).unwrap().same(&bytes(&[9])));
    assert!(m.remove(&num(2)).is_none());
    assert_eq!(m.len(), 1);
    let copy = m.clone();
    assert_eq!(copy.len(), 1);
    m.read_only();
    assert!(m.is_read_only());
    m.clear();
    assert!(m.is_empty());
    assert_eq!(VMMap::MAX_KEY_SIZE, 64);
}

#[test]
fn arrays_structs_and_buffers() {
    let mut a = VMArray::new(None);
    a.add(num(1));
    a.add(num(2));
    a.add(num(3));
    a.reverse();
    assert!(a.get(0).same(&num(3)));
    a.set(0, num(7));
    assert!(a.remove_at(0).same(&num(7)));
    assert_eq!(a.count(), 2);
    let copy = a.clone();
    assert_eq!(copy.count(), 2);
    a.read_only();
    assert!(a.is_read_only());
    a.clear();
    assert_eq!(a.count(), 0);
    let mut s = VMStruct::new(Some(vec![num(1), num(2)]));
    s.add(num(3));
    s.reverse();
    assert!(s.get(0).same(&num(3)));
    s.set(1, num(9));
    assert!(s.remove_at(1).same(&num(9)));
    assert_eq!(s.count(), 2);
    assert!(!s.is_read_only());
    s.read_only();
    assert!(s.is_read_only());
    s.clear();
    assert_eq!(s.count(), 0);
    let mut b = VMBuffer::new(3);
    assert_eq!(b.to_vec(), vec![0, 0, 0]);
    assert_eq!(b.len(), 3);
    let mut c = VMBuffer::from_slice(&[1, 2, 3]);
    assert_eq!(c.as_slice(), &[1, 2, 3]);
    assert_eq!(c.memory(), vec![1, 2, 3]);
    assert_eq!(c.get_slice(), vec![1, 2, 3]);
    c.reverse();
    assert_eq!(c.to_vec(), vec![3, 2, 1]);
    b.reverse();
    assert_eq!(b.clone().to_vec(), vec![0, 0, 0]);
    let mut compound = VMCompound::Array(VMArray::new(Some(vec![num(1)])));
    assert_eq!(compound.count(), 1);
    assert_eq!(compound.sub_items_count(), 1);
    assert_eq!(compound.get_type(), StackItemType::Array);
    assert!(compound.item_for(4).same(&StackItem::Array(4)));
    compound.cleanup();
    assert_eq!(compound.count(), 0);
}

#[test]
fn primitive_wrappers() {
    let t = VMBoolean::new(true);
    assert_eq!(t.memory(), vec![1]);
    assert_eq!(VMBoolean::new(false).memory(), vec![0]);
    assert_eq!(t.size(), 1);
    assert!(t.get_boolean());
    assert_eq!(t.get_integer().value().to_i64(), Some(1));
    assert_eq!(t.get_type(), StackItemType::Boolean);
    assert!(t.equals(&StackItem::Boolean(true)));
    assert!(!t.equals(&num(1)));
    assert!(t.to_item().same(&StackItem::Boolean(true)));
    assert_eq!(VMBoolean::from_item(&StackItem::Boolean(false)), Some(VMBoolean::new(false)));
    assert_eq!(VMBoolean::from_item(&num(0)), None);

    let s = VMByteString::new(b"abc".to_vec());
    assert!(s.equals(&VMByteString::new(b"abc".to_vec())));
    assert!(!s.equals(&VMByteString::new(b"abd".to_vec())));
    assert_eq!(s.size(), 3);
    assert_eq!(s.memory(), b"abc");
    assert_eq!(s.get_bytes(), b"abc");
    assert_eq!(s.get_slice(), b"abc".to_vec());
    assert!(s.get_boolean());
    assert_eq!(s.get_type(), StackItemType::ByteString);
    assert_eq!(s.equals_with_limits(&s.clone(), 2), None);
    assert_eq!(s.equals_with_limits(&s.clone(), 3), Some(true));
    let expected = murmur3::murmur3_32(&mut Cursor::new(b"abc"), 0).unwrap();
    assert_eq!(s.hash(), Some(expected));
    assert_eq!(s.get_hash_code(), Some(expected as u64));
    assert_eq!(VMByteString::new(vec![]).hash(), Some(0));
    assert_ne!(s.hash(), VMByteString::new(b"abd".to_vec()).hash());
    assert!(VMByteString::from_item(&bytes(b"abc")).unwrap().equals(&s));
    assert!(VMByteString::from_item(&num(1)).is_none());
    assert!(s.to_item().same(&bytes(b"abc")));

    let p = VMPrimitive::from_integer(VMInteger::from_i64(256));
    assert_eq!(p.memory(), vec![0, 1]);
    assert_eq!(p.size(), 2);
    assert_eq!(p.get_type(), StackItemType::Integer);
    assert!(p.into().same(&num(256)));
    assert_eq!(VMPrimitive::from_boolean(VMBoolean::new(true)).size(), 1);
    assert_eq!(VMPrimitive::from_byte_string(VMByteString::new(vec![1, 2, 3])).size(), 3);
}

#[test]
fn null_values() {
    let n = VMNull::default();
    assert!(n.is_null());
    assert!(!n.get_boolean());
    assert_eq!(n.get_type(), StackItemType::Any);
    assert_eq!(n.get_hash_code(), 0);
    assert_eq!(n.get_string(), None);
    assert!(n.convert_to(StackItemType::Any).unwrap().is_null());
    assert!(n.convert_to(StackItemType::Integer).is_none());
    assert!(n.equals(&StackItem::Null));
    assert!(!n.equals(&num(0)));
    assert!(n.into().is_null());
    assert!(VMNull::from(&StackItem::Null).is_some());
    assert!(VMNull::from(&num(0)).is_none());
    let legacy = Null;
    assert!(legacy.is_null());
    assert!(!legacy.get_boolean());
    assert_eq!(legacy.get_type(), StackItemType::Any);
    assert_eq!(legacy.get_hash_code(), 0);
    assert_eq!(legacy.get_string(), None);
    assert!(legacy.convert_to(StackItemType::Any).is_some());
    assert!(legacy.convert_to(StackItemType::Boolean).is_none());
    assert!(legacy.into().is_null());
    assert!(StackItem::new().is_null());
    assert!(num(1).is_primitive());
    assert!(!StackItem::Null.is_primitive());
    assert!(num(1).clone().same(&num(1)));
    let p = VMPointer::new(3, 9);
    assert_eq!(p.script(), 3);
    assert_eq!(p.position(), 9);
    assert!(p.equals(&VMPointer::new(3, 9)));
    let o = VMInteropInterface::new(4);
    assert_eq!(o.object(), 4);
    assert!(o.get_boolean());
    assert!(o.equals(&VMInteropInterface::new(4)));
}
