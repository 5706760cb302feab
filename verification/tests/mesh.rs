use shared::mesh::{apply_infix_operation_over_array, compile_nodes, union_shape, CompilationError, UnionShape};
use shared::node::NodeId;

/// A context that records every call: the pairs it was given.
type Log = Vec<(u32, u32)>;

fn combine(mut log: Log, a: u32, b: u32) -> (Log, u32) {
    log.push((a, b));
    (log, a * 10 + b)
}

#[test]
fn fold_calls_once_per_step() {
    let (log, r) = apply_infix_operation_over_array(&[1u32, 2, 3], Log::new(), combine);
    assert_eq!(r.unwrap(), 123);
    assert_eq!(log, vec![(1, 2), (12, 3)]);
}

#[test]
fn fold_of_one_or_none() {
    let (log, r) = apply_infix_operation_over_array(&[7u32], Log::new(), combine);
    assert_eq!(r.unwrap(), 7);
    assert!(log.is_empty());
    let (log, r) = apply_infix_operation_over_array(&[], Log::new(), combine);
    assert!(matches!(r, Err(CompilationError::NoChildren)));
    assert!(log.is_empty());
}

fn compile(mut seen: Vec<u32>, id: NodeId) -> (Vec<u32>, Result<u32, CompilationError>) {
    seen.push(id.0);
    if id.0 == 99 {
        (seen, Err(CompilationError::NegativeSize))
    } else {
        (seen, Ok(id.0 * 2))
    }
}

#[test]
fn compile_filled_slots_in_order() {
    let slots = [Some(NodeId(1)), None, Some(NodeId(3)), None];
    let (seen, r) = compile_nodes(&slots, Vec::new(), compile);
    assert_eq!(r.unwrap(), vec![2, 6]);
    assert_eq!(seen, vec![1, 3]);
}

#[test]
fn compile_stops_at_first_error() {
    let slots = [Some(NodeId(1)), Some(NodeId(99)), Some(NodeId(3))];
    let (seen, r) = compile_nodes(&slots, Vec::new(), compile);
    assert!(matches!(r, Err(CompilationError::NegativeSize)));
    assert_eq!(seen, vec![1, 99]);
    let (seen, r) = compile_nodes(&[None, None], Vec::new(), compile);
    assert!(r.unwrap().is_empty());
    assert!(seen.is_empty());
}

#[test]
fn union_arity() {
    assert!(matches!(union_shape::<u32>(vec![]), Err(CompilationError::NoChildren)));
    assert!(matches!(union_shape(vec![4u32, 5]), Ok(UnionShape::Binary(4, 5))));
    match union_shape(vec![4u32]) {
        Ok(UnionShape::Multi(v)) => assert_eq!(v, vec![4]),
        other => panic!("{:?}", other),
    }
    match union_shape(vec![1u32, 2, 3]) {
        Ok(UnionShape::Multi(v)) => assert_eq!(v, vec![1, 2, 3]),
        other => panic!("{:?}", other),
    }
}
