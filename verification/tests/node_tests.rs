use std::cmp::Ordering;
use std::rc::Rc;
use term_ir::children::Children;
use term_ir::identity::slice_order;
use term_ir::key::first_difference;
use term_ir::node::{
    Buffer, BufferedVariable, Dim, ENode, Elemwise, IfElse, Node, ScalarType, Type,
    UnbufferedVariable, Variable,
};
use term_ir::registry::Registry;
use term_ir::simple::{IdentityError, SimpleNode};

fn registry() -> Rc<Registry> {
    let mut registry = Registry::new();
    for i in 0..8 {
        registry.register(format!("op{}", i));
    }
    Rc::new(registry)
}

fn simple(db: &Rc<Registry>, op: u32, kids: &[u32]) -> ENode {
    ENode::Node(Node::Simple(SimpleNode::new(Rc::clone(db), op, Children::from_slice(kids))))
}

fn elemwise(kids: &[u32], n_inputs: u64) -> ENode {
    ENode::Node(Node::Elemwise(Elemwise { children: Children::from_slice(kids), n_inputs }))
}

fn if_else(kids: &[u32], n_inputs: usize) -> ENode {
    ENode::Node(Node::IfElse(IfElse { children: Children::from_slice(kids), n_inputs }))
}

fn tensor() -> Type {
    Type::DenseTensor(ScalarType::Float32, vec![Dim { size_hint: 3 }, Dim { size_hint: 4 }])
}

fn buffered(buffer: u32, owner: u32) -> Variable {
    Variable::Buffered(BufferedVariable { children: [buffer, owner], value_type: tensor() })
}

fn unbuffered(owner: Option<u32>) -> Variable {
    Variable::Unbuffered(UnbufferedVariable { owner, value_type: Type::Scalar(ScalarType::Int32) })
}

fn one_of_each(db: &Rc<Registry>) -> Vec<ENode> {
    vec![
        simple(db, 7, &[1, 2]),
        elemwise(&[1, 2, 3, 4], 2),
        if_else(&[0, 1, 2], 1),
        ENode::Output(0, buffered(10, 11)),
        ENode::Output(1, unbuffered(Some(5))),
        ENode::Argument(0, unbuffered(None)),
        ENode::Argument(2, buffered(12, 13)),
        ENode::Buffer(Buffer {}),
        ENode::Constant(),
    ]
}

#[test]
fn elemwise_boundary_partition_scenario() {
    let node = elemwise(&[1, 2, 3, 4], 2);
    assert_eq!(node.children(), &[1, 2, 3, 4]);
    let (arguments, outputs) = node.children().split_at(2);
    assert_eq!(arguments, &[1, 2]);
    assert_eq!(outputs, &[3, 4]);
}

#[test]
fn children_follow_the_layout_of_each_kind() {
    let db = registry();
    assert_eq!(simple(&db, 7, &[3, 1, 2]).children(), &[3, 1, 2]);
    assert_eq!(if_else(&[9, 1, 2, 3, 4], 2).children(), &[9, 1, 2, 3, 4]);
    assert_eq!(ENode::Output(0, buffered(10, 11)).children(), &[10, 11]);
    assert_eq!(ENode::Argument(0, buffered(12, 13)).children(), &[12, 13]);
    assert_eq!(ENode::Output(0, unbuffered(Some(5))).children(), &[5]);
    assert!(ENode::Argument(0, unbuffered(None)).children().is_empty());
    assert!(ENode::Buffer(Buffer {}).children().is_empty());
    assert!(ENode::Constant().children().is_empty());
}

#[test]
fn children_mut_of_an_untouched_node_changes_nothing() {
    let db = registry();
    for mut node in one_of_each(&db) {
        let before = node.children().to_vec();
        let handed = node.children_mut().to_vec();
        assert_eq!(handed, before);
        assert_eq!(node.children(), before.as_slice());
    }
}

#[test]
fn writing_one_slot_changes_that_slot_only() {
    let db = registry();
    for mut node in one_of_each(&db) {
        let before = node.children().to_vec();
        for i in 0..before.len() {
            node.children_mut()[i] = 1000 + before[i];
            let after = node.children().to_vec();
            assert_eq!(after.len(), before.len());
            for j in 0..before.len() {
                if j <= i {
                    assert_eq!(after[j], 1000 + before[j]);
                } else {
                    assert_eq!(after[j], before[j]);
                }
            }
        }
    }
}

#[test]
fn set_child_writes_the_slot_and_keeps_the_rest() {
    let mut node = elemwise(&[1, 2, 3, 4], 2);
    node.set_child(2, 30);
    assert_eq!(node.children(), &[1, 2, 30, 4]);
    assert!(node.matches(&elemwise(&[], 2)));
    let mut output = ENode::Output(4, unbuffered(Some(5)));
    output.set_child(0, 6);
    assert_eq!(output.children(), &[6]);
    assert!(output.eq(&ENode::Output(4, unbuffered(Some(6)))));
    let mut argument = ENode::Argument(1, buffered(10, 11));
    argument.set_child(1, 12);
    assert_eq!(argument.children(), &[10, 12]);
}

#[test]
fn variables_never_match_plain_operators() {
    let db = registry();
    let variables = vec![
        ENode::Output(0, buffered(10, 11)),
        ENode::Output(1, unbuffered(Some(5))),
        ENode::Argument(0, unbuffered(None)),
        ENode::Argument(2, buffered(12, 13)),
    ];
    let operators = vec![simple(&db, 0, &[]), simple(&db, 7, &[1, 2]), simple(&db, 7, &[10, 11])];
    for v in &variables {
        for op in &operators {
            assert!(!v.matches(op));
            assert!(!op.matches(v));
        }
    }
}

#[test]
fn any_two_variables_match() {
    let variables = vec![
        ENode::Output(0, buffered(10, 11)),
        ENode::Output(1, unbuffered(Some(5))),
        ENode::Argument(0, unbuffered(None)),
        ENode::Argument(2, buffered(12, 13)),
    ];
    for a in &variables {
        for b in &variables {
            assert!(a.matches(b));
        }
    }
}

#[test]
fn plain_operators_match_on_operator_id() {
    let db = registry();
    let other_db = registry();
    assert!(simple(&db, 7, &[1, 2]).matches(&simple(&db, 7, &[3])));
    assert!(simple(&db, 7, &[1, 2]).matches(&simple(&other_db, 7, &[1, 2])));
    assert!(!simple(&db, 7, &[1, 2]).matches(&simple(&db, 6, &[1, 2])));
}

#[test]
fn matches_is_reflexive_and_symmetric_on_samples() {
    let db = registry();
    let nodes = one_of_each(&db);
    for a in &nodes {
        assert!(a.matches(a));
        for b in &nodes {
            assert_eq!(a.matches(b), b.matches(a));
        }
    }
}

#[test]
fn composites_match_on_kind_and_input_count() {
    assert!(elemwise(&[1, 2, 3, 4], 2).matches(&elemwise(&[5, 6, 7], 2)));
    assert!(!elemwise(&[1, 2, 3, 4], 2).matches(&elemwise(&[1, 2, 3, 4], 3)));
    assert!(if_else(&[0, 1, 2], 1).matches(&if_else(&[3, 4, 5], 1)));
    assert!(!if_else(&[0, 1, 2], 1).matches(&if_else(&[0, 1, 2], 2)));
    assert!(!elemwise(&[0, 1, 2], 1).matches(&if_else(&[0, 1, 2], 1)));
    assert!(ENode::Buffer(Buffer {}).matches(&ENode::Buffer(Buffer {})));
    assert!(ENode::Constant().matches(&ENode::Constant()));
    assert!(!ENode::Constant().matches(&ENode::Buffer(Buffer {})));
    assert!(!ENode::Buffer(Buffer {}).matches(&ENode::Output(0, unbuffered(None))));
}

#[test]
fn kinds_are_ordered_by_rank() {
    let db = registry();
    let nodes = one_of_each(&db);
    let ranks: Vec<u64> = nodes.iter().map(|n| n.rank()).collect();
    assert_eq!(ranks, vec![0, 1, 2, 3, 3, 4, 4, 5, 6]);
    for i in 0..nodes.len() {
        for j in 0..nodes.len() {
            if ranks[i] < ranks[j] {
                assert_eq!(nodes[i].cmp(&nodes[j]), Ordering::Less);
                assert_eq!(nodes[j].cmp(&nodes[i]), Ordering::Greater);
                assert!(!nodes[i].eq(&nodes[j]));
            }
        }
        assert_eq!(nodes[i].cmp(&nodes[i]), Ordering::Equal);
        assert!(nodes[i].eq(&nodes[i]));
    }
}

#[test]
fn input_count_is_part_of_identity() {
    let a = elemwise(&[1, 2, 3, 4], 2);
    let b = elemwise(&[1, 2, 3, 4], 3);
    assert!(!a.eq(&b));
    assert_eq!(a.cmp(&b), Ordering::Less);
    assert_eq!(b.cmp(&a), Ordering::Greater);
    assert!(a.eq(&elemwise(&[1, 2, 3, 4], 2)));
    assert!(!if_else(&[1, 2, 3], 1).eq(&if_else(&[1, 2, 3], 0)));
}

#[test]
fn composite_children_are_compared_before_the_input_count() {
    let a = elemwise(&[1], 5);
    let b = elemwise(&[1, 0], 0);
    assert_eq!(a.cmp(&b), Ordering::Less);
    assert_eq!(b.cmp(&a), Ordering::Greater);
    assert_eq!(elemwise(&[2, 1], 0).cmp(&elemwise(&[1, 2], 9)), Ordering::Greater);
    assert!(!elemwise(&[1, 2], 1).eq(&elemwise(&[2, 1], 1)));
}

#[test]
fn buffered_and_unbuffered_are_ordered_by_kind() {
    let a = ENode::Output(0, buffered(90, 91));
    let b = ENode::Output(0, unbuffered(Some(1)));
    assert_eq!(a.cmp(&b), Ordering::Less);
    assert_eq!(b.cmp(&a), Ordering::Greater);
    assert!(!a.eq(&b));
    let later_slot = ENode::Output(1, buffered(0, 0));
    assert_eq!(b.cmp(&later_slot), Ordering::Less);
    assert_eq!(
        ENode::Output(0, unbuffered(None)).cmp(&ENode::Output(0, unbuffered(Some(0)))),
        Ordering::Less
    );
}

#[test]
fn size_hints_are_not_part_of_identity() {
    let a = ENode::Argument(
        0,
        Variable::Unbuffered(UnbufferedVariable {
            owner: Some(1),
            value_type: Type::DenseTensor(ScalarType::Float64, vec![Dim { size_hint: 2 }]),
        }),
    );
    let b = ENode::Argument(
        0,
        Variable::Unbuffered(UnbufferedVariable {
            owner: Some(1),
            value_type: Type::DenseTensor(ScalarType::Float64, vec![Dim { size_hint: 64 }]),
        }),
    );
    let c = ENode::Argument(
        0,
        Variable::Unbuffered(UnbufferedVariable {
            owner: Some(1),
            value_type: Type::Scalar(ScalarType::Float64),
        }),
    );
    assert!(a.eq(&b));
    assert_eq!(a.cmp(&b), Ordering::Equal);
    assert_eq!(a.hash_value(), b.hash_value());
    assert!(!a.eq(&c));
    assert_eq!(a.cmp(&c), Ordering::Less);
}

#[test]
fn plain_operators_inside_nodes_keep_their_guard() {
    let first = registry();
    let second = registry();
    let a = simple(&first, 7, &[1, 2]);
    let b = simple(&second, 7, &[1, 2]);
    let c = simple(&first, 7, &[1, 2]);
    assert!(!a.shares_registry(&b));
    assert_eq!(a.checked_eq(&b), Err(IdentityError::RegistryMismatch));
    assert_eq!(a.checked_cmp(&b), Err(IdentityError::RegistryMismatch));
    assert_eq!(a.eq_given(&b, false), Err(IdentityError::RegistryMismatch));
    assert_eq!(a.cmp_given(&b, false), Err(IdentityError::RegistryMismatch));
    assert_eq!(a.checked_eq(&c), Ok(true));
    assert_eq!(a.checked_cmp(&c), Ok(Ordering::Equal));
    assert_eq!(a.partial_cmp(&c), Some(Ordering::Equal));
    assert_eq!(a.checked_eq(&ENode::Constant()), Ok(false));
    assert_eq!(b.checked_cmp(&ENode::Constant()), Ok(Ordering::Less));
    assert_eq!(a.eq_given(&c, true), Ok(true));
    assert_eq!(a.cmp_given(&simple(&first, 8, &[]), true), Ok(Ordering::Less));
}

#[test]
fn equal_nodes_hash_alike_and_the_corpus_hashes_apart() {
    let db = registry();
    let mut corpus = one_of_each(&db);
    corpus.push(elemwise(&[1, 2, 3, 4], 3));
    corpus.push(if_else(&[1, 2, 3, 4], 2));
    corpus.push(elemwise(&[1, 2, 3], 2));
    corpus.push(ENode::Output(0, buffered(11, 10)));
    corpus.push(ENode::Argument(0, unbuffered(Some(0))));
    let again = one_of_each(&db);
    for i in 0..again.len() {
        assert!(corpus[i].eq(&again[i]));
        assert_eq!(corpus[i].hash_value(), again[i].hash_value());
    }
    for i in 0..corpus.len() {
        for j in 0..corpus.len() {
            if i != j {
                assert!(!corpus[i].eq(&corpus[j]));
                assert_ne!(corpus[i].hash_value(), corpus[j].hash_value());
            }
        }
    }
}

#[test]
fn key_fields_of_each_kind() {
    let db = registry();
    assert_eq!(simple(&db, 7, &[1]).head(), (7, 0));
    assert_eq!(simple(&db, 7, &[1]).tail(), (0, 0));
    assert_eq!(elemwise(&[1, 2], 2).head(), (0, 0));
    assert_eq!(elemwise(&[1, 2], 2).tail(), (2, 0));
    assert_eq!(if_else(&[1, 2, 3], 1).tail(), (1, 0));
    assert_eq!(ENode::Output(4, buffered(1, 2)).head(), (4, 0));
    assert_eq!(ENode::Output(4, buffered(1, 2)).tail(), (0, 1));
    assert_eq!(ENode::Argument(5, unbuffered(None)).head(), (5, 1));
    assert_eq!(ENode::Argument(5, unbuffered(None)).tail(), (1, 3));
    assert_eq!(ENode::Buffer(Buffer {}).head(), (0, 0));
    assert_eq!(ENode::Constant().tail(), (0, 0));
    assert_eq!(ScalarType::Float64.code(), 0);
    assert_eq!(ScalarType::Float32.code(), 1);
    assert_eq!(ScalarType::UInt32.code(), 2);
    assert_eq!(ScalarType::Int32.code(), 3);
    assert_eq!(tensor().codes(), (0, 1));
    assert_eq!(buffered(1, 2).kind(), 0);
    assert_eq!(unbuffered(None).type_codes(), (1, 3));
}

#[test]
fn slices_are_ordered_lexicographically() {
    assert_eq!(slice_order(&[], &[]), Ordering::Equal);
    assert_eq!(slice_order(&[], &[0]), Ordering::Less);
    assert_eq!(slice_order(&[0], &[]), Ordering::Greater);
    assert_eq!(slice_order(&[1, 2], &[1, 2]), Ordering::Equal);
    assert_eq!(slice_order(&[1, 2], &[1, 3]), Ordering::Less);
    assert_eq!(slice_order(&[1, 4], &[1, 3, 9]), Ordering::Greater);
    assert_eq!(slice_order(&[1, 2], &[1, 2, 0]), Ordering::Less);
    assert_eq!(first_difference(&[1, 2, 3], &[1, 2, 4]), 2);
    assert_eq!(first_difference(&[1, 2], &[1, 2, 4]), 2);
    assert_eq!(first_difference(&[5], &[6]), 0);
    assert_eq!(first_difference(&[], &[]), 0);
}

#[test]
fn variable_children_can_be_rewritten() {
    let mut v = buffered(1, 2);
    v.children_mut()[0] = 7;
    assert_eq!(v.children(), &[7, 2]);
    let mut u = unbuffered(Some(3));
    u.children_mut()[0] = 8;
    assert_eq!(u.children(), &[8]);
    let mut none = unbuffered(None);
    assert!(none.children_mut().is_empty());
    assert!(none.children().is_empty());
}
