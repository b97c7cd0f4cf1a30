use typst_shared::syntax::cfy;
use typst_shared::syntax::flattened_tree;
use typst_shared::syntax::release_flattened_tree;
use typst_shared::syntax::unflatten;
use typst_shared::syntax::SyntaxKind;
use typst_shared::syntax::SyntaxMark;
use typst_shared::syntax::TreeNode;

fn leaf(kind: SyntaxKind, len: u32) -> TreeNode {
    TreeNode::Leaf { kind, len }
}

#[test]
fn mark_codes_match_the_table() {
    assert_eq!(SyntaxMark::NodeStart(SyntaxKind::End).encode(), 0);
    assert_eq!(SyntaxMark::NodeStart(SyntaxKind::Error).encode(), 1);
    assert_eq!(SyntaxMark::NodeStart(SyntaxKind::Markup).encode(), 5);
    assert_eq!(SyntaxMark::NodeStart(SyntaxKind::Text).encode(), 6);
    assert_eq!(SyntaxMark::NodeStart(SyntaxKind::EqSign).encode(), 61);
    assert_eq!(SyntaxMark::NodeStart(SyntaxKind::NoneKw).encode(), 78);
    assert_eq!(SyntaxMark::NodeStart(SyntaxKind::SetKw).encode(), 81);
    assert_eq!(SyntaxMark::NodeStart(SyntaxKind::Code).encode(), 95);
    assert_eq!(SyntaxMark::NodeStart(SyntaxKind::DestructAssignment).encode(), 133);
    assert_eq!(SyntaxMark::NodeEnd.encode(), 134);
    assert_eq!(SyntaxMark::Error(0).encode(), 135);
    assert_eq!(SyntaxMark::Error(2).encode(), 137);
}

#[test]
fn flatten_emits_well_nested_marks() {
    let tree = TreeNode::Inner {
        kind: SyntaxKind::Markup,
        children: vec![leaf(SyntaxKind::Text, 5), leaf(SyntaxKind::Space, 1)],
    };
    let flat = flattened_tree(tree);
    assert_eq!(
        flat.marks,
        vec![
            (SyntaxMark::NodeStart(SyntaxKind::Markup), 0),
            (SyntaxMark::NodeStart(SyntaxKind::Text), 0),
            (SyntaxMark::NodeEnd, 5),
            (SyntaxMark::NodeStart(SyntaxKind::Space), 5),
            (SyntaxMark::NodeEnd, 6),
            (SyntaxMark::NodeEnd, 6),
        ]
    );
    assert!(flat.errors.is_empty());
    assert!(flat.errors_starts.is_empty());
}

#[test]
fn error_nodes_reference_the_side_buffer() {
    let tree = TreeNode::Inner {
        kind: SyntaxKind::Markup,
        children: vec![
            TreeNode::Error { message: b"unexpected star".to_vec(), len: 1 },
            leaf(SyntaxKind::Text, 2),
            TreeNode::Error { message: b"unclosed brace".to_vec(), len: 0 },
        ],
    };
    let flat = flattened_tree(tree);
    assert_eq!(
        flat.marks,
        vec![
            (SyntaxMark::NodeStart(SyntaxKind::Markup), 0),
            (SyntaxMark::Error(0), 0),
            (SyntaxMark::NodeEnd, 1),
            (SyntaxMark::NodeStart(SyntaxKind::Text), 1),
            (SyntaxMark::NodeEnd, 3),
            (SyntaxMark::Error(1), 3),
            (SyntaxMark::NodeEnd, 3),
            (SyntaxMark::NodeEnd, 3),
        ]
    );
    assert_eq!(flat.errors, b"unexpected starunclosed brace".to_vec());
    assert_eq!(flat.errors_starts, vec![0, 15]);
}

#[test]
fn flatten_round_trip_rebuilds_the_tree() {
    let tree = TreeNode::Inner {
        kind: SyntaxKind::Markup,
        children: vec![
            TreeNode::Inner {
                kind: SyntaxKind::Heading,
                children: vec![
                    leaf(SyntaxKind::HeadingMarker, 1),
                    leaf(SyntaxKind::Space, 1),
                    leaf(SyntaxKind::Text, 7),
                ],
            },
            leaf(SyntaxKind::Parbreak, 2),
            TreeNode::Error { message: b"that is not a function".to_vec(), len: 4 },
            leaf(SyntaxKind::Text, 3),
        ],
    };
    let expected = TreeNode::Inner {
        kind: SyntaxKind::Markup,
        children: vec![
            TreeNode::Inner {
                kind: SyntaxKind::Heading,
                children: vec![
                    leaf(SyntaxKind::HeadingMarker, 1),
                    leaf(SyntaxKind::Space, 1),
                    leaf(SyntaxKind::Text, 7),
                ],
            },
            leaf(SyntaxKind::Parbreak, 2),
            TreeNode::Error { message: b"that is not a function".to_vec(), len: 4 },
            leaf(SyntaxKind::Text, 3),
        ],
    };
    let flat = flattened_tree(tree);
    let rebuilt = unflatten(&flat).expect("a flattened tree is well nested");
    assert_eq!(rebuilt, expected);
}

#[test]
fn unflatten_rejects_unbalanced_streams() {
    let mut flat = flattened_tree(leaf(SyntaxKind::Text, 3));
    flat.marks.push((SyntaxMark::NodeEnd, 3));
    assert!(unflatten(&flat).is_none());
}

#[test]
fn packing_keeps_code_and_offset() {
    let tree = TreeNode::Inner {
        kind: SyntaxKind::Markup,
        children: vec![leaf(SyntaxKind::Text, 5)],
    };
    let packed = cfy(flattened_tree(tree));
    let items = &packed.marks.items;
    // code * 2^32 + offset, in pre-order
    assert_eq!(items[0], 5 << 32);
    assert_eq!(items[1], 6 << 32);
    assert_eq!(items[2], (134i64 << 32) + 5);
    assert_eq!(items[3], (134i64 << 32) + 5);
}

#[test]
fn releasing_a_packed_tree_consumes_it() {
    let packed = cfy(flattened_tree(leaf(SyntaxKind::Text, 1)));
    release_flattened_tree(packed);
}
