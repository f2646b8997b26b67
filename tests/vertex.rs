use draw::vertex::{encode_nodes, rotate_nodes, translocate_nodes, Node, STRIDE};

fn node(base: f32) -> Node<f32> {
    Node::new(
        [base, base + 1.0, base + 2.0],
        [base + 3.0, base + 4.0, base + 5.0],
        [base + 6.0, base + 7.0, base + 8.0, base + 9.0],
        [base + 10.0, base + 11.0],
    )
}

#[test]
fn node_encodes_in_wire_order() {
    let n = Node::new([1.0f32, 2.0, 3.0], [0.0, 0.0, 1.0], [0.1, 0.2, 0.3, 1.0], [0.5, 0.25]);
    assert_eq!(n.encode(), vec![1.0, 2.0, 3.0, 0.0, 0.0, 1.0, 0.1, 0.2, 0.3, 1.0, 0.5, 0.25]);
}

#[test]
fn encoding_nothing_gives_nothing() {
    let nodes: Vec<Node<f32>> = Vec::new();
    assert!(encode_nodes(nodes).is_empty());
}

#[test]
fn encoding_lays_records_end_to_end() {
    let nodes = vec![node(0.0), node(100.0), node(200.0)];
    let out = encode_nodes(nodes);
    assert_eq!(out.len(), 3 * STRIDE);
    for i in 0..3 {
        for j in 0..12 {
            assert_eq!(out[12 * i + j], 100.0 * i as f32 + j as f32);
        }
    }
}

#[test]
fn translocating_there_and_back_restores_positions() {
    let mut nodes = vec![node(0.0), node(-3.5), node(1e3)];
    let before = nodes.clone();
    let d = [0.25f32, -7.0, 12.5];
    translocate_nodes(&mut nodes, |c: [f32; 3]| [c[0] + d[0], c[1] + d[1], c[2] + d[2]]);
    assert_eq!(nodes[0].coordinate, [0.25, -6.0, 14.5]);
    translocate_nodes(&mut nodes, |c: [f32; 3]| [c[0] - d[0], c[1] - d[1], c[2] - d[2]]);
    for (a, b) in before.iter().zip(nodes.iter()) {
        for k in 0..3 {
            assert!((a.coordinate[k] - b.coordinate[k]).abs() <= 1e-5 * a.coordinate[k].abs().max(1.0));
        }
        assert_eq!(a.normal, b.normal);
        assert_eq!(a.color, b.color);
        assert_eq!(a.texture, b.texture);
    }
}

#[test]
fn rotating_maps_coordinates_and_normals_only() {
    let mut nodes = vec![node(0.0), node(20.0)];
    let before = nodes.clone();
    // a quarter turn about z through the pivot (1, 1)
    let place = |c: [f32; 3]| [1.0 - (c[1] - 1.0), 1.0 + (c[0] - 1.0), c[2]];
    let turn = |n: [f32; 3]| [-n[1], n[0], n[2]];
    rotate_nodes(&mut nodes, place, turn);
    assert_eq!(nodes[0].coordinate, [1.0, 0.0, 2.0]);
    assert_eq!(nodes[0].normal, [-4.0, 3.0, 5.0]);
    for (a, b) in before.iter().zip(nodes.iter()) {
        assert_eq!(a.color, b.color);
        assert_eq!(a.texture, b.texture);
    }
    // and back
    rotate_nodes(&mut nodes, |c: [f32; 3]| [1.0 + (c[1] - 1.0), 1.0 - (c[0] - 1.0), c[2]], |n: [f32; 3]| [n[1], -n[0], n[2]]);
    assert_eq!(nodes, before);
}
