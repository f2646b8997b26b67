use vstd::prelude::*;

verus! {

/// Values per encoded vertex: 3 position, 3 normal, 4 color, 2 texture.
pub const STRIDE: usize = 12;

/// One corner of a rendered triangle, with components of type `S`.
#[derive(Clone, Copy, Debug, PartialEq)]
pub struct Node<S> {
    pub coordinate: [S; 3],
    pub normal: [S; 3],
    pub color: [S; 4],
    pub texture: [S; 2],
}

/// The twelve values of one vertex, in wire order.
pub open spec fn record<S>(n: Node<S>) -> Seq<S> {
    seq![
        n.coordinate[0],
        n.coordinate[1],
        n.coordinate[2],
        n.normal[0],
        n.normal[1],
        n.normal[2],
        n.color[0],
        n.color[1],
        n.color[2],
        n.color[3],
        n.texture[0],
        n.texture[1],
    ]
}

/// The records of `nodes` laid end to end.
pub open spec fn encoding<S>(nodes: Seq<Node<S>>) -> Seq<S> {
    Seq::new(12 * nodes.len(), |i: int| record(nodes[i / 12])[i % 12])
}

impl<S: Copy> Node<S> {
    pub fn new(coordinate: [S; 3], normal: [S; 3], color: [S; 4], texture: [S; 2]) -> (r: Self)
        ensures
            r == (Node { coordinate, normal, color, texture }),
    {
        Node { coordinate, normal, color, texture }
    }

    /// The vertex's twelve values, in wire order.
    pub fn encode(&self) -> (r: Vec<S>)
        ensures
            r@ == record(*self),
    {
        let r = vec![
            self.coordinate[0],
            self.coordinate[1],
            self.coordinate[2],
            self.normal[0],
            self.normal[1],
            self.normal[2],
            self.color[0],
            self.color[1],
            self.color[2],
            self.color[3],
            self.texture[0],
            self.texture[1],
        ];
        assert(r@ =~= record(*self));
        r
    }
}

/// Flattens `nodes` into the vertex buffer: for each vertex, in order, its
/// twelve values.
pub fn encode_nodes<S: Copy>(nodes: Vec<Node<S>>) -> (r: Vec<S>)
    requires
        12 * nodes@.len() <= usize::MAX,
    ensures
        r@ == encoding(nodes@),
        r@.len() == STRIDE * nodes@.len(),
        forall|i: int, j: int|
            0 <= i < nodes@.len() && 0 <= j < 12 ==> r@[12 * i + j] == #[trigger] record(nodes@[i])[j],
{
    let mut r: Vec<S> = Vec::new();
    let mut i: usize = 0;
    while i < nodes.len()
        invariant
            i <= nodes@.len(),
            12 * nodes@.len() <= usize::MAX,
            r@ == encoding(nodes@.take(i as int)),
        decreases nodes@.len() - i,
    {
        let values = nodes[i].encode();
        let mut j: usize = 0;
        while j < STRIDE
            invariant
                i < nodes@.len(),
                j <= STRIDE,
                values@ == record(nodes@[i as int]),
                r@ == encoding(nodes@.take(i as int)) + values@.take(j as int),
            decreases STRIDE - j,
        {
            r.push(values[j]);
            assert(values@.take(j + 1) =~= values@.take(j as int).push(values@[j as int]));
            j += 1;
        }
        proof {
            lemma_encoding_push(nodes@.take(i as int), nodes@[i as int]);
            assert(nodes@.take(i + 1) =~= nodes@.take(i as int).push(nodes@[i as int]));
            assert(values@.take(12) =~= values@);
        }
        i += 1;
    }
    proof {
        assert(nodes@.take(nodes@.len() as int) =~= nodes@);
        assert forall|i: int, j: int| 0 <= i < nodes@.len() && 0 <= j < 12 implies r@[12 * i + j]
            == #[trigger] record(nodes@[i])[j] by {
            lemma_record_index(i, j);
        }
    }
    r
}

/// Moves every vertex: each coordinate becomes `shift` of itself, in place;
/// normal, color and texture stay as they are.
pub fn translocate_nodes<S: Copy, F: Fn([S; 3]) -> [S; 3]>(nodes: &mut Vec<Node<S>>, shift: F)
    requires
        forall|i: int| 0 <= i < old(nodes)@.len() ==> shift.requires((#[trigger] old(nodes)@[i].coordinate,)),
    ensures
        final(nodes)@.len() == old(nodes)@.len(),
        forall|i: int|
            0 <= i < old(nodes)@.len() ==> {
                let (a, b) = (old(nodes)@[i], #[trigger] final(nodes)@[i]);
                &&& shift.ensures((a.coordinate,), b.coordinate)
                &&& b.normal == a.normal
                &&& b.color == a.color
                &&& b.texture == a.texture
            },
{
    let ghost before = nodes@;
    let mut i: usize = 0;
    while i < nodes.len()
        invariant
            i <= nodes@.len(),
            nodes@.len() == before.len(),
            forall|k: int| i <= k < nodes@.len() ==> #[trigger] nodes@[k] == before[k],
            forall|k: int| 0 <= k < before.len() ==> shift.requires((#[trigger] before[k].coordinate,)),
            forall|k: int|
                0 <= k < i ==> {
                    let (a, b) = (before[k], #[trigger] nodes@[k]);
                    &&& shift.ensures((a.coordinate,), b.coordinate)
                    &&& b.normal == a.normal
                    &&& b.color == a.color
                    &&& b.texture == a.texture
                },
        decreases nodes@.len() - i,
    {
        let n = nodes[i];
        let moved = Node { coordinate: shift(n.coordinate), ..n };
        nodes.set(i, moved);
        i += 1;
    }
}

/// Turns every vertex: each coordinate becomes `place` of itself and each
/// normal `turn` of itself, in place; color and texture stay as they are.
pub fn rotate_nodes<S: Copy, F: Fn([S; 3]) -> [S; 3], G: Fn([S; 3]) -> [S; 3]>(
    nodes: &mut Vec<Node<S>>,
    place: F,
    turn: G,
)
    requires
        forall|i: int| 0 <= i < old(nodes)@.len() ==> place.requires((#[trigger] old(nodes)@[i].coordinate,)),
        forall|i: int| 0 <= i < old(nodes)@.len() ==> turn.requires((#[trigger] old(nodes)@[i].normal,)),
    ensures
        final(nodes)@.len() == old(nodes)@.len(),
        forall|i: int|
            0 <= i < old(nodes)@.len() ==> {
                let (a, b) = (old(nodes)@[i], #[trigger] final(nodes)@[i]);
                &&& place.ensures((a.coordinate,), b.coordinate)
                &&& turn.ensures((a.normal,), b.normal)
                &&& b.color == a.color
                &&& b.texture == a.texture
            },
{
    let ghost before = nodes@;
    let mut i: usize = 0;
    while i < nodes.len()
        invariant
            i <= nodes@.len(),
            nodes@.len() == before.len(),
            forall|k: int| i <= k < nodes@.len() ==> #[trigger] nodes@[k] == before[k],
            forall|k: int| 0 <= k < before.len() ==> place.requires((#[trigger] before[k].coordinate,)),
            forall|k: int| 0 <= k < before.len() ==> turn.requires((#[trigger] before[k].normal,)),
            forall|k: int|
                0 <= k < i ==> {
                    let (a, b) = (before[k], #[trigger] nodes@[k]);
                    &&& place.ensures((a.coordinate,), b.coordinate)
                    &&& turn.ensures((a.normal,), b.normal)
                    &&& b.color == a.color
                    &&& b.texture == a.texture
                },
        decreases nodes@.len() - i,
    {
        let n = nodes[i];
        let turned = Node { coordinate: place(n.coordinate), normal: turn(n.normal), ..n };
        nodes.set(i, turned);
        i += 1;
    }
}

proof fn lemma_record_index(i: int, j: int)
    requires
        0 <= i,
        0 <= j < 12,
    ensures
        (12 * i + j) / 12 == i,
        (12 * i + j) % 12 == j,
{
    vstd::arithmetic::div_mod::lemma_fundamental_div_mod_converse(12 * i + j, 12, i, j);
}

/// Encoding one more vertex appends its record.
proof fn lemma_encoding_push<S>(nodes: Seq<Node<S>>, n: Node<S>)
    ensures
        encoding(nodes.push(n)) == encoding(nodes) + record(n),
{
    let l = nodes.len() as int;
    assert forall|k: int| 0 <= k < 12 * (l + 1) implies #[trigger] encoding(nodes.push(n))[k] == (encoding(nodes)
        + record(n))[k] by {
        lemma_record_index(k / 12, k % 12);
        if k < 12 * l {
        } else {
            lemma_record_index(l, k - 12 * l);
        }
    }
    assert(encoding(nodes.push(n)) =~= encoding(nodes) + record(n));
}

} // verus!
