use vstd::prelude::*;

verus! {

/// A transition of a level-sampled input between two consecutive ticks.
#[derive(Clone, Copy, Debug, PartialEq, Eq, Structural)]
pub enum Edge {
    Pressed,
    Released,
}

/// The edge between the previous read `prev` and the current read `cur`, if any.
pub open spec fn edge_spec(prev: bool, cur: bool) -> Option<Edge> {
    if !prev && cur {
        Some(Edge::Pressed)
    } else if prev && !cur {
        Some(Edge::Released)
    } else {
        None
    }
}

/// Compares the current read of an input with the previous tick's read.
/// An unchanged read yields no edge.
pub fn detect_edge(prev: bool, cur: bool) -> (r: Option<Edge>)
    ensures
        r == edge_spec(prev, cur),
        r is None <==> prev == cur,
        r == Some(Edge::Pressed) <==> (!prev && cur),
        r == Some(Edge::Released) <==> (prev && !cur),
{
    if !prev && cur {
        Some(Edge::Pressed)
    } else if prev && !cur {
        Some(Edge::Released)
    } else {
        None
    }
}

/// An input read the same way on every tick of a run yields no edge on any
/// tick after the first.
pub proof fn lemma_steady_input_has_no_edges(reads: Seq<bool>)
    requires
        forall|i: int| 0 <= i < reads.len() ==> #[trigger] reads[i] == reads[0],
    ensures
        forall|i: int| 1 <= i < reads.len() ==> (#[trigger] edge_spec(reads[i - 1], reads[i])) is None,
{
    assert forall|i: int| 1 <= i < reads.len() implies (#[trigger] edge_spec(reads[i - 1], reads[i])) is None by {
        assert(reads[i - 1] == reads[0]);
        assert(reads[i] == reads[0]);
    }
}

} // verus!
