use vstd::prelude::*;
use vstd::string::*;

verus! {

/// The layers from topmost to bottommost: the last layer given comes first.
pub open spec fn top_first<A>(layers: Seq<A>) -> Seq<A> {
    Seq::new(layers.len(), |i: int| layers[layers.len() - 1 - i])
}

/// The parts joined with `:` between neighbours.
pub open spec fn colon_joined(parts: Seq<Seq<char>>) -> Seq<char>
    decreases parts.len(),
{
    if parts.len() == 0 {
        Seq::empty()
    } else if parts.len() == 1 {
        parts[0]
    } else {
        colon_joined(parts.drop_last()) + ":"@ + parts.last()
    }
}

/// The lower-directory list of a union mount: paths from topmost to bottommost.
pub open spec fn lowerdir_of(paths: Seq<Seq<char>>) -> Seq<char> {
    colon_joined(top_first(paths))
}

/// A file tree of one layer: file path to content.
pub type Tree = Map<Seq<char>, Seq<u8>>;

/// The file `f` as seen through stacked layers: the version of the
/// highest-indexed layer that holds it.
pub open spec fn stacked_view(layers: Seq<Tree>, f: Seq<char>) -> Option<Seq<u8>>
    decreases layers.len(),
{
    if layers.len() == 0 {
        None
    } else if layers.last().contains_key(f) {
        Some(layers.last()[f])
    } else {
        stacked_view(layers.drop_last(), f)
    }
}

/// The file `f` as a union mount resolves it: the first directory of its
/// lower list that holds it.
pub open spec fn union_lookup(lower: Seq<Tree>, f: Seq<char>) -> Option<Seq<u8>>
    decreases lower.len(),
{
    if lower.len() == 0 {
        None
    } else if lower[0].contains_key(f) {
        Some(lower[0][f])
    } else {
        union_lookup(lower.skip(1), f)
    }
}

/// A union mount over the layers in top-first order shows every file as the
/// highest-indexed layer that holds it has it: later layers shadow earlier ones.
pub proof fn lemma_stacking_order(layers: Seq<Tree>, f: Seq<char>)
    ensures
        union_lookup(top_first(layers), f) == stacked_view(layers, f),
    decreases layers.len(),
{
    if layers.len() > 0 {
        let rest = layers.drop_last();
        assert(top_first(layers).skip(1) =~= top_first(rest));
        assert(top_first(layers)[0] == layers.last());
        lemma_stacking_order(rest, f);
    }
}

/// The `lowerdir` value for a union mount of these layer paths, topmost first.
pub fn lowerdir_option(paths: &Vec<String>) -> (r: String)
    ensures
        r@ == lowerdir_of(paths@.map_values(|p: String| p@)),
{
    let ghost views = paths@.map_values(|p: String| p@);
    let ghost parts = top_first(views);
    let n = paths.len();
    let mut r = String::new();
    let mut k: usize = 0;
    while k < n
        invariant
            n == paths@.len(),
            views == paths@.map_values(|p: String| p@),
            parts == top_first(views),
            k <= n,
            r@ == colon_joined(parts.take(k as int)),
        decreases n - k,
    {
        assert(parts.take(k + 1).drop_last() =~= parts.take(k as int));
        if k > 0 {
            r.append(":");
        }
        r.append(paths[n - 1 - k].as_str());
        proof {
            reveal_strlit(":");
            if k == 0 {
                assert(r@ =~= parts.take(1)[0]);
            }
        }
        k = k + 1;
    }
    assert(parts.take(n as int) =~= parts);
    r
}

} // verus!
