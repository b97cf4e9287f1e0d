use vstd::prelude::*;

verus! {

/// A generation-checked index of a node in the UI's node graph. Generation
/// zero marks the absent handle.
#[derive(Clone, Copy, Debug, PartialEq, Eq, Structural)]
pub struct Handle {
    pub index: u32,
    pub generation: u32,
}

impl Handle {
    pub open spec fn is_present(self) -> bool {
        self.generation != 0
    }

    /// The handle that refers to no node.
    pub fn none() -> (r: Handle)
        ensures
            !r.is_present(),
            r.index == 0,
    {
        Handle { index: 0, generation: 0 }
    }

    pub fn new(index: u32, generation: u32) -> (r: Handle)
        ensures
            r.index == index,
            r.generation == generation,
    {
        Handle { index, generation }
    }

    pub fn is_some(&self) -> (r: bool)
        ensures
            r == self.is_present(),
    {
        self.generation != 0
    }

    pub fn is_none(&self) -> (r: bool)
        ensures
            r == !self.is_present(),
    {
        self.generation == 0
    }
}

/// The new handle of `key` in the pairs `(old, new)` of a remapping table:
/// the first pair whose old handle is `key` decides.
pub open spec fn lookup(pairs: Seq<(Handle, Handle)>, key: Handle) -> Option<Handle>
    decreases pairs.len(),
{
    if pairs.len() == 0 {
        None
    } else if pairs[0].0 == key {
        Some(pairs[0].1)
    } else {
        lookup(pairs.drop_first(), key)
    }
}

/// Whether the table holds a pair for `key`.
pub open spec fn has_key(pairs: Seq<(Handle, Handle)>, key: Handle) -> bool {
    exists|i: int| 0 <= i < pairs.len() && #[trigger] pairs[i].0 == key
}

proof fn lemma_lookup_some_iff_key(pairs: Seq<(Handle, Handle)>, key: Handle)
    ensures
        lookup(pairs, key) is Some <==> has_key(pairs, key),
    decreases pairs.len(),
{
    if pairs.len() > 0 {
        lemma_lookup_some_iff_key(pairs.drop_first(), key);
        if has_key(pairs, key) && pairs[0].0 != key {
            let i = choose|i: int| 0 <= i < pairs.len() && #[trigger] pairs[i].0 == key;
            assert(pairs.drop_first()[i - 1].0 == key);
        }
        if has_key(pairs.drop_first(), key) {
            let i = choose|i: int| 0 <= i < pairs.len() - 1 && #[trigger] pairs.drop_first()[i].0 == key;
            assert(pairs[i + 1].0 == key);
        }
    }
}

/// Pairs of old and new node handles, built when a node graph is copied or
/// reloaded, and used to rewrite the handles that nodes hold.
pub struct NodeHandleMapping {
    pairs: Vec<(Handle, Handle)>,
}

impl NodeHandleMapping {
    pub closed spec fn view(&self) -> Seq<(Handle, Handle)> {
        self.pairs@
    }

    pub fn new() -> (r: NodeHandleMapping)
        ensures
            r@ == Seq::<(Handle, Handle)>::empty(),
    {
        NodeHandleMapping { pairs: Vec::new() }
    }

    /// Records that `from` became `to`.
    pub fn insert(&mut self, from: Handle, to: Handle)
        ensures
            final(self)@ == old(self)@.push((from, to)),
    {
        self.pairs.push((from, to));
    }

    /// The handle that `key` became, if the table holds it.
    pub fn get(&self, key: &Handle) -> (r: Option<Handle>)
        ensures
            r == lookup(self@, *key),
            r is Some <==> has_key(self@, *key),
    {
        proof {
            lemma_lookup_some_iff_key(self@, *key);
        }
        let n = self.pairs.len();
        let mut i: usize = 0;
        assert(self.pairs@.subrange(0, n as int) =~= self.pairs@);
        while i < n
            invariant
                n == self.pairs@.len(),
                i <= n,
                lookup(self.pairs@, *key) == lookup(self.pairs@.subrange(i as int, n as int), *key),
            decreases n - i,
        {
            let pair = self.pairs[i];
            if pair.0 == *key {
                return Some(pair.1);
            }
            assert(self.pairs@.subrange(i as int, n as int).drop_first() =~= self.pairs@.subrange(i + 1, n as int));
            i = i + 1;
        }
        None
    }
}

} // verus!
