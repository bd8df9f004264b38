use vstd::prelude::*;

verus! {

/// A small inline list of destination storage values for one origin square.
#[verifier::external_body]
pub struct MoveList {
    items: smallvec::SmallVec<[u8; 32]>,
}

/// The destinations held by a candidate list, in the order they were added.
pub uninterp spec fn list_items(l: MoveList) -> Seq<u8>;

/// Relies on smallvec::SmallVec::new: the new vector holds no elements.
#[verifier::external_body]
fn items_new() -> (r: MoveList)
    ensures
        list_items(r) == Seq::<u8>::empty(),
{
    MoveList { items: smallvec::SmallVec::new() }
}

/// Relies on smallvec::SmallVec::push: appends one element at the end. It can
/// only panic on a capacity overflow, far above the bound required here.
#[verifier::external_body]
fn items_push(l: &mut MoveList, v: u8)
    requires
        list_items(*old(l)).len() < 65536,
    ensures
        list_items(*final(l)) == list_items(*old(l)).push(v),
{
    l.items.push(v)
}

/// Relies on smallvec::SmallVec::len: the number of elements held.
#[verifier::external_body]
fn items_len(l: &MoveList) -> (r: usize)
    ensures
        r == list_items(*l).len(),
{
    l.items.len()
}

/// Relies on indexing a smallvec::SmallVec through its slice: the element at `i`.
#[verifier::external_body]
fn items_get(l: &MoveList, i: usize) -> (r: u8)
    requires
        i < list_items(*l).len(),
    ensures
        r == list_items(*l)[i as int],
{
    l.items[i]
}

impl MoveList {
    pub open spec fn view(&self) -> Seq<u8> {
        list_items(*self)
    }

    /// An empty list.
    pub fn new() -> (r: MoveList)
        ensures
            r@ == Seq::<u8>::empty(),
    {
        items_new()
    }

    /// Appends `v` at the end.
    pub fn push(&mut self, v: u8)
        requires
            old(self)@.len() < 65536,
        ensures
            final(self)@ == old(self)@.push(v),
    {
        items_push(self, v)
    }

    pub fn len(&self) -> (r: usize)
        ensures
            r == self@.len(),
    {
        items_len(self)
    }

    pub fn get(&self, i: usize) -> (r: u8)
        requires
            i < self@.len(),
        ensures
            r == self@[i as int],
    {
        items_get(self, i)
    }

    /// Whether `v` is one of the destinations.
    pub fn contains(&self, v: u8) -> (r: bool)
        ensures
            r == self@.contains(v),
    {
        let n = self.len();
        let mut i: usize = 0;
        while i < n
            invariant
                n == self@.len(),
                i <= n,
                forall|j: int| 0 <= j < i ==> self@[j] != v,
            decreases n - i,
        {
            if self.get(i) == v {
                return true;
            }
            i = i + 1;
        }
        false
    }

    /// The destinations as a `Vec`, in order.
    pub fn to_vec(&self) -> (r: Vec<u8>)
        ensures
            r@ == self@,
    {
        let n = self.len();
        let mut out: Vec<u8> = Vec::new();
        let mut i: usize = 0;
        while i < n
            invariant
                n == self@.len(),
                i <= n,
                out@ == self@.subrange(0, i as int),
            decreases n - i,
        {
            out.push(self.get(i));
            i = i + 1;
            assert(out@ =~= self@.subrange(0, i as int));
        }
        assert(out@ =~= self@);
        out
    }
}

} // verus!
