//! The steps of walking a cluster enumeration (nodes, groups or
//! resources): each index is first probed for the size of its name, then
//! fetched into a buffer one unit longer.

use vstd::prelude::*;

verus! {

/// The status that ends an enumeration (`ERROR_NO_MORE_ITEMS`).
pub const ERROR_NO_MORE_ITEMS: u32 = 259;

/// What to do after probing an index.
#[derive(Debug, Clone, Copy, PartialEq, Eq, Structural)]
pub enum EnumProbe {
    /// The enumeration has no more objects.
    Done,
    /// Fetch the name into a buffer of this many UTF-16 units.
    Fetch(u32),
}

/// The decision after probing an index with status `status`, which
/// reported a name of `size` units (without its terminator): stop on "no
/// more items", otherwise fetch with room for the terminator.
pub fn probe_decision(status: u32, size: u32) -> (r: EnumProbe)
    requires
        status != ERROR_NO_MORE_ITEMS ==> size < u32::MAX,
    ensures
        status == ERROR_NO_MORE_ITEMS ==> r == EnumProbe::Done,
        status != ERROR_NO_MORE_ITEMS ==> r == EnumProbe::Fetch((size + 1) as u32),
{
    if status == ERROR_NO_MORE_ITEMS {
        EnumProbe::Done
    } else {
        EnumProbe::Fetch(size + 1)
    }
}

/// Whether a fetch succeeded (status 0); any other status ends the
/// enumeration with an error.
pub fn fetch_succeeded(status: u32) -> (r: bool)
    ensures
        r == (status == 0),
{
    status == 0
}

/// The objects whose opening succeeded, in enumeration order: an object
/// that could not be opened is skipped.
pub open spec fn opened_objects<T>(results: Seq<Option<T>>) -> Seq<T>
    decreases results.len(),
{
    if results.len() == 0 {
        Seq::empty()
    } else {
        let rest = opened_objects(results.drop_last());
        match results.last() {
            Some(o) => rest.push(o),
            None => rest,
        }
    }
}

/// Keeps the objects that could be opened, in order.
pub fn keep_opened<T>(results: Vec<Option<T>>) -> (r: Vec<T>)
    ensures
        r@ == opened_objects(results@),
{
    let ghost all = results@;
    let ghost n = all.len();
    let mut rest = results;
    let total: usize = rest.len();
    let mut out: Vec<T> = Vec::new();
    let mut k: usize = 0;
    assert(all.take(0) =~= Seq::<Option<T>>::empty());
    while rest.len() > 0
        invariant
            n == all.len(),
            n == total,
            k <= n,
            rest.len() + k == n,
            rest@ == all.subrange(k as int, n as int),
            out@ == opened_objects(all.take(k as int)),
        decreases rest.len(),
    {
        assert(rest@[0] == all[k as int]);
        let x = rest.remove(0);
        assert(rest@ =~= all.subrange(k + 1, n as int));
        assert(all.take(k + 1).drop_last() =~= all.take(k as int));
        assert(all.take(k + 1).last() == all[k as int]);
        match x {
            Some(o) => {
                out.push(o);
            },
            None => {},
        }
        k = k + 1;
    }
    assert(all.take(n as int) =~= all);
    out
}

} // verus!
