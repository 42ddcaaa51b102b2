//! Merging per-page contents into one book, in strict page order.
//!
//! The caller hands over what it found on disk for pages `1..=N`, in that
//! order: `Some(bytes)` where the page file could be read, `None` where it
//! is missing. The merge emits the pages' bytes in order, with no
//! separators, and stops at the first gap: bytes before the gap stay
//! flushed, nothing after it is emitted.

use vstd::prelude::*;

verus! {

/// The bytes of a sequence of pages, concatenated in order with no
/// separators.
pub open spec fn concat_bytes(pages: Seq<Seq<u8>>) -> Seq<u8>
    decreases pages.len(),
{
    if pages.len() == 0 {
        Seq::empty()
    } else {
        concat_bytes(pages.drop_last()) + pages.last()
    }
}

/// The contents of the first `k` pages, which must all be present.
pub open spec fn present_prefix(pages: Seq<Option<Vec<u8>>>, k: int) -> Seq<Seq<u8>> {
    pages.subrange(0, k).map_values(|p: Option<Vec<u8>>| p.unwrap()@)
}

/// Merges page contents in page order. Returns the flushed bytes and, if a
/// page was missing, the (0-based) index of the first gap: the flushed
/// bytes are then exactly the pages before the gap, and nothing past it was
/// emitted.
pub fn merge_contents(pages: &Vec<Option<Vec<u8>>>) -> (r: (Vec<u8>, Option<usize>))
    ensures
        r.1 is None ==> {
            &&& forall|j: int| 0 <= j < pages@.len() ==> (#[trigger] pages@[j]) is Some
            &&& r.0@ == concat_bytes(present_prefix(pages@, pages@.len() as int))
        },
        r.1 matches Some(k) ==> {
            &&& k < pages@.len()
            &&& pages@[k as int] is None
            &&& forall|j: int| 0 <= j < k ==> (#[trigger] pages@[j]) is Some
            &&& r.0@ == concat_bytes(present_prefix(pages@, k as int))
        },
{
    let mut out: Vec<u8> = Vec::new();
    let mut i: usize = 0;
    proof {
        assert(present_prefix(pages@, 0) =~= Seq::<Seq<u8>>::empty());
    }
    while i < pages.len()
        invariant
            i <= pages@.len(),
            forall|j: int| 0 <= j < i ==> (#[trigger] pages@[j]) is Some,
            out@ == concat_bytes(present_prefix(pages@, i as int)),
        decreases pages@.len() - i,
    {
        match &pages[i] {
            Option::None => {
                return (out, Some(i));
            },
            Option::Some(content) => {
                let mut j: usize = 0;
                proof {
                    assert(out@ =~= concat_bytes(present_prefix(pages@, i as int))
                        + content@.subrange(0, 0));
                }
                while j < content.len()
                    invariant
                        j <= content@.len(),
                        content@ == pages@[i as int].unwrap()@,
                        i < pages@.len(),
                        out@ == concat_bytes(present_prefix(pages@, i as int)) + content@.subrange(
                            0,
                            j as int,
                        ),
                    decreases content@.len() - j,
                {
                    out.push(content[j]);
                    proof {
                        assert(content@.subrange(0, (j + 1) as int) =~= content@.subrange(
                            0,
                            j as int,
                        ).push(content@[j as int]));
                        assert(out@ =~= concat_bytes(present_prefix(pages@, i as int))
                            + content@.subrange(0, (j + 1) as int));
                    }
                    j = j + 1;
                }
                proof {
                    assert(content@.subrange(0, content@.len() as int) =~= content@);
                    assert(present_prefix(pages@, (i + 1) as int).drop_last() =~= present_prefix(
                        pages@,
                        i as int,
                    ));
                    assert(present_prefix(pages@, (i + 1) as int).last() == content@);
                    assert(out@ =~= concat_bytes(present_prefix(pages@, (i + 1) as int)));
                }
            },
        }
        i = i + 1;
    }
    (out, None)
}

} // verus!
