//! The structure of a list of information elements.

use vstd::prelude::*;

use crate::octets::splice;

verus! {

/// An information element found in a buffer: what identifies it, and the offset
/// range of its content.
#[verifier::ext_equal]
pub struct IeSpan<K> {
    pub id: K,
    pub start: int,
    pub end: int,
}

/// The first element of `list` that is identified by `want`, unless an element
/// identified by one of `stop` comes before it.
pub open spec fn scan<K>(list: Seq<IeSpan<K>>, want: K, stop: Set<K>) -> Option<IeSpan<K>>
    decreases list.len(),
{
    if list.len() == 0 {
        None
    } else if list[0].id == want {
        Some(list[0])
    } else if stop.contains(list[0].id) {
        None
    } else {
        scan(list.drop_first(), want, stop)
    }
}

/// Whether the elements of `list` before the one at `k` neither are identified
/// by `want` nor end the list.
pub open spec fn passes<K>(list: Seq<IeSpan<K>>, want: K, stop: Set<K>, k: int) -> bool {
    forall|j: int| 0 <= j < k ==> (#[trigger] list[j]).id != want && !stop.contains(list[j].id)
}

/// What a scan finds is the first wanted element that no terminating element
/// precedes, and a scan finds nothing exactly if there is no such element.
pub proof fn lemma_scan<K>(list: Seq<IeSpan<K>>, want: K, stop: Set<K>)
    ensures
        scan(list, want, stop) matches Some(span) ==> exists|k: int|
            0 <= k < list.len() && #[trigger] list[k] == span && span.id == want && passes(
                list,
                want,
                stop,
                k,
            ),
        scan(list, want, stop) is None ==> forall|k: int|
            0 <= k < list.len() && (#[trigger] list[k]).id == want ==> !passes(list, want, stop, k),
    decreases list.len(),
{
    if list.len() == 0 {
    } else if list[0].id == want {
        assert(passes(list, want, stop, 0));
    } else if stop.contains(list[0].id) {
        assert forall|k: int| 0 <= k < list.len() && (#[trigger] list[k]).id == want implies !passes(
            list,
            want,
            stop,
            k,
        ) by {
            assert(k != 0);
        }
    } else {
        let rest = list.drop_first();
        lemma_scan(rest, want, stop);
        if let Some(span) = scan(rest, want, stop) {
            let k = choose|k: int|
                0 <= k < rest.len() && #[trigger] rest[k] == span && span.id == want && passes(
                    rest,
                    want,
                    stop,
                    k,
                );
            assert(list[k + 1] == span);
            assert forall|j: int| 0 <= j < k + 1 implies (#[trigger] list[j]).id != want
                && !stop.contains(list[j].id) by {
                if j > 0 {
                    assert(rest[j - 1] == list[j]);
                }
            }
        } else {
            assert forall|k: int| 0 <= k < list.len() && (#[trigger] list[k]).id
                == want implies !passes(list, want, stop, k) by {
                assert(rest[k - 1] == list[k]);
                if passes(list, want, stop, k) {
                    assert forall|j: int| 0 <= j < k - 1 implies (#[trigger] rest[j]).id != want
                        && !stop.contains(rest[j].id) by {
                        assert(list[j + 1] == rest[j]);
                    }
                    assert(passes(rest, want, stop, k - 1));
                }
            }
        }
    }
}

/// A scan passes over a leading element that neither is wanted nor ends the
/// list.
pub proof fn lemma_scan_step<K>(first: IeSpan<K>, rest: Seq<IeSpan<K>>, want: K, stop: Set<K>)
    ensures
        scan(seq![first] + rest, want, stop) == (if first.id == want {
            Some(first)
        } else if stop.contains(first.id) {
            None
        } else {
            scan(rest, want, stop)
        }),
{
    assert((seq![first] + rest).drop_first() =~= rest);
}

/// Octets outside of a replaced range are left alone.
pub proof fn lemma_splice_keeps(s: Seq<u8>, start: int, end: int, t: Seq<u8>)
    requires
        0 <= start <= end <= s.len(),
        t.len() == end - start,
    ensures
        splice(s, start, end, t).len() == s.len(),
        forall|i: int|
            0 <= i < start || end <= i < s.len() ==> #[trigger] splice(s, start, end, t)[i] == s[i],
        forall|i: int| 0 <= i < t.len() ==> #[trigger] splice(s, start, end, t)[start + i] == t[i],
        splice(s, start, end, t).subrange(start, end) == t,
{
    assert(splice(s, start, end, t).subrange(start, end) =~= t);
}

} // verus!
