use crate::poster::{PosterView, COUNTER_MAX};
use vstd::prelude::*;

verus! {

/// The state after writing each of `msgs` in turn, starting from `s`.
pub open spec fn replay(s: PosterView, msgs: Seq<String>) -> PosterView
    decreases msgs.len(),
{
    if msgs.len() == 0 {
        s
    } else {
        replay(s, msgs.drop_last()).written(msgs.last())
    }
}

/// From a fresh state, up to `COUNTER_MAX` writes all succeed; afterwards the
/// counter equals the number of writes, and the record under `i` is the
/// message of the write numbered `i` (counting from zero). No other key holds
/// a record.
pub proof fn lemma_writes_from_fresh(msgs: Seq<String>)
    requires
        msgs.len() <= COUNTER_MAX,
    ensures
        forall|j: int| 0 <= j < msgs.len() ==> #[trigger] replay(PosterView::fresh(), msgs.take(j)).can_advance(),
        replay(PosterView::fresh(), msgs).counter == msgs.len(),
        forall|i: int| 0 <= i < msgs.len() ==> replay(PosterView::fresh(), msgs).lookup(i as i8) == Some(#[trigger] msgs[i]),
        forall|k: i8| !(0 <= k < msgs.len()) ==> #[trigger] replay(PosterView::fresh(), msgs).lookup(k) is None,
    decreases msgs.len(),
{
    let s = replay(PosterView::fresh(), msgs);
    if msgs.len() > 0 {
        let prev = msgs.drop_last();
        lemma_writes_from_fresh(prev);
        assert forall|j: int| 0 <= j < msgs.len() implies #[trigger] replay(PosterView::fresh(), msgs.take(j)).can_advance() by {
            if j < prev.len() {
                assert(msgs.take(j) =~= prev.take(j));
            } else {
                assert(msgs.take(j) =~= prev);
            }
        }
        assert forall|i: int| 0 <= i < msgs.len() implies s.lookup(i as i8) == Some(#[trigger] msgs[i]) by {
            if i < prev.len() {
                assert(prev[i] == msgs[i]);
            }
        }
        assert forall|k: i8| !(0 <= k < msgs.len()) implies #[trigger] s.lookup(k) is None by {
            assert(replay(PosterView::fresh(), prev).lookup(k) is None);
        }
    } else {
        assert forall|k: i8| !(0 <= k < msgs.len()) implies #[trigger] s.lookup(k) is None by {}
        assert forall|j: int| 0 <= j < msgs.len() implies #[trigger] replay(PosterView::fresh(), msgs.take(j)).can_advance() by {}
    }
}

/// A key that no write has used holds no record: in a fresh state none does,
/// and after `msgs` are written from a fresh state only the keys below their
/// number do.
pub proof fn lemma_unwritten_keys_absent(msgs: Seq<String>, key: i8)
    requires
        msgs.len() <= COUNTER_MAX,
        !(0 <= key < msgs.len()),
    ensures
        PosterView::fresh().lookup(key) is None,
        replay(PosterView::fresh(), msgs).lookup(key) is None,
{
    lemma_writes_from_fresh(msgs);
}

/// Every state reached from a fresh one by successful operations files its
/// records only under counter values already passed: a fresh state does, and
/// a write or a counter advance keeps it so.
pub proof fn lemma_records_behind_counter(s: PosterView, message: String)
    requires
        s.wf(),
        s.can_advance(),
    ensures
        PosterView::fresh().wf(),
        s.written(message).wf(),
        s.advanced().wf(),
        s.written(message).counter == s.counter + 1,
        s.advanced().counter == s.counter + 1,
{
}

} // verus!
