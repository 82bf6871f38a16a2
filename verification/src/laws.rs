use vstd::prelude::*;

use crate::player::PlayerV;
use crate::registry::{add_step, delete_step, update_step, RegistryView};

verus! {

/// The caller-supplied fields of one add.
pub ghost struct AddRequest {
    pub name: Seq<char>,
    pub public_key: Seq<char>,
    pub score: u64,
}

/// The state a sequence of adds, and nothing else, leads to.
pub open spec fn run_adds(v: RegistryView, reqs: Seq<AddRequest>) -> RegistryView
    decreases reqs.len(),
{
    if reqs.len() == 0 {
        v
    } else {
        run_adds(add_step(v, reqs[0].name, reqs[0].public_key, reqs[0].score), reqs.drop_first())
    }
}

/// Each add raises the count by exactly one, whatever the fields added.
pub proof fn lemma_count_after_adds(v: RegistryView, reqs: Seq<AddRequest>)
    requires
        v.count + reqs.len() <= u64::MAX,
    ensures
        run_adds(v, reqs).count == v.count + reqs.len(),
    decreases reqs.len(),
{
    if reqs.len() > 0 {
        lemma_count_after_adds(
            add_step(v, reqs[0].name, reqs[0].public_key, reqs[0].score),
            reqs.drop_first(),
        );
    }
}

/// Law: starting from the initial state, a run of adds with no deletes
/// returns the ids `1, 2, 3, ...` in call order, and leaves the count —
/// hence the length of the enumeration — equal to the number of adds.
/// The add that runs `j` adds after the start sees count `j`, and so
/// returns id `j + 1`.
pub proof fn lemma_ids_sequential(reqs: Seq<AddRequest>)
    requires
        reqs.len() <= u64::MAX,
    ensures
        run_adds(RegistryView::initial(), reqs).count == reqs.len(),
        forall|j: int|
            0 <= j < reqs.len() ==> #[trigger] run_adds(
                RegistryView::initial(),
                reqs.take(j),
            ).count == j,
{
    lemma_count_after_adds(RegistryView::initial(), reqs);
    assert forall|j: int|
        0 <= j < reqs.len() implies #[trigger] run_adds(
        RegistryView::initial(),
        reqs.take(j),
    ).count == j by {
        lemma_count_after_adds(RegistryView::initial(), reqs.take(j));
    }
}

proof fn lemma_adds_only_issue_up_to_count(v: RegistryView, reqs: Seq<AddRequest>)
    requires
        v.count + reqs.len() <= u64::MAX,
        forall|k: u64| v.players.contains_key(k) ==> 1 <= k <= v.count,
    ensures
        forall|k: u64|
            run_adds(v, reqs).players.contains_key(k) ==> 1 <= k <= run_adds(v, reqs).count,
    decreases reqs.len(),
{
    if reqs.len() > 0 {
        let v2 = add_step(v, reqs[0].name, reqs[0].public_key, reqs[0].score);
        assert forall|k: u64| v2.players.contains_key(k) implies 1 <= k <= v2.count by {
            if k != v2.count {
                assert(v.players.contains_key(k));
            }
        }
        lemma_adds_only_issue_up_to_count(v2, reqs.drop_first());
        assert(run_adds(v, reqs) == run_adds(v2, reqs.drop_first()));
    }
}

/// Law: after any run of adds from the initial state, an id that was
/// never issued — zero, or above the count the run reached — holds no
/// record, and a lookup of it observes the exact sentinel.
pub proof fn lemma_unissued_id_observes_sentinel(reqs: Seq<AddRequest>, id: u64)
    requires
        reqs.len() <= u64::MAX,
        id == 0 || id > reqs.len(),
    ensures
        run_adds(RegistryView::initial(), reqs).lookup(id) == PlayerV::sentinel(),
{
    lemma_count_after_adds(RegistryView::initial(), reqs);
    lemma_adds_only_issue_up_to_count(RegistryView::initial(), reqs);
}

/// Law: an add followed by a lookup of the id it returned observes a
/// record carrying exactly that id and the fields the add was given.
pub proof fn lemma_add_then_get(v: RegistryView, name: Seq<char>, public_key: Seq<char>, score: u64)
    requires
        v.count < u64::MAX,
    ensures
        add_step(v, name, public_key, score).lookup((v.count + 1) as u64) == (PlayerV {
            id: (v.count + 1) as u64,
            name,
            public_key,
            score,
        }),
{
}

/// Law: for an id holding a record, an update of its score followed by a
/// lookup of the same id observes the new score with the id, name and
/// public key unchanged; the count is untouched.
pub proof fn lemma_update_then_get(v: RegistryView, id: u64, new_score: u64)
    requires
        v.players.contains_key(id),
    ensures
        update_step(v, id, new_score).lookup(id) == v.lookup(id).with_score(new_score),
        update_step(v, id, new_score).lookup(id).id == v.lookup(id).id,
        update_step(v, id, new_score).lookup(id).name == v.lookup(id).name,
        update_step(v, id, new_score).lookup(id).public_key == v.lookup(id).public_key,
        update_step(v, id, new_score).lookup(id).score == new_score,
        update_step(v, id, new_score).count == v.count,
{
}

/// Law: deleting an id that holds a record, while the count is positive,
/// makes a later lookup of that id observe the sentinel and lowers the
/// count — hence the length of the enumeration — by exactly one. (A
/// record can be present while the count is zero, through an update of a
/// missing id; such a delete removes the record but leaves the count.)
pub proof fn lemma_delete_then_get(v: RegistryView, id: u64)
    requires
        v.players.contains_key(id),
        v.count > 0,
    ensures
        delete_step(v, id).lookup(id) == PlayerV::sentinel(),
        delete_step(v, id).count == v.count - 1,
{
}

/// Law: deleting an id that holds no record changes nothing: not the
/// records, not the count.
pub proof fn lemma_delete_missing_is_noop(v: RegistryView, id: u64)
    requires
        !v.players.contains_key(id),
    ensures
        delete_step(v, id) == v,
{
}

} // verus!
