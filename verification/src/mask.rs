//! Selecting elements of a sequence by a sequence of flags.

use vstd::prelude::*;

verus! {

/// The elements whose flag is set, in order.
pub open spec fn keep_where<A>(s: Seq<A>, keep: Seq<bool>) -> Seq<A>
    decreases s.len(),
{
    if s.len() == 0 {
        Seq::empty()
    } else if keep.last() {
        keep_where(s.drop_last(), keep.drop_last()).push(s.last())
    } else {
        keep_where(s.drop_last(), keep.drop_last())
    }
}

/// How many flags are set.
pub open spec fn count_set(flags: Seq<bool>) -> nat
    decreases flags.len(),
{
    if flags.len() == 0 {
        0
    } else {
        count_set(flags.drop_last()) + if flags.last() {
            1nat
        } else {
            0nat
        }
    }
}

/// Where no flag is set there are none to count, and otherwise there are some.
pub proof fn lemma_count_set_zero(flags: Seq<bool>)
    ensures
        count_set(flags) == 0 <==> forall|i: int| 0 <= i < flags.len() ==> !#[trigger] flags[i],
    decreases flags.len(),
{
    if flags.len() > 0 {
        lemma_count_set_zero(flags.drop_last());
        assert forall|i: int| 0 <= i < flags.len() - 1 implies flags[i]
            == #[trigger] flags.drop_last()[i] by {}
        if count_set(flags) == 0 {
            assert forall|i: int| 0 <= i < flags.len() implies !#[trigger] flags[i] by {
                if i < flags.len() - 1 {
                    assert(!flags.drop_last()[i]);
                }
            }
        } else if flags.last() {
            assert(flags[flags.len() - 1]);
        } else {
            let i = choose|i: int| 0 <= i < flags.len() - 1 && flags.drop_last()[i];
            assert(flags[i]);
        }
    }
}

/// Whether the element is one whose flag is set.
pub open spec fn is_kept<A>(s: Seq<A>, keep: Seq<bool>, a: A) -> bool {
    exists|j: int| 0 <= j < s.len() && keep[j] && #[trigger] s[j] == a
}

/// The elements that stay are those whose flag is set.
pub proof fn lemma_keep_where_members<A>(s: Seq<A>, keep: Seq<bool>)
    requires
        s.len() == keep.len(),
    ensures
        forall|i: int|
            0 <= i < keep_where(s, keep).len() ==> is_kept(
                s,
                keep,
                #[trigger] keep_where(s, keep)[i],
            ),
        forall|j: int|
            0 <= j < s.len() && keep[j] ==> keep_where(s, keep).contains(#[trigger] s[j]),
    decreases s.len(),
{
    if s.len() > 0 {
        let rest = s.drop_last();
        let rest_keep = keep.drop_last();
        let kept = keep_where(s, keep);
        let rest_kept = keep_where(rest, rest_keep);
        lemma_keep_where_members(rest, rest_keep);
        assert forall|i: int| 0 <= i < kept.len() implies is_kept(s, keep, #[trigger] kept[i]) by {
            if i < rest_kept.len() {
                assert(kept[i] == rest_kept[i]);
                assert(is_kept(rest, rest_keep, rest_kept[i]));
                let j = choose|j: int|
                    0 <= j < rest.len() && rest_keep[j] && #[trigger] rest[j] == rest_kept[i];
                assert(s[j] == kept[i] && keep[j]);
            } else {
                assert(s[s.len() - 1] == kept[i]);
            }
        }
        assert forall|j: int| 0 <= j < s.len() && keep[j] implies kept.contains(
            #[trigger] s[j],
        ) by {
            if j < rest.len() {
                assert(rest[j] == s[j] && rest_keep[j]);
                let i = rest_kept.index_of(rest[j]);
                assert(kept[i] == s[j]);
            } else {
                assert(kept[kept.len() - 1] == s[j]);
            }
        }
    }
}

/// Where every flag is set, all elements stay.
pub proof fn lemma_keep_all<A>(s: Seq<A>, keep: Seq<bool>)
    requires
        s.len() == keep.len(),
        forall|i: int| 0 <= i < keep.len() ==> #[trigger] keep[i],
    ensures
        keep_where(s, keep) == s,
    decreases s.len(),
{
    if s.len() > 0 {
        assert forall|i: int| 0 <= i < keep.len() - 1 implies #[trigger] keep.drop_last()[i] by {
            assert(keep[i]);
        }
        assert(keep[keep.len() - 1]);
        lemma_keep_all(s.drop_last(), keep.drop_last());
        assert(s.drop_last().push(s.last()) =~= s);
    }
}

/// Mapping the elements and selecting among them can be done in either order.
pub proof fn lemma_keep_where_map<A, B>(s: Seq<A>, keep: Seq<bool>, f: spec_fn(A) -> B)
    requires
        s.len() == keep.len(),
    ensures
        keep_where(s, keep).map_values(f) == keep_where(s.map_values(f), keep),
    decreases s.len(),
{
    if s.len() > 0 {
        lemma_keep_where_map(s.drop_last(), keep.drop_last(), f);
        assert(s.map_values(f).drop_last() =~= s.drop_last().map_values(f));
        assert(keep_where(s, keep).map_values(f) =~= keep_where(s.map_values(f), keep));
    } else {
        assert(keep_where(s, keep).map_values(f) =~= keep_where(s.map_values(f), keep));
    }
}

/// Removes the elements whose flag is not set.
pub(crate) fn retain_where<A>(v: &mut Vec<A>, keep: &Vec<bool>)
    requires
        old(v)@.len() == keep@.len(),
    ensures
        final(v)@ == keep_where(old(v)@, keep@),
{
    let ghost all = v@;
    let mut i: usize = keep.len();
    proof {
        assert(all.take(i as int) =~= all && keep@.take(i as int) =~= keep@);
        assert(keep_where(all, keep@) + all.skip(i as int) =~= keep_where(all, keep@));
    }
    // From the back to the front, so that the elements not yet looked at keep their places.
    while i > 0
        invariant
            i <= keep@.len() == all.len(),
            i <= v@.len(),
            v@.take(i as int) == all.take(i as int),
            keep_where(all.take(i as int), keep@.take(i as int)) + v@.skip(i as int) == keep_where(
                all,
                keep@,
            ),
        decreases i,
    {
        let ghost v_before = v@;
        let ghost front = keep_where(all.take(i as int), keep@.take(i as int));
        i = i - 1;
        proof {
            assert(all.take(i + 1).drop_last() =~= all.take(i as int));
            assert(keep@.take(i + 1).drop_last() =~= keep@.take(i as int));
            assert(v_before[i as int] == v_before.take(i + 1)[i as int]);
            assert(v_before.take(i as int) =~= v_before.take(i + 1).take(i as int));
            assert(all.take(i as int) =~= all.take(i + 1).take(i as int));
        }
        let ghost front_now = keep_where(all.take(i as int), keep@.take(i as int));
        if !keep[i] {
            v.remove(i);
            proof {
                assert(v@.take(i as int) =~= v_before.take(i as int));
                assert(v@.skip(i as int) =~= v_before.skip(i + 1));
            }
        } else {
            proof {
                assert(v@.skip(i as int) =~= seq![v_before[i as int]] + v_before.skip(i + 1));
                assert(front_now + v@.skip(i as int) =~= front + v_before.skip(i + 1));
            }
        }
    }
    assert(v@.skip(0) =~= v@);
    assert(keep_where(all.take(0), keep@.take(0)) + v@ =~= v@);
}

/// As many flags are counted as are left when the others are taken out.
pub proof fn law_count_is_that_of_the_flags_set(flags: Seq<bool>)
    ensures
        count_set(flags) == flags.filter(|b: bool| b).len(),
    decreases flags.len(),
{
    reveal(Seq::filter);
    if flags.len() > 0 {
        law_count_is_that_of_the_flags_set(flags.drop_last());
    }
}

/// As many elements stay as there are flags set, and each of them stays behind those before it whose
/// flags are set too.
pub proof fn law_elements_stay_in_order<A>(s: Seq<A>, keep: Seq<bool>, i: int)
    requires
        s.len() == keep.len(),
    ensures
        keep_where(s, keep).len() == keep.filter(|b: bool| b).len(),
        0 <= i < s.len() && keep[i] ==> {
            &&& keep.take(i).filter(|b: bool| b).len() < keep_where(s, keep).len()
            &&& keep_where(s, keep)[keep.take(i).filter(|b: bool| b).len() as int] == s[i]
        },
    decreases s.len(),
{
    reveal(Seq::filter);
    if s.len() > 0 {
        let rest = s.drop_last();
        let rest_keep = keep.drop_last();
        law_elements_stay_in_order(rest, rest_keep, i);
        if 0 <= i < rest.len() {
            assert(rest_keep.take(i) =~= keep.take(i));
            assert(rest[i] == s[i] && rest_keep[i] == keep[i]);
        } else if i == rest.len() {
            assert(keep.take(i) =~= rest_keep);
        }
    }
}

} // verus!
