//! Gathering one setting's requirements from every policy's requirement set.

use vstd::prelude::*;
use crate::requirements::Provenance;

verus! {

/// The values `f` finds in each policy's requirements, in policy order,
/// each with its policy; policies where `f` finds nothing are skipped.
pub open spec fn column<R, X>(reqs: Seq<(Provenance, R)>, f: spec_fn(R) -> Option<X>) -> Seq<(Provenance, X)>
    decreases reqs.len(),
{
    if reqs.len() == 0 {
        seq![]
    } else {
        let rest = column(reqs.drop_first(), f);
        match f(reqs[0].1) {
            Some(x) => seq![(reqs[0].0, x)] + rest,
            None => rest,
        }
    }
}

/// The value `f` takes in each policy's requirements, in policy order, each
/// with its policy.
pub open spec fn full_column<R, X>(reqs: Seq<(Provenance, R)>, f: spec_fn(R) -> X) -> Seq<(Provenance, X)> {
    reqs.map_values(|p: (Provenance, R)| (p.0, f(p.1)))
}

/// Taking the first requirement set off the front takes its value, if any,
/// off the front of the column.
pub proof fn lemma_column_front<R, X>(reqs: Seq<(Provenance, R)>, f: spec_fn(R) -> Option<X>)
    requires
        reqs.len() > 0,
    ensures
        column(reqs, f) == match f(reqs[0].1) {
            Some(x) => seq![(reqs[0].0, x)] + column(reqs.drop_first(), f),
            None => column(reqs.drop_first(), f),
        },
{
}

/// Taking the first requirement set off the front takes its value off the
/// front of the full column.
pub proof fn lemma_full_column_front<R, X>(reqs: Seq<(Provenance, R)>, f: spec_fn(R) -> X)
    requires
        reqs.len() > 0,
    ensures
        full_column(reqs, f) == seq![(reqs[0].0, f(reqs[0].1))] + full_column(reqs.drop_first(), f),
{
    assert(full_column(reqs, f) =~= seq![(reqs[0].0, f(reqs[0].1))] + full_column(reqs.drop_first(), f));
}

/// Gathering a part of each requirement set, then a field of that part,
/// gathers the field.
pub proof fn lemma_column_compose<R, P, X>(
    reqs: Seq<(Provenance, R)>,
    p: spec_fn(R) -> P,
    g: spec_fn(P) -> Option<X>,
    f: spec_fn(R) -> Option<X>,
)
    requires
        forall|q: R| #[trigger] f(q) == g(p(q)),
    ensures
        column(full_column(reqs, p), g) == column(reqs, f),
    decreases reqs.len(),
{
    if reqs.len() > 0 {
        lemma_column_compose(reqs.drop_first(), p, g, f);
        assert(full_column(reqs, p).drop_first() =~= full_column(reqs.drop_first(), p));
        assert(f(reqs[0].1) == g(p(reqs[0].1)));
    }
}

/// Gathering a part of each requirement set, then a field of that part,
/// gathers the field.
pub proof fn lemma_full_column_compose<R, P, X>(
    reqs: Seq<(Provenance, R)>,
    p: spec_fn(R) -> P,
    g: spec_fn(P) -> X,
    f: spec_fn(R) -> X,
)
    requires
        forall|q: R| #[trigger] f(q) == g(p(q)),
    ensures
        full_column(full_column(reqs, p), g) == full_column(reqs, f),
{
    assert forall|i: int| 0 <= i < reqs.len() implies
        #[trigger] full_column(full_column(reqs, p), g)[i] == full_column(reqs, f)[i] by {
        assert(f(reqs[i].1) == g(p(reqs[i].1)));
    }
    assert(full_column(full_column(reqs, p), g) =~= full_column(reqs, f));
}

} // verus!
