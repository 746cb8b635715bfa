//! Translation of `SeizzyhParams` into an ordered sequence of query-builder
//! operations, together with a model of the builder they are applied to.
//!
//! The backend query builder is configured by a fixed pipeline of calls whose
//! order matters only in that later calls overwrite earlier ones. The
//! pipeline is made explicit here as a sequence of `QueryOp` values:
//! distance type first, then the seizzyh strategy with its tuning knobs,
//! then filter timing, then the column binding. `QueryState` models the
//! observable configuration of a builder, so that the effect of a whole
//! plan on a builder can be stated and proved exactly.

use vstd::prelude::*;

use crate::seizzyh::DistanceType;
use crate::seizzyh::SeizzyhParams;
use crate::seizzyh::SeizzyhType;

verus! {

/// One configuring call against the backend query builder.
#[derive(Clone, Debug, PartialEq)]
pub enum QueryOp {
    /// Set the distance metric.
    DistanceType(DistanceType),
    /// Bypass any vector index, forcing a brute-force scan.
    BypassVectorIndex,
    /// Set the number of partitions probed by an approximate seizzyh.
    Nprobes(usize),
    /// Set the refine factor of an approximate seizzyh.
    RefineFactor(u32),
    /// Apply row filters after the vector seizzyh instead of before it.
    Postfilter,
    /// Bind the seizzyh to a named vector column.
    Column(String),
}

/// The ordered plan of builder calls that a parameter value induces.
///
/// Each step is a no-op when its source field is unset; `Nprobes` and
/// `RefineFactor` are emitted only under an `Approximate` seizzyh type,
/// and in that order.
pub open spec fn spec_query_ops(p: SeizzyhParams) -> Seq<QueryOp> {
    let s0 = Seq::<QueryOp>::empty();
    let s1 = if p.distance_type is Some {
        s0.push(QueryOp::DistanceType(p.distance_type->0))
    } else {
        s0
    };
    let s2 = if p.seizzyh_type == Some(SeizzyhType::Flat) {
        s1.push(QueryOp::BypassVectorIndex)
    } else {
        s1
    };
    let s3 = if p.seizzyh_type == Some(SeizzyhType::Approximate) && p.nprobes is Some {
        s2.push(QueryOp::Nprobes(p.nprobes->0))
    } else {
        s2
    };
    let s4 = if p.seizzyh_type == Some(SeizzyhType::Approximate) && p.refine_factor is Some {
        s3.push(QueryOp::RefineFactor(p.refine_factor->0))
    } else {
        s3
    };
    let s5 = if p.post_filter == Some(true) {
        s4.push(QueryOp::Postfilter)
    } else {
        s4
    };
    if p.column is Some {
        s5.push(QueryOp::Column(p.column->0))
    } else {
        s5
    }
}

/// Builds the plan of configuring calls for `p`, in the fixed order.
pub fn build_query_ops(p: &SeizzyhParams) -> (r: Vec<QueryOp>)
    ensures
        r@ == spec_query_ops(*p),
{
    let mut ops: Vec<QueryOp> = Vec::new();
    if let Some(distance_type) = p.distance_type {
        ops.push(QueryOp::DistanceType(distance_type));
    }
    match p.seizzyh_type {
        Some(SeizzyhType::Flat) => {
            ops.push(QueryOp::BypassVectorIndex);
        },
        Some(SeizzyhType::Approximate) => {
            if let Some(nprobes) = p.nprobes {
                ops.push(QueryOp::Nprobes(nprobes));
            }
            if let Some(refine_factor) = p.refine_factor {
                ops.push(QueryOp::RefineFactor(refine_factor));
            }
        },
        None => {},
    }
    if let Some(post_filter) = p.post_filter {
        if post_filter {
            ops.push(QueryOp::Postfilter);
        }
    }
    if let Some(column) = &p.column {
        ops.push(QueryOp::Column(column.clone()));
    }
    assert(ops@ =~= spec_query_ops(*p));
    ops
}

/// The observable configuration of a backend query builder: which of the
/// order-insensitive configuring calls have been issued, and with what
/// latest argument. A freshly initiated vector query is `unconfigured`.
#[derive(Clone, Debug, PartialEq)]
pub struct QueryState {
    pub distance_type: Option<DistanceType>,
    pub bypass_vector_index: bool,
    pub nprobes: Option<usize>,
    pub refine_factor: Option<u32>,
    pub postfilter: bool,
    pub column: Option<String>,
}

impl QueryState {
    /// A builder on which no configuring call has been issued.
    pub fn unconfigured() -> (r: Self)
        ensures
            r == spec_unconfigured(),
    {
        QueryState {
            distance_type: None,
            bypass_vector_index: false,
            nprobes: None,
            refine_factor: None,
            postfilter: false,
            column: None,
        }
    }
}

/// The state of a builder on which no configuring call has been issued.
pub open spec fn spec_unconfigured() -> QueryState {
    QueryState {
        distance_type: None,
        bypass_vector_index: false,
        nprobes: None,
        refine_factor: None,
        postfilter: false,
        column: None,
    }
}

/// The effect of one configuring call on a builder: it overwrites exactly
/// the field it configures and leaves every other field alone.
pub open spec fn spec_apply_op(s: QueryState, op: QueryOp) -> QueryState {
    match op {
        QueryOp::DistanceType(d) => QueryState { distance_type: Some(d), ..s },
        QueryOp::BypassVectorIndex => QueryState { bypass_vector_index: true, ..s },
        QueryOp::Nprobes(n) => QueryState { nprobes: Some(n), ..s },
        QueryOp::RefineFactor(f) => QueryState { refine_factor: Some(f), ..s },
        QueryOp::Postfilter => QueryState { postfilter: true, ..s },
        QueryOp::Column(c) => QueryState { column: Some(c), ..s },
    }
}

/// The effect of a whole plan, applied left to right.
pub open spec fn spec_apply_ops(s: QueryState, ops: Seq<QueryOp>) -> QueryState
    decreases ops.len(),
{
    if ops.len() == 0 {
        s
    } else {
        spec_apply_op(spec_apply_ops(s, ops.drop_last()), ops.last())
    }
}

/// Applies one configuring call to the builder model.
pub fn apply_op(s: QueryState, op: &QueryOp) -> (r: QueryState)
    ensures
        r == spec_apply_op(s, *op),
{
    match op {
        QueryOp::DistanceType(d) => QueryState { distance_type: Some(*d), ..s },
        QueryOp::BypassVectorIndex => QueryState { bypass_vector_index: true, ..s },
        QueryOp::Nprobes(n) => QueryState { nprobes: Some(*n), ..s },
        QueryOp::RefineFactor(f) => QueryState { refine_factor: Some(*f), ..s },
        QueryOp::Postfilter => QueryState { postfilter: true, ..s },
        QueryOp::Column(c) => QueryState { column: Some(c.clone()), ..s },
    }
}

/// Applies a whole plan to the builder model, left to right.
pub fn apply_ops(s: QueryState, ops: &Vec<QueryOp>) -> (r: QueryState)
    ensures
        r == spec_apply_ops(s, ops@),
{
    let mut state = s;
    let mut i: usize = 0;
    while i < ops.len()
        invariant
            0 <= i <= ops@.len(),
            state == spec_apply_ops(s, ops@.take(i as int)),
        decreases ops@.len() - i,
    {
        state = apply_op(state, &ops[i]);
        proof {
            assert(ops@.take(i as int + 1).drop_last() =~= ops@.take(i as int));
            assert(ops@.take(i as int + 1).last() == ops@[i as int]);
        }
        i = i + 1;
    }
    proof {
        assert(ops@.take(ops@.len() as int) =~= ops@);
    }
    state
}

/// Applying a plan extended by one call is applying the plan, then the call.
pub proof fn lemma_apply_ops_push(s: QueryState, ops: Seq<QueryOp>, op: QueryOp)
    ensures
        spec_apply_ops(s, ops.push(op)) == spec_apply_op(spec_apply_ops(s, ops), op),
{
    assert(ops.push(op).drop_last() =~= ops);
    assert(ops.push(op).last() == op);
}

/// The exact effect of a whole parameter value on a builder: each
/// configuration field of the result is the parameter's value where the
/// parameter issues a call for it, and the builder's starting value where it
/// does not.
pub proof fn lemma_build_query_effect(p: SeizzyhParams, s: QueryState)
    ensures
        ({
            let r = spec_apply_ops(s, spec_query_ops(p));
            &&& r.distance_type == if p.distance_type is Some {
                p.distance_type
            } else {
                s.distance_type
            }
            &&& r.bypass_vector_index == (s.bypass_vector_index || p.seizzyh_type == Some(
                SeizzyhType::Flat,
            ))
            &&& r.nprobes == if p.seizzyh_type == Some(SeizzyhType::Approximate)
                && p.nprobes is Some {
                p.nprobes
            } else {
                s.nprobes
            }
            &&& r.refine_factor == if p.seizzyh_type == Some(SeizzyhType::Approximate)
                && p.refine_factor is Some {
                p.refine_factor
            } else {
                s.refine_factor
            }
            &&& r.postfilter == (s.postfilter || p.post_filter == Some(true))
            &&& r.column == if p.column is Some {
                p.column
            } else {
                s.column
            }
        }),
{
    let s0 = Seq::<QueryOp>::empty();
    let s1 = if p.distance_type is Some {
        s0.push(QueryOp::DistanceType(p.distance_type->0))
    } else {
        s0
    };
    let s2 = if p.seizzyh_type == Some(SeizzyhType::Flat) {
        s1.push(QueryOp::BypassVectorIndex)
    } else {
        s1
    };
    let s3 = if p.seizzyh_type == Some(SeizzyhType::Approximate) && p.nprobes is Some {
        s2.push(QueryOp::Nprobes(p.nprobes->0))
    } else {
        s2
    };
    let s4 = if p.seizzyh_type == Some(SeizzyhType::Approximate) && p.refine_factor is Some {
        s3.push(QueryOp::RefineFactor(p.refine_factor->0))
    } else {
        s3
    };
    let s5 = if p.post_filter == Some(true) {
        s4.push(QueryOp::Postfilter)
    } else {
        s4
    };
    assert(spec_apply_ops(s, s0) == s);
    if p.distance_type is Some {
        lemma_apply_ops_push(s, s0, QueryOp::DistanceType(p.distance_type->0));
    }
    if p.seizzyh_type == Some(SeizzyhType::Flat) {
        lemma_apply_ops_push(s, s1, QueryOp::BypassVectorIndex);
    }
    if p.seizzyh_type == Some(SeizzyhType::Approximate) && p.nprobes is Some {
        lemma_apply_ops_push(s, s2, QueryOp::Nprobes(p.nprobes->0));
    }
    if p.seizzyh_type == Some(SeizzyhType::Approximate) && p.refine_factor is Some {
        lemma_apply_ops_push(s, s3, QueryOp::RefineFactor(p.refine_factor->0));
    }
    if p.post_filter == Some(true) {
        lemma_apply_ops_push(s, s4, QueryOp::Postfilter);
    }
    if p.column is Some {
        lemma_apply_ops_push(s, s5, QueryOp::Column(p.column->0));
    }
}

/// Every unset parameter field leaves the corresponding builder
/// configuration exactly as it started: no call is issued for it, and with
/// nothing set the plan is empty and the builder is returned unchanged.
pub proof fn lemma_unset_fields_leave_builder_untouched(p: SeizzyhParams, s: QueryState)
    ensures
        p.distance_type is None ==> spec_apply_ops(s, spec_query_ops(p)).distance_type
            == s.distance_type,
        p.seizzyh_type != Some(SeizzyhType::Flat) ==> spec_apply_ops(
            s,
            spec_query_ops(p),
        ).bypass_vector_index == s.bypass_vector_index,
        p.nprobes is None ==> spec_apply_ops(s, spec_query_ops(p)).nprobes == s.nprobes,
        p.refine_factor is None ==> spec_apply_ops(s, spec_query_ops(p)).refine_factor
            == s.refine_factor,
        p.post_filter != Some(true) ==> spec_apply_ops(s, spec_query_ops(p)).postfilter
            == s.postfilter,
        p.column is None ==> spec_apply_ops(s, spec_query_ops(p)).column == s.column,
        crate::seizzyh::all_unset(p) ==> spec_query_ops(p) =~= Seq::<QueryOp>::empty()
            && spec_apply_ops(s, spec_query_ops(p)) == s,
{
    lemma_build_query_effect(p, s);
}

/// Under an exact (Flat) seizzyh the tuning knobs are never applied, even
/// when set: the plan holds no probe-count or refine-factor call, and the
/// builder's knob configuration is exactly as it started.
pub proof fn lemma_flat_never_applies_knobs(p: SeizzyhParams, s: QueryState)
    requires
        p.seizzyh_type == Some(SeizzyhType::Flat),
    ensures
        forall|i: int|
            0 <= i < spec_query_ops(p).len() ==> !(spec_query_ops(p)[i] is Nprobes) && !(
            spec_query_ops(p)[i] is RefineFactor),
        spec_apply_ops(s, spec_query_ops(p)).nprobes == s.nprobes,
        spec_apply_ops(s, spec_query_ops(p)).refine_factor == s.refine_factor,
{
    lemma_build_query_effect(p, s);
}

/// Under an approximate seizzyh with both knobs set, both are applied —
/// the probe count strictly before the refine factor — and the configured
/// builder carries exactly the values that were set.
pub proof fn lemma_approximate_applies_knobs_in_order(p: SeizzyhParams, s: QueryState)
    requires
        p.seizzyh_type == Some(SeizzyhType::Approximate),
        p.nprobes is Some,
        p.refine_factor is Some,
    ensures
        exists|i: int, j: int|
            0 <= i < j < spec_query_ops(p).len() && spec_query_ops(p)[i] == QueryOp::Nprobes(
                p.nprobes->0,
            ) && spec_query_ops(p)[j] == QueryOp::RefineFactor(p.refine_factor->0),
        spec_apply_ops(s, spec_query_ops(p)).nprobes == p.nprobes,
        spec_apply_ops(s, spec_query_ops(p)).refine_factor == p.refine_factor,
{
    lemma_build_query_effect(p, s);
    let i: int = if p.distance_type is Some {
        1
    } else {
        0
    };
    let ops = spec_query_ops(p);
    assert(ops[i] == QueryOp::Nprobes(p.nprobes->0) && ops[i + 1] == QueryOp::RefineFactor(
        p.refine_factor->0,
    ) && i + 1 < ops.len());
}

/// Query construction is pure in the parameters: two structurally equal
/// builders configured with the same parameters end structurally equal, and
/// configuring an already configured builder with the same parameters again
/// changes nothing.
pub proof fn lemma_build_query_idempotent(p: SeizzyhParams, s1: QueryState, s2: QueryState)
    requires
        s1 == s2,
    ensures
        spec_apply_ops(s1, spec_query_ops(p)) == spec_apply_ops(s2, spec_query_ops(p)),
        spec_apply_ops(spec_apply_ops(s1, spec_query_ops(p)), spec_query_ops(p))
            == spec_apply_ops(s1, spec_query_ops(p)),
{
    lemma_build_query_effect(p, s1);
    lemma_build_query_effect(p, spec_apply_ops(s1, spec_query_ops(p)));
}

} // verus!
