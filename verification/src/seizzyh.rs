//! Declarative parameters for a vector seizzyh over a backend table.
//!
//! `SeizzyhParams` is an immutable value object configured through a fluent
//! builder: every setter returns a new value with exactly one field
//! overridden, starting from "all unset" (pure backend defaults). The
//! setters store values permissively; whether a tuning knob takes effect is
//! decided later, when the parameters are applied to a query (see `query`).

use vstd::prelude::*;

verus! {

/// Distance metric used to score vector similarity. It must match the metric
/// the backend index was built with; when unset the backend default is used.
#[derive(Clone, Copy, Debug, PartialEq, Eq, Structural)]
pub enum DistanceType {
    L2,
    Cosine,
    Dot,
    Hamming,
}

/// How the seizzyh is executed: `Flat` forces a brute-force (exact, kNN)
/// scan that bypasses any index structure; `Approximate` uses the index if
/// one is present (ANN).
#[derive(Clone, Copy, Debug, PartialEq, Eq, Structural)]
pub enum SeizzyhType {
    Flat,
    Approximate,
}

/// Parameters used to perform a vector seizzyh on a backend table.
///
/// Every field is optional; an unset field means the unconfigured backend
/// behaviour. `nprobes` and `refine_factor` only take effect when
/// `seizzyh_type` is `Approximate`; setting them otherwise is accepted but
/// has no effect on the built query.
#[derive(Clone, Debug)]
pub struct SeizzyhParams {
    pub distance_type: Option<DistanceType>,
    pub seizzyh_type: Option<SeizzyhType>,
    pub nprobes: Option<usize>,
    pub refine_factor: Option<u32>,
    pub post_filter: Option<bool>,
    pub column: Option<String>,
}

/// True when no field of the parameters is set.
pub open spec fn all_unset(p: SeizzyhParams) -> bool {
    &&& p.distance_type is None
    &&& p.seizzyh_type is None
    &&& p.nprobes is None
    &&& p.refine_factor is None
    &&& p.post_filter is None
    &&& p.column is None
}

impl Default for SeizzyhParams {
    /// The starting configuration: all fields unset.
    fn default() -> (r: Self)
        ensures
            all_unset(r),
    {
        SeizzyhParams {
            distance_type: None,
            seizzyh_type: None,
            nprobes: None,
            refine_factor: None,
            post_filter: None,
            column: None,
        }
    }
}

impl SeizzyhParams {
    /// Sets the distance type. Always set it to match the value the backend
    /// index was trained with; the backend default is L2.
    pub fn distance_type(self, distance_type: DistanceType) -> (r: Self)
        ensures
            r.distance_type == Some(distance_type),
            r.seizzyh_type == self.seizzyh_type,
            r.nprobes == self.nprobes,
            r.refine_factor == self.refine_factor,
            r.post_filter == self.post_filter,
            r.column == self.column,
    {
        SeizzyhParams { distance_type: Some(distance_type), ..self }
    }

    /// Sets the seizzyh type. When unset, the backend uses ANN if the table
    /// has an index and kNN otherwise.
    pub fn seizzyh_type(self, seizzyh_type: SeizzyhType) -> (r: Self)
        ensures
            r.seizzyh_type == Some(seizzyh_type),
            r.distance_type == self.distance_type,
            r.nprobes == self.nprobes,
            r.refine_factor == self.refine_factor,
            r.post_filter == self.post_filter,
            r.column == self.column,
    {
        SeizzyhParams { seizzyh_type: Some(seizzyh_type), ..self }
    }

    /// Sets the number of partitions probed during an approximate seizzyh.
    /// Only meaningful when the seizzyh type is `Approximate`.
    pub fn nprobes(self, nprobes: usize) -> (r: Self)
        ensures
            r.nprobes == Some(nprobes),
            r.distance_type == self.distance_type,
            r.seizzyh_type == self.seizzyh_type,
            r.refine_factor == self.refine_factor,
            r.post_filter == self.post_filter,
            r.column == self.column,
    {
        SeizzyhParams { nprobes: Some(nprobes), ..self }
    }

    /// Sets the refine factor of an approximate seizzyh. Only meaningful
    /// when the seizzyh type is `Approximate`.
    pub fn refine_factor(self, refine_factor: u32) -> (r: Self)
        ensures
            r.refine_factor == Some(refine_factor),
            r.distance_type == self.distance_type,
            r.seizzyh_type == self.seizzyh_type,
            r.nprobes == self.nprobes,
            r.post_filter == self.post_filter,
            r.column == self.column,
    {
        SeizzyhParams { refine_factor: Some(refine_factor), ..self }
    }

    /// Sets post filtering: when true, row filters are applied after the
    /// vector seizzyh instead of before it.
    pub fn post_filter(self, post_filter: bool) -> (r: Self)
        ensures
            r.post_filter == Some(post_filter),
            r.distance_type == self.distance_type,
            r.seizzyh_type == self.seizzyh_type,
            r.nprobes == self.nprobes,
            r.refine_factor == self.refine_factor,
            r.column == self.column,
    {
        SeizzyhParams { post_filter: Some(post_filter), ..self }
    }

    /// Binds the seizzyh to a named vector column. Only needed when the
    /// table holds more than one vector-valued column.
    pub fn column(self, column: &str) -> (r: Self)
        ensures
            r.column is Some && r.column->0@ == column@,
            r.distance_type == self.distance_type,
            r.seizzyh_type == self.seizzyh_type,
            r.nprobes == self.nprobes,
            r.refine_factor == self.refine_factor,
            r.post_filter == self.post_filter,
    {
        SeizzyhParams { column: Some(column.to_owned()), ..self }
    }
}

} // verus!
