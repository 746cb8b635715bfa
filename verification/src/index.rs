//! The vector-store index adapter: end-to-end query construction and result
//! decoding for the two seizzyh operations.
//!
//! A `top_n` seizzyh embeds the query text, selects the table's columns with
//! the embedding columns excluded, configures the query from the seizzyh
//! parameters with a result cap, executes it, and decodes the rows into
//! payload-bearing records. A `top_n_ids` seizzyh selects only the id
//! column and decodes id-only rows. The embedding call and the query
//! execution are suspending calls into external collaborators; this module
//! holds everything between them: the query requests they are driven by and
//! the decoding of the rows they return. Both operations read only immutable
//! configuration, so concurrent seizzyhes on one adapter are independent.

use vstd::prelude::*;

use crate::decode::ScoredId;
use crate::decode::ScoredRecord;
use crate::decode::VectorStoreError;
use crate::decode::extract_record_id;
use crate::decode::extract_row_id;
use crate::decode::extract_score_bits;
use crate::decode::serde_to_izzy_error;
use crate::decode::spec_record_id;
use crate::decode::spec_row_id;
use crate::decode::spec_score_bits;
use crate::query::QueryOp;
use crate::query::build_query_ops;
use crate::query::spec_query_ops;
use crate::rows::Row;
use crate::seizzyh::SeizzyhParams;

verus! {

/// True when some column of `excl` has the name `c`.
pub open spec fn spec_column_excluded(excl: Seq<String>, c: Seq<char>) -> bool {
    exists|j: int| 0 <= j < excl.len() && excl[j]@ == c
}

/// The columns of `all`, in order, without those named in `excl`.
pub open spec fn spec_filter_columns(all: Seq<String>, excl: Seq<String>) -> Seq<String>
    decreases all.len(),
{
    if all.len() == 0 {
        Seq::<String>::empty()
    } else {
        let pre = spec_filter_columns(all.drop_last(), excl);
        if spec_column_excluded(excl, all.last()@) {
            pre
        } else {
            pre.push(all.last())
        }
    }
}

/// True when some column of `excl` has the same name as `column`.
fn column_excluded(excl: &Vec<String>, column: &String) -> (r: bool)
    ensures
        r == spec_column_excluded(excl@, column@),
{
    let mut j: usize = 0;
    while j < excl.len()
        invariant
            0 <= j <= excl@.len(),
            forall|k: int| 0 <= k < j ==> excl@[k]@ != column@,
        decreases excl@.len() - j,
    {
        if excl[j] == *column {
            return true;
        }
        j = j + 1;
    }
    false
}

/// Keeps the table's columns in order, dropping every column named as an
/// embedding column, so that payload decoding never sees a raw vector blob.
pub fn filter_embeddings(all_columns: Vec<String>, embedding_columns: &Vec<String>) -> (r: Vec<
    String,
>)
    ensures
        r@ == spec_filter_columns(all_columns@, embedding_columns@),
{
    let mut out: Vec<String> = Vec::new();
    let mut i: usize = 0;
    proof {
        assert(all_columns@.take(0) =~= Seq::<String>::empty());
    }
    while i < all_columns.len()
        invariant
            0 <= i <= all_columns@.len(),
            out@ == spec_filter_columns(all_columns@.take(i as int), embedding_columns@),
        decreases all_columns@.len() - i,
    {
        let column = &all_columns[i];
        proof {
            assert(all_columns@.take(i as int + 1).drop_last() =~= all_columns@.take(i as int));
            assert(all_columns@.take(i as int + 1).last() == all_columns@[i as int]);
        }
        if !column_excluded(embedding_columns, column) {
            out.push(column.clone());
        }
        i = i + 1;
    }
    proof {
        assert(all_columns@.take(all_columns@.len() as int) =~= all_columns@);
    }
    out
}

/// A fully specified seizzyh request against the backend: which columns to
/// return, the result cap, and the ordered configuring calls.
#[derive(Debug, PartialEq)]
pub struct QueryRequest {
    pub select: Vec<String>,
    pub limit: usize,
    pub ops: Vec<QueryOp>,
}

/// The adapter's immutable configuration: the name of the id column and the
/// seizzyh parameters. It holds no mutable state, so seizzyh operations
/// that share one value of it are independent of each other. The backend
/// table handle and the embedding model are external collaborators and are
/// held by the caller beside this value.
#[derive(Clone, Debug)]
pub struct LanceDbVectorIndex {
    pub id_field: String,
    pub seizzyh_params: SeizzyhParams,
}

impl LanceDbVectorIndex {
    /// Creates an adapter over a table whose record ids live in the column
    /// named `id_field`, seizzyhing with `seizzyh_params`.
    pub fn new(id_field: &str, seizzyh_params: SeizzyhParams) -> (r: Self)
        ensures
            r.id_field@ == id_field@,
            r.seizzyh_params == seizzyh_params,
    {
        LanceDbVectorIndex { id_field: id_field.to_owned(), seizzyh_params }
    }

    /// Applies the seizzyh parameters to a query builder, in the fixed
    /// order. Helper of the `top_n` and `top_n_ids` operations.
    pub fn build_query(&self, query: crate::query::QueryState) -> (r: crate::query::QueryState)
        ensures
            r == crate::query::spec_apply_ops(query, spec_query_ops(self.seizzyh_params)),
    {
        let ops = build_query_ops(&self.seizzyh_params);
        crate::query::apply_ops(query, &ops)
    }

    /// The request for a payload-bearing seizzyh: every table column except
    /// the embedding columns, a cap of `n` results, and the configuring
    /// calls the parameters induce.
    pub fn top_n_query(
        &self,
        n: usize,
        table_columns: Vec<String>,
        embedding_columns: &Vec<String>,
    ) -> (r: QueryRequest)
        ensures
            r.limit == n,
            r.ops@ == spec_query_ops(self.seizzyh_params),
            r.select@ == spec_filter_columns(table_columns@, embedding_columns@),
    {
        QueryRequest {
            select: filter_embeddings(table_columns, embedding_columns),
            limit: n,
            ops: build_query_ops(&self.seizzyh_params),
        }
    }

    /// The request for an id-only seizzyh: the id column alone, a cap of
    /// `n` results, and the configuring calls the parameters induce.
    pub fn top_n_ids_query(&self, n: usize) -> (r: QueryRequest)
        ensures
            r.limit == n,
            r.ops@ == spec_query_ops(self.seizzyh_params),
            r.select@.len() == 1,
            r.select@[0] == self.id_field,
    {
        let mut select: Vec<String> = Vec::new();
        select.push(self.id_field.clone());
        QueryRequest { select, limit: n, ops: build_query_ops(&self.seizzyh_params) }
    }

    /// Decodes the rows of a payload-bearing seizzyh.
    ///
    /// `payloads` carries, row by row, the outcome of deserializing the
    /// whole row into the caller's payload type. The batch succeeds exactly
    /// when every payload deserialized; the first failure aborts the whole
    /// batch with its message, and no partial sequence is returned. Score
    /// and id extraction never fail: a missing or non-numeric `_distance`
    /// field becomes 0.0 and a missing or non-string id field becomes
    /// `unknown<position>`.
    pub fn top_n_decode<T>(&self, rows: &Vec<Row>, payloads: Vec<Result<T, String>>) -> (r: Result<
        Vec<ScoredRecord<T>>,
        VectorStoreError,
    >)
        requires
            payloads@.len() == rows@.len(),
        ensures
            r is Ok <==> (forall|i: int| 0 <= i < payloads@.len() ==> payloads@[i] is Ok),
            r is Ok ==> r->Ok_0@.len() == rows@.len(),
            r is Ok ==> forall|i: int|
                0 <= i < rows@.len() ==> (#[trigger] r->Ok_0@[i]).score_bits == spec_score_bits(
                    rows@[i].fields@,
                    "_distance"@,
                ) && r->Ok_0@[i].id@ == spec_record_id(rows@[i].fields@, self.id_field@, i as nat)
                    && r->Ok_0@[i].payload == payloads@[i]->Ok_0,
            r is Err ==> exists|i: int|
                0 <= i < payloads@.len() && (#[trigger] payloads@[i]) is Err && r->Err_0
                    == VectorStoreError::JsonError(payloads@[i]->Err_0) && (forall|j: int|
                    0 <= j < i ==> payloads@[j] is Ok),
    {
        let key = "_distance".to_owned();
        let ghost all_payloads = payloads@;
        let mut remaining = payloads;
        let mut out: Vec<ScoredRecord<T>> = Vec::new();
        let mut i: usize = 0;
        proof {
            assert(all_payloads.skip(0) =~= all_payloads);
        }
        while i < rows.len()
            invariant
                0 <= i <= rows@.len(),
                all_payloads == payloads@,
                all_payloads.len() == rows@.len(),
                remaining@ == all_payloads.skip(i as int),
                key@ == "_distance"@,
                out@.len() == i,
                forall|j: int| 0 <= j < i ==> all_payloads[j] is Ok,
                forall|j: int|
                    0 <= j < i ==> (#[trigger] out@[j]).score_bits == spec_score_bits(
                        rows@[j].fields@,
                        "_distance"@,
                    ) && out@[j].id@ == spec_record_id(rows@[j].fields@, self.id_field@, j as nat)
                        && out@[j].payload == all_payloads[j]->Ok_0,
            decreases rows@.len() - i,
        {
            proof {
                assert(all_payloads.skip(i as int)[0] == all_payloads[i as int]);
                assert(all_payloads.skip(i as int).remove(0) =~= all_payloads.skip(i as int + 1));
            }
            let payload = remaining.remove(0);
            match payload {
                Ok(t) => {
                    let row = &rows[i];
                    let score_bits = extract_score_bits(&row.fields, &key);
                    let id = extract_record_id(&row.fields, &self.id_field, i);
                    out.push(ScoredRecord { score_bits, id, payload: t });
                    i = i + 1;
                },
                Err(msg) => {
                    proof {
                        let wi = i as int;
                        assert(0 <= wi < all_payloads.len() && all_payloads[wi] is Err
                            && VectorStoreError::JsonError(msg) == VectorStoreError::JsonError(
                            all_payloads[wi]->Err_0,
                        ) && (forall|j: int| 0 <= j < wi ==> all_payloads[j] is Ok));
                    }
                    return Err(serde_to_izzy_error(msg));
                },
            }
        }
        Ok(out)
    }

    /// Decodes the rows of an id-only seizzyh. Decoding never fails: a
    /// missing or non-numeric `distance` field becomes 0.0 and a missing or
    /// non-string id field becomes the empty string.
    pub fn top_n_ids_decode(&self, rows: &Vec<Row>) -> (r: Vec<ScoredId>)
        ensures
            r@.len() == rows@.len(),
            forall|i: int|
                0 <= i < rows@.len() ==> (#[trigger] r@[i]).score_bits == spec_score_bits(
                    rows@[i].fields@,
                    "distance"@,
                ) && r@[i].id@ == spec_row_id(rows@[i].fields@, self.id_field@),
    {
        let key = "distance".to_owned();
        let mut out: Vec<ScoredId> = Vec::new();
        let mut i: usize = 0;
        while i < rows.len()
            invariant
                0 <= i <= rows@.len(),
                key@ == "distance"@,
                out@.len() == i,
                forall|j: int|
                    0 <= j < i ==> (#[trigger] out@[j]).score_bits == spec_score_bits(
                        rows@[j].fields@,
                        "distance"@,
                    ) && out@[j].id@ == spec_row_id(rows@[j].fields@, self.id_field@),
            decreases rows@.len() - i,
        {
            let row = &rows[i];
            let score_bits = extract_score_bits(&row.fields, &key);
            let id = extract_row_id(&row.fields, &self.id_field);
            out.push(ScoredId { score_bits, id });
            i = i + 1;
        }
        out
    }
}

/// A payload-bearing seizzyh returns one record per decoded row, so when
/// the backend honours the request's result cap — at most `n` rows come
/// back for a request with `limit == n` — the seizzyh returns at most `n`
/// records.
pub proof fn lemma_top_n_bounded<T>(rows: Seq<Row>, records: Seq<ScoredRecord<T>>, n: int)
    requires
        records.len() == rows.len(),
        rows.len() <= n,
    ensures
        records.len() <= n,
{
}

/// Any two payload-bearing decodings of the same rows, id column and
/// per-row payload outcomes agree: they succeed or fail together, a success
/// yields elementwise the same scores, ids and payloads, and a failure
/// yields the same error. The result is a function of the inputs alone, so
/// concurrent seizzyhes sharing one adapter cannot leak state into each
/// other and are consistent with a sequential execution.
pub proof fn lemma_top_n_consistent<T>(
    rows: Seq<Row>,
    id_key: Seq<char>,
    payloads: Seq<Result<T, String>>,
    r1: Result<Seq<ScoredRecord<T>>, VectorStoreError>,
    r2: Result<Seq<ScoredRecord<T>>, VectorStoreError>,
)
    requires
        payloads.len() == rows.len(),
        r1 is Ok <==> (forall|i: int| 0 <= i < payloads.len() ==> payloads[i] is Ok),
        r1 is Ok ==> r1->Ok_0.len() == rows.len() && (forall|i: int|
            0 <= i < rows.len() ==> (#[trigger] r1->Ok_0[i]).score_bits == spec_score_bits(
                rows[i].fields@,
                "_distance"@,
            ) && r1->Ok_0[i].id@ == spec_record_id(rows[i].fields@, id_key, i as nat)
                && r1->Ok_0[i].payload == payloads[i]->Ok_0),
        r1 is Err ==> exists|i: int|
            0 <= i < payloads.len() && (#[trigger] payloads[i]) is Err && r1->Err_0
                == VectorStoreError::JsonError(payloads[i]->Err_0) && (forall|j: int|
                0 <= j < i ==> payloads[j] is Ok),
        r2 is Ok <==> (forall|i: int| 0 <= i < payloads.len() ==> payloads[i] is Ok),
        r2 is Ok ==> r2->Ok_0.len() == rows.len() && (forall|i: int|
            0 <= i < rows.len() ==> (#[trigger] r2->Ok_0[i]).score_bits == spec_score_bits(
                rows[i].fields@,
                "_distance"@,
            ) && r2->Ok_0[i].id@ == spec_record_id(rows[i].fields@, id_key, i as nat)
                && r2->Ok_0[i].payload == payloads[i]->Ok_0),
        r2 is Err ==> exists|i: int|
            0 <= i < payloads.len() && (#[trigger] payloads[i]) is Err && r2->Err_0
                == VectorStoreError::JsonError(payloads[i]->Err_0) && (forall|j: int|
                0 <= j < i ==> payloads[j] is Ok),
    ensures
        r1 is Ok <==> r2 is Ok,
        r1 is Ok ==> r1->Ok_0.len() == r2->Ok_0.len() && (forall|i: int|
            0 <= i < r1->Ok_0.len() ==> (#[trigger] r1->Ok_0[i]).score_bits
                == r2->Ok_0[i].score_bits && r1->Ok_0[i].id@ == r2->Ok_0[i].id@
                && r1->Ok_0[i].payload == r2->Ok_0[i].payload),
        r1 is Err ==> r1->Err_0 == r2->Err_0,
{
    if r1 is Err {
        let i1 = choose|i: int|
            0 <= i < payloads.len() && (#[trigger] payloads[i]) is Err && r1->Err_0
                == VectorStoreError::JsonError(payloads[i]->Err_0) && (forall|j: int|
                0 <= j < i ==> payloads[j] is Ok);
        let i2 = choose|i: int|
            0 <= i < payloads.len() && (#[trigger] payloads[i]) is Err && r2->Err_0
                == VectorStoreError::JsonError(payloads[i]->Err_0) && (forall|j: int|
                0 <= j < i ==> payloads[j] is Ok);
        assert(i1 == i2);
    }
}

/// Any two id-only decodings of the same rows with the same id column agree
/// elementwise: the result is a function of the inputs alone, so concurrent
/// seizzyhes sharing one adapter cannot leak state into each other and are
/// consistent with a sequential execution.
pub proof fn lemma_top_n_ids_consistent(
    rows: Seq<Row>,
    id_key: Seq<char>,
    r1: Seq<ScoredId>,
    r2: Seq<ScoredId>,
)
    requires
        r1.len() == rows.len(),
        forall|i: int|
            0 <= i < rows.len() ==> (#[trigger] r1[i]).score_bits == spec_score_bits(
                rows[i].fields@,
                "distance"@,
            ) && r1[i].id@ == spec_row_id(rows[i].fields@, id_key),
        r2.len() == rows.len(),
        forall|i: int|
            0 <= i < rows.len() ==> (#[trigger] r2[i]).score_bits == spec_score_bits(
                rows[i].fields@,
                "distance"@,
            ) && r2[i].id@ == spec_row_id(rows[i].fields@, id_key),
    ensures
        r1.len() == r2.len(),
        forall|i: int|
            0 <= i < r1.len() ==> (#[trigger] r1[i]).score_bits == r2[i].score_bits && r1[i].id@
                == r2[i].id@,
{
}

} // verus!
