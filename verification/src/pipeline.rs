use vstd::prelude::*;

use crate::marker::{reportable_spec, EntityRecord, MarkerRecord};
use crate::MAX_MARKERS_COUNT;

verus! {

/// The records among the first `n` of `rs` that pass the filter, in
/// backend order.
pub open spec fn reportable_prefix(rs: Seq<EntityRecord>, n: int) -> Seq<EntityRecord>
    decreases n,
{
    if n <= 0 {
        Seq::empty()
    } else {
        let rest = reportable_prefix(rs, n - 1);
        if reportable_spec(rs[n - 1]) {
            rest.push(rs[n - 1])
        } else {
            rest
        }
    }
}

/// The records of `rs` that pass the filter, in backend order.
pub open spec fn reportable_records(rs: Seq<EntityRecord>) -> Seq<EntityRecord> {
    reportable_prefix(rs, rs.len() as int)
}

/// The markers assembled from the first `n` selected records: each record
/// whose buffer read yielded a payload contributes that payload paired with
/// the record's pose; a failed read (`None`) is skipped.
pub open spec fn assembled_prefix(
    sel: Seq<EntityRecord>,
    payloads: Seq<Option<String>>,
    n: int,
) -> Seq<MarkerRecord>
    decreases n,
{
    if n <= 0 {
        Seq::empty()
    } else {
        let rest = assembled_prefix(sel, payloads, n - 1);
        match payloads[n - 1] {
            Option::Some(p) => rest.push(MarkerRecord { payload: p, pose: sel[n - 1].pose }),
            Option::None => rest,
        }
    }
}

/// The markers assembled from all selected records, in backend order.
pub open spec fn assembled_markers(
    sel: Seq<EntityRecord>,
    payloads: Seq<Option<String>>,
) -> Seq<MarkerRecord> {
    assembled_prefix(sel, payloads, sel.len() as int)
}

/// Number of rows to request in the typed pass: the count reported by the
/// count pass, clamped to the fixed buffer capacity. The typed pass never
/// requests more rows than the capacity, nor more than were reported.
pub fn typed_pass_len(reported_count: u32) -> (n: usize)
    ensures
        n == if reported_count <= MAX_MARKERS_COUNT as u32 {
            reported_count as int
        } else {
            MAX_MARKERS_COUNT as int
        },
        n <= MAX_MARKERS_COUNT,
        n <= reported_count,
{
    if reported_count as usize <= MAX_MARKERS_COUNT {
        reported_count as usize
    } else {
        MAX_MARKERS_COUNT
    }
}

/// Filter pass over one snapshot's records: keep exactly the reportable
/// ones, in backend order.
pub fn select_reportable(records: &Vec<EntityRecord>) -> (sel: Vec<EntityRecord>)
    ensures
        sel@ == reportable_records(records@),
{
    let mut sel: Vec<EntityRecord> = Vec::new();
    let mut i: usize = 0;
    while i < records.len()
        invariant
            i <= records@.len(),
            sel@ == reportable_prefix(records@, i as int),
        decreases records@.len() - i,
    {
        if crate::marker::is_reportable(&records[i]) {
            sel.push(records[i]);
        }
        i += 1;
    }
    sel
}

/// Decode pass: pair each selected record's pose with the payload its
/// buffer read produced. `payloads[k]` is the outcome of the backend read
/// for `selected[k]`; `None` marks a per-record decode failure, which is
/// skipped without failing the batch.
pub fn assemble_markers(
    selected: &Vec<EntityRecord>,
    payloads: &Vec<Option<String>>,
) -> (out: Vec<MarkerRecord>)
    requires
        payloads@.len() == selected@.len(),
    ensures
        out@ == assembled_markers(selected@, payloads@),
{
    let mut out: Vec<MarkerRecord> = Vec::new();
    let mut k: usize = 0;
    while k < selected.len()
        invariant
            k <= selected@.len(),
            payloads@.len() == selected@.len(),
            out@ == assembled_prefix(selected@, payloads@, k as int),
        decreases selected@.len() - k,
    {
        match &payloads[k] {
            Some(p) => {
                out.push(MarkerRecord { payload: p.clone(), pose: selected[k].pose });
            },
            None => {},
        }
        k += 1;
    }
    out
}

/// Every record kept by the filter pass is reportable: its tracking state
/// is `Tracking`, its capability tag is the QR-code capability, and its
/// buffer reference is present and typed as text. In particular, a record
/// with any other tracking state, or whose buffer type tag is not text,
/// never survives the filter.
pub proof fn lemma_selected_is_reportable(rs: Seq<EntityRecord>, k: int)
    requires
        0 <= k < reportable_records(rs).len(),
    ensures
        reportable_spec(reportable_records(rs)[k]),
{
    lemma_reportable_prefix_sources(rs, rs.len() as int, k);
}

/// Every element of `reportable_prefix(rs, n)` is one of the first `n`
/// records of `rs` and passes the filter.
proof fn lemma_reportable_prefix_sources(rs: Seq<EntityRecord>, n: int, k: int)
    requires
        n <= rs.len(),
        0 <= k < reportable_prefix(rs, n).len(),
    ensures
        exists|i: int|
            0 <= i < n && reportable_prefix(rs, n)[k] == #[trigger] rs[i] && reportable_spec(
                rs[i],
            ),
    decreases n,
{
    let sel = reportable_prefix(rs, n);
    let rest = reportable_prefix(rs, n - 1);
    if reportable_spec(rs[n - 1]) && k == rest.len() {
        assert(0 <= n - 1 < n && sel[k] == rs[n - 1] && reportable_spec(rs[n - 1]));
    } else {
        lemma_reportable_prefix_sources(rs, n - 1, k);
        let i = choose|i: int|
            0 <= i < n - 1 && rest[k] == #[trigger] rs[i] && reportable_spec(rs[i]);
        assert(0 <= i < n && sel[k] == rs[i] && reportable_spec(rs[i]));
    }
}

/// How many of the first `n` buffer reads produced a payload.
pub open spec fn decoded_count(payloads: Seq<Option<String>>, n: int) -> int
    decreases n,
{
    if n <= 0 {
        0
    } else {
        decoded_count(payloads, n - 1) + if payloads[n - 1] is Some {
            1int
        } else {
            0int
        }
    }
}

proof fn lemma_assembled_prefix_len(
    sel: Seq<EntityRecord>,
    payloads: Seq<Option<String>>,
    n: int,
)
    requires
        n <= sel.len(),
        payloads.len() == sel.len(),
    ensures
        assembled_prefix(sel, payloads, n).len() == decoded_count(payloads, n),
    decreases n,
{
    if n > 0 {
        lemma_assembled_prefix_len(sel, payloads, n - 1);
    }
}

/// A failed buffer read skips only its own record, never the batch: the
/// output list holds exactly one marker for every payload that decoded.
pub proof fn lemma_decode_failure_skips_one_record(
    sel: Seq<EntityRecord>,
    payloads: Seq<Option<String>>,
)
    requires
        payloads.len() == sel.len(),
    ensures
        assembled_markers(sel, payloads).len() == decoded_count(payloads, sel.len() as int),
{
    lemma_assembled_prefix_len(sel, payloads, sel.len() as int);
}

/// A marker `m` stems from the snapshot records `rs` when some reportable
/// record among them carries its pose.
pub open spec fn stems_from(rs: Seq<EntityRecord>, m: MarkerRecord) -> bool {
    exists|i: int|
        0 <= i < rs.len() && reportable_spec(#[trigger] rs[i]) && m.pose == rs[i].pose
}

/// Every marker in the assembled prefix carries the pose of one of the
/// first `n` selected records, and its payload is what that record's buffer
/// read produced.
proof fn lemma_assembled_prefix_sources(
    sel: Seq<EntityRecord>,
    payloads: Seq<Option<String>>,
    n: int,
    j: int,
)
    requires
        n <= sel.len(),
        payloads.len() == sel.len(),
        0 <= j < assembled_prefix(sel, payloads, n).len(),
    ensures
        exists|k: int|
            0 <= k < n && payloads[k] == Some(
                assembled_prefix(sel, payloads, n)[j].payload,
            ) && assembled_prefix(sel, payloads, n)[j].pose == #[trigger] sel[k].pose,
    decreases n,
{
    let out = assembled_prefix(sel, payloads, n);
    let rest = assembled_prefix(sel, payloads, n - 1);
    if payloads[n - 1] is Some && j == rest.len() {
        assert(0 <= n - 1 < n && payloads[n - 1] == Some(out[j].payload) && out[j].pose == sel[
            n - 1
        ].pose);
    } else {
        lemma_assembled_prefix_sources(sel, payloads, n - 1, j);
        let k = choose|k: int|
            0 <= k < n - 1 && payloads[k] == Some(rest[j].payload) && rest[j].pose
                == #[trigger] sel[k].pose;
        assert(0 <= k < n && payloads[k] == Some(out[j].payload) && out[j].pose == sel[k].pose);
    }
}

/// End to end over the filter and decode passes: every marker in the output
/// list stems from a reportable snapshot record — one whose tracking state
/// is `Tracking`, whose capability tag is the QR-code capability, and whose
/// buffer reference is present and typed as text. Records that fail any of
/// those checks contribute nothing to the output.
pub proof fn lemma_output_stems_from_reportable(
    rs: Seq<EntityRecord>,
    payloads: Seq<Option<String>>,
    j: int,
)
    requires
        payloads.len() == reportable_records(rs).len(),
        0 <= j < assembled_markers(reportable_records(rs), payloads).len(),
    ensures
        stems_from(rs, assembled_markers(reportable_records(rs), payloads)[j]),
{
    let sel = reportable_records(rs);
    let out = assembled_markers(sel, payloads);
    lemma_assembled_prefix_sources(sel, payloads, sel.len() as int, j);
    let k = choose|k: int|
        0 <= k < sel.len() && payloads[k] == Some(out[j].payload) && out[j].pose
            == #[trigger] sel[k].pose;
    lemma_reportable_prefix_sources(rs, rs.len() as int, k);
    let i = choose|i: int|
        0 <= i < rs.len() && sel[k] == #[trigger] rs[i] && reportable_spec(rs[i]);
    assert(0 <= i < rs.len() && reportable_spec(rs[i]) && out[j].pose == rs[i].pose);
}

} // verus!
