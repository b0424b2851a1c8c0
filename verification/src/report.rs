//! Harvesting the comparison map into a detached report.
//!
//! A `MapSnapshot` is a plain copy of the shared comparison map: one raw
//! 64-bit header per slot and, per slot, a row of operand records.  The
//! harvest walks the slots in index order, skips exactly the slots whose
//! raw header is 0, decodes the header of every kept slot and copies the
//! first `min(hits, CMP_MAP_H)` operand records of its row.  The report
//! owns its data: nothing in it aliases the snapshot.

use vstd::prelude::*;
use crate::codec::{decode, spec_decode, spec_hits, CmpHeader};

verus! {

/// Number of header slots in the comparison map.
pub const CMP_MAP_W: usize = 65536;

/// Operand records retained per slot: hits beyond this many are dropped.
pub const CMP_MAP_H: usize = 32;

/// One operand-pair record: two 64-bit operands and their two extension
/// words, which together form two 128-bit logical values for wide shapes.
#[derive(Clone, Copy, Debug, PartialEq, Eq, Structural)]
pub struct CmpOperands {
    pub v0: u64,
    pub v1: u64,
    pub v0_128: u64,
    pub v1_128: u64,
}

/// A plain copy of the comparison map taken after the session was reaped:
/// one raw header per slot and one operand row per slot.
pub struct MapSnapshot {
    pub headers: Vec<u64>,
    pub rows: Vec<Vec<CmpOperands>>,
}

impl MapSnapshot {
    /// One operand row per header slot, each row holding exactly
    /// `CMP_MAP_H` records.
    pub open spec fn wf(&self) -> bool {
        &&& self.rows@.len() == self.headers@.len()
        &&& forall|i: int|
            0 <= i < self.rows@.len() ==> (#[trigger] self.rows@[i])@.len() == CMP_MAP_H
    }

    /// The operand rows as a sequence of sequences.
    pub open spec fn rows_view(&self) -> Seq<Seq<CmpOperands>> {
        self.rows@.map_values(|row: Vec<CmpOperands>| row@)
    }
}

/// The mathematical shape of one reported site.
pub struct SiteView {
    pub header: CmpHeader,
    pub log: Seq<CmpOperands>,
}

/// One kept slot of the report: the decoded header and the copied prefix
/// of the slot's operand row.
#[derive(Clone, Debug, PartialEq, Eq)]
pub struct SiteReport {
    pub header: CmpHeader,
    pub log: Vec<CmpOperands>,
}

impl View for SiteReport {
    type V = SiteView;

    open spec fn view(&self) -> SiteView {
        SiteView { header: self.header, log: self.log@ }
    }
}

/// The harvested report: one entry per kept slot, in slot index order.
#[derive(Clone, Debug, PartialEq, Eq)]
pub struct Report {
    pub sites: Vec<SiteReport>,
}

impl View for Report {
    type V = Seq<SiteView>;

    open spec fn view(&self) -> Seq<SiteView> {
        self.sites@.map_values(|s: SiteReport| s@)
    }
}

/// How many operand records a kept slot contributes: its hit count,
/// capped at the `CMP_MAP_H` records the map retains.
pub open spec fn kept_log_len(raw: u64) -> int {
    if spec_hits(raw) < CMP_MAP_H {
        spec_hits(raw) as int
    } else {
        CMP_MAP_H as int
    }
}

/// What one kept slot with raw header `raw` and operand row `row`
/// contributes to the report.
pub open spec fn spec_site(raw: u64, row: Seq<CmpOperands>) -> SiteView {
    SiteView { header: spec_decode(raw), log: row.take(kept_log_len(raw)) }
}

/// The report harvested from raw headers and operand rows: slots in index
/// order, slots with raw header 0 skipped, every other slot kept.
pub open spec fn spec_harvest(headers: Seq<u64>, rows: Seq<Seq<CmpOperands>>) -> Seq<SiteView>
    decreases headers.len(),
{
    if headers.len() == 0 {
        Seq::empty()
    } else {
        let prev = spec_harvest(headers.drop_last(), rows.drop_last());
        if headers.last() == 0 {
            prev
        } else {
            prev.push(spec_site(headers.last(), rows.last()))
        }
    }
}

/// The indices of the slots a harvest keeps: exactly those whose raw
/// header is not 0, in increasing order.
pub open spec fn kept_slots(headers: Seq<u64>) -> Seq<int>
    decreases headers.len(),
{
    if headers.len() == 0 {
        Seq::empty()
    } else if headers.last() == 0 {
        kept_slots(headers.drop_last())
    } else {
        kept_slots(headers.drop_last()).push(headers.len() - 1)
    }
}

/// The kept slot indices are exactly the slots whose raw header is not 0:
/// each is in range with a non-zero header, they increase strictly, and
/// every non-zero slot is among them.  A slot is skipped only when its raw
/// header is exactly 0, however its individual fields read.
pub proof fn lemma_kept_slots_properties(headers: Seq<u64>)
    ensures
        forall|k: int|
            0 <= k < kept_slots(headers).len() ==> 0 <= #[trigger] kept_slots(headers)[k]
                < headers.len(),
        forall|k: int|
            0 <= k < kept_slots(headers).len() ==> headers[#[trigger] kept_slots(headers)[k]]
                != 0,
        forall|k1: int, k2: int|
            0 <= k1 < k2 < kept_slots(headers).len() ==> #[trigger] kept_slots(headers)[k1]
                < #[trigger] kept_slots(headers)[k2],
        forall|i: int|
            0 <= i < headers.len() && headers[i] != 0 ==> kept_slots(headers).contains(i),
    decreases headers.len(),
{
    if headers.len() == 0 {
    } else {
        let prefix = headers.drop_last();
        lemma_kept_slots_properties(prefix);
        assert(forall|i: int| 0 <= i < prefix.len() ==> prefix[i] == headers[i]);
        assert forall|i: int|
            0 <= i < headers.len() && headers[i] != 0 implies kept_slots(headers).contains(
            i,
        ) by {
            if i < prefix.len() {
                assert(kept_slots(prefix).contains(i));
                let k = choose|k: int|
                    0 <= k < kept_slots(prefix).len() && kept_slots(prefix)[k] == i;
                assert(kept_slots(headers)[k] == i);
            } else {
                assert(headers.last() != 0);
                assert(kept_slots(headers).last() == i);
            }
        }
    }
}

/// The report lines up with the kept slots: entry `k` is exactly what slot
/// `kept_slots(headers)[k]` contributes, so the report preserves slot
/// index order and decodes only non-zero headers.
pub proof fn lemma_harvest_entries(headers: Seq<u64>, rows: Seq<Seq<CmpOperands>>)
    requires
        rows.len() == headers.len(),
    ensures
        spec_harvest(headers, rows).len() == kept_slots(headers).len(),
        forall|k: int|
            0 <= k < kept_slots(headers).len() ==> spec_harvest(headers, rows)[k] == spec_site(
                headers[#[trigger] kept_slots(headers)[k]],
                rows[kept_slots(headers)[k]],
            ),
    decreases headers.len(),
{
    if headers.len() == 0 {
    } else {
        let hp = headers.drop_last();
        let rp = rows.drop_last();
        lemma_harvest_entries(hp, rp);
        lemma_kept_slots_properties(hp);
        assert(forall|i: int| 0 <= i < hp.len() ==> hp[i] == headers[i]);
        assert(forall|i: int| 0 <= i < rp.len() ==> rp[i] == rows[i]);
    }
}

/// Every entry of the report holds exactly `min(hits, CMP_MAP_H)` operand
/// records of its slot, where `hits` is the slot header's hit count.
pub proof fn lemma_harvest_log_lengths(headers: Seq<u64>, rows: Seq<Seq<CmpOperands>>)
    requires
        rows.len() == headers.len(),
        forall|i: int| 0 <= i < rows.len() ==> (#[trigger] rows[i]).len() == CMP_MAP_H,
    ensures
        forall|k: int|
            0 <= k < spec_harvest(headers, rows).len() ==> (#[trigger] spec_harvest(
                headers,
                rows,
            )[k]).log.len() == kept_log_len(headers[kept_slots(headers)[k]]),
{
    lemma_harvest_entries(headers, rows);
    lemma_kept_slots_properties(headers);
    assert forall|k: int|
        0 <= k < spec_harvest(headers, rows).len() implies (#[trigger] spec_harvest(
        headers,
        rows,
    )[k]).log.len() == kept_log_len(headers[kept_slots(headers)[k]]) by {
        let i = kept_slots(headers)[k];
        assert(spec_harvest(headers, rows)[k] == spec_site(headers[i], rows[i]));
        assert(0 <= kept_log_len(headers[i]) <= CMP_MAP_H);
    }
}

/// Harvest is deterministic: two reports harvested from the same snapshot
/// data are equal, so re-running the harvest over an unmodified map
/// changes nothing.
pub proof fn lemma_harvest_deterministic(
    r1: Report,
    r2: Report,
    headers: Seq<u64>,
    rows: Seq<Seq<CmpOperands>>,
)
    requires
        r1@ == spec_harvest(headers, rows),
        r2@ == spec_harvest(headers, rows),
    ensures
        r1@ == r2@,
{
}

/// Walk the snapshot and build the report.
pub fn harvest(snap: &MapSnapshot) -> (r: Report)
    requires
        snap.wf(),
    ensures
        r@ == spec_harvest(snap.headers@, snap.rows_view()),
{
    let ghost all_headers = snap.headers@;
    let ghost all_rows = snap.rows_view();
    let mut sites: Vec<SiteReport> = Vec::new();
    let n: usize = snap.headers.len();
    let mut i: usize = 0;
    while i < n
        invariant
            snap.wf(),
            n == all_headers.len(),
            all_headers == snap.headers@,
            all_rows == snap.rows_view(),
            i <= n,
            sites@.map_values(|s: SiteReport| s@) == spec_harvest(
                all_headers.take(i as int),
                all_rows.take(i as int),
            ),
        decreases n - i,
    {
        let raw: u64 = snap.headers[i];
        let ghost sites_before = sites@;
        if raw != 0 {
            let h: CmpHeader = decode(raw);
            let row: &Vec<CmpOperands> = &snap.rows[i];
            let hits: usize = h.hits as usize;
            let limit: usize = if hits < CMP_MAP_H {
                hits
            } else {
                CMP_MAP_H
            };
            assert(limit == kept_log_len(raw));
            assert(row@.len() == CMP_MAP_H);
            let mut log: Vec<CmpOperands> = Vec::new();
            let mut j: usize = 0;
            while j < limit
                invariant
                    j <= limit,
                    limit <= row@.len(),
                    log@ == row@.take(j as int),
                decreases limit - j,
            {
                log.push(row[j]);
                assert(row@.take(j + 1int) =~= row@.take(j as int).push(row@[j as int]));
                j = j + 1;
            }
            sites.push(SiteReport { header: h, log });
            assert(sites@.map_values(|s: SiteReport| s@) =~= sites_before.map_values(
                |s: SiteReport| s@,
            ).push(spec_site(raw, all_rows[i as int])));
        }
        proof {
            let k = i as int;
            assert(all_headers.take(k + 1).drop_last() =~= all_headers.take(k));
            assert(all_rows.take(k + 1).drop_last() =~= all_rows.take(k));
            assert(all_headers.take(k + 1).last() == all_headers[k]);
            assert(all_rows.take(k + 1).last() == all_rows[k]);
        }
        i = i + 1;
    }
    proof {
        assert(all_headers.take(n as int) =~= all_headers);
        assert(all_rows.take(n as int) =~= all_rows);
    }
    Report { sites }
}

} // verus!
