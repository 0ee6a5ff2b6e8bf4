use vstd::prelude::*;

use crate::timestamp::{chrono_timestamp, decimal, stamp_seconds};
use crate::vessel::{trust_vector_for, trusted_at, Vessel, VesselStatus, VesselView};

verus! {

/// The complete fleet manifest.
pub struct Manifest {
    pub version: String,
    pub last_updated: String,
    pub vessels: Vec<Vessel>,
}

/// The manifest format version that every manifest is stamped with.
pub open spec fn manifest_version() -> Seq<char> {
    "0.1.0"@
}

/// The vessels of `vessels` whose trust reaches `threshold`, in their order.
pub open spec fn trusted_vessels(vessels: Seq<Vessel>, threshold: u32) -> Seq<Vessel> {
    vessels.filter(|v: Vessel| trusted_at(v.trust, threshold))
}

/// The views of a sequence of vessels.
pub open spec fn vessel_views(vessels: Seq<Vessel>) -> Seq<VesselView> {
    vessels.map_values(|v: Vessel| v@)
}

/// Edges of the complete graph on `v` vessels (every pair connected), or 0
/// when there are fewer than two vessels.
pub open spec fn complete_edges(v: nat) -> nat {
    if v < 2 { 0 } else { (v * (v - 1) / 2) as nat }
}

/// Laman's edge count `2V - 3` for `v` vessels, or 0 when there are fewer
/// than two vessels.
pub open spec fn laman_edges(v: nat) -> nat {
    if v < 2 { 0 } else { (2 * v - 3) as nat }
}

/// `|edges / expected - 1| < 0.05` with `expected > 0`, written over the
/// integers: `20 * |edges - expected| < expected`.
pub open spec fn within_five_percent(edges: nat, expected: nat) -> bool {
    let diff: int = if edges >= expected { edges - expected } else { expected - edges };
    expected > 0 && 20 * diff < expected
}

/// What `lamant_rigid` reports for a fleet of `v` vessels.
pub open spec fn laman_report(v: nat) -> (bool, nat, nat) {
    (within_five_percent(complete_edges(v), laman_edges(v)), complete_edges(v), laman_edges(v))
}

/// The fleet as of the current inventory, in roster order.
pub open spec fn current_fleet_views() -> Seq<VesselView> {
    seq![
        VesselView {
            name: "oracle1"@,
            role: "Keeper/Primary — GLM-5.1, Oracle Cloud ARM64"@,
            trust: 10000,
            repo: Some("SuperInstance/oracle1-workspace"@),
            status: VesselStatus::Online,
            endpoint: Some("http://localhost:8900"@),
            trust_vector: trust_vector_for(10000) as u8,
        },
        VesselView {
            name: "fm"@,
            role: "Forgemaster — RTX 4050 GPU, Constraint Theory, LLVM"@,
            trust: 8500,
            repo: Some("SuperInstance/forgemaster"@),
            status: VesselStatus::Online,
            endpoint: None,
            trust_vector: trust_vector_for(8500) as u8,
        },
        VesselView {
            name: "jc1"@,
            role: "JetsonClaw1 — Edge Orin, HDC cognition, bottle-fleet-coordination"@,
            trust: 7500,
            repo: Some("SuperInstance/jetsonclaw1-vessel"@),
            status: VesselStatus::Offline,
            endpoint: Some("http://146.7.52.185:8847"@),
            trust_vector: trust_vector_for(7500) as u8,
        },
        VesselView {
            name: "ccc"@,
            role: "CCC — Kimi K2.5, research assistant, slide maker"@,
            trust: 7000,
            repo: Some("SuperInstance/cocapn"@),
            status: VesselStatus::Online,
            endpoint: None,
            trust_vector: trust_vector_for(7000) as u8,
        },
        VesselView {
            name: "test-probe"@,
            role: "Test Probe — integration testing"@,
            trust: 5000,
            repo: None,
            status: VesselStatus::Online,
            endpoint: None,
            trust_vector: trust_vector_for(5000) as u8,
        },
    ]
}

impl Manifest {
    /// An empty manifest stamped with the current time.
    pub fn new() -> (m: Manifest)
        ensures
            m.version@ == manifest_version(),
            m.vessels@.len() == 0,
            exists|elapsed: Option<u64>| m.last_updated@ == decimal(stamp_seconds(elapsed)),
    {
        Manifest {
            version: "0.1.0".to_string(),
            last_updated: chrono_timestamp(),
            vessels: Vec::new(),
        }
    }

    /// The fleet as of the current inventory, stamped with the current time.
    pub fn current_fleet() -> (m: Manifest)
        ensures
            m.version@ == manifest_version(),
            vessel_views(m.vessels@) == current_fleet_views(),
            m.vessels@.map_values(|v: Vessel| v.name@) == seq!["oracle1"@, "fm"@, "jc1"@, "ccc"@, "test-probe"@],
            m.vessels@.map_values(|v: Vessel| v.status) == seq![VesselStatus::Online, VesselStatus::Online, VesselStatus::Offline, VesselStatus::Online, VesselStatus::Online],
            m.vessels@.map_values(|v: Vessel| v.trust) == seq![10000u32, 8500, 7500, 7000, 5000],
            forall|i: int| 0 <= i < m.vessels@.len() ==> (#[trigger] m.vessels@[i]).wf(),
            exists|elapsed: Option<u64>| m.last_updated@ == decimal(stamp_seconds(elapsed)),
    {
        let v0 = Vessel::new("oracle1", "Keeper/Primary — GLM-5.1, Oracle Cloud ARM64", 10000)
            .with_repo("SuperInstance/oracle1-workspace")
            .with_status(VesselStatus::Online)
            .with_endpoint("http://localhost:8900");
        let v1 = Vessel::new("fm", "Forgemaster — RTX 4050 GPU, Constraint Theory, LLVM", 8500)
            .with_repo("SuperInstance/forgemaster")
            .with_status(VesselStatus::Online);
        let v2 = Vessel::new("jc1", "JetsonClaw1 — Edge Orin, HDC cognition, bottle-fleet-coordination", 7500)
            .with_repo("SuperInstance/jetsonclaw1-vessel")
            .with_status(VesselStatus::Offline)
            .with_endpoint("http://146.7.52.185:8847");
        let v3 = Vessel::new("ccc", "CCC — Kimi K2.5, research assistant, slide maker", 7000)
            .with_repo("SuperInstance/cocapn")
            .with_status(VesselStatus::Online);
        let v4 = Vessel::new("test-probe", "Test Probe — integration testing", 5000)
            .with_status(VesselStatus::Online);
        let vessels = vec![v0, v1, v2, v3, v4];
        assert(vessel_views(vessels@) =~= current_fleet_views());
        assert(vessels@.map_values(|v: Vessel| v.name@) =~= seq!["oracle1"@, "fm"@, "jc1"@, "ccc"@, "test-probe"@]);
        assert(vessels@.map_values(|v: Vessel| v.status) =~= seq![VesselStatus::Online, VesselStatus::Online, VesselStatus::Offline, VesselStatus::Online, VesselStatus::Online]);
        assert(vessels@.map_values(|v: Vessel| v.trust) =~= seq![10000u32, 8500, 7500, 7000, 5000]);
        Manifest { version: "0.1.0".to_string(), last_updated: chrono_timestamp(), vessels }
    }

    /// Number of vessels.
    pub fn size(&self) -> (n: usize)
        ensures
            n == self.vessels@.len(),
    {
        self.vessels.len()
    }

    /// The vessels whose trust reaches `threshold`, in manifest order.
    pub fn trusted(&self, threshold: u32) -> (res: Vec<&Vessel>)
        ensures
            res@.map_values(|r: &Vessel| *r) == trusted_vessels(self.vessels@, threshold),
            forall|i: int| 0 <= i < res@.len() ==> (#[trigger] res@[i]).trust >= threshold,
            forall|i: int|
                0 <= i < self.vessels@.len() && (#[trigger] self.vessels@[i]).trust >= threshold
                    ==> res@.map_values(|r: &Vessel| *r).contains(self.vessels@[i]),
    {
        let mut res: Vec<&Vessel> = Vec::new();
        let n = self.vessels.len();
        for i in 0..n
            invariant
                n == self.vessels@.len(),
                res@.map_values(|r: &Vessel| *r) == trusted_vessels(self.vessels@.take(i as int), threshold),
        {
            let ghost before = res@;
            proof {
                reveal_with_fuel(Seq::<_>::filter, 1);
                assert(self.vessels@.take(i + 1).drop_last() =~= self.vessels@.take(i as int));
            }
            let v = &self.vessels[i];
            if v.is_trusted(threshold) {
                res.push(v);
                assert(res@.map_values(|r: &Vessel| *r) =~= before.map_values(|r: &Vessel| *r).push(*v));
            }
        }
        assert(self.vessels@.take(n as int) =~= self.vessels@);
        proof {
            let kept = res@.map_values(|r: &Vessel| *r);
            assert forall|i: int| 0 <= i < res@.len() implies (#[trigger] res@[i]).trust >= threshold by {
                assert(kept[i] == *res@[i]);
                assert(kept.contains(*res@[i]));
                lemma_trusted_membership(self.vessels@, threshold, *res@[i]);
            }
            assert forall|i: int|
                0 <= i < self.vessels@.len() && (#[trigger] self.vessels@[i]).trust >= threshold implies kept.contains(
                    self.vessels@[i],
                ) by {
                lemma_trusted_membership(self.vessels@, threshold, self.vessels@[i]);
            }
        }
        res
    }
    /// Checks whether the fleet, taken as a complete graph, is Laman-rigid
    /// (E = 2V - 3). Returns `(is_rigid, edge_count, expected_edges)`; a fleet
    /// of fewer than two vessels has no edges, expects none and is not rigid.
    pub fn lamant_rigid(&self) -> (r: (bool, usize, usize))
        requires
            self.vessels@.len() * (self.vessels@.len() - 1) <= usize::MAX,
        ensures
            r.0 == laman_report(self.vessels@.len()).0,
            r.1 == laman_report(self.vessels@.len()).1,
            r.2 == laman_report(self.vessels@.len()).2,
            self.vessels@.len() < 2 ==> !r.0 && r.1 == 0 && r.2 == 0,
            self.vessels@.len() >= 2 ==> 2 * r.1 == self.vessels@.len() * (self.vessels@.len() - 1)
                && r.2 == 2 * self.vessels@.len() - 3,
            r.0 <==> (self.vessels@.len() == 2 || self.vessels@.len() == 3),
    {
        proof {
            lemma_laman_report_counts(self.vessels@.len());
            lemma_rigid_iff_laman_count(self.vessels@.len());
        }
        let v = self.vessels.len();
        if v < 2 {
            return (false, 0, 0);
        }
        assert(2 * v <= usize::MAX) by (nonlinear_arith)
            requires
                v >= 2,
                v * (v - 1) <= usize::MAX,
                usize::MAX >= 0xffff_ffff,
        ;
        let edges = v * (v - 1) / 2;
        let expected = 2 * v - 3;
        let diff = if edges >= expected {
            edges - expected
        } else {
            expected - edges
        };
        let is_rigid = (diff as u128) * 20 < expected as u128;
        (is_rigid, edges, expected)
    }
}

/// The roster of the current fleet: oracle1, fm, jc1, ccc and test-probe, in
/// that order, with trusts 1.00, 0.85, 0.75, 0.70 and 0.50; jc1 is the only
/// vessel offline, every other vessel is online, and only test-probe has no
/// repository.
pub proof fn lemma_current_fleet_roster()
    ensures
        current_fleet_views().len() == 5,
        current_fleet_views().map_values(|v: VesselView| v.name) == seq!["oracle1"@, "fm"@, "jc1"@, "ccc"@, "test-probe"@],
        current_fleet_views().map_values(|v: VesselView| v.status) == seq![VesselStatus::Online, VesselStatus::Online, VesselStatus::Offline, VesselStatus::Online, VesselStatus::Online],
        current_fleet_views().map_values(|v: VesselView| v.trust) == seq![10000u32, 8500, 7500, 7000, 5000],
        forall|i: int|
            0 <= i < current_fleet_views().len() ==> ((#[trigger] current_fleet_views()[i]).status
                == VesselStatus::Offline <==> current_fleet_views()[i].name == "jc1"@),
        forall|i: int|
            0 <= i < current_fleet_views().len() ==> ((#[trigger] current_fleet_views()[i]).repo is None
                <==> current_fleet_views()[i].name == "test-probe"@),
{
    reveal_strlit("oracle1");
    reveal_strlit("fm");
    reveal_strlit("jc1");
    reveal_strlit("ccc");
    reveal_strlit("test-probe");
    let f = current_fleet_views();
    assert(f.map_values(|v: VesselView| v.name) =~= seq!["oracle1"@, "fm"@, "jc1"@, "ccc"@, "test-probe"@]);
    assert(f.map_values(|v: VesselView| v.status) =~= seq![VesselStatus::Online, VesselStatus::Online, VesselStatus::Offline, VesselStatus::Online, VesselStatus::Online]);
    assert(f.map_values(|v: VesselView| v.trust) =~= seq![10000u32, 8500, 7500, 7000, 5000]);
    assert(f[0].name.len() != "jc1"@.len() || f[0].name[0] != "jc1"@[0]);
    assert(f[0].name.len() != "test-probe"@.len());
    assert(f[1].name.len() != "jc1"@.len() || f[1].name[0] != "jc1"@[0]);
    assert(f[1].name.len() != "test-probe"@.len());
    assert(f[2].name.len() != "test-probe"@.len());
    assert(f[3].name.len() != "jc1"@.len() || f[3].name[0] != "jc1"@[0]);
    assert(f[3].name.len() != "test-probe"@.len());
    assert(f[4].name.len() != "jc1"@.len() || f[4].name[0] != "jc1"@[0]);
    assert forall|i: int| 0 <= i < f.len() implies ((#[trigger] f[i]).status == VesselStatus::Offline
        <==> f[i].name == "jc1"@) && (f[i].repo is None <==> f[i].name == "test-probe"@) by {
        assert(i == 0 || i == 1 || i == 2 || i == 3 || i == 4);
    }
}

/// The counts the rigidity check reports for `v` vessels: with two or more,
/// the edges of the complete graph are its unordered pairs, `2E = V(V - 1)`,
/// and Laman's count is `2V - 3`; with fewer, nothing is counted and the fleet
/// is not rigid.
pub proof fn lemma_laman_report_counts(v: nat)
    ensures
        v < 2 ==> laman_report(v) == (false, 0nat, 0nat),
        v >= 2 ==> 2 * laman_report(v).1 == v * (v - 1) && laman_report(v).2 == 2 * v - 3,
{
    if v >= 2 {
        let k = v / 2;
        if v % 2 == 0 {
            assert(v * (v - 1) == 2 * (k * (2 * k - 1))) by (nonlinear_arith)
                requires
                    v == 2 * k,
            ;
        } else {
            assert(v * (v - 1) == 2 * (k * (2 * k + 1))) by (nonlinear_arith)
                requires
                    v == 2 * k + 1,
            ;
        }
    }
}

/// Laman's theorem as the fleet check applies it: a complete fleet passes the
/// five-percent rigidity test exactly when its edge count is `2V - 3` (with at
/// least two vessels), which happens only for two or three vessels.
pub proof fn lemma_rigid_iff_laman_count(v: nat)
    ensures
        laman_report(v).0 <==> (v >= 2 && complete_edges(v) == laman_edges(v)),
        laman_report(v).0 <==> (v == 2 || v == 3),
{
    if v >= 2 {
        let e = v * (v - 1) / 2;
        let k = v / 2;
        if v % 2 == 0 {
            let x = k * (2 * k - 1);
            assert(v * (v - 1) == 2 * x) by (nonlinear_arith)
                requires
                    v == 2 * k,
                    x == k * (2 * k - 1),
            ;
        } else {
            let x = k * (2 * k + 1);
            assert(v * (v - 1) == 2 * x) by (nonlinear_arith)
                requires
                    v == 2 * k + 1,
                    x == k * (2 * k + 1),
            ;
        }
        assert(v * (v - 1) == 2 * e);
        assert(2 * (e - (2 * v - 3)) == (v - 2) * (v - 3)) by (nonlinear_arith)
            requires
                v * (v - 1) == 2 * e,
        ;
        if v >= 4 {
            assert((v - 2) * (v - 3) >= v - 2) by (nonlinear_arith)
                requires
                    v >= 4,
            ;
        } else {
            assert(v == 2 || v == 3);
        }
    }
}

/// `trusted` answers by `is_trusted`: a vessel is among the trusted vessels
/// exactly when it is in the manifest and its trust reaches the threshold.
pub proof fn lemma_trusted_membership(vessels: Seq<Vessel>, threshold: u32, v: Vessel)
    ensures
        trusted_vessels(vessels, threshold).contains(v) <==> (vessels.contains(v) && v.trust
            >= threshold),
{
    let pred = |x: Vessel| trusted_at(x.trust, threshold);
    let out = vessels.filter(pred);
    if out.contains(v) {
        vessels.lemma_filter_contains_rev(pred, v);
        let j = choose|j: int| 0 <= j < out.len() && out[j] == v;
        vessels.lemma_filter_pred(pred, j);
    }
    if vessels.contains(v) && trusted_at(v.trust, threshold) {
        let i = choose|i: int| 0 <= i < vessels.len() && vessels[i] == v;
        vessels.lemma_filter_contains(pred, i);
    }
}

/// Every trust weight reaches a threshold of zero, so `trusted(0)` is the
/// whole fleet, in order.
pub proof fn lemma_trusted_at_zero_is_all(vessels: Seq<Vessel>)
    ensures
        trusted_vessels(vessels, 0) == vessels,
    decreases vessels.len(),
{
    reveal_with_fuel(Seq::<_>::filter, 1);
    if vessels.len() > 0 {
        lemma_trusted_at_zero_is_all(vessels.drop_last());
        assert(vessels.drop_last().push(vessels.last()) =~= vessels);
    }
}

/// Raising the threshold never admits a vessel: whatever is trusted at a
/// higher threshold is trusted at a lower one.
pub proof fn lemma_trusted_monotone(vessels: Seq<Vessel>, low: u32, high: u32, v: Vessel)
    requires
        low <= high,
        trusted_vessels(vessels, high).contains(v),
    ensures
        trusted_vessels(vessels, low).contains(v),
{
    lemma_trusted_membership(vessels, high, v);
    lemma_trusted_membership(vessels, low, v);
}

impl Default for Manifest {
    /// The same as [`Manifest::new`]: an empty manifest.
    fn default() -> (m: Manifest)
        ensures
            m.version@ == manifest_version(),
            m.vessels@.len() == 0,
            exists|elapsed: Option<u64>| m.last_updated@ == decimal(stamp_seconds(elapsed)),
    {
        Manifest::new()
    }
}

/// Raising the threshold only thins the trusted vessels out: what is trusted
/// at the higher threshold is what is trusted at the lower one, filtered again
/// at the higher one, in the same order; so it is never longer, and neither is
/// longer than the fleet.
pub proof fn lemma_trusted_thins_as_threshold_rises(vessels: Seq<Vessel>, low: u32, high: u32)
    requires
        low <= high,
    ensures
        trusted_vessels(vessels, high) == trusted_vessels(trusted_vessels(vessels, low), high),
        trusted_vessels(vessels, high).len() <= trusted_vessels(vessels, low).len(),
        trusted_vessels(vessels, low).len() <= vessels.len(),
    decreases vessels.len(),
{
    reveal_with_fuel(Seq::<_>::filter, 1);
    let low_pred = |v: Vessel| trusted_at(v.trust, low);
    let high_pred = |v: Vessel| trusted_at(v.trust, high);
    vessels.lemma_filter_len(low_pred);
    if vessels.len() > 0 {
        let rest = vessels.drop_last();
        let last = vessels.last();
        lemma_trusted_thins_as_threshold_rises(rest, low, high);
        let kept = trusted_vessels(rest, low);
        if trusted_at(last.trust, low) {
            assert(kept.push(last).drop_last() =~= kept);
            assert(trusted_vessels(vessels, low) == kept.push(last));
            assert(trusted_vessels(kept.push(last), high) == (if trusted_at(last.trust, high) {
                trusted_vessels(kept, high).push(last)
            } else {
                trusted_vessels(kept, high)
            }));
        }
    }
    trusted_vessels(vessels, low).lemma_filter_len(high_pred);
}

} // verus!
