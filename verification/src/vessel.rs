use vstd::prelude::*;

verus! {

/// Fixed-point scale of trust weights: a trust of `TRUST_SCALE` is full
/// trust (1.00), `TRUST_SCALE / 2` is 0.50, and so on.
pub const TRUST_SCALE: u32 = 10000;

/// Highest Pythagorean48 direction index (the codebook has 48 directions).
pub const MAX_TRUST_VECTOR: u8 = 47;

/// Current status of a vessel.
#[derive(Clone, Copy, Debug, PartialEq, Eq)]
pub enum VesselStatus {
    Online,
    Offline,
    Unknown,
}

/// One vessel in the fleet.
#[derive(Clone, Debug)]
pub struct Vessel {
    /// Unique vessel name (e.g., "oracle1", "fm", "jc1")
    pub name: String,
    /// Human-readable role description
    pub role: String,
    /// Trust weight in units of `1 / TRUST_SCALE` (so `TRUST_SCALE` is 1.00);
    /// used for task routing priority
    pub trust: u32,
    /// Repository (if applicable)
    pub repo: Option<String>,
    /// Current status
    pub status: VesselStatus,
    /// Communication endpoint (if known)
    pub endpoint: Option<String>,
    /// Pythagorean48 trust vector index (0-47): the trust weight mapped to
    /// a direction on the unit circle
    pub trust_vector: u8,
}

/// The mathematical value of a [`Vessel`]: its strings as character sequences.
pub struct VesselView {
    pub name: Seq<char>,
    pub role: Seq<char>,
    pub trust: u32,
    pub repo: Option<Seq<char>>,
    pub status: VesselStatus,
    pub endpoint: Option<Seq<char>>,
    pub trust_vector: u8,
}

/// The characters of an optional string.
pub open spec fn opt_string_view(s: Option<String>) -> Option<Seq<char>> {
    match s {
        Some(t) => Some(t@),
        None => None,
    }
}

impl View for Vessel {
    type V = VesselView;

    open spec fn view(&self) -> VesselView {
        VesselView {
            name: self.name@,
            role: self.role@,
            trust: self.trust,
            repo: opt_string_view(self.repo),
            status: self.status,
            endpoint: opt_string_view(self.endpoint),
            trust_vector: self.trust_vector,
        }
    }
}

/// The Pythagorean48 index of a trust weight: `floor(trust * 47)` with the
/// trust read as a fraction of `TRUST_SCALE`, clamped to 47.
pub open spec fn trust_vector_for(trust: nat) -> nat {
    let raw = trust * 47 / (TRUST_SCALE as nat);
    if raw < 47 { raw } else { 47 }
}

/// A vessel of the given trust counts as trusted at `threshold` when its
/// trust is at least the threshold.
pub open spec fn trusted_at(trust: u32, threshold: u32) -> bool {
    trust >= threshold
}

impl Vessel {
    /// A vessel's stored direction index is the one its trust maps to.
    pub open spec fn wf(&self) -> bool {
        self.trust_vector as nat == trust_vector_for(self.trust as nat)
    }

    /// Maps a trust weight to its Pythagorean48 direction index.
    pub fn trust_vector_of(trust: u32) -> (index: u8)
        ensures
            index as nat == trust_vector_for(trust as nat),
            index <= MAX_TRUST_VECTOR,
    {
        let raw: u64 = (trust as u64) * 47 / (TRUST_SCALE as u64);
        if raw < 47 {
            raw as u8
        } else {
            MAX_TRUST_VECTOR
        }
    }

    /// A new vessel with status `Unknown`, no repository and no endpoint.
    pub fn new(name: &str, role: &str, trust: u32) -> (v: Vessel)
        ensures
            v@ == (VesselView {
                name: name@,
                role: role@,
                trust,
                repo: None,
                status: VesselStatus::Unknown,
                endpoint: None,
                trust_vector: trust_vector_for(trust as nat) as u8,
            }),
            v.wf(),
    {
        let trust_vector = Self::trust_vector_of(trust);
        Vessel {
            name: name.to_string(),
            role: role.to_string(),
            trust,
            repo: None,
            status: VesselStatus::Unknown,
            endpoint: None,
            trust_vector,
        }
    }
    /// The same vessel with its repository set to `repo` (a later call wins).
    pub fn with_repo(self, repo: &str) -> (v: Vessel)
        ensures
            v@ == (VesselView { repo: Some(repo@), ..self@ }),
            self.wf() ==> v.wf(),
    {
        let mut v = self;
        v.repo = Some(repo.to_string());
        v
    }

    /// The same vessel with its status set to `status` (a later call wins).
    pub fn with_status(self, status: VesselStatus) -> (v: Vessel)
        ensures
            v@ == (VesselView { status, ..self@ }),
            self.wf() ==> v.wf(),
    {
        let mut v = self;
        v.status = status;
        v
    }

    /// The same vessel with its endpoint set to `endpoint` (a later call wins).
    pub fn with_endpoint(self, endpoint: &str) -> (v: Vessel)
        ensures
            v@ == (VesselView { endpoint: Some(endpoint@), ..self@ }),
            self.wf() ==> v.wf(),
    {
        let mut v = self;
        v.endpoint = Some(endpoint.to_string());
        v
    }

    /// Whether the vessel's trust reaches `threshold`.
    pub fn is_trusted(&self, threshold: u32) -> (b: bool)
        ensures
            b == trusted_at(self.trust, threshold),
            b <==> self.trust >= threshold,
    {
        self.trust >= threshold
    }
}

/// A vessel is trusted at a threshold exactly when its trust is at least the
/// threshold: nothing at or above it is refused, nothing below it admitted.
pub proof fn lemma_trusted_exactly_at_or_above(trust: u32, threshold: u32)
    ensures
        trust >= threshold ==> trusted_at(trust, threshold),
        trusted_at(trust, threshold) ==> trust >= threshold,
{
}

/// The trust-to-direction mapping: it stays within the 48 indices, grows with
/// trust, sends no trust to index 0 and full trust (or more) to index 47.
pub proof fn lemma_trust_vector_mapping(a: nat, b: nat)
    ensures
        trust_vector_for(a) <= 47,
        a <= b ==> trust_vector_for(a) <= trust_vector_for(b),
        trust_vector_for(0) == 0,
        a >= TRUST_SCALE ==> trust_vector_for(a) == 47,
{
    if a <= b {
        assert(a * 47 <= b * 47) by (nonlinear_arith)
            requires
                a <= b,
        ;
        assert(a * 47 / 10000 <= b * 47 / 10000) by (nonlinear_arith)
            requires
                a * 47 <= b * 47,
        ;
    }
    if a >= TRUST_SCALE {
        assert(a * 47 >= 470000) by (nonlinear_arith)
            requires
                a >= 10000,
        ;
    }
}

} // verus!
