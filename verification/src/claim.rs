//! The registry of plane claims of one device.
//!
//! A plane serves at most one CRTC at a time. Every surface of a device
//! claims the planes it uses in the registry that the device's surfaces share.

use vstd::prelude::*;
use std::collections::HashMap;

verus! {

/// The holder of a plane: a CRTC and the number of its claims that are out.
#[derive(Clone, Copy, Debug, PartialEq, Eq, Structural)]
pub struct ClaimEntry {
    pub crtc: u32,
    pub count: usize,
}

/// The registry after the CRTC `crtc` claims `plane`, or nothing where the
/// claim is refused.
///
/// A plane that nobody holds goes to the claimant with one claim. A plane
/// that the claimant holds gets one claim more, as long as the count can
/// grow. A plane that another CRTC holds is refused.
pub open spec fn spec_claim(m: Map<u32, ClaimEntry>, plane: u32, crtc: u32) -> Option<
    Map<u32, ClaimEntry>,
> {
    if !m.contains_key(plane) {
        Some(m.insert(plane, ClaimEntry { crtc, count: 1 }))
    } else if m[plane].crtc == crtc && m[plane].count < usize::MAX {
        Some(m.insert(plane, ClaimEntry { crtc, count: (m[plane].count + 1) as usize }))
    } else {
        None
    }
}

/// The registry after one claim of `crtc` on `plane` is given back.
///
/// The count drops by one, and the entry goes with the last claim. A claim
/// that the registry does not know changes nothing.
pub open spec fn spec_release(m: Map<u32, ClaimEntry>, plane: u32, crtc: u32) -> Map<
    u32,
    ClaimEntry,
> {
    if m.contains_key(plane) && m[plane].crtc == crtc {
        if m[plane].count > 1 {
            m.insert(plane, ClaimEntry { crtc, count: (m[plane].count - 1) as usize })
        } else {
            m.remove(plane)
        }
    } else {
        m
    }
}

/// The registry after `n` claims of `crtc` on `plane` are given back.
pub open spec fn spec_release_times(m: Map<u32, ClaimEntry>, plane: u32, crtc: u32, n: nat) -> Map<
    u32,
    ClaimEntry,
>
    decreases n,
{
    if n == 0 {
        m
    } else {
        spec_release_times(spec_release(m, plane, crtc), plane, crtc, (n - 1) as nat)
    }
}

/// Whether every entry of the registry stands for at least one claim.
pub open spec fn claims_wf(m: Map<u32, ClaimEntry>) -> bool {
    forall|p: u32| m.contains_key(p) ==> #[trigger] m[p].count >= 1
}

/// A claim and a release keep every entry at one claim or more.
pub proof fn lemma_claims_stay_wf(m: Map<u32, ClaimEntry>, plane: u32, crtc: u32)
    requires
        claims_wf(m),
    ensures
        spec_claim(m, plane, crtc) matches Some(after) ==> claims_wf(after),
        claims_wf(spec_release(m, plane, crtc)),
{
    if let Some(after) = spec_claim(m, plane, crtc) {
        assert forall|p: u32| after.contains_key(p) implies #[trigger] after[p].count >= 1 by {
            if p != plane {
                assert(m.contains_key(p));
            }
        }
    }
    let released = spec_release(m, plane, crtc);
    assert forall|p: u32| released.contains_key(p) implies #[trigger] released[p].count >= 1 by {
        if p != plane {
            assert(m.contains_key(p));
        }
    }
}

/// Plane exclusivity: once a CRTC has claimed a plane, the claim of any
/// other CRTC on that plane is refused.
pub proof fn lemma_claim_excludes_others(m: Map<u32, ClaimEntry>, plane: u32, a: u32, b: u32)
    requires
        a != b,
        spec_claim(m, plane, a) is Some,
    ensures
        spec_claim(spec_claim(m, plane, a)->0, plane, b) is None,
{
}

/// Plane exclusivity lasts exactly as long as a claim is out: while the
/// CRTC `a` holds a plane, the claim of another CRTC `b` is refused after
/// fewer claims were given back than `a` holds, and granted after all of
/// them were.
pub proof fn lemma_exclusive_until_released(
    m: Map<u32, ClaimEntry>,
    plane: u32,
    a: u32,
    b: u32,
    released: nat,
)
    requires
        claims_wf(m),
        m.contains_key(plane),
        m[plane].crtc == a,
        a != b,
        released <= m[plane].count,
    ensures
        released < m[plane].count ==> spec_claim(
            spec_release_times(m, plane, a, released),
            plane,
            b,
        ) is None,
        released == m[plane].count ==> spec_claim(
            spec_release_times(m, plane, a, released),
            plane,
            b,
        ) is Some,
    decreases released,
{
    if released > 0 {
        let next = spec_release(m, plane, a);
        lemma_claims_stay_wf(m, plane, a);
        if m[plane].count > 1 {
            assert(next.contains_key(plane));
            assert(next[plane].count == m[plane].count - 1);
            lemma_exclusive_until_released(next, plane, a, b, (released - 1) as nat);
        } else {
            assert(released == 1);
            assert(!next.contains_key(plane));
            assert(spec_release_times(next, plane, a, 0) == next);
        }
    }
}

/// A plane stays with its holder whatever else happens in the registry:
/// no claim, and no release but that of a claim of the holder on this plane,
/// takes it away.
pub proof fn lemma_holder_stays(
    m: Map<u32, ClaimEntry>,
    plane: u32,
    holder: u32,
    other_plane: u32,
    other_crtc: u32,
)
    requires
        m.contains_key(plane),
        m[plane].crtc == holder,
    ensures
        spec_claim(m, other_plane, other_crtc) matches Some(after) ==> after.contains_key(plane)
            && after[plane].crtc == holder,
        other_plane != plane || other_crtc != holder ==> spec_release(
            m,
            other_plane,
            other_crtc,
        ).contains_key(plane) && spec_release(m, other_plane, other_crtc)[plane] == m[plane],
{
}

/// The right to use a plane for a CRTC, handed out by a
/// [`PlaneClaimStorage`] and to be given back to it.
#[derive(Debug, PartialEq, Eq)]
pub struct PlaneClaim {
    plane: u32,
    crtc: u32,
}

impl PlaneClaim {
    /// The plane that is claimed.
    pub closed spec fn spec_plane(&self) -> u32 {
        self.plane
    }

    /// The CRTC that holds the claim.
    pub closed spec fn spec_crtc(&self) -> u32 {
        self.crtc
    }

    /// The plane that is claimed.
    #[verifier::when_used_as_spec(spec_plane)]
    pub fn plane(&self) -> (p: u32)
        ensures
            p == self.spec_plane(),
    {
        self.plane
    }

    /// The CRTC that holds the claim.
    #[verifier::when_used_as_spec(spec_crtc)]
    pub fn crtc(&self) -> (c: u32)
        ensures
            c == self.spec_crtc(),
    {
        self.crtc
    }
}

/// The registry of plane claims of one device: for each claimed plane the
/// CRTC that holds it and the number of its claims.
#[derive(Debug)]
pub struct PlaneClaimStorage {
    claims: HashMap<u32, ClaimEntry>,
}

impl View for PlaneClaimStorage {
    type V = Map<u32, ClaimEntry>;

    closed spec fn view(&self) -> Map<u32, ClaimEntry> {
        self.claims@
    }
}

impl PlaneClaimStorage {
    /// The representation invariant: every entry stands for a claim.
    pub open spec fn wf(&self) -> bool {
        claims_wf(self@)
    }

    /// The registry without any claim.
    pub fn new() -> (s: PlaneClaimStorage)
        ensures
            s.wf(),
            s@ == Map::<u32, ClaimEntry>::empty(),
    {
        PlaneClaimStorage { claims: HashMap::new() }
    }

    /// The CRTC that holds `plane`, if one does.
    pub fn holder(&self, plane: u32) -> (crtc: Option<u32>)
        ensures
            crtc == if self@.contains_key(plane) {
                Some(self@[plane].crtc)
            } else {
                None
            },
    {
        broadcast use vstd::std_specs::hash::group_hash_axioms;

        match self.claims.get(&plane) {
            Some(entry) => Some(entry.crtc),
            None => None,
        }
    }

    /// Claims `plane` for `crtc`. The claim is granted unless another CRTC
    /// holds the plane, or the count of the claims cannot grow.
    pub fn claim(&mut self, plane: u32, crtc: u32) -> (token: Option<PlaneClaim>)
        requires
            old(self).wf(),
        ensures
            final(self).wf(),
            match spec_claim(old(self)@, plane, crtc) {
                Some(after) => final(self)@ == after && token is Some && token->0.spec_plane()
                    == plane && token->0.spec_crtc() == crtc,
                None => final(self)@ == old(self)@ && token is None,
            },
    {
        broadcast use vstd::std_specs::hash::group_hash_axioms;

        proof {
            lemma_claims_stay_wf(self@, plane, crtc);
        }
        let held: Option<ClaimEntry> = match self.claims.get(&plane) {
            Some(entry) => Some(*entry),
            None => None,
        };
        match held {
            None => {
                let _ = self.claims.insert(plane, ClaimEntry { crtc, count: 1 });
                Some(PlaneClaim { plane, crtc })
            },
            Some(entry) => {
                if entry.crtc == crtc && entry.count < usize::MAX {
                    let _ = self.claims.insert(plane, ClaimEntry { crtc, count: entry.count + 1 });
                    Some(PlaneClaim { plane, crtc })
                } else {
                    None
                }
            },
        }
    }

    /// Gives a claim back. The plane is free again after the last claim on
    /// it is given back.
    pub fn release(&mut self, token: PlaneClaim)
        requires
            old(self).wf(),
        ensures
            final(self).wf(),
            final(self)@ == spec_release(old(self)@, token.spec_plane(), token.spec_crtc()),
    {
        broadcast use vstd::std_specs::hash::group_hash_axioms;

        proof {
            lemma_claims_stay_wf(self@, token.plane, token.crtc);
        }
        let held: Option<ClaimEntry> = match self.claims.get(&token.plane) {
            Some(entry) => Some(*entry),
            None => None,
        };
        match held {
            Some(entry) => {
                if entry.crtc == token.crtc {
                    if entry.count > 1 {
                        let _ = self.claims.insert(
                            token.plane,
                            ClaimEntry { crtc: entry.crtc, count: entry.count - 1 },
                        );
                    } else {
                        let _ = self.claims.remove(&token.plane);
                    }
                }
            },
            None => {},
        }
    }
}

} // verus!
