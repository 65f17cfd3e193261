//! Choosing, among the peripherals that a scan reported, the ones to connect to.
use vstd::prelude::*;
use crate::profile::SensorProfile;
use crate::text::{contains, contains_text};

verus! {

/// A peripheral as reported by a scan.
#[derive(Debug)]
pub struct Advertisement {
    /// The advertised local name, if any.
    pub local_name: Option<String>,
    /// UUIDs of the services listed in the advertisement.
    pub services: Vec<u128>,
    /// Whether the peripheral is already connected.
    pub connected: bool,
}

/// Whether the advertised peripheral `a` is one to connect to: it is not
/// connected yet, and it lists the profile's service or its local name
/// contains the profile's name prefix.
pub open spec fn is_candidate(a: Advertisement, profile: SensorProfile) -> bool {
    &&& !a.connected
    &&& (a.services@.contains(profile.service) || (a.local_name matches Some(name)
        && contains_text(name@, profile.name_prefix@)))
}

/// `q` lists, in increasing order, exactly the indices of `ads` that hold a
/// candidate.
pub open spec fn is_candidate_list(
    q: Seq<usize>,
    ads: Seq<Advertisement>,
    profile: SensorProfile,
) -> bool {
    &&& forall|k: int| 0 <= k < q.len() ==> q[k] < ads.len() && is_candidate(ads[q[k] as int], profile)
    &&& forall|k: int, l: int| 0 <= k < l < q.len() ==> q[k] < q[l]
    &&& forall|i: int| 0 <= i < ads.len() && is_candidate(ads[i], profile) ==> q.contains(i as usize)
}

/// Whether `a` is a peripheral to connect to under `profile`.
pub fn candidate(a: &Advertisement, profile: &SensorProfile) -> (r: bool)
    ensures
        r == is_candidate(*a, *profile),
{
    if a.connected {
        return false;
    }
    let mut k: usize = 0;
    while k < a.services.len()
        invariant
            !a.connected,
            forall|m: int| 0 <= m < k ==> a.services@[m] != profile.service,
        decreases a.services@.len() - k,
    {
        if a.services[k] == profile.service {
            assert(a.services@.contains(profile.service));
            return true;
        }
        k += 1;
    }
    match &a.local_name {
        Some(name) => contains(name.as_str(), profile.name_prefix.as_str()),
        None => false,
    }
}

/// The indices, in scan order, of the reported peripherals to connect to.
pub fn select_candidates(ads: &Vec<Advertisement>, profile: &SensorProfile) -> (r: Vec<usize>)
    ensures
        is_candidate_list(r@, ads@, *profile),
{
    let mut r: Vec<usize> = Vec::new();
    let mut i: usize = 0;
    while i < ads.len()
        invariant
            i <= ads@.len(),
            forall|k: int| 0 <= k < r@.len() ==> r@[k] < i && is_candidate(ads@[r@[k] as int], *profile),
            forall|k: int, l: int| 0 <= k < l < r@.len() ==> r@[k] < r@[l],
            forall|m: int| 0 <= m < i && is_candidate(ads@[m], *profile) ==> r@.contains(m as usize),
        decreases ads@.len() - i,
    {
        if candidate(&ads[i], profile) {
            let ghost before = r@;
            r.push(i);
            assert forall|m: int| 0 <= m < i && is_candidate(ads@[m], *profile) implies r@.contains(
                m as usize,
            ) by {
                let w = choose|w: int| 0 <= w < before.len() && before[w] == m as usize;
                assert(r@[w] == m as usize);
            }
            assert(r@[r@.len() - 1] == i);
        }
        i += 1;
    }
    r
}

} // verus!
