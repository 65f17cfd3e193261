//! Finding the measurement characteristic in a device's discovered GATT tree.
use vstd::prelude::*;

verus! {

/// A characteristic as discovered on a connected device.
#[derive(Clone, Copy, Debug, PartialEq, Eq, Structural)]
pub struct GattCharacteristic {
    /// The characteristic's 128-bit UUID.
    pub uuid: u128,
    /// Whether the characteristic supports reads.
    pub readable: bool,
}

/// A service as discovered on a connected device, with its characteristics
/// in discovery order.
#[derive(Debug)]
pub struct GattService {
    /// The service's 128-bit UUID.
    pub uuid: u128,
    pub characteristics: Vec<GattCharacteristic>,
}

/// What the search did not find.
#[derive(Clone, Copy, Debug, PartialEq, Eq, Structural)]
pub enum NotFoundError {
    /// No service has the target UUID.
    Service,
    /// The first service with the target UUID has no readable characteristic
    /// with the target UUID.
    Characteristic,
}

/// Whether `c` is the readable characteristic `target`.
pub open spec fn is_wanted(c: GattCharacteristic, target: u128) -> bool {
    c.uuid == target && c.readable
}

/// `i` is the first index of `services` whose UUID is `target`.
pub open spec fn is_first_service(services: Seq<GattService>, target: u128, i: int) -> bool {
    &&& 0 <= i < services.len()
    &&& services[i].uuid == target
    &&& forall|k: int| 0 <= k < i ==> services[k].uuid != target
}

/// `j` is the first index of `chars` that holds the readable characteristic
/// `target`.
pub open spec fn is_first_wanted(chars: Seq<GattCharacteristic>, target: u128, j: int) -> bool {
    &&& 0 <= j < chars.len()
    &&& is_wanted(chars[j], target)
    &&& forall|k: int| 0 <= k < j ==> !is_wanted(chars[k], target)
}

/// `r` is the outcome of looking up the readable characteristic `tc` inside
/// the first service `ts` of `services`: exactly one `r` meets this.
pub open spec fn locate_result(
    services: Seq<GattService>,
    ts: u128,
    tc: u128,
    r: Result<(usize, usize), NotFoundError>,
) -> bool {
    match r {
        Ok((i, j)) => is_first_service(services, ts, i as int) && is_first_wanted(
            services[i as int].characteristics@,
            tc,
            j as int,
        ),
        Err(NotFoundError::Service) => forall|k: int| 0 <= k < services.len() ==> services[k].uuid != ts,
        Err(NotFoundError::Characteristic) => exists|i: int|
            is_first_service(services, ts, i) && forall|k: int|
                0 <= k < services[i].characteristics@.len() ==> !is_wanted(
                    #[trigger] services[i].characteristics@[k],
                    tc,
                ),
    }
}

/// The outcome of a lookup is determined by the services and the two UUIDs.
pub proof fn lemma_locate_result_unique(
    services: Seq<GattService>,
    ts: u128,
    tc: u128,
    r1: Result<(usize, usize), NotFoundError>,
    r2: Result<(usize, usize), NotFoundError>,
)
    requires
        locate_result(services, ts, tc, r1),
        locate_result(services, ts, tc, r2),
    ensures
        r1 == r2,
{
    match (r1, r2) {
        (Ok((i1, j1)), Ok((i2, j2))) => {
            assert(i1 == i2) by {
                if i1 < i2 {
                    assert(services[i1 as int].uuid != ts);
                } else if i2 < i1 {
                    assert(services[i2 as int].uuid != ts);
                }
            }
            let chars = services[i1 as int].characteristics@;
            assert(j1 == j2) by {
                if j1 < j2 {
                    assert(!is_wanted(chars[j1 as int], tc));
                } else if j2 < j1 {
                    assert(!is_wanted(chars[j2 as int], tc));
                }
            }
        },
        (Ok((i1, j1)), Err(NotFoundError::Characteristic)) => {
            let i = choose|i: int|
                is_first_service(services, ts, i) && forall|k: int|
                    0 <= k < services[i].characteristics@.len() ==> !is_wanted(
                        #[trigger] services[i].characteristics@[k],
                        tc,
                    );
            assert(i == i1) by {
                if i < i1 {
                    assert(services[i].uuid != ts);
                } else if i1 < i {
                    assert(services[i1 as int].uuid != ts);
                }
            }
            assert(!is_wanted(services[i].characteristics@[j1 as int], tc));
        },
        (Err(NotFoundError::Characteristic), Ok((i2, j2))) => {
            let i = choose|i: int|
                is_first_service(services, ts, i) && forall|k: int|
                    0 <= k < services[i].characteristics@.len() ==> !is_wanted(
                        #[trigger] services[i].characteristics@[k],
                        tc,
                    );
            assert(i == i2) by {
                if i < i2 {
                    assert(services[i].uuid != ts);
                } else if i2 < i {
                    assert(services[i2 as int].uuid != ts);
                }
            }
            assert(!is_wanted(services[i].characteristics@[j2 as int], tc));
        },
        (Ok((i1, _)), Err(NotFoundError::Service)) => {
            assert(services[i1 as int].uuid != ts);
        },
        (Err(NotFoundError::Service), Ok((i2, _))) => {
            assert(services[i2 as int].uuid != ts);
        },
        _ => {},
    }
}

/// Looks up the readable characteristic `target_characteristic` inside the
/// first service `target_service`, both in discovery order. On success the
/// result holds the service's index and the characteristic's index within it.
pub fn locate(services: &Vec<GattService>, target_service: u128, target_characteristic: u128) -> (r:
    Result<(usize, usize), NotFoundError>)
    ensures
        locate_result(services@, target_service, target_characteristic, r),
{
    let mut i: usize = 0;
    while i < services.len()
        invariant
            i <= services@.len(),
            forall|k: int| 0 <= k < i ==> services@[k].uuid != target_service,
        decreases services@.len() - i,
    {
        if services[i].uuid == target_service {
            let chars = &services[i].characteristics;
            let mut j: usize = 0;
            while j < chars.len()
                invariant
                    i < services@.len(),
                    services@[i as int].uuid == target_service,
                    forall|k: int| 0 <= k < i ==> services@[k].uuid != target_service,
                    chars == &services@[i as int].characteristics,
                    j <= chars@.len(),
                    forall|k: int| 0 <= k < j ==> !is_wanted(chars@[k], target_characteristic),
                decreases chars@.len() - j,
            {
                if chars[j].uuid == target_characteristic && chars[j].readable {
                    return Ok((i, j));
                }
                j += 1;
            }
            assert(is_first_service(services@, target_service, i as int));
            return Err(NotFoundError::Characteristic);
        }
        i += 1;
    }
    Err(NotFoundError::Service)
}

} // verus!
