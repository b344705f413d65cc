//! Resolution of the whole endpoint set: the service, then each
//! characteristic, each followed by its descriptor where it has one.

use crate::error::Error;
use crate::gatt::{find_characteristic, find_descriptor, find_service, Device, Endpoint};
use crate::protocol::Identifiers;
use crate::search::{lemma_only_match_is_found, only_at};
use crate::shutdown::ShutdownToken;
use vstd::prelude::*;

verus! {

/// The resolved endpoint set of a session. It is made once and never
/// resolved again.
#[derive(Clone, Copy, Debug, PartialEq, Eq, Structural)]
pub struct Endpoints {
    pub service: Endpoint,
    pub char0011: Endpoint,
    pub char0011_desc0013: Endpoint,
    /// The characteristic that the handshake is written to.
    pub char000f: Endpoint,
    /// The characteristic that notifies of input.
    pub char000c: Endpoint,
    pub char000c_desc000e: Endpoint,
}

/// The endpoint set that `device` offers for `ids`, or the identifier that
/// is missed first, in resolution order.
pub open spec fn resolved(ids: Identifiers, device: Device) -> Result<Endpoints, Error> {
    match device.service(ids.service) {
        None => Err(Error::NotFound(ids.service)),
        Some(service) => match service.characteristic(ids.char0011) {
            None => Err(Error::NotFound(ids.char0011)),
            Some(char0011) => match char0011.descriptor(ids.char0011_desc0013) {
                None => Err(Error::NotFound(ids.char0011_desc0013)),
                Some(desc0013) => match service.characteristic(ids.char000f) {
                    None => Err(Error::NotFound(ids.char000f)),
                    Some(char000f) => match service.characteristic(ids.char000c) {
                        None => Err(Error::NotFound(ids.char000c)),
                        Some(char000c) => match char000c.descriptor(ids.char000c_desc000e) {
                            None => Err(Error::NotFound(ids.char000c_desc000e)),
                            Some(desc000e) => Ok(
                                Endpoints {
                                    service: service.endpoint(),
                                    char0011: char0011.endpoint(),
                                    char0011_desc0013: desc0013.endpoint(),
                                    char000f: char000f.endpoint(),
                                    char000c: char000c.endpoint(),
                                    char000c_desc000e: desc000e.endpoint(),
                                },
                            ),
                        },
                    },
                },
            },
        },
    }
}

/// What resolution gives when it is raced against a token in the given
/// state: a fired token wins over every lookup.
pub open spec fn resolved_unless(fired: bool, ids: Identifiers, device: Device) -> Result<
    Endpoints,
    Error,
> {
    if fired {
        Err(Error::ShutdownRequested)
    } else {
        resolved(ids, device)
    }
}

/// Resolves the endpoint set in `device`, each lookup raced against
/// `shutdown`.
///
/// With a fired token the result is `ShutdownRequested`, whatever the device
/// holds. Otherwise it is the endpoint set, or `NotFound` with the first
/// identifier, in resolution order, that no child of its parent carries.
pub fn resolve(device: &Device, ids: &Identifiers, shutdown: &ShutdownToken) -> (found: Result<
    Endpoints,
    Error,
>)
    ensures
        found == resolved_unless(shutdown@, *ids, *device),
{
    let service = shutdown.race(find_service(device, ids.service)).into_result()??;
    let char0011 = shutdown.race(find_characteristic(service, ids.char0011)).into_result()??;
    let desc0013 = shutdown.race(
        find_descriptor(char0011, ids.char0011_desc0013),
    ).into_result()??;
    let char000f = shutdown.race(find_characteristic(service, ids.char000f)).into_result()??;
    let char000c = shutdown.race(find_characteristic(service, ids.char000c)).into_result()??;
    let desc000e = shutdown.race(
        find_descriptor(char000c, ids.char000c_desc000e),
    ).into_result()??;
    Ok(
        Endpoints {
            service: Endpoint { id: service.id, uuid: service.uuid },
            char0011: Endpoint { id: char0011.id, uuid: char0011.uuid },
            char0011_desc0013: Endpoint { id: desc0013.id, uuid: desc0013.uuid },
            char000f: Endpoint { id: char000f.id, uuid: char000f.uuid },
            char000c: Endpoint { id: char000c.id, uuid: char000c.uuid },
            char000c_desc000e: Endpoint { id: desc000e.id, uuid: desc000e.uuid },
        },
    )
}

/// A device on which each of the six identifiers is carried by exactly one
/// child of its parent resolves to those children, wherever they stand in
/// their enumerations.
pub proof fn lemma_resolves_wherever_enumerated(
    ids: Identifiers,
    device: Device,
    s: int,
    c11: int,
    d13: int,
    cf: int,
    cc: int,
    de: int,
)
    requires
        only_at(device.uuids(), ids.service, s),
        only_at(device.services@[s].uuids(), ids.char0011, c11),
        only_at(device.services@[s].uuids(), ids.char000f, cf),
        only_at(device.services@[s].uuids(), ids.char000c, cc),
        only_at(
            device.services@[s].characteristics@[c11].uuids(),
            ids.char0011_desc0013,
            d13,
        ),
        only_at(device.services@[s].characteristics@[cc].uuids(), ids.char000c_desc000e, de),
    ensures
        resolved(ids, device) == Ok::<Endpoints, Error>(
            Endpoints {
                service: device.services@[s].endpoint(),
                char0011: device.services@[s].characteristics@[c11].endpoint(),
                char0011_desc0013: device.services@[s].characteristics@[c11].descriptors@[d13].endpoint(),
                char000f: device.services@[s].characteristics@[cf].endpoint(),
                char000c: device.services@[s].characteristics@[cc].endpoint(),
                char000c_desc000e: device.services@[s].characteristics@[cc].descriptors@[de].endpoint(),
            },
        ),
{
    let service = device.services@[s];
    lemma_only_match_is_found(device.uuids(), ids.service, s);
    lemma_only_match_is_found(service.uuids(), ids.char0011, c11);
    lemma_only_match_is_found(service.uuids(), ids.char000f, cf);
    lemma_only_match_is_found(service.uuids(), ids.char000c, cc);
    lemma_only_match_is_found(service.characteristics@[c11].uuids(), ids.char0011_desc0013, d13);
    lemma_only_match_is_found(service.characteristics@[cc].uuids(), ids.char000c_desc000e, de);
}

} // verus!
