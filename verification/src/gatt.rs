//! A picture of the GATT tree of a connected device, and the resolver that
//! finds endpoints in it by identifier.
//!
//! The transport lists the children of the device, of each service and of
//! each characteristic once, in the order in which it enumerates them, and
//! records for each the number it is known by and its 128-bit identifier.

use crate::error::Error;
use crate::search::{lemma_first_match, lemma_no_match};
use vstd::prelude::*;

verus! {

/// A descriptor of a characteristic.
#[derive(Clone, Debug, PartialEq, Eq)]
pub struct Descriptor {
    /// The number by which the transport knows the descriptor.
    pub id: u16,
    /// The identifier of the descriptor.
    pub uuid: u128,
}

/// A characteristic of a service, with its descriptors in enumeration order.
#[derive(Clone, Debug, PartialEq, Eq)]
pub struct Characteristic {
    /// The number by which the transport knows the characteristic.
    pub id: u16,
    /// The identifier of the characteristic.
    pub uuid: u128,
    pub descriptors: Vec<Descriptor>,
}

/// A service of a device, with its characteristics in enumeration order.
#[derive(Clone, Debug, PartialEq, Eq)]
pub struct Service {
    /// The number by which the transport knows the service.
    pub id: u16,
    /// The identifier of the service.
    pub uuid: u128,
    pub characteristics: Vec<Characteristic>,
}

/// A connected device, with its services in enumeration order.
#[derive(Clone, Debug, PartialEq, Eq)]
pub struct Device {
    pub services: Vec<Service>,
}

/// A resolved endpoint: what is kept of a service, characteristic or
/// descriptor once it has been found.
#[derive(Clone, Copy, Debug, PartialEq, Eq, Structural)]
pub struct Endpoint {
    /// The number by which the transport knows the endpoint.
    pub id: u16,
    /// The identifier under which the endpoint was found.
    pub uuid: u128,
}

impl Descriptor {
    pub open spec fn endpoint(&self) -> Endpoint {
        Endpoint { id: self.id, uuid: self.uuid }
    }
}

impl Characteristic {
    /// The identifiers of the descriptors, in enumeration order.
    pub open spec fn uuids(&self) -> Seq<u128> {
        Seq::new(self.descriptors@.len(), |i: int| self.descriptors@[i].uuid)
    }

    pub open spec fn endpoint(&self) -> Endpoint {
        Endpoint { id: self.id, uuid: self.uuid }
    }

    /// The first descriptor that carries `uuid`, if there is one.
    pub open spec fn descriptor(&self, uuid: u128) -> Option<Descriptor> {
        match self.uuids().index_of_first(uuid) {
            Some(i) => Some(self.descriptors@[i]),
            None => None,
        }
    }
}

impl Service {
    /// The identifiers of the characteristics, in enumeration order.
    pub open spec fn uuids(&self) -> Seq<u128> {
        Seq::new(self.characteristics@.len(), |i: int| self.characteristics@[i].uuid)
    }

    pub open spec fn endpoint(&self) -> Endpoint {
        Endpoint { id: self.id, uuid: self.uuid }
    }

    /// The first characteristic that carries `uuid`, if there is one.
    pub open spec fn characteristic(&self, uuid: u128) -> Option<Characteristic> {
        match self.uuids().index_of_first(uuid) {
            Some(i) => Some(self.characteristics@[i]),
            None => None,
        }
    }
}

impl Device {
    /// The identifiers of the services, in enumeration order.
    pub open spec fn uuids(&self) -> Seq<u128> {
        Seq::new(self.services@.len(), |i: int| self.services@[i].uuid)
    }

    /// The first service that carries `uuid`, if there is one.
    pub open spec fn service(&self, uuid: u128) -> Option<Service> {
        match self.uuids().index_of_first(uuid) {
            Some(i) => Some(self.services@[i]),
            None => None,
        }
    }
}

/// Finds the service of `device` that carries `uuid`: the first one in
/// enumeration order. Fails with `NotFound(uuid)` exactly when no service
/// carries it.
pub fn find_service(device: &Device, uuid: u128) -> (found: Result<&Service, Error>)
    ensures
        match found {
            Ok(service) => device.service(uuid) == Some(*service),
            Err(e) => device.service(uuid) is None && e == Error::NotFound(uuid),
        },
{
    let mut i: usize = 0;
    while i < device.services.len()
        invariant
            i <= device.services@.len(),
            forall|j: int| 0 <= j < i ==> device.uuids()[j] != uuid,
        decreases device.services@.len() - i,
    {
        if device.services[i].uuid == uuid {
            proof {
                lemma_first_match(device.uuids(), uuid, i as int);
            }
            return Ok(&device.services[i]);
        }
        i += 1;
    }
    proof {
        lemma_no_match(device.uuids(), uuid);
    }
    Err(Error::NotFound(uuid))
}

/// Finds the characteristic of `service` that carries `uuid`: the first one
/// in enumeration order. Fails with `NotFound(uuid)` exactly when no
/// characteristic carries it.
pub fn find_characteristic(service: &Service, uuid: u128) -> (found: Result<
    &Characteristic,
    Error,
>)
    ensures
        match found {
            Ok(characteristic) => service.characteristic(uuid) == Some(*characteristic),
            Err(e) => service.characteristic(uuid) is None && e == Error::NotFound(uuid),
        },
{
    let mut i: usize = 0;
    while i < service.characteristics.len()
        invariant
            i <= service.characteristics@.len(),
            forall|j: int| 0 <= j < i ==> service.uuids()[j] != uuid,
        decreases service.characteristics@.len() - i,
    {
        if service.characteristics[i].uuid == uuid {
            proof {
                lemma_first_match(service.uuids(), uuid, i as int);
            }
            return Ok(&service.characteristics[i]);
        }
        i += 1;
    }
    proof {
        lemma_no_match(service.uuids(), uuid);
    }
    Err(Error::NotFound(uuid))
}

/// Finds the descriptor of `characteristic` that carries `uuid`: the first
/// one in enumeration order. Fails with `NotFound(uuid)` exactly when no
/// descriptor carries it.
pub fn find_descriptor(characteristic: &Characteristic, uuid: u128) -> (found: Result<
    &Descriptor,
    Error,
>)
    ensures
        match found {
            Ok(descriptor) => characteristic.descriptor(uuid) == Some(*descriptor),
            Err(e) => characteristic.descriptor(uuid) is None && e == Error::NotFound(uuid),
        },
{
    let mut i: usize = 0;
    while i < characteristic.descriptors.len()
        invariant
            i <= characteristic.descriptors@.len(),
            forall|j: int| 0 <= j < i ==> characteristic.uuids()[j] != uuid,
        decreases characteristic.descriptors@.len() - i,
    {
        if characteristic.descriptors[i].uuid == uuid {
            proof {
                lemma_first_match(characteristic.uuids(), uuid, i as int);
            }
            return Ok(&characteristic.descriptors[i]);
        }
        i += 1;
    }
    proof {
        lemma_no_match(characteristic.uuids(), uuid);
    }
    Err(Error::NotFound(uuid))
}

} // verus!
