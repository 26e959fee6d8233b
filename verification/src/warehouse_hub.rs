use vstd::prelude::*;

use crate::location::Location;
use crate::platform::{new_id, now_micros, uuid_version};

verus! {

/// A cross-dock hub holding parcels between legs.
#[derive(Debug, Clone)]
pub struct WarehouseHub {
    pub id: u128,
    /// e.g. "HUB-IST-01".
    pub hub_code: String,
    pub hub_name: String,
    pub location: Location,
    pub capacity_parcels: u32,
    pub active_parcels: u32,
}

/// A batch of orders handed from a hub to a courier.
#[derive(Debug, Clone)]
pub struct HubManifestAssignment {
    pub id: u128,
    pub hub_id: u128,
    pub courier_id: u128,
    pub order_ids: Vec<u128>,
    pub created_at: i64,
}

/// `Err` carrying the text `m`.
pub open spec fn fails_with_text<T>(r: Result<T, String>, m: Seq<char>) -> bool {
    r matches Err(e) && e@ == m
}

impl WarehouseHub {
    /// An empty hub with the given capacity.
    pub fn new(hub_code: &str, hub_name: &str, location: Location, capacity: u32) -> (h:
        WarehouseHub)
        ensures
            h.id != 0,
            uuid_version(h.id) == 7,
            h.hub_code@ == hub_code@,
            h.hub_name@ == hub_name@,
            h.location == location,
            h.capacity_parcels == capacity,
            h.active_parcels == 0,
    {
        WarehouseHub {
            id: new_id(),
            hub_code: hub_code.to_owned(),
            hub_name: hub_name.to_owned(),
            location,
            capacity_parcels: capacity,
            active_parcels: 0,
        }
    }

    /// Takes in `count` parcels unless that would exceed the capacity.
    pub fn receive_parcels(&mut self, count: u32) -> (r: Result<(), String>)
        requires
            old(self).active_parcels + count <= u32::MAX,
        ensures
            old(self).active_parcels + count > old(self).capacity_parcels ==> *final(self)
                == *old(self) && fails_with_text(r, "Warehouse capacity exceeded"@),
            old(self).active_parcels + count <= old(self).capacity_parcels ==> r is Ok
                && *final(self) == (WarehouseHub {
                active_parcels: (old(self).active_parcels + count) as u32,
                ..*old(self)
            }),
    {
        if self.active_parcels + count > self.capacity_parcels {
            return Err("Warehouse capacity exceeded".to_owned());
        }
        self.active_parcels = self.active_parcels + count;
        Ok(())
    }

    /// Hands `order_ids` to a courier: as many parcels (the order count, taken
    /// modulo 2^32) leave the hub.
    pub fn dispatch_manifest(&mut self, courier_id: u128, order_ids: Vec<u128>) -> (r: Result<
        HubManifestAssignment,
        String,
    >)
        ensures
            old(self).active_parcels < (order_ids@.len() as u32) ==> *final(self) == *old(self)
                && fails_with_text(r, "Not enough parcels in hub"@),
            old(self).active_parcels >= (order_ids@.len() as u32) ==> *final(self) == (
            WarehouseHub {
                active_parcels: (old(self).active_parcels - (order_ids@.len() as u32)) as u32,
                ..*old(self)
            }) && (r matches Ok(m) && m.id != 0 && uuid_version(m.id) == 7 && m.hub_id
                == old(self).id && m.courier_id == courier_id && m.order_ids == order_ids),
    {
        let count = order_ids.len() as u32;
        if self.active_parcels < count {
            return Err("Not enough parcels in hub".to_owned());
        }
        self.active_parcels = self.active_parcels - count;
        Ok(
            HubManifestAssignment {
                id: new_id(),
                hub_id: self.id,
                courier_id,
                order_ids,
                created_at: now_micros(),
            },
        )
    }
}

} // verus!
