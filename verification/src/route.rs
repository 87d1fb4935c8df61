//! Trade routes between rooms.
use vstd::prelude::*;
use crate::manifest::Manifest;
use crate::tally::{total_quantity, sum_quantity};

verus! {

/// An established trade route between two rooms.
#[derive(Debug, Clone)]
pub struct TradeRoute {
    pub id: String,
    pub origin: String,
    pub destination: String,
    pub distance: u32,
    pub active: bool,
}

impl TradeRoute {
    /// A new route, active from the start.
    pub fn new(id: &str, origin: &str, destination: &str, distance: u32) -> (r: TradeRoute)
        ensures
            r.id@ == id@,
            r.origin@ == origin@,
            r.destination@ == destination@,
            r.distance == distance,
            r.active,
    {
        TradeRoute {
            id: id.to_owned(),
            origin: origin.to_owned(),
            destination: destination.to_owned(),
            distance,
            active: true,
        }
    }

    pub fn activate(&mut self)
        ensures
            final(self).active,
            final(self).id == old(self).id,
            final(self).origin == old(self).origin,
            final(self).destination == old(self).destination,
            final(self).distance == old(self).distance,
    {
        self.active = true;
    }

    pub fn deactivate(&mut self)
        ensures
            !final(self).active,
            final(self).id == old(self).id,
            final(self).origin == old(self).origin,
            final(self).destination == old(self).destination,
            final(self).distance == old(self).distance,
    {
        self.active = false;
    }

    /// Estimate transport cost: distance times total quantity, divided by ten and
    /// rounded down. The product is taken in `u128`, wide enough for any manifest.
    pub fn transport_cost(&self, manifest: &Manifest) -> (c: u32)
        requires
            self.distance * total_quantity(manifest.items@) / 10 <= u32::MAX,
        ensures
            c == self.distance * total_quantity(manifest.items@) / 10,
    {
        let q = sum_quantity(manifest.items.as_slice());
        let d = self.distance;
        proof {
            let qi = q as int;
            let di = d as int;
            assert(0 <= di * qi <= 0xFFFF_FFFF * (0xFFFF_FFFF_FFFF_FFFF * 0xFFFF_FFFF)) by (nonlinear_arith)
                requires
                    0 <= di <= 0xFFFF_FFFF,
                    0 <= qi <= 0xFFFF_FFFF_FFFF_FFFF * 0xFFFF_FFFF,
            ;
        }
        let product = (d as u128) * (q as u128);
        (product / 10) as u32
    }
}

} // verus!
