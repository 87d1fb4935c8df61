//! Cargo ships: vessels that load manifests and travel along trade routes.
use vstd::prelude::*;
use vstd::string::StringExecFns;
use crate::resource::TernaryResource;
use crate::manifest::Manifest;
use crate::route::TradeRoute;
use crate::tally::{
    Measure, total_quantity, total_charge, sum_quantity, sum_charge, lemma_sum_append,
};

verus! {

/// The message of a refused trip along an inactive route.
pub open spec fn inactive_route_message() -> Seq<char> {
    "Route is inactive"@
}

/// The message of a refused trip along a route that starts elsewhere.
pub open spec fn wrong_origin_message(location: Seq<char>, origin: Seq<char>) -> Seq<char> {
    "Ship at "@ + location + " but route starts at "@ + origin
}

/// Transports cargo between rooms along trade routes.
#[derive(Debug)]
pub struct CargoShip {
    pub id: String,
    pub location: String,
    pub cargo: Vec<TernaryResource>,
    pub capacity: u32,
}

impl CargoShip {
    /// An empty ship at its home room.
    pub fn new(id: &str, home: &str, capacity: u32) -> (s: CargoShip)
        ensures
            s.id@ == id@,
            s.location@ == home@,
            s.cargo@ == Seq::<TernaryResource>::empty(),
            s.capacity == capacity,
    {
        CargoShip { id: id.to_owned(), location: home.to_owned(), cargo: Vec::new(), capacity }
    }

    /// Load the items of a manifest after the present cargo. Returns false, and loads
    /// nothing, if the total quantity would exceed the capacity.
    pub fn load(&mut self, manifest: &Manifest) -> (ok: bool)
        ensures
            ok == (total_quantity(old(self).cargo@) + total_quantity(manifest.items@) <= old(self).capacity),
            ok ==> final(self).cargo@ == old(self).cargo@ + manifest.items@,
            ok ==> total_charge(final(self).cargo@) == total_charge(old(self).cargo@) + total_charge(
                manifest.items@,
            ),
            ok ==> total_quantity(final(self).cargo@) == total_quantity(old(self).cargo@) + total_quantity(
                manifest.items@,
            ),
            !ok ==> final(self).cargo == old(self).cargo,
            final(self).id == old(self).id,
            final(self).location == old(self).location,
            final(self).capacity == old(self).capacity,
    {
        let total = sum_quantity(self.cargo.as_slice()) + sum_quantity(manifest.items.as_slice());
        if total > self.capacity as i128 {
            return false;
        }
        let mut i: usize = 0;
        while i < manifest.items.len()
            invariant
                0 <= i <= manifest.items@.len(),
                self.cargo@ == old(self).cargo@ + manifest.items@.take(i as int),
                self.id == old(self).id,
                self.location == old(self).location,
                self.capacity == old(self).capacity,
            decreases manifest.items@.len() - i,
        {
            self.cargo.push(manifest.items[i]);
            i = i + 1;
            assert(self.cargo@ =~= old(self).cargo@ + manifest.items@.take(i as int));
        }
        assert(manifest.items@.take(i as int) =~= manifest.items@);
        proof {
            lemma_sum_append(old(self).cargo@, manifest.items@, Measure::Charge);
            lemma_sum_append(old(self).cargo@, manifest.items@, Measure::Quantity);
        }
        true
    }

    /// Unload all cargo and return it.
    pub fn unload(&mut self) -> (out: Vec<TernaryResource>)
        ensures
            out@ == old(self).cargo@,
            final(self).cargo@ == Seq::<TernaryResource>::empty(),
            final(self).id == old(self).id,
            final(self).location == old(self).location,
            final(self).capacity == old(self).capacity,
    {
        let mut out: Vec<TernaryResource> = Vec::new();
        std::mem::swap(&mut out, &mut self.cargo);
        out
    }

    /// Travel to the destination of a route. The route must be active and start where
    /// the ship is; otherwise the ship stays and an error says why.
    pub fn travel(&mut self, route: &TradeRoute) -> (r: Result<(), String>)
        ensures
            r is Ok <==> route.active && old(self).location@ == route.origin@,
            r is Ok ==> final(self).location == route.destination,
            r is Err ==> final(self).location == old(self).location,
            r matches Err(msg) ==> msg@ == (if !route.active {
                inactive_route_message()
            } else {
                wrong_origin_message(old(self).location@, route.origin@)
            }),
            final(self).id == old(self).id,
            final(self).cargo == old(self).cargo,
            final(self).capacity == old(self).capacity,
    {
        if !route.active {
            return Err(String::from_str("Route is inactive"));
        }
        if !(self.location == route.origin) {
            let msg = String::from_str("Ship at ").concat(self.location.as_str()).concat(
                " but route starts at ",
            ).concat(route.origin.as_str());
            return Err(msg);
        }
        self.location = route.destination.clone();
        Ok(())
    }

    pub fn cargo_quantity(&self) -> (t: u32)
        requires
            total_quantity(self.cargo@) <= u32::MAX,
        ensures
            t == total_quantity(self.cargo@),
    {
        let t = sum_quantity(self.cargo.as_slice());
        t as u32
    }

    pub fn cargo_value(&self) -> (v: i64)
        requires
            i64::MIN <= total_charge(self.cargo@) <= i64::MAX,
        ensures
            v == total_charge(self.cargo@),
    {
        let v = sum_charge(self.cargo.as_slice());
        v as i64
    }
}

} // verus!
