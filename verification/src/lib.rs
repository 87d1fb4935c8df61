//! Resource transport between rooms: cargo holds, cargo ships, trade routes,
//! manifests, inspection of the conservation of ternary charge, and a
//! smuggler that hides negative-weight resources from inspection.

pub mod resource;
pub mod tally;
pub mod hold;
pub mod manifest;
pub mod route;
pub mod ship;
pub mod inspector;
pub mod smuggler;

pub use resource::{ResourceKind, TernaryResource, TernaryWeight};
pub use hold::{CargoHold, HoldView};
pub use manifest::Manifest;
pub use route::TradeRoute;
pub use ship::CargoShip;
pub use inspector::{CargoInspectionResult, CargoInspector};
pub use smuggler::Smuggler;
