//! Synthesises a self-consistent multi-table data set of a simulated farm:
//! pastures, species, herds, livestock, employees, warehouses and the dated
//! reports written about them.
//!
//! Every entity is identified by its position in its store, and every
//! reference between entities is such a position. Real-valued quantities are
//! held as whole numbers of a fixed unit: areas in square decimetres, volumes
//! in cubic decimetres, money in hundredths, shares and fill levels in basis
//! points, and instants in whole seconds since 1970-01-01T00:00:00.
pub mod error;
pub mod time;
pub mod share;
pub mod random;
pub mod pasture;
pub mod species;
pub mod herd;
pub mod livestock;
pub mod employee;
pub mod warehouse;
pub mod feeding_report;
pub mod headcount_report;
pub mod health_report;
pub mod snapshot;
mod consistency;
