//! Rows of the SQLite-backed consist service, which keeps fewer columns.
use vstd::prelude::*;

verus! {

/// An allocation of a resource group to a train.
#[derive(Debug, Clone)]
pub struct Allocation {
    pub id: Option<i64>,
    pub origin_datetime: String,
    pub origin_location: String,
    pub date: Option<String>,
    pub dest_location: String,
    pub dest_datetime: String,
    pub allocation_origin_datetime: String,
    pub allocation_origin_location: String,
    pub allocation_dest_datetime: String,
    pub allocation_dest_location: String,
    pub resource_group_id: String,
}

/// A vehicle of a resource group.
#[derive(Debug, Clone)]
pub struct Vehicle {
    pub id: Option<i64>,
    pub livery: String,
    pub decor: Option<String>,
    pub vehicle_type: String,
    pub specific_type: String,
    pub resource_group_id: String,
}

/// A resource group of a fleet.
#[derive(Debug, Clone)]
pub struct ResourceGroup {
    pub id: String,
    pub fleet: String,
}

/// A location row.
#[derive(Debug, Clone)]
pub struct Location {
    pub id: Option<i64>,
    pub nlc: String,
    pub stanox: Option<String>,
    pub tiploc: Option<String>,
    pub crs: Option<String>,
    pub uic: Option<String>,
    pub nlcdesc: Option<String>,
    pub axis: Option<String>,
    pub nlcdesc16: Option<String>,
}

} // verus!
