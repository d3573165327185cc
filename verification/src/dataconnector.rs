//! Data connectors: what each one needs of its configuration before it can
//! be built, and how it reports the providers it hands out.

use vstd::prelude::*;

use crate::table_reference::parsed;
use crate::table_reference::TableReference;

pub mod databricks;
pub mod dremio;
pub mod postgres;

verus! {

/// The table that a dataset's path refers to.
pub fn dataset_reference(path: &str) -> (table_reference: TableReference)
    ensures
        table_reference@ == parsed(path@),
{
    TableReference::parse_str(path)
}

} // verus!
