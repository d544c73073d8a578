//! Supply amounts and their normalization into display units.

use vstd::prelude::*;

verus! {

/// Number of nanounits in one display unit of the native asset.
pub const NANOS_PER_UNIT: u64 = 1_000_000_000;

/// The ledger's identifier of the native asset, whose total supply the
/// service reports.
pub fn native_asset_id() -> (s: &'static str)
    ensures
        s@ == "0x2::iota::IOTA"@,
{
    "0x2::iota::IOTA"
}

/// Converts a raw nanounit amount into display units by integer (floor)
/// division; fractional remainders below one display unit are discarded.
pub fn display_units(raw: u64) -> (v: u64)
    ensures
        v == raw / 1_000_000_000,
{
    raw / NANOS_PER_UNIT
}

} // verus!
