//! Breakpoint tables: which entry, or which pair of neighbouring entries, a
//! query falls on. The arithmetic between two neighbours is left to the
//! caller, who works in floating point; the choice of neighbours is made here.

use vstd::prelude::*;
use crate::ieee::{
    at_least, equals_zero, ge, is_nan, is_zero, less_than, lt, rank, truncate, truncated,
};
use crate::record::{DataProjectile, DemarreParams};

verus! {

/// Bit pattern of 0.9, the default leading coefficient.
pub const DEFAULT_K_BITS: u64 = 0x3FEC_CCCC_CCCC_CCCD;

/// Bit pattern of 1.43, the default speed exponent.
pub const DEFAULT_SPEED_POW_BITS: u64 = 0x3FF6_E147_AE14_7AE1;

/// Bit pattern of 0.71, the default mass exponent.
pub const DEFAULT_MASS_POW_BITS: u64 = 0x3FE6_B851_EB85_1EB8;

/// Bit pattern of 1.07, the default caliber exponent.
pub const DEFAULT_CALIBER_POW_BITS: u64 = 0x3FF1_1EB8_51EB_851F;

/// Bit pattern of 1900.0, the reference speed of the penetration formula.
pub const DEMARRE_REF_V_BITS: u64 = 0x409D_B000_0000_0000;

/// Entries of the air-density table: altitudes from 0 to 500 m, one entry
/// every 0.1 m.
pub const DENSITY_TABLE_LEN: usize = 5001;

/// Where a query falls in a breakpoint table.
#[derive(Clone, Copy, Debug, PartialEq, Eq, Structural)]
pub enum TableValue {
    /// The value is the given bit pattern.
    Exact(u64),
    /// The query lies from the breakpoint with this index up to, but not
    /// at, the next one; the value lies on the line through the two.
    Between(usize),
}

/// `val` unless it equals zero, then `default`.
pub open spec fn or_default(val: u64, default: u64) -> u64 {
    if is_zero(val) {
        default
    } else {
        val
    }
}

/// The query lies from breakpoint `i` up to, but not at, breakpoint `i + 1`.
pub open spec fn in_interval(table: Seq<(u64, u64)>, k: u64, i: int) -> bool {
    ge(k, table[i].0) && lt(k, table[i + 1].0)
}

/// The first interval at or after `from` that holds the query.
pub open spec fn first_interval(table: Seq<(u64, u64)>, k: u64, from: int) -> Option<int>
    decreases table.len() - from,
{
    if from + 1 >= table.len() {
        None
    } else if in_interval(table, k, from) {
        Some(from)
    } else {
        first_interval(table, k, from + 1)
    }
}

/// The value of a table with at least one entry at `k`: the first value
/// below the first breakpoint, the line between two neighbours inside an
/// interval, the last value everywhere else.
pub open spec fn table_value(table: Seq<(u64, u64)>, k: u64) -> TableValue {
    if lt(k, table[0].0) {
        TableValue::Exact(table[0].1)
    } else {
        match first_interval(table, k, 0) {
            Some(i) => TableValue::Between(i as usize),
            None => TableValue::Exact(table.last().1),
        }
    }
}

/// The breakpoints are numbers in strictly increasing order.
pub open spec fn is_increasing(table: Seq<(u64, u64)>) -> bool {
    &&& forall|i: int| 0 <= i < table.len() ==> !is_nan((#[trigger] table[i]).0)
    &&& forall|i: int, j: int|
        0 <= i < j < table.len() ==> rank((#[trigger] table[i]).0) < rank((#[trigger] table[j]).0)
}

/// Filler-mass ratio against the penalty factor of explosive-filled rounds:
/// (0.0065, 1.0), (0.016, 0.93), (0.02, 0.9), (0.03, 0.85), (0.04, 0.75).
pub open spec fn pen_by_expl_entries() -> Seq<(u64, u64)> {
    seq![
        (0x3F7A_9FBE_76C8_B439u64, 0x3FF0_0000_0000_0000u64),
        (0x3F90_624D_D2F1_A9FCu64, 0x3FED_C28F_5C28_F5C3u64),
        (0x3F94_7AE1_47AE_147Bu64, 0x3FEC_CCCC_CCCC_CCCDu64),
        (0x3F9E_B851_EB85_1EB8u64, 0x3FEB_3333_3333_3333u64),
        (0x3FA4_7AE1_47AE_147Bu64, 0x3FE8_0000_0000_0000u64),
    ]
}

/// Core-mass ratio against the blend coefficient of sub-caliber rounds:
/// (0.0, 0.25), (0.15, 0.4), (0.3, 0.5), (0.4, 0.75).
pub open spec fn pen_by_subcaliber_entries() -> Seq<(u64, u64)> {
    seq![
        (0x0000_0000_0000_0000u64, 0x3FD0_0000_0000_0000u64),
        (0x3FC3_3333_3333_3333u64, 0x3FD9_9999_9999_999Au64),
        (0x3FD3_3333_3333_3333u64, 0x3FE0_0000_0000_0000u64),
        (0x3FD9_9999_9999_999Au64, 0x3FE8_0000_0000_0000u64),
    ]
}

/// The penalty table of explosive-filled rounds.
pub fn pen_by_expl() -> (table: Vec<(u64, u64)>)
    ensures
        table@ == pen_by_expl_entries(),
{
    let table: Vec<(u64, u64)> = vec![
        (0x3F7A_9FBE_76C8_B439u64, 0x3FF0_0000_0000_0000u64),
        (0x3F90_624D_D2F1_A9FCu64, 0x3FED_C28F_5C28_F5C3u64),
        (0x3F94_7AE1_47AE_147Bu64, 0x3FEC_CCCC_CCCC_CCCDu64),
        (0x3F9E_B851_EB85_1EB8u64, 0x3FEB_3333_3333_3333u64),
        (0x3FA4_7AE1_47AE_147Bu64, 0x3FE8_0000_0000_0000u64),
    ];
    assert(table@ =~= pen_by_expl_entries());
    table
}

/// The blend table of sub-caliber rounds.
pub fn pen_by_subcaliber() -> (table: Vec<(u64, u64)>)
    ensures
        table@ == pen_by_subcaliber_entries(),
{
    let table: Vec<(u64, u64)> = vec![
        (0x0000_0000_0000_0000u64, 0x3FD0_0000_0000_0000u64),
        (0x3FC3_3333_3333_3333u64, 0x3FD9_9999_9999_999Au64),
        (0x3FD3_3333_3333_3333u64, 0x3FE0_0000_0000_0000u64),
        (0x3FD9_9999_9999_999Au64, 0x3FE8_0000_0000_0000u64),
    ];
    assert(table@ =~= pen_by_subcaliber_entries());
    table
}

/// The entry of the air-density table below an altitude, where the table
/// also holds the entry above it. The altitude is given in table steps, as a
/// bit pattern, and is cut to a whole number that is not negative.
pub open spec fn density_index(steps: u64) -> Option<usize> {
    let whole = if truncated(steps) < 0 {
        0
    } else {
        truncated(steps)
    };
    if whole + 1 < DENSITY_TABLE_LEN {
        Some(whole as usize)
    } else {
        None
    }
}

/// Chooses between the air-density table and the closed formula: the index
/// of the table entry below the altitude, or `None` above the table's ceiling.
pub fn density_slot(steps: u64) -> (r: Option<usize>)
    ensures
        r == density_index(steps),
{
    let whole: i64 = truncate(steps);
    if whole < 0 {
        Some(0)
    } else if whole < 5000 {
        Some(whole as usize)
    } else {
        None
    }
}

/// Returns `val` when it is not zero, otherwise `default`.
pub fn non_zero_or(val: u64, default: u64) -> (r: u64)
    ensures
        r == or_default(val, default),
{
    if equals_zero(val) {
        default
    } else {
        val
    }
}

/// The parameters of the penetration formula for a projectile, each default
/// standing in where the record holds zero.
pub fn demarre_params(proj: &DataProjectile) -> (r: DemarreParams)
    ensures
        r.k == or_default(proj.demarre_k, DEFAULT_K_BITS),
        r.speed_pow == or_default(proj.demarre_speed_pow, DEFAULT_SPEED_POW_BITS),
        r.mass_pow == or_default(proj.demarre_mass_pow, DEFAULT_MASS_POW_BITS),
        r.caliber_pow == or_default(proj.demarre_caliber_pow, DEFAULT_CALIBER_POW_BITS),
{
    DemarreParams {
        k: non_zero_or(proj.demarre_k, DEFAULT_K_BITS),
        speed_pow: non_zero_or(proj.demarre_speed_pow, DEFAULT_SPEED_POW_BITS),
        mass_pow: non_zero_or(proj.demarre_mass_pow, DEFAULT_MASS_POW_BITS),
        caliber_pow: non_zero_or(proj.demarre_caliber_pow, DEFAULT_CALIBER_POW_BITS),
    }
}

/// The first interval of the table that holds `distance`, if any does. A
/// supplied armour-power curve is read this way: outside every interval, and
/// on an empty curve, the penetration is zero.
pub fn interpolate_armor_power(table: &Vec<(u64, u64)>, distance: u64) -> (r: Option<usize>)
    ensures
        match r {
            Some(i) => first_interval(table@, distance, 0) == Some(i as int),
            None => first_interval(table@, distance, 0) is None,
        },
        r is Some ==> r.unwrap() + 1 < table@.len(),
{
    if table.len() < 2 {
        return None;
    }
    let last: usize = table.len() - 1;
    let mut i: usize = 0;
    while i < last
        invariant
            last == table@.len() - 1,
            i <= last,
            first_interval(table@, distance, i as int) == first_interval(table@, distance, 0),
        decreases last - i,
    {
        if at_least(distance, table[i].0) && less_than(distance, table[i + 1].0) {
            return Some(i);
        }
        i += 1;
    }
    None
}

/// Looks `k` up in a breakpoint table.
pub fn interpolate_table(table: &Vec<(u64, u64)>, k: u64) -> (r: TableValue)
    requires
        table@.len() >= 1,
    ensures
        r == table_value(table@, k),
        r matches TableValue::Between(i) ==> i + 1 < table@.len(),
{
    if less_than(k, table[0].0) {
        return TableValue::Exact(table[0].1);
    }
    match interpolate_armor_power(table, k) {
        Some(i) => TableValue::Between(i),
        None => TableValue::Exact(table[table.len() - 1].1),
    }
}

/// The penalty factor of an explosive-filled round at the given ratio of
/// filler mass to total mass.
pub fn aphe_penalty(ratio: u64) -> (r: TableValue)
    ensures
        r == table_value(pen_by_expl_entries(), ratio),
{
    let table = pen_by_expl();
    interpolate_table(&table, ratio)
}

proof fn no_interval_beyond(table: Seq<(u64, u64)>, k: u64, from: int)
    requires
        0 <= from,
        forall|i: int| from <= i < table.len() - 1 ==> !in_interval(table, k, i),
    ensures
        first_interval(table, k, from) is None,
    decreases table.len() - from,
{
    if from + 1 < table.len() {
        no_interval_beyond(table, k, from + 1);
    }
}

proof fn interval_is_found(table: Seq<(u64, u64)>, k: u64, from: int, i: int)
    requires
        0 <= from <= i < table.len() - 1,
        in_interval(table, k, i),
        forall|j: int| from <= j < i ==> !in_interval(table, k, j),
    ensures
        first_interval(table, k, from) == Some(i),
    decreases i - from,
{
    if from < i {
        interval_is_found(table, k, from + 1, i);
    }
}

/// Below the first breakpoint the value is the first value of the table.
pub proof fn below_first_is_first(table: Seq<(u64, u64)>, k: u64)
    requires
        table.len() >= 1,
        lt(k, table[0].0),
    ensures
        table_value(table, k) == TableValue::Exact(table[0].1),
{
}

/// At or above the last breakpoint of an increasing table the value is the
/// last value of the table.
pub proof fn above_last_is_last(table: Seq<(u64, u64)>, k: u64)
    requires
        table.len() >= 1,
        is_increasing(table),
        ge(k, table.last().0),
    ensures
        table_value(table, k) == TableValue::Exact(table.last().1),
{
    assert forall|i: int| 0 <= i < table.len() - 1 implies !in_interval(table, k, i) by {
        assert(rank(table[i + 1].0) <= rank(table[table.len() - 1].0));
    }
    no_interval_beyond(table, k, 0);
}

/// From one breakpoint of an increasing table up to, but not at, the next, the
/// lookup answers with exactly that pair of neighbours.
pub proof fn between_neighbours_picks_them(table: Seq<(u64, u64)>, k: u64, i: int)
    requires
        is_increasing(table),
        0 <= i < table.len() - 1,
        ge(k, table[i].0),
        lt(k, table[i + 1].0),
    ensures
        table_value(table, k) == TableValue::Between(i as usize),
        first_interval(table, k, 0) == Some(i),
{
    assert forall|j: int| 0 <= j < i implies !in_interval(table, k, j) by {
        assert(rank(table[j + 1].0) <= rank(table[i].0));
    }
    interval_is_found(table, k, 0, i);
    assert(rank(table[0].0) <= rank(table[i].0));
}

/// A query that is not a number falls on the last value of a table, and on no
/// interval of a curve.
pub proof fn nan_takes_last(table: Seq<(u64, u64)>, k: u64)
    requires
        table.len() >= 1,
        is_nan(k),
    ensures
        table_value(table, k) == TableValue::Exact(table.last().1),
        first_interval(table, k, 0) is None,
{
    no_interval_beyond(table, k, 0);
}

/// Both built-in tables are increasing.
pub proof fn built_in_tables_are_increasing()
    ensures
        is_increasing(pen_by_expl_entries()),
        is_increasing(pen_by_subcaliber_entries()),
{
    assert(0x3F7A_9FBE_76C8_B439u64 & 0x7FFF_FFFF_FFFF_FFFF == 0x3F7A_9FBE_76C8_B439u64
        && 0x3F7A_9FBE_76C8_B439u64 & 0x8000_0000_0000_0000 == 0) by (bit_vector);
    assert(0x3F90_624D_D2F1_A9FCu64 & 0x7FFF_FFFF_FFFF_FFFF == 0x3F90_624D_D2F1_A9FCu64
        && 0x3F90_624D_D2F1_A9FCu64 & 0x8000_0000_0000_0000 == 0) by (bit_vector);
    assert(0x3F94_7AE1_47AE_147Bu64 & 0x7FFF_FFFF_FFFF_FFFF == 0x3F94_7AE1_47AE_147Bu64
        && 0x3F94_7AE1_47AE_147Bu64 & 0x8000_0000_0000_0000 == 0) by (bit_vector);
    assert(0x3F9E_B851_EB85_1EB8u64 & 0x7FFF_FFFF_FFFF_FFFF == 0x3F9E_B851_EB85_1EB8u64
        && 0x3F9E_B851_EB85_1EB8u64 & 0x8000_0000_0000_0000 == 0) by (bit_vector);
    assert(0x3FA4_7AE1_47AE_147Bu64 & 0x7FFF_FFFF_FFFF_FFFF == 0x3FA4_7AE1_47AE_147Bu64
        && 0x3FA4_7AE1_47AE_147Bu64 & 0x8000_0000_0000_0000 == 0) by (bit_vector);
    assert(0u64 & 0x7FFF_FFFF_FFFF_FFFF == 0 && 0u64 & 0x8000_0000_0000_0000 == 0)
        by (bit_vector);
    assert(0x3FC3_3333_3333_3333u64 & 0x7FFF_FFFF_FFFF_FFFF == 0x3FC3_3333_3333_3333u64
        && 0x3FC3_3333_3333_3333u64 & 0x8000_0000_0000_0000 == 0) by (bit_vector);
    assert(0x3FD3_3333_3333_3333u64 & 0x7FFF_FFFF_FFFF_FFFF == 0x3FD3_3333_3333_3333u64
        && 0x3FD3_3333_3333_3333u64 & 0x8000_0000_0000_0000 == 0) by (bit_vector);
    assert(0x3FD9_9999_9999_999Au64 & 0x7FFF_FFFF_FFFF_FFFF == 0x3FD9_9999_9999_999Au64
        && 0x3FD9_9999_9999_999Au64 & 0x8000_0000_0000_0000 == 0) by (bit_vector);
}

} // verus!
