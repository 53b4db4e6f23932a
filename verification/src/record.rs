//! The projectile record that the table builder and the cache key read.

use vstd::prelude::*;
use vstd::string::StringExecFns;
use crate::names::{clean_shell_name, cleaned, normalize_shell_type, normalized};

verus! {

/// Bit pattern of 0.38, the drag coefficient of a projectile that gives none.
pub const DEFAULT_CX_BITS: u64 = 0x3FD8_51EB_851E_B852;

/// The parameters of the penetration formula, as bit patterns.
#[derive(Clone, Copy, Debug, PartialEq, Eq, Structural)]
pub struct DemarreParams {
    pub k: u64,
    pub speed_pow: u64,
    pub mass_pow: u64,
    pub caliber_pow: u64,
}

/// Armour power of a fin-stabilised round at fixed distances, as bit patterns.
#[derive(Clone, Copy, Debug, PartialEq, Eq, Structural)]
pub struct ArmorPowerSeries {
    pub ap_0m: Option<u64>,
    pub ap_100m: Option<u64>,
    pub ap_500m: Option<u64>,
    pub ap_1000m: Option<u64>,
    pub ap_1500m: Option<u64>,
    pub ap_2000m: Option<u64>,
    pub ap_2500m: Option<u64>,
    pub ap_3000m: Option<u64>,
    pub ap_3500m: Option<u64>,
    pub ap_4000m: Option<u64>,
    pub ap_4500m: Option<u64>,
    pub ap_10000m: Option<u64>,
}

/// The series that holds no value.
pub open spec fn empty_series() -> ArmorPowerSeries {
    ArmorPowerSeries {
        ap_0m: None,
        ap_100m: None,
        ap_500m: None,
        ap_1000m: None,
        ap_1500m: None,
        ap_2000m: None,
        ap_2500m: None,
        ap_3000m: None,
        ap_3500m: None,
        ap_4000m: None,
        ap_4500m: None,
        ap_10000m: None,
    }
}

impl Default for ArmorPowerSeries {
    fn default() -> (r: Self)
        ensures
            r == empty_series(),
    {
        ArmorPowerSeries {
            ap_0m: None,
            ap_100m: None,
            ap_500m: None,
            ap_1000m: None,
            ap_1500m: None,
            ap_2000m: None,
            ap_2500m: None,
            ap_3000m: None,
            ap_3500m: None,
            ap_4000m: None,
            ap_4500m: None,
            ap_10000m: None,
        }
    }
}

/// A projectile as the data source describes it: each quantity a bit pattern,
/// or absent.
#[derive(Clone, Debug)]
pub struct Projectile {
    pub name: String,
    pub bullet_type: String,
    pub mass: Option<u64>,
    pub ballistic_caliber: Option<u64>,
    pub speed: Option<u64>,
    pub cx: Option<u64>,
    pub explosive_mass: Option<u64>,
    pub explosive_type: Option<String>,
    pub damage_mass: Option<u64>,
    pub damage_caliber: Option<u64>,
    pub demarre: Option<DemarreParams>,
    pub armor_power: Option<u64>,
    pub armor_power_series: Option<ArmorPowerSeries>,
}

/// What a projectile stands for.
pub ghost struct ProjectileModel {
    pub name: Seq<char>,
    pub bullet_type: Seq<char>,
    pub mass: Option<u64>,
    pub ballistic_caliber: Option<u64>,
    pub speed: Option<u64>,
    pub cx: Option<u64>,
    pub explosive_mass: Option<u64>,
    pub explosive_type: Option<Seq<char>>,
    pub damage_mass: Option<u64>,
    pub damage_caliber: Option<u64>,
    pub demarre: Option<DemarreParams>,
    pub armor_power: Option<u64>,
    pub armor_power_series: Option<ArmorPowerSeries>,
}

impl View for Projectile {
    type V = ProjectileModel;

    open spec fn view(&self) -> ProjectileModel {
        ProjectileModel {
            name: self.name@,
            bullet_type: self.bullet_type@,
            mass: self.mass,
            ballistic_caliber: self.ballistic_caliber,
            speed: self.speed,
            cx: self.cx,
            explosive_mass: self.explosive_mass,
            explosive_type: match self.explosive_type {
                Some(t) => Some(t@),
                None => None,
            },
            damage_mass: self.damage_mass,
            damage_caliber: self.damage_caliber,
            demarre: self.demarre,
            armor_power: self.armor_power,
            armor_power_series: self.armor_power_series,
        }
    }
}

/// What is known of one vehicle.
#[derive(Clone, Debug)]
pub struct VehicleData {
    pub id: String,
    pub weapon_path: Option<String>,
    pub rocket_paths: Vec<String>,
    pub zoom_in: Option<u64>,
    pub zoom_out: Option<u64>,
    pub zoom_in_2: Option<u64>,
    pub zoom_out_2: Option<u64>,
    pub has_laser: bool,
    pub projectiles: Vec<Projectile>,
}

impl VehicleData {
    /// A vehicle of which nothing but its identifier is known.
    pub fn new(id: &str) -> (r: Self)
        ensures
            r.id@ == id@,
            r.weapon_path is None,
            r.rocket_paths@.len() == 0,
            r.zoom_in is None,
            r.zoom_out is None,
            r.zoom_in_2 is None,
            r.zoom_out_2 is None,
            !r.has_laser,
            r.projectiles@.len() == 0,
    {
        VehicleData {
            id: String::from_str(id),
            weapon_path: None,
            rocket_paths: Vec::new(),
            zoom_in: None,
            zoom_out: None,
            zoom_in_2: None,
            zoom_out_2: None,
            has_laser: false,
            projectiles: Vec::new(),
        }
    }

    /// Whether the vehicle carries any projectile.
    pub fn is_armed(&self) -> (r: bool)
        ensures
            r == (self.projectiles@.len() > 0),
    {
        self.projectiles.len() > 0
    }
}

/// The twelve entries of a series, each distance with its value or its
/// absence. The distances are 0, 100, 500, 1000, 1500, 2000, 2500, 3000, 3500,
/// 4000, 4500 and 10000 metres.
pub open spec fn series_entries(series: ArmorPowerSeries) -> Seq<(u64, Option<u64>)> {
    seq![
        (0x0000_0000_0000_0000u64, series.ap_0m),
        (0x4059_0000_0000_0000u64, series.ap_100m),
        (0x407F_4000_0000_0000u64, series.ap_500m),
        (0x408F_4000_0000_0000u64, series.ap_1000m),
        (0x4097_7000_0000_0000u64, series.ap_1500m),
        (0x409F_4000_0000_0000u64, series.ap_2000m),
        (0x40A3_8800_0000_0000u64, series.ap_2500m),
        (0x40A7_7000_0000_0000u64, series.ap_3000m),
        (0x40AB_5800_0000_0000u64, series.ap_3500m),
        (0x40AF_4000_0000_0000u64, series.ap_4000m),
        (0x40B1_9400_0000_0000u64, series.ap_4500m),
        (0x40C3_8800_0000_0000u64, series.ap_10000m),
    ]
}

/// Of the first `n` entries, those that hold a value, in order.
pub open spec fn present(entries: Seq<(u64, Option<u64>)>, n: int) -> Seq<(u64, u64)>
    decreases n,
{
    if n <= 0 {
        Seq::<(u64, u64)>::empty()
    } else {
        match entries[n - 1].1 {
            Some(p) => present(entries, n - 1).push((entries[n - 1].0, p)),
            None => present(entries, n - 1),
        }
    }
}

/// The armour-power curve of a projectile: the values its series holds, each
/// with its distance; empty without a series.
pub open spec fn curve_of(series: Option<ArmorPowerSeries>) -> Seq<(u64, u64)> {
    match series {
        Some(s) => present(series_entries(s), 12),
        None => Seq::<(u64, u64)>::empty(),
    }
}

/// `value`, or `default` where it is absent.
pub open spec fn or_else(value: Option<u64>, default: u64) -> u64 {
    match value {
        Some(v) => v,
        None => default,
    }
}

fn value_or(value: Option<u64>, default: u64) -> (r: u64)
    ensures
        r == or_else(value, default),
{
    match value {
        Some(v) => v,
        None => default,
    }
}

fn curve(series: &Option<ArmorPowerSeries>) -> (r: Vec<(u64, u64)>)
    ensures
        r@ == curve_of(*series),
{
    let mut r: Vec<(u64, u64)> = Vec::new();
    match series {
        None => {},
        Some(s) => {
            let entries: Vec<(u64, Option<u64>)> = vec![
                (0x0000_0000_0000_0000u64, s.ap_0m),
                (0x4059_0000_0000_0000u64, s.ap_100m),
                (0x407F_4000_0000_0000u64, s.ap_500m),
                (0x408F_4000_0000_0000u64, s.ap_1000m),
                (0x4097_7000_0000_0000u64, s.ap_1500m),
                (0x409F_4000_0000_0000u64, s.ap_2000m),
                (0x40A3_8800_0000_0000u64, s.ap_2500m),
                (0x40A7_7000_0000_0000u64, s.ap_3000m),
                (0x40AB_5800_0000_0000u64, s.ap_3500m),
                (0x40AF_4000_0000_0000u64, s.ap_4000m),
                (0x40B1_9400_0000_0000u64, s.ap_4500m),
                (0x40C3_8800_0000_0000u64, s.ap_10000m),
            ];
            assert(entries@ =~= series_entries(*s));
            let mut i: usize = 0;
            while i < entries.len()
                invariant
                    i <= entries@.len(),
                    r@ == present(entries@, i as int),
                decreases entries@.len() - i,
            {
                match entries[i].1 {
                    Some(p) => {
                        r.push((entries[i].0, p));
                    },
                    None => {},
                }
                i += 1;
            }
        },
    }
    r
}

/// The flat record of a projectile: absent quantities become zero, an absent
/// drag coefficient the default one, absent formula parameters zero, and the
/// series becomes the curve of the values it holds.
pub fn from_projectile(proj: &Projectile) -> (r: DataProjectile)
    ensures
        r.name@ == proj.name@,
        r.bullet_type@ == proj.bullet_type@,
        r.normalized_type@ == normalized(proj.bullet_type@),
        r.output_name@ == cleaned(proj.name@),
        r.mass == or_else(proj.mass, 0),
        r.ballistic_caliber == or_else(proj.ballistic_caliber, 0),
        r.speed == or_else(proj.speed, 0),
        r.cx == or_else(proj.cx, DEFAULT_CX_BITS),
        r.explosive_mass == or_else(proj.explosive_mass, 0),
        r.damage_mass == or_else(proj.damage_mass, 0),
        r.damage_caliber == or_else(proj.damage_caliber, 0),
        proj.demarre matches Some(d) ==> r.demarre_k == d.k && r.demarre_speed_pow == d.speed_pow
            && r.demarre_mass_pow == d.mass_pow && r.demarre_caliber_pow == d.caliber_pow,
        proj.demarre is None ==> r.demarre_k == 0 && r.demarre_speed_pow == 0
            && r.demarre_mass_pow == 0 && r.demarre_caliber_pow == 0,
        r.armor_power_table@ == curve_of(proj.armor_power_series),
{
    let demarre = match proj.demarre {
        Some(d) => d,
        None => DemarreParams { k: 0, speed_pow: 0, mass_pow: 0, caliber_pow: 0 },
    };
    DataProjectile {
        name: proj.name.clone(),
        bullet_type: proj.bullet_type.clone(),
        normalized_type: normalize_shell_type(proj.bullet_type.as_str()),
        mass: value_or(proj.mass, 0),
        ballistic_caliber: value_or(proj.ballistic_caliber, 0),
        speed: value_or(proj.speed, 0),
        cx: value_or(proj.cx, DEFAULT_CX_BITS),
        explosive_mass: value_or(proj.explosive_mass, 0),
        damage_mass: value_or(proj.damage_mass, 0),
        damage_caliber: value_or(proj.damage_caliber, 0),
        demarre_k: demarre.k,
        demarre_speed_pow: demarre.speed_pow,
        demarre_mass_pow: demarre.mass_pow,
        demarre_caliber_pow: demarre.caliber_pow,
        armor_power_table: curve(&proj.armor_power_series),
        output_name: clean_shell_name(proj.name.as_str()),
    }
}

/// One projectile, with every physical quantity held as the bit pattern of
/// its binary64 value.
#[derive(Clone, Debug)]
pub struct DataProjectile {
    /// Full projectile name.
    pub name: String,
    /// Shell type as the data source spells it.
    pub bullet_type: String,
    /// Shell type reduced to the tag that selects the shell family.
    pub normalized_type: String,
    /// Mass in kilograms.
    pub mass: u64,
    /// Ballistic caliber in metres.
    pub ballistic_caliber: u64,
    /// Muzzle speed in metres per second.
    pub speed: u64,
    /// Drag coefficient.
    pub cx: u64,
    /// Explosive filler mass in kilograms.
    pub explosive_mass: u64,
    /// Core mass of a sub-caliber round, in kilograms.
    pub damage_mass: u64,
    /// Core caliber of a sub-caliber round, in metres.
    pub damage_caliber: u64,
    /// Leading coefficient of the penetration formula; zero selects the default.
    pub demarre_k: u64,
    /// Speed exponent of the penetration formula; zero selects the default.
    pub demarre_speed_pow: u64,
    /// Mass exponent of the penetration formula; zero selects the default.
    pub demarre_mass_pow: u64,
    /// Caliber exponent of the penetration formula; zero selects the default.
    pub demarre_caliber_pow: u64,
    /// Supplied armour-power curve: (distance, penetration) pairs in order.
    pub armor_power_table: Vec<(u64, u64)>,
    /// Name under which the table is filed; plays no part in the physics.
    pub output_name: String,
}

} // verus!
