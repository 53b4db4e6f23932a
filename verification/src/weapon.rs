//! Projectiles of a weapon module: how the descriptions of a bullet are
//! merged, which belts count, and what a merged bullet yields.

use vstd::prelude::*;
use crate::error::ParseError;
use crate::json::{member, member_of, number_in, number_member, text_in, text_member, Json};
use crate::lookup::{
    DEFAULT_CALIBER_POW_BITS, DEFAULT_K_BITS, DEFAULT_MASS_POW_BITS, DEFAULT_SPEED_POW_BITS,
};
use crate::names::{belt_included, should_include_belt};
use crate::record::{DemarreParams, Projectile, ProjectileModel};
use crate::text::{same_text, text_of};

verus! {

/// What has been gathered of one bullet; a later description overrides an
/// earlier one wherever it gives a value.
pub struct MergedBullet {
    pub bullet_name: Option<String>,
    pub bullet_type: Option<String>,
    pub mass: Option<u64>,
    pub caliber: Option<u64>,
    pub speed: Option<u64>,
    pub cx: Option<u64>,
    pub explosive_mass: Option<u64>,
    pub explosive_type: Option<String>,
    pub damage_mass: Option<u64>,
    pub damage_caliber: Option<u64>,
    pub demarre_k: Option<u64>,
    pub demarre_speed_pow: Option<u64>,
    pub demarre_mass_pow: Option<u64>,
    pub demarre_caliber_pow: Option<u64>,
    pub armor_power: Option<u64>,
}

/// What a merged bullet stands for.
pub ghost struct MergedModel {
    pub bullet_name: Option<Seq<char>>,
    pub bullet_type: Option<Seq<char>>,
    pub mass: Option<u64>,
    pub caliber: Option<u64>,
    pub speed: Option<u64>,
    pub cx: Option<u64>,
    pub explosive_mass: Option<u64>,
    pub explosive_type: Option<Seq<char>>,
    pub damage_mass: Option<u64>,
    pub damage_caliber: Option<u64>,
    pub demarre_k: Option<u64>,
    pub demarre_speed_pow: Option<u64>,
    pub demarre_mass_pow: Option<u64>,
    pub demarre_caliber_pow: Option<u64>,
    pub armor_power: Option<u64>,
}

impl View for MergedBullet {
    type V = MergedModel;

    open spec fn view(&self) -> MergedModel {
        MergedModel {
            bullet_name: text_of(self.bullet_name),
            bullet_type: text_of(self.bullet_type),
            mass: self.mass,
            caliber: self.caliber,
            speed: self.speed,
            cx: self.cx,
            explosive_mass: self.explosive_mass,
            explosive_type: text_of(self.explosive_type),
            damage_mass: self.damage_mass,
            damage_caliber: self.damage_caliber,
            demarre_k: self.demarre_k,
            demarre_speed_pow: self.demarre_speed_pow,
            demarre_mass_pow: self.demarre_mass_pow,
            demarre_caliber_pow: self.demarre_caliber_pow,
            armor_power: self.armor_power,
        }
    }
}

/// The bullet of which nothing is known.
pub open spec fn nothing_merged() -> MergedModel {
    MergedModel {
        bullet_name: None,
        bullet_type: None,
        mass: None,
        caliber: None,
        speed: None,
        cx: None,
        explosive_mass: None,
        explosive_type: None,
        damage_mass: None,
        damage_caliber: None,
        demarre_k: None,
        demarre_speed_pow: None,
        demarre_mass_pow: None,
        demarre_caliber_pow: None,
        armor_power: None,
    }
}

/// `first` where it is there, else `second`.
pub open spec fn or_else<T>(first: Option<T>, second: Option<T>) -> Option<T> {
    if first is Some {
        first
    } else {
        second
    }
}

/// The first item of an array.
pub open spec fn first_of(items: Seq<Json>) -> Option<Json> {
    if items.len() > 0 {
        Some(items[0])
    } else {
        None
    }
}

/// The name of a bullet: its `bulletName`, the first of several; without
/// that member, its `bulletType`.
pub open spec fn bullet_name_of(bullet: Json) -> Option<Seq<char>> {
    match member(bullet, "bulletName"@) {
        Some(Json::Text(s)) => Some(s@),
        Some(Json::Array(items)) => text_in(first_of(items@)),
        _ => text_in(member(bullet, "bulletType"@)),
    }
}

/// The drag coefficient of a description: its `Cx`, the first of several.
pub open spec fn cx_of(source: Json) -> Option<u64> {
    match member(source, "Cx"@) {
        Some(Json::Number(n)) => Some(n),
        Some(Json::Array(items)) => number_in(first_of(items@)),
        _ => None,
    }
}

/// The armour power of a bullet: that of its `cumulativeDamage`, else that
/// of the `cumulativeDamage` of its `rocket`, else its own.
pub open spec fn armor_power_of(bullet: Json) -> Option<u64> {
    or_else(
        number_in(member_of(member(bullet, "cumulativeDamage"@), "armorPower"@)),
        or_else(
            number_in(
                member_of(
                    member_of(member(bullet, "rocket"@), "cumulativeDamage"@),
                    "armorPower"@,
                ),
            ),
            number_in(member(bullet, "armorPower"@)),
        ),
    )
}

/// Where the data of a bullet stand: in its `rocket` where it has one.
pub open spec fn source_of(bullet: Json) -> Json {
    match member(bullet, "rocket"@) {
        Some(r) => r,
        None => bullet,
    }
}

/// A parameter of the penetration formula: that of `damage.kinetic`, else
/// that of the bullet itself.
pub open spec fn demarre_of(bullet: Json, name: Seq<char>) -> Option<u64> {
    or_else(
        number_in(member_of(member_of(member(bullet, "damage"@), "kinetic"@), name)),
        number_in(member(bullet, name)),
    )
}

/// What is known of a bullet after one more description of it.
pub open spec fn merged(m: MergedModel, bullet: Json) -> MergedModel {
    let source = source_of(bullet);
    MergedModel {
        bullet_name: or_else(bullet_name_of(bullet), m.bullet_name),
        bullet_type: or_else(text_in(member(bullet, "bulletType"@)), m.bullet_type),
        mass: or_else(
            number_in(member(source, "mass"@)),
            or_else(number_in(member(bullet, "mass"@)), m.mass),
        ),
        caliber: or_else(
            number_in(member(source, "ballisticCaliber"@)),
            or_else(
                number_in(member(source, "caliber"@)),
                or_else(number_in(member(bullet, "caliber"@)), m.caliber),
            ),
        ),
        speed: or_else(
            number_in(member(source, "endSpeed"@)),
            or_else(number_in(member(source, "speed"@)), m.speed),
        ),
        cx: or_else(cx_of(source), m.cx),
        explosive_mass: or_else(number_in(member(source, "explosiveMass"@)), m.explosive_mass),
        explosive_type: or_else(text_in(member(source, "explosiveType"@)), m.explosive_type),
        damage_mass: or_else(number_in(member(source, "damageMass"@)), m.damage_mass),
        damage_caliber: or_else(number_in(member(source, "damageCaliber"@)), m.damage_caliber),
        demarre_k: or_else(demarre_of(bullet, "demarrePenetrationK"@), m.demarre_k),
        demarre_speed_pow: or_else(demarre_of(bullet, "demarreSpeedPow"@), m.demarre_speed_pow),
        demarre_mass_pow: or_else(demarre_of(bullet, "demarreMassPow"@), m.demarre_mass_pow),
        demarre_caliber_pow: or_else(
            demarre_of(bullet, "demarreCaliberPow"@),
            m.demarre_caliber_pow,
        ),
        armor_power: or_else(armor_power_of(bullet), m.armor_power),
    }
}

/// What is known of a bullet after the first `n` descriptions of it.
pub open spec fn merged_all(items: Seq<Json>, n: int) -> MergedModel
    decreases n,
{
    if n <= 0 {
        nothing_merged()
    } else {
        merged(merged_all(items, n - 1), items[n - 1])
    }
}

pub open spec fn or_default(value: Option<u64>, default: u64) -> u64 {
    match value {
        Some(v) => v,
        None => default,
    }
}

/// The projectile of a merged bullet; none without a name or a type. The
/// parameters of the penetration formula are there where one of them is, the
/// others then at their defaults.
pub open spec fn projectile_of(m: MergedModel) -> Option<ProjectileModel> {
    if m.bullet_name is None || m.bullet_type is None {
        None
    } else {
        Some(
            ProjectileModel {
                name: m.bullet_name->0,
                bullet_type: m.bullet_type->0,
                mass: m.mass,
                ballistic_caliber: m.caliber,
                speed: m.speed,
                cx: m.cx,
                explosive_mass: m.explosive_mass,
                explosive_type: m.explosive_type,
                damage_mass: m.damage_mass,
                damage_caliber: m.damage_caliber,
                demarre: if m.demarre_k is Some || m.demarre_speed_pow is Some
                    || m.demarre_mass_pow is Some || m.demarre_caliber_pow is Some {
                    Some(
                        DemarreParams {
                            k: or_default(m.demarre_k, DEFAULT_K_BITS),
                            speed_pow: or_default(m.demarre_speed_pow, DEFAULT_SPEED_POW_BITS),
                            mass_pow: or_default(m.demarre_mass_pow, DEFAULT_MASS_POW_BITS),
                            caliber_pow: or_default(
                                m.demarre_caliber_pow,
                                DEFAULT_CALIBER_POW_BITS,
                            ),
                        },
                    )
                } else {
                    None
                },
                armor_power: m.armor_power,
                armor_power_series: None,
            },
        )
    }
}

/// The one projectile of a top-level description: all its items merged.
pub open spec fn merged_projectile(value: Json) -> Option<ProjectileModel> {
    match value {
        Json::Array(items) => projectile_of(merged_all(items@, items@.len() as int)),
        Json::Object(_) => projectile_of(merged(nothing_merged(), value)),
        _ => None,
    }
}

/// The one projectile of a belt: its first item alone.
pub open spec fn first_projectile(value: Json) -> Option<ProjectileModel> {
    match value {
        Json::Array(items) => if items@.len() > 0 {
            projectile_of(merged(nothing_merged(), items@[0]))
        } else {
            None
        },
        Json::Object(_) => projectile_of(merged(nothing_merged(), value)),
        _ => None,
    }
}

/// `list` with the projectile appended where there is one.
pub open spec fn with(list: Seq<ProjectileModel>, found: Option<ProjectileModel>) -> Seq<
    ProjectileModel,
> {
    match found {
        Some(p) => list.push(p),
        None => list,
    }
}

/// The projectiles after one more member of the module: a `bullet` or a
/// `rocket` gives its merged projectile; any other object is a belt, which
/// gives, where it counts, the first projectile of its bullets and that of its
/// rockets.
pub open spec fn module_step(
    list: Seq<ProjectileModel>,
    name: Seq<char>,
    value: Json,
    vehicle: Option<Seq<char>>,
) -> Seq<ProjectileModel> {
    if name == "bullet"@ || name == "rocket"@ {
        with(list, merged_projectile(value))
    } else if value is Object && belt_included(name, vehicle) {
        let bullets = match member(value, "bullet"@) {
            Some(b) => with(list, first_projectile(b)),
            None => list,
        };
        match member(value, "rocket"@) {
            Some(r) => with(bullets, first_projectile(r)),
            None => bullets,
        }
    } else {
        list
    }
}

/// The projectiles of the first `n` members of a module.
pub open spec fn module_projectiles(
    members: Seq<(String, Json)>,
    n: int,
    vehicle: Option<Seq<char>>,
) -> Seq<ProjectileModel>
    decreases n,
{
    if n <= 0 {
        Seq::<ProjectileModel>::empty()
    } else {
        module_step(
            module_projectiles(members, n - 1, vehicle),
            members[n - 1].0@,
            members[n - 1].1,
            vehicle,
        )
    }
}

/// The projectiles of a weapon module.
pub open spec fn weapon_projectiles(module: Json, vehicle: Option<Seq<char>>) -> Seq<
    ProjectileModel,
> {
    match module {
        Json::Object(members) => module_projectiles(members@, members@.len() as int, vehicle),
        _ => Seq::<ProjectileModel>::empty(),
    }
}

pub open spec fn projectile_models(list: Seq<Projectile>) -> Seq<ProjectileModel> {
    list.map_values(|p: Projectile| p@)
}

fn either(first: Option<u64>, second: Option<u64>) -> (r: Option<u64>)
    ensures
        r == or_else(first, second),
{
    match first {
        Some(v) => Some(v),
        None => second,
    }
}

/// Reads the name of a bullet.
pub fn extract_bullet_name(bullet: &Json) -> (r: Option<String>)
    ensures
        text_of(r) == bullet_name_of(*bullet),
{
    match bullet.get("bulletName") {
        Some(Json::Text(s)) => Some(s.clone()),
        Some(Json::Array(items)) => {
            if items.len() > 0 {
                let first = items[0].as_text();
                assert(text_of(first) == text_in(Some(items@[0])));
                first
            } else {
                None
            }
        },
        _ => {
            let fallback = text_member(bullet, "bulletType");
            assert(text_of(fallback) == text_in(member(*bullet, "bulletType"@)));
            fallback
        },
    }
}

/// Reads the drag coefficient of a description.
pub fn extract_cx(obj: &Json) -> (r: Option<u64>)
    ensures
        r == cx_of(*obj),
{
    match obj.get("Cx") {
        Some(Json::Number(n)) => Some(*n),
        Some(Json::Array(items)) => {
            if items.len() > 0 {
                items[0].as_number()
            } else {
                None
            }
        },
        _ => None,
    }
}

fn nested_number(json: &Json, outer: &str, inner: &str) -> (r: Option<u64>)
    ensures
        r == number_in(member_of(member(*json, outer@), inner@)),
{
    match json.get(outer) {
        Some(o) => number_member(o, inner),
        None => None,
    }
}

/// Reads the armour power of a bullet.
pub fn extract_armor_power(bullet: &Json) -> (r: Option<u64>)
    ensures
        r == armor_power_of(*bullet),
{
    let own = nested_number(bullet, "cumulativeDamage", "armorPower");
    let of_rocket = match bullet.get("rocket") {
        Some(rocket) => nested_number(rocket, "cumulativeDamage", "armorPower"),
        None => None,
    };
    either(own, either(of_rocket, number_member(bullet, "armorPower")))
}

fn demarre_value(bullet: &Json, name: &str) -> (r: Option<u64>)
    ensures
        r == demarre_of(*bullet, name@),
{
    let kinetic = match bullet.get("damage") {
        Some(damage) => nested_number(damage, "kinetic", name),
        None => None,
    };
    either(kinetic, number_member(bullet, name))
}

impl MergedBullet {
    /// The bullet of which nothing is known.
    pub fn new() -> (r: Self)
        ensures
            r@ == nothing_merged(),
    {
        MergedBullet {
            bullet_name: None,
            bullet_type: None,
            mass: None,
            caliber: None,
            speed: None,
            cx: None,
            explosive_mass: None,
            explosive_type: None,
            damage_mass: None,
            damage_caliber: None,
            demarre_k: None,
            demarre_speed_pow: None,
            demarre_mass_pow: None,
            demarre_caliber_pow: None,
            armor_power: None,
        }
    }

    /// Takes over the parameters of the penetration formula that a
    /// description gives.
    pub fn merge_demarre(&mut self, bullet: &Json)
        ensures
            final(self)@ == (MergedModel {
                demarre_k: merged(old(self)@, *bullet).demarre_k,
                demarre_speed_pow: merged(old(self)@, *bullet).demarre_speed_pow,
                demarre_mass_pow: merged(old(self)@, *bullet).demarre_mass_pow,
                demarre_caliber_pow: merged(old(self)@, *bullet).demarre_caliber_pow,
                ..old(self)@
            }),
    {
        self.demarre_k = either(demarre_value(bullet, "demarrePenetrationK"), self.demarre_k);
        self.demarre_speed_pow = either(
            demarre_value(bullet, "demarreSpeedPow"),
            self.demarre_speed_pow,
        );
        self.demarre_mass_pow = either(
            demarre_value(bullet, "demarreMassPow"),
            self.demarre_mass_pow,
        );
        self.demarre_caliber_pow = either(
            demarre_value(bullet, "demarreCaliberPow"),
            self.demarre_caliber_pow,
        );
    }

    /// Takes over every value that a description of the bullet gives.
    pub fn merge(&mut self, bullet: &Json)
        ensures
            final(self)@ == merged(old(self)@, *bullet),
    {
        let source: &Json = match bullet.get("rocket") {
            Some(rocket) => rocket,
            None => bullet,
        };
        assert(*source == source_of(*bullet));
        match extract_bullet_name(bullet) {
            Some(name) => {
                self.bullet_name = Some(name);
            },
            None => {},
        }
        match text_member(bullet, "bulletType") {
            Some(t) => {
                self.bullet_type = Some(t);
            },
            None => {},
        }
        self.mass = either(
            number_member(source, "mass"),
            either(number_member(bullet, "mass"), self.mass),
        );
        self.caliber = either(
            number_member(source, "ballisticCaliber"),
            either(
                number_member(source, "caliber"),
                either(number_member(bullet, "caliber"), self.caliber),
            ),
        );
        self.speed = either(
            number_member(source, "endSpeed"),
            either(number_member(source, "speed"), self.speed),
        );
        self.cx = either(extract_cx(source), self.cx);
        self.explosive_mass = either(number_member(source, "explosiveMass"), self.explosive_mass);
        match text_member(source, "explosiveType") {
            Some(t) => {
                self.explosive_type = Some(t);
            },
            None => {},
        }
        self.damage_mass = either(number_member(source, "damageMass"), self.damage_mass);
        self.damage_caliber = either(number_member(source, "damageCaliber"), self.damage_caliber);
        self.merge_demarre(bullet);
        self.armor_power = either(extract_armor_power(bullet), self.armor_power);
    }

    /// The projectile of the bullet, if it has a name and a type.
    pub fn to_projectile(self) -> (r: Option<Projectile>)
        ensures
            match r {
                Some(p) => projectile_of(self@) == Some(p@),
                None => projectile_of(self@) is None,
            },
    {
        let name = match self.bullet_name {
            Some(n) => n,
            None => {
                return None;
            },
        };
        let bullet_type = match self.bullet_type {
            Some(t) => t,
            None => {
                return None;
            },
        };
        let demarre = if self.demarre_k.is_some() || self.demarre_speed_pow.is_some()
            || self.demarre_mass_pow.is_some() || self.demarre_caliber_pow.is_some() {
            Some(
                DemarreParams {
                    k: value_or(self.demarre_k, DEFAULT_K_BITS),
                    speed_pow: value_or(self.demarre_speed_pow, DEFAULT_SPEED_POW_BITS),
                    mass_pow: value_or(self.demarre_mass_pow, DEFAULT_MASS_POW_BITS),
                    caliber_pow: value_or(self.demarre_caliber_pow, DEFAULT_CALIBER_POW_BITS),
                },
            )
        } else {
            None
        };
        Some(
            Projectile {
                name,
                bullet_type,
                mass: self.mass,
                ballistic_caliber: self.caliber,
                speed: self.speed,
                cx: self.cx,
                explosive_mass: self.explosive_mass,
                explosive_type: self.explosive_type,
                damage_mass: self.damage_mass,
                damage_caliber: self.damage_caliber,
                demarre,
                armor_power: self.armor_power,
                armor_power_series: None,
            },
        )
    }
}

fn value_or(value: Option<u64>, default: u64) -> (r: u64)
    ensures
        r == or_default(value, default),
{
    match value {
        Some(v) => v,
        None => default,
    }
}

/// The one projectile of a top-level description, all its items merged.
pub fn collect_bullet_merged(value: &Json) -> (r: Option<Projectile>)
    ensures
        match r {
            Some(p) => merged_projectile(*value) == Some(p@),
            None => merged_projectile(*value) is None,
        },
{
    match value {
        Json::Array(items) => {
            let mut bullet = MergedBullet::new();
            let mut i: usize = 0;
            while i < items.len()
                invariant
                    i <= items@.len(),
                    bullet@ == merged_all(items@, i as int),
                decreases items@.len() - i,
            {
                bullet.merge(&items[i]);
                i += 1;
            }
            bullet.to_projectile()
        },
        Json::Object(_) => {
            let mut bullet = MergedBullet::new();
            bullet.merge(value);
            bullet.to_projectile()
        },
        _ => None,
    }
}

/// The one projectile of a belt: its first item alone.
pub fn collect_bullet_first(value: &Json) -> (r: Option<Projectile>)
    ensures
        match r {
            Some(p) => first_projectile(*value) == Some(p@),
            None => first_projectile(*value) is None,
        },
{
    match value {
        Json::Array(items) => {
            if items.len() > 0 {
                let mut bullet = MergedBullet::new();
                bullet.merge(&items[0]);
                bullet.to_projectile()
            } else {
                None
            }
        },
        Json::Object(_) => {
            let mut bullet = MergedBullet::new();
            bullet.merge(value);
            bullet.to_projectile()
        },
        _ => None,
    }
}

fn push_found(list: &mut Vec<Projectile>, found: Option<Projectile>)
    ensures
        projectile_models(final(list)@) == with(
            projectile_models(old(list)@),
            match found {
                Some(p) => Some(p@),
                None => None,
            },
        ),
{
    match found {
        Some(p) => {
            list.push(p);
            assert(projectile_models(list@) =~= projectile_models(old(list)@).push(p@));
        },
        None => {},
    }
}

/// Reads the projectiles of a weapon module. `vehicle_str` is the
/// description of the vehicle as text; a belt counts where that text names
/// it, and every belt counts without it.
pub fn parse_weapon_module(json: &Json, vehicle_str: Option<&str>) -> (r: Result<
    Vec<Projectile>,
    ParseError,
>)
    ensures
        r is Ok,
        projectile_models(r.unwrap()@) == weapon_projectiles(
            *json,
            match vehicle_str {
                Some(v) => Some(v@),
                None => None,
            },
        ),
{
    let mut list: Vec<Projectile> = Vec::new();
    let ghost vehicle: Option<Seq<char>> = match vehicle_str {
        Some(v) => Some(v@),
        None => None,
    };
    match json {
        Json::Object(members) => {
            assert(projectile_models(list@) =~= Seq::<ProjectileModel>::empty());
            let mut i: usize = 0;
            while i < members.len()
                invariant
                    i <= members@.len(),
                    vehicle == match vehicle_str {
                        Some(v) => Some(v@),
                        None => None,
                    },
                    projectile_models(list@) == module_projectiles(members@, i as int, vehicle),
                decreases members@.len() - i,
            {
                let name = members[i].0.as_str();
                let value = &members[i].1;
                if same_text(name, "bullet") || same_text(name, "rocket") {
                    push_found(&mut list, collect_bullet_merged(value));
                } else if value.is_object() && should_include_belt(name, vehicle_str) {
                    match value.get("bullet") {
                        Some(bullets) => {
                            push_found(&mut list, collect_bullet_first(bullets));
                        },
                        None => {},
                    }
                    match value.get("rocket") {
                        Some(rockets) => {
                            push_found(&mut list, collect_bullet_first(rockets));
                        },
                        None => {},
                    }
                }
                i += 1;
            }
        },
        _ => {
            assert(projectile_models(list@) =~= Seq::<ProjectileModel>::empty());
        },
    }
    Ok(list)
}

} // verus!
