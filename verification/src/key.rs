//! The memoisation key: every input that influences a table, compared bit
//! for bit.

use vstd::prelude::*;
use vstd::std_specs::cmp::PartialEqSpecImpl;
use crate::record::DataProjectile;
use crate::text::same_text;

verus! {

/// What a key stands for: the shell-type tag, the bit patterns of the physical
/// quantities, the armour-power curve as a sequence of bit-pattern pairs, and
/// the bit pattern of the sensitivity.
pub ghost struct KeyModel {
    pub normalized_type: Seq<char>,
    pub mass: u64,
    pub ballistic_caliber: u64,
    pub speed: u64,
    pub cx: u64,
    pub explosive_mass: u64,
    pub damage_mass: u64,
    pub damage_caliber: u64,
    pub demarre_k: u64,
    pub demarre_speed_pow: u64,
    pub demarre_mass_pow: u64,
    pub demarre_caliber_pow: u64,
    pub armor_power_table: Seq<(u64, u64)>,
    pub sensitivity: u64,
}

/// The key of a projectile at a sensitivity. Names play no part in it.
pub open spec fn key_of(proj: DataProjectile, sensitivity: u64) -> KeyModel {
    KeyModel {
        normalized_type: proj.normalized_type@,
        mass: proj.mass,
        ballistic_caliber: proj.ballistic_caliber,
        speed: proj.speed,
        cx: proj.cx,
        explosive_mass: proj.explosive_mass,
        damage_mass: proj.damage_mass,
        damage_caliber: proj.damage_caliber,
        demarre_k: proj.demarre_k,
        demarre_speed_pow: proj.demarre_speed_pow,
        demarre_mass_pow: proj.demarre_mass_pow,
        demarre_caliber_pow: proj.demarre_caliber_pow,
        armor_power_table: proj.armor_power_table@,
        sensitivity,
    }
}

/// Cache key of one projectile at one sensitivity.
#[derive(Clone, Debug, Hash)]
pub struct BallisticKey {
    normalized_type: String,
    mass: u64,
    ballistic_caliber: u64,
    speed: u64,
    cx: u64,
    explosive_mass: u64,
    damage_mass: u64,
    damage_caliber: u64,
    demarre_k: u64,
    demarre_speed_pow: u64,
    demarre_mass_pow: u64,
    demarre_caliber_pow: u64,
    armor_power_table: Vec<(u64, u64)>,
    sensitivity: u64,
}

impl View for BallisticKey {
    type V = KeyModel;

    closed spec fn view(&self) -> KeyModel {
        KeyModel {
            normalized_type: self.normalized_type@,
            mass: self.mass,
            ballistic_caliber: self.ballistic_caliber,
            speed: self.speed,
            cx: self.cx,
            explosive_mass: self.explosive_mass,
            damage_mass: self.damage_mass,
            damage_caliber: self.damage_caliber,
            demarre_k: self.demarre_k,
            demarre_speed_pow: self.demarre_speed_pow,
            demarre_mass_pow: self.demarre_mass_pow,
            demarre_caliber_pow: self.demarre_caliber_pow,
            armor_power_table: self.armor_power_table@,
            sensitivity: self.sensitivity,
        }
    }
}

fn copy_pairs(pairs: &Vec<(u64, u64)>) -> (r: Vec<(u64, u64)>)
    ensures
        r@ == pairs@,
{
    let mut r: Vec<(u64, u64)> = Vec::new();
    let mut i: usize = 0;
    while i < pairs.len()
        invariant
            i <= pairs@.len(),
            r@ == pairs@.take(i as int),
        decreases pairs@.len() - i,
    {
        r.push(pairs[i]);
        assert(r@ =~= pairs@.take(i + 1));
        i += 1;
    }
    assert(r@ =~= pairs@);
    r
}

fn same_pairs(a: &Vec<(u64, u64)>, b: &Vec<(u64, u64)>) -> (r: bool)
    ensures
        r == (a@ == b@),
{
    if a.len() != b.len() {
        return false;
    }
    let mut i: usize = 0;
    while i < a.len()
        invariant
            a@.len() == b@.len(),
            i <= a@.len(),
            forall|j: int| 0 <= j < i ==> a@[j] == b@[j],
        decreases a@.len() - i,
    {
        if a[i].0 != b[i].0 || a[i].1 != b[i].1 {
            return false;
        }
        i += 1;
    }
    assert(a@ =~= b@);
    true
}

impl BallisticKey {
    /// Builds the key of a projectile at a sensitivity, given as a bit pattern.
    pub fn new(proj: &DataProjectile, sensitivity: u64) -> (key: Self)
        ensures
            key@ == key_of(*proj, sensitivity),
    {
        BallisticKey {
            normalized_type: proj.normalized_type.clone(),
            mass: proj.mass,
            ballistic_caliber: proj.ballistic_caliber,
            speed: proj.speed,
            cx: proj.cx,
            explosive_mass: proj.explosive_mass,
            damage_mass: proj.damage_mass,
            damage_caliber: proj.damage_caliber,
            demarre_k: proj.demarre_k,
            demarre_speed_pow: proj.demarre_speed_pow,
            demarre_mass_pow: proj.demarre_mass_pow,
            demarre_caliber_pow: proj.demarre_caliber_pow,
            armor_power_table: copy_pairs(&proj.armor_power_table),
            sensitivity,
        }
    }
}

impl PartialEq for BallisticKey {
    fn eq(&self, other: &BallisticKey) -> (r: bool) {
        let r = same_text(self.normalized_type.as_str(), other.normalized_type.as_str())
            && self.mass == other.mass && self.ballistic_caliber == other.ballistic_caliber
            && self.speed == other.speed && self.cx == other.cx && self.explosive_mass
            == other.explosive_mass && self.damage_mass == other.damage_mass
            && self.damage_caliber == other.damage_caliber && self.demarre_k == other.demarre_k
            && self.demarre_speed_pow == other.demarre_speed_pow && self.demarre_mass_pow
            == other.demarre_mass_pow && self.demarre_caliber_pow == other.demarre_caliber_pow
            && same_pairs(&self.armor_power_table, &other.armor_power_table) && self.sensitivity
            == other.sensitivity;
        r
    }
}

impl PartialEqSpecImpl for BallisticKey {
    open spec fn obeys_eq_spec() -> bool {
        true
    }

    open spec fn eq_spec(&self, other: &BallisticKey) -> bool {
        self@ == other@
    }
}

impl Eq for BallisticKey {

}

/// Two keys are the same exactly when the tags, every bit pattern, the curves
/// and the sensitivities are the same: inputs that differ in a single bit of any
/// physical quantity have different keys, and names never tell keys apart.
pub proof fn keys_differ_by_any_bit(p: DataProjectile, s: u64, q: DataProjectile, t: u64)
    ensures
        key_of(p, s) == key_of(q, t) <==> {
            &&& p.normalized_type@ == q.normalized_type@
            &&& p.mass == q.mass
            &&& p.ballistic_caliber == q.ballistic_caliber
            &&& p.speed == q.speed
            &&& p.cx == q.cx
            &&& p.explosive_mass == q.explosive_mass
            &&& p.damage_mass == q.damage_mass
            &&& p.damage_caliber == q.damage_caliber
            &&& p.demarre_k == q.demarre_k
            &&& p.demarre_speed_pow == q.demarre_speed_pow
            &&& p.demarre_mass_pow == q.demarre_mass_pow
            &&& p.demarre_caliber_pow == q.demarre_caliber_pow
            &&& p.armor_power_table@ == q.armor_power_table@
            &&& s == t
        },
{
}

} // verus!
