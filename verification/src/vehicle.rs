//! The weapons of a vehicle: which module is its main weapon, and which are
//! its rocket or missile launchers.

use vstd::prelude::*;
use crate::error::ParseError;
use crate::json::{member, member_of, number_in, text_in, text_member, Json};
use crate::names::{blk_path_normalized, normalize_blk_path};
use crate::record::VehicleData;
use crate::text::{chars_of, contains, find, same_text};

verus! {

/// A weapon entry of a vehicle description.
#[derive(Clone, Debug)]
pub struct WeaponEntry {
    pub blk_path: String,
    pub trigger: Option<String>,
    pub trigger_group: Option<String>,
}

/// What a weapon entry stands for.
pub ghost struct WeaponModel {
    pub blk_path: Seq<char>,
    pub trigger: Option<Seq<char>>,
    pub trigger_group: Option<Seq<char>>,
}

impl View for WeaponEntry {
    type V = WeaponModel;

    open spec fn view(&self) -> WeaponModel {
        WeaponModel {
            blk_path: self.blk_path@,
            trigger: path_text(self.trigger),
            trigger_group: path_text(self.trigger_group),
        }
    }
}

/// What a sequence of weapon entries stands for.
pub open spec fn models(weapons: Seq<WeaponEntry>) -> Seq<WeaponModel> {
    weapons.map_values(|w: WeaponEntry| w@)
}

/// The weapon belongs to the trigger group `special`.
pub open spec fn is_special(weapon: WeaponModel) -> bool {
    weapon.trigger_group == Some("special"@)
}

/// The weapon can be the main one: a ground-model module outside the trigger
/// group `special`.
pub open spec fn is_primary(weapon: WeaponModel) -> bool {
    contains(weapon.blk_path, "groundModels_weapons"@) && !is_special(weapon)
}

/// The first weapon at or after `from` that can be the main one.
pub open spec fn first_primary(weapons: Seq<WeaponModel>, from: int) -> Option<int>
    decreases weapons.len() - from,
{
    if from >= weapons.len() {
        None
    } else if is_primary(weapons[from]) {
        Some(from)
    } else {
        first_primary(weapons, from + 1)
    }
}

pub open spec fn path_text(path: Option<String>) -> Option<Seq<char>> {
    match path {
        Some(p) => Some(p@),
        None => None,
    }
}

pub open spec fn path_texts(paths: Seq<String>) -> Seq<Seq<char>> {
    paths.map_values(|p: String| p@)
}

/// The main weapon once `weapons` have been seen: the one already known, else
/// the first that can be the main one.
pub open spec fn weapon_path_after(known: Option<Seq<char>>, weapons: Seq<WeaponModel>) -> Option<
    Seq<char>,
> {
    match known {
        Some(p) => Some(p),
        None => match first_primary(weapons, 0) {
            Some(i) => Some(weapons[i].blk_path),
            None => None,
        },
    }
}

/// The launcher paths once the first `n` of `weapons` have been seen: each
/// weapon of the group `special` adds its path, unless the path is already
/// there or two paths are known.
pub open spec fn rockets_after(known: Seq<Seq<char>>, weapons: Seq<WeaponModel>, n: int) -> Seq<
    Seq<char>,
>
    decreases n,
{
    if n <= 0 {
        known
    } else {
        let before = rockets_after(known, weapons, n - 1);
        let weapon = weapons[n - 1];
        if is_special(weapon) && !before.contains(weapon.blk_path) && before.len() < 2 {
            before.push(weapon.blk_path)
        } else {
            before
        }
    }
}

/// Whether the description of a vehicle, as text, speaks of a laser: the word
/// in lower case, anywhere in it.
pub fn check_has_laser(description: &str) -> (r: bool)
    ensures
        r == contains(description@, "laser"@),
{
    let text = chars_of(description);
    let word = chars_of("laser");
    find(&text, &word).is_some()
}

fn in_special_group(weapon: &WeaponEntry) -> (r: bool)
    ensures
        r == is_special(weapon@),
{
    match &weapon.trigger_group {
        Some(group) => same_text(group.as_str(), "special"),
        None => false,
    }
}

fn holds_path(paths: &Vec<String>, path: &str) -> (r: bool)
    ensures
        r == path_texts(paths@).contains(path@),
{
    let mut i: usize = 0;
    while i < paths.len()
        invariant
            i <= paths@.len(),
            forall|j: int| 0 <= j < i ==> path_texts(paths@)[j] != path@,
        decreases paths@.len() - i,
    {
        if same_text(paths[i].as_str(), path) {
            assert(path_texts(paths@)[i as int] == path@);
            return true;
        }
        i += 1;
    }
    false
}

fn find_primary(weapons: &Vec<WeaponEntry>) -> (r: Option<usize>)
    ensures
        match r {
            Some(i) => first_primary(models(weapons@), 0) == Some(i as int) && i < weapons@.len(),
            None => first_primary(models(weapons@), 0) is None,
        },
{
    let marker = chars_of("groundModels_weapons");
    let mut i: usize = 0;
    while i < weapons.len()
        invariant
            i <= weapons@.len(),
            marker@ == "groundModels_weapons"@,
            first_primary(models(weapons@), i as int) == first_primary(models(weapons@), 0),
        decreases weapons@.len() - i,
    {
        let path = chars_of(weapons[i].blk_path.as_str());
        if find(&path, &marker).is_some() && !in_special_group(&weapons[i]) {
            return Some(i);
        }
        i += 1;
    }
    None
}

/// Sorts the weapons of a vehicle into its main weapon and its launchers.
pub fn classify_weapons(weapons: &Vec<WeaponEntry>, data: &mut VehicleData)
    ensures
        path_text(final(data).weapon_path) == weapon_path_after(
            path_text(old(data).weapon_path),
            models(weapons@),
        ),
        path_texts(final(data).rocket_paths@) == rockets_after(
            path_texts(old(data).rocket_paths@),
            models(weapons@),
            weapons@.len() as int,
        ),
        final(data).id == old(data).id,
        final(data).zoom_in == old(data).zoom_in,
        final(data).zoom_out == old(data).zoom_out,
        final(data).zoom_in_2 == old(data).zoom_in_2,
        final(data).zoom_out_2 == old(data).zoom_out_2,
        final(data).has_laser == old(data).has_laser,
        final(data).projectiles == old(data).projectiles,
{
    if data.weapon_path.is_none() {
        match find_primary(weapons) {
            Some(i) => {
                data.weapon_path = Some(weapons[i].blk_path.clone());
            },
            None => {},
        }
    }
    let ghost known = path_texts(old(data).rocket_paths@);
    let mut k: usize = 0;
    while k < weapons.len()
        invariant
            k <= weapons@.len(),
            known == path_texts(old(data).rocket_paths@),
            path_texts(data.rocket_paths@) == rockets_after(known, models(weapons@), k as int),
            path_text(data.weapon_path) == weapon_path_after(
                path_text(old(data).weapon_path),
                models(weapons@),
            ),
            data.id == old(data).id,
            data.zoom_in == old(data).zoom_in,
            data.zoom_out == old(data).zoom_out,
            data.zoom_in_2 == old(data).zoom_in_2,
            data.zoom_out_2 == old(data).zoom_out_2,
            data.has_laser == old(data).has_laser,
            data.projectiles == old(data).projectiles,
        decreases weapons@.len() - k,
    {
        if in_special_group(&weapons[k]) && !holds_path(
            &data.rocket_paths,
            weapons[k].blk_path.as_str(),
        ) && data.rocket_paths.len() < 2 {
            let ghost before = data.rocket_paths@;
            data.rocket_paths.push(weapons[k].blk_path.clone());
            assert(path_texts(data.rocket_paths@) =~= path_texts(before).push(
                weapons@[k as int].blk_path@,
            ));
        }
        k += 1;
    }
}

/// The first number among the items at or after `from`.
pub open spec fn first_number(items: Seq<Json>, from: int) -> Option<u64>
    decreases items.len() - from,
{
    if from < 0 || from >= items.len() {
        None
    } else if items[from] is Number {
        number_in(Some(items[from]))
    } else {
        first_number(items, from + 1)
    }
}

/// A field of view: a number, or the first number of an array.
pub open spec fn fov_of(value: Option<Json>) -> Option<u64> {
    match value {
        Some(Json::Number(n)) => Some(n),
        Some(Json::Array(items)) => first_number(items@, 0),
        _ => None,
    }
}

/// The four zoom values of a vehicle.
pub ghost struct Zooms {
    pub zoom_in: Option<u64>,
    pub zoom_out: Option<u64>,
    pub zoom_in_2: Option<u64>,
    pub zoom_out_2: Option<u64>,
}

pub open spec fn zooms_of(data: VehicleData) -> Zooms {
    Zooms {
        zoom_in: data.zoom_in,
        zoom_out: data.zoom_out,
        zoom_in_2: data.zoom_in_2,
        zoom_out_2: data.zoom_out_2,
    }
}

pub open spec fn no_zooms() -> Zooms {
    Zooms { zoom_in: None, zoom_out: None, zoom_in_2: None, zoom_out_2: None }
}

/// The zoom values once a cockpit description has been read: a single
/// cockpit gives the primary pair; of several, the first gives the primary and
/// the second the secondary pair, each only where it is an object.
pub open spec fn zooms_after(cockpit: Json, before: Zooms) -> Zooms {
    match cockpit {
        Json::Object(_) => Zooms {
            zoom_in: fov_of(member(cockpit, "zoomInFov"@)),
            zoom_out: fov_of(member(cockpit, "zoomOutFov"@)),
            ..before
        },
        Json::Array(items) => {
            let first = if items@.len() > 0 && items@[0] is Object {
                Zooms {
                    zoom_in: fov_of(member(items@[0], "zoomInFov"@)),
                    zoom_out: fov_of(member(items@[0], "zoomOutFov"@)),
                    ..before
                }
            } else {
                before
            };
            if items@.len() > 1 && items@[1] is Object {
                Zooms {
                    zoom_in_2: fov_of(member(items@[1], "zoomInFov"@)),
                    zoom_out_2: fov_of(member(items@[1], "zoomOutFov"@)),
                    ..first
                }
            } else {
                first
            }
        },
        _ => before,
    }
}

/// The weapons that a `commonWeapons` description lists: the items of its
/// member `Weapon`, or that member itself where it is a single object.
pub open spec fn weapon_list(common: Json) -> Seq<Json> {
    match member(common, "Weapon"@) {
        Some(Json::Array(items)) => items@,
        Some(Json::Object(members)) => seq![Json::Object(members)],
        _ => Seq::<Json>::empty(),
    }
}

/// The entry of a weapon that names its module.
pub open spec fn entry_of(weapon: Json) -> Option<WeaponModel> {
    match text_in(member(weapon, "blk"@)) {
        Some(blk) => Some(
            WeaponModel {
                blk_path: blk_path_normalized(blk),
                trigger: text_in(member(weapon, "trigger"@)),
                trigger_group: text_in(member(weapon, "triggerGroup"@)),
            },
        ),
        None => None,
    }
}

/// The entries of the first `n` weapons.
pub open spec fn entries_of(weapons: Seq<Json>, n: int) -> Seq<WeaponModel>
    decreases n,
{
    if n <= 0 {
        Seq::<WeaponModel>::empty()
    } else {
        match entry_of(weapons[n - 1]) {
            Some(e) => entries_of(weapons, n - 1).push(e),
            None => entries_of(weapons, n - 1),
        }
    }
}

/// The weapon entries of a `commonWeapons` description.
pub open spec fn weapon_entries(common: Json) -> Seq<WeaponModel> {
    entries_of(weapon_list(common), weapon_list(common).len() as int)
}

/// The main weapon and the launchers of a vehicle.
pub ghost struct Armament {
    pub weapon_path: Option<Seq<char>>,
    pub rocket_paths: Seq<Seq<char>>,
}

/// The armament once the weapons of a description, if there is one, have been
/// sorted in.
pub open spec fn armed_by(known: Armament, common: Option<Json>) -> Armament {
    match common {
        Some(c) => Armament {
            weapon_path: weapon_path_after(known.weapon_path, weapon_entries(c)),
            rocket_paths: rockets_after(
                known.rocket_paths,
                weapon_entries(c),
                weapon_entries(c).len() as int,
            ),
        },
        None => known,
    }
}

/// The armament once the weapons that the first `n` modifications bring have
/// been sorted in.
pub open spec fn armed_by_modifications(known: Armament, mods: Seq<(String, Json)>, n: int) -> Armament
    decreases n,
{
    if n <= 0 {
        known
    } else {
        armed_by(
            armed_by_modifications(known, mods, n - 1),
            member_of(member(mods[n - 1].1, "effects"@), "commonWeapons"@),
        )
    }
}

/// The armament of a vehicle: its own weapons first, then those of its
/// modifications in the order of the description.
pub open spec fn armament_of(vehicle: Json) -> Armament {
    let own = armed_by(
        Armament { weapon_path: None, rocket_paths: Seq::empty() },
        member(vehicle, "commonWeapons"@),
    );
    match member(vehicle, "modifications"@) {
        Some(Json::Object(mods)) => armed_by_modifications(own, mods@, mods@.len() as int),
        _ => own,
    }
}

pub open spec fn armament(data: VehicleData) -> Armament {
    Armament {
        weapon_path: path_text(data.weapon_path),
        rocket_paths: path_texts(data.rocket_paths@),
    }
}

/// Reads a field of view from the member with the given name.
pub fn extract_fov_value(json: &Json, name: &str) -> (r: Option<u64>)
    ensures
        r == fov_of(member(*json, name@)),
{
    match json.get(name) {
        Some(Json::Number(n)) => Some(*n),
        Some(Json::Array(items)) => {
            let mut i: usize = 0;
            while i < items.len()
                invariant
                    i <= items@.len(),
                    fov_of(member(*json, name@)) == first_number(items@, 0),
                    first_number(items@, i as int) == first_number(items@, 0),
                decreases items@.len() - i,
            {
                match &items[i] {
                    Json::Number(n) => {
                        assert(first_number(items@, i as int) == Some(*n));
                        return Some(*n);
                    },
                    _ => {},
                }
                i += 1;
            }
            None
        },
        _ => None,
    }
}

/// Reads the zoom values of a vehicle from its cockpit description.
pub fn extract_zoom_values(cockpit: &Json, data: &mut VehicleData)
    ensures
        zooms_of(*final(data)) == zooms_after(*cockpit, zooms_of(*old(data))),
        final(data).id == old(data).id,
        final(data).weapon_path == old(data).weapon_path,
        final(data).rocket_paths == old(data).rocket_paths,
        final(data).has_laser == old(data).has_laser,
        final(data).projectiles == old(data).projectiles,
{
    match cockpit {
        Json::Object(_) => {
            data.zoom_in = extract_fov_value(cockpit, "zoomInFov");
            data.zoom_out = extract_fov_value(cockpit, "zoomOutFov");
        },
        Json::Array(items) => {
            if items.len() > 0 && items[0].is_object() {
                data.zoom_in = extract_fov_value(&items[0], "zoomInFov");
                data.zoom_out = extract_fov_value(&items[0], "zoomOutFov");
            }
            if items.len() > 1 && items[1].is_object() {
                data.zoom_in_2 = extract_fov_value(&items[1], "zoomInFov");
                data.zoom_out_2 = extract_fov_value(&items[1], "zoomOutFov");
            }
        },
        _ => {},
    }
}

fn entry(weapon: &Json) -> (r: Option<WeaponEntry>)
    ensures
        match r {
            Some(e) => entry_of(*weapon) == Some(e@),
            None => entry_of(*weapon) is None,
        },
{
    match text_member(weapon, "blk") {
        Some(blk) => Some(
            WeaponEntry {
                blk_path: normalize_blk_path(blk.as_str()),
                trigger: text_member(weapon, "trigger"),
                trigger_group: text_member(weapon, "triggerGroup"),
            },
        ),
        None => None,
    }
}

/// Reads the weapon entries of a `commonWeapons` description.
pub fn extract_weapon_entries(common_weapons: &Json) -> (r: Vec<WeaponEntry>)
    ensures
        models(r@) == weapon_entries(*common_weapons),
{
    let mut entries: Vec<WeaponEntry> = Vec::new();
    match common_weapons.get("Weapon") {
        Some(Json::Array(items)) => {
            let mut i: usize = 0;
            while i < items.len()
                invariant
                    i <= items@.len(),
                    models(entries@) == entries_of(items@, i as int),
                decreases items@.len() - i,
            {
                let ghost before = entries@;
                match entry(&items[i]) {
                    Some(e) => {
                        entries.push(e);
                        assert(models(entries@) =~= models(before).push(e@));
                    },
                    None => {},
                }
                i += 1;
            }
        },
        Some(single) => {
            if single.is_object() {
                match entry(single) {
                    Some(e) => {
                        entries.push(e);
                        assert(models(entries@) =~= Seq::<WeaponModel>::empty().push(e@));
                    },
                    None => {},
                }
                assert(weapon_list(*common_weapons) =~= seq![*single]);
                assert(entries_of(seq![*single], 0) =~= Seq::<WeaponModel>::empty());
            }
        },
        None => {},
    }
    assert(models(entries@) =~= weapon_entries(*common_weapons));
    entries
}

fn arm(data: &mut VehicleData, common: Option<&Json>)
    ensures
        armament(*final(data)) == armed_by(
            armament(*old(data)),
            match common {
                Some(c) => Some(*c),
                None => None,
            },
        ),
        final(data).id == old(data).id,
        zooms_of(*final(data)) == zooms_of(*old(data)),
        final(data).has_laser == old(data).has_laser,
        final(data).projectiles == old(data).projectiles,
{
    match common {
        Some(c) => {
            let weapons = extract_weapon_entries(c);
            classify_weapons(&weapons, data);
        },
        None => {},
    }
}

fn effects_weapons(modification: &Json) -> (r: Option<&Json>)
    ensures
        (match r {
            Some(c) => Some(*c),
            None => None,
        }) == member_of(member(*modification, "effects"@), "commonWeapons"@),
{
    match modification.get("effects") {
        Some(effects) => effects.get("commonWeapons"),
        None => None,
    }
}

/// Reads the header of a vehicle from its description: the zoom values, the
/// laser, the main weapon and the launchers. `description` is the same
/// document as text.
pub fn parse_vehicle(json: &Json, description: &str, vehicle_id: &str) -> (r: Result<
    VehicleData,
    ParseError,
>)
    ensures
        r is Ok,
        r.unwrap().id@ == vehicle_id@,
        zooms_of(r.unwrap()) == match member(*json, "cockpit"@) {
            Some(c) => zooms_after(c, no_zooms()),
            None => no_zooms(),
        },
        r.unwrap().has_laser == contains(description@, "laser"@),
        armament(r.unwrap()) == armament_of(*json),
        r.unwrap().projectiles@.len() == 0,
{
    let mut data = VehicleData::new(vehicle_id);
    match json.get("cockpit") {
        Some(cockpit) => {
            extract_zoom_values(cockpit, &mut data);
        },
        None => {},
    }
    data.has_laser = check_has_laser(description);
    assert(path_texts(data.rocket_paths@) =~= Seq::<Seq<char>>::empty());
    arm(&mut data, json.get("commonWeapons"));
    match json.get("modifications") {
        Some(Json::Object(mods)) => {
            let ghost own = armament(data);
            let mut i: usize = 0;
            while i < mods.len()
                invariant
                    i <= mods@.len(),
                    armament(data) == armed_by_modifications(own, mods@, i as int),
                    data.id@ == vehicle_id@,
                    zooms_of(data) == match member(*json, "cockpit"@) {
                        Some(c) => zooms_after(c, no_zooms()),
                        None => no_zooms(),
                    },
                    data.has_laser == contains(description@, "laser"@),
                    data.projectiles@.len() == 0,
                decreases mods@.len() - i,
            {
                arm(&mut data, effects_weapons(&mods[i].1));
                i += 1;
            }
        },
        _ => {},
    }
    Ok(data)
}

} // verus!
