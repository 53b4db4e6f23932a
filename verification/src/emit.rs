//! Writer of vehicle data files.
//!
//! A number is written as the shortest decimal text that reads back as the
//! same value; that text comes from the caller. What the writer adds is a
//! fraction of zero where the text holds no decimal point.

use vstd::prelude::*;
use vstd::string::StringExecFns;
use crate::record::{ArmorPowerSeries, DemarreParams, Projectile, ProjectileModel, VehicleData, DEFAULT_CX_BITS};
use crate::text::{chars_of, is_space, slice, string_of, trailing};

verus! {

/// `number` computes `text`: whatever it returns for a bit pattern is the
/// text that `text` gives for it.
pub open spec fn computes<F: Fn(u64) -> String>(number: F, text: spec_fn(u64) -> Seq<char>) -> bool {
    forall|bits: u64, s: String| #[trigger] call_ensures(number, (bits,), s) ==> s@ == text(bits)
}

/// The text of a number with a decimal point in it: the text itself, or the
/// text followed by `.0`.
pub open spec fn with_point(s: Seq<char>) -> Seq<char> {
    if s.contains('.') {
        s
    } else {
        s + seq!['.', '0']
    }
}

/// A line `key:value`.
pub open spec fn line(key: Seq<char>, value: Seq<char>) -> Seq<char> {
    key + seq![':'] + value + seq!['\n']
}

/// The line of a number, or nothing where the number is absent.
pub open spec fn number_line(key: Seq<char>, value: Option<u64>, text: spec_fn(u64) -> Seq<char>) -> Seq<
    char,
> {
    match value {
        Some(bits) => line(key, with_point(text(bits))),
        None => Seq::<char>::empty(),
    }
}

/// The line of a text, or nothing where the text is absent.
pub open spec fn text_line(key: Seq<char>, value: Option<Seq<char>>) -> Seq<char> {
    match value {
        Some(v) => line(key, v),
        None => Seq::<char>::empty(),
    }
}

/// The four lines of the parameters of the penetration formula.
pub open spec fn demarre_lines(demarre: Option<DemarreParams>, text: spec_fn(u64) -> Seq<char>) -> Seq<
    char,
> {
    match demarre {
        Some(d) => number_line("demarrePenetrationK"@, Some(d.k), text) + number_line(
            "demarreSpeedPow"@,
            Some(d.speed_pow),
            text,
        ) + number_line("demarreMassPow"@, Some(d.mass_pow), text) + number_line(
            "demarreCaliberPow"@,
            Some(d.caliber_pow),
            text,
        ),
        None => Seq::<char>::empty(),
    }
}

/// The lines of a series up to 2000 m.
pub open spec fn near_lines(s: ArmorPowerSeries, text: spec_fn(u64) -> Seq<char>) -> Seq<char> {
    number_line("APDS0"@, s.ap_0m, text) + number_line("APDS100"@, s.ap_100m, text) + number_line(
        "APDS500"@,
        s.ap_500m,
        text,
    ) + number_line("APDS1000"@, s.ap_1000m, text) + number_line("APDS1500"@, s.ap_1500m, text)
        + number_line("APDS2000"@, s.ap_2000m, text)
}

/// The lines of a series beyond 2000 m.
pub open spec fn far_lines(s: ArmorPowerSeries, text: spec_fn(u64) -> Seq<char>) -> Seq<char> {
    number_line("APDS2500"@, s.ap_2500m, text) + number_line("APDS3000"@, s.ap_3000m, text)
        + number_line("APDS3500"@, s.ap_3500m, text) + number_line("APDS4000"@, s.ap_4000m, text)
        + number_line("APDS4500"@, s.ap_4500m, text) + number_line(
        "APDS10000"@,
        s.ap_10000m,
        text,
    )
}

/// The lines of an armour-power series, one for each value it holds.
pub open spec fn series_lines(series: Option<ArmorPowerSeries>, text: spec_fn(u64) -> Seq<char>) -> Seq<
    char,
> {
    match series {
        Some(s) => near_lines(s, text) + far_lines(s, text),
        None => Seq::<char>::empty(),
    }
}

/// The first lines of a projectile: name, type, mass, caliber and speed.
pub open spec fn identity_lines(p: ProjectileModel, text: spec_fn(u64) -> Seq<char>) -> Seq<char> {
    line("Name"@, p.name) + line("Type"@, p.bullet_type) + number_line("BulletMass"@, p.mass, text)
        + number_line("BallisticCaliber"@, p.ballistic_caliber, text) + number_line(
        "Speed"@,
        p.speed,
        text,
    )
}

/// The lines of drag, filler and core. The drag coefficient is always
/// written, the default one where none is known.
pub open spec fn body_lines(p: ProjectileModel, text: spec_fn(u64) -> Seq<char>) -> Seq<char> {
    number_line(
        "Cx"@,
        Some(
            match p.cx {
                Some(cx) => cx,
                None => DEFAULT_CX_BITS,
            },
        ),
        text,
    ) + number_line("ExplosiveMass"@, p.explosive_mass, text) + text_line(
        "ExplosiveType"@,
        p.explosive_type,
    ) + number_line("DamageMass"@, p.damage_mass, text) + number_line(
        "DamageCaliber"@,
        p.damage_caliber,
        text,
    )
}

/// The block of a projectile: a blank line, then its lines.
pub open spec fn projectile_text(p: ProjectileModel, text: spec_fn(u64) -> Seq<char>) -> Seq<char> {
    seq!['\n'] + identity_lines(p, text) + body_lines(p, text) + demarre_lines(p.demarre, text)
        + number_line("ArmorPower"@, p.armor_power, text) + series_lines(
        p.armor_power_series,
        text,
    )
}

/// The blocks of the first `n` projectiles.
pub open spec fn projectiles_text(list: Seq<Projectile>, n: int, text: spec_fn(u64) -> Seq<char>) -> Seq<
    char,
>
    decreases n,
{
    if n <= 0 {
        Seq::<char>::empty()
    } else {
        projectiles_text(list, n - 1, text) + projectile_text(list[n - 1]@, text)
    }
}

/// The lines of the first `n` launcher paths.
pub open spec fn rocket_lines(paths: Seq<String>, n: int) -> Seq<char>
    decreases n,
{
    if n <= 0 {
        Seq::<char>::empty()
    } else {
        rocket_lines(paths, n - 1) + line("RocketPath"@, paths[n - 1]@)
    }
}

/// The header of a vehicle.
pub open spec fn header_text(data: VehicleData, text: spec_fn(u64) -> Seq<char>) -> Seq<char> {
    text_line(
        "WeaponPath"@,
        match data.weapon_path {
            Some(p) => Some(p@),
            None => None,
        },
    ) + rocket_lines(data.rocket_paths@, data.rocket_paths@.len() as int) + number_line(
        "ZoomIn"@,
        data.zoom_in,
        text,
    ) + number_line("ZoomOut"@, data.zoom_out, text) + (if data.has_laser {
        "HasLaser\n"@
    } else {
        Seq::<char>::empty()
    })
}

/// `s` without the white space at its end.
pub open spec fn trimmed_end(s: Seq<char>) -> Seq<char> {
    s.take(trailing(s, s.len() as int))
}

/// The file of a vehicle: the header, the blocks of its projectiles, and no
/// white space at the end.
pub open spec fn emitted(data: VehicleData, text: spec_fn(u64) -> Seq<char>) -> Seq<char> {
    trimmed_end(
        header_text(data, text) + projectiles_text(
            data.projectiles@,
            data.projectiles@.len() as int,
            text,
        ),
    )
}

/// Whether a text holds a decimal point.
fn has_point(s: &Vec<char>) -> (r: bool)
    ensures
        r == s@.contains('.'),
{
    let mut i: usize = 0;
    while i < s.len()
        invariant
            i <= s@.len(),
            forall|j: int| 0 <= j < i ==> s@[j] != '.',
        decreases s@.len() - i,
    {
        if s[i] == '.' {
            return true;
        }
        i += 1;
    }
    false
}

/// Gives the text of a number its decimal point.
pub fn fmt_float(shortest: &str) -> (r: String)
    ensures
        r@ == with_point(shortest@),
{
    let chars = chars_of(shortest);
    if has_point(&chars) {
        String::from_str(shortest)
    } else {
        proof {
            reveal_strlit(".0");
        }
        let r = String::from_str(shortest).concat(".0");
        assert(r@ =~= shortest@ + seq!['.', '0']);
        r
    }
}

fn push_line(out: &mut String, key: &str, value: &str)
    ensures
        final(out)@ == old(out)@ + line(key@, value@),
{
    proof {
        reveal_strlit(":");
        reveal_strlit("\n");
    }
    out.append(key);
    out.append(":");
    out.append(value);
    out.append("\n");
    assert(final(out)@ =~= old(out)@ + line(key@, value@));
}

fn push_text_line(out: &mut String, key: &str, value: &Option<String>)
    ensures
        final(out)@ == old(out)@ + text_line(
            key@,
            match *value {
                Some(v) => Some(v@),
                None => None,
            },
        ),
{
    match value {
        Some(v) => {
            push_line(out, key, v.as_str());
        },
        None => {
            assert(out@ =~= old(out)@ + Seq::<char>::empty());
        },
    }
}

fn push_number_line<F: Fn(u64) -> String>(out: &mut String, key: &str, value: Option<u64>, number: &F)
    requires
        forall|bits: u64| call_requires(*number, (bits,)),
    ensures
        forall|text: spec_fn(u64) -> Seq<char>| #[trigger]
            computes(*number, text) ==> final(out)@ == old(out)@ + number_line(key@, value, text),
{
    match value {
        Some(bits) => {
            let shortest = number(bits);
            let shown = fmt_float(shortest.as_str());
            push_line(out, key, shown.as_str());
        },
        None => {
            assert(out@ =~= old(out)@ + Seq::<char>::empty());
        },
    }
}

fn push_identity<F: Fn(u64) -> String>(out: &mut String, p: &Projectile, number: &F)
    requires
        forall|bits: u64| call_requires(*number, (bits,)),
    ensures
        forall|text: spec_fn(u64) -> Seq<char>| #[trigger]
            computes(*number, text) ==> final(out)@ == old(out)@ + identity_lines(p@, text),
{
    push_line(out, "Name", p.name.as_str());
    push_line(out, "Type", p.bullet_type.as_str());
    push_number_line(out, "BulletMass", p.mass, number);
    push_number_line(out, "BallisticCaliber", p.ballistic_caliber, number);
    push_number_line(out, "Speed", p.speed, number);
    assert forall|text: spec_fn(u64) -> Seq<char>| #[trigger]
        computes(*number, text) implies out@ =~= old(out)@ + identity_lines(p@, text) by {}
}

fn push_body<F: Fn(u64) -> String>(out: &mut String, p: &Projectile, number: &F)
    requires
        forall|bits: u64| call_requires(*number, (bits,)),
    ensures
        forall|text: spec_fn(u64) -> Seq<char>| #[trigger]
            computes(*number, text) ==> final(out)@ == old(out)@ + body_lines(p@, text),
{
    let cx: u64 = match p.cx {
        Some(cx) => cx,
        None => DEFAULT_CX_BITS,
    };
    push_number_line(out, "Cx", Some(cx), number);
    push_number_line(out, "ExplosiveMass", p.explosive_mass, number);
    push_text_line(out, "ExplosiveType", &p.explosive_type);
    push_number_line(out, "DamageMass", p.damage_mass, number);
    push_number_line(out, "DamageCaliber", p.damage_caliber, number);
    assert forall|text: spec_fn(u64) -> Seq<char>| #[trigger]
        computes(*number, text) implies out@ =~= old(out)@ + body_lines(p@, text) by {}
}

fn push_demarre<F: Fn(u64) -> String>(out: &mut String, demarre: Option<DemarreParams>, number: &F)
    requires
        forall|bits: u64| call_requires(*number, (bits,)),
    ensures
        forall|text: spec_fn(u64) -> Seq<char>| #[trigger]
            computes(*number, text) ==> final(out)@ == old(out)@ + demarre_lines(demarre, text),
{
    match demarre {
        Some(d) => {
            push_number_line(out, "demarrePenetrationK", Some(d.k), number);
            push_number_line(out, "demarreSpeedPow", Some(d.speed_pow), number);
            push_number_line(out, "demarreMassPow", Some(d.mass_pow), number);
            push_number_line(out, "demarreCaliberPow", Some(d.caliber_pow), number);
        },
        None => {},
    }
    assert forall|text: spec_fn(u64) -> Seq<char>| #[trigger]
        computes(*number, text) implies out@ =~= old(out)@ + demarre_lines(demarre, text) by {}
}

fn push_near<F: Fn(u64) -> String>(out: &mut String, s: &ArmorPowerSeries, number: &F)
    requires
        forall|bits: u64| call_requires(*number, (bits,)),
    ensures
        forall|text: spec_fn(u64) -> Seq<char>| #[trigger]
            computes(*number, text) ==> final(out)@ == old(out)@ + near_lines(*s, text),
{
    push_number_line(out, "APDS0", s.ap_0m, number);
    push_number_line(out, "APDS100", s.ap_100m, number);
    push_number_line(out, "APDS500", s.ap_500m, number);
    push_number_line(out, "APDS1000", s.ap_1000m, number);
    push_number_line(out, "APDS1500", s.ap_1500m, number);
    push_number_line(out, "APDS2000", s.ap_2000m, number);
    assert forall|text: spec_fn(u64) -> Seq<char>| #[trigger]
        computes(*number, text) implies out@ =~= old(out)@ + near_lines(*s, text) by {}
}

fn push_far<F: Fn(u64) -> String>(out: &mut String, s: &ArmorPowerSeries, number: &F)
    requires
        forall|bits: u64| call_requires(*number, (bits,)),
    ensures
        forall|text: spec_fn(u64) -> Seq<char>| #[trigger]
            computes(*number, text) ==> final(out)@ == old(out)@ + far_lines(*s, text),
{
    push_number_line(out, "APDS2500", s.ap_2500m, number);
    push_number_line(out, "APDS3000", s.ap_3000m, number);
    push_number_line(out, "APDS3500", s.ap_3500m, number);
    push_number_line(out, "APDS4000", s.ap_4000m, number);
    push_number_line(out, "APDS4500", s.ap_4500m, number);
    push_number_line(out, "APDS10000", s.ap_10000m, number);
    assert forall|text: spec_fn(u64) -> Seq<char>| #[trigger]
        computes(*number, text) implies out@ =~= old(out)@ + far_lines(*s, text) by {}
}

fn push_series<F: Fn(u64) -> String>(out: &mut String, series: &Option<ArmorPowerSeries>, number: &F)
    requires
        forall|bits: u64| call_requires(*number, (bits,)),
    ensures
        forall|text: spec_fn(u64) -> Seq<char>| #[trigger]
            computes(*number, text) ==> final(out)@ == old(out)@ + series_lines(*series, text),
{
    match series {
        Some(s) => {
            push_near(out, s, number);
            push_far(out, s, number);
        },
        None => {},
    }
    assert forall|text: spec_fn(u64) -> Seq<char>| #[trigger]
        computes(*number, text) implies out@ =~= old(out)@ + series_lines(*series, text) by {}
}

fn push_projectile<F: Fn(u64) -> String>(out: &mut String, p: &Projectile, number: &F)
    requires
        forall|bits: u64| call_requires(*number, (bits,)),
    ensures
        forall|text: spec_fn(u64) -> Seq<char>| #[trigger]
            computes(*number, text) ==> final(out)@ == old(out)@ + projectile_text(p@, text),
{
    proof {
        reveal_strlit("\n");
    }
    out.append("\n");
    push_identity(out, p, number);
    push_body(out, p, number);
    push_demarre(out, p.demarre, number);
    push_number_line(out, "ArmorPower", p.armor_power, number);
    push_series(out, &p.armor_power_series, number);
    assert forall|text: spec_fn(u64) -> Seq<char>| #[trigger]
        computes(*number, text) implies out@ =~= old(out)@ + projectile_text(p@, text) by {}
}

/// Writes the data file of a vehicle. `number` gives the shortest decimal
/// text of a value, given as a bit pattern.
pub fn emit_legacy_txt<F: Fn(u64) -> String>(data: &VehicleData, number: F) -> (r: String)
    requires
        forall|bits: u64| call_requires(number, (bits,)),
    ensures
        forall|text: spec_fn(u64) -> Seq<char>| #[trigger]
            computes(number, text) ==> r@ == emitted(*data, text),
{
    let mut out = String::new();
    push_text_line(&mut out, "WeaponPath", &data.weapon_path);
    let ghost after_weapon = out@;
    let mut i: usize = 0;
    while i < data.rocket_paths.len()
        invariant
            i <= data.rocket_paths@.len(),
            out@ == after_weapon + rocket_lines(data.rocket_paths@, i as int),
        decreases data.rocket_paths@.len() - i,
    {
        push_line(&mut out, "RocketPath", data.rocket_paths[i].as_str());
        assert(out@ =~= after_weapon + rocket_lines(data.rocket_paths@, i + 1));
        i += 1;
    }
    push_number_line(&mut out, "ZoomIn", data.zoom_in, &number);
    push_number_line(&mut out, "ZoomOut", data.zoom_out, &number);
    if data.has_laser {
        out.append("HasLaser\n");
    }
    let ghost header = out@;
    assert forall|text: spec_fn(u64) -> Seq<char>| #[trigger]
        computes(number, text) implies header =~= header_text(*data, text) by {}
    let mut k: usize = 0;
    while k < data.projectiles.len()
        invariant
            k <= data.projectiles@.len(),
            forall|bits: u64| call_requires(number, (bits,)),
            forall|text: spec_fn(u64) -> Seq<char>| #[trigger]
                computes(number, text) ==> out@ == header + projectiles_text(
                    data.projectiles@,
                    k as int,
                    text,
                ),
        decreases data.projectiles@.len() - k,
    {
        let ghost before = out@;
        push_projectile(&mut out, &data.projectiles[k], &number);
        assert forall|text: spec_fn(u64) -> Seq<char>| #[trigger]
            computes(number, text) implies out@ =~= header + projectiles_text(
            data.projectiles@,
            k + 1,
            text,
        ) by {}
        k += 1;
    }
    let chars = chars_of(out.as_str());
    let mut end: usize = chars.len();
    while end > 0 && is_space(chars[end - 1])
        invariant
            end <= chars@.len(),
            trailing(chars@, end as int) == trailing(chars@, chars@.len() as int),
        decreases end,
    {
        end -= 1;
    }
    let kept = slice(&chars, 0, end);
    assert(kept@ =~= trimmed_end(out@));
    string_of(&kept)
}

} // verus!
