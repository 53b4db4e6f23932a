use fcsgen_core::emit::{emit_legacy_txt, fmt_float};
use fcsgen_core::error::ParseError;
use fcsgen_core::json::{number_member, text_member, Json};
use fcsgen_core::record::{ArmorPowerSeries, DemarreParams, Projectile, VehicleData};
use fcsgen_core::vehicle::{
    extract_fov_value, extract_weapon_entries, extract_zoom_values, parse_vehicle,
};
use fcsgen_core::weapon::{
    collect_bullet_first, collect_bullet_merged, extract_armor_power, extract_bullet_name,
    extract_cx, parse_weapon_module, MergedBullet,
};

fn num(v: f64) -> Json {
    Json::Number(v.to_bits())
}

fn text(s: &str) -> Json {
    Json::Text(s.to_owned())
}

fn arr(items: Vec<Json>) -> Json {
    Json::Array(items)
}

fn obj(members: Vec<(&str, Json)>) -> Json {
    Json::Object(members.into_iter().map(|(k, v)| (k.to_owned(), v)).collect())
}

fn value(bits: Option<u64>) -> Option<f64> {
    bits.map(f64::from_bits)
}

#[test]
fn test_extract_zoom_scalar() {
    let cockpit = obj(vec![("zoomInFov", num(6.14)), ("zoomOutFov", num(29.8))]);
    let mut data = VehicleData::new("test");
    extract_zoom_values(&cockpit, &mut data);

    assert!((value(data.zoom_in).unwrap() - 6.14).abs() < 0.001);
    assert!((value(data.zoom_out).unwrap() - 29.8).abs() < 0.001);
}

#[test]
fn test_extract_zoom_array() {
    let cockpit = obj(vec![
        ("zoomInFov", arr(vec![num(6.0), num(8.0), num(10.0)])),
        ("zoomOutFov", arr(vec![num(30.0), num(40.0)])),
    ]);
    let mut data = VehicleData::new("test");
    extract_zoom_values(&cockpit, &mut data);

    // Should take first value from arrays
    assert!((value(data.zoom_in).unwrap() - 6.0).abs() < 0.001);
    assert!((value(data.zoom_out).unwrap() - 30.0).abs() < 0.001);
}

#[test]
fn test_extract_cx_array() {
    let obj = obj(vec![("Cx", arr(vec![num(0.3), num(0.4), num(0.5)]))]);
    let cx = value(extract_cx(&obj));
    // Should take first value
    assert!((cx.unwrap() - 0.3).abs() < 0.001);
}

#[test]
fn test_extract_bullet_name_array() {
    let bullet = obj(vec![
        ("bulletName", arr(vec![text("first_name"), text("second_name")])),
        ("bulletType", text("ap_t")),
    ]);
    let name = extract_bullet_name(&bullet);
    assert_eq!(name, Some("first_name".to_string()));
}

#[test]
fn test_belt_filtering() {
    let weapon = obj(vec![
        (
            "bullet",
            arr(vec![obj(vec![
                ("bulletName", text("top_level")),
                ("bulletType", text("ap")),
            ])]),
        ),
        (
            "30mm_HE",
            obj(vec![(
                "bullet",
                arr(vec![obj(vec![
                    ("bulletName", text("belt_bullet")),
                    ("bulletType", text("he")),
                ])]),
            )]),
        ),
    ]);

    // No vehicle filter - should include both
    let result = parse_weapon_module(&weapon, None).unwrap();
    assert_eq!(result.len(), 2);

    // With vehicle filter that includes 30mm_HE
    let result = parse_weapon_module(&weapon, Some("{\"30mm_HE\":{}}")).unwrap();
    assert_eq!(result.len(), 2);

    // With vehicle filter that excludes 30mm_HE
    let result = parse_weapon_module(&weapon, Some("{\"other_belt\":{}}")).unwrap();
    assert_eq!(result.len(), 1);
    assert_eq!(result[0].name, "top_level");
}

#[test]
fn json_members() {
    let doc = obj(vec![
        ("a", num(1.5)),
        ("b", text("x")),
        ("c", Json::Null),
        ("d", Json::Bool(true)),
        ("a", num(2.5)),
    ]);
    assert_eq!(value(number_member(&doc, "a")), Some(1.5));
    assert_eq!(number_member(&doc, "b"), None);
    assert_eq!(text_member(&doc, "b").as_deref(), Some("x"));
    assert_eq!(text_member(&doc, "a"), None);
    assert!(doc.get("c").is_some());
    assert!(doc.get("e").is_none());
    assert!(doc.get("").is_none());
    assert!(num(1.0).get("a").is_none());
    assert!(arr(vec![doc]).get("a").is_none());
    assert!(obj(vec![]).is_object());
    assert!(!Json::Null.is_object());
    assert_eq!(text("t").as_text().as_deref(), Some("t"));
    assert_eq!(Json::Bool(false).as_number(), None);
}

#[test]
fn fov_is_first_number() {
    let cockpit = obj(vec![
        ("plain", num(6.0)),
        ("mixed", arr(vec![text("x"), Json::Null, num(7.0), num(8.0)])),
        ("none", arr(vec![text("x")])),
        ("empty", arr(vec![])),
        ("word", text("6.0")),
    ]);
    assert_eq!(value(extract_fov_value(&cockpit, "plain")), Some(6.0));
    assert_eq!(value(extract_fov_value(&cockpit, "mixed")), Some(7.0));
    assert_eq!(extract_fov_value(&cockpit, "none"), None);
    assert_eq!(extract_fov_value(&cockpit, "empty"), None);
    assert_eq!(extract_fov_value(&cockpit, "word"), None);
    assert_eq!(extract_fov_value(&cockpit, "absent"), None);
}

#[test]
fn zoom_of_several_cockpits() {
    let first = obj(vec![("zoomInFov", num(6.0)), ("zoomOutFov", num(30.0))]);
    let second = obj(vec![("zoomInFov", num(3.0))]);
    let mut data = VehicleData::new("v");
    data.zoom_out_2 = Some(99.0_f64.to_bits());
    extract_zoom_values(&arr(vec![first, second, Json::Null]), &mut data);
    assert_eq!(value(data.zoom_in), Some(6.0));
    assert_eq!(value(data.zoom_out), Some(30.0));
    assert_eq!(value(data.zoom_in_2), Some(3.0));
    assert_eq!(data.zoom_out_2, None);

    let mut kept = VehicleData::new("v");
    kept.zoom_in = Some(1.0_f64.to_bits());
    kept.zoom_in_2 = Some(2.0_f64.to_bits());
    extract_zoom_values(&arr(vec![num(5.0), text("x")]), &mut kept);
    assert_eq!(value(kept.zoom_in), Some(1.0));
    assert_eq!(value(kept.zoom_in_2), Some(2.0));
    extract_zoom_values(&text("cockpit"), &mut kept);
    assert_eq!(value(kept.zoom_in), Some(1.0));
    extract_zoom_values(&arr(vec![]), &mut kept);
    assert_eq!(value(kept.zoom_in), Some(1.0));
}

fn gun(blk: &str, group: Option<&str>) -> Json {
    let mut members = vec![("trigger", text("gunner0")), ("blk", text(blk))];
    if let Some(g) = group {
        members.push(("triggerGroup", text(g)));
    }
    obj(members)
}

#[test]
fn weapon_entries_of_one_or_many() {
    let many = obj(vec![(
        "Weapon",
        arr(vec![
            gun("gameData/Weapons/groundModels_weapons/a.blk", None),
            obj(vec![("trigger", text("no_blk"))]),
            gun("b.blkx", Some("special")),
            num(1.0),
            obj(vec![("blk", num(3.0))]),
        ]),
    )]);
    let entries = extract_weapon_entries(&many);
    assert_eq!(entries.len(), 2);
    assert_eq!(entries[0].blk_path, "gameData/Weapons/groundModels_weapons/a.blkx");
    assert_eq!(entries[0].trigger.as_deref(), Some("gunner0"));
    assert_eq!(entries[0].trigger_group, None);
    assert_eq!(entries[1].blk_path, "b.blkx");
    assert_eq!(entries[1].trigger_group.as_deref(), Some("special"));

    let one = obj(vec![("Weapon", gun("c.blk", None))]);
    let entries = extract_weapon_entries(&one);
    assert_eq!(entries.len(), 1);
    assert_eq!(entries[0].blk_path, "c.blkx");

    assert!(extract_weapon_entries(&obj(vec![("Weapon", text("c.blk"))])).is_empty());
    assert!(extract_weapon_entries(&obj(vec![])).is_empty());
    assert!(extract_weapon_entries(&Json::Null).is_empty());
}

#[test]
fn parse_vehicle_reads_the_header() {
    let vehicle = obj(vec![
        ("cockpit", obj(vec![("zoomInFov", num(9.21)), ("zoomOutFov", num(28.63))])),
        (
            "commonWeapons",
            obj(vec![(
                "Weapon",
                arr(vec![
                    gun("gameData/Weapons/groundModels_weapons/atgm.blk", Some("special")),
                    gun("gameData/Weapons/groundModels_weapons/gun.blk", Some("primary")),
                ]),
            )]),
        ),
        (
            "modifications",
            obj(vec![
                ("paint", obj(vec![("tier", num(1.0))])),
                (
                    "better_gun",
                    obj(vec![(
                        "effects",
                        obj(vec![(
                            "commonWeapons",
                            obj(vec![(
                                "Weapon",
                                arr(vec![
                                    gun("gameData/Weapons/groundModels_weapons/gun2.blk", None),
                                    gun("rockets/r1.blk", Some("special")),
                                    gun("rockets/r2.blk", Some("special")),
                                ]),
                            )]),
                        )]),
                    )]),
                ),
            ]),
        ),
    ]);
    let data = parse_vehicle(&vehicle, "{\"modern_tank_laser_rangefinder\":1}", "ussr_test")
        .unwrap();
    assert_eq!(data.id, "ussr_test");
    assert_eq!(value(data.zoom_in), Some(9.21));
    assert_eq!(value(data.zoom_out), Some(28.63));
    assert_eq!(data.zoom_in_2, None);
    assert!(data.has_laser);
    assert_eq!(
        data.weapon_path.as_deref(),
        Some("gameData/Weapons/groundModels_weapons/gun.blkx")
    );
    assert_eq!(
        data.rocket_paths,
        vec!["gameData/Weapons/groundModels_weapons/atgm.blkx", "rockets/r1.blkx"]
    );
    assert!(data.projectiles.is_empty());
    assert!(!data.is_armed());

    let bare = parse_vehicle(&Json::Null, "null", "bare").unwrap();
    assert_eq!(bare.id, "bare");
    assert!(!bare.has_laser);
    assert!(bare.weapon_path.is_none());
    assert!(bare.rocket_paths.is_empty());
    assert_eq!(bare.zoom_in, None);
}

#[test]
fn merge_takes_later_values_and_prefers_the_rocket() {
    let first = obj(vec![
        ("bulletName", text("30mm_UBR6")),
        ("bulletType", text("ap_t")),
        ("mass", num(0.4)),
        ("caliber", num(0.03)),
        ("speed", num(960.0)),
        ("Cx", num(0.38)),
        ("demarrePenetrationK", num(1.0)),
        ("armorPower", num(3.0)),
    ]);
    let second = obj(vec![
        ("bulletType", text("he_frag_i")),
        ("mass", num(0.1)),
        ("ballisticCaliber", num(0.029)),
        ("endSpeed", num(900.0)),
        ("explosiveMass", num(0.05)),
        ("explosiveType", text("a_ix_2")),
        (
            "damage",
            obj(vec![(
                "kinetic",
                obj(vec![("demarrePenetrationK", num(0.7)), ("demarreMassPow", num(0.5))]),
            )]),
        ),
        ("demarreMassPow", num(0.6)),
        ("cumulativeDamage", obj(vec![("armorPower", num(7.0))])),
    ]);
    let merged = collect_bullet_merged(&arr(vec![first, second])).unwrap();
    // The second description has no name of its own: its type stands in.
    assert_eq!(merged.name, "he_frag_i");
    assert_eq!(merged.bullet_type, "he_frag_i");
    assert_eq!(value(merged.mass), Some(0.1));
    assert_eq!(value(merged.ballistic_caliber), Some(0.029));
    assert_eq!(value(merged.speed), Some(900.0));
    assert_eq!(value(merged.cx), Some(0.38));
    assert_eq!(value(merged.explosive_mass), Some(0.05));
    assert_eq!(merged.explosive_type.as_deref(), Some("a_ix_2"));
    let demarre = merged.demarre.unwrap();
    assert_eq!(f64::from_bits(demarre.k), 0.7);
    assert_eq!(f64::from_bits(demarre.mass_pow), 0.5);
    assert_eq!(f64::from_bits(demarre.speed_pow), 1.43);
    assert_eq!(f64::from_bits(demarre.caliber_pow), 1.07);
    assert_eq!(value(merged.armor_power), Some(7.0));
    assert!(merged.armor_power_series.is_none());

    let missile = obj(vec![
        ("bulletName", arr(vec![text("atgm_a"), text("atgm_b")])),
        ("bulletType", text("atgm_tandem_tank")),
        ("mass", num(20.0)),
        ("caliber", num(0.15)),
        (
            "rocket",
            obj(vec![
                ("mass", num(12.0)),
                ("caliber", num(0.13)),
                ("speed", num(300.0)),
                ("endSpeed", num(250.0)),
                ("Cx", arr(vec![num(0.3), num(0.4)])),
                ("cumulativeDamage", obj(vec![("armorPower", num(800.0))])),
            ]),
        ),
    ]);
    let rocket = collect_bullet_first(&arr(vec![missile, Json::Null])).unwrap();
    assert_eq!(rocket.name, "atgm_a");
    assert_eq!(value(rocket.mass), Some(12.0));
    assert_eq!(value(rocket.ballistic_caliber), Some(0.13));
    assert_eq!(value(rocket.speed), Some(250.0));
    assert_eq!(value(rocket.cx), Some(0.3));
    assert_eq!(value(rocket.armor_power), Some(800.0));
    assert!(rocket.demarre.is_none());
}

#[test]
fn bullets_need_a_name_and_a_type() {
    assert!(collect_bullet_merged(&obj(vec![("bulletName", text("n"))])).is_none());
    // Without a name the type stands in for it.
    let typed = collect_bullet_merged(&obj(vec![("bulletType", text("ap"))])).unwrap();
    assert_eq!(typed.name, "ap");
    assert_eq!(typed.bullet_type, "ap");
    assert!(collect_bullet_merged(&arr(vec![])).is_none());
    assert!(collect_bullet_first(&arr(vec![])).is_none());
    assert!(collect_bullet_merged(&text("bullet")).is_none());
    assert!(collect_bullet_first(&num(1.0)).is_none());
    // A name that is an array of something else gives no name at all.
    let odd = obj(vec![("bulletName", arr(vec![num(1.0)])), ("bulletType", text("ap"))]);
    assert_eq!(extract_bullet_name(&odd), None);
    assert!(collect_bullet_merged(&odd).is_none());
    assert_eq!(extract_cx(&obj(vec![("Cx", text("0.3"))])), None);
    assert_eq!(extract_cx(&obj(vec![("Cx", arr(vec![]))])), None);
    assert_eq!(extract_armor_power(&obj(vec![("armorPower", num(5.0))])), Some(5.0_f64.to_bits()));
    assert_eq!(extract_armor_power(&obj(vec![])), None);
    let fresh = MergedBullet::new();
    assert!(fresh.bullet_name.is_none() && fresh.armor_power.is_none());
    assert!(fresh.to_projectile().is_none());
}

#[test]
fn weapon_module_in_document_order() {
    let shell = |name: &str, kind: &str| {
        obj(vec![("bulletName", text(name)), ("bulletType", text(kind))])
    };
    let module = obj(vec![
        ("rocket", shell("r0", "atgm")),
        ("maxDepth", num(3.0)),
        (
            "30mm_us_AP",
            obj(vec![
                ("rocket", arr(vec![shell("belt_r", "rocket")])),
                ("bullet", arr(vec![shell("belt_b1", "ap"), shell("belt_b2", "ap")])),
            ]),
        ),
        ("bullet", arr(vec![shell("b1", "ap"), shell("b2", "he")])),
        ("30mm_HE", obj(vec![("bullet", shell("he1", "he"))])),
        ("30mm_none", obj(vec![("speed", num(1.0))])),
    ]);
    let names = |vehicle: Option<&str>| -> Vec<String> {
        parse_weapon_module(&module, vehicle)
            .unwrap()
            .into_iter()
            .map(|p| p.name)
            .collect()
    };
    // Of the top-level bullets the last one counts, of a belt the first.
    assert_eq!(names(None), vec!["r0", "belt_b1", "belt_r", "b2", "he1"]);
    assert_eq!(names(Some("\"30mm_AP\"")), vec!["r0", "belt_b1", "belt_r", "b2"]);
    assert_eq!(names(Some("30mm_HE, 30mm_us_AP")), vec!["r0", "belt_b1", "belt_r", "b2", "he1"]);
    assert_eq!(names(Some("")), vec!["r0", "b2"]);
    assert!(parse_weapon_module(&arr(vec![]), None).unwrap().is_empty());
}

#[test]
fn error_messages() {
    let io = ParseError::io("a/b.blkx", "not found");
    assert_eq!(io.message(), "failed to read file a/b.blkx: not found");
    assert!(matches!(io, ParseError::IoError { .. }));
    let json = ParseError::json("a/b.blkx", "expected value at line 1");
    assert_eq!(json.message(), "failed to parse JSON in a/b.blkx: expected value at line 1");
    assert!(matches!(json, ParseError::JsonError { .. }));
    let missing = ParseError::MissingField { field: "blk".to_owned(), context: "Weapon".to_owned() };
    assert_eq!(missing.message(), "missing required field 'blk' in Weapon");
    let invalid = ParseError::InvalidFormat {
        context: "Cx".to_owned(),
        message: "not a number".to_owned(),
    };
    assert_eq!(invalid.message(), "invalid data format in Cx: not a number");
}

fn shortest(bits: u64) -> String {
    f64::from_bits(bits).to_string()
}

fn shell() -> Projectile {
    Projectile {
        name: "test_shell".to_string(),
        bullet_type: "ap_t".to_string(),
        mass: Some(10.0_f64.to_bits()),
        ballistic_caliber: Some(0.1_f64.to_bits()),
        speed: Some(800.0_f64.to_bits()),
        cx: Some(0.3_f64.to_bits()),
        explosive_mass: None,
        explosive_type: None,
        damage_mass: None,
        damage_caliber: None,
        demarre: Some(DemarreParams {
            k: 0.9_f64.to_bits(),
            speed_pow: 1.43_f64.to_bits(),
            mass_pow: 0.71_f64.to_bits(),
            caliber_pow: 1.07_f64.to_bits(),
        }),
        armor_power: None,
        armor_power_series: None,
    }
}

#[test]
fn test_emit_basic() {
    let data = VehicleData {
        id: "test_vehicle".to_string(),
        weapon_path: Some("gameData/Weapons/test.blkx".to_string()),
        rocket_paths: vec![],
        zoom_in: Some(6.0_f64.to_bits()),
        zoom_out: Some(30.0_f64.to_bits()),
        zoom_in_2: None,
        zoom_out_2: None,
        has_laser: true,
        projectiles: vec![shell()],
    };

    let output = emit_legacy_txt(&data, shortest);

    assert!(output.contains("WeaponPath:gameData/Weapons/test.blkx"));
    assert!(output.contains("ZoomIn:6.0"));
    assert!(output.contains("ZoomOut:30.0"));
    assert!(output.contains("HasLaser"));
    assert!(output.contains("Name:test_shell"));
    assert!(output.contains("Type:ap_t"));
    assert!(output.contains("BulletMass:10.0"));
    assert!(output.contains("demarrePenetrationK:0.9"));
}

#[test]
fn test_fmt_float() {
    assert_eq!(fmt_float(&960.0_f64.to_string()), "960.0");
    assert_eq!(fmt_float(&960.5_f64.to_string()), "960.5");
    assert_eq!(fmt_float(&0.389_f64.to_string()), "0.389");
    assert_eq!(fmt_float(&1.0_f64.to_string()), "1.0");
}

#[test]
fn emit_writes_every_line_in_order() {
    let mut full = shell();
    full.cx = None;
    full.explosive_mass = Some(0.017_f64.to_bits());
    full.explosive_type = Some("h10".to_owned());
    full.damage_mass = Some(1.5_f64.to_bits());
    full.damage_caliber = Some(0.03_f64.to_bits());
    full.armor_power = Some(800.0_f64.to_bits());
    let mut series = ArmorPowerSeries::default();
    series.ap_0m = Some(292.4_f64.to_bits());
    series.ap_2000m = Some(256.5_f64.to_bits());
    series.ap_2500m = Some(f64::INFINITY.to_bits());
    series.ap_10000m = Some(50.0_f64.to_bits());
    full.armor_power_series = Some(series);
    let mut bare = shell();
    bare.name = "bare".to_owned();
    bare.mass = None;
    bare.ballistic_caliber = None;
    bare.speed = None;
    bare.demarre = None;
    let data = VehicleData {
        id: "v".to_string(),
        weapon_path: None,
        rocket_paths: vec!["r1.blkx".to_owned(), "r2.blkx".to_owned()],
        zoom_in: None,
        zoom_out: Some(28.63_f64.to_bits()),
        zoom_in_2: Some(1.0_f64.to_bits()),
        zoom_out_2: None,
        has_laser: false,
        projectiles: vec![full, bare],
    };
    assert_eq!(
        emit_legacy_txt(&data, shortest),
        "RocketPath:r1.blkx\nRocketPath:r2.blkx\nZoomOut:28.63\n\n\
         Name:test_shell\nType:ap_t\nBulletMass:10.0\nBallisticCaliber:0.1\nSpeed:800.0\n\
         Cx:0.38\nExplosiveMass:0.017\nExplosiveType:h10\nDamageMass:1.5\nDamageCaliber:0.03\n\
         demarrePenetrationK:0.9\ndemarreSpeedPow:1.43\ndemarreMassPow:0.71\n\
         demarreCaliberPow:1.07\nArmorPower:800.0\nAPDS0:292.4\nAPDS2000:256.5\n\
         APDS2500:inf.0\nAPDS10000:50.0\n\n\
         Name:bare\nType:ap_t\nCx:0.3"
    );
    let empty = VehicleData::new("empty");
    assert_eq!(emit_legacy_txt(&empty, shortest), "");
    let mut laser = VehicleData::new("laser");
    laser.has_laser = true;
    assert_eq!(emit_legacy_txt(&laser, shortest), "HasLaser");
    assert_eq!(fmt_float("NaN"), "NaN.0");
    assert_eq!(fmt_float("1e300"), "1e300.0");
    assert_eq!(fmt_float(""), ".0");
    assert_eq!(fmt_float("."), ".");
}
