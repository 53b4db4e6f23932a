use fcsgen_core::family::{classify, should_skip, ShellFamily};
use fcsgen_core::names::{
    clean_shell_name, normalize_blk_path, normalize_shell_type, should_include_belt,
    ignore_entry, strip_nation_prefix,
};
use fcsgen_core::record::{
    from_projectile, ArmorPowerSeries, DemarreParams, Projectile, VehicleData,
};
use fcsgen_core::vehicle::{check_has_laser, classify_weapons, WeaponEntry};
use fcsgen_core::batch::select_shells;
use fcsgen_core::data::{parse_data_text, parse_projectile_block, DataBlock};
use fcsgen_core::text::{
    chars_of, find, is_space, replace_all, same_text, split, string_of, trim,
};
use fcsgen_core::VERSION;

#[test]
fn version_is_set() {
    assert!(!VERSION.is_empty());
}

#[test]
fn test_should_skip() {
    assert!(should_skip("atgm"));
    assert!(should_skip("sam"));
    assert!(should_skip("rocket"));
    assert!(should_skip("aam"));
    assert!(!should_skip("apcbc"));
    assert!(!should_skip("he"));
    assert!(!should_skip("apds_fs"));
}

#[test]
fn test_normalize_shell_type() {
    assert_eq!(normalize_shell_type("apcbc_tank"), "apcbc");
    assert_eq!(normalize_shell_type("he_frag_tank"), "he");
    assert_eq!(normalize_shell_type("heat_fs_tank"), "heat");
    assert_eq!(normalize_shell_type("apds_fs_long_tank"), "apds_fs");
    assert_eq!(normalize_shell_type("apds_fs_tungsten_l10_l15_tank"), "apds_fs");
    assert_eq!(normalize_shell_type("apcr_tank"), "apcr");
    assert_eq!(normalize_shell_type("apds_autocannon"), "apds");
    assert_eq!(normalize_shell_type("atgm_tandem_tank"), "atgm");
    assert_eq!(normalize_shell_type("smoke_tank"), "smoke");
}

#[test]
fn test_clean_shell_name() {
    assert_eq!(clean_shell_name("75mm_pzgr_39"), "pzgr_39");
    assert_eq!(clean_shell_name("105mm_m735"), "m735");
    assert_eq!(clean_shell_name("120mm_m829a2"), "m829a2");
    assert_eq!(clean_shell_name("30mm_UBR6"), "UBR6");
    assert_eq!(clean_shell_name("some_bullet"), "some_bullet");
    assert_eq!(clean_shell_name("105mm_m735/something"), "m735");
}

#[test]
fn test_normalize_blk_path() {
    assert_eq!(
        normalize_blk_path("gameData/Weapons/test.blk"),
        "gameData/Weapons/test.blkx"
    );
    assert_eq!(
        normalize_blk_path("gameData/Weapons/test.blkx"),
        "gameData/Weapons/test.blkx"
    );
}

#[test]
fn normalize_shell_type_edge_cases() {
    assert_eq!(normalize_shell_type(""), "");
    assert_eq!(normalize_shell_type("_tank"), "");
    assert_eq!(normalize_shell_type("plain"), "plain");
    assert_eq!(normalize_shell_type("x_apds_fs"), "apds_fs");
    assert_eq!(normalize_shell_type("apds_f"), "apds");
    assert_eq!(normalize_shell_type("über_tank"), "über");
}

#[test]
fn clean_shell_name_edge_cases() {
    assert_eq!(clean_shell_name(""), "");
    assert_eq!(clean_shell_name("/30mm_x"), "");
    assert_eq!(clean_shell_name("a/30mm_x"), "a");
    assert_eq!(clean_shell_name("30mm_40mm_x"), "40mm_x");
    assert_eq!(clean_shell_name("30mm_"), "");
    assert_eq!(clean_shell_name("30mm"), "30mm");
    assert_eq!(clean_shell_name("30мм_mm_ж/x"), "ж");
}

#[test]
fn normalize_blk_path_edge_cases() {
    assert_eq!(normalize_blk_path(""), "");
    assert_eq!(normalize_blk_path(".blk"), ".blkx");
    assert_eq!(normalize_blk_path("blk"), "blk");
    assert_eq!(normalize_blk_path("a.blk.txt"), "a.blk.txt");
}

#[test]
fn strip_nation_prefix_replaces_each_infix() {
    assert_eq!(strip_nation_prefix("30mm_us_m791"), "30mm_m791");
    assert_eq!(strip_nation_prefix("30mm_ussr_ubr6"), "30mm_ubr6");
    assert_eq!(strip_nation_prefix("a_cn_b_fr_c_germ_d"), "a_b_c_d");
    assert_eq!(strip_nation_prefix("x_il_it_jp_y"), "x_y");
    assert_eq!(strip_nation_prefix("plain_name"), "plain_name");
    assert_eq!(strip_nation_prefix(""), "");
    assert_eq!(strip_nation_prefix("_uk__sw_"), "__");
    // An infix that only appears once an earlier one has gone is taken too.
    assert_eq!(strip_nation_prefix("a_cn_fr_b"), "a_b");
    // One that only appears after a later one has gone stays.
    assert_eq!(strip_nation_prefix("a_c_fr_n_b"), "a_c_n_b");
}

#[test]
fn should_include_belt_rules() {
    assert!(should_include_belt("30mm_HE", None));
    assert!(should_include_belt("30mm_HE", Some("{\"30mm_HE\":{}}")));
    assert!(!should_include_belt("30mm_HE", Some("{\"other_belt\":{}}")));
    assert!(should_include_belt("30mm_us_HE", Some("{\"30mm_HE\":{}}")));
    assert!(!should_include_belt("30mm_us_HE", Some("{\"30mm_AP\":{}}")));
    assert!(should_include_belt("", Some("anything")));
}

#[test]
fn classify_resolves_each_family() {
    for tag in ["sam", "atgm", "rocket", "aam"] {
        assert_eq!(classify(tag), ShellFamily::Skip);
    }
    for tag in ["aphe", "aphebc", "ac", "sapcbc", "sap", "sapi"] {
        assert_eq!(classify(tag), ShellFamily::Aphe);
    }
    for tag in ["i", "t", "ap", "apc", "apbc", "apcbc"] {
        assert_eq!(classify(tag), ShellFamily::Ap);
    }
    for tag in ["apcr", "apds"] {
        assert_eq!(classify(tag), ShellFamily::SubCaliber);
    }
    assert_eq!(classify("apds_fs"), ShellFamily::FinStabilized);
    for tag in ["he", "heat", "smoke", "", "AP", "apds_fs_"] {
        assert_eq!(classify(tag), ShellFamily::Other);
    }
}

#[test]
fn text_helpers_agree_with_std() {
    let samples = ["", "a", "abc", "aaa", "abcabc", "mm_mm_", "ü_ß", "_us__us_"];
    for hay in samples {
        assert_eq!(string_of(&chars_of(hay)), hay);
        for needle in samples {
            assert_eq!(same_text(hay, needle), hay == needle);
            let expected = hay
                .find(needle)
                .map(|byte| hay[..byte].chars().count());
            assert_eq!(find(&chars_of(hay), &chars_of(needle)), expected);
            if !needle.is_empty() {
                let replaced = replace_all(&chars_of(hay), &chars_of(needle), &chars_of("-"));
                assert_eq!(string_of(&replaced), hay.replace(needle, "-"));
            }
        }
    }
}

#[test]
fn weapon_entry_holds_its_fields() {
    let entry = WeaponEntry {
        blk_path: normalize_blk_path("gameData/Weapons/gun.blk"),
        trigger: Some("gunner0".to_string()),
        trigger_group: None,
    };
    let copy = entry.clone();
    assert_eq!(copy.blk_path, "gameData/Weapons/gun.blkx");
    assert_eq!(copy.trigger.as_deref(), Some("gunner0"));
    assert!(copy.trigger_group.is_none());
}

fn weapon(path: &str, group: Option<&str>) -> WeaponEntry {
    WeaponEntry {
        blk_path: path.to_owned(),
        trigger: None,
        trigger_group: group.map(str::to_owned),
    }
}

#[test]
fn classify_weapons_picks_main_weapon_and_launchers() {
    let weapons = vec![
        weapon("gameData/Weapons/other/mg.blkx", None),
        weapon("gameData/Weapons/groundModels_weapons/atgm.blkx", Some("special")),
        weapon("gameData/Weapons/groundModels_weapons/gun.blkx", Some("primary")),
        weapon("gameData/Weapons/groundModels_weapons/gun2.blkx", None),
        weapon("gameData/Weapons/groundModels_weapons/atgm.blkx", Some("special")),
        weapon("gameData/Weapons/rockets/r1.blkx", Some("special")),
        weapon("gameData/Weapons/rockets/r2.blkx", Some("special")),
    ];
    let mut data = VehicleData::new("test");
    assert_eq!(data.id, "test");
    assert!(!data.is_armed());
    data.has_laser = true;
    data.zoom_in = Some(6.0_f64.to_bits());
    classify_weapons(&weapons, &mut data);
    assert_eq!(
        data.weapon_path.as_deref(),
        Some("gameData/Weapons/groundModels_weapons/gun.blkx")
    );
    assert_eq!(
        data.rocket_paths,
        vec![
            "gameData/Weapons/groundModels_weapons/atgm.blkx",
            "gameData/Weapons/rockets/r1.blkx"
        ]
    );
    assert!(data.has_laser);
    assert_eq!(data.zoom_in, Some(6.0_f64.to_bits()));

    // A main weapon that is known stays; launchers fill up to two.
    let mut again = VehicleData::new("again");
    again.weapon_path = Some("known.blkx".to_owned());
    again.rocket_paths.push("gameData/Weapons/rockets/r2.blkx".to_owned());
    classify_weapons(&weapons, &mut again);
    assert_eq!(again.weapon_path.as_deref(), Some("known.blkx"));
    assert_eq!(
        again.rocket_paths,
        vec![
            "gameData/Weapons/rockets/r2.blkx",
            "gameData/Weapons/groundModels_weapons/atgm.blkx"
        ]
    );

    let mut none = VehicleData::new("none");
    classify_weapons(&Vec::new(), &mut none);
    assert!(none.weapon_path.is_none());
    assert!(none.rocket_paths.is_empty());
}

fn bare_projectile() -> Projectile {
    Projectile {
        name: "105mm_m735/x".to_owned(),
        bullet_type: "apds_fs_tungsten_l10_l15_tank".to_owned(),
        mass: None,
        ballistic_caliber: None,
        speed: None,
        cx: None,
        explosive_mass: None,
        explosive_type: None,
        damage_mass: None,
        damage_caliber: None,
        demarre: None,
        armor_power: None,
        armor_power_series: None,
    }
}

#[test]
fn from_projectile_fills_defaults() {
    let flat = from_projectile(&bare_projectile());
    assert_eq!(flat.name, "105mm_m735/x");
    assert_eq!(flat.bullet_type, "apds_fs_tungsten_l10_l15_tank");
    assert_eq!(flat.normalized_type, "apds_fs");
    assert_eq!(flat.output_name, "m735");
    for bits in [
        flat.mass,
        flat.ballistic_caliber,
        flat.speed,
        flat.explosive_mass,
        flat.damage_mass,
        flat.damage_caliber,
        flat.demarre_k,
        flat.demarre_speed_pow,
        flat.demarre_mass_pow,
        flat.demarre_caliber_pow,
    ] {
        assert_eq!(f64::from_bits(bits), 0.0);
        assert_eq!(bits, 0);
    }
    assert_eq!(f64::from_bits(flat.cx), 0.38);
    assert!(flat.armor_power_table.is_empty());
}

#[test]
fn from_projectile_carries_values_over() {
    let mut proj = bare_projectile();
    proj.mass = Some(3.719457_f64.to_bits());
    proj.cx = Some(0.2925_f64.to_bits());
    proj.speed = Some(1501.14_f64.to_bits());
    proj.demarre = Some(DemarreParams {
        k: 1.0_f64.to_bits(),
        speed_pow: 1.43_f64.to_bits(),
        mass_pow: 0.71_f64.to_bits(),
        caliber_pow: 1.07_f64.to_bits(),
    });
    let mut series = ArmorPowerSeries::default();
    assert_eq!(series.ap_0m, None);
    assert_eq!(series.ap_10000m, None);
    series.ap_0m = Some(292.4_f64.to_bits());
    series.ap_500m = Some(284.0_f64.to_bits());
    series.ap_4500m = Some(200.0_f64.to_bits());
    series.ap_10000m = Some(50.0_f64.to_bits());
    proj.armor_power_series = Some(series);

    let flat = from_projectile(&proj);
    assert_eq!(f64::from_bits(flat.mass), 3.719457);
    assert_eq!(f64::from_bits(flat.cx), 0.2925);
    assert_eq!(f64::from_bits(flat.speed), 1501.14);
    assert_eq!(f64::from_bits(flat.demarre_k), 1.0);
    assert_eq!(f64::from_bits(flat.demarre_caliber_pow), 1.07);
    let curve: Vec<(f64, f64)> = flat
        .armor_power_table
        .iter()
        .map(|&(d, p)| (f64::from_bits(d), f64::from_bits(p)))
        .collect();
    assert_eq!(
        curve,
        vec![(0.0, 292.4), (500.0, 284.0), (4500.0, 200.0), (10000.0, 50.0)]
    );

    let mut full = ArmorPowerSeries::default();
    full.ap_0m = Some(1);
    full.ap_100m = Some(2);
    full.ap_500m = Some(3);
    full.ap_1000m = Some(4);
    full.ap_1500m = Some(5);
    full.ap_2000m = Some(6);
    full.ap_2500m = Some(7);
    full.ap_3000m = Some(8);
    full.ap_3500m = Some(9);
    full.ap_4000m = Some(10);
    full.ap_4500m = Some(11);
    full.ap_10000m = Some(12);
    proj.armor_power_series = Some(full);
    let distances: Vec<f64> = from_projectile(&proj)
        .armor_power_table
        .iter()
        .map(|&(d, _)| f64::from_bits(d))
        .collect();
    assert_eq!(
        distances,
        vec![
            0.0, 100.0, 500.0, 1000.0, 1500.0, 2000.0, 2500.0, 3000.0, 3500.0, 4000.0, 4500.0,
            10000.0
        ]
    );
}

/// The reading of a data file on strings, with the tools of the standard
/// library: the header, then for each block its pairs and its curve.
fn read_with_std(
    content: &str,
) -> (
    Option<String>,
    Vec<String>,
    Option<String>,
    Option<String>,
    bool,
    Vec<(Vec<(String, String)>, Vec<(String, String)>)>,
) {
    let content = content.replace("\r\n", "\n");
    let sections: Vec<&str> = content.split("\n\n").collect();
    let (mut weapon, mut rockets, mut zoom_in, mut zoom_out, mut laser) =
        (None, Vec::new(), None, None, false);
    for line in sections[0].lines() {
        let line = line.trim();
        if let Some((key, value)) = line.split_once(':') {
            match key {
                "WeaponPath" => weapon = Some(value.to_owned()),
                "RocketPath" => rockets.push(value.to_owned()),
                "ZoomIn" => zoom_in = Some(value.to_owned()),
                "ZoomOut" => zoom_out = Some(value.to_owned()),
                _ => {}
            }
        } else if line == "HasLaser" {
            laser = true;
        }
    }
    let mut blocks = Vec::new();
    for section in sections.iter().skip(1) {
        let (mut fields, mut curve) = (Vec::new(), Vec::new());
        for line in section.lines() {
            let line = line.trim();
            if let Some((key, value)) = line.split_once(':') {
                if let Some(distance) = key.strip_prefix("APDS") {
                    curve.push((distance.to_owned(), value.to_owned()));
                } else {
                    fields.push((key.to_owned(), value.to_owned()));
                }
            }
        }
        if fields.iter().any(|(k, _)| k == "Name") {
            blocks.push((fields, curve));
        }
    }
    (weapon, rockets, zoom_in, zoom_out, laser, blocks)
}

const SAMPLE: &str = "\
WeaponPath:gameData/Weapons/test.blkx
ZoomIn:9.21
ZoomOut:28.63
HasLaser

Name:105mm_m735
Type:apds_fs_tungsten_l10_l15_tank
BulletMass:3.719457
BallisticCaliber:0.035
Speed:1501.14
Cx:0.2925
DamageCaliber:0.03175
APDS0:292.4
APDS100:290.6
APDS500:284.0
APDS1000:275.0
APDS1500:265.9
APDS2000:256.5
APDS2500:246.7
APDS3000:236.7
APDS4000:215.5
APDS10000:50.0

Name:75mm_pzgr_39
Type:apcbc_tank
BulletMass:6.8
BallisticCaliber:0.075
Speed:740.0
Cx:0.4
ExplosiveMass:0.017
ExplosiveType:h10
demarrePenetrationK:1.0
demarreSpeedPow:1.43
demarreMassPow:0.71
demarreCaliberPow:1.07";

fn number(block: &DataBlock, key: &str) -> f64 {
    block
        .field(key)
        .and_then(|v| v.parse().ok())
        .unwrap_or(0.0)
}

#[test]
fn test_parse_data_text() {
    let data = parse_data_text(SAMPLE, "test_vehicle");

    assert_eq!(data.vehicle_id, "test_vehicle");
    assert_eq!(data.weapon_path.as_deref(), Some("gameData/Weapons/test.blkx"));
    assert!(data.has_laser);
    assert_eq!(data.zoom_in.as_deref().and_then(|v| v.parse().ok()), Some(9.21));
    assert_eq!(data.projectiles.len(), 2);

    let m735 = &data.projectiles[0];
    assert_eq!(m735.output_name, "m735");
    assert_eq!(m735.normalized_type, "apds_fs");
    assert_eq!(m735.armor_power.len(), 10);
    assert!((m735.armor_power[0].0.parse::<f64>().unwrap() - 0.0).abs() < f64::EPSILON);
    assert!((m735.armor_power[0].1.parse::<f64>().unwrap() - 292.4).abs() < f64::EPSILON);

    let pzgr = &data.projectiles[1];
    assert_eq!(pzgr.output_name, "pzgr_39");
    assert_eq!(pzgr.normalized_type, "apcbc");
    assert!((number(pzgr, "demarrePenetrationK") - 1.0).abs() < f64::EPSILON);
    assert!((number(pzgr, "ExplosiveMass") - 0.017).abs() < f64::EPSILON);
}

#[test]
fn parse_data_text_agrees_with_std() {
    let crlf = SAMPLE.replace('\n', "\r\n");
    let cases = [
        SAMPLE.to_owned(),
        crlf,
        String::new(),
        "\n".to_owned(),
        "\n\n".to_owned(),
        "\n\n\n".to_owned(),
        "HasLaser".to_owned(),
        " HasLaser \t\r\n".to_owned(),
        "HasLaser:\n".to_owned(),
        "hasLaser\nZoomIn:1\nZoomIn:x\nZoomOut::2:\n".to_owned(),
        "RocketPath:a\nRocketPath:b\nRocketPath:a\nWeaponPath:w1\nWeaponPath:w2".to_owned(),
        "\u{a0}WeaponPath:w\u{3000}\n\u{2003}HasLaser\u{85}".to_owned(),
        "WeaponPath : w\n: v\nkey:\n:\n".to_owned(),
        "h\n\nName:a\nName:b\nType:x_y\nType:apds_fs_z\n\nType:only\n\n\nName:c\n".to_owned(),
        "h\n\n\n\nName:after_two_blank\n\n\n\n\nName:odd".to_owned(),
        "h\r\n\r\nName:30mm_x/y\r\nAPDS:1\r\nAPDSx:y\r\nAPD:3\r\nXAPDS1:2\r\n APDS5:6 \r\n".to_owned(),
        "h\n\nName:a\r\r\nCx:1\r\n\rSpeed:2\n\n\r\nName:b".to_owned(),
        "h\n\n  Name:tab\t\n\tType:\u{b}t\u{c}\n".to_owned(),
        "h\n \nName:not_a_block\n\nName:block".to_owned(),
    ];
    for content in &cases {
        let file = parse_data_text(content, "v");
        let (weapon, rockets, zoom_in, zoom_out, laser, blocks) = read_with_std(content);
        assert_eq!(file.vehicle_id, "v");
        assert_eq!(file.weapon_path, weapon, "{content:?}");
        assert_eq!(file.rocket_paths, rockets, "{content:?}");
        assert_eq!(file.zoom_in, zoom_in, "{content:?}");
        assert_eq!(file.zoom_out, zoom_out, "{content:?}");
        assert_eq!(file.has_laser, laser, "{content:?}");
        assert_eq!(file.projectiles.len(), blocks.len(), "{content:?}");
        for (block, (fields, curve)) in file.projectiles.iter().zip(&blocks) {
            assert_eq!(&block.fields, fields, "{content:?}");
            assert_eq!(&block.armor_power, curve, "{content:?}");
            let last = |key: &str| {
                fields
                    .iter()
                    .rev()
                    .find(|(k, _)| k == key)
                    .map(|(_, v)| v.clone())
            };
            assert_eq!(Some(block.name.clone()), last("Name"));
            assert_eq!(block.bullet_type, last("Type").unwrap_or_default());
            assert_eq!(block.normalized_type, normalize_shell_type(&block.bullet_type));
            assert_eq!(block.output_name, clean_shell_name(&block.name));
            for key in ["Name", "Type", "Cx", "Speed", "Missing", ""] {
                assert_eq!(block.field(key), last(key), "{content:?} {key:?}");
            }
        }
    }
}

#[test]
fn parse_projectile_block_needs_a_name() {
    assert!(parse_projectile_block("Type:apcbc_tank\nCx:0.3").is_none());
    assert!(parse_projectile_block("").is_none());
    assert!(parse_projectile_block("Name").is_none());
    let block = parse_projectile_block(" Name:75mm_pzgr_39 \nAPDS100:1\nAPDS0:2").unwrap();
    assert_eq!(block.name, "75mm_pzgr_39");
    assert_eq!(block.bullet_type, "");
    assert_eq!(block.normalized_type, "");
    assert_eq!(block.output_name, "pzgr_39");
    assert_eq!(block.fields, vec![("Name".to_owned(), "75mm_pzgr_39".to_owned())]);
    assert_eq!(
        block.armor_power,
        vec![
            ("100".to_owned(), "1".to_owned()),
            ("0".to_owned(), "2".to_owned())
        ]
    );
}

#[test]
fn trim_and_split_agree_with_std() {
    let samples = [
        "", " ", "a", " a", "a ", " a b ", "\t\r\n x \u{2028}", "\u{feff}x", "\u{200b}y ",
        "\u{1680}z\u{205f}", "a\n\nb", "\n\n", "\n\n\n", "a\n\n\n\nb\n", "aXXbXXXcXX", "XX",
    ];
    for s in samples {
        assert_eq!(string_of(&trim(&chars_of(s))), s.trim(), "{s:?}");
        for c in s.chars() {
            assert_eq!(is_space(c), c.is_whitespace(), "{c:?}");
        }
        for pat in ["\n", "\n\n", "XX", "a"] {
            let pieces: Vec<String> = split(&chars_of(s), &chars_of(pat))
                .iter()
                .map(string_of)
                .collect();
            let expected: Vec<String> = s.split(pat).map(str::to_owned).collect();
            assert_eq!(pieces, expected, "{s:?} {pat:?}");
        }
    }
    for code in 0..0x3100_u32 {
        if let Some(c) = char::from_u32(code) {
            assert_eq!(is_space(c), c.is_whitespace(), "{code:x}");
        }
    }
}

#[test]
fn select_shells_keeps_last_of_each_name() {
    let shell = |name: &str, bullet_type: &str| {
        let mut p = bare_projectile();
        p.name = name.to_owned();
        p.bullet_type = bullet_type.to_owned();
        from_projectile(&p)
    };
    let shells = vec![
        shell("30mm_a", "apcbc_tank"),
        shell("30mm_b", "he_frag"),
        shell("40mm_a", "aphe_tank"),
        shell("50mm_a", "atgm_tank"),
        shell("30mm_c", "rocket_tank"),
        shell("60mm_b", "sam"),
        shell("30mm_d", "smoke"),
    ];
    assert_eq!(select_shells(&shells), vec![1, 2, 6]);
    assert_eq!(select_shells(&Vec::new()), Vec::<usize>::new());
    assert_eq!(select_shells(&shells[3..6].to_vec()), Vec::<usize>::new());
    assert_eq!(select_shells(&shells[..1].to_vec()), vec![0]);
}

#[test]
fn check_has_laser_is_case_sensitive() {
    assert!(check_has_laser("{\"modern_tank_laser_rangefinder\":{}}"));
    assert!(check_has_laser("laser"));
    assert!(!check_has_laser("{\"LaserBeamRidingSensor\":true}"));
    assert!(!check_has_laser("lase r"));
    assert!(!check_has_laser(""));
}

#[test]
fn ignore_entry_reads_one_line() {
    assert_eq!(ignore_entry(""), None);
    assert_eq!(ignore_entry("   \t"), None);
    assert_eq!(ignore_entry("# us_m1_abrams"), None);
    assert_eq!(ignore_entry("  #x"), None);
    assert_eq!(ignore_entry("us_m1_abrams").as_deref(), Some("us_m1_abrams"));
    assert_eq!(ignore_entry(" US_M1_Abrams.blkx \r").as_deref(), Some("us_m1_abrams"));
    assert_eq!(ignore_entry("\"Ussr_BMP_2M\"").as_deref(), Some("ussr_bmp_2m"));
    assert_eq!(ignore_entry("\"a.blkx\"").as_deref(), Some("a"));
    assert_eq!(ignore_entry("\"").as_deref(), Some("\""));
    assert_eq!(ignore_entry("\"\"").as_deref(), Some(""));
    assert_eq!(ignore_entry("\"a").as_deref(), Some("\"a"));
    assert_eq!(ignore_entry(".blkx").as_deref(), Some(""));
    assert_eq!(ignore_entry("a.blkx.blkx").as_deref(), Some("a.blkx"));
    assert_eq!(ignore_entry("ÄÖ_Ü.BLKX").as_deref(), Some("äö_ü.blkx"));
}
