use sc2_replay_view::colors::{
    get_unit_sized_color, user_color, ColorRGBA, DEFAULT_UNIT_SIZE, FREYA_GOLD, FREYA_GRAY,
    FREYA_LIGHT_BLUE, FREYA_LIGHT_GRAY, FREYA_LIGHT_GREEN, FREYA_ORANGE, FREYA_PINK,
    FREYA_WHITE, FREYA_YELLOW,
};

#[test]
fn to_array_splits_bytes_most_significant_first() {
    assert_eq!(ColorRGBA(0x72c5dd00).to_array(), [0x72, 0xc5, 0xdd, 0x00]);
    assert_eq!(ColorRGBA(0x01020304).to_array(), [1, 2, 3, 4]);
    assert_eq!(ColorRGBA(0).to_array(), [0, 0, 0, 0]);
    assert_eq!(ColorRGBA(u32::MAX).to_array(), [255, 255, 255, 255]);
}

#[test]
fn user_color_first_four_ids() {
    assert_eq!(user_color(0), ColorRGBA(FREYA_LIGHT_GREEN));
    assert_eq!(user_color(1), ColorRGBA(FREYA_LIGHT_BLUE));
    assert_eq!(user_color(2), ColorRGBA(FREYA_LIGHT_GRAY));
    assert_eq!(user_color(3), ColorRGBA(FREYA_ORANGE));
}

#[test]
fn user_color_other_ids_are_white() {
    for id in [4i64, 5, 99, -1, i64::MIN, i64::MAX] {
        assert_eq!(user_color(id), ColorRGBA(FREYA_WHITE));
    }
}

#[test]
fn user_color_five_distinct_colors() {
    let mut seen: Vec<ColorRGBA> = Vec::new();
    for id in -3i64..10 {
        let c = user_color(id);
        if !seen.contains(&c) {
            seen.push(c);
        }
    }
    assert_eq!(seen.len(), 5);
}

#[test]
fn mineral_field_ignores_owner() {
    for id in [0i64, 2, 99, -7] {
        let look = get_unit_sized_color("MineralField", id);
        assert_eq!(look.size, 48);
        assert_eq!(look.color, ColorRGBA(FREYA_LIGHT_BLUE));
        assert!(!look.report_unknown);
    }
}

#[test]
fn unknown_unit_falls_back_to_owner_color() {
    let look = get_unit_sized_color("TotallyUnknownUnit", 2);
    assert_eq!(look.size, DEFAULT_UNIT_SIZE);
    assert_eq!(look.color, user_color(2));
    assert_eq!(look.color, ColorRGBA(FREYA_LIGHT_GRAY));
    assert!(look.report_unknown);
}

#[test]
fn beacons_are_not_reported() {
    let look = get_unit_sized_color("BeaconArmy", 1);
    assert_eq!(look.size, DEFAULT_UNIT_SIZE);
    assert_eq!(look.color, ColorRGBA(FREYA_LIGHT_BLUE));
    assert!(!look.report_unknown);
    assert!(!get_unit_sized_color("Beacon", 7).report_unknown);
    assert!(get_unit_sized_color("Beaco", 7).report_unknown);
    assert!(get_unit_sized_color("beaconArmy", 7).report_unknown);
}

#[test]
fn empty_and_odd_names_resolve() {
    for name in ["", " ", "Minéral", "MineralField ", "mineralfield", "SCVs"] {
        let look = get_unit_sized_color(name, 3);
        assert!(look.size > 0);
        assert_eq!(look.color, ColorRGBA(FREYA_ORANGE));
        assert!(look.report_unknown);
    }
}

#[test]
fn table_entries() {
    let cases: [(&str, u32, u32); 20] = [
        ("VespeneEDyser", 45, FREYA_LIGHT_GREEN),
        ("SpacePlatformGeyser", 45, FREYA_LIGHT_GREEN),
        ("LabMineralField", 24, FREYA_LIGHT_BLUE),
        ("LabMineralField750", 36, FREYA_LIGHT_BLUE),
        ("MineralField", 48, FREYA_LIGHT_BLUE),
        ("MineralField450", 60, FREYA_LIGHT_BLUE),
        ("MineralField750", 72, FREYA_LIGHT_BLUE),
        ("XelNagaTower", 72, FREYA_WHITE),
        ("RichMineralField", 45, FREYA_GOLD),
        ("RichMineralField750", 45, FREYA_ORANGE),
        ("DestructibleDebris6x6", 180, FREYA_GRAY),
        ("UnbuildablePlatesDestructible", 60, FREYA_LIGHT_GRAY),
        ("Overlord", 60, FREYA_YELLOW),
        ("SCV", 30, FREYA_LIGHT_GRAY),
        ("Drone", 30, FREYA_LIGHT_GRAY),
        ("Probe", 30, FREYA_LIGHT_GRAY),
        ("Larva", 30, FREYA_LIGHT_GRAY),
        ("Hatchery", 120, FREYA_PINK),
        ("CommandCenter", 120, FREYA_PINK),
        ("Broodling", 6, FREYA_LIGHT_GRAY),
    ];
    for (name, size, color) in cases {
        let look = get_unit_sized_color(name, 1);
        assert_eq!(look.size, size, "{}", name);
        assert_eq!(look.color, ColorRGBA(color), "{}", name);
        assert!(!look.report_unknown);
    }
    assert_eq!(get_unit_sized_color("Nexus", 0).color, ColorRGBA(FREYA_PINK));
}
