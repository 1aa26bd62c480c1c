use garlemald::actor::aetheryte::{aetheryte_spawns, lookup, AETHERYTE_COUNT};

/// Guard against out-of-order edits: `lookup` uses binary search, so an
/// unsorted entry would silently mis-route a homepoint.
#[test]
fn table_is_sorted_ascending() {
    for w in aetheryte_spawns().windows(2) {
        assert!(
            w[0].aetheryte_id < w[1].aetheryte_id,
            "AETHERYTE_SPAWNS must be sorted ascending; {} >= {}",
            w[0].aetheryte_id,
            w[1].aetheryte_id,
        );
    }
}

#[test]
fn city_caps_resolve() {
    let limsa = lookup(1_280_001).expect("Limsa CAP");
    assert_eq!(limsa.zone_id, 230);
    let uldah = lookup(1_280_031).expect("Ul'dah CAP");
    assert_eq!(uldah.zone_id, 175);
    let gridania = lookup(1_280_061).expect("Gridania CAP");
    assert_eq!(gridania.zone_id, 206);
}

#[test]
fn unknown_id_returns_none() {
    assert!(lookup(0).is_none());
    assert!(lookup(999).is_none());
    assert!(lookup(2_000_000).is_none());
}

#[test]
fn child_aetheryte_resolves_to_parent_zone() {
    let child = lookup(1_280_067).expect("Humblehearth");
    let parent = lookup(1_280_062).expect("Bentbranch CAP");
    assert_eq!(child.zone_id, parent.zone_id);
    assert_ne!((child.x, child.z), (parent.x, parent.z));
}

#[test]
fn every_entry_is_found_and_gaps_are_not() {
    let table = aetheryte_spawns();
    assert_eq!(table.len(), AETHERYTE_COUNT);
    for a in table.iter() {
        assert_eq!(lookup(a.aetheryte_id), Some(*a));
    }
    assert!(lookup(1_280_019).is_none());
    assert!(lookup(1_280_126).is_none());
    let limsa = lookup(1_280_001).unwrap();
    assert_eq!((limsa.x, limsa.y, limsa.z), (-407_000, 42_500, 337_000));
    let jagged = lookup(1_280_125).unwrap();
    assert_eq!((jagged.x, jagged.y, jagged.z), (-365_724, -18_591, -25_448));
}
