//! Where a teleport to an aetheryte lands: for each aetheryte id
//! (1280001..=1280125) the zone and the coordinates. The table is kept in
//! ascending id order, which the lookup's binary search relies on.
//!
//! Coordinates are held in thousandths of a unit (every value of the table
//! has at most three decimals), so `x: -407000` is -407.0; the caller turns
//! them into floating point.

use vstd::prelude::*;

verus! {

/// One teleport destination; `x`, `y`, `z` in thousandths of a unit.
#[derive(Debug, Clone, Copy, PartialEq, Eq, Structural)]
pub struct AetheryteSpawn {
    pub aetheryte_id: u32,
    pub zone_id: u32,
    pub x: i32,
    pub y: i32,
    pub z: i32,
}

/// Number of destinations in the table.
pub const AETHERYTE_COUNT: usize = 88;

/// The destination table, in ascending id order.
pub open spec fn spawn_table() -> Seq<AetheryteSpawn> {
    seq![
        AetheryteSpawn { aetheryte_id: 1280001, zone_id: 230, x: -407000 as i32, y: 42500, z: 337000 },
        AetheryteSpawn { aetheryte_id: 1280002, zone_id: 128, x: 29970, y: 45830, z: -35470 as i32 },
        AetheryteSpawn { aetheryte_id: 1280003, zone_id: 129, x: -991880 as i32, y: 61710, z: -1120790 as i32 },
        AetheryteSpawn { aetheryte_id: 1280004, zone_id: 129, x: -1883470 as i32, y: 53770, z: -1372680 as i32 },
        AetheryteSpawn { aetheryte_id: 1280005, zone_id: 130, x: 1123290, y: 45700, z: -928690 as i32 },
        AetheryteSpawn { aetheryte_id: 1280006, zone_id: 135, x: -278181 as i32, y: 77630, z: -2260790 as i32 },
        AetheryteSpawn { aetheryte_id: 1280007, zone_id: 128, x: 582470, y: 54520, z: -1200 as i32 },
        AetheryteSpawn { aetheryte_id: 1280008, zone_id: 128, x: 962836, y: 46507, z: 832206 },
        AetheryteSpawn { aetheryte_id: 1280009, zone_id: 128, x: 318000, y: 24500, z: 581000 },
        AetheryteSpawn { aetheryte_id: 1280010, zone_id: 129, x: -636000 as i32, y: 48800, z: -1287000 as i32 },
        AetheryteSpawn { aetheryte_id: 1280011, zone_id: 129, x: -2016720 as i32, y: 60055, z: -766962 as i32 },
        AetheryteSpawn { aetheryte_id: 1280012, zone_id: 130, x: 1628000, y: 60300, z: -449000 as i32 },
        AetheryteSpawn { aetheryte_id: 1280013, zone_id: 130, x: 1522000, y: 1700, z: -669000 as i32 },
        AetheryteSpawn { aetheryte_id: 1280014, zone_id: 130, x: 1410000, y: 53300, z: -1650000 as i32 },
        AetheryteSpawn { aetheryte_id: 1280015, zone_id: 135, x: -123315 as i32, y: 60061, z: -1438800 as i32 },
        AetheryteSpawn { aetheryte_id: 1280016, zone_id: 135, x: -320322 as i32, y: 52835, z: -1823680 as i32 },
        AetheryteSpawn { aetheryte_id: 1280017, zone_id: 135, x: -894000 as i32, y: 41200, z: -2188000 as i32 },
        AetheryteSpawn { aetheryte_id: 1280018, zone_id: 131, x: -1694500 as i32, y: -19900 as i32, z: -1534000 as i32 },
        AetheryteSpawn { aetheryte_id: 1280020, zone_id: 132, x: 1343500, y: -54380 as i32, z: -870840 as i32 },
        AetheryteSpawn { aetheryte_id: 1280031, zone_id: 175, x: -235000 as i32, y: 185000, z: -3900 as i32 },
        AetheryteSpawn { aetheryte_id: 1280032, zone_id: 170, x: 33000, y: 200100, z: -482000 as i32 },
        AetheryteSpawn { aetheryte_id: 1280033, zone_id: 171, x: 1250900, y: 264000, z: -544200 as i32 },
        AetheryteSpawn { aetheryte_id: 1280034, zone_id: 172, x: -1313910 as i32, y: 56023, z: -145597 as i32 },
        AetheryteSpawn { aetheryte_id: 1280035, zone_id: 173, x: -165816 as i32, y: 280002, z: -1698450 as i32 },
        AetheryteSpawn { aetheryte_id: 1280036, zone_id: 174, x: 1687640, y: 296002, z: 992283 },
        AetheryteSpawn { aetheryte_id: 1280037, zone_id: 170, x: 639000, y: 183900, z: 122000 },
        AetheryteSpawn { aetheryte_id: 1280038, zone_id: 170, x: 539000, y: 215800, z: -14000 as i32 },
        AetheryteSpawn { aetheryte_id: 1280039, zone_id: 171, x: 1599000, y: 256700, z: -233000 as i32 },
        AetheryteSpawn { aetheryte_id: 1280040, zone_id: 171, x: 2010000, y: 280300, z: -768000 as i32 },
        AetheryteSpawn { aetheryte_id: 1280041, zone_id: 171, x: 2015000, y: 247800, z: 64000 },
        AetheryteSpawn { aetheryte_id: 1280042, zone_id: 172, x: -864991 as i32, y: 88840, z: 375180 },
        AetheryteSpawn { aetheryte_id: 1280043, zone_id: 172, x: -1653000 as i32, y: 24500, z: -469000 as i32 },
        AetheryteSpawn { aetheryte_id: 1280044, zone_id: 172, x: -1220380 as i32, y: 69854, z: 194365 },
        AetheryteSpawn { aetheryte_id: 1280045, zone_id: 173, x: -635000 as i32, y: 280000, z: -1797000 as i32 },
        AetheryteSpawn { aetheryte_id: 1280046, zone_id: 173, x: 447000, y: 259100, z: -2158000 as i32 },
        AetheryteSpawn { aetheryte_id: 1280047, zone_id: 173, x: -710000 as i32, y: 280400, z: -2212000 as i32 },
        AetheryteSpawn { aetheryte_id: 1280048, zone_id: 174, x: 1797000, y: 248000, z: 1856000 },
        AetheryteSpawn { aetheryte_id: 1280049, zone_id: 174, x: 1185000, y: 279800, z: 1407000 },
        AetheryteSpawn { aetheryte_id: 1280050, zone_id: 174, x: 2416000, y: 248300, z: 1535000 },
        AetheryteSpawn { aetheryte_id: 1280052, zone_id: 176, x: 80056, y: 167929, z: -1267940 as i32 },
        AetheryteSpawn { aetheryte_id: 1280054, zone_id: 178, x: -620374 as i32, y: 110429, z: -113903 as i32 },
        AetheryteSpawn { aetheryte_id: 1280061, zone_id: 206, x: -120000 as i32, y: 16000, z: -1332000 as i32 },
        AetheryteSpawn { aetheryte_id: 1280062, zone_id: 150, x: 288000, y: 4000, z: -543928 as i32 },
        AetheryteSpawn { aetheryte_id: 1280063, zone_id: 151, x: 1702000, y: 20000, z: -862000 as i32 },
        AetheryteSpawn { aetheryte_id: 1280064, zone_id: 152, x: -1052000 as i32, y: 20000, z: -1760000 as i32 },
        AetheryteSpawn { aetheryte_id: 1280065, zone_id: 153, x: -1566035 as i32, y: -11890 as i32, z: -550510 as i32 },
        AetheryteSpawn { aetheryte_id: 1280066, zone_id: 154, x: 734000, y: -12000 as i32, z: 1126000 },
        AetheryteSpawn { aetheryte_id: 1280067, zone_id: 150, x: -94070 as i32, y: 4000, z: -543160 as i32 },
        AetheryteSpawn { aetheryte_id: 1280068, zone_id: 150, x: -285000 as i32, y: -21800 as i32, z: -46000 as i32 },
        AetheryteSpawn { aetheryte_id: 1280069, zone_id: 150, x: 636000, y: 16200, z: -324000 as i32 },
        AetheryteSpawn { aetheryte_id: 1280070, zone_id: 151, x: 1529830, y: 26991, z: -1140150 as i32 },
        AetheryteSpawn { aetheryte_id: 1280071, zone_id: 151, x: 1296000, y: 47200, z: -1534000 as i32 },
        AetheryteSpawn { aetheryte_id: 1280072, zone_id: 151, x: 2297020, y: 31546, z: -697828 as i32 },
        AetheryteSpawn { aetheryte_id: 1280073, zone_id: 152, x: -883769 as i32, y: 34688, z: -2187450 as i32 },
        AetheryteSpawn { aetheryte_id: 1280074, zone_id: 152, x: -1567000 as i32, y: 16100, z: -2593000 as i32 },
        AetheryteSpawn { aetheryte_id: 1280075, zone_id: 152, x: -800277 as i32, y: 32000, z: -2785400 as i32 },
        AetheryteSpawn { aetheryte_id: 1280076, zone_id: 153, x: -1908000 as i32, y: 300, z: -1042000 as i32 },
        AetheryteSpawn { aetheryte_id: 1280077, zone_id: 153, x: -2158000 as i32, y: -46100 as i32, z: -166000 as i32 },
        AetheryteSpawn { aetheryte_id: 1280078, zone_id: 153, x: -1333000 as i32, y: -14200 as i32, z: 324000 },
        AetheryteSpawn { aetheryte_id: 1280079, zone_id: 154, x: 991000, y: -11800 as i32, z: 600000 },
        AetheryteSpawn { aetheryte_id: 1280080, zone_id: 154, x: 1126000, y: -100 as i32, z: 1440000 },
        AetheryteSpawn { aetheryte_id: 1280081, zone_id: 154, x: 189000, y: 100, z: 1337000 },
        AetheryteSpawn { aetheryte_id: 1280082, zone_id: 157, x: -687916 as i32, y: -15308 as i32, z: -2063940 as i32 },
        AetheryteSpawn { aetheryte_id: 1280083, zone_id: 158, x: 314801, y: -36200 as i32, z: -167843 as i32 },
        AetheryteSpawn { aetheryte_id: 1280092, zone_id: 143, x: 216000, y: 302100, z: -258000 as i32 },
        AetheryteSpawn { aetheryte_id: 1280093, zone_id: 144, x: 1122210, y: 270004, z: -1149290 as i32 },
        AetheryteSpawn { aetheryte_id: 1280094, zone_id: 145, x: 1500780, y: 206036, z: 767546 },
        AetheryteSpawn { aetheryte_id: 1280095, zone_id: 147, x: -159828 as i32, y: 222037, z: 1154810 },
        AetheryteSpawn { aetheryte_id: 1280096, zone_id: 148, x: -1760360 as i32, y: 270059, z: -194713 as i32 },
        AetheryteSpawn { aetheryte_id: 1280097, zone_id: 143, x: -517000 as i32, y: 207900, z: 543000 },
        AetheryteSpawn { aetheryte_id: 1280098, zone_id: 143, x: 190000, y: 367400, z: -662000 as i32 },
        AetheryteSpawn { aetheryte_id: 1280099, zone_id: 143, x: 960000, y: 287400, z: -22000 as i32 },
        AetheryteSpawn { aetheryte_id: 1280100, zone_id: 144, x: 1737000, y: 176500, z: -1250000 as i32 },
        AetheryteSpawn { aetheryte_id: 1280101, zone_id: 144, x: 1390000, y: 222600, z: -736000 as i32 },
        AetheryteSpawn { aetheryte_id: 1280102, zone_id: 144, x: 1788000, y: 164800, z: -829000 as i32 },
        AetheryteSpawn { aetheryte_id: 1280103, zone_id: 145, x: 1383000, y: 231800, z: 422000 },
        AetheryteSpawn { aetheryte_id: 1280104, zone_id: 145, x: 2160000, y: 142700, z: 622000 },
        AetheryteSpawn { aetheryte_id: 1280105, zone_id: 147, x: -1000 as i32, y: 144100, z: 1373000 },
        AetheryteSpawn { aetheryte_id: 1280106, zone_id: 147, x: -64000 as i32, y: 185100, z: 1924000 },
        AetheryteSpawn { aetheryte_id: 1280107, zone_id: 147, x: -908000 as i32, y: 191700, z: 2162000 },
        AetheryteSpawn { aetheryte_id: 1280108, zone_id: 148, x: -1734820 as i32, y: 285069, z: -839630 as i32 },
        AetheryteSpawn { aetheryte_id: 1280109, zone_id: 148, x: -2366070 as i32, y: 336041, z: -1054750 as i32 },
        AetheryteSpawn { aetheryte_id: 1280110, zone_id: 148, x: -2821000 as i32, y: 256100, z: -290000 as i32 },
        AetheryteSpawn { aetheryte_id: 1280121, zone_id: 190, x: 487445, y: 18531, z: 672244 },
        AetheryteSpawn { aetheryte_id: 1280122, zone_id: 190, x: -215760 as i32, y: 18540, z: -668703 as i32 },
        AetheryteSpawn { aetheryte_id: 1280123, zone_id: 190, x: -458000 as i32, y: -40900 as i32, z: -318000 as i32 },
        AetheryteSpawn { aetheryte_id: 1280124, zone_id: 190, x: 580000, y: 58200, z: 206000 },
        AetheryteSpawn { aetheryte_id: 1280125, zone_id: 190, x: -365724 as i32, y: -18591 as i32, z: -25448 as i32 },
    ]
}

/// Whether the ids of `s` strictly increase.
pub open spec fn ids_ascending(s: Seq<AetheryteSpawn>) -> bool {
    forall|i: int, j: int| 0 <= i < j < s.len() ==> s[i].aetheryte_id < s[j].aetheryte_id
}

/// Whether each id of `s` from index `k` on is below the next one.
pub open spec fn ids_step_up(s: Seq<AetheryteSpawn>, k: nat) -> bool
    decreases s.len() - k,
{
    if k + 1 >= s.len() {
        true
    } else {
        s[k as int].aetheryte_id < s[k + 1int].aetheryte_id && ids_step_up(s, k + 1)
    }
}

proof fn lemma_steps_give_order(s: Seq<AetheryteSpawn>, k: nat)
    requires
        ids_step_up(s, k),
    ensures
        forall|i: int, j: int| k <= i < j < s.len() ==> s[i].aetheryte_id < s[j].aetheryte_id,
    decreases s.len() - k,
{
    if k + 1 < s.len() {
        lemma_steps_give_order(s, k + 1);
    }
}

/// The destinations, each pinned to its place in the table: aetheryte id,
/// zone, and position in thousandths of a unit (so 29.97 is 29970). As
/// the ids ascend without repeats (see [`lemma_table_sorted`]), the entry
/// [`lookup`] returns for each of these ids is the one given here.
#[verifier::rlimit(100)]
pub proof fn lemma_table_entries()
    ensures
        spawn_table()[0] == (AetheryteSpawn { aetheryte_id: 1280001, zone_id: 230, x: -407000i32, y: 42500i32, z: 337000i32 }),
        spawn_table()[1] == (AetheryteSpawn { aetheryte_id: 1280002, zone_id: 128, x: 29970i32, y: 45830i32, z: -35470i32 }),
        spawn_table()[2] == (AetheryteSpawn { aetheryte_id: 1280003, zone_id: 129, x: -991880i32, y: 61710i32, z: -1120790i32 }),
        spawn_table()[3] == (AetheryteSpawn { aetheryte_id: 1280004, zone_id: 129, x: -1883470i32, y: 53770i32, z: -1372680i32 }),
        spawn_table()[4] == (AetheryteSpawn { aetheryte_id: 1280005, zone_id: 130, x: 1123290i32, y: 45700i32, z: -928690i32 }),
        spawn_table()[5] == (AetheryteSpawn { aetheryte_id: 1280006, zone_id: 135, x: -278181i32, y: 77630i32, z: -2260790i32 }),
        spawn_table()[6] == (AetheryteSpawn { aetheryte_id: 1280007, zone_id: 128, x: 582470i32, y: 54520i32, z: -1200i32 }),
        spawn_table()[7] == (AetheryteSpawn { aetheryte_id: 1280008, zone_id: 128, x: 962836i32, y: 46507i32, z: 832206i32 }),
        spawn_table()[8] == (AetheryteSpawn { aetheryte_id: 1280009, zone_id: 128, x: 318000i32, y: 24500i32, z: 581000i32 }),
        spawn_table()[9] == (AetheryteSpawn { aetheryte_id: 1280010, zone_id: 129, x: -636000i32, y: 48800i32, z: -1287000i32 }),
        spawn_table()[10] == (AetheryteSpawn { aetheryte_id: 1280011, zone_id: 129, x: -2016720i32, y: 60055i32, z: -766962i32 }),
        spawn_table()[11] == (AetheryteSpawn { aetheryte_id: 1280012, zone_id: 130, x: 1628000i32, y: 60300i32, z: -449000i32 }),
        spawn_table()[12] == (AetheryteSpawn { aetheryte_id: 1280013, zone_id: 130, x: 1522000i32, y: 1700i32, z: -669000i32 }),
        spawn_table()[13] == (AetheryteSpawn { aetheryte_id: 1280014, zone_id: 130, x: 1410000i32, y: 53300i32, z: -1650000i32 }),
        spawn_table()[14] == (AetheryteSpawn { aetheryte_id: 1280015, zone_id: 135, x: -123315i32, y: 60061i32, z: -1438800i32 }),
        spawn_table()[15] == (AetheryteSpawn { aetheryte_id: 1280016, zone_id: 135, x: -320322i32, y: 52835i32, z: -1823680i32 }),
        spawn_table()[16] == (AetheryteSpawn { aetheryte_id: 1280017, zone_id: 135, x: -894000i32, y: 41200i32, z: -2188000i32 }),
        spawn_table()[17] == (AetheryteSpawn { aetheryte_id: 1280018, zone_id: 131, x: -1694500i32, y: -19900i32, z: -1534000i32 }),
        spawn_table()[18] == (AetheryteSpawn { aetheryte_id: 1280020, zone_id: 132, x: 1343500i32, y: -54380i32, z: -870840i32 }),
        spawn_table()[19] == (AetheryteSpawn { aetheryte_id: 1280031, zone_id: 175, x: -235000i32, y: 185000i32, z: -3900i32 }),
        spawn_table()[20] == (AetheryteSpawn { aetheryte_id: 1280032, zone_id: 170, x: 33000i32, y: 200100i32, z: -482000i32 }),
        spawn_table()[21] == (AetheryteSpawn { aetheryte_id: 1280033, zone_id: 171, x: 1250900i32, y: 264000i32, z: -544200i32 }),
        spawn_table()[22] == (AetheryteSpawn { aetheryte_id: 1280034, zone_id: 172, x: -1313910i32, y: 56023i32, z: -145597i32 }),
        spawn_table()[23] == (AetheryteSpawn { aetheryte_id: 1280035, zone_id: 173, x: -165816i32, y: 280002i32, z: -1698450i32 }),
        spawn_table()[24] == (AetheryteSpawn { aetheryte_id: 1280036, zone_id: 174, x: 1687640i32, y: 296002i32, z: 992283i32 }),
        spawn_table()[25] == (AetheryteSpawn { aetheryte_id: 1280037, zone_id: 170, x: 639000i32, y: 183900i32, z: 122000i32 }),
        spawn_table()[26] == (AetheryteSpawn { aetheryte_id: 1280038, zone_id: 170, x: 539000i32, y: 215800i32, z: -14000i32 }),
        spawn_table()[27] == (AetheryteSpawn { aetheryte_id: 1280039, zone_id: 171, x: 1599000i32, y: 256700i32, z: -233000i32 }),
        spawn_table()[28] == (AetheryteSpawn { aetheryte_id: 1280040, zone_id: 171, x: 2010000i32, y: 280300i32, z: -768000i32 }),
        spawn_table()[29] == (AetheryteSpawn { aetheryte_id: 1280041, zone_id: 171, x: 2015000i32, y: 247800i32, z: 64000i32 }),
        spawn_table()[30] == (AetheryteSpawn { aetheryte_id: 1280042, zone_id: 172, x: -864991i32, y: 88840i32, z: 375180i32 }),
        spawn_table()[31] == (AetheryteSpawn { aetheryte_id: 1280043, zone_id: 172, x: -1653000i32, y: 24500i32, z: -469000i32 }),
        spawn_table()[32] == (AetheryteSpawn { aetheryte_id: 1280044, zone_id: 172, x: -1220380i32, y: 69854i32, z: 194365i32 }),
        spawn_table()[33] == (AetheryteSpawn { aetheryte_id: 1280045, zone_id: 173, x: -635000i32, y: 280000i32, z: -1797000i32 }),
        spawn_table()[34] == (AetheryteSpawn { aetheryte_id: 1280046, zone_id: 173, x: 447000i32, y: 259100i32, z: -2158000i32 }),
        spawn_table()[35] == (AetheryteSpawn { aetheryte_id: 1280047, zone_id: 173, x: -710000i32, y: 280400i32, z: -2212000i32 }),
        spawn_table()[36] == (AetheryteSpawn { aetheryte_id: 1280048, zone_id: 174, x: 1797000i32, y: 248000i32, z: 1856000i32 }),
        spawn_table()[37] == (AetheryteSpawn { aetheryte_id: 1280049, zone_id: 174, x: 1185000i32, y: 279800i32, z: 1407000i32 }),
        spawn_table()[38] == (AetheryteSpawn { aetheryte_id: 1280050, zone_id: 174, x: 2416000i32, y: 248300i32, z: 1535000i32 }),
        spawn_table()[39] == (AetheryteSpawn { aetheryte_id: 1280052, zone_id: 176, x: 80056i32, y: 167929i32, z: -1267940i32 }),
        spawn_table()[40] == (AetheryteSpawn { aetheryte_id: 1280054, zone_id: 178, x: -620374i32, y: 110429i32, z: -113903i32 }),
        spawn_table()[41] == (AetheryteSpawn { aetheryte_id: 1280061, zone_id: 206, x: -120000i32, y: 16000i32, z: -1332000i32 }),
        spawn_table()[42] == (AetheryteSpawn { aetheryte_id: 1280062, zone_id: 150, x: 288000i32, y: 4000i32, z: -543928i32 }),
        spawn_table()[43] == (AetheryteSpawn { aetheryte_id: 1280063, zone_id: 151, x: 1702000i32, y: 20000i32, z: -862000i32 }),
        spawn_table()[44] == (AetheryteSpawn { aetheryte_id: 1280064, zone_id: 152, x: -1052000i32, y: 20000i32, z: -1760000i32 }),
        spawn_table()[45] == (AetheryteSpawn { aetheryte_id: 1280065, zone_id: 153, x: -1566035i32, y: -11890i32, z: -550510i32 }),
        spawn_table()[46] == (AetheryteSpawn { aetheryte_id: 1280066, zone_id: 154, x: 734000i32, y: -12000i32, z: 1126000i32 }),
        spawn_table()[47] == (AetheryteSpawn { aetheryte_id: 1280067, zone_id: 150, x: -94070i32, y: 4000i32, z: -543160i32 }),
        spawn_table()[48] == (AetheryteSpawn { aetheryte_id: 1280068, zone_id: 150, x: -285000i32, y: -21800i32, z: -46000i32 }),
        spawn_table()[49] == (AetheryteSpawn { aetheryte_id: 1280069, zone_id: 150, x: 636000i32, y: 16200i32, z: -324000i32 }),
        spawn_table()[50] == (AetheryteSpawn { aetheryte_id: 1280070, zone_id: 151, x: 1529830i32, y: 26991i32, z: -1140150i32 }),
        spawn_table()[51] == (AetheryteSpawn { aetheryte_id: 1280071, zone_id: 151, x: 1296000i32, y: 47200i32, z: -1534000i32 }),
        spawn_table()[52] == (AetheryteSpawn { aetheryte_id: 1280072, zone_id: 151, x: 2297020i32, y: 31546i32, z: -697828i32 }),
        spawn_table()[53] == (AetheryteSpawn { aetheryte_id: 1280073, zone_id: 152, x: -883769i32, y: 34688i32, z: -2187450i32 }),
        spawn_table()[54] == (AetheryteSpawn { aetheryte_id: 1280074, zone_id: 152, x: -1567000i32, y: 16100i32, z: -2593000i32 }),
        spawn_table()[55] == (AetheryteSpawn { aetheryte_id: 1280075, zone_id: 152, x: -800277i32, y: 32000i32, z: -2785400i32 }),
        spawn_table()[56] == (AetheryteSpawn { aetheryte_id: 1280076, zone_id: 153, x: -1908000i32, y: 300i32, z: -1042000i32 }),
        spawn_table()[57] == (AetheryteSpawn { aetheryte_id: 1280077, zone_id: 153, x: -2158000i32, y: -46100i32, z: -166000i32 }),
        spawn_table()[58] == (AetheryteSpawn { aetheryte_id: 1280078, zone_id: 153, x: -1333000i32, y: -14200i32, z: 324000i32 }),
        spawn_table()[59] == (AetheryteSpawn { aetheryte_id: 1280079, zone_id: 154, x: 991000i32, y: -11800i32, z: 600000i32 }),
        spawn_table()[60] == (AetheryteSpawn { aetheryte_id: 1280080, zone_id: 154, x: 1126000i32, y: -100i32, z: 1440000i32 }),
        spawn_table()[61] == (AetheryteSpawn { aetheryte_id: 1280081, zone_id: 154, x: 189000i32, y: 100i32, z: 1337000i32 }),
        spawn_table()[62] == (AetheryteSpawn { aetheryte_id: 1280082, zone_id: 157, x: -687916i32, y: -15308i32, z: -2063940i32 }),
        spawn_table()[63] == (AetheryteSpawn { aetheryte_id: 1280083, zone_id: 158, x: 314801i32, y: -36200i32, z: -167843i32 }),
        spawn_table()[64] == (AetheryteSpawn { aetheryte_id: 1280092, zone_id: 143, x: 216000i32, y: 302100i32, z: -258000i32 }),
        spawn_table()[65] == (AetheryteSpawn { aetheryte_id: 1280093, zone_id: 144, x: 1122210i32, y: 270004i32, z: -1149290i32 }),
        spawn_table()[66] == (AetheryteSpawn { aetheryte_id: 1280094, zone_id: 145, x: 1500780i32, y: 206036i32, z: 767546i32 }),
        spawn_table()[67] == (AetheryteSpawn { aetheryte_id: 1280095, zone_id: 147, x: -159828i32, y: 222037i32, z: 1154810i32 }),
        spawn_table()[68] == (AetheryteSpawn { aetheryte_id: 1280096, zone_id: 148, x: -1760360i32, y: 270059i32, z: -194713i32 }),
        spawn_table()[69] == (AetheryteSpawn { aetheryte_id: 1280097, zone_id: 143, x: -517000i32, y: 207900i32, z: 543000i32 }),
        spawn_table()[70] == (AetheryteSpawn { aetheryte_id: 1280098, zone_id: 143, x: 190000i32, y: 367400i32, z: -662000i32 }),
        spawn_table()[71] == (AetheryteSpawn { aetheryte_id: 1280099, zone_id: 143, x: 960000i32, y: 287400i32, z: -22000i32 }),
        spawn_table()[72] == (AetheryteSpawn { aetheryte_id: 1280100, zone_id: 144, x: 1737000i32, y: 176500i32, z: -1250000i32 }),
        spawn_table()[73] == (AetheryteSpawn { aetheryte_id: 1280101, zone_id: 144, x: 1390000i32, y: 222600i32, z: -736000i32 }),
        spawn_table()[74] == (AetheryteSpawn { aetheryte_id: 1280102, zone_id: 144, x: 1788000i32, y: 164800i32, z: -829000i32 }),
        spawn_table()[75] == (AetheryteSpawn { aetheryte_id: 1280103, zone_id: 145, x: 1383000i32, y: 231800i32, z: 422000i32 }),
        spawn_table()[76] == (AetheryteSpawn { aetheryte_id: 1280104, zone_id: 145, x: 2160000i32, y: 142700i32, z: 622000i32 }),
        spawn_table()[77] == (AetheryteSpawn { aetheryte_id: 1280105, zone_id: 147, x: -1000i32, y: 144100i32, z: 1373000i32 }),
        spawn_table()[78] == (AetheryteSpawn { aetheryte_id: 1280106, zone_id: 147, x: -64000i32, y: 185100i32, z: 1924000i32 }),
        spawn_table()[79] == (AetheryteSpawn { aetheryte_id: 1280107, zone_id: 147, x: -908000i32, y: 191700i32, z: 2162000i32 }),
        spawn_table()[80] == (AetheryteSpawn { aetheryte_id: 1280108, zone_id: 148, x: -1734820i32, y: 285069i32, z: -839630i32 }),
        spawn_table()[81] == (AetheryteSpawn { aetheryte_id: 1280109, zone_id: 148, x: -2366070i32, y: 336041i32, z: -1054750i32 }),
        spawn_table()[82] == (AetheryteSpawn { aetheryte_id: 1280110, zone_id: 148, x: -2821000i32, y: 256100i32, z: -290000i32 }),
        spawn_table()[83] == (AetheryteSpawn { aetheryte_id: 1280121, zone_id: 190, x: 487445i32, y: 18531i32, z: 672244i32 }),
        spawn_table()[84] == (AetheryteSpawn { aetheryte_id: 1280122, zone_id: 190, x: -215760i32, y: 18540i32, z: -668703i32 }),
        spawn_table()[85] == (AetheryteSpawn { aetheryte_id: 1280123, zone_id: 190, x: -458000i32, y: -40900i32, z: -318000i32 }),
        spawn_table()[86] == (AetheryteSpawn { aetheryte_id: 1280124, zone_id: 190, x: 580000i32, y: 58200i32, z: 206000i32 }),
        spawn_table()[87] == (AetheryteSpawn { aetheryte_id: 1280125, zone_id: 190, x: -365724i32, y: -18591i32, z: -25448i32 }),
{
}

/// The table is in strictly ascending id order, so no id occurs twice.
#[verifier::rlimit(100)]
pub proof fn lemma_table_sorted()
    ensures
        ids_ascending(spawn_table()),
        spawn_table().len() == AETHERYTE_COUNT,
{
    reveal_with_fuel(ids_step_up, 90);
    assert(spawn_table().len() == AETHERYTE_COUNT);
    assert(ids_step_up(spawn_table(), 0));
    lemma_steps_give_order(spawn_table(), 0);
}

/// The destination table.
pub fn aetheryte_spawns() -> (r: [AetheryteSpawn; 88])
    ensures
        r@ == spawn_table(),
{
    let r = [
        // La Noscea
        AetheryteSpawn { aetheryte_id: 1280001, zone_id: 230, x: -407000, y: 42500, z: 337000 }, // Limsa Lominsa CAP
        AetheryteSpawn { aetheryte_id: 1280002, zone_id: 128, x: 29970, y: 45830, z: -35470 }, // CAP
        AetheryteSpawn { aetheryte_id: 1280003, zone_id: 129, x: -991880, y: 61710, z: -1120790 }, // CAP
        AetheryteSpawn { aetheryte_id: 1280004, zone_id: 129, x: -1883470, y: 53770, z: -1372680 }, // CAP
        AetheryteSpawn { aetheryte_id: 1280005, zone_id: 130, x: 1123290, y: 45700, z: -928690 }, // CAP
        AetheryteSpawn { aetheryte_id: 1280006, zone_id: 135, x: -278181, y: 77630, z: -2260790 }, // CAP
        AetheryteSpawn { aetheryte_id: 1280007, zone_id: 128, x: 582470, y: 54520, z: -1200 },
        AetheryteSpawn { aetheryte_id: 1280008, zone_id: 128, x: 962836, y: 46507, z: 832206 }, // Widow Cliffs
        AetheryteSpawn { aetheryte_id: 1280009, zone_id: 128, x: 318000, y: 24500, z: 581000 }, // Moraby Bay
        AetheryteSpawn { aetheryte_id: 1280010, zone_id: 129, x: -636000, y: 48800, z: -1287000 }, // Woad Whisper Canyon
        AetheryteSpawn { aetheryte_id: 1280011, zone_id: 129, x: -2016720, y: 60055, z: -766962 }, // Isles of Umbra
        AetheryteSpawn { aetheryte_id: 1280012, zone_id: 130, x: 1628000, y: 60300, z: -449000 }, // Tiger Helm Island
        AetheryteSpawn { aetheryte_id: 1280013, zone_id: 130, x: 1522000, y: 1700, z: -669000 }, // Bloodshore
        AetheryteSpawn { aetheryte_id: 1280014, zone_id: 130, x: 1410000, y: 53300, z: -1650000 }, // Agelyss Wise
        AetheryteSpawn { aetheryte_id: 1280015, zone_id: 135, x: -123315, y: 60061, z: -1438800 }, // Zelma's Run
        AetheryteSpawn { aetheryte_id: 1280016, zone_id: 135, x: -320322, y: 52835, z: -1823680 }, // Bronze Lake
        AetheryteSpawn { aetheryte_id: 1280017, zone_id: 135, x: -894000, y: 41200, z: -2188000 }, // Oakwood
        AetheryteSpawn { aetheryte_id: 1280018, zone_id: 131, x: -1694500, y: -19900, z: -1534000 }, // Mistbeard Cove
        AetheryteSpawn { aetheryte_id: 1280020, zone_id: 132, x: 1343500, y: -54380, z: -870840 }, // CAP
        // Thanalan
        AetheryteSpawn { aetheryte_id: 1280031, zone_id: 175, x: -235000, y: 185000, z: -3900 }, // Ul'dah CAP
        AetheryteSpawn { aetheryte_id: 1280032, zone_id: 170, x: 33000, y: 200100, z: -482000 }, // Camp Black Brush
        AetheryteSpawn { aetheryte_id: 1280033, zone_id: 171, x: 1250900, y: 264000, z: -544200 }, // CAP
        AetheryteSpawn { aetheryte_id: 1280034, zone_id: 172, x: -1313910, y: 56023, z: -145597 }, // Camp Horizon
        AetheryteSpawn { aetheryte_id: 1280035, zone_id: 173, x: -165816, y: 280002, z: -1698450 }, // Camp Bluefog
        AetheryteSpawn { aetheryte_id: 1280036, zone_id: 174, x: 1687640, y: 296002, z: 992283 }, // Camp Brokenwater
        AetheryteSpawn { aetheryte_id: 1280037, zone_id: 170, x: 639000, y: 183900, z: 122000 }, // Cactus Basin
        AetheryteSpawn { aetheryte_id: 1280038, zone_id: 170, x: 539000, y: 215800, z: -14000 }, // Four Sisters
        AetheryteSpawn { aetheryte_id: 1280039, zone_id: 171, x: 1599000, y: 256700, z: -233000 }, // Halatali
        AetheryteSpawn { aetheryte_id: 1280040, zone_id: 171, x: 2010000, y: 280300, z: -768000 }, // Burning Wall
        AetheryteSpawn { aetheryte_id: 1280041, zone_id: 171, x: 2015000, y: 247800, z: 64000 }, // Sandgate
        AetheryteSpawn { aetheryte_id: 1280042, zone_id: 172, x: -864991, y: 88840, z: 375180 }, // Nophica's Wells
        AetheryteSpawn { aetheryte_id: 1280043, zone_id: 172, x: -1653000, y: 24500, z: -469000 }, // Footfalls
        AetheryteSpawn { aetheryte_id: 1280044, zone_id: 172, x: -1220380, y: 69854, z: 194365 }, // Scorpion Keep
        AetheryteSpawn { aetheryte_id: 1280045, zone_id: 173, x: -635000, y: 280000, z: -1797000 }, // Hidden Gorge
        AetheryteSpawn { aetheryte_id: 1280046, zone_id: 173, x: 447000, y: 259100, z: -2158000 }, // Sea of Spires
        AetheryteSpawn { aetheryte_id: 1280047, zone_id: 173, x: -710000, y: 280400, z: -2212000 }, // Cutters Pass
        AetheryteSpawn { aetheryte_id: 1280048, zone_id: 174, x: 1797000, y: 248000, z: 1856000 }, // Red Labyrinth
        AetheryteSpawn { aetheryte_id: 1280049, zone_id: 174, x: 1185000, y: 279800, z: 1407000 }, // Burnt Lizard Creek
        AetheryteSpawn { aetheryte_id: 1280050, zone_id: 174, x: 2416000, y: 248300, z: 1535000 }, // Zanr'ak
        AetheryteSpawn { aetheryte_id: 1280052, zone_id: 176, x: 80056, y: 167929, z: -1267940 }, // Nanawa Mines
        AetheryteSpawn { aetheryte_id: 1280054, zone_id: 178, x: -620374, y: 110429, z: -113903 }, // Copperbell Mines
        // Black Shroud
        AetheryteSpawn { aetheryte_id: 1280061, zone_id: 206, x: -120000, y: 16000, z: -1332000 }, // Gridania CAP
        AetheryteSpawn { aetheryte_id: 1280062, zone_id: 150, x: 288000, y: 4000, z: -543928 }, // CAP
        AetheryteSpawn { aetheryte_id: 1280063, zone_id: 151, x: 1702000, y: 20000, z: -862000 }, // CAP
        AetheryteSpawn { aetheryte_id: 1280064, zone_id: 152, x: -1052000, y: 20000, z: -1760000 }, // CAP
        AetheryteSpawn { aetheryte_id: 1280065, zone_id: 153, x: -1566035, y: -11890, z: -550510 }, // CAP
        AetheryteSpawn { aetheryte_id: 1280066, zone_id: 154, x: 734000, y: -12000, z: 1126000 }, // CAP
        AetheryteSpawn { aetheryte_id: 1280067, zone_id: 150, x: -94070, y: 4000, z: -543160 }, // Humblehearth
        AetheryteSpawn { aetheryte_id: 1280068, zone_id: 150, x: -285000, y: -21800, z: -46000 }, // Sorrel Haven
        AetheryteSpawn { aetheryte_id: 1280069, zone_id: 150, x: 636000, y: 16200, z: -324000 }, // Five Hangs
        AetheryteSpawn { aetheryte_id: 1280070, zone_id: 151, x: 1529830, y: 26991, z: -1140150 }, // Verdant Drop
        AetheryteSpawn { aetheryte_id: 1280071, zone_id: 151, x: 1296000, y: 47200, z: -1534000 }, // Lynxpelt Patch
        AetheryteSpawn { aetheryte_id: 1280072, zone_id: 151, x: 2297020, y: 31546, z: -697828 }, // Larkscall
        AetheryteSpawn { aetheryte_id: 1280073, zone_id: 152, x: -883769, y: 34688, z: -2187450 }, // Treespeak
        AetheryteSpawn { aetheryte_id: 1280074, zone_id: 152, x: -1567000, y: 16100, z: -2593000 }, // Aldersprings
        AetheryteSpawn { aetheryte_id: 1280075, zone_id: 152, x: -800277, y: 32000, z: -2785400 }, // Lasthold
        AetheryteSpawn { aetheryte_id: 1280076, zone_id: 153, x: -1908000, y: 300, z: -1042000 }, // Lichenweed
        AetheryteSpawn { aetheryte_id: 1280077, zone_id: 153, x: -2158000, y: -46100, z: -166000 }, // Murmur Rills
        AetheryteSpawn { aetheryte_id: 1280078, zone_id: 153, x: -1333000, y: -14200, z: 324000 }, // Turning Leaf
        AetheryteSpawn { aetheryte_id: 1280079, zone_id: 154, x: 991000, y: -11800, z: 600000 }, // Silent Arbor
        AetheryteSpawn { aetheryte_id: 1280080, zone_id: 154, x: 1126000, y: -100, z: 1440000 }, // Longroot
        AetheryteSpawn { aetheryte_id: 1280081, zone_id: 154, x: 189000, y: 100, z: 1337000 }, // Snakemolt
        AetheryteSpawn { aetheryte_id: 1280082, zone_id: 157, x: -687916, y: -15308, z: -2063940 }, // Mun-Tuy Cellars
        AetheryteSpawn { aetheryte_id: 1280083, zone_id: 158, x: 314801, y: -36200, z: -167843 }, // Tam-Tara Deepcroft
        // Coerthas
        AetheryteSpawn { aetheryte_id: 1280092, zone_id: 143, x: 216000, y: 302100, z: -258000 }, // Camp Dragonhead
        AetheryteSpawn { aetheryte_id: 1280093, zone_id: 144, x: 1122210, y: 270004, z: -1149290 }, // Camp Crooked Fork
        AetheryteSpawn { aetheryte_id: 1280094, zone_id: 145, x: 1500780, y: 206036, z: 767546 }, // Camp Glory
        AetheryteSpawn { aetheryte_id: 1280095, zone_id: 147, x: -159828, y: 222037, z: 1154810 }, // Camp Ever Lakes
        AetheryteSpawn { aetheryte_id: 1280096, zone_id: 148, x: -1760360, y: 270059, z: -194713 }, // Camp Riversmeet
        AetheryteSpawn { aetheryte_id: 1280097, zone_id: 143, x: -517000, y: 207900, z: 543000 }, // Boulder Downs
        AetheryteSpawn { aetheryte_id: 1280098, zone_id: 143, x: 190000, y: 367400, z: -662000 }, // Prominence Point
        AetheryteSpawn { aetheryte_id: 1280099, zone_id: 143, x: 960000, y: 287400, z: -22000 }, // Feathergorge
        AetheryteSpawn { aetheryte_id: 1280100, zone_id: 144, x: 1737000, y: 176500, z: -1250000 }, // Maiden Glen
        AetheryteSpawn { aetheryte_id: 1280101, zone_id: 144, x: 1390000, y: 222600, z: -736000 }, // Hushed Boughs
        AetheryteSpawn { aetheryte_id: 1280102, zone_id: 144, x: 1788000, y: 164800, z: -829000 }, // Scarwing Fall
        AetheryteSpawn { aetheryte_id: 1280103, zone_id: 145, x: 1383000, y: 231800, z: 422000 }, // Weeping Vale
        AetheryteSpawn { aetheryte_id: 1280104, zone_id: 145, x: 2160000, y: 142700, z: 622000 }, // Clearwater
        AetheryteSpawn { aetheryte_id: 1280105, zone_id: 147, x: -1000, y: 144100, z: 1373000 }, // Teriggans Stand
        AetheryteSpawn { aetheryte_id: 1280106, zone_id: 147, x: -64000, y: 185100, z: 1924000 }, // Shepherd Peak
        AetheryteSpawn { aetheryte_id: 1280107, zone_id: 147, x: -908000, y: 191700, z: 2162000 }, // Fellwood
        AetheryteSpawn { aetheryte_id: 1280108, zone_id: 148, x: -1734820, y: 285069, z: -839630 }, // Wyrmkings Perch
        AetheryteSpawn { aetheryte_id: 1280109, zone_id: 148, x: -2366070, y: 336041, z: -1054750 }, // The Lance
        AetheryteSpawn { aetheryte_id: 1280110, zone_id: 148, x: -2821000, y: 256100, z: -290000 }, // Twinpools
        // Mor Dhona
        AetheryteSpawn { aetheryte_id: 1280121, zone_id: 190, x: 487445, y: 18531, z: 672244 }, // Camp Brittlebark
        AetheryteSpawn { aetheryte_id: 1280122, zone_id: 190, x: -215760, y: 18540, z: -668703 }, // Camp Revenant's Toll
        AetheryteSpawn { aetheryte_id: 1280123, zone_id: 190, x: -458000, y: -40900, z: -318000 }, // Fogfens
        AetheryteSpawn { aetheryte_id: 1280124, zone_id: 190, x: 580000, y: 58200, z: 206000 }, // Singing Shards
        AetheryteSpawn { aetheryte_id: 1280125, zone_id: 190, x: -365724, y: -18591, z: -25448 }, // Jagged Crest Cave
    ];
    assert(r@ =~= spawn_table());
    r
}

/// An id names at most one destination: any entry of the table with the id
/// of entry `k` is entry `k`, so what [`lookup`] returns for the id of
/// entry `k` is entry `k` (see [`lemma_table_entries`]).
pub proof fn lemma_id_names_one_entry(a: AetheryteSpawn, k: int)
    requires
        spawn_table().contains(a),
        0 <= k < spawn_table().len(),
        a.aetheryte_id == spawn_table()[k].aetheryte_id,
    ensures
        a == spawn_table()[k],
{
    lemma_table_sorted();
    let j = choose|j: int| 0 <= j < spawn_table().len() && spawn_table()[j] == a;
    if j < k {
        assert(spawn_table()[j].aetheryte_id < spawn_table()[k].aetheryte_id);
    } else if j > k {
        assert(spawn_table()[k].aetheryte_id < spawn_table()[j].aetheryte_id);
    }
}

/// The destination of aetheryte `aetheryte_id`, found by binary search;
/// `None` for an id the table lacks.
pub fn lookup(aetheryte_id: u32) -> (r: Option<AetheryteSpawn>)
    ensures
        match r {
            Some(a) => a.aetheryte_id == aetheryte_id && spawn_table().contains(a),
            None => forall|i: int|
                0 <= i < spawn_table().len() ==> #[trigger] spawn_table()[i].aetheryte_id
                    != aetheryte_id,
        },
{
    let table = aetheryte_spawns();
    proof {
        lemma_table_sorted();
    }
    let mut lo: usize = 0;
    let mut hi: usize = AETHERYTE_COUNT;
    while lo < hi
        invariant
            lo <= hi <= AETHERYTE_COUNT,
            table@ == spawn_table(),
            table@.len() == AETHERYTE_COUNT,
            ids_ascending(table@),
            forall|i: int| 0 <= i < lo ==> #[trigger] table@[i].aetheryte_id < aetheryte_id,
            forall|i: int|
                hi <= i < AETHERYTE_COUNT ==> #[trigger] table@[i].aetheryte_id > aetheryte_id,
        decreases hi - lo,
    {
        let mid = lo + (hi - lo) / 2;
        let here = table[mid].aetheryte_id;
        if here == aetheryte_id {
            assert(table@.contains(table@[mid as int]));
            return Some(table[mid]);
        } else if here < aetheryte_id {
            lo = mid + 1;
        } else {
            hi = mid;
        }
    }
    None
}

} // verus!
