//! Palette, participant colours and the entity classification table.

use vstd::prelude::*;
use vstd::string::StringSliceAdditionalSpecFns;
use vstd::utf8::encode_utf8_decode_utf8;

verus! {

/// A colour packed into 32 bits: red in the top byte, then green, blue and
/// a low byte that the palette leaves at zero.
#[derive(Clone, Copy, Debug, PartialEq, Eq, Structural)]
pub struct ColorRGBA(pub u32);

impl ColorRGBA {
    /// The four channel bytes, most significant first.
    pub open spec fn channels(self) -> Seq<u8> {
        seq![
            (self.0 >> 24u32) as u8,
            (self.0 >> 16u32) as u8,
            (self.0 >> 8u32) as u8,
            self.0 as u8,
        ]
    }

    /// Expands the packed value into its four bytes, most significant first.
    pub fn to_array(self) -> (r: [u8; 4])
        ensures
            r@ == self.channels(),
            r[0] as u32 == self.0 / 0x100_0000,
            r[1] as u32 == (self.0 / 0x1_0000) % 0x100,
            r[2] as u32 == (self.0 / 0x100) % 0x100,
            r[3] as u32 == self.0 % 0x100,
    {
        let v = self.0;
        let r = [(v >> 24) as u8, (v >> 16) as u8, (v >> 8) as u8, v as u8];
        assert(((v >> 24u32) as u8) as u32 == v / 0x100_0000) by (bit_vector);
        assert(((v >> 16u32) as u8) as u32 == (v / 0x1_0000) % 0x100) by (bit_vector);
        assert(((v >> 8u32) as u8) as u32 == (v / 0x100) % 0x100) by (bit_vector);
        assert((v as u8) as u32 == v % 0x100) by (bit_vector);
        assert(r@ =~= self.channels());
        r
    }
}

pub const FREYA_ORANGE: u32 = 0xeb790700;
pub const FREYA_GOLD: u32 = 0xea9e3600;
pub const FREYA_RED: u32 = 0xf8105300;
pub const FREYA_BLUE: u32 = 0x30b5f700;
pub const FREYA_GREEN: u32 = 0x0aeb9f00;
pub const FREYA_LIGHT_BLUE: u32 = 0x72c5dd00;
pub const FREYA_GRAY: u32 = 0xb2c5c500;
pub const FREYA_PINK: u32 = 0xeaa48300;
pub const FREYA_LIGHT_GRAY: u32 = 0xf4f5f800;
pub const FREYA_DARK_BLUE: u32 = 0x4da7c200;
pub const FREYA_DARK_GREEN: u32 = 0x37bda900;
pub const FREYA_DARK_RED: u32 = 0xae204400;
pub const FREYA_VIOLET: u32 = 0xa401ed00;
pub const FREYA_WHITE: u32 = 0xfaf8fb00;
pub const FREYA_YELLOW: u32 = 0xf7d45400;
pub const FREYA_LIGHT_YELLOW: u32 = 0xead8ad00;
pub const FREYA_LIGHT_GREEN: u32 = 0x6ec29c00;

/// The colour of a participant: four fixed colours for the first four ids,
/// the neutral white for every other id.
pub open spec fn user_color_of(user_id: i64) -> ColorRGBA {
    if user_id == 0 {
        ColorRGBA(FREYA_LIGHT_GREEN)
    } else if user_id == 1 {
        ColorRGBA(FREYA_LIGHT_BLUE)
    } else if user_id == 2 {
        ColorRGBA(FREYA_LIGHT_GRAY)
    } else if user_id == 3 {
        ColorRGBA(FREYA_ORANGE)
    } else {
        ColorRGBA(FREYA_WHITE)
    }
}

pub fn user_color(user_id: i64) -> (r: ColorRGBA)
    ensures
        r == user_color_of(user_id),
{
    match user_id {
        0 => ColorRGBA(FREYA_LIGHT_GREEN),
        1 => ColorRGBA(FREYA_LIGHT_BLUE),
        2 => ColorRGBA(FREYA_LIGHT_GRAY),
        3 => ColorRGBA(FREYA_ORANGE),
        _ => ColorRGBA(FREYA_WHITE),
    }
}

/// Participant colours take exactly five values: the ids 0 to 3 get four
/// distinct colours, and every other id gets the neutral white, which none of
/// those four is.
pub proof fn lemma_user_color_palette()
    ensures
        forall|a: i64, b: i64|
            0 <= a < 4 && 0 <= b < 4 && a != b ==> user_color_of(a) != user_color_of(b),
        forall|a: i64| 0 <= a < 4 ==> user_color_of(a) != ColorRGBA(FREYA_WHITE),
        forall|a: i64| !(0 <= a < 4) ==> user_color_of(a) == ColorRGBA(FREYA_WHITE),
{
}

/// The size that an entity kind without a size of its own is drawn with, in
/// thousandths of the device-coordinate unit.
pub const DEFAULT_UNIT_SIZE: u32 = 45;

/// How an entity is drawn: its size in thousandths of the device-coordinate
/// unit, its colour, and whether its kind is unknown and worth reporting.
#[derive(Clone, Copy, Debug, PartialEq, Eq, Structural)]
pub struct UnitLook {
    pub size: u32,
    pub color: ColorRGBA,
    pub report_unknown: bool,
}

/// The entries of the classification table: size and colour of each known
/// entity kind.
pub open spec fn known_unit(name: Seq<char>) -> Option<(u32, u32)> {
    if name == "VespeneEDyser"@ {
        Some((DEFAULT_UNIT_SIZE, FREYA_LIGHT_GREEN))
    } else if name == "SpacePlatformGeyser"@ {
        Some((DEFAULT_UNIT_SIZE, FREYA_LIGHT_GREEN))
    } else if name == "LabMineralField"@ {
        Some((24, FREYA_LIGHT_BLUE))
    } else if name == "LabMineralField750"@ {
        Some((36, FREYA_LIGHT_BLUE))
    } else if name == "MineralField"@ {
        Some((48, FREYA_LIGHT_BLUE))
    } else if name == "MineralField450"@ {
        Some((60, FREYA_LIGHT_BLUE))
    } else if name == "MineralField750"@ {
        Some((72, FREYA_LIGHT_BLUE))
    } else if name == "XelNagaTower"@ {
        Some((72, FREYA_WHITE))
    } else if name == "RichMineralField"@ {
        Some((DEFAULT_UNIT_SIZE, FREYA_GOLD))
    } else if name == "RichMineralField750"@ {
        Some((DEFAULT_UNIT_SIZE, FREYA_ORANGE))
    } else if name == "DestructibleDebris6x6"@ {
        Some((180, FREYA_GRAY))
    } else if name == "UnbuildablePlatesDestructible"@ {
        Some((60, FREYA_LIGHT_GRAY))
    } else if name == "Overlord"@ {
        Some((60, FREYA_YELLOW))
    } else if name == "SCV"@ || name == "Drone"@ || name == "Probe"@ || name == "Larva"@ {
        Some((30, FREYA_LIGHT_GRAY))
    } else if name == "Hatchery"@ || name == "CommandCenter"@ || name == "Nexus"@ {
        Some((120, FREYA_PINK))
    } else if name == "Broodling"@ {
        Some((6, FREYA_LIGHT_GRAY))
    } else {
        None
    }
}

/// The six characters of the beacon prefix.
pub open spec fn beacon_prefix() -> Seq<char> {
    seq!['B', 'e', 'a', 'c', 'o', 'n']
}

/// Whether an entity kind is a map beacon, whose unknown kind goes unreported.
pub open spec fn is_beacon(name: Seq<char>) -> bool {
    name.len() >= 6 && name.subrange(0, 6) == beacon_prefix()
}

/// How an entity of a kind, owned by a participant, is drawn: as the table
/// says, or else at the default size in the participant's colour.
pub open spec fn unit_look(name: Seq<char>, user_id: i64) -> UnitLook {
    match known_unit(name) {
        Some(entry) => UnitLook { size: entry.0, color: ColorRGBA(entry.1), report_unknown: false },
        None => UnitLook {
            size: DEFAULT_UNIT_SIZE,
            color: user_color_of(user_id),
            report_unknown: !is_beacon(name),
        },
    }
}

/// Compares two strings by their characters.
fn same_text(a: &str, b: &str) -> (r: bool)
    ensures
        r == (a@ == b@),
{
    let x = a.as_bytes();
    let y = b.as_bytes();
    proof {
        encode_utf8_decode_utf8(a@);
        encode_utf8_decode_utf8(b@);
    }
    if x.len() != y.len() {
        return false;
    }
    let mut i: usize = 0;
    while i < x.len()
        invariant
            i <= x@.len(),
            x@.len() == y@.len(),
            x@ == a.spec_bytes(),
            y@ == b.spec_bytes(),
            forall|j: int| 0 <= j < i ==> x@[j] == y@[j],
        decreases x@.len() - i,
    {
        if x[i] != y[i] {
            return false;
        }
        i = i + 1;
    }
    assert(x@ =~= y@);
    true
}

/// Whether a string begins with the beacon prefix.
fn starts_with_beacon(s: &str) -> (r: bool)
    ensures
        r == is_beacon(s@),
{
    let n = s.unicode_len();
    if n < 6 {
        return false;
    }
    let r = s.get_char(0) == 'B' && s.get_char(1) == 'e' && s.get_char(2) == 'a'
        && s.get_char(3) == 'c' && s.get_char(4) == 'o' && s.get_char(5) == 'n';
    proof {
        if is_beacon(s@) {
            assert(s@[0] == s@.subrange(0, 6)[0]);
            assert(s@[1] == s@.subrange(0, 6)[1]);
            assert(s@[2] == s@.subrange(0, 6)[2]);
            assert(s@[3] == s@.subrange(0, 6)[3]);
            assert(s@[4] == s@.subrange(0, 6)[4]);
            assert(s@[5] == s@.subrange(0, 6)[5]);
        }
        if r {
            assert(s@.subrange(0, 6) =~= beacon_prefix());
        }
    }
    r
}

/// Size and colour of an entity, by its kind and, for a kind outside the
/// table, by its owner. Every kind resolves: an unknown one is drawn at the
/// default size in the owner's colour and, unless it is a beacon, flagged for
/// a single report.
pub fn get_unit_sized_color(unit_name: &str, user_id: i64) -> (r: UnitLook)
    ensures
        r == unit_look(unit_name@, user_id),
        r.size > 0,
{
    let mut unit_size: u32 = DEFAULT_UNIT_SIZE;
    let color = if same_text(unit_name, "VespeneEDyser") {
        FREYA_LIGHT_GREEN
    } else if same_text(unit_name, "SpacePlatformGeyser") {
        FREYA_LIGHT_GREEN
    } else if same_text(unit_name, "LabMineralField") {
        unit_size = 24;
        FREYA_LIGHT_BLUE
    } else if same_text(unit_name, "LabMineralField750") {
        unit_size = 36;
        FREYA_LIGHT_BLUE
    } else if same_text(unit_name, "MineralField") {
        unit_size = 48;
        FREYA_LIGHT_BLUE
    } else if same_text(unit_name, "MineralField450") {
        unit_size = 60;
        FREYA_LIGHT_BLUE
    } else if same_text(unit_name, "MineralField750") {
        unit_size = 72;
        FREYA_LIGHT_BLUE
    } else if same_text(unit_name, "XelNagaTower") {
        // Meant to look nearly transparent; the palette has no alpha for it.
        unit_size = 72;
        FREYA_WHITE
    } else if same_text(unit_name, "RichMineralField") {
        FREYA_GOLD
    } else if same_text(unit_name, "RichMineralField750") {
        FREYA_ORANGE
    } else if same_text(unit_name, "DestructibleDebris6x6") {
        unit_size = 180;
        FREYA_GRAY
    } else if same_text(unit_name, "UnbuildablePlatesDestructible") {
        unit_size = 60;
        FREYA_LIGHT_GRAY
    } else if same_text(unit_name, "Overlord") {
        unit_size = 60;
        FREYA_YELLOW
    } else if same_text(unit_name, "SCV") || same_text(unit_name, "Drone") || same_text(
        unit_name,
        "Probe",
    ) || same_text(unit_name, "Larva") {
        unit_size = 30;
        FREYA_LIGHT_GRAY
    } else if same_text(unit_name, "Hatchery") || same_text(unit_name, "CommandCenter")
        || same_text(unit_name, "Nexus") {
        unit_size = 120;
        FREYA_PINK
    } else if same_text(unit_name, "Broodling") {
        unit_size = 6;
        FREYA_LIGHT_GRAY
    } else {
        let fallback = user_color(user_id);
        return UnitLook {
            size: unit_size,
            color: fallback,
            report_unknown: !starts_with_beacon(unit_name),
        };
    };
    UnitLook { size: unit_size, color: ColorRGBA(color), report_unknown: false }
}

} // verus!
