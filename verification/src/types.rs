//! Device enumerations and register encodings of the B24 transmitter.

use vstd::prelude::*;
use vstd::string::StringExecFns;

use crate::text::{decimal, push_decimal};

verus! {

/// Resolution setting for the B24 ADC.
#[derive(Debug, Clone, Copy, PartialEq, Eq, Structural)]
pub enum Resolution {
    Bits8,
    Bits16,
    Bits32,
    Bits48,
    Bits64,
}

/// The register byte of a resolution.
pub open spec fn resolution_byte(r: Resolution) -> u8 {
    match r {
        Resolution::Bits8 => 8,
        Resolution::Bits16 => 16,
        Resolution::Bits32 => 32,
        Resolution::Bits48 => 48,
        Resolution::Bits64 => 64,
    }
}

/// The resolution that a register byte stands for, if any.
pub open spec fn resolution_from_byte(b: u8) -> Option<Resolution> {
    match b {
        8 => Some(Resolution::Bits8),
        16 => Some(Resolution::Bits16),
        32 => Some(Resolution::Bits32),
        48 => Some(Resolution::Bits48),
        64 => Some(Resolution::Bits64),
        _ => None,
    }
}

/// The display label of a resolution.
pub open spec fn resolution_label(r: Resolution) -> Seq<char> {
    match r {
        Resolution::Bits8 => "8 (14.25 bits, max battery)"@,
        Resolution::Bits16 => "16 (15.25 bits, 75% battery)"@,
        Resolution::Bits32 => "32 (16 bits, 50% battery)"@,
        Resolution::Bits48 => "48 (16.5 bits, 37% battery)"@,
        Resolution::Bits64 => "64 (16.75 bits, 30% battery)"@,
    }
}

impl Resolution {
    pub fn to_byte(self) -> (b: u8)
        ensures
            b == resolution_byte(self),
    {
        match self {
            Self::Bits8 => 8,
            Self::Bits16 => 16,
            Self::Bits32 => 32,
            Self::Bits48 => 48,
            Self::Bits64 => 64,
        }
    }

    pub fn from_byte(b: u8) -> (r: Option<Self>)
        ensures
            r == resolution_from_byte(b),
    {
        match b {
            8 => Some(Self::Bits8),
            16 => Some(Self::Bits16),
            32 => Some(Self::Bits32),
            48 => Some(Self::Bits48),
            64 => Some(Self::Bits64),
            _ => None,
        }
    }

    /// Every resolution, in increasing order.
    pub const ALL: [Resolution; 5] = [
        Resolution::Bits8,
        Resolution::Bits16,
        Resolution::Bits32,
        Resolution::Bits48,
        Resolution::Bits64,
    ];

    pub fn label(self) -> (s: &'static str)
        ensures
            s@ == resolution_label(self),
    {
        match self {
            Self::Bits8 => "8 (14.25 bits, max battery)",
            Self::Bits16 => "16 (15.25 bits, 75% battery)",
            Self::Bits32 => "32 (16 bits, 50% battery)",
            Self::Bits48 => "48 (16.5 bits, 37% battery)",
            Self::Bits64 => "64 (16.75 bits, 30% battery)",
        }
    }
}

/// A resolution's byte decodes back to that resolution, and a byte that
/// decodes to a resolution is that resolution's byte.
pub proof fn lemma_resolution_roundtrip(r: Resolution, b: u8)
    ensures
        resolution_from_byte(resolution_byte(r)) == Some(r),
        resolution_from_byte(b) matches Some(x) ==> resolution_byte(x) == b,
{
}

/// Sensitivity range selector.
#[derive(Debug, Clone, Copy, PartialEq, Eq, Structural)]
pub enum SensitivityRange {
    Range6mV,
    Range12mV,
    Range24mV,
    Range48mV,
}

/// The register byte of a sensitivity range.
pub open spec fn sensitivity_byte(r: SensitivityRange) -> u8 {
    match r {
        SensitivityRange::Range6mV => 0,
        SensitivityRange::Range12mV => 1,
        SensitivityRange::Range24mV => 2,
        SensitivityRange::Range48mV => 3,
    }
}

/// The sensitivity range that a register byte stands for, if any.
pub open spec fn sensitivity_from_byte(b: u8) -> Option<SensitivityRange> {
    match b {
        0 => Some(SensitivityRange::Range6mV),
        1 => Some(SensitivityRange::Range12mV),
        2 => Some(SensitivityRange::Range24mV),
        3 => Some(SensitivityRange::Range48mV),
        _ => None,
    }
}

/// The display label of a sensitivity range.
pub open spec fn sensitivity_label(r: SensitivityRange) -> Seq<char> {
    match r {
        SensitivityRange::Range6mV => "0: \u{00B1}6 mV/V"@,
        SensitivityRange::Range12mV => "1: \u{00B1}12 mV/V"@,
        SensitivityRange::Range24mV => "2: \u{00B1}24 mV/V"@,
        SensitivityRange::Range48mV => "3: \u{00B1}48 mV/V"@,
    }
}

impl SensitivityRange {
    pub fn to_byte(self) -> (b: u8)
        ensures
            b == sensitivity_byte(self),
    {
        match self {
            Self::Range6mV => 0,
            Self::Range12mV => 1,
            Self::Range24mV => 2,
            Self::Range48mV => 3,
        }
    }

    pub fn from_byte(b: u8) -> (r: Option<Self>)
        ensures
            r == sensitivity_from_byte(b),
    {
        match b {
            0 => Some(Self::Range6mV),
            1 => Some(Self::Range12mV),
            2 => Some(Self::Range24mV),
            3 => Some(Self::Range48mV),
            _ => None,
        }
    }

    /// Every sensitivity range, in increasing order.
    pub const ALL: [SensitivityRange; 4] = [
        SensitivityRange::Range6mV,
        SensitivityRange::Range12mV,
        SensitivityRange::Range24mV,
        SensitivityRange::Range48mV,
    ];

    pub fn label(self) -> (s: &'static str)
        ensures
            s@ == sensitivity_label(self),
    {
        match self {
            Self::Range6mV => "0: \u{00B1}6 mV/V",
            Self::Range12mV => "1: \u{00B1}12 mV/V",
            Self::Range24mV => "2: \u{00B1}24 mV/V",
            Self::Range48mV => "3: \u{00B1}48 mV/V",
        }
    }
}

/// A sensitivity range's byte decodes back to it, and a byte that decodes
/// to a range is that range's byte.
pub proof fn lemma_sensitivity_roundtrip(r: SensitivityRange, b: u8)
    ensures
        sensitivity_from_byte(sensitivity_byte(r)) == Some(r),
        sensitivity_from_byte(b) matches Some(x) ==> sensitivity_byte(x) == b,
{
}

/// Decoded status byte from the Data Service.
#[derive(Debug, Clone, Copy, PartialEq, Eq, Structural)]
pub struct StatusByte {
    pub shunt_cal: bool,
    pub integrity: bool,
    pub not_gross: bool,
    pub over_range: bool,
    pub fast_mode: bool,
    pub battery_low: bool,
    pub digital_input: bool,
}

/// Whether the bit of weight `w` (a power of two) is set in `b`.
pub open spec fn bit_set(b: u8, w: u8) -> bool {
    (b / w) % 2 == 1
}

/// The flags that a status byte holds: bits 0 to 6 in field order.
pub open spec fn status_from_byte(b: u8) -> StatusByte {
    StatusByte {
        shunt_cal: bit_set(b, 1),
        integrity: bit_set(b, 2),
        not_gross: bit_set(b, 4),
        over_range: bit_set(b, 8),
        fast_mode: bit_set(b, 16),
        battery_low: bit_set(b, 32),
        digital_input: bit_set(b, 64),
    }
}

/// `v` when `c` holds, else zero.
pub open spec fn flag(c: bool, v: int) -> int {
    if c {
        v
    } else {
        0
    }
}

/// The status byte that holds a set of flags (bit 7 clear).
pub open spec fn status_byte(s: StatusByte) -> int {
    flag(s.shunt_cal, 0x01) + flag(s.integrity, 0x02) + flag(s.not_gross, 0x04) + flag(
        s.over_range,
        0x08,
    ) + flag(s.fast_mode, 0x10) + flag(s.battery_low, 0x20) + flag(s.digital_input, 0x40)
}

/// The names of the flags that are set, in field order.
pub open spec fn status_parts(s: StatusByte) -> Seq<Seq<char>> {
    let p0 = Seq::<Seq<char>>::empty();
    let p1 = if s.shunt_cal { p0.push("ShuntCal"@) } else { p0 };
    let p2 = if s.integrity { p1.push("Integrity"@) } else { p1 };
    let p3 = if s.not_gross { p2.push("Tare"@) } else { p2 };
    let p4 = if s.over_range { p3.push("OverRange"@) } else { p3 };
    let p5 = if s.fast_mode { p4.push("Fast"@) } else { p4 };
    let p6 = if s.battery_low { p5.push("BattLow"@) } else { p5 };
    if s.digital_input { p6.push("DigIn"@) } else { p6 }
}

/// The texts of `parts` joined by `sep`.
pub open spec fn join(parts: Seq<Seq<char>>, sep: Seq<char>) -> Seq<char>
    decreases parts.len(),
{
    if parts.len() == 0 {
        Seq::empty()
    } else if parts.len() == 1 {
        parts[0]
    } else {
        join(parts.drop_last(), sep) + sep + parts.last()
    }
}

/// The description of a status: "OK" when no flag is set, else the names
/// of the set flags joined by ", ".
pub open spec fn status_description(s: StatusByte) -> Seq<char> {
    if status_parts(s).len() == 0 {
        "OK"@
    } else {
        join(status_parts(s), ", "@)
    }
}

fn push_part(out: &mut String, count: usize, Ghost(parts): Ghost<Seq<Seq<char>>>, name: &str)
    requires
        old(out)@ == join(parts, ", "@),
        count == parts.len(),
        count < 7,
    ensures
        final(out)@ == join(parts.push(name@), ", "@),
{
    if count > 0 {
        out.append(", ");
    }
    out.append(name);
    assert(parts.push(name@).drop_last() =~= parts);
    assert(final(out)@ =~= join(parts.push(name@), ", "@));
}

impl StatusByte {
    pub fn from_byte(b: u8) -> (s: Self)
        ensures
            s == status_from_byte(b),
    {
        let s = Self {
            shunt_cal: b & 0x01 != 0,
            integrity: b & 0x02 != 0,
            not_gross: b & 0x04 != 0,
            over_range: b & 0x08 != 0,
            fast_mode: b & 0x10 != 0,
            battery_low: b & 0x20 != 0,
            digital_input: b & 0x40 != 0,
        };
        proof {
            lemma_bits_of_byte(b);
        }
        s
    }

    pub fn to_byte(self) -> (b: u8)
        ensures
            b == status_byte(self),
    {
        let mut b: u8 = 0;
        if self.shunt_cal {
            b = b + 0x01;
        }
        if self.integrity {
            b = b + 0x02;
        }
        if self.not_gross {
            b = b + 0x04;
        }
        if self.over_range {
            b = b + 0x08;
        }
        if self.fast_mode {
            b = b + 0x10;
        }
        if self.battery_low {
            b = b + 0x20;
        }
        if self.digital_input {
            b = b + 0x40;
        }
        b
    }

    pub fn description(self) -> (r: String)
        ensures
            r@ == status_description(self),
    {
        let mut out = String::new();
        let mut n: usize = 0;
        let ghost mut parts = Seq::<Seq<char>>::empty();
        if self.shunt_cal {
            push_part(&mut out, n, Ghost(parts), "ShuntCal");
            n = n + 1;
            proof { parts = parts.push("ShuntCal"@); }
        }
        if self.integrity {
            push_part(&mut out, n, Ghost(parts), "Integrity");
            n = n + 1;
            proof { parts = parts.push("Integrity"@); }
        }
        if self.not_gross {
            push_part(&mut out, n, Ghost(parts), "Tare");
            n = n + 1;
            proof { parts = parts.push("Tare"@); }
        }
        if self.over_range {
            push_part(&mut out, n, Ghost(parts), "OverRange");
            n = n + 1;
            proof { parts = parts.push("OverRange"@); }
        }
        if self.fast_mode {
            push_part(&mut out, n, Ghost(parts), "Fast");
            n = n + 1;
            proof { parts = parts.push("Fast"@); }
        }
        if self.battery_low {
            push_part(&mut out, n, Ghost(parts), "BattLow");
            n = n + 1;
            proof { parts = parts.push("BattLow"@); }
        }
        if self.digital_input {
            push_part(&mut out, n, Ghost(parts), "DigIn");
            n = n + 1;
            proof { parts = parts.push("DigIn"@); }
        }
        assert(parts =~= status_parts(self));
        if n == 0 {
            String::from_str("OK")
        } else {
            out
        }
    }
}

proof fn lemma_bits_of_byte(b: u8)
    ensures
        (b & 0x01 != 0) == bit_set(b, 1),
        (b & 0x02 != 0) == bit_set(b, 2),
        (b & 0x04 != 0) == bit_set(b, 4),
        (b & 0x08 != 0) == bit_set(b, 8),
        (b & 0x10 != 0) == bit_set(b, 16),
        (b & 0x20 != 0) == bit_set(b, 32),
        (b & 0x40 != 0) == bit_set(b, 64),
{
    assert((b & 0x01 != 0) == ((b / 1) % 2 == 1)) by (bit_vector);
    assert((b & 0x02 != 0) == ((b / 2) % 2 == 1)) by (bit_vector);
    assert((b & 0x04 != 0) == ((b / 4) % 2 == 1)) by (bit_vector);
    assert((b & 0x08 != 0) == ((b / 8) % 2 == 1)) by (bit_vector);
    assert((b & 0x10 != 0) == ((b / 16) % 2 == 1)) by (bit_vector);
    assert((b & 0x20 != 0) == ((b / 32) % 2 == 1)) by (bit_vector);
    assert((b & 0x40 != 0) == ((b / 64) % 2 == 1)) by (bit_vector);
}

proof fn lemma_bits_sum(a0: u8, a1: u8, a2: u8, a3: u8, a4: u8, a5: u8, a6: u8)
    by (bit_vector)
    requires
        a0 <= 1, a1 <= 1, a2 <= 1, a3 <= 1, a4 <= 1, a5 <= 1, a6 <= 1,
    ensures
        ({
            let c: u8 = (a0 + 2 * a1 + 4 * a2 + 8 * a3 + 16 * a4 + 32 * a5 + 64 * a6) as u8;
            &&& (c / 1) % 2 == a0
            &&& (c / 2) % 2 == a1
            &&& (c / 4) % 2 == a2
            &&& (c / 8) % 2 == a3
            &&& (c / 16) % 2 == a4
            &&& (c / 32) % 2 == a5
            &&& (c / 64) % 2 == a6
        }),
{
}

proof fn lemma_byte_bits(b: u8)
    by (bit_vector)
    ensures
        b % 128 == (b / 1) % 2 + 2 * ((b / 2) % 2) + 4 * ((b / 4) % 2) + 8 * ((b / 8) % 2) + 16
            * ((b / 16) % 2) + 32 * ((b / 32) % 2) + 64 * ((b / 64) % 2),
{
}

/// Re-encoding a decoded status byte gives the byte with bit 7 cleared, and
/// decoding an encoded status gives the same flags back.
pub proof fn lemma_status_roundtrip(b: u8, s: StatusByte)
    ensures
        status_byte(status_from_byte(b)) == b % 0x80,
        status_byte(s) < 0x80,
        status_from_byte(status_byte(s) as u8) == s,
{
    lemma_byte_bits(b);
    let a0: u8 = if s.shunt_cal { 1 } else { 0 };
    let a1: u8 = if s.integrity { 1 } else { 0 };
    let a2: u8 = if s.not_gross { 1 } else { 0 };
    let a3: u8 = if s.over_range { 1 } else { 0 };
    let a4: u8 = if s.fast_mode { 1 } else { 0 };
    let a5: u8 = if s.battery_low { 1 } else { 0 };
    let a6: u8 = if s.digital_input { 1 } else { 0 };
    lemma_bits_sum(a0, a1, a2, a3, a4, a5, a6);
    assert(status_byte(s) == a0 + 2 * a1 + 4 * a2 + 8 * a3 + 16 * a4 + 32 * a5 + 64 * a6);
}

/// Each status flag is its bit of the status byte: shunt cal is bit 0
/// (0x01), integrity bit 1 (0x02), not-gross bit 2 (0x04), over-range bit 3
/// (0x08), fast mode bit 4 (0x10), battery low bit 5 (0x20) and digital
/// input bit 6 (0x40).
pub proof fn lemma_status_flag_bits(b: u8)
    ensures
        status_from_byte(b).shunt_cal <==> b & 0x01 != 0,
        status_from_byte(b).integrity <==> b & 0x02 != 0,
        status_from_byte(b).not_gross <==> b & 0x04 != 0,
        status_from_byte(b).over_range <==> b & 0x08 != 0,
        status_from_byte(b).fast_mode <==> b & 0x10 != 0,
        status_from_byte(b).battery_low <==> b & 0x20 != 0,
        status_from_byte(b).digital_input <==> b & 0x40 != 0,
{
    assert((b / 1) % 2 == 1 <==> b & 0x01 != 0) by (bit_vector);
    assert((b / 2) % 2 == 1 <==> b & 0x02 != 0) by (bit_vector);
    assert((b / 4) % 2 == 1 <==> b & 0x04 != 0) by (bit_vector);
    assert((b / 8) % 2 == 1 <==> b & 0x08 != 0) by (bit_vector);
    assert((b / 16) % 2 == 1 <==> b & 0x10 != 0) by (bit_vector);
    assert((b / 32) % 2 == 1 <==> b & 0x20 != 0) by (bit_vector);
    assert((b / 64) % 2 == 1 <==> b & 0x40 != 0) by (bit_vector);
}

/// The status text names the flags of the byte: "OK" when none of bits 0
/// to 6 is set, the flag's name ("ShuntCal", "Integrity", "Tare",
/// "OverRange", "Fast", "BattLow", "DigIn") when only its bit is, and bit 7
/// never changes it.
pub proof fn lemma_status_description_flags(b: u8)
    ensures
        b & 0x7F == 0 ==> status_description(status_from_byte(b)) == "OK"@,
        status_description(status_from_byte(b)) == status_description(status_from_byte(b & 0x7F)),
        status_description(status_from_byte(0x01)) == "ShuntCal"@,
        status_description(status_from_byte(0x02)) == "Integrity"@,
        status_description(status_from_byte(0x04)) == "Tare"@,
        status_description(status_from_byte(0x08)) == "OverRange"@,
        status_description(status_from_byte(0x10)) == "Fast"@,
        status_description(status_from_byte(0x20)) == "BattLow"@,
        status_description(status_from_byte(0x40)) == "DigIn"@,
{
    let m = b & 0x7F;
    lemma_status_flag_bits(b);
    lemma_status_flag_bits(m);
    assert(m & 0x01 == b & 0x01 && m & 0x02 == b & 0x02 && m & 0x04 == b & 0x04 && m & 0x08 == b & 0x08
        && m & 0x10 == b & 0x10 && m & 0x20 == b & 0x20 && m & 0x40 == b & 0x40) by (bit_vector)
        requires
            m == b & 0x7F,
    ;
    assert(b & 0x7F == 0 ==> (b & 0x01 == 0 && b & 0x02 == 0 && b & 0x04 == 0 && b & 0x08 == 0
        && b & 0x10 == 0 && b & 0x20 == 0 && b & 0x40 == 0)) by (bit_vector);
    assert(status_from_byte(b) == status_from_byte(m));
}

/// The register codes of the settings are the B24's: resolutions 8, 16,
/// 32, 48 and 64 are their own bytes, sensitivity ranges ±6, ±12, ±24 and
/// ±48 mV/V are bytes 0 to 3, and no other byte decodes to either.
pub proof fn lemma_setting_codes(b: u8)
    ensures
        resolution_byte(Resolution::Bits8) == 8 && resolution_from_byte(8) == Some(Resolution::Bits8),
        resolution_byte(Resolution::Bits16) == 16 && resolution_from_byte(16) == Some(Resolution::Bits16),
        resolution_byte(Resolution::Bits32) == 32 && resolution_from_byte(32) == Some(Resolution::Bits32),
        resolution_byte(Resolution::Bits48) == 48 && resolution_from_byte(48) == Some(Resolution::Bits48),
        resolution_byte(Resolution::Bits64) == 64 && resolution_from_byte(64) == Some(Resolution::Bits64),
        b != 8 && b != 16 && b != 32 && b != 48 && b != 64 ==> resolution_from_byte(b) is None,
        sensitivity_byte(SensitivityRange::Range6mV) == 0 && sensitivity_from_byte(0) == Some(SensitivityRange::Range6mV),
        sensitivity_byte(SensitivityRange::Range12mV) == 1 && sensitivity_from_byte(1) == Some(SensitivityRange::Range12mV),
        sensitivity_byte(SensitivityRange::Range24mV) == 2 && sensitivity_from_byte(2) == Some(SensitivityRange::Range24mV),
        sensitivity_byte(SensitivityRange::Range48mV) == 3 && sensitivity_from_byte(3) == Some(SensitivityRange::Range48mV),
        b > 3 ==> sensitivity_from_byte(b) is None,
{
}

/// Units of a reading, from the B24 units lookup table; codes outside the
/// table are kept as `Other`.
#[derive(Debug, Clone, Copy, PartialEq, Eq, Structural)]
pub enum DataUnits {
    MvPerV,
    Radians,
    Degrees,
    Circumference,
    Grade,
    ArcMinutes,
    ArcSeconds,
    Revolutions,
    Metres,
    Angstrom,
    AstronomicalUnit,
    Cm,
    ChainsGunters,
    Ell,
    Em,
    Fathoms,
    Feet,
    Furlongs,
    Inches,
    Km,
    League,
    Leagues,
    LightYears,
    Lines,
    Microns,
    NauticalMiles,
    Miles,
    Mm,
    Mils,
    Nanometers,
    Parsec,
    Yards,
    Kg,
    Drams,
    Grains,
    Grams,
    Milligrams,
    Oz,
    Pennyweights,
    Lbs,
    Kilopounds,
    Scruples,
    Slug,
    TonsLong,
    TonsMetric,
    Tonnes,
    TonsShort,
    Newtons,
    KiloNewtons,
    MilliNewtons,
    MegaNewtons,
    Crinals,
    Dynes,
    GramsForce,
    JoulesPerCm,
    Kgf,
    KgfKp,
    KgMsSquared,
    OuncesForce,
    Lbf,
    Poundals,
    TonsForceLong,
    TonsForceShort,
    TonsForceMetric,
    Bar,
    AtmosphereTech,
    AtmospherePhys,
    DynePerCmSq,
    FtWater,
    InWater,
    GigaPascal,
    HectoPascal,
    KgfPerCmSq,
    KgfPerMSq,
    Microbar,
    Pascal,
    NewtonPerMSq,
    OzPerInSq,
    LbPerFtSq,
    Psi,
    TonnePerCmSq,
    MetresPerSec,
    CmPerSec,
    FeetPerMin,
    FeetPerSec,
    KmPerHr,
    KmPerMin,
    KmPerSec,
    Knots,
    MetresPerHr,
    MetresPerMin,
    MilesPerHr,
    MilesPerMin,
    MilesPerSec,
    NautMilesPerHr,
    NautMilesPerMin,
    NautMilesPerSec,
    NewtonMetre,
    MetreKg,
    FootPound,
    FootPoundal,
    InchPound,
    Counts,
    Undefined,
    Other(u8),
}

/// The units that a code stands for.
pub open spec fn units_from_byte(b: u8) -> DataUnits {
    match b {
        0 => DataUnits::MvPerV,
        1 => DataUnits::Radians,
        2 => DataUnits::Degrees,
        3 => DataUnits::Circumference,
        4 => DataUnits::Grade,
        5 => DataUnits::ArcMinutes,
        6 => DataUnits::ArcSeconds,
        7 => DataUnits::Revolutions,
        15 => DataUnits::Metres,
        16 => DataUnits::Angstrom,
        17 => DataUnits::AstronomicalUnit,
        18 => DataUnits::Cm,
        19 => DataUnits::ChainsGunters,
        20 => DataUnits::Ell,
        21 => DataUnits::Em,
        22 => DataUnits::Fathoms,
        23 => DataUnits::Feet,
        24 => DataUnits::Furlongs,
        25 => DataUnits::Inches,
        26 => DataUnits::Km,
        27 => DataUnits::League,
        28 => DataUnits::Leagues,
        29 => DataUnits::LightYears,
        30 => DataUnits::Lines,
        31 => DataUnits::Microns,
        32 => DataUnits::NauticalMiles,
        33 => DataUnits::Miles,
        34 => DataUnits::Mm,
        35 => DataUnits::Mils,
        36 => DataUnits::Nanometers,
        37 => DataUnits::Parsec,
        38 => DataUnits::Yards,
        45 => DataUnits::Kg,
        46 => DataUnits::Drams,
        47 => DataUnits::Grains,
        48 => DataUnits::Grams,
        49 => DataUnits::Milligrams,
        50 => DataUnits::Oz,
        51 => DataUnits::Pennyweights,
        52 => DataUnits::Lbs,
        53 => DataUnits::Kilopounds,
        54 => DataUnits::Scruples,
        55 => DataUnits::Slug,
        56 => DataUnits::TonsLong,
        57 => DataUnits::TonsMetric,
        58 => DataUnits::Tonnes,
        59 => DataUnits::TonsShort,
        65 => DataUnits::Newtons,
        66 => DataUnits::KiloNewtons,
        67 => DataUnits::MilliNewtons,
        68 => DataUnits::MegaNewtons,
        69 => DataUnits::Crinals,
        70 => DataUnits::Dynes,
        71 => DataUnits::GramsForce,
        72 => DataUnits::JoulesPerCm,
        73 => DataUnits::Kgf,
        74 => DataUnits::KgfKp,
        75 => DataUnits::KgMsSquared,
        76 => DataUnits::OuncesForce,
        77 => DataUnits::Lbf,
        78 => DataUnits::Poundals,
        79 => DataUnits::TonsForceLong,
        80 => DataUnits::TonsForceShort,
        81 => DataUnits::TonsForceMetric,
        95 => DataUnits::Bar,
        96 => DataUnits::AtmosphereTech,
        97 => DataUnits::AtmospherePhys,
        98 => DataUnits::DynePerCmSq,
        99 => DataUnits::FtWater,
        100 => DataUnits::InWater,
        101 => DataUnits::GigaPascal,
        102 => DataUnits::HectoPascal,
        103 => DataUnits::KgfPerCmSq,
        104 => DataUnits::KgfPerMSq,
        105 => DataUnits::Microbar,
        106 => DataUnits::Pascal,
        107 => DataUnits::NewtonPerMSq,
        108 => DataUnits::OzPerInSq,
        109 => DataUnits::LbPerFtSq,
        110 => DataUnits::Psi,
        111 => DataUnits::TonnePerCmSq,
        120 => DataUnits::MetresPerSec,
        121 => DataUnits::CmPerSec,
        122 => DataUnits::FeetPerMin,
        123 => DataUnits::FeetPerSec,
        124 => DataUnits::KmPerHr,
        125 => DataUnits::KmPerMin,
        126 => DataUnits::KmPerSec,
        127 => DataUnits::Knots,
        128 => DataUnits::MetresPerHr,
        129 => DataUnits::MetresPerMin,
        130 => DataUnits::MilesPerHr,
        131 => DataUnits::MilesPerMin,
        132 => DataUnits::MilesPerSec,
        133 => DataUnits::NautMilesPerHr,
        134 => DataUnits::NautMilesPerMin,
        135 => DataUnits::NautMilesPerSec,
        150 => DataUnits::NewtonMetre,
        151 => DataUnits::MetreKg,
        152 => DataUnits::FootPound,
        153 => DataUnits::FootPoundal,
        154 => DataUnits::InchPound,
        200 => DataUnits::Counts,
        255 => DataUnits::Undefined,
        other => DataUnits::Other(other),
    }
}

/// The B24 units table: each code stands for its unit and each unit is
/// written with its code (0 mV/V, 1-7 angles, 15-38 lengths, 45-59 masses,
/// 65-81 forces, 95-111 pressures, 120-135 speeds, 150-154 torques, 200
/// counts, 255 undefined); every other code is kept as an unknown unit of
/// that code.
pub proof fn lemma_units_table()
    ensures
        units_from_byte(0) == DataUnits::MvPerV && units_byte(DataUnits::MvPerV) == 0,
        units_from_byte(1) == DataUnits::Radians && units_byte(DataUnits::Radians) == 1,
        units_from_byte(2) == DataUnits::Degrees && units_byte(DataUnits::Degrees) == 2,
        units_from_byte(3) == DataUnits::Circumference && units_byte(DataUnits::Circumference) == 3,
        units_from_byte(4) == DataUnits::Grade && units_byte(DataUnits::Grade) == 4,
        units_from_byte(5) == DataUnits::ArcMinutes && units_byte(DataUnits::ArcMinutes) == 5,
        units_from_byte(6) == DataUnits::ArcSeconds && units_byte(DataUnits::ArcSeconds) == 6,
        units_from_byte(7) == DataUnits::Revolutions && units_byte(DataUnits::Revolutions) == 7,
        units_from_byte(15) == DataUnits::Metres && units_byte(DataUnits::Metres) == 15,
        units_from_byte(16) == DataUnits::Angstrom && units_byte(DataUnits::Angstrom) == 16,
        units_from_byte(17) == DataUnits::AstronomicalUnit && units_byte(DataUnits::AstronomicalUnit) == 17,
        units_from_byte(18) == DataUnits::Cm && units_byte(DataUnits::Cm) == 18,
        units_from_byte(19) == DataUnits::ChainsGunters && units_byte(DataUnits::ChainsGunters) == 19,
        units_from_byte(20) == DataUnits::Ell && units_byte(DataUnits::Ell) == 20,
        units_from_byte(21) == DataUnits::Em && units_byte(DataUnits::Em) == 21,
        units_from_byte(22) == DataUnits::Fathoms && units_byte(DataUnits::Fathoms) == 22,
        units_from_byte(23) == DataUnits::Feet && units_byte(DataUnits::Feet) == 23,
        units_from_byte(24) == DataUnits::Furlongs && units_byte(DataUnits::Furlongs) == 24,
        units_from_byte(25) == DataUnits::Inches && units_byte(DataUnits::Inches) == 25,
        units_from_byte(26) == DataUnits::Km && units_byte(DataUnits::Km) == 26,
        units_from_byte(27) == DataUnits::League && units_byte(DataUnits::League) == 27,
        units_from_byte(28) == DataUnits::Leagues && units_byte(DataUnits::Leagues) == 28,
        units_from_byte(29) == DataUnits::LightYears && units_byte(DataUnits::LightYears) == 29,
        units_from_byte(30) == DataUnits::Lines && units_byte(DataUnits::Lines) == 30,
        units_from_byte(31) == DataUnits::Microns && units_byte(DataUnits::Microns) == 31,
        units_from_byte(32) == DataUnits::NauticalMiles && units_byte(DataUnits::NauticalMiles) == 32,
        units_from_byte(33) == DataUnits::Miles && units_byte(DataUnits::Miles) == 33,
        units_from_byte(34) == DataUnits::Mm && units_byte(DataUnits::Mm) == 34,
        units_from_byte(35) == DataUnits::Mils && units_byte(DataUnits::Mils) == 35,
        units_from_byte(36) == DataUnits::Nanometers && units_byte(DataUnits::Nanometers) == 36,
        units_from_byte(37) == DataUnits::Parsec && units_byte(DataUnits::Parsec) == 37,
        units_from_byte(38) == DataUnits::Yards && units_byte(DataUnits::Yards) == 38,
        units_from_byte(45) == DataUnits::Kg && units_byte(DataUnits::Kg) == 45,
        units_from_byte(46) == DataUnits::Drams && units_byte(DataUnits::Drams) == 46,
        units_from_byte(47) == DataUnits::Grains && units_byte(DataUnits::Grains) == 47,
        units_from_byte(48) == DataUnits::Grams && units_byte(DataUnits::Grams) == 48,
        units_from_byte(49) == DataUnits::Milligrams && units_byte(DataUnits::Milligrams) == 49,
        units_from_byte(50) == DataUnits::Oz && units_byte(DataUnits::Oz) == 50,
        units_from_byte(51) == DataUnits::Pennyweights && units_byte(DataUnits::Pennyweights) == 51,
        units_from_byte(52) == DataUnits::Lbs && units_byte(DataUnits::Lbs) == 52,
        units_from_byte(53) == DataUnits::Kilopounds && units_byte(DataUnits::Kilopounds) == 53,
        units_from_byte(54) == DataUnits::Scruples && units_byte(DataUnits::Scruples) == 54,
        units_from_byte(55) == DataUnits::Slug && units_byte(DataUnits::Slug) == 55,
        units_from_byte(56) == DataUnits::TonsLong && units_byte(DataUnits::TonsLong) == 56,
        units_from_byte(57) == DataUnits::TonsMetric && units_byte(DataUnits::TonsMetric) == 57,
        units_from_byte(58) == DataUnits::Tonnes && units_byte(DataUnits::Tonnes) == 58,
        units_from_byte(59) == DataUnits::TonsShort && units_byte(DataUnits::TonsShort) == 59,
        units_from_byte(65) == DataUnits::Newtons && units_byte(DataUnits::Newtons) == 65,
        units_from_byte(66) == DataUnits::KiloNewtons && units_byte(DataUnits::KiloNewtons) == 66,
        units_from_byte(67) == DataUnits::MilliNewtons && units_byte(DataUnits::MilliNewtons) == 67,
        units_from_byte(68) == DataUnits::MegaNewtons && units_byte(DataUnits::MegaNewtons) == 68,
        units_from_byte(69) == DataUnits::Crinals && units_byte(DataUnits::Crinals) == 69,
        units_from_byte(70) == DataUnits::Dynes && units_byte(DataUnits::Dynes) == 70,
        units_from_byte(71) == DataUnits::GramsForce && units_byte(DataUnits::GramsForce) == 71,
        units_from_byte(72) == DataUnits::JoulesPerCm && units_byte(DataUnits::JoulesPerCm) == 72,
        units_from_byte(73) == DataUnits::Kgf && units_byte(DataUnits::Kgf) == 73,
        units_from_byte(74) == DataUnits::KgfKp && units_byte(DataUnits::KgfKp) == 74,
        units_from_byte(75) == DataUnits::KgMsSquared && units_byte(DataUnits::KgMsSquared) == 75,
        units_from_byte(76) == DataUnits::OuncesForce && units_byte(DataUnits::OuncesForce) == 76,
        units_from_byte(77) == DataUnits::Lbf && units_byte(DataUnits::Lbf) == 77,
        units_from_byte(78) == DataUnits::Poundals && units_byte(DataUnits::Poundals) == 78,
        units_from_byte(79) == DataUnits::TonsForceLong && units_byte(DataUnits::TonsForceLong) == 79,
        units_from_byte(80) == DataUnits::TonsForceShort && units_byte(DataUnits::TonsForceShort) == 80,
        units_from_byte(81) == DataUnits::TonsForceMetric && units_byte(DataUnits::TonsForceMetric) == 81,
        units_from_byte(95) == DataUnits::Bar && units_byte(DataUnits::Bar) == 95,
        units_from_byte(96) == DataUnits::AtmosphereTech && units_byte(DataUnits::AtmosphereTech) == 96,
        units_from_byte(97) == DataUnits::AtmospherePhys && units_byte(DataUnits::AtmospherePhys) == 97,
        units_from_byte(98) == DataUnits::DynePerCmSq && units_byte(DataUnits::DynePerCmSq) == 98,
        units_from_byte(99) == DataUnits::FtWater && units_byte(DataUnits::FtWater) == 99,
        units_from_byte(100) == DataUnits::InWater && units_byte(DataUnits::InWater) == 100,
        units_from_byte(101) == DataUnits::GigaPascal && units_byte(DataUnits::GigaPascal) == 101,
        units_from_byte(102) == DataUnits::HectoPascal && units_byte(DataUnits::HectoPascal) == 102,
        units_from_byte(103) == DataUnits::KgfPerCmSq && units_byte(DataUnits::KgfPerCmSq) == 103,
        units_from_byte(104) == DataUnits::KgfPerMSq && units_byte(DataUnits::KgfPerMSq) == 104,
        units_from_byte(105) == DataUnits::Microbar && units_byte(DataUnits::Microbar) == 105,
        units_from_byte(106) == DataUnits::Pascal && units_byte(DataUnits::Pascal) == 106,
        units_from_byte(107) == DataUnits::NewtonPerMSq && units_byte(DataUnits::NewtonPerMSq) == 107,
        units_from_byte(108) == DataUnits::OzPerInSq && units_byte(DataUnits::OzPerInSq) == 108,
        units_from_byte(109) == DataUnits::LbPerFtSq && units_byte(DataUnits::LbPerFtSq) == 109,
        units_from_byte(110) == DataUnits::Psi && units_byte(DataUnits::Psi) == 110,
        units_from_byte(111) == DataUnits::TonnePerCmSq && units_byte(DataUnits::TonnePerCmSq) == 111,
        units_from_byte(120) == DataUnits::MetresPerSec && units_byte(DataUnits::MetresPerSec) == 120,
        units_from_byte(121) == DataUnits::CmPerSec && units_byte(DataUnits::CmPerSec) == 121,
        units_from_byte(122) == DataUnits::FeetPerMin && units_byte(DataUnits::FeetPerMin) == 122,
        units_from_byte(123) == DataUnits::FeetPerSec && units_byte(DataUnits::FeetPerSec) == 123,
        units_from_byte(124) == DataUnits::KmPerHr && units_byte(DataUnits::KmPerHr) == 124,
        units_from_byte(125) == DataUnits::KmPerMin && units_byte(DataUnits::KmPerMin) == 125,
        units_from_byte(126) == DataUnits::KmPerSec && units_byte(DataUnits::KmPerSec) == 126,
        units_from_byte(127) == DataUnits::Knots && units_byte(DataUnits::Knots) == 127,
        units_from_byte(128) == DataUnits::MetresPerHr && units_byte(DataUnits::MetresPerHr) == 128,
        units_from_byte(129) == DataUnits::MetresPerMin && units_byte(DataUnits::MetresPerMin) == 129,
        units_from_byte(130) == DataUnits::MilesPerHr && units_byte(DataUnits::MilesPerHr) == 130,
        units_from_byte(131) == DataUnits::MilesPerMin && units_byte(DataUnits::MilesPerMin) == 131,
        units_from_byte(132) == DataUnits::MilesPerSec && units_byte(DataUnits::MilesPerSec) == 132,
        units_from_byte(133) == DataUnits::NautMilesPerHr && units_byte(DataUnits::NautMilesPerHr) == 133,
        units_from_byte(134) == DataUnits::NautMilesPerMin && units_byte(DataUnits::NautMilesPerMin) == 134,
        units_from_byte(135) == DataUnits::NautMilesPerSec && units_byte(DataUnits::NautMilesPerSec) == 135,
        units_from_byte(150) == DataUnits::NewtonMetre && units_byte(DataUnits::NewtonMetre) == 150,
        units_from_byte(151) == DataUnits::MetreKg && units_byte(DataUnits::MetreKg) == 151,
        units_from_byte(152) == DataUnits::FootPound && units_byte(DataUnits::FootPound) == 152,
        units_from_byte(153) == DataUnits::FootPoundal && units_byte(DataUnits::FootPoundal) == 153,
        units_from_byte(154) == DataUnits::InchPound && units_byte(DataUnits::InchPound) == 154,
        units_from_byte(200) == DataUnits::Counts && units_byte(DataUnits::Counts) == 200,
        units_from_byte(255) == DataUnits::Undefined && units_byte(DataUnits::Undefined) == 255,
        forall|b: u8|
            !(
                b == 0 || b == 1 || b == 2 || b == 3 || b == 4 || b == 5 || b == 6 || b == 7 ||
                b == 15 || b == 16 || b == 17 || b == 18 || b == 19 || b == 20 || b == 21 || b == 22 ||
                b == 23 || b == 24 || b == 25 || b == 26 || b == 27 || b == 28 || b == 29 || b == 30 ||
                b == 31 || b == 32 || b == 33 || b == 34 || b == 35 || b == 36 || b == 37 || b == 38 ||
                b == 45 || b == 46 || b == 47 || b == 48 || b == 49 || b == 50 || b == 51 || b == 52 ||
                b == 53 || b == 54 || b == 55 || b == 56 || b == 57 || b == 58 || b == 59 || b == 65 ||
                b == 66 || b == 67 || b == 68 || b == 69 || b == 70 || b == 71 || b == 72 || b == 73 ||
                b == 74 || b == 75 || b == 76 || b == 77 || b == 78 || b == 79 || b == 80 || b == 81 ||
                b == 95 || b == 96 || b == 97 || b == 98 || b == 99 || b == 100 || b == 101 || b == 102 ||
                b == 103 || b == 104 || b == 105 || b == 106 || b == 107 || b == 108 || b == 109 || b == 110 ||
                b == 111 || b == 120 || b == 121 || b == 122 || b == 123 || b == 124 || b == 125 || b == 126 ||
                b == 127 || b == 128 || b == 129 || b == 130 || b == 131 || b == 132 || b == 133 || b == 134 ||
                b == 135 || b == 150 || b == 151 || b == 152 || b == 153 || b == 154 || b == 200 || b == 255
            ) ==> units_from_byte(b) == DataUnits::Other(b),
{
}

/// The code of a unit.
pub open spec fn units_byte(u: DataUnits) -> u8 {
    match u {
        DataUnits::MvPerV => 0,
        DataUnits::Radians => 1,
        DataUnits::Degrees => 2,
        DataUnits::Circumference => 3,
        DataUnits::Grade => 4,
        DataUnits::ArcMinutes => 5,
        DataUnits::ArcSeconds => 6,
        DataUnits::Revolutions => 7,
        DataUnits::Metres => 15,
        DataUnits::Angstrom => 16,
        DataUnits::AstronomicalUnit => 17,
        DataUnits::Cm => 18,
        DataUnits::ChainsGunters => 19,
        DataUnits::Ell => 20,
        DataUnits::Em => 21,
        DataUnits::Fathoms => 22,
        DataUnits::Feet => 23,
        DataUnits::Furlongs => 24,
        DataUnits::Inches => 25,
        DataUnits::Km => 26,
        DataUnits::League => 27,
        DataUnits::Leagues => 28,
        DataUnits::LightYears => 29,
        DataUnits::Lines => 30,
        DataUnits::Microns => 31,
        DataUnits::NauticalMiles => 32,
        DataUnits::Miles => 33,
        DataUnits::Mm => 34,
        DataUnits::Mils => 35,
        DataUnits::Nanometers => 36,
        DataUnits::Parsec => 37,
        DataUnits::Yards => 38,
        DataUnits::Kg => 45,
        DataUnits::Drams => 46,
        DataUnits::Grains => 47,
        DataUnits::Grams => 48,
        DataUnits::Milligrams => 49,
        DataUnits::Oz => 50,
        DataUnits::Pennyweights => 51,
        DataUnits::Lbs => 52,
        DataUnits::Kilopounds => 53,
        DataUnits::Scruples => 54,
        DataUnits::Slug => 55,
        DataUnits::TonsLong => 56,
        DataUnits::TonsMetric => 57,
        DataUnits::Tonnes => 58,
        DataUnits::TonsShort => 59,
        DataUnits::Newtons => 65,
        DataUnits::KiloNewtons => 66,
        DataUnits::MilliNewtons => 67,
        DataUnits::MegaNewtons => 68,
        DataUnits::Crinals => 69,
        DataUnits::Dynes => 70,
        DataUnits::GramsForce => 71,
        DataUnits::JoulesPerCm => 72,
        DataUnits::Kgf => 73,
        DataUnits::KgfKp => 74,
        DataUnits::KgMsSquared => 75,
        DataUnits::OuncesForce => 76,
        DataUnits::Lbf => 77,
        DataUnits::Poundals => 78,
        DataUnits::TonsForceLong => 79,
        DataUnits::TonsForceShort => 80,
        DataUnits::TonsForceMetric => 81,
        DataUnits::Bar => 95,
        DataUnits::AtmosphereTech => 96,
        DataUnits::AtmospherePhys => 97,
        DataUnits::DynePerCmSq => 98,
        DataUnits::FtWater => 99,
        DataUnits::InWater => 100,
        DataUnits::GigaPascal => 101,
        DataUnits::HectoPascal => 102,
        DataUnits::KgfPerCmSq => 103,
        DataUnits::KgfPerMSq => 104,
        DataUnits::Microbar => 105,
        DataUnits::Pascal => 106,
        DataUnits::NewtonPerMSq => 107,
        DataUnits::OzPerInSq => 108,
        DataUnits::LbPerFtSq => 109,
        DataUnits::Psi => 110,
        DataUnits::TonnePerCmSq => 111,
        DataUnits::MetresPerSec => 120,
        DataUnits::CmPerSec => 121,
        DataUnits::FeetPerMin => 122,
        DataUnits::FeetPerSec => 123,
        DataUnits::KmPerHr => 124,
        DataUnits::KmPerMin => 125,
        DataUnits::KmPerSec => 126,
        DataUnits::Knots => 127,
        DataUnits::MetresPerHr => 128,
        DataUnits::MetresPerMin => 129,
        DataUnits::MilesPerHr => 130,
        DataUnits::MilesPerMin => 131,
        DataUnits::MilesPerSec => 132,
        DataUnits::NautMilesPerHr => 133,
        DataUnits::NautMilesPerMin => 134,
        DataUnits::NautMilesPerSec => 135,
        DataUnits::NewtonMetre => 150,
        DataUnits::MetreKg => 151,
        DataUnits::FootPound => 152,
        DataUnits::FootPoundal => 153,
        DataUnits::InchPound => 154,
        DataUnits::Counts => 200,
        DataUnits::Undefined => 255,
        DataUnits::Other(b) => b,
    }
}

/// The short display symbol of a unit.
pub open spec fn units_label(u: DataUnits) -> Seq<char> {
    match u {
        DataUnits::MvPerV => "mV/V"@,
        DataUnits::Radians => "rad"@,
        DataUnits::Degrees => "\u{00B0}"@,
        DataUnits::Circumference => "circ"@,
        DataUnits::Grade => "grade"@,
        DataUnits::ArcMinutes => "'"@,
        DataUnits::ArcSeconds => "\""@,
        DataUnits::Revolutions => "rev"@,
        DataUnits::Metres => "m"@,
        DataUnits::Angstrom => "\u{00C5}"@,
        DataUnits::AstronomicalUnit => "AU"@,
        DataUnits::Cm => "cm"@,
        DataUnits::ChainsGunters => "ch"@,
        DataUnits::Ell => "ell"@,
        DataUnits::Em => "em"@,
        DataUnits::Fathoms => "fm"@,
        DataUnits::Feet => "ft"@,
        DataUnits::Furlongs => "fur"@,
        DataUnits::Inches => "in"@,
        DataUnits::Km => "km"@,
        DataUnits::League => "lea"@,
        DataUnits::Leagues => "league"@,
        DataUnits::LightYears => "ly"@,
        DataUnits::Lines => "ln"@,
        DataUnits::Microns => "\u{00B5}"@,
        DataUnits::NauticalMiles => "mi n"@,
        DataUnits::Miles => "mi"@,
        DataUnits::Mm => "mm"@,
        DataUnits::Mils => "mil"@,
        DataUnits::Nanometers => "nm"@,
        DataUnits::Parsec => "pc"@,
        DataUnits::Yards => "yd"@,
        DataUnits::Kg => "kg"@,
        DataUnits::Drams => "dr av"@,
        DataUnits::Grains => "gr"@,
        DataUnits::Grams => "g"@,
        DataUnits::Milligrams => "mg"@,
        DataUnits::Oz => "oz"@,
        DataUnits::Pennyweights => "pwt"@,
        DataUnits::Lbs => "lb"@,
        DataUnits::Kilopounds => "klb"@,
        DataUnits::Scruples => "s ap"@,
        DataUnits::Slug => "slug"@,
        DataUnits::TonsLong => "ton"@,
        DataUnits::TonsMetric => "T"@,
        DataUnits::Tonnes => "tonne"@,
        DataUnits::TonsShort => "sh tn"@,
        DataUnits::Newtons => "N"@,
        DataUnits::KiloNewtons => "kN"@,
        DataUnits::MilliNewtons => "mN"@,
        DataUnits::MegaNewtons => "MN"@,
        DataUnits::Crinals => "crinal"@,
        DataUnits::Dynes => "dyn"@,
        DataUnits::GramsForce => "gf"@,
        DataUnits::JoulesPerCm => "J/cm"@,
        DataUnits::Kgf => "kgf"@,
        DataUnits::KgfKp => "kp"@,
        DataUnits::KgMsSquared => "kg m/s\u{00B2}"@,
        DataUnits::OuncesForce => "ozf"@,
        DataUnits::Lbf => "lbf"@,
        DataUnits::Poundals => "pdl"@,
        DataUnits::TonsForceLong => "tonf l"@,
        DataUnits::TonsForceShort => "tonf s"@,
        DataUnits::TonsForceMetric => "tonf m"@,
        DataUnits::Bar => "bar"@,
        DataUnits::AtmosphereTech => "at"@,
        DataUnits::AtmospherePhys => "atm"@,
        DataUnits::DynePerCmSq => "dyn/cm\u{00B2}"@,
        DataUnits::FtWater => "ftH\u{2082}O"@,
        DataUnits::InWater => "inH\u{2082}O"@,
        DataUnits::GigaPascal => "GPa"@,
        DataUnits::HectoPascal => "hPa"@,
        DataUnits::KgfPerCmSq => "kgf/cm\u{00B2}"@,
        DataUnits::KgfPerMSq => "kgf/m\u{00B2}"@,
        DataUnits::Microbar => "\u{00B5}bar"@,
        DataUnits::Pascal => "Pa"@,
        DataUnits::NewtonPerMSq => "N/m\u{00B2}"@,
        DataUnits::OzPerInSq => "oz/in\u{00B2}"@,
        DataUnits::LbPerFtSq => "lb/ft\u{00B2}"@,
        DataUnits::Psi => "psi"@,
        DataUnits::TonnePerCmSq => "T/cm\u{00B2}"@,
        DataUnits::MetresPerSec => "m/s"@,
        DataUnits::CmPerSec => "cm/s"@,
        DataUnits::FeetPerMin => "ft/min"@,
        DataUnits::FeetPerSec => "ft/s"@,
        DataUnits::KmPerHr => "km/h"@,
        DataUnits::KmPerMin => "km/min"@,
        DataUnits::KmPerSec => "km/s"@,
        DataUnits::Knots => "kn"@,
        DataUnits::MetresPerHr => "m/h"@,
        DataUnits::MetresPerMin => "m/min"@,
        DataUnits::MilesPerHr => "mph"@,
        DataUnits::MilesPerMin => "mi/min"@,
        DataUnits::MilesPerSec => "mi/s"@,
        DataUnits::NautMilesPerHr => "n mi/h"@,
        DataUnits::NautMilesPerMin => "n mi/min"@,
        DataUnits::NautMilesPerSec => "n mi/s"@,
        DataUnits::NewtonMetre => "N m"@,
        DataUnits::MetreKg => "m kg"@,
        DataUnits::FootPound => "ft lbf"@,
        DataUnits::FootPoundal => "ft pdl"@,
        DataUnits::InchPound => "in lbf"@,
        DataUnits::Counts => "counts"@,
        DataUnits::Undefined => "undefined"@,
        DataUnits::Other(_) => "?"@,
    }
}

/// The unit's full name as the B24 Toolkit mobile app writes it.
pub open spec fn units_app_name(u: DataUnits) -> Seq<char> {
    match u {
        DataUnits::MvPerV => "millivolt per volt"@,
        DataUnits::Radians => "radian"@,
        DataUnits::Degrees => "degree"@,
        DataUnits::Circumference => "circumference"@,
        DataUnits::Grade => "grade"@,
        DataUnits::ArcMinutes => "arc minute"@,
        DataUnits::ArcSeconds => "arc second"@,
        DataUnits::Revolutions => "revolution"@,
        DataUnits::Metres => "metre"@,
        DataUnits::Angstrom => "angstrom"@,
        DataUnits::AstronomicalUnit => "astronomical unit"@,
        DataUnits::Cm => "centimetre"@,
        DataUnits::ChainsGunters => "chain"@,
        DataUnits::Ell => "ell"@,
        DataUnits::Em => "em"@,
        DataUnits::Fathoms => "fathom"@,
        DataUnits::Feet => "foot"@,
        DataUnits::Furlongs => "furlong"@,
        DataUnits::Inches => "inch"@,
        DataUnits::Km => "kilometre"@,
        DataUnits::League => "league"@,
        DataUnits::Leagues => "league"@,
        DataUnits::LightYears => "light year"@,
        DataUnits::Lines => "line"@,
        DataUnits::Microns => "micron"@,
        DataUnits::NauticalMiles => "nautical mile"@,
        DataUnits::Miles => "mile"@,
        DataUnits::Mm => "millimetre"@,
        DataUnits::Mils => "mil"@,
        DataUnits::Nanometers => "nanometre"@,
        DataUnits::Parsec => "parsec"@,
        DataUnits::Yards => "yard"@,
        DataUnits::Kg => "kilogram"@,
        DataUnits::Drams => "dram"@,
        DataUnits::Grains => "grain"@,
        DataUnits::Grams => "gram"@,
        DataUnits::Milligrams => "milligram"@,
        DataUnits::Oz => "ounce"@,
        DataUnits::Pennyweights => "pennyweight"@,
        DataUnits::Lbs => "pound"@,
        DataUnits::Kilopounds => "kilopound"@,
        DataUnits::Scruples => "scruple"@,
        DataUnits::Slug => "slug"@,
        DataUnits::TonsLong => "ton long"@,
        DataUnits::TonsMetric => "ton metric"@,
        DataUnits::Tonnes => "tonne"@,
        DataUnits::TonsShort => "ton short"@,
        DataUnits::Newtons => "newton"@,
        DataUnits::KiloNewtons => "kilonewton"@,
        DataUnits::MilliNewtons => "millinewton"@,
        DataUnits::MegaNewtons => "meganewton"@,
        DataUnits::Crinals => "crinal"@,
        DataUnits::Dynes => "dyne"@,
        DataUnits::GramsForce => "gram-force"@,
        DataUnits::JoulesPerCm => "joule per centimetre"@,
        DataUnits::Kgf => "kilogram-force"@,
        DataUnits::KgfKp => "kilopond"@,
        DataUnits::KgMsSquared => "kilogram metre per second squared"@,
        DataUnits::OuncesForce => "ounce-force"@,
        DataUnits::Lbf => "pound-force"@,
        DataUnits::Poundals => "poundal"@,
        DataUnits::TonsForceLong => "ton-force long"@,
        DataUnits::TonsForceShort => "ton-force short"@,
        DataUnits::TonsForceMetric => "ton-force metric"@,
        DataUnits::Bar => "bar"@,
        DataUnits::AtmosphereTech => "atmosphere technical"@,
        DataUnits::AtmospherePhys => "atmosphere"@,
        DataUnits::DynePerCmSq => "dyne per square centimetre"@,
        DataUnits::FtWater => "foot of water"@,
        DataUnits::InWater => "inch of water"@,
        DataUnits::GigaPascal => "gigapascal"@,
        DataUnits::HectoPascal => "hectopascal"@,
        DataUnits::KgfPerCmSq => "kilogram-force per square centimetre"@,
        DataUnits::KgfPerMSq => "kilogram-force per square metre"@,
        DataUnits::Microbar => "microbar"@,
        DataUnits::Pascal => "pascal"@,
        DataUnits::NewtonPerMSq => "newton per square metre"@,
        DataUnits::OzPerInSq => "ounce per square inch"@,
        DataUnits::LbPerFtSq => "pound per square foot"@,
        DataUnits::Psi => "pound per square inch"@,
        DataUnits::TonnePerCmSq => "tonne per square centimetre"@,
        DataUnits::MetresPerSec => "metre per second"@,
        DataUnits::CmPerSec => "centimetre per second"@,
        DataUnits::FeetPerMin => "foot per minute"@,
        DataUnits::FeetPerSec => "foot per second"@,
        DataUnits::KmPerHr => "kilometre per hour"@,
        DataUnits::KmPerMin => "kilometre per minute"@,
        DataUnits::KmPerSec => "kilometre per second"@,
        DataUnits::Knots => "knot"@,
        DataUnits::MetresPerHr => "metre per hour"@,
        DataUnits::MetresPerMin => "metre per minute"@,
        DataUnits::MilesPerHr => "mile per hour"@,
        DataUnits::MilesPerMin => "mile per minute"@,
        DataUnits::MilesPerSec => "mile per second"@,
        DataUnits::NautMilesPerHr => "nautical mile per hour"@,
        DataUnits::NautMilesPerMin => "nautical mile per minute"@,
        DataUnits::NautMilesPerSec => "nautical mile per second"@,
        DataUnits::NewtonMetre => "newton meter"@,
        DataUnits::MetreKg => "metre kilogram"@,
        DataUnits::FootPound => "foot pound"@,
        DataUnits::FootPoundal => "foot poundal"@,
        DataUnits::InchPound => "inch pound"@,
        DataUnits::Counts => "counts"@,
        DataUnits::Undefined => "undefined"@,
        DataUnits::Other(_) => "unknown"@,
    }
}

/// The unit group as the B24 Toolkit mobile app writes it.
pub open spec fn units_app_group(u: DataUnits) -> Seq<char> {
    match u {
                DataUnits::MvPerV => "ratio"@,
                DataUnits::Radians | DataUnits::Degrees | DataUnits::Circumference | DataUnits::Grade
                | DataUnits::ArcMinutes | DataUnits::ArcSeconds | DataUnits::Revolutions => "angle"@,
                DataUnits::Metres | DataUnits::Angstrom | DataUnits::AstronomicalUnit | DataUnits::Cm
                | DataUnits::ChainsGunters | DataUnits::Ell | DataUnits::Em | DataUnits::Fathoms | DataUnits::Feet
                | DataUnits::Furlongs | DataUnits::Inches | DataUnits::Km | DataUnits::League | DataUnits::Leagues
                | DataUnits::LightYears | DataUnits::Lines | DataUnits::Microns | DataUnits::NauticalMiles
                | DataUnits::Miles | DataUnits::Mm | DataUnits::Mils | DataUnits::Nanometers | DataUnits::Parsec
                | DataUnits::Yards => "length"@,
                DataUnits::Kg | DataUnits::Drams | DataUnits::Grains | DataUnits::Grams | DataUnits::Milligrams
                | DataUnits::Oz | DataUnits::Pennyweights | DataUnits::Lbs | DataUnits::Kilopounds | DataUnits::Scruples
                | DataUnits::Slug | DataUnits::TonsLong | DataUnits::TonsMetric | DataUnits::Tonnes
                | DataUnits::TonsShort => "mass"@,
                DataUnits::Newtons | DataUnits::KiloNewtons | DataUnits::MilliNewtons | DataUnits::MegaNewtons
                | DataUnits::Crinals | DataUnits::Dynes | DataUnits::GramsForce | DataUnits::JoulesPerCm | DataUnits::Kgf
                | DataUnits::KgfKp | DataUnits::KgMsSquared | DataUnits::OuncesForce | DataUnits::Lbf | DataUnits::Poundals
                | DataUnits::TonsForceLong | DataUnits::TonsForceShort | DataUnits::TonsForceMetric => "force"@,
                DataUnits::Bar | DataUnits::AtmosphereTech | DataUnits::AtmospherePhys | DataUnits::DynePerCmSq
                | DataUnits::FtWater | DataUnits::InWater | DataUnits::GigaPascal | DataUnits::HectoPascal
                | DataUnits::KgfPerCmSq | DataUnits::KgfPerMSq | DataUnits::Microbar | DataUnits::Pascal
                | DataUnits::NewtonPerMSq | DataUnits::OzPerInSq | DataUnits::LbPerFtSq | DataUnits::Psi
                | DataUnits::TonnePerCmSq => "pressure"@,
                DataUnits::MetresPerSec | DataUnits::CmPerSec | DataUnits::FeetPerMin | DataUnits::FeetPerSec
                | DataUnits::KmPerHr | DataUnits::KmPerMin | DataUnits::KmPerSec | DataUnits::Knots
                | DataUnits::MetresPerHr | DataUnits::MetresPerMin | DataUnits::MilesPerHr | DataUnits::MilesPerMin
                | DataUnits::MilesPerSec | DataUnits::NautMilesPerHr | DataUnits::NautMilesPerMin
                | DataUnits::NautMilesPerSec => "speed"@,
                DataUnits::NewtonMetre | DataUnits::MetreKg | DataUnits::FootPound | DataUnits::FootPoundal
                | DataUnits::InchPound => "torque"@,
                DataUnits::Counts => "arbitrary"@,
                DataUnits::Undefined | DataUnits::Other(_) => "undefined"@,
            
    }
}

impl DataUnits {
    /// All known units for dropdown selection, grouped by category.
    pub const ALL: [DataUnits; 104] = [
        DataUnits::MvPerV,
        DataUnits::Radians,
        DataUnits::Degrees,
        DataUnits::Circumference,
        DataUnits::Grade,
        DataUnits::ArcMinutes,
        DataUnits::ArcSeconds,
        DataUnits::Revolutions,
        DataUnits::Metres,
        DataUnits::Angstrom,
        DataUnits::AstronomicalUnit,
        DataUnits::Cm,
        DataUnits::ChainsGunters,
        DataUnits::Ell,
        DataUnits::Em,
        DataUnits::Fathoms,
        DataUnits::Feet,
        DataUnits::Furlongs,
        DataUnits::Inches,
        DataUnits::Km,
        DataUnits::League,
        DataUnits::Leagues,
        DataUnits::LightYears,
        DataUnits::Lines,
        DataUnits::Microns,
        DataUnits::NauticalMiles,
        DataUnits::Miles,
        DataUnits::Mm,
        DataUnits::Mils,
        DataUnits::Nanometers,
        DataUnits::Parsec,
        DataUnits::Yards,
        DataUnits::Kg,
        DataUnits::Drams,
        DataUnits::Grains,
        DataUnits::Grams,
        DataUnits::Milligrams,
        DataUnits::Oz,
        DataUnits::Pennyweights,
        DataUnits::Lbs,
        DataUnits::Kilopounds,
        DataUnits::Scruples,
        DataUnits::Slug,
        DataUnits::TonsLong,
        DataUnits::TonsMetric,
        DataUnits::Tonnes,
        DataUnits::TonsShort,
        DataUnits::Newtons,
        DataUnits::KiloNewtons,
        DataUnits::MilliNewtons,
        DataUnits::MegaNewtons,
        DataUnits::Crinals,
        DataUnits::Dynes,
        DataUnits::GramsForce,
        DataUnits::JoulesPerCm,
        DataUnits::Kgf,
        DataUnits::KgfKp,
        DataUnits::KgMsSquared,
        DataUnits::OuncesForce,
        DataUnits::Lbf,
        DataUnits::Poundals,
        DataUnits::TonsForceLong,
        DataUnits::TonsForceShort,
        DataUnits::TonsForceMetric,
        DataUnits::Bar,
        DataUnits::AtmosphereTech,
        DataUnits::AtmospherePhys,
        DataUnits::DynePerCmSq,
        DataUnits::FtWater,
        DataUnits::InWater,
        DataUnits::GigaPascal,
        DataUnits::HectoPascal,
        DataUnits::KgfPerCmSq,
        DataUnits::KgfPerMSq,
        DataUnits::Microbar,
        DataUnits::Pascal,
        DataUnits::NewtonPerMSq,
        DataUnits::OzPerInSq,
        DataUnits::LbPerFtSq,
        DataUnits::Psi,
        DataUnits::TonnePerCmSq,
        DataUnits::MetresPerSec,
        DataUnits::CmPerSec,
        DataUnits::FeetPerMin,
        DataUnits::FeetPerSec,
        DataUnits::KmPerHr,
        DataUnits::KmPerMin,
        DataUnits::KmPerSec,
        DataUnits::Knots,
        DataUnits::MetresPerHr,
        DataUnits::MetresPerMin,
        DataUnits::MilesPerHr,
        DataUnits::MilesPerMin,
        DataUnits::MilesPerSec,
        DataUnits::NautMilesPerHr,
        DataUnits::NautMilesPerMin,
        DataUnits::NautMilesPerSec,
        DataUnits::NewtonMetre,
        DataUnits::MetreKg,
        DataUnits::FootPound,
        DataUnits::FootPoundal,
        DataUnits::InchPound,
        DataUnits::Counts,
        DataUnits::Undefined,
    ];

    pub fn from_byte(b: u8) -> (r: Self)
        ensures
            r == units_from_byte(b),
    {
        match b {
            0 => Self::MvPerV,
            1 => Self::Radians,
            2 => Self::Degrees,
            3 => Self::Circumference,
            4 => Self::Grade,
            5 => Self::ArcMinutes,
            6 => Self::ArcSeconds,
            7 => Self::Revolutions,
            15 => Self::Metres,
            16 => Self::Angstrom,
            17 => Self::AstronomicalUnit,
            18 => Self::Cm,
            19 => Self::ChainsGunters,
            20 => Self::Ell,
            21 => Self::Em,
            22 => Self::Fathoms,
            23 => Self::Feet,
            24 => Self::Furlongs,
            25 => Self::Inches,
            26 => Self::Km,
            27 => Self::League,
            28 => Self::Leagues,
            29 => Self::LightYears,
            30 => Self::Lines,
            31 => Self::Microns,
            32 => Self::NauticalMiles,
            33 => Self::Miles,
            34 => Self::Mm,
            35 => Self::Mils,
            36 => Self::Nanometers,
            37 => Self::Parsec,
            38 => Self::Yards,
            45 => Self::Kg,
            46 => Self::Drams,
            47 => Self::Grains,
            48 => Self::Grams,
            49 => Self::Milligrams,
            50 => Self::Oz,
            51 => Self::Pennyweights,
            52 => Self::Lbs,
            53 => Self::Kilopounds,
            54 => Self::Scruples,
            55 => Self::Slug,
            56 => Self::TonsLong,
            57 => Self::TonsMetric,
            58 => Self::Tonnes,
            59 => Self::TonsShort,
            65 => Self::Newtons,
            66 => Self::KiloNewtons,
            67 => Self::MilliNewtons,
            68 => Self::MegaNewtons,
            69 => Self::Crinals,
            70 => Self::Dynes,
            71 => Self::GramsForce,
            72 => Self::JoulesPerCm,
            73 => Self::Kgf,
            74 => Self::KgfKp,
            75 => Self::KgMsSquared,
            76 => Self::OuncesForce,
            77 => Self::Lbf,
            78 => Self::Poundals,
            79 => Self::TonsForceLong,
            80 => Self::TonsForceShort,
            81 => Self::TonsForceMetric,
            95 => Self::Bar,
            96 => Self::AtmosphereTech,
            97 => Self::AtmospherePhys,
            98 => Self::DynePerCmSq,
            99 => Self::FtWater,
            100 => Self::InWater,
            101 => Self::GigaPascal,
            102 => Self::HectoPascal,
            103 => Self::KgfPerCmSq,
            104 => Self::KgfPerMSq,
            105 => Self::Microbar,
            106 => Self::Pascal,
            107 => Self::NewtonPerMSq,
            108 => Self::OzPerInSq,
            109 => Self::LbPerFtSq,
            110 => Self::Psi,
            111 => Self::TonnePerCmSq,
            120 => Self::MetresPerSec,
            121 => Self::CmPerSec,
            122 => Self::FeetPerMin,
            123 => Self::FeetPerSec,
            124 => Self::KmPerHr,
            125 => Self::KmPerMin,
            126 => Self::KmPerSec,
            127 => Self::Knots,
            128 => Self::MetresPerHr,
            129 => Self::MetresPerMin,
            130 => Self::MilesPerHr,
            131 => Self::MilesPerMin,
            132 => Self::MilesPerSec,
            133 => Self::NautMilesPerHr,
            134 => Self::NautMilesPerMin,
            135 => Self::NautMilesPerSec,
            150 => Self::NewtonMetre,
            151 => Self::MetreKg,
            152 => Self::FootPound,
            153 => Self::FootPoundal,
            154 => Self::InchPound,
            200 => Self::Counts,
            255 => Self::Undefined,
            other => Self::Other(other),
        }
    }

    pub fn to_byte(self) -> (b: u8)
        ensures
            b == units_byte(self),
    {
        match self {
            Self::MvPerV => 0,
            Self::Radians => 1,
            Self::Degrees => 2,
            Self::Circumference => 3,
            Self::Grade => 4,
            Self::ArcMinutes => 5,
            Self::ArcSeconds => 6,
            Self::Revolutions => 7,
            Self::Metres => 15,
            Self::Angstrom => 16,
            Self::AstronomicalUnit => 17,
            Self::Cm => 18,
            Self::ChainsGunters => 19,
            Self::Ell => 20,
            Self::Em => 21,
            Self::Fathoms => 22,
            Self::Feet => 23,
            Self::Furlongs => 24,
            Self::Inches => 25,
            Self::Km => 26,
            Self::League => 27,
            Self::Leagues => 28,
            Self::LightYears => 29,
            Self::Lines => 30,
            Self::Microns => 31,
            Self::NauticalMiles => 32,
            Self::Miles => 33,
            Self::Mm => 34,
            Self::Mils => 35,
            Self::Nanometers => 36,
            Self::Parsec => 37,
            Self::Yards => 38,
            Self::Kg => 45,
            Self::Drams => 46,
            Self::Grains => 47,
            Self::Grams => 48,
            Self::Milligrams => 49,
            Self::Oz => 50,
            Self::Pennyweights => 51,
            Self::Lbs => 52,
            Self::Kilopounds => 53,
            Self::Scruples => 54,
            Self::Slug => 55,
            Self::TonsLong => 56,
            Self::TonsMetric => 57,
            Self::Tonnes => 58,
            Self::TonsShort => 59,
            Self::Newtons => 65,
            Self::KiloNewtons => 66,
            Self::MilliNewtons => 67,
            Self::MegaNewtons => 68,
            Self::Crinals => 69,
            Self::Dynes => 70,
            Self::GramsForce => 71,
            Self::JoulesPerCm => 72,
            Self::Kgf => 73,
            Self::KgfKp => 74,
            Self::KgMsSquared => 75,
            Self::OuncesForce => 76,
            Self::Lbf => 77,
            Self::Poundals => 78,
            Self::TonsForceLong => 79,
            Self::TonsForceShort => 80,
            Self::TonsForceMetric => 81,
            Self::Bar => 95,
            Self::AtmosphereTech => 96,
            Self::AtmospherePhys => 97,
            Self::DynePerCmSq => 98,
            Self::FtWater => 99,
            Self::InWater => 100,
            Self::GigaPascal => 101,
            Self::HectoPascal => 102,
            Self::KgfPerCmSq => 103,
            Self::KgfPerMSq => 104,
            Self::Microbar => 105,
            Self::Pascal => 106,
            Self::NewtonPerMSq => 107,
            Self::OzPerInSq => 108,
            Self::LbPerFtSq => 109,
            Self::Psi => 110,
            Self::TonnePerCmSq => 111,
            Self::MetresPerSec => 120,
            Self::CmPerSec => 121,
            Self::FeetPerMin => 122,
            Self::FeetPerSec => 123,
            Self::KmPerHr => 124,
            Self::KmPerMin => 125,
            Self::KmPerSec => 126,
            Self::Knots => 127,
            Self::MetresPerHr => 128,
            Self::MetresPerMin => 129,
            Self::MilesPerHr => 130,
            Self::MilesPerMin => 131,
            Self::MilesPerSec => 132,
            Self::NautMilesPerHr => 133,
            Self::NautMilesPerMin => 134,
            Self::NautMilesPerSec => 135,
            Self::NewtonMetre => 150,
            Self::MetreKg => 151,
            Self::FootPound => 152,
            Self::FootPoundal => 153,
            Self::InchPound => 154,
            Self::Counts => 200,
            Self::Undefined => 255,
            Self::Other(b) => b,
        }
    }

    pub fn label(self) -> (s: &'static str)
        ensures
            s@ == units_label(self),
    {
        match self {
            Self::MvPerV => "mV/V",
            Self::Radians => "rad",
            Self::Degrees => "\u{00B0}",
            Self::Circumference => "circ",
            Self::Grade => "grade",
            Self::ArcMinutes => "'",
            Self::ArcSeconds => "\"",
            Self::Revolutions => "rev",
            Self::Metres => "m",
            Self::Angstrom => "\u{00C5}",
            Self::AstronomicalUnit => "AU",
            Self::Cm => "cm",
            Self::ChainsGunters => "ch",
            Self::Ell => "ell",
            Self::Em => "em",
            Self::Fathoms => "fm",
            Self::Feet => "ft",
            Self::Furlongs => "fur",
            Self::Inches => "in",
            Self::Km => "km",
            Self::League => "lea",
            Self::Leagues => "league",
            Self::LightYears => "ly",
            Self::Lines => "ln",
            Self::Microns => "\u{00B5}",
            Self::NauticalMiles => "mi n",
            Self::Miles => "mi",
            Self::Mm => "mm",
            Self::Mils => "mil",
            Self::Nanometers => "nm",
            Self::Parsec => "pc",
            Self::Yards => "yd",
            Self::Kg => "kg",
            Self::Drams => "dr av",
            Self::Grains => "gr",
            Self::Grams => "g",
            Self::Milligrams => "mg",
            Self::Oz => "oz",
            Self::Pennyweights => "pwt",
            Self::Lbs => "lb",
            Self::Kilopounds => "klb",
            Self::Scruples => "s ap",
            Self::Slug => "slug",
            Self::TonsLong => "ton",
            Self::TonsMetric => "T",
            Self::Tonnes => "tonne",
            Self::TonsShort => "sh tn",
            Self::Newtons => "N",
            Self::KiloNewtons => "kN",
            Self::MilliNewtons => "mN",
            Self::MegaNewtons => "MN",
            Self::Crinals => "crinal",
            Self::Dynes => "dyn",
            Self::GramsForce => "gf",
            Self::JoulesPerCm => "J/cm",
            Self::Kgf => "kgf",
            Self::KgfKp => "kp",
            Self::KgMsSquared => "kg m/s\u{00B2}",
            Self::OuncesForce => "ozf",
            Self::Lbf => "lbf",
            Self::Poundals => "pdl",
            Self::TonsForceLong => "tonf l",
            Self::TonsForceShort => "tonf s",
            Self::TonsForceMetric => "tonf m",
            Self::Bar => "bar",
            Self::AtmosphereTech => "at",
            Self::AtmospherePhys => "atm",
            Self::DynePerCmSq => "dyn/cm\u{00B2}",
            Self::FtWater => "ftH\u{2082}O",
            Self::InWater => "inH\u{2082}O",
            Self::GigaPascal => "GPa",
            Self::HectoPascal => "hPa",
            Self::KgfPerCmSq => "kgf/cm\u{00B2}",
            Self::KgfPerMSq => "kgf/m\u{00B2}",
            Self::Microbar => "\u{00B5}bar",
            Self::Pascal => "Pa",
            Self::NewtonPerMSq => "N/m\u{00B2}",
            Self::OzPerInSq => "oz/in\u{00B2}",
            Self::LbPerFtSq => "lb/ft\u{00B2}",
            Self::Psi => "psi",
            Self::TonnePerCmSq => "T/cm\u{00B2}",
            Self::MetresPerSec => "m/s",
            Self::CmPerSec => "cm/s",
            Self::FeetPerMin => "ft/min",
            Self::FeetPerSec => "ft/s",
            Self::KmPerHr => "km/h",
            Self::KmPerMin => "km/min",
            Self::KmPerSec => "km/s",
            Self::Knots => "kn",
            Self::MetresPerHr => "m/h",
            Self::MetresPerMin => "m/min",
            Self::MilesPerHr => "mph",
            Self::MilesPerMin => "mi/min",
            Self::MilesPerSec => "mi/s",
            Self::NautMilesPerHr => "n mi/h",
            Self::NautMilesPerMin => "n mi/min",
            Self::NautMilesPerSec => "n mi/s",
            Self::NewtonMetre => "N m",
            Self::MetreKg => "m kg",
            Self::FootPound => "ft lbf",
            Self::FootPoundal => "ft pdl",
            Self::InchPound => "in lbf",
            Self::Counts => "counts",
            Self::Undefined => "undefined",
            Self::Other(_) => "?",
        }
    }

    /// Display label with the decimal byte value, for the units dropdown.
    pub fn dropdown_label(self) -> (s: String)
        ensures
            s@ == units_dropdown_label(self),
    {
        match self {
            Self::Other(b) => {
                let mut s = String::from_str("Unknown (");
                push_decimal(&mut s, b as u32);
                s.append(")");
                s
            },
            _ => {
                let mut s = String::from_str(self.label());
                s.append(" (");
                push_decimal(&mut s, self.to_byte() as u32);
                s.append(")");
                s
            },
        }
    }

    pub fn app_name(self) -> (s: &'static str)
        ensures
            s@ == units_app_name(self),
    {
        match self {
            Self::MvPerV => "millivolt per volt",
            Self::Radians => "radian",
            Self::Degrees => "degree",
            Self::Circumference => "circumference",
            Self::Grade => "grade",
            Self::ArcMinutes => "arc minute",
            Self::ArcSeconds => "arc second",
            Self::Revolutions => "revolution",
            Self::Metres => "metre",
            Self::Angstrom => "angstrom",
            Self::AstronomicalUnit => "astronomical unit",
            Self::Cm => "centimetre",
            Self::ChainsGunters => "chain",
            Self::Ell => "ell",
            Self::Em => "em",
            Self::Fathoms => "fathom",
            Self::Feet => "foot",
            Self::Furlongs => "furlong",
            Self::Inches => "inch",
            Self::Km => "kilometre",
            Self::League => "league",
            Self::Leagues => "league",
            Self::LightYears => "light year",
            Self::Lines => "line",
            Self::Microns => "micron",
            Self::NauticalMiles => "nautical mile",
            Self::Miles => "mile",
            Self::Mm => "millimetre",
            Self::Mils => "mil",
            Self::Nanometers => "nanometre",
            Self::Parsec => "parsec",
            Self::Yards => "yard",
            Self::Kg => "kilogram",
            Self::Drams => "dram",
            Self::Grains => "grain",
            Self::Grams => "gram",
            Self::Milligrams => "milligram",
            Self::Oz => "ounce",
            Self::Pennyweights => "pennyweight",
            Self::Lbs => "pound",
            Self::Kilopounds => "kilopound",
            Self::Scruples => "scruple",
            Self::Slug => "slug",
            Self::TonsLong => "ton long",
            Self::TonsMetric => "ton metric",
            Self::Tonnes => "tonne",
            Self::TonsShort => "ton short",
            Self::Newtons => "newton",
            Self::KiloNewtons => "kilonewton",
            Self::MilliNewtons => "millinewton",
            Self::MegaNewtons => "meganewton",
            Self::Crinals => "crinal",
            Self::Dynes => "dyne",
            Self::GramsForce => "gram-force",
            Self::JoulesPerCm => "joule per centimetre",
            Self::Kgf => "kilogram-force",
            Self::KgfKp => "kilopond",
            Self::KgMsSquared => "kilogram metre per second squared",
            Self::OuncesForce => "ounce-force",
            Self::Lbf => "pound-force",
            Self::Poundals => "poundal",
            Self::TonsForceLong => "ton-force long",
            Self::TonsForceShort => "ton-force short",
            Self::TonsForceMetric => "ton-force metric",
            Self::Bar => "bar",
            Self::AtmosphereTech => "atmosphere technical",
            Self::AtmospherePhys => "atmosphere",
            Self::DynePerCmSq => "dyne per square centimetre",
            Self::FtWater => "foot of water",
            Self::InWater => "inch of water",
            Self::GigaPascal => "gigapascal",
            Self::HectoPascal => "hectopascal",
            Self::KgfPerCmSq => "kilogram-force per square centimetre",
            Self::KgfPerMSq => "kilogram-force per square metre",
            Self::Microbar => "microbar",
            Self::Pascal => "pascal",
            Self::NewtonPerMSq => "newton per square metre",
            Self::OzPerInSq => "ounce per square inch",
            Self::LbPerFtSq => "pound per square foot",
            Self::Psi => "pound per square inch",
            Self::TonnePerCmSq => "tonne per square centimetre",
            Self::MetresPerSec => "metre per second",
            Self::CmPerSec => "centimetre per second",
            Self::FeetPerMin => "foot per minute",
            Self::FeetPerSec => "foot per second",
            Self::KmPerHr => "kilometre per hour",
            Self::KmPerMin => "kilometre per minute",
            Self::KmPerSec => "kilometre per second",
            Self::Knots => "knot",
            Self::MetresPerHr => "metre per hour",
            Self::MetresPerMin => "metre per minute",
            Self::MilesPerHr => "mile per hour",
            Self::MilesPerMin => "mile per minute",
            Self::MilesPerSec => "mile per second",
            Self::NautMilesPerHr => "nautical mile per hour",
            Self::NautMilesPerMin => "nautical mile per minute",
            Self::NautMilesPerSec => "nautical mile per second",
            Self::NewtonMetre => "newton meter",
            Self::MetreKg => "metre kilogram",
            Self::FootPound => "foot pound",
            Self::FootPoundal => "foot poundal",
            Self::InchPound => "inch pound",
            Self::Counts => "counts",
            Self::Undefined => "undefined",
            Self::Other(_) => "unknown",
        }
    }

    pub fn app_group(self) -> (s: &'static str)
        ensures
            s@ == units_app_group(self),
    {
        match self {
            Self::MvPerV => "ratio",
            Self::Radians | Self::Degrees | Self::Circumference | Self::Grade
            | Self::ArcMinutes | Self::ArcSeconds | Self::Revolutions => "angle",
            Self::Metres | Self::Angstrom | Self::AstronomicalUnit | Self::Cm
            | Self::ChainsGunters | Self::Ell | Self::Em | Self::Fathoms | Self::Feet
            | Self::Furlongs | Self::Inches | Self::Km | Self::League | Self::Leagues
            | Self::LightYears | Self::Lines | Self::Microns | Self::NauticalMiles
            | Self::Miles | Self::Mm | Self::Mils | Self::Nanometers | Self::Parsec
            | Self::Yards => "length",
            Self::Kg | Self::Drams | Self::Grains | Self::Grams | Self::Milligrams
            | Self::Oz | Self::Pennyweights | Self::Lbs | Self::Kilopounds | Self::Scruples
            | Self::Slug | Self::TonsLong | Self::TonsMetric | Self::Tonnes
            | Self::TonsShort => "mass",
            Self::Newtons | Self::KiloNewtons | Self::MilliNewtons | Self::MegaNewtons
            | Self::Crinals | Self::Dynes | Self::GramsForce | Self::JoulesPerCm | Self::Kgf
            | Self::KgfKp | Self::KgMsSquared | Self::OuncesForce | Self::Lbf | Self::Poundals
            | Self::TonsForceLong | Self::TonsForceShort | Self::TonsForceMetric => "force",
            Self::Bar | Self::AtmosphereTech | Self::AtmospherePhys | Self::DynePerCmSq
            | Self::FtWater | Self::InWater | Self::GigaPascal | Self::HectoPascal
            | Self::KgfPerCmSq | Self::KgfPerMSq | Self::Microbar | Self::Pascal
            | Self::NewtonPerMSq | Self::OzPerInSq | Self::LbPerFtSq | Self::Psi
            | Self::TonnePerCmSq => "pressure",
            Self::MetresPerSec | Self::CmPerSec | Self::FeetPerMin | Self::FeetPerSec
            | Self::KmPerHr | Self::KmPerMin | Self::KmPerSec | Self::Knots
            | Self::MetresPerHr | Self::MetresPerMin | Self::MilesPerHr | Self::MilesPerMin
            | Self::MilesPerSec | Self::NautMilesPerHr | Self::NautMilesPerMin
            | Self::NautMilesPerSec => "speed",
            Self::NewtonMetre | Self::MetreKg | Self::FootPound | Self::FootPoundal
            | Self::InchPound => "torque",
            Self::Counts => "arbitrary",
            Self::Undefined | Self::Other(_) => "undefined",
                
        }
    }
}

/// Every code decodes to a unit whose code it is.
pub proof fn lemma_units_byte_roundtrip(b: u8)
    ensures
        units_byte(units_from_byte(b)) == b,
{
}

/// A unit's code decodes back to the unit, except for an `Other` that holds
/// a code of the table.
pub proof fn lemma_units_unit_roundtrip(u: DataUnits)
    requires
        u is Other ==> units_from_byte(u->0) is Other,
    ensures
        units_from_byte(units_byte(u)) == u,
{
}

/// The symbol shown for a units code is the B24's symbol for it: code 0
/// shows "mV/V", code 45 "kg", code 52 "lb", and so through the table.
pub proof fn lemma_units_label_table()
    ensures
        units_label(units_from_byte(0)) == "mV/V"@,
        units_label(units_from_byte(1)) == "rad"@,
        units_label(units_from_byte(2)) == "\u{00B0}"@,
        units_label(units_from_byte(3)) == "circ"@,
        units_label(units_from_byte(4)) == "grade"@,
        units_label(units_from_byte(5)) == "'"@,
        units_label(units_from_byte(6)) == "\""@,
        units_label(units_from_byte(7)) == "rev"@,
        units_label(units_from_byte(15)) == "m"@,
        units_label(units_from_byte(16)) == "\u{00C5}"@,
        units_label(units_from_byte(17)) == "AU"@,
        units_label(units_from_byte(18)) == "cm"@,
        units_label(units_from_byte(19)) == "ch"@,
        units_label(units_from_byte(20)) == "ell"@,
        units_label(units_from_byte(21)) == "em"@,
        units_label(units_from_byte(22)) == "fm"@,
        units_label(units_from_byte(23)) == "ft"@,
        units_label(units_from_byte(24)) == "fur"@,
        units_label(units_from_byte(25)) == "in"@,
        units_label(units_from_byte(26)) == "km"@,
        units_label(units_from_byte(27)) == "lea"@,
        units_label(units_from_byte(28)) == "league"@,
        units_label(units_from_byte(29)) == "ly"@,
        units_label(units_from_byte(30)) == "ln"@,
        units_label(units_from_byte(31)) == "\u{00B5}"@,
        units_label(units_from_byte(32)) == "mi n"@,
        units_label(units_from_byte(33)) == "mi"@,
        units_label(units_from_byte(34)) == "mm"@,
        units_label(units_from_byte(35)) == "mil"@,
        units_label(units_from_byte(36)) == "nm"@,
        units_label(units_from_byte(37)) == "pc"@,
        units_label(units_from_byte(38)) == "yd"@,
        units_label(units_from_byte(45)) == "kg"@,
        units_label(units_from_byte(46)) == "dr av"@,
        units_label(units_from_byte(47)) == "gr"@,
        units_label(units_from_byte(48)) == "g"@,
        units_label(units_from_byte(49)) == "mg"@,
        units_label(units_from_byte(50)) == "oz"@,
        units_label(units_from_byte(51)) == "pwt"@,
        units_label(units_from_byte(52)) == "lb"@,
        units_label(units_from_byte(53)) == "klb"@,
        units_label(units_from_byte(54)) == "s ap"@,
        units_label(units_from_byte(55)) == "slug"@,
        units_label(units_from_byte(56)) == "ton"@,
        units_label(units_from_byte(57)) == "T"@,
        units_label(units_from_byte(58)) == "tonne"@,
        units_label(units_from_byte(59)) == "sh tn"@,
        units_label(units_from_byte(65)) == "N"@,
        units_label(units_from_byte(66)) == "kN"@,
        units_label(units_from_byte(67)) == "mN"@,
        units_label(units_from_byte(68)) == "MN"@,
        units_label(units_from_byte(69)) == "crinal"@,
        units_label(units_from_byte(70)) == "dyn"@,
        units_label(units_from_byte(71)) == "gf"@,
        units_label(units_from_byte(72)) == "J/cm"@,
        units_label(units_from_byte(73)) == "kgf"@,
        units_label(units_from_byte(74)) == "kp"@,
        units_label(units_from_byte(75)) == "kg m/s\u{00B2}"@,
        units_label(units_from_byte(76)) == "ozf"@,
        units_label(units_from_byte(77)) == "lbf"@,
        units_label(units_from_byte(78)) == "pdl"@,
        units_label(units_from_byte(79)) == "tonf l"@,
        units_label(units_from_byte(80)) == "tonf s"@,
        units_label(units_from_byte(81)) == "tonf m"@,
        units_label(units_from_byte(95)) == "bar"@,
        units_label(units_from_byte(96)) == "at"@,
        units_label(units_from_byte(97)) == "atm"@,
        units_label(units_from_byte(98)) == "dyn/cm\u{00B2}"@,
        units_label(units_from_byte(99)) == "ftH\u{2082}O"@,
        units_label(units_from_byte(100)) == "inH\u{2082}O"@,
        units_label(units_from_byte(101)) == "GPa"@,
        units_label(units_from_byte(102)) == "hPa"@,
        units_label(units_from_byte(103)) == "kgf/cm\u{00B2}"@,
        units_label(units_from_byte(104)) == "kgf/m\u{00B2}"@,
        units_label(units_from_byte(105)) == "\u{00B5}bar"@,
        units_label(units_from_byte(106)) == "Pa"@,
        units_label(units_from_byte(107)) == "N/m\u{00B2}"@,
        units_label(units_from_byte(108)) == "oz/in\u{00B2}"@,
        units_label(units_from_byte(109)) == "lb/ft\u{00B2}"@,
        units_label(units_from_byte(110)) == "psi"@,
        units_label(units_from_byte(111)) == "T/cm\u{00B2}"@,
        units_label(units_from_byte(120)) == "m/s"@,
        units_label(units_from_byte(121)) == "cm/s"@,
        units_label(units_from_byte(122)) == "ft/min"@,
        units_label(units_from_byte(123)) == "ft/s"@,
        units_label(units_from_byte(124)) == "km/h"@,
        units_label(units_from_byte(125)) == "km/min"@,
        units_label(units_from_byte(126)) == "km/s"@,
        units_label(units_from_byte(127)) == "kn"@,
        units_label(units_from_byte(128)) == "m/h"@,
        units_label(units_from_byte(129)) == "m/min"@,
        units_label(units_from_byte(130)) == "mph"@,
        units_label(units_from_byte(131)) == "mi/min"@,
        units_label(units_from_byte(132)) == "mi/s"@,
        units_label(units_from_byte(133)) == "n mi/h"@,
        units_label(units_from_byte(134)) == "n mi/min"@,
        units_label(units_from_byte(135)) == "n mi/s"@,
        units_label(units_from_byte(150)) == "N m"@,
        units_label(units_from_byte(151)) == "m kg"@,
        units_label(units_from_byte(152)) == "ft lbf"@,
        units_label(units_from_byte(153)) == "ft pdl"@,
        units_label(units_from_byte(154)) == "in lbf"@,
        units_label(units_from_byte(200)) == "counts"@,
        units_label(units_from_byte(255)) == "undefined"@,
{
}

/// The name and group under which the mobile app knows a units code are
/// the B24 app's: code 45 is "kilogram" in "mass", code 52 "pound" in
/// "mass", and so through the table; a code outside it shows "?" and is
/// "unknown" in "undefined".
pub proof fn lemma_units_app_table(b: u8)
    ensures
        units_app_name(units_from_byte(0)) == "millivolt per volt"@ && units_app_group(units_from_byte(0)) == "ratio"@,
        units_app_name(units_from_byte(1)) == "radian"@ && units_app_group(units_from_byte(1)) == "angle"@,
        units_app_name(units_from_byte(2)) == "degree"@ && units_app_group(units_from_byte(2)) == "angle"@,
        units_app_name(units_from_byte(3)) == "circumference"@ && units_app_group(units_from_byte(3)) == "angle"@,
        units_app_name(units_from_byte(4)) == "grade"@ && units_app_group(units_from_byte(4)) == "angle"@,
        units_app_name(units_from_byte(5)) == "arc minute"@ && units_app_group(units_from_byte(5)) == "angle"@,
        units_app_name(units_from_byte(6)) == "arc second"@ && units_app_group(units_from_byte(6)) == "angle"@,
        units_app_name(units_from_byte(7)) == "revolution"@ && units_app_group(units_from_byte(7)) == "angle"@,
        units_app_name(units_from_byte(15)) == "metre"@ && units_app_group(units_from_byte(15)) == "length"@,
        units_app_name(units_from_byte(16)) == "angstrom"@ && units_app_group(units_from_byte(16)) == "length"@,
        units_app_name(units_from_byte(17)) == "astronomical unit"@ && units_app_group(units_from_byte(17)) == "length"@,
        units_app_name(units_from_byte(18)) == "centimetre"@ && units_app_group(units_from_byte(18)) == "length"@,
        units_app_name(units_from_byte(19)) == "chain"@ && units_app_group(units_from_byte(19)) == "length"@,
        units_app_name(units_from_byte(20)) == "ell"@ && units_app_group(units_from_byte(20)) == "length"@,
        units_app_name(units_from_byte(21)) == "em"@ && units_app_group(units_from_byte(21)) == "length"@,
        units_app_name(units_from_byte(22)) == "fathom"@ && units_app_group(units_from_byte(22)) == "length"@,
        units_app_name(units_from_byte(23)) == "foot"@ && units_app_group(units_from_byte(23)) == "length"@,
        units_app_name(units_from_byte(24)) == "furlong"@ && units_app_group(units_from_byte(24)) == "length"@,
        units_app_name(units_from_byte(25)) == "inch"@ && units_app_group(units_from_byte(25)) == "length"@,
        units_app_name(units_from_byte(26)) == "kilometre"@ && units_app_group(units_from_byte(26)) == "length"@,
        units_app_name(units_from_byte(27)) == "league"@ && units_app_group(units_from_byte(27)) == "length"@,
        units_app_name(units_from_byte(28)) == "league"@ && units_app_group(units_from_byte(28)) == "length"@,
        units_app_name(units_from_byte(29)) == "light year"@ && units_app_group(units_from_byte(29)) == "length"@,
        units_app_name(units_from_byte(30)) == "line"@ && units_app_group(units_from_byte(30)) == "length"@,
        units_app_name(units_from_byte(31)) == "micron"@ && units_app_group(units_from_byte(31)) == "length"@,
        units_app_name(units_from_byte(32)) == "nautical mile"@ && units_app_group(units_from_byte(32)) == "length"@,
        units_app_name(units_from_byte(33)) == "mile"@ && units_app_group(units_from_byte(33)) == "length"@,
        units_app_name(units_from_byte(34)) == "millimetre"@ && units_app_group(units_from_byte(34)) == "length"@,
        units_app_name(units_from_byte(35)) == "mil"@ && units_app_group(units_from_byte(35)) == "length"@,
        units_app_name(units_from_byte(36)) == "nanometre"@ && units_app_group(units_from_byte(36)) == "length"@,
        units_app_name(units_from_byte(37)) == "parsec"@ && units_app_group(units_from_byte(37)) == "length"@,
        units_app_name(units_from_byte(38)) == "yard"@ && units_app_group(units_from_byte(38)) == "length"@,
        units_app_name(units_from_byte(45)) == "kilogram"@ && units_app_group(units_from_byte(45)) == "mass"@,
        units_app_name(units_from_byte(46)) == "dram"@ && units_app_group(units_from_byte(46)) == "mass"@,
        units_app_name(units_from_byte(47)) == "grain"@ && units_app_group(units_from_byte(47)) == "mass"@,
        units_app_name(units_from_byte(48)) == "gram"@ && units_app_group(units_from_byte(48)) == "mass"@,
        units_app_name(units_from_byte(49)) == "milligram"@ && units_app_group(units_from_byte(49)) == "mass"@,
        units_app_name(units_from_byte(50)) == "ounce"@ && units_app_group(units_from_byte(50)) == "mass"@,
        units_app_name(units_from_byte(51)) == "pennyweight"@ && units_app_group(units_from_byte(51)) == "mass"@,
        units_app_name(units_from_byte(52)) == "pound"@ && units_app_group(units_from_byte(52)) == "mass"@,
        units_app_name(units_from_byte(53)) == "kilopound"@ && units_app_group(units_from_byte(53)) == "mass"@,
        units_app_name(units_from_byte(54)) == "scruple"@ && units_app_group(units_from_byte(54)) == "mass"@,
        units_app_name(units_from_byte(55)) == "slug"@ && units_app_group(units_from_byte(55)) == "mass"@,
        units_app_name(units_from_byte(56)) == "ton long"@ && units_app_group(units_from_byte(56)) == "mass"@,
        units_app_name(units_from_byte(57)) == "ton metric"@ && units_app_group(units_from_byte(57)) == "mass"@,
        units_app_name(units_from_byte(58)) == "tonne"@ && units_app_group(units_from_byte(58)) == "mass"@,
        units_app_name(units_from_byte(59)) == "ton short"@ && units_app_group(units_from_byte(59)) == "mass"@,
        units_app_name(units_from_byte(65)) == "newton"@ && units_app_group(units_from_byte(65)) == "force"@,
        units_app_name(units_from_byte(66)) == "kilonewton"@ && units_app_group(units_from_byte(66)) == "force"@,
        units_app_name(units_from_byte(67)) == "millinewton"@ && units_app_group(units_from_byte(67)) == "force"@,
        units_app_name(units_from_byte(68)) == "meganewton"@ && units_app_group(units_from_byte(68)) == "force"@,
        units_app_name(units_from_byte(69)) == "crinal"@ && units_app_group(units_from_byte(69)) == "force"@,
        units_app_name(units_from_byte(70)) == "dyne"@ && units_app_group(units_from_byte(70)) == "force"@,
        units_app_name(units_from_byte(71)) == "gram-force"@ && units_app_group(units_from_byte(71)) == "force"@,
        units_app_name(units_from_byte(72)) == "joule per centimetre"@ && units_app_group(units_from_byte(72)) == "force"@,
        units_app_name(units_from_byte(73)) == "kilogram-force"@ && units_app_group(units_from_byte(73)) == "force"@,
        units_app_name(units_from_byte(74)) == "kilopond"@ && units_app_group(units_from_byte(74)) == "force"@,
        units_app_name(units_from_byte(75)) == "kilogram metre per second squared"@ && units_app_group(units_from_byte(75)) == "force"@,
        units_app_name(units_from_byte(76)) == "ounce-force"@ && units_app_group(units_from_byte(76)) == "force"@,
        units_app_name(units_from_byte(77)) == "pound-force"@ && units_app_group(units_from_byte(77)) == "force"@,
        units_app_name(units_from_byte(78)) == "poundal"@ && units_app_group(units_from_byte(78)) == "force"@,
        units_app_name(units_from_byte(79)) == "ton-force long"@ && units_app_group(units_from_byte(79)) == "force"@,
        units_app_name(units_from_byte(80)) == "ton-force short"@ && units_app_group(units_from_byte(80)) == "force"@,
        units_app_name(units_from_byte(81)) == "ton-force metric"@ && units_app_group(units_from_byte(81)) == "force"@,
        units_app_name(units_from_byte(95)) == "bar"@ && units_app_group(units_from_byte(95)) == "pressure"@,
        units_app_name(units_from_byte(96)) == "atmosphere technical"@ && units_app_group(units_from_byte(96)) == "pressure"@,
        units_app_name(units_from_byte(97)) == "atmosphere"@ && units_app_group(units_from_byte(97)) == "pressure"@,
        units_app_name(units_from_byte(98)) == "dyne per square centimetre"@ && units_app_group(units_from_byte(98)) == "pressure"@,
        units_app_name(units_from_byte(99)) == "foot of water"@ && units_app_group(units_from_byte(99)) == "pressure"@,
        units_app_name(units_from_byte(100)) == "inch of water"@ && units_app_group(units_from_byte(100)) == "pressure"@,
        units_app_name(units_from_byte(101)) == "gigapascal"@ && units_app_group(units_from_byte(101)) == "pressure"@,
        units_app_name(units_from_byte(102)) == "hectopascal"@ && units_app_group(units_from_byte(102)) == "pressure"@,
        units_app_name(units_from_byte(103)) == "kilogram-force per square centimetre"@ && units_app_group(units_from_byte(103)) == "pressure"@,
        units_app_name(units_from_byte(104)) == "kilogram-force per square metre"@ && units_app_group(units_from_byte(104)) == "pressure"@,
        units_app_name(units_from_byte(105)) == "microbar"@ && units_app_group(units_from_byte(105)) == "pressure"@,
        units_app_name(units_from_byte(106)) == "pascal"@ && units_app_group(units_from_byte(106)) == "pressure"@,
        units_app_name(units_from_byte(107)) == "newton per square metre"@ && units_app_group(units_from_byte(107)) == "pressure"@,
        units_app_name(units_from_byte(108)) == "ounce per square inch"@ && units_app_group(units_from_byte(108)) == "pressure"@,
        units_app_name(units_from_byte(109)) == "pound per square foot"@ && units_app_group(units_from_byte(109)) == "pressure"@,
        units_app_name(units_from_byte(110)) == "pound per square inch"@ && units_app_group(units_from_byte(110)) == "pressure"@,
        units_app_name(units_from_byte(111)) == "tonne per square centimetre"@ && units_app_group(units_from_byte(111)) == "pressure"@,
        units_app_name(units_from_byte(120)) == "metre per second"@ && units_app_group(units_from_byte(120)) == "speed"@,
        units_app_name(units_from_byte(121)) == "centimetre per second"@ && units_app_group(units_from_byte(121)) == "speed"@,
        units_app_name(units_from_byte(122)) == "foot per minute"@ && units_app_group(units_from_byte(122)) == "speed"@,
        units_app_name(units_from_byte(123)) == "foot per second"@ && units_app_group(units_from_byte(123)) == "speed"@,
        units_app_name(units_from_byte(124)) == "kilometre per hour"@ && units_app_group(units_from_byte(124)) == "speed"@,
        units_app_name(units_from_byte(125)) == "kilometre per minute"@ && units_app_group(units_from_byte(125)) == "speed"@,
        units_app_name(units_from_byte(126)) == "kilometre per second"@ && units_app_group(units_from_byte(126)) == "speed"@,
        units_app_name(units_from_byte(127)) == "knot"@ && units_app_group(units_from_byte(127)) == "speed"@,
        units_app_name(units_from_byte(128)) == "metre per hour"@ && units_app_group(units_from_byte(128)) == "speed"@,
        units_app_name(units_from_byte(129)) == "metre per minute"@ && units_app_group(units_from_byte(129)) == "speed"@,
        units_app_name(units_from_byte(130)) == "mile per hour"@ && units_app_group(units_from_byte(130)) == "speed"@,
        units_app_name(units_from_byte(131)) == "mile per minute"@ && units_app_group(units_from_byte(131)) == "speed"@,
        units_app_name(units_from_byte(132)) == "mile per second"@ && units_app_group(units_from_byte(132)) == "speed"@,
        units_app_name(units_from_byte(133)) == "nautical mile per hour"@ && units_app_group(units_from_byte(133)) == "speed"@,
        units_app_name(units_from_byte(134)) == "nautical mile per minute"@ && units_app_group(units_from_byte(134)) == "speed"@,
        units_app_name(units_from_byte(135)) == "nautical mile per second"@ && units_app_group(units_from_byte(135)) == "speed"@,
        units_app_name(units_from_byte(150)) == "newton meter"@ && units_app_group(units_from_byte(150)) == "torque"@,
        units_app_name(units_from_byte(151)) == "metre kilogram"@ && units_app_group(units_from_byte(151)) == "torque"@,
        units_app_name(units_from_byte(152)) == "foot pound"@ && units_app_group(units_from_byte(152)) == "torque"@,
        units_app_name(units_from_byte(153)) == "foot poundal"@ && units_app_group(units_from_byte(153)) == "torque"@,
        units_app_name(units_from_byte(154)) == "inch pound"@ && units_app_group(units_from_byte(154)) == "torque"@,
        units_app_name(units_from_byte(200)) == "counts"@ && units_app_group(units_from_byte(200)) == "arbitrary"@,
        units_app_name(units_from_byte(255)) == "undefined"@ && units_app_group(units_from_byte(255)) == "undefined"@,
        units_label(DataUnits::Other(b)) == "?"@,
        units_app_name(DataUnits::Other(b)) == "unknown"@,
        units_app_group(DataUnits::Other(b)) == "undefined"@,
{
}

/// The dropdown label of a unit: its symbol and decimal code, or
/// "Unknown (code)" for a code outside the table.
pub open spec fn units_dropdown_label(u: DataUnits) -> Seq<char> {
    match u {
        DataUnits::Other(b) => "Unknown ("@ + decimal(b as nat) + ")"@,
        _ => units_label(u) + " ("@ + decimal(units_byte(u) as nat) + ")"@,
    }
}

/// Data type for advanced parameters.
#[derive(Debug, Clone, Copy, PartialEq, Eq, Structural)]
pub enum ParamType {
    Float,
    Uint32,
    Uint8,
}

/// Advanced parameters, read and written by index through the advanced
/// index and data registers.
#[derive(Debug, Clone, Copy, PartialEq, Eq, Structural)]
pub enum AdvancedParam {
    PeakValue,
    TroughValue,
    DisplayMin,
    DisplayMax,
    FilterLevel,
    FilterSteps,
    LinDirection,
    DigitalOutputFunction,
    FastMode,
    FastDataRate,
    FastDuration,
    FastLevel,
}

/// The advanced index of a parameter.
pub open spec fn param_index(p: AdvancedParam) -> u8 {
    match p {
        AdvancedParam::PeakValue => 5,
        AdvancedParam::TroughValue => 6,
        AdvancedParam::DisplayMin => 26,
        AdvancedParam::DisplayMax => 27,
        AdvancedParam::FilterLevel => 28,
        AdvancedParam::FilterSteps => 29,
        AdvancedParam::LinDirection => 35,
        AdvancedParam::DigitalOutputFunction => 39,
        AdvancedParam::FastMode => 40,
        AdvancedParam::FastDataRate => 41,
        AdvancedParam::FastDuration => 42,
        AdvancedParam::FastLevel => 43,
    }
}

/// The display label of a parameter.
pub open spec fn param_label(p: AdvancedParam) -> Seq<char> {
    match p {
        AdvancedParam::PeakValue => "Peak Value"@,
        AdvancedParam::TroughValue => "Trough Value"@,
        AdvancedParam::DisplayMin => "Display Min"@,
        AdvancedParam::DisplayMax => "Display Max"@,
        AdvancedParam::FilterLevel => "Filter Level"@,
        AdvancedParam::FilterSteps => "Filter Steps"@,
        AdvancedParam::LinDirection => "Lin Direction"@,
        AdvancedParam::DigitalOutputFunction => "Digital Output Func"@,
        AdvancedParam::FastMode => "Fast Mode"@,
        AdvancedParam::FastDataRate => "Fast Data Rate"@,
        AdvancedParam::FastDuration => "Fast Duration"@,
        AdvancedParam::FastLevel => "Fast Level"@,
    }
}

/// The data type of a parameter.
pub open spec fn param_type(p: AdvancedParam) -> ParamType {
    match p {
        AdvancedParam::PeakValue | AdvancedParam::TroughValue | AdvancedParam::DisplayMin
        | AdvancedParam::DisplayMax | AdvancedParam::FilterLevel
        | AdvancedParam::FastLevel => ParamType::Float,
        AdvancedParam::FilterSteps | AdvancedParam::DigitalOutputFunction
        | AdvancedParam::FastDataRate | AdvancedParam::FastDuration => ParamType::Uint32,
        AdvancedParam::LinDirection | AdvancedParam::FastMode => ParamType::Uint8,
    }
}

/// The help text of a parameter.
pub open spec fn param_description(p: AdvancedParam) -> Seq<char> {
    match p {
        AdvancedParam::PeakValue => "Highest recorded value since last reset. Read-only."@,
        AdvancedParam::TroughValue => "Lowest recorded value since last reset. Read-only."@,
        AdvancedParam::DisplayMin => "Lower limit of the display range in engineering units. Used for bar graph scaling."@,
        AdvancedParam::DisplayMax => "Upper limit of the display range in engineering units. Used for bar graph scaling."@,
        AdvancedParam::FilterLevel => "Digital filter cutoff in engineering units. Set to 0 to disable. Filters out readings that change faster than this value per sample."@,
        AdvancedParam::FilterSteps => "Number of filter averaging steps (1-255). Higher = smoother but slower response. Set to 1 for no filtering."@,
        AdvancedParam::LinDirection => "Linearisation direction. 0 = ascending (normal), 1 = descending. Must match the direction of your calibration points."@,
        AdvancedParam::DigitalOutputFunction => "Digital output mode. 0 = disabled, 1 = over Display Max, 2 = under Display Min, 3 = outside range, 4 = within range."@,
        AdvancedParam::FastMode => "Fast transmission mode. 0 = disabled, 1 = timed burst, 2 = level triggered, 3 = continuous fast."@,
        AdvancedParam::FastDataRate => "Data rate in ms during fast mode (e.g. 100 = 10 readings/sec). Minimum 50ms."@,
        AdvancedParam::FastDuration => "Duration of fast mode burst in ms (e.g. 5000 = 5 seconds). Only used with timed burst mode."@,
        AdvancedParam::FastLevel => "Threshold in engineering units that triggers fast mode when exceeded. Only used with level-triggered mode."@,
    }
}

/// Every advanced parameter, in the order the registers view lists them.
pub open spec fn all_advanced_params() -> Seq<AdvancedParam> {
    seq![
        AdvancedParam::PeakValue,
        AdvancedParam::TroughValue,
        AdvancedParam::DisplayMin,
        AdvancedParam::DisplayMax,
        AdvancedParam::FilterLevel,
        AdvancedParam::FilterSteps,
        AdvancedParam::LinDirection,
        AdvancedParam::DigitalOutputFunction,
        AdvancedParam::FastMode,
        AdvancedParam::FastDataRate,
        AdvancedParam::FastDuration,
        AdvancedParam::FastLevel,
    ]
}

impl AdvancedParam {
    /// Every advanced parameter, in the order the registers view lists them.
    pub const ALL: [AdvancedParam; 12] = [
        AdvancedParam::PeakValue,
        AdvancedParam::TroughValue,
        AdvancedParam::DisplayMin,
        AdvancedParam::DisplayMax,
        AdvancedParam::FilterLevel,
        AdvancedParam::FilterSteps,
        AdvancedParam::LinDirection,
        AdvancedParam::DigitalOutputFunction,
        AdvancedParam::FastMode,
        AdvancedParam::FastDataRate,
        AdvancedParam::FastDuration,
        AdvancedParam::FastLevel,
    ];

    /// Every advanced parameter, in the order the registers view lists them.
    pub fn all() -> (r: Vec<AdvancedParam>)
        ensures
            r@ == all_advanced_params(),
    {
        let mut r: Vec<AdvancedParam> = Vec::new();
        r.push(Self::PeakValue);
        r.push(Self::TroughValue);
        r.push(Self::DisplayMin);
        r.push(Self::DisplayMax);
        r.push(Self::FilterLevel);
        r.push(Self::FilterSteps);
        r.push(Self::LinDirection);
        r.push(Self::DigitalOutputFunction);
        r.push(Self::FastMode);
        r.push(Self::FastDataRate);
        r.push(Self::FastDuration);
        r.push(Self::FastLevel);
        assert(r@ =~= all_advanced_params());
        r
    }

    pub fn index(self) -> (i: u8)
        ensures
            i == param_index(self),
    {
        match self {
            Self::PeakValue => 5,
            Self::TroughValue => 6,
            Self::DisplayMin => 26,
            Self::DisplayMax => 27,
            Self::FilterLevel => 28,
            Self::FilterSteps => 29,
            Self::LinDirection => 35,
            Self::DigitalOutputFunction => 39,
            Self::FastMode => 40,
            Self::FastDataRate => 41,
            Self::FastDuration => 42,
            Self::FastLevel => 43,
        }
    }

    pub fn label(self) -> (s: &'static str)
        ensures
            s@ == param_label(self),
    {
        match self {
            Self::PeakValue => "Peak Value",
            Self::TroughValue => "Trough Value",
            Self::DisplayMin => "Display Min",
            Self::DisplayMax => "Display Max",
            Self::FilterLevel => "Filter Level",
            Self::FilterSteps => "Filter Steps",
            Self::LinDirection => "Lin Direction",
            Self::DigitalOutputFunction => "Digital Output Func",
            Self::FastMode => "Fast Mode",
            Self::FastDataRate => "Fast Data Rate",
            Self::FastDuration => "Fast Duration",
            Self::FastLevel => "Fast Level",
        }
    }

    pub fn data_type(self) -> (t: ParamType)
        ensures
            t == param_type(self),
    {
        match self {
            Self::PeakValue | Self::TroughValue | Self::DisplayMin | Self::DisplayMax
            | Self::FilterLevel | Self::FastLevel => ParamType::Float,
            Self::FilterSteps | Self::DigitalOutputFunction | Self::FastDataRate
            | Self::FastDuration => ParamType::Uint32,
            Self::LinDirection | Self::FastMode => ParamType::Uint8,
        }
    }

    pub fn description(self) -> (s: &'static str)
        ensures
            s@ == param_description(self),
    {
        match self {
            Self::PeakValue => "Highest recorded value since last reset. Read-only.",
            Self::TroughValue => "Lowest recorded value since last reset. Read-only.",
            Self::DisplayMin => "Lower limit of the display range in engineering units. Used for bar graph scaling.",
            Self::DisplayMax => "Upper limit of the display range in engineering units. Used for bar graph scaling.",
            Self::FilterLevel => "Digital filter cutoff in engineering units. Set to 0 to disable. Filters out readings that change faster than this value per sample.",
            Self::FilterSteps => "Number of filter averaging steps (1-255). Higher = smoother but slower response. Set to 1 for no filtering.",
            Self::LinDirection => "Linearisation direction. 0 = ascending (normal), 1 = descending. Must match the direction of your calibration points.",
            Self::DigitalOutputFunction => "Digital output mode. 0 = disabled, 1 = over Display Max, 2 = under Display Min, 3 = outside range, 4 = within range.",
            Self::FastMode => "Fast transmission mode. 0 = disabled, 1 = timed burst, 2 = level triggered, 3 = continuous fast.",
            Self::FastDataRate => "Data rate in ms during fast mode (e.g. 100 = 10 readings/sec). Minimum 50ms.",
            Self::FastDuration => "Duration of fast mode burst in ms (e.g. 5000 = 5 seconds). Only used with timed burst mode.",
            Self::FastLevel => "Threshold in engineering units that triggers fast mode when exceeded. Only used with level-triggered mode.",
        }
    }
}

/// Device actions, triggered by writes to the advanced index and data
/// registers.
#[derive(Debug, Clone, Copy, PartialEq, Eq, Structural)]
pub enum DeviceAction {
    CalculateCoefficients,
    Reboot,
    ShuntCalOn,
    ShuntCalOff,
    Tare,
    ResetTare,
    ResetPeakTrough,
    RestoreEepromDefaults,
}

/// The advanced index that triggers an action.
pub open spec fn action_index(a: DeviceAction) -> u8 {
    match a {
        DeviceAction::CalculateCoefficients => 38,
        DeviceAction::Reboot => 189,
        DeviceAction::ShuntCalOn => 192,
        DeviceAction::ShuntCalOff => 193,
        DeviceAction::Tare => 194,
        DeviceAction::ResetTare => 195,
        DeviceAction::ResetPeakTrough => 196,
        DeviceAction::RestoreEepromDefaults => 197,
    }
}

/// The display label of an action.
pub open spec fn action_label(a: DeviceAction) -> Seq<char> {
    match a {
        DeviceAction::CalculateCoefficients => "Calculate Coefficients"@,
        DeviceAction::Reboot => "Reboot Device"@,
        DeviceAction::ShuntCalOn => "Shunt Calibration On"@,
        DeviceAction::ShuntCalOff => "Shunt Calibration Off"@,
        DeviceAction::Tare => "Tare"@,
        DeviceAction::ResetTare => "Reset Tare"@,
        DeviceAction::ResetPeakTrough => "Reset Peak & Trough"@,
        DeviceAction::RestoreEepromDefaults => "Restore EEPROM Defaults"@,
    }
}

impl DeviceAction {
    pub fn label(self) -> (s: &'static str)
        ensures
            s@ == action_label(self),
    {
        match self {
            Self::CalculateCoefficients => "Calculate Coefficients",
            Self::Reboot => "Reboot Device",
            Self::ShuntCalOn => "Shunt Calibration On",
            Self::ShuntCalOff => "Shunt Calibration Off",
            Self::Tare => "Tare",
            Self::ResetTare => "Reset Tare",
            Self::ResetPeakTrough => "Reset Peak & Trough",
            Self::RestoreEepromDefaults => "Restore EEPROM Defaults",
        }
    }

    /// The advanced index to write and the data to write there; actions are
    /// write-only and the data is a single zero byte.
    pub fn command(self) -> (r: (u8, Vec<u8>))
        ensures
            r.0 == action_index(self),
            r.1@ == seq![0u8],
    {
        let index: u8 = match self {
            Self::CalculateCoefficients => 38,
            Self::Reboot => 189,
            Self::ShuntCalOn => 192,
            Self::ShuntCalOff => 193,
            Self::Tare => 194,
            Self::ResetTare => 195,
            Self::ResetPeakTrough => 196,
            Self::RestoreEepromDefaults => 197,
        };
        let mut data: Vec<u8> = Vec::new();
        data.push(0u8);
        (index, data)
    }
}

/// The advanced indices are the B24's: peak 5 and trough 6 (floats),
/// display min/max 26/27 and filter level 28 (floats), filter steps 29
/// (u32), linearisation direction 35 (u8), digital output function 39
/// (u32), fast mode 40 (u8), fast data rate 41 and duration 42 (u32), fast
/// level 43 (float); the actions write index 38 (calculate coefficients),
/// 189 (reboot), 192/193 (shunt cal on/off), 194 (tare), 195 (reset tare),
/// 196 (reset peak and trough) and 197 (restore EEPROM defaults).
pub proof fn lemma_advanced_indices()
    ensures
        param_index(AdvancedParam::PeakValue) == 5 && param_type(AdvancedParam::PeakValue) == ParamType::Float,
        param_index(AdvancedParam::TroughValue) == 6 && param_type(AdvancedParam::TroughValue) == ParamType::Float,
        param_index(AdvancedParam::DisplayMin) == 26 && param_type(AdvancedParam::DisplayMin) == ParamType::Float,
        param_index(AdvancedParam::DisplayMax) == 27 && param_type(AdvancedParam::DisplayMax) == ParamType::Float,
        param_index(AdvancedParam::FilterLevel) == 28 && param_type(AdvancedParam::FilterLevel) == ParamType::Float,
        param_index(AdvancedParam::FilterSteps) == 29 && param_type(AdvancedParam::FilterSteps) == ParamType::Uint32,
        param_index(AdvancedParam::LinDirection) == 35 && param_type(AdvancedParam::LinDirection) == ParamType::Uint8,
        param_index(AdvancedParam::DigitalOutputFunction) == 39
            && param_type(AdvancedParam::DigitalOutputFunction) == ParamType::Uint32,
        param_index(AdvancedParam::FastMode) == 40 && param_type(AdvancedParam::FastMode) == ParamType::Uint8,
        param_index(AdvancedParam::FastDataRate) == 41 && param_type(AdvancedParam::FastDataRate) == ParamType::Uint32,
        param_index(AdvancedParam::FastDuration) == 42 && param_type(AdvancedParam::FastDuration) == ParamType::Uint32,
        param_index(AdvancedParam::FastLevel) == 43 && param_type(AdvancedParam::FastLevel) == ParamType::Float,
        action_index(DeviceAction::CalculateCoefficients) == 38,
        action_index(DeviceAction::Reboot) == 189,
        action_index(DeviceAction::ShuntCalOn) == 192,
        action_index(DeviceAction::ShuntCalOff) == 193,
        action_index(DeviceAction::Tare) == 194,
        action_index(DeviceAction::ResetTare) == 195,
        action_index(DeviceAction::ResetPeakTrough) == 196,
        action_index(DeviceAction::RestoreEepromDefaults) == 197,
{
}

} // verus!
