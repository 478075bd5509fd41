//! From a raw code to physical units: the height of the water, how full the
//! cistern is, and the volume it holds. All three are exact fractions of
//! whole numbers: no step of the conversion rounds.

use vstd::prelude::*;

verus! {

/// The largest code that the converter gives: fifteen bits below the sign.
/// It stands for the voltage at full scale.
pub const CODE_MAX: u64 = 32767;

/// A code times the millivolts at full scale is a voltage in parts of a
/// millivolt, of which `CODE_MAX` make one. A millivolt stands for a
/// millimetre of water, so ten times `CODE_MAX` parts make a centimetre.
pub const PARTS_PER_CM: u64 = 327670;

/// A voltage range that the converter can be set to measure within.
#[allow(non_camel_case_types)]
#[derive(Clone, Copy, Debug, PartialEq, Eq, Structural)]
pub enum FullScaleRange {
    Within6_144V,
    Within4_096V,
    Within2_048V,
    Within1_024V,
    Within0_512V,
    Within0_256V,
}

/// Why a calibration was turned down.
#[derive(Clone, Copy, Debug, PartialEq, Eq, Structural)]
pub enum CalibrationError {
    /// The converter has no range of that many millivolts.
    UnsupportedVoltageRange,
    /// No fill fraction can be taken of a height of zero.
    NoMeasurableHeight,
}

/// The range of so many millivolts, if the converter has one.
pub open spec fn range_of_millivolts(millivolts: u16) -> Option<FullScaleRange> {
    if millivolts == 6144 {
        Some(FullScaleRange::Within6_144V)
    } else if millivolts == 4096 {
        Some(FullScaleRange::Within4_096V)
    } else if millivolts == 2048 {
        Some(FullScaleRange::Within2_048V)
    } else if millivolts == 1024 {
        Some(FullScaleRange::Within1_024V)
    } else if millivolts == 512 {
        Some(FullScaleRange::Within0_512V)
    } else if millivolts == 256 {
        Some(FullScaleRange::Within0_256V)
    } else {
        None
    }
}

impl FullScaleRange {
    /// The voltage at full scale, in millivolts.
    pub open spec fn spec_millivolts(self) -> u16 {
        match self {
            FullScaleRange::Within6_144V => 6144,
            FullScaleRange::Within4_096V => 4096,
            FullScaleRange::Within2_048V => 2048,
            FullScaleRange::Within1_024V => 1024,
            FullScaleRange::Within0_512V => 512,
            FullScaleRange::Within0_256V => 256,
        }
    }

    #[verifier::when_used_as_spec(spec_millivolts)]
    pub fn millivolts(self) -> (millivolts: u16)
        ensures
            millivolts == self.spec_millivolts(),
            range_of_millivolts(millivolts) == Some(self),
    {
        match self {
            FullScaleRange::Within6_144V => 6144,
            FullScaleRange::Within4_096V => 4096,
            FullScaleRange::Within2_048V => 2048,
            FullScaleRange::Within1_024V => 1024,
            FullScaleRange::Within0_512V => 512,
            FullScaleRange::Within0_256V => 256,
        }
    }

    /// The range of so many millivolts. Any other number than the six that
    /// the converter knows is turned down.
    pub fn from_millivolts(millivolts: u16) -> (range: Result<FullScaleRange, CalibrationError>)
        ensures
            range == match range_of_millivolts(millivolts) {
                Some(r) => Ok::<FullScaleRange, CalibrationError>(r),
                None => Err(CalibrationError::UnsupportedVoltageRange),
            },
    {
        if millivolts == 6144 {
            Ok(FullScaleRange::Within6_144V)
        } else if millivolts == 4096 {
            Ok(FullScaleRange::Within4_096V)
        } else if millivolts == 2048 {
            Ok(FullScaleRange::Within2_048V)
        } else if millivolts == 1024 {
            Ok(FullScaleRange::Within1_024V)
        } else if millivolts == 512 {
            Ok(FullScaleRange::Within0_512V)
        } else if millivolts == 256 {
            Ok(FullScaleRange::Within0_256V)
        } else {
            Err(CalibrationError::UnsupportedVoltageRange)
        }
    }
}

/// What a conversion needs to know of the converter and of the cistern. The
/// values are set once, when the calibration is made.
#[derive(Clone, Copy, Debug, PartialEq, Eq)]
pub struct CalibrationConstants {
    full_scale: FullScaleRange,
    max_height_cm: u16,
    max_volume_l: u16,
}

/// A calibration as plain numbers.
pub struct Calibration {
    pub full_scale: FullScaleRange,
    pub max_height_cm: u16,
    pub max_volume_l: u16,
}

impl View for CalibrationConstants {
    type V = Calibration;

    closed spec fn view(&self) -> Calibration {
        Calibration {
            full_scale: self.full_scale,
            max_height_cm: self.max_height_cm,
            max_volume_l: self.max_volume_l,
        }
    }
}

impl CalibrationConstants {
    #[verifier::type_invariant]
    spec fn inv(self) -> bool {
        self.max_height_cm > 0
    }

    /// A calibration for a converter set to `full_scale_millivolts` at full
    /// scale and a cistern that is full at `max_height_cm`, with
    /// `max_volume_l` in it.
    pub fn new(full_scale_millivolts: u16, max_height_cm: u16, max_volume_l: u16) -> (calib: Result<
        CalibrationConstants,
        CalibrationError,
    >)
        ensures
            match calib {
                Ok(c) => {
                    &&& range_of_millivolts(full_scale_millivolts) == Some(c@.full_scale)
                    &&& max_height_cm > 0
                    &&& c@.max_height_cm == max_height_cm
                    &&& c@.max_volume_l == max_volume_l
                },
                Err(CalibrationError::UnsupportedVoltageRange) => range_of_millivolts(
                    full_scale_millivolts,
                ) is None,
                Err(CalibrationError::NoMeasurableHeight) => {
                    &&& range_of_millivolts(full_scale_millivolts) is Some
                    &&& max_height_cm == 0
                },
            },
    {
        match FullScaleRange::from_millivolts(full_scale_millivolts) {
            Err(e) => Err(e),
            Ok(full_scale) => {
                if max_height_cm == 0 {
                    Err(CalibrationError::NoMeasurableHeight)
                } else {
                    Ok(CalibrationConstants { full_scale, max_height_cm, max_volume_l })
                }
            },
        }
    }

    pub fn full_scale(&self) -> (full_scale: FullScaleRange)
        ensures
            full_scale == self@.full_scale,
    {
        self.full_scale
    }

    /// The height of the water in a full cistern, in centimetres.
    pub fn max_height_cm(&self) -> (height: u16)
        ensures
            height == self@.max_height_cm,
            height > 0,
    {
        proof {
            use_type_invariant(self);
        }
        self.max_height_cm
    }

    /// The volume of a full cistern, in litres.
    pub fn max_volume_l(&self) -> (volume: u16)
        ensures
            volume == self@.max_volume_l,
    {
        self.max_volume_l
    }
}

impl Default for CalibrationConstants {
    /// 6.144 V at full scale; full at 135 cm, with 1600 l.
    fn default() -> (calib: CalibrationConstants)
        ensures
            calib@.full_scale == FullScaleRange::Within6_144V,
            calib@.max_height_cm == 135,
            calib@.max_volume_l == 1600,
    {
        CalibrationConstants {
            full_scale: FullScaleRange::Within6_144V,
            max_height_cm: 135,
            max_volume_l: 1600,
        }
    }
}

/// A fraction of two whole numbers: `num` over `den`.
#[derive(Clone, Copy, Debug, PartialEq, Eq, Structural)]
pub struct Ratio {
    pub num: u64,
    pub den: u64,
}

/// A height, a fill fraction and a volume that one conversion gave.
#[derive(Clone, Copy, Debug, PartialEq, Eq, Structural)]
pub struct PhysicalReading {
    height_cm: Ratio,
    fill_fraction: Ratio,
    volume_l: Ratio,
}

/// A reading as plain numbers.
#[derive(Clone, Copy, Debug, PartialEq, Eq, Structural)]
pub struct Level {
    /// The height of the water, in centimetres.
    pub height_cm: Ratio,
    /// How full the cistern is, from 0 to 1.
    pub fill_fraction: Ratio,
    /// The volume of the water, in litres.
    pub volume_l: Ratio,
}

/// The height of the water for a code, in parts of which `PARTS_PER_CM` make
/// a centimetre: the code times the millivolts at full scale. A negative code
/// is noise about an empty cistern, and counts as zero.
pub open spec fn height_parts(code: i16, full_scale: FullScaleRange) -> int {
    if code < 0 {
        0
    } else {
        code * full_scale.spec_millivolts()
    }
}

/// The height of the water in a full cistern, in the same parts.
pub open spec fn brim_parts(max_height_cm: u16) -> int {
    max_height_cm * PARTS_PER_CM
}

/// What a code converts to under a calibration. The height in centimetres is
/// the code's share of the full scale in millivolts, over ten. The fill
/// fraction is the height over the maximal height, and 1 where the height is
/// above it; the volume is that fraction of the maximal volume.
pub open spec fn convert_spec(code: i16, calib: Calibration) -> Level {
    let height = height_parts(code, calib.full_scale);
    let brim = brim_parts(calib.max_height_cm);
    let filled = if height > brim {
        brim
    } else {
        height
    };
    Level {
        height_cm: Ratio { num: height as u64, den: PARTS_PER_CM },
        fill_fraction: Ratio { num: filled as u64, den: brim as u64 },
        volume_l: Ratio { num: (calib.max_volume_l * filled) as u64, den: brim as u64 },
    }
}

/// A code is never worth more than the full scale, and a code of zero or
/// less is worth no height at all.
pub proof fn lemma_height_is_bounded(code: i16, full_scale: FullScaleRange)
    ensures
        0 <= height_parts(code, full_scale) <= CODE_MAX * full_scale.spec_millivolts(),
        height_parts(code, full_scale) <= CODE_MAX * 6144,
        code <= 0 <==> height_parts(code, full_scale) == 0,
{
    let millivolts = full_scale.spec_millivolts() as int;
    if code > 0 {
        assert(0 < code * millivolts <= 32767 * millivolts) by (nonlinear_arith)
            requires
                0 < code <= 32767,
                0 < millivolts,
        ;
    }
}

/// No number of a conversion is cut short by the width of a `Ratio`: the
/// height is the code times the millivolts at full scale over `PARTS_PER_CM`,
/// the fill fraction is the lesser of that height and the maximal height over
/// the maximal height, and the volume is the maximal volume times the fill
/// fraction. So every code converts to a fill fraction from 0 to 1, however
/// far the height is above the maximal height; and a negative code converts
/// to what zero converts to, an empty cistern.
pub proof fn lemma_conversion_is_sound(code: i16, calib: Calibration)
    requires
        calib.max_height_cm > 0,
    ensures
        convert_spec(code, calib).height_cm.num == height_parts(code, calib.full_scale),
        convert_spec(code, calib).height_cm.den == 10 * CODE_MAX,
        convert_spec(code, calib).fill_fraction.den == calib.max_height_cm * (10 * CODE_MAX),
        convert_spec(code, calib).fill_fraction.den > 0,
        convert_spec(code, calib).fill_fraction.num == if height_parts(code, calib.full_scale)
            > brim_parts(calib.max_height_cm) {
            brim_parts(calib.max_height_cm)
        } else {
            height_parts(code, calib.full_scale)
        },
        0 <= convert_spec(code, calib).fill_fraction.num <= convert_spec(
            code,
            calib,
        ).fill_fraction.den,
        convert_spec(code, calib).volume_l.num == calib.max_volume_l * convert_spec(
            code,
            calib,
        ).fill_fraction.num,
        convert_spec(code, calib).volume_l.den == convert_spec(code, calib).fill_fraction.den,
        code < 0 ==> convert_spec(code, calib) == convert_spec(0, calib),
        code <= 0 ==> convert_spec(code, calib).height_cm.num == 0,
        whole(convert_spec(code, calib)),
{
    lemma_height_is_bounded(code, calib.full_scale);
    let level = convert_spec(code, calib);
    let filled = level.fill_fraction.num;
    assert(0 <= calib.max_volume_l * filled <= 65535 * (32767 * 6144)) by (nonlinear_arith)
        requires
            0 <= calib.max_volume_l <= 65535,
            0 <= filled <= 32767 * 6144,
    ;
    assert(level.fill_fraction.den == brim_parts(calib.max_height_cm));
    assert(level.volume_l.num == scaled(calib.max_volume_l, filled));
}

/// The three values belong to one conversion: the height is in centimetres,
/// the fill fraction is the height over some maximal height, capped at 1, and
/// the volume is that fraction of some maximal volume.
pub open spec fn whole(level: Level) -> bool {
    &&& level.height_cm.den == PARTS_PER_CM
    &&& exists|max_height_cm: u16|
        max_height_cm > 0 && level.fill_fraction.den == #[trigger] brim_parts(max_height_cm)
    &&& level.fill_fraction.num == if level.height_cm.num > level.fill_fraction.den {
        level.fill_fraction.den
    } else {
        level.height_cm.num
    }
    &&& level.volume_l.den == level.fill_fraction.den
    &&& exists|max_volume_l: u16|
        level.volume_l.num == #[trigger] scaled(max_volume_l, level.fill_fraction.num)
}

/// `parts` times `factor`.
pub open spec fn scaled(factor: u16, parts: u64) -> int {
    factor * parts
}

impl View for PhysicalReading {
    type V = Level;

    closed spec fn view(&self) -> Level {
        Level {
            height_cm: self.height_cm,
            fill_fraction: self.fill_fraction,
            volume_l: self.volume_l,
        }
    }
}

impl PhysicalReading {
    #[verifier::type_invariant]
    spec fn inv(self) -> bool {
        whole(self@)
    }

    /// The height of the water, in centimetres.
    pub fn height_cm(&self) -> (height: Ratio)
        ensures
            height == self@.height_cm,
            height.den == PARTS_PER_CM,
    {
        proof {
            use_type_invariant(self);
        }
        self.height_cm
    }

    /// How full the cistern is: never below 0, never above 1.
    pub fn fill_fraction(&self) -> (fill: Ratio)
        ensures
            fill == self@.fill_fraction,
            0 <= fill.num <= fill.den,
            fill.den > 0,
    {
        proof {
            use_type_invariant(self);
        }
        self.fill_fraction
    }

    /// How full the cistern is, in percent: the fill fraction times 100.
    pub fn percentage(&self) -> (percent: Ratio)
        ensures
            percent.num == 100 * self@.fill_fraction.num,
            percent.den == self@.fill_fraction.den,
            0 <= percent.num <= 100 * percent.den,
            percent.den > 0,
    {
        proof {
            use_type_invariant(self);
            let max_height_cm = choose|max_height_cm: u16|
                max_height_cm > 0 && self@.fill_fraction.den == #[trigger] brim_parts(
                    max_height_cm,
                );
            assert(brim_parts(max_height_cm) <= brim_parts(u16::MAX));
        }
        Ratio { num: 100 * self.fill_fraction.num, den: self.fill_fraction.den }
    }

    /// The volume of the water, in litres.
    pub fn volume_l(&self) -> (volume: Ratio)
        ensures
            volume == self@.volume_l,
            volume.den == self@.fill_fraction.den,
    {
        proof {
            use_type_invariant(self);
        }
        self.volume_l
    }

    /// The height, the fill fraction and the volume, which always are those
    /// of one conversion.
    pub fn level(&self) -> (level: Level)
        ensures
            level == self@,
            whole(level),
    {
        proof {
            use_type_invariant(self);
        }
        Level {
            height_cm: self.height_cm,
            fill_fraction: self.fill_fraction,
            volume_l: self.volume_l,
        }
    }
}

/// Converts the median code of a window to physical units.
pub fn convert(median_code: i16, calib: &CalibrationConstants) -> (reading: PhysicalReading)
    ensures
        reading@ == convert_spec(median_code, calib@),
        median_code <= 0 ==> reading@.height_cm.num == 0,
        0 <= reading@.fill_fraction.num <= reading@.fill_fraction.den,
        reading@.fill_fraction.den > 0,
{
    proof {
        use_type_invariant(calib);
        lemma_conversion_is_sound(median_code, calib@);
    }
    let millivolts: u64 = calib.full_scale.millivolts() as u64;
    let height: u64 = if median_code < 0 {
        0
    } else {
        (median_code as u64) * millivolts
    };
    let brim: u64 = (calib.max_height_cm as u64) * PARTS_PER_CM;
    let filled: u64 = if height > brim {
        brim
    } else {
        height
    };
    let volume: u64 = (calib.max_volume_l as u64) * filled;
    PhysicalReading {
        height_cm: Ratio { num: height, den: PARTS_PER_CM },
        fill_fraction: Ratio { num: filled, den: brim },
        volume_l: Ratio { num: volume, den: brim },
    }
}

} // verus!
