//! The cistern: a window of raw codes and the calibration that turns their
//! median into a level.

use crate::convert::{
    convert, convert_spec, Calibration, CalibrationConstants, FullScaleRange, PhysicalReading,
};
use crate::median::{mean, mean_spec, median_of, Median};
use crate::thing::{describes_cistern, PropertyDescription, ThingDescription};
use crate::window::{max_capacity, most_recent, MedianWindow, DEFAULT_CAPACITY};
use vstd::prelude::*;

verus! {

/// A cistern under measurement.
pub struct Cistern {
    window: MedianWindow,
    calib: CalibrationConstants,
}

impl Cistern {
    /// The raw codes that count at present, oldest first.
    pub closed spec fn samples(&self) -> Seq<i16> {
        self.window@
    }

    /// The number of codes that count at most.
    pub closed spec fn capacity(&self) -> usize {
        self.window.spec_capacity()
    }

    /// The calibration that levels are taken under.
    pub closed spec fn calibration(&self) -> Calibration {
        self.calib@
    }

    /// A cistern with no codes yet, a window of 10000 codes, and the
    /// calibration of 6.144 V, 135 cm and 1600 l.
    pub fn new() -> (cistern: Cistern)
        ensures
            cistern.samples() == Seq::<i16>::empty(),
            cistern.capacity() == DEFAULT_CAPACITY,
            cistern.calibration().full_scale == FullScaleRange::Within6_144V,
            cistern.calibration().max_height_cm == 135,
            cistern.calibration().max_volume_l == 1600,
    {
        Cistern { window: MedianWindow::default(), calib: CalibrationConstants::default() }
    }

    /// A cistern with no codes yet, a window of `capacity` codes, and the
    /// given calibration.
    pub fn with_calibration(capacity: usize, calib: CalibrationConstants) -> (cistern: Cistern)
        requires
            0 < capacity <= max_capacity(),
        ensures
            cistern.samples() == Seq::<i16>::empty(),
            cistern.capacity() == capacity,
            cistern.calibration() == calib@,
    {
        Cistern { window: MedianWindow::new(capacity), calib }
    }

    /// The calibration that levels are taken under.
    pub fn calibration_constants(&self) -> (calib: CalibrationConstants)
        ensures
            calib@ == self.calibration(),
    {
        self.calib
    }

    /// Takes in a code that the converter gave. The code counts from now on,
    /// and the oldest code counts no longer where the window was full.
    pub fn push(&mut self, code: i16)
        ensures
            final(self).samples() == most_recent(
                old(self).samples().push(code),
                old(self).capacity() as nat,
            ),
            final(self).samples().len() > 0,
            final(self).capacity() == old(self).capacity(),
            final(self).calibration() == old(self).calibration(),
    {
        let _ = self.window.capacity();
        self.window.push(code);
    }

    /// Takes in a code that the converter gave, and answers with the median of
    /// the codes that count now.
    pub fn measure(&mut self, code: i16) -> (median: Median)
        ensures
            final(self).samples() == most_recent(
                old(self).samples().push(code),
                old(self).capacity() as nat,
            ),
            final(self).samples().len() > 0,
            final(self).capacity() == old(self).capacity(),
            final(self).calibration() == old(self).calibration(),
            median_of(final(self).samples().to_multiset()) == Some(median),
    {
        self.push(code);
        self.window.median().unwrap()
    }

    /// The level that the median code stands for, once there is a code.
    pub fn level(&self) -> (level: Option<PhysicalReading>)
        ensures
            match median_of(self.samples().to_multiset()) {
                None => level is None,
                Some(median) => level matches Some(reading) && reading@ == convert_spec(
                    median.spec_code(),
                    self.calibration(),
                ),
            },
            level is None <==> self.samples().len() == 0,
    {
        let combine = |l: &i16, r: &i16| -> (c: i16)
            ensures
                c == mean_spec(*l, *r),
            { mean(*l, *r) };
        match self.window.median_with(combine) {
            None => None,
            Some(code) => Some(convert(code, &self.calib)),
        }
    }

    /// The description of this cistern for observers: what it is, and its
    /// three properties with their units and bounds.
    pub fn to_thing(&self) -> (thing: ThingDescription)
        ensures
            describes_cistern(
                thing,
                self.calibration().max_height_cm,
                self.calibration().max_volume_l,
            ),
    {
        let mut semantic_types: Vec<&'static str> = Vec::new();
        semantic_types.push("MultiLevelSensor");

        let level = PropertyDescription::level(
            "percentage",
            "Level",
            "The current fill level in percent",
            100,
            "percent",
        );
        let height = PropertyDescription::level(
            "height",
            "Height",
            "The current fill height in centimeters",
            self.calib.max_height_cm(),
            "centimeter",
        );
        let volume = PropertyDescription::level(
            "volume",
            "Volume",
            "The current fill volume in liters",
            self.calib.max_volume_l(),
            "liter",
        );

        let mut properties: Vec<PropertyDescription> = Vec::new();
        properties.push(level);
        properties.push(height);
        properties.push(volume);

        ThingDescription {
            id: "urn:dev:ops:cistern-level-sensor-1234",
            title: "Cistern Level Sensor",
            semantic_types,
            description: "A web connected cistern level sensor",
            properties,
        }
    }
}

} // verus!
