//! What the cistern shows of itself to observers: a description of the thing
//! and of its three properties, and the values that go with a reading.

use crate::convert::{PhysicalReading, Ratio};
use vstd::prelude::*;

verus! {

/// The description of one property: a number that observers can read, with
/// its unit and its bounds.
#[derive(Clone, Copy, Debug, PartialEq, Eq)]
pub struct PropertyDescription {
    pub name: &'static str,
    pub semantic_type: &'static str,
    pub title: &'static str,
    pub value_type: &'static str,
    pub description: &'static str,
    pub minimum: u16,
    pub maximum: u16,
    pub unit: &'static str,
    pub read_only: bool,
}

/// The description of the cistern as a thing with properties.
#[derive(Clone, Debug, PartialEq, Eq)]
pub struct ThingDescription {
    pub id: &'static str,
    pub title: &'static str,
    pub semantic_types: Vec<&'static str>,
    pub description: &'static str,
    pub properties: Vec<PropertyDescription>,
}

/// The value of one property by name.
#[derive(Clone, Copy, Debug, PartialEq, Eq)]
pub struct PropertyValue {
    pub name: &'static str,
    pub value: Ratio,
}

/// `property` describes a read-only level, a number from zero to `maximum`,
/// under the given name and in the given words.
pub open spec fn describes_level(
    property: PropertyDescription,
    name: &str,
    title: &str,
    description: &str,
    maximum: u16,
    unit: &str,
) -> bool {
    &&& property.name@ == name@
    &&& property.semantic_type@ == "LevelProperty"@
    &&& property.title@ == title@
    &&& property.value_type@ == "number"@
    &&& property.description@ == description@
    &&& property.minimum == 0
    &&& property.maximum == maximum
    &&& property.unit@ == unit@
    &&& property.read_only
}

impl PropertyDescription {
    /// A read-only level, a number from zero to `maximum`.
    pub fn level(
        name: &'static str,
        title: &'static str,
        description: &'static str,
        maximum: u16,
        unit: &'static str,
    ) -> (property: PropertyDescription)
        ensures
            describes_level(property, name, title, description, maximum, unit),
    {
        PropertyDescription {
            name,
            semantic_type: "LevelProperty",
            title,
            value_type: "number",
            description,
            minimum: 0,
            maximum,
            unit,
            read_only: true,
        }
    }
}

/// `thing` describes a cistern as a level sensor with the properties
/// `percentage`, `height` and `volume`, in this order, the last two bounded
/// by the maximal height in centimetres and the maximal volume in litres.
pub open spec fn describes_cistern(
    thing: ThingDescription,
    max_height_cm: u16,
    max_volume_l: u16,
) -> bool {
    &&& thing.id@ == "urn:dev:ops:cistern-level-sensor-1234"@
    &&& thing.title@ == "Cistern Level Sensor"@
    &&& thing.semantic_types@.len() == 1
    &&& thing.semantic_types@[0]@ == "MultiLevelSensor"@
    &&& thing.description@ == "A web connected cistern level sensor"@
    &&& thing.properties@.len() == 3
    &&& describes_level(
        thing.properties@[0],
        "percentage",
        "Level",
        "The current fill level in percent",
        100,
        "percent",
    )
    &&& describes_level(
        thing.properties@[1],
        "height",
        "Height",
        "The current fill height in centimeters",
        max_height_cm,
        "centimeter",
    )
    &&& describes_level(
        thing.properties@[2],
        "volume",
        "Volume",
        "The current fill volume in liters",
        max_volume_l,
        "liter",
    )
}

/// The values that observers are told of when a reading is published: the
/// height in centimetres, the fill in percent (from 0 to 100), and the volume
/// in litres, in this order.
pub fn property_values(reading: &PhysicalReading) -> (values: Vec<PropertyValue>)
    ensures
        values@.len() == 3,
        values@[0].name@ == "height"@,
        values@[0].value == reading@.height_cm,
        values@[1].name@ == "percentage"@,
        values@[1].value.num == 100 * reading@.fill_fraction.num,
        values@[1].value.den == reading@.fill_fraction.den,
        values@[1].value.num <= 100 * values@[1].value.den,
        values@[2].name@ == "volume"@,
        values@[2].value == reading@.volume_l,
{
    let mut values: Vec<PropertyValue> = Vec::new();
    values.push(PropertyValue { name: "height", value: reading.height_cm() });
    values.push(PropertyValue { name: "percentage", value: reading.percentage() });
    values.push(PropertyValue { name: "volume", value: reading.volume_l() });
    values
}

} // verus!
