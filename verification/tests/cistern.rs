use cistern::window::DEFAULT_CAPACITY;
use cistern::convert::{CalibrationConstants, Ratio};
use cistern::thing::{property_values, PropertyDescription};
use cistern::{Cistern, Median};

#[test]
fn new_cistern_has_no_level() {
    let cistern = Cistern::new();
    assert_eq!(cistern.level(), None);
    assert_eq!(DEFAULT_CAPACITY, 10000);
}

#[test]
fn measure_answers_with_the_median() {
    let mut cistern = Cistern::new();
    assert_eq!(cistern.measure(30), Median::Single(30));
    assert_eq!(cistern.measure(10), Median::Pair(10, 30));
    assert_eq!(cistern.measure(20), Median::Single(20));
    assert_eq!(cistern.measure(-40), Median::Pair(10, 20));
}

#[test]
fn level_converts_the_median_code() {
    let mut cistern = Cistern::new();
    cistern.measure(3600);
    let level = cistern.level().unwrap();
    assert_eq!(level.height_cm(), Ratio { num: 22118400, den: 327670 });
    assert_eq!(level.fill_fraction(), Ratio { num: 22118400, den: 44235450 });
    assert_eq!(level.volume_l(), Ratio { num: 35389440000, den: 44235450 });
    cistern.measure(16384);
    cistern.measure(16384);
    let level = cistern.level().unwrap();
    assert_eq!(level.height_cm(), Ratio { num: 100663296, den: 327670 });
    assert_eq!(level.fill_fraction(), Ratio { num: 44235450, den: 44235450 });
    assert_eq!(level.volume_l(), Ratio { num: 70776720000, den: 44235450 });
}

#[test]
fn level_of_a_pair_converts_the_mean() {
    let mut cistern = Cistern::new();
    cistern.measure(10);
    cistern.measure(20);
    // The mean is 15, and 15 * 6144 / 32767 is 2.8 mm.
    let level = cistern.level().unwrap();
    assert_eq!(level.height_cm(), Ratio { num: 92160, den: 327670 });
    assert_eq!(level.fill_fraction(), Ratio { num: 92160, den: 44235450 });
    assert_eq!(level.volume_l(), Ratio { num: 147456000, den: 44235450 });
    let mut cistern = Cistern::new();
    cistern.measure(-7);
    cistern.measure(0);
    // The mean is -3, which counts as zero.
    assert_eq!(cistern.level().unwrap().height_cm(), Ratio { num: 0, den: 327670 });
}

#[test]
fn level_of_one_code_is_not_rounded() {
    let mut cistern = Cistern::new();
    cistern.measure(1);
    let level = cistern.level().unwrap();
    assert_eq!(level.height_cm(), Ratio { num: 6144, den: 327670 });
    assert_eq!(level.fill_fraction(), Ratio { num: 6144, den: 44235450 });
    assert_eq!(level.volume_l(), Ratio { num: 9830400, den: 44235450 });
    let height = level.height_cm().num as f64 / level.height_cm().den as f64;
    assert!((height - 0.01875).abs() < 1e-6);
}

#[test]
fn level_of_negative_median_is_empty() {
    let mut cistern = Cistern::new();
    cistern.measure(-3);
    cistern.measure(-2);
    cistern.measure(500);
    let level = cistern.level().unwrap();
    assert_eq!(level.height_cm().num, 0);
    assert_eq!(level.fill_fraction().num, 0);
    assert_eq!(level.volume_l().num, 0);
}

#[test]
fn cistern_window_lets_the_oldest_code_go() {
    let calib = CalibrationConstants::new(6144, 135, 1600).unwrap();
    let mut cistern = Cistern::with_calibration(5, calib);
    for code in [10, 20, 30, 40, 50] {
        cistern.measure(code);
    }
    assert_eq!(cistern.measure(60), Median::Single(40));
    let mut cistern = Cistern::with_calibration(2, calib);
    cistern.measure(7000);
    cistern.measure(1);
    assert_eq!(cistern.measure(3), Median::Pair(1, 3));
}

#[test]
fn cistern_takes_another_calibration() {
    let calib = CalibrationConstants::new(4096, 500, 1000).unwrap();
    let mut cistern = Cistern::with_calibration(3, calib);
    cistern.measure(16384);
    let level = cistern.level().unwrap();
    assert_eq!(level.height_cm(), Ratio { num: 67108864, den: 327670 });
    assert_eq!(level.fill_fraction(), Ratio { num: 67108864, den: 163835000 });
    assert_eq!(level.volume_l(), Ratio { num: 67108864000, den: 163835000 });
}

#[test]
fn thing_describes_a_level_sensor() {
    let thing = Cistern::new().to_thing();
    assert_eq!(thing.id, "urn:dev:ops:cistern-level-sensor-1234");
    assert_eq!(thing.title, "Cistern Level Sensor");
    assert_eq!(thing.semantic_types, vec!["MultiLevelSensor"]);
    assert_eq!(thing.description, "A web connected cistern level sensor");
    assert_eq!(thing.properties.len(), 3);
}

#[test]
fn thing_has_three_level_properties() {
    let thing = Cistern::new().to_thing();
    assert_eq!(
        thing.properties,
        vec![
            PropertyDescription {
                name: "percentage",
                semantic_type: "LevelProperty",
                title: "Level",
                value_type: "number",
                description: "The current fill level in percent",
                minimum: 0,
                maximum: 100,
                unit: "percent",
                read_only: true,
            },
            PropertyDescription {
                name: "height",
                semantic_type: "LevelProperty",
                title: "Height",
                value_type: "number",
                description: "The current fill height in centimeters",
                minimum: 0,
                maximum: 135,
                unit: "centimeter",
                read_only: true,
            },
            PropertyDescription {
                name: "volume",
                semantic_type: "LevelProperty",
                title: "Volume",
                value_type: "number",
                description: "The current fill volume in liters",
                minimum: 0,
                maximum: 1600,
                unit: "liter",
                read_only: true,
            },
        ]
    );
}

#[test]
fn thing_bounds_follow_the_calibration() {
    let calib = CalibrationConstants::new(2048, 300, 12).unwrap();
    let thing = Cistern::with_calibration(10, calib).to_thing();
    assert_eq!(thing.properties[0].maximum, 100);
    assert_eq!(thing.properties[1].maximum, 300);
    assert_eq!(thing.properties[2].maximum, 12);
}

#[test]
fn level_property_is_read_only_from_zero() {
    let property = PropertyDescription::level("a", "b", "c", 9, "d");
    assert_eq!(property.name, "a");
    assert_eq!(property.title, "b");
    assert_eq!(property.description, "c");
    assert_eq!(property.maximum, 9);
    assert_eq!(property.unit, "d");
    assert_eq!(property.minimum, 0);
    assert_eq!(property.semantic_type, "LevelProperty");
    assert_eq!(property.value_type, "number");
    assert!(property.read_only);
}

#[test]
fn property_values_of_a_reading() {
    let mut cistern = Cistern::new();
    cistern.measure(3600);
    let values = property_values(&cistern.level().unwrap());
    assert_eq!(values.len(), 3);
    assert_eq!(values[0].name, "height");
    assert_eq!(values[0].value, Ratio { num: 22118400, den: 327670 });
    assert_eq!(values[1].name, "percentage");
    assert_eq!(values[1].value, Ratio { num: 2211840000, den: 44235450 });
    assert_eq!(values[2].name, "volume");
    assert_eq!(values[2].value, Ratio { num: 35389440000, den: 44235450 });
}
