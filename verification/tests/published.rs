use cistern::convert::{convert, CalibrationConstants, PhysicalReading};
use cistern::PublishedReading;

fn reading(code: i16) -> PhysicalReading {
    convert(code, &CalibrationConstants::default())
}

#[test]
fn nothing_is_published_at_first() {
    let published = PublishedReading::new();
    assert_eq!(published.read(), None);
    assert_eq!(published.version(), 0);
    assert_eq!(published.read_since(0), None);
    assert_eq!(published.read_since(5), None);
}

#[test]
fn read_gives_what_was_written_last() {
    let mut published = PublishedReading::new();
    published.write(reading(100));
    assert_eq!(published.read(), Some(reading(100)));
    published.write(reading(7000));
    assert_eq!(published.read(), Some(reading(7000)));
    assert_eq!(published.read(), Some(reading(7000)));
}

#[test]
fn read_gives_height_fill_and_volume_of_one_write() {
    let mut published = PublishedReading::new();
    for code in [0i16, 3600, 16384, 100, -4] {
        published.write(reading(code));
        let seen = published.read().unwrap();
        assert_eq!(seen.height_cm(), reading(code).height_cm());
        assert_eq!(seen.fill_fraction(), reading(code).fill_fraction());
        assert_eq!(seen.volume_l(), reading(code).volume_l());
    }
}

#[test]
fn every_write_changes_the_version() {
    let mut published = PublishedReading::new();
    published.write(reading(1));
    assert_eq!(published.version(), 1);
    published.write(reading(1));
    assert_eq!(published.version(), 2);
    published.write(reading(2));
    assert_eq!(published.version(), 3);
}

#[test]
fn read_since_tells_news_only() {
    let mut published = PublishedReading::new();
    published.write(reading(3600));
    assert_eq!(published.read_since(0), Some((1, reading(3600))));
    assert_eq!(published.read_since(1), None);
    published.write(reading(3601));
    assert_eq!(published.read_since(1), Some((2, reading(3601))));
    assert_eq!(published.read_since(2), None);
    assert_eq!(published.read_since(77), Some((2, reading(3601))));
}
