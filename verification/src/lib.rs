//! Level measurement for a cistern.
//!
//! A sensor gives raw codes, one at a time. A [`MedianWindow`] keeps the most
//! recent of them and answers for their median, which [`convert`] turns into
//! a [`PhysicalReading`]: height, fill fraction and volume, as exact
//! fractions. A [`Cistern`] holds the window and the calibration. The
//! [`AcquisitionLoop`] decides, read by read, what to take in, when a reading
//! is due for publication and when to stop; the caller does the reading. A
//! [`PublishedReading`] holds the reading that observers see.
//!
//! The median is taken by the heap of the `medianheap` crate; what this
//! library assumes of that crate stands in [`heap`], and nowhere else.

pub mod acquisition;
pub mod cistern;
pub mod convert;
pub mod heap;
pub mod median;
pub mod published;
pub mod thing;
pub mod window;

pub use crate::acquisition::AcquisitionLoop;
pub use crate::cistern::Cistern;
pub use crate::convert::{convert, CalibrationConstants, PhysicalReading};
pub use crate::median::Median;
pub use crate::published::PublishedReading;
pub use crate::window::MedianWindow;
