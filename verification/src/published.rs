//! The reading that observers see: the latest one that was published, and a
//! version that tells them whether they have seen it before.

use crate::convert::{whole, Level, PhysicalReading};
use vstd::prelude::*;

verus! {

/// The latest published reading. One writer replaces it as a whole; readers
/// get the whole of what was written last, or nothing before the first write.
pub struct PublishedReading {
    latest: Option<PhysicalReading>,
    version: u64,
}

/// What has been published so far, as plain values.
pub struct Published {
    /// The reading that was written last.
    pub latest: Option<Level>,
    /// The version, which every write changes.
    pub version: u64,
}

/// The version that follows `version`. After the largest number the count
/// starts over.
pub open spec fn next_version(version: u64) -> u64 {
    if version == u64::MAX {
        0
    } else {
        (version + 1) as u64
    }
}

impl View for PublishedReading {
    type V = Published;

    closed spec fn view(&self) -> Published {
        Published {
            latest: match self.latest {
                Some(reading) => Some(reading@),
                None => None,
            },
            version: self.version,
        }
    }
}

impl PublishedReading {
    /// Nothing is published yet.
    pub fn new() -> (published: PublishedReading)
        ensures
            published@.latest is None,
            published@.version == 0,
    {
        PublishedReading { latest: None, version: 0 }
    }

    /// Replaces the published reading by `reading`, height, fill fraction and
    /// volume at once, and moves the version on.
    pub fn write(&mut self, reading: PhysicalReading)
        ensures
            final(self)@.latest == Some(reading@),
            final(self)@.version == next_version(old(self)@.version),
            final(self)@.version != old(self)@.version,
    {
        self.latest = Some(reading);
        self.version = self.version.wrapping_add(1);
    }

    /// The reading that was written last, or nothing where none was. Its
    /// height, fill fraction and volume are those of one conversion.
    pub fn read(&self) -> (reading: Option<PhysicalReading>)
        ensures
            match reading {
                Some(r) => self@.latest == Some(r@) && whole(r@),
                None => self@.latest is None,
            },
    {
        match self.latest {
            Some(r) => {
                let _ = r.level();
                Some(r)
            },
            None => None,
        }
    }

    /// The version of what is published: zero before the first write, and
    /// another number after each write.
    pub fn version(&self) -> (version: u64)
        ensures
            version == self@.version,
    {
        self.version
    }

    /// The published reading, if it is another than the one that the caller
    /// saw at version `seen`.
    pub fn read_since(&self, seen: u64) -> (news: Option<(u64, PhysicalReading)>)
        ensures
            match news {
                Some((version, r)) => {
                    &&& version == self@.version
                    &&& version != seen
                    &&& self@.latest == Some(r@)
                    &&& whole(r@)
                },
                None => self@.latest is None || self@.version == seen,
            },
    {
        if self.version == seen {
            None
        } else {
            match self.read() {
                Some(r) => Some((self.version, r)),
                None => None,
            }
        }
    }
}

} // verus!
