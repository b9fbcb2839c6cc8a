//! The normalised result of a lookup and the record that is finally emitted.

use vstd::prelude::*;

verus! {

/// The address that stands for "no provider could tell the public address".
/// It also stands in a record for a field that the provider asked does not
/// know.
pub const SENTINEL: &'static str = "N/A";

/// Mathematical content of a [`FullLocationData`].
pub ghost struct LocationRecord {
    pub ip_address: Seq<char>,
    pub country_code: Seq<char>,
    pub city: Seq<char>,
    pub isp: Seq<char>,
    pub error: Seq<char>,
}

impl LocationRecord {
    /// The record with every field empty.
    pub open spec fn empty() -> LocationRecord {
        LocationRecord::failure(Seq::empty())
    }

    /// The record of a lookup that failed for `reason`: every other field is empty.
    pub open spec fn failure(reason: Seq<char>) -> LocationRecord {
        LocationRecord {
            ip_address: Seq::empty(),
            country_code: Seq::empty(),
            city: Seq::empty(),
            isp: Seq::empty(),
            error: reason,
        }
    }

    /// The record of a lookup that succeeded: `error` is empty.
    pub open spec fn found(
        ip_address: Seq<char>,
        country_code: Seq<char>,
        city: Seq<char>,
        isp: Seq<char>,
    ) -> LocationRecord {
        LocationRecord { ip_address, country_code, city, isp, error: Seq::empty() }
    }

    /// The record reports a failure.
    pub open spec fn is_failure(self) -> bool {
        self.error.len() > 0
    }

    /// A record is either a success or a failure, never both: where `error`
    /// is set, the four data fields are empty.
    pub open spec fn well_formed(self) -> bool {
        self.is_failure() ==> self == LocationRecord::failure(self.error)
    }
}

/// What the two ways to make a record give is a success or a failure, never
/// both.
pub proof fn records_are_well_formed(
    reason: Seq<char>,
    ip_address: Seq<char>,
    country_code: Seq<char>,
    city: Seq<char>,
    isp: Seq<char>,
)
    ensures
        LocationRecord::failure(reason).well_formed(),
        LocationRecord::found(ip_address, country_code, city, isp).well_formed(),
        !LocationRecord::found(ip_address, country_code, city, isp).is_failure(),
        LocationRecord::failure(reason).is_failure() <==> reason.len() > 0,
{
}

/// Country, city and network provider of one address, or the reason why
/// they could not be found.
#[derive(Debug)]
pub struct FullLocationData {
    pub ip_address: String,
    pub country_code: String,
    pub city: String,
    pub isp: String,
    pub error: String,
}

impl View for FullLocationData {
    type V = LocationRecord;

    open spec fn view(&self) -> LocationRecord {
        LocationRecord {
            ip_address: self.ip_address@,
            country_code: self.country_code@,
            city: self.city@,
            isp: self.isp@,
            error: self.error@,
        }
    }
}

impl FullLocationData {
    /// A failed lookup: only `error` is set.
    pub fn failure(reason: &str) -> (record: FullLocationData)
        ensures
            record@ == LocationRecord::failure(reason@),
    {
        FullLocationData {
            ip_address: String::new(),
            country_code: String::new(),
            city: String::new(),
            isp: String::new(),
            error: String::from_str(reason),
        }
    }

    /// A successful lookup: `error` is left empty.
    pub fn found(ip_address: String, country_code: String, city: String, isp: String) -> (record:
        FullLocationData)
        ensures
            record@ == LocationRecord::found(ip_address@, country_code@, city@, isp@),
    {
        FullLocationData { ip_address, country_code, city, isp, error: String::new() }
    }

    /// Whether the record reports a failure, that is, whether `error` is set.
    pub fn is_failure(&self) -> (failed: bool)
        ensures
            failed == self@.is_failure(),
    {
        !self.error.as_str().is_empty()
    }
}

impl Default for FullLocationData {
    /// The record with every field empty.
    fn default() -> (record: FullLocationData)
        ensures
            record@ == LocationRecord::empty(),
    {
        FullLocationData {
            ip_address: String::new(),
            country_code: String::new(),
            city: String::new(),
            isp: String::new(),
            error: String::new(),
        }
    }
}

/// Mathematical content of an [`OutputData`].
pub ghost struct OutputRecord {
    pub ip_address: Seq<char>,
    pub full: LocationRecord,
}

/// What a run reports: the public address, or the sentinel, and what was
/// found out about it.
#[derive(Debug)]
pub struct OutputData {
    pub ip_address: String,
    pub full: FullLocationData,
}

impl View for OutputData {
    type V = OutputRecord;

    open spec fn view(&self) -> OutputRecord {
        OutputRecord { ip_address: self.ip_address@, full: self.full@ }
    }
}

} // verus!
