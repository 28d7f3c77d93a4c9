//! What a HID report descriptor says about the input reports of a device, as
//! far as HID++ asks.
//!
//! A channel supports short or long HID++ messages when its report descriptor
//! announces an input report for them: a report whose first field is an array
//! with a usage range that holds the HID++ usage.

use vstd::prelude::*;

verus! {

/// An inclusive range of usage IDs on one usage page.
#[derive(Clone, Copy, PartialEq, Eq, Structural, Hash, Debug)]
pub struct UsageRange {
    /// The usage page that all usages of the range are on.
    pub usage_page: u16,
    /// The least usage ID of the range.
    pub minimum: u16,
    /// The greatest usage ID of the range.
    pub maximum: u16,
}

impl UsageRange {
    /// Whether the usage is on the page of the range and its ID is neither
    /// below the minimum nor above the maximum.
    pub open spec fn spec_lookup_usage(self, usage_page: u16, usage_id: u16) -> bool {
        usage_page == self.usage_page && self.minimum <= usage_id <= self.maximum
    }

    /// Checks whether the given usage falls within this usage range.
    pub fn lookup_usage(&self, usage_page: u16, usage_id: u16) -> (r: bool)
        ensures
            r == self.spec_lookup_usage(usage_page, usage_id),
    {
        usage_page == self.usage_page && usage_id >= self.minimum && usage_id <= self.maximum
    }
}

/// A single field inside a report.
#[derive(Clone, Copy, PartialEq, Eq, Structural, Hash, Debug)]
pub enum Field {
    /// A single element of data.
    Variable,
    /// A set of multiple elements. Holds the usage range of the array where
    /// the descriptor gave the usages as a minimum and a maximum.
    Array(Option<UsageRange>),
    /// Padding.
    Constant,
}

impl Field {
    /// The usage range of an array field, if it has one.
    pub open spec fn spec_usage_range(self) -> Option<UsageRange> {
        match self {
            Field::Array(range) => range,
            _ => None,
        }
    }

    /// Returns the usage range of the field, if it is an array that has one.
    pub fn usage_range(&self) -> (r: Option<UsageRange>)
        ensures
            r == self.spec_usage_range(),
    {
        match self {
            Field::Array(range) => *range,
            _ => None,
        }
    }
}

/// An input report of a descriptor.
#[derive(Clone, PartialEq, Eq, Hash, Debug)]
pub struct InputReport {
    /// The ID of the report, if the descriptor numbers its reports.
    pub report_id: Option<u8>,
    /// The fields of the report, in the order of the descriptor.
    pub fields: Vec<Field>,
}

impl InputReport {
    /// Whether the first field of the report is an array whose usage range
    /// holds the usage.
    pub open spec fn spec_first_field_has_usage(self, usage_page: u16, usage_id: u16) -> bool {
        self.fields@.len() > 0 && match self.fields@[0].spec_usage_range() {
            Some(range) => range.spec_lookup_usage(usage_page, usage_id),
            None => false,
        }
    }

    /// Checks whether the first field of the report is an array whose usage
    /// range holds the usage.
    pub fn first_field_has_usage(&self, usage_page: u16, usage_id: u16) -> (r: bool)
        ensures
            r == self.spec_first_field_has_usage(usage_page, usage_id),
    {
        if self.fields.len() == 0 {
            return false;
        }
        match self.fields[0].usage_range() {
            Some(range) => range.lookup_usage(usage_page, usage_id),
            None => false,
        }
    }
}

/// The input reports that a report descriptor defines.
#[derive(Clone, PartialEq, Eq, Hash, Debug)]
pub struct ReportDescriptor {
    /// The input reports, in the order of the descriptor.
    pub input_reports: Vec<InputReport>,
}

/// The position of the first report at or after `start` with the given ID.
pub open spec fn spec_position_of_id(reports: Seq<InputReport>, report_id: u8, start: int) -> Option<
    int,
>
    decreases reports.len() - start,
{
    if start < 0 || start >= reports.len() {
        None
    } else if reports[start].report_id == Some(report_id) {
        Some(start)
    } else {
        spec_position_of_id(reports, report_id, start + 1)
    }
}

/// The position of the input report that a report starting with the byte
/// `prefix` belongs to. Where the first report has no ID, the descriptor does
/// not number its reports, and the first report is the one. Otherwise it is
/// the first report whose ID is `prefix`.
pub open spec fn spec_find_input_report(reports: Seq<InputReport>, prefix: u8) -> Option<int> {
    if reports.len() == 0 {
        None
    } else if reports[0].report_id is None {
        Some(0)
    } else {
        spec_position_of_id(reports, prefix, 0)
    }
}

impl ReportDescriptor {
    /// Finds the input report that a report starting with the byte `prefix`
    /// belongs to.
    pub fn find_input_report(&self, prefix: u8) -> (r: Option<&InputReport>)
        ensures
            match spec_find_input_report(self.input_reports@, prefix) {
                Some(i) => 0 <= i < self.input_reports@.len() && r == Some(
                    &self.input_reports@[i],
                ),
                None => r is None,
            },
    {
        let n = self.input_reports.len();
        if n == 0 {
            return None;
        }
        if self.input_reports[0].report_id.is_none() {
            return Some(&self.input_reports[0]);
        }
        let mut i: usize = 0;
        while i < n
            invariant
                i <= n,
                n == self.input_reports@.len(),
                n > 0,
                self.input_reports@[0].report_id is Some,
                spec_position_of_id(self.input_reports@, prefix, i as int) == spec_position_of_id(
                    self.input_reports@,
                    prefix,
                    0,
                ),
            decreases n - i,
        {
            match self.input_reports[i].report_id {
                Some(id) => {
                    if id == prefix {
                        return Some(&self.input_reports[i]);
                    }
                },
                None => {},
            }
            i += 1;
        }
        None
    }

    /// Whether the descriptor announces an input report for reports that start
    /// with `report_id` whose first field is an array with a usage range that
    /// holds the usage.
    pub open spec fn spec_supports_usage(self, report_id: u8, usage_page: u16, usage_id: u16) -> bool {
        match spec_find_input_report(self.input_reports@, report_id) {
            Some(i) => self.input_reports@[i].spec_first_field_has_usage(usage_page, usage_id),
            None => false,
        }
    }

    /// Checks whether the descriptor announces reports with the given ID that
    /// carry the given usage.
    pub fn supports_usage(&self, report_id: u8, usage_page: u16, usage_id: u16) -> (r: bool)
        ensures
            r == self.spec_supports_usage(report_id, usage_page, usage_id),
    {
        match self.find_input_report(report_id) {
            Some(report) => report.first_field_has_usage(usage_page, usage_id),
            None => false,
        }
    }
}

} // verus!
