//! Whether a server has declared support for byte ranges.

use vstd::prelude::*;

verus! {

/// A unit in which a server accepts range requests.
#[derive(Debug)]
pub enum RangeUnit {
    /// Ranges measured in bytes.
    Bytes,
    /// The keyword `none`, by which a server declares that it accepts no ranges.
    NoRanges,
    /// Any other unit, by its name.
    Unregistered(String),
}

/// What a [`RangeUnit`] is in specifications.
pub enum RangeUnitView {
    Bytes,
    NoRanges,
    Unregistered(Seq<char>),
}

impl View for RangeUnit {
    type V = RangeUnitView;

    open spec fn view(&self) -> RangeUnitView {
        match self {
            RangeUnit::Bytes => RangeUnitView::Bytes,
            RangeUnit::NoRanges => RangeUnitView::NoRanges,
            RangeUnit::Unregistered(name) => RangeUnitView::Unregistered(name@),
        }
    }
}

/// The units that the lines of an `Accept-Ranges` header field list, in
/// order, or `None` where the lines cannot be read as such a field.
pub uninterp spec fn accept_ranges_units(lines: Seq<Seq<u8>>) -> Option<Seq<RangeUnitView>>;

/// The views of `units`, in order.
pub open spec fn unit_views(units: Seq<RangeUnit>) -> Seq<RangeUnitView> {
    units.map_values(|unit: RangeUnit| unit@)
}

/// The contents of `lines`, in order.
pub open spec fn line_views(lines: Seq<Vec<u8>>) -> Seq<Seq<u8>> {
    lines.map_values(|line: Vec<u8>| line@)
}

/// Whether one of `units` is the byte unit.
pub open spec fn has_byte_unit(units: Seq<RangeUnitView>) -> bool {
    exists|i: int| 0 <= i < units.len() && units[i] == RangeUnitView::Bytes
}

/// Whether the lines of a response's `Accept-Ranges` header field declare
/// support for ranges in bytes. No line at all means that the response does
/// not carry the field.
pub open spec fn advertises_byte_ranges(lines: Seq<Seq<u8>>) -> bool {
    lines.len() > 0 && match accept_ranges_units(lines) {
        Some(units) => has_byte_unit(units),
        None => false,
    }
}

/// The views of the units that were read, if any were.
pub open spec fn read_views(parsed: Option<Vec<RangeUnit>>) -> Option<Seq<RangeUnitView>> {
    match parsed {
        Some(units) => Some(unit_views(units@)),
        None => None,
    }
}

/// `hyperx::header::AcceptRanges::parse_header` on the given lines of the
/// field: the units that it reads from them, each as the variant that stands
/// for it here, or `None` where it returns an error.
#[verifier::external_body]
fn parse_accept_ranges(lines: &Vec<Vec<u8>>) -> (parsed: Option<Vec<RangeUnit>>)
    ensures
        read_views(parsed) == accept_ranges_units(line_views(lines@)),
{
    let raw = hyperx::header::Raw::from(lines.clone());
    match <hyperx::header::AcceptRanges as hyperx::header::Header>::parse_header(&raw) {
        Ok(accepted) => Some(
            accepted.0.into_iter().map(
                |unit| match unit {
                    hyperx::header::RangeUnit::Bytes => RangeUnit::Bytes,
                    hyperx::header::RangeUnit::None => RangeUnit::NoRanges,
                    hyperx::header::RangeUnit::Unregistered(name) => RangeUnit::Unregistered(name),
                },
            ).collect(),
        ),
        Err(_) => None,
    }
}

/// Whether the byte unit is among `units`.
pub fn lists_bytes(units: &Vec<RangeUnit>) -> (found: bool)
    ensures
        found == has_byte_unit(unit_views(units@)),
{
    let mut i: usize = 0;
    while i < units.len()
        invariant
            i <= units.len(),
            forall|j: int| 0 <= j < i ==> unit_views(units@)[j] != RangeUnitView::Bytes,
        decreases units.len() - i,
    {
        match &units[i] {
            RangeUnit::Bytes => {
                assert(unit_views(units@)[i as int] == RangeUnitView::Bytes);
                return true;
            },
            _ => {},
        }
        i += 1;
    }
    false
}

/// The verdict on a response: whether its `Accept-Ranges` header field,
/// given by its lines in the order received, lists the byte unit.
///
/// A response without the field (no lines), or with a field that cannot be
/// read or that does not list the byte unit, gives `false`.
pub fn accepts_byte_ranges(lines: &Vec<Vec<u8>>) -> (verdict: bool)
    ensures
        verdict == advertises_byte_ranges(line_views(lines@)),
{
    if lines.len() == 0 {
        return false;
    }
    match parse_accept_ranges(lines) {
        Some(units) => lists_bytes(&units),
        None => false,
    }
}

} // verus!
