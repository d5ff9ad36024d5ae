//! The per-season report line: file count, series title, zero-padded
//! season number, and the reclaimed size rendered in GiB.

use vstd::prelude::*;

use crate::digits::dec_string;
use crate::digits::padded2_string;
use crate::digits::spec_dec;
use crate::digits::spec_padded2;

verus! {

/// The GiB rendering of a byte count, as the byte-unit library writes it.
pub uninterp spec fn gib_display_of(bytes: nat) -> Seq<char>;

/// Relies on byte_unit::Byte::get_adjusted_unit with ByteUnit::GiB: the
/// rendered text is a function of the byte count alone.
#[verifier::external_body]
fn gib_string(bytes: u128) -> (r: String)
    ensures
        r@ == gib_display_of(bytes as nat),
{
    let adjusted = byte_unit::Byte::from_bytes(bytes).get_adjusted_unit(byte_unit::ByteUnit::GiB);
    format!("{}", adjusted)
}

/// The report line announced for one season before anything is deleted.
pub open spec fn spec_report_line(
    file_count: nat,
    title: Seq<char>,
    season_number: nat,
    size_on_disk: nat,
) -> Seq<char> {
    "delete "@ + spec_dec(file_count) + " files: "@ + title + " S"@ + spec_padded2(season_number)
        + ": "@ + gib_display_of(size_on_disk)
}

/// Formats the report for one season: how many files would go, for which
/// series and season, and how much space that reclaims.
pub fn report_line(file_count: usize, title: &str, season_number: u32, size_on_disk: u128) -> (r:
    String)
    ensures
        r@ == spec_report_line(
            file_count as nat,
            title@,
            season_number as nat,
            size_on_disk as nat,
        ),
{
    let mut s = "delete ".to_owned();
    let count = dec_string(file_count as u128);
    s.append(count.as_str());
    s.append(" files: ");
    s.append(title);
    s.append(" S");
    let number = padded2_string(season_number as u128);
    s.append(number.as_str());
    s.append(": ");
    let size = gib_string(size_on_disk);
    s.append(size.as_str());
    s
}

} // verus!
