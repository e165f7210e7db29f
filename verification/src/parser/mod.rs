//! Reading the job header out of a PCL print stream.
//!
//! The stream is first reduced to its ASCII bytes; the header commands are
//! then looked up by the first place where each stands (see `grammar`).
pub mod grammar;
pub mod nompcl;
pub mod ghostpcl;

use vstd::prelude::*;
use crate::parser::grammar::{
    ascii_filter, count_pages, first_single, lemma_ascii_filter_drops, lemma_first_single_bounds, first_run_value, first_single_value, keep_ascii, page_count,
    raster_counts_fit, read_run, read_single, remove_raster, strip_raster,
};

verus! {

/// Page orientation as a PCL stream gives it.
#[derive(Debug, Clone, Copy, PartialEq, Eq, Structural)]
#[allow(non_camel_case_types)]
pub enum Orientation {
    PORTRAIT,
    LANDSCAPE,
    REVERSE_PORTRAIT,
    REVERSE_LANDSCAPE,
}

/// Page size as a PCL stream gives it.
#[derive(Debug, Clone, Copy, PartialEq, Eq, Structural)]
pub enum PageSize {
    A4,
    A3,
}

/// Duplex mode as a PCL stream gives it.
#[derive(Debug, Clone, Copy, PartialEq, Eq, Structural)]
#[allow(non_camel_case_types)]
pub enum DuplexMode {
    SIMPLEX,
    DUPLEX_LONG_EDGE,
    DUPLEX_SHORT_EDGE,
}

/// Why a header field could not be read.
#[derive(Debug, Clone, Copy, PartialEq, Eq, Structural)]
pub enum PclError {
    /// The command for the field is nowhere in the stream.
    NoMatch,
    /// The page-size command names a size that is neither A4 nor A3.
    InvalidPageSize,
}

impl PclError {
    /// The message the error is reported with.
    pub fn message(&self) -> (r: &'static str)
        returns
            (match self {
                PclError::NoMatch => "No match found",
                PclError::InvalidPageSize => "Invalid page size value",
            }),
    {
        match self {
            PclError::NoMatch => "No match found",
            PclError::InvalidPageSize => "Invalid page size value",
        }
    }
}

/// `ESC & l` + `O`: the orientation command, `0` or `1`.
pub const ORIENTATION_LETTER: u8 = 79;

/// `ESC & l` + `A`: the page-size command.
pub const PAGE_SIZE_LETTER: u8 = 65;

/// `ESC & l` + `S`: the duplex command, `0` to `2`.
pub const DUPLEX_LETTER: u8 = 83;

/// `ESC & l` + `X`: the copies command.
pub const COPIES_LETTER: u8 = 88;

/// The page-size code of PCL for A4.
pub const PCL_A4: u64 = 26;

/// The page-size code of PCL for A3.
pub const PCL_A3: u64 = 27;

/// The orientation digit of the first `ESC & l [01] O` command.
pub open spec fn orientation_digit(buf: Seq<u8>) -> Option<nat> {
    first_single_value(buf, 48, 49, ORIENTATION_LETTER)
}

/// The duplex digit of the first `ESC & l [012] S` command.
pub open spec fn duplex_digit(buf: Seq<u8>) -> Option<nat> {
    first_single_value(buf, 48, 50, DUPLEX_LETTER)
}

/// The number of the first `ESC & l <digits> A` command.
pub open spec fn page_size_code(buf: Seq<u8>) -> Option<nat> {
    first_run_value(buf, PAGE_SIZE_LETTER)
}

/// The number of the first `ESC & l <digits> X` command.
pub open spec fn copies_code(buf: Seq<u8>) -> Option<nat> {
    first_run_value(buf, COPIES_LETTER)
}

/// The page-size number, where there is one, fits a `u8`; a larger one
/// cannot be read.
pub open spec fn page_size_fits(buf: Seq<u8>) -> bool {
    page_size_code(buf) matches Some(v) ==> v <= u8::MAX
}

/// The orientation that `buf` gives.
pub open spec fn orientation_of(buf: Seq<u8>) -> Result<Orientation, PclError> {
    match orientation_digit(buf) {
        Some(v) => if v == 0 {
            Ok(Orientation::PORTRAIT)
        } else {
            Ok(Orientation::LANDSCAPE)
        },
        None => Err(PclError::NoMatch),
    }
}

/// The page size that `buf` gives.
pub open spec fn page_size_of(buf: Seq<u8>) -> Result<PageSize, PclError> {
    match page_size_code(buf) {
        Some(v) => if v == PCL_A4 {
            Ok(PageSize::A4)
        } else if v == PCL_A3 {
            Ok(PageSize::A3)
        } else {
            Err(PclError::InvalidPageSize)
        },
        None => Err(PclError::NoMatch),
    }
}

/// The duplex mode that `buf` gives.
pub open spec fn duplex_of(buf: Seq<u8>) -> Result<DuplexMode, PclError> {
    match duplex_digit(buf) {
        Some(v) => if v == 0 {
            Ok(DuplexMode::SIMPLEX)
        } else if v == 1 {
            Ok(DuplexMode::DUPLEX_LONG_EDGE)
        } else {
            Ok(DuplexMode::DUPLEX_SHORT_EDGE)
        },
        None => Err(PclError::NoMatch),
    }
}

fn parse_orientation(input: &[u8]) -> (r: Result<Orientation, PclError>)
    ensures
        r == orientation_of(input@),
{
    match read_single(input, 48, 49, ORIENTATION_LETTER) {
        Some(d) => if d == 0 {
            Ok(Orientation::PORTRAIT)
        } else {
            Ok(Orientation::LANDSCAPE)
        },
        None => Err(PclError::NoMatch),
    }
}

fn parse_page_size(input: &[u8]) -> (r: Result<PageSize, PclError>)
    requires
        page_size_fits(input@),
    ensures
        r == page_size_of(input@),
{
    match read_run(input, PAGE_SIZE_LETTER) {
        Some(v) => if v == PCL_A4 {
            Ok(PageSize::A4)
        } else if v == PCL_A3 {
            Ok(PageSize::A3)
        } else {
            Err(PclError::InvalidPageSize)
        },
        None => Err(PclError::NoMatch),
    }
}

fn parse_duplex_binding(input: &[u8]) -> (r: Result<DuplexMode, PclError>)
    ensures
        r == duplex_of(input@),
{
    match read_single(input, 48, 50, DUPLEX_LETTER) {
        Some(d) => if d == 0 {
            Ok(DuplexMode::SIMPLEX)
        } else if d == 1 {
            Ok(DuplexMode::DUPLEX_LONG_EDGE)
        } else {
            Ok(DuplexMode::DUPLEX_SHORT_EDGE)
        },
        None => Err(PclError::NoMatch),
    }
}

/// What a PCL stream says of its job.
#[derive(Debug, Clone, Copy, PartialEq, Eq)]
pub struct PclReport {
    pub orientation: Result<Orientation, PclError>,
    pub page_size: Result<PageSize, PclError>,
    pub duplex: Result<DuplexMode, PclError>,
    /// The number of pieces the stream falls into at page breaks
    /// (`\x0C\x1B`).
    pub pages: usize,
}

/// The stream that the header is read from: the ASCII bytes of `contents`,
/// with the raster-data commands taken out.
pub open spec fn report_buffer(contents: Seq<u8>) -> Seq<u8> {
    strip_raster(ascii_filter(contents))
}

/// The inputs on which the report can be made: every raster-data command's
/// byte count fits a `usize`, and the page-size number fits a `u8`.
pub open spec fn report_readable(contents: Seq<u8>) -> bool {
    &&& raster_counts_fit(ascii_filter(contents))
    &&& page_size_fits(report_buffer(contents))
}

/// Reads orientation, page size, duplex mode and page count from the bytes
/// of a PCL print stream.
pub fn parse_pcl(contents: &[u8]) -> (r: PclReport)
    requires
        report_readable(contents@),
    ensures
        r.orientation == orientation_of(report_buffer(contents@)),
        r.page_size == page_size_of(report_buffer(contents@)),
        r.duplex == duplex_of(report_buffer(contents@)),
        r.pages == page_count(report_buffer(contents@)),
{
    let ascii = keep_ascii(contents);
    let buffer = remove_raster(ascii.as_slice());
    let b = buffer.as_slice();
    PclReport {
        orientation: parse_orientation(b),
        page_size: parse_page_size(b),
        duplex: parse_duplex_binding(b),
        pages: count_pages(b),
    }
}

/// Bytes outside ASCII never change the report: taking one out of the
/// stream, wherever it stands, gives the same report.
pub proof fn law_non_ascii_bytes_ignored(a: Seq<u8>, b: u8, c: Seq<u8>)
    requires
        b >= 128,
    ensures
        report_buffer(a + seq![b] + c) == report_buffer(a + c),
        report_readable(a + seq![b] + c) == report_readable(a + c),
{
    lemma_ascii_filter_drops(a, b, c);
}

/// Each field of the report is read from its own command alone, whatever
/// the other commands say. In the stream the report is read from, the
/// duplex mode is one-sided, long-edge or short-edge as the digit of the
/// first `ESC & l <d> S` command is `0`, `1` or `2`, and missing without
/// one; the orientation is portrait or landscape as the digit of the first
/// `ESC & l <d> O` command is `0` or `1`, and missing without one; the page
/// size is A4 for page-size number 26, A3 for 27, invalid for another
/// number and missing without one.
pub proof fn law_report_fields_follow_commands(contents: Seq<u8>)
    ensures
        match first_single(report_buffer(contents), 48, 50, DUPLEX_LETTER) {
            Some(i) => {
                let d = report_buffer(contents)[i + 3];
                &&& (duplex_of(report_buffer(contents)) == Ok::<DuplexMode, PclError>(
                    DuplexMode::SIMPLEX,
                ) <==> d == 48)
                &&& (duplex_of(report_buffer(contents)) == Ok::<DuplexMode, PclError>(
                    DuplexMode::DUPLEX_LONG_EDGE,
                ) <==> d == 49)
                &&& (duplex_of(report_buffer(contents)) == Ok::<DuplexMode, PclError>(
                    DuplexMode::DUPLEX_SHORT_EDGE,
                ) <==> d == 50)
            },
            None => duplex_of(report_buffer(contents)) == Err::<DuplexMode, PclError>(
                PclError::NoMatch,
            ),
        },
        match first_single(report_buffer(contents), 48, 49, ORIENTATION_LETTER) {
            Some(i) => {
                let d = report_buffer(contents)[i + 3];
                &&& (orientation_of(report_buffer(contents)) == Ok::<Orientation, PclError>(
                    Orientation::PORTRAIT,
                ) <==> d == 48)
                &&& (orientation_of(report_buffer(contents)) == Ok::<Orientation, PclError>(
                    Orientation::LANDSCAPE,
                ) <==> d == 49)
            },
            None => orientation_of(report_buffer(contents)) == Err::<Orientation, PclError>(
                PclError::NoMatch,
            ),
        },
        match page_size_code(report_buffer(contents)) {
            Some(v) => page_size_of(report_buffer(contents)) == (if v == 26 {
                Ok::<PageSize, PclError>(PageSize::A4)
            } else if v == 27 {
                Ok::<PageSize, PclError>(PageSize::A3)
            } else {
                Err::<PageSize, PclError>(PclError::InvalidPageSize)
            }),
            None => page_size_of(report_buffer(contents)) == Err::<PageSize, PclError>(
                PclError::NoMatch,
            ),
        },
{
    let b = report_buffer(contents);
    lemma_first_single_bounds(b, 48, 50, DUPLEX_LETTER, 0);
    lemma_first_single_bounds(b, 48, 49, ORIENTATION_LETTER, 0);
}

} // verus!
