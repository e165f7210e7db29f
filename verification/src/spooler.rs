//! Job records for print jobs queued in the Windows spooler.
//!
//! Querying the spooler happens outside the library; it receives the fields
//! of the queued job and its device mode as plain values.
use vstd::prelude::*;
use crate::job::{
    color_from_code, duplex_from_code, orientation_from_code, size_from_code, Color, Duplex, Job,
    Orientation, Size,
};
use crate::text::repeat_char;

verus! {

/// A printer opened in the Windows spooler.
pub struct WindowsSpooler {
    pub printer_name: String,
    /// The raw value of the printer handle the spooler gave.
    pub printer_handle: usize,
}

/// What the spooler tells of a queued job: the job entry and the device
/// mode it is printed with.
#[derive(Debug, Clone, PartialEq)]
pub struct SpooledJob {
    pub job_id: u32,
    /// The document name.
    pub document: String,
    pub total_pages: u32,
    /// `dmPaperSize`.
    pub paper_size: i16,
    /// `dmOrientation`.
    pub orientation: i16,
    /// `dmDuplex`.
    pub duplex: i16,
    /// `dmColor`.
    pub color: i16,
    /// `dmCopies`.
    pub copies: i16,
}

/// The device mode names a paper size, orientation, duplex mode and colour
/// mode that a job can have, and a copy count that is not negative.
pub open spec fn spooled_job_supported(info: SpooledJob) -> bool {
    &&& size_from_code(info.paper_size) is Ok
    &&& orientation_from_code(info.orientation) is Ok
    &&& duplex_from_code(info.duplex) is Ok
    &&& color_from_code(info.color) is Ok
    &&& info.copies >= 0
}

/// `job` is the record of the queued job `info`: all its pages count as
/// black-and-white or all as colour, as the colour mode says.
pub open spec fn job_of_spooled(job: Job, info: SpooledJob) -> bool {
    let color = color_from_code(info.color)->Ok_0;
    let map_char = if color == Color::BW {
        '0'
    } else {
        '1'
    };
    &&& job.id == info.job_id
    &&& job.name@ == info.document@
    &&& job.number == info.total_pages
    &&& job.color == color
    &&& job.bw_pages == (if color == Color::BW {
        info.total_pages
    } else {
        0
    })
    &&& job.color_pages == (if color == Color::COLOR {
        info.total_pages
    } else {
        0
    })
    &&& job.color_map@ == Seq::new(info.total_pages as nat, |_i: int| map_char)
    &&& job.paper_size == size_from_code(info.paper_size)->Ok_0
    &&& job.direction == orientation_from_code(info.orientation)->Ok_0
    &&& job.duplex == duplex_from_code(info.duplex)->Ok_0
    &&& job.copies == info.copies as u32
}

impl WindowsSpooler {
    /// The job record of a queued job.
    pub fn job_from_info(info: SpooledJob) -> (job: Job)
        requires
            spooled_job_supported(info),
        ensures
            job_of_spooled(job, info),
    {
        let paper_size: Size = match Size::try_from(info.paper_size) {
            Ok(s) => s,
            Err(_) => Size::A4,
        };
        let direction: Orientation = match Orientation::try_from(info.orientation) {
            Ok(o) => o,
            Err(_) => Orientation::PORTRAIT,
        };
        let duplex: Duplex = match Duplex::try_from(info.duplex) {
            Ok(d) => d,
            Err(_) => Duplex::SIMPLEX,
        };
        let color: Color = match Color::try_from(info.color) {
            Ok(c) => c,
            Err(_) => Color::BW,
        };
        let copies: u32 = info.copies as u32;
        let number = info.total_pages;
        let bw_pages = match color {
            Color::BW => number,
            _ => 0,
        };
        let color_pages = match color {
            Color::COLOR => number,
            _ => 0,
        };
        let color_map = match color {
            Color::BW => repeat_char('0', number as usize),
            Color::COLOR => repeat_char('1', number as usize),
        };
        Job {
            id: info.job_id,
            name: info.document,
            color,
            bw_pages,
            color_pages,
            color_map,
            number,
            paper_size,
            direction,
            duplex,
            copies,
        }
    }
}

/// A spooled job's pages are all black-and-white or all colour: the two
/// counts make up the page total and the colour map agrees with the mode.
pub proof fn law_spooled_pages_add_up(job: Job, info: SpooledJob)
    requires
        spooled_job_supported(info),
        job_of_spooled(job, info),
    ensures
        job.bw_pages + job.color_pages == job.number,
        job.color_map@.len() == job.number,
        forall|i: int| 0 <= i < job.number ==> (#[trigger] job.color_map@[i] == '1') == (job.color
            == Color::COLOR),
{
}

/// Each field of a spooled job's record follows its own DEVMODE code
/// alone, whatever the other codes are: paper code 9 is A4 and 8 is A3;
/// orientation code 1 is portrait and 2 landscape; duplex code 1 is
/// one-sided, 2 (vertical) two-sided flipped on the long edge and 3
/// (horizontal) two-sided flipped on the short edge; colour code 1 is
/// black-and-white and 2 colour, and then every page counts in that mode.
/// Id, name, page total and copies are the queued job's.
pub proof fn law_spooled_fields_follow_devmode(job: Job, info: SpooledJob)
    requires
        spooled_job_supported(info),
        job_of_spooled(job, info),
    ensures
        job.paper_size == Size::A4 <==> info.paper_size == 9,
        job.paper_size == Size::A3 <==> info.paper_size == 8,
        job.direction == Orientation::PORTRAIT <==> info.orientation == 1,
        job.direction == Orientation::LANDSCAPE <==> info.orientation == 2,
        job.duplex == Duplex::SIMPLEX <==> info.duplex == 1,
        job.duplex == Duplex::DUPLEX_LONG_EDGE <==> info.duplex == 2,
        job.duplex == Duplex::DUPLEX_SHORT_EDGE <==> info.duplex == 3,
        job.color == Color::BW <==> info.color == 1,
        job.color == Color::COLOR <==> info.color == 2,
        job.color_pages == (if info.color == 2 {
            info.total_pages
        } else {
            0
        }),
        job.bw_pages == (if info.color == 1 {
            info.total_pages
        } else {
            0
        }),
        job.id == info.job_id,
        job.name@ == info.document@,
        job.number == info.total_pages,
        job.copies == info.copies,
{
}

} // verus!
