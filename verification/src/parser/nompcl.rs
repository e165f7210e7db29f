//! Reading a job record out of a PCL print stream.
//!
//! The record takes paper size, orientation, duplex mode and copies from
//! the first command of each kind among the stream's ASCII bytes; all other
//! fields keep their default values.
use vstd::prelude::*;
use crate::job::{Duplex, Job, Orientation, Size};
use crate::parser::grammar::{
    ascii_filter, first_single, keep_ascii, lemma_first_single_bounds, lemma_ascii_filter_concat, lemma_ascii_filter_drops,
    lemma_first_run_value_append, lemma_first_single_value_append, read_run, read_run_bounded,
    read_single,
};
use crate::parser::{
    copies_code, duplex_digit, orientation_digit, page_size_code, page_size_fits, PclError,
    COPIES_LETTER, DUPLEX_LETTER, ORIENTATION_LETTER, PAGE_SIZE_LETTER, PCL_A3, PCL_A4,
};

verus! {

/// The orientation that `buf` gives.
pub open spec fn orientation_of(buf: Seq<u8>) -> Result<Orientation, PclError> {
    match orientation_digit(buf) {
        Some(v) => if v == 0 {
            Ok(Orientation::PORTRAIT)
        } else {
            Ok(Orientation::LANDSCAPE)
        },
        None => Err(PclError::NoMatch),
    }
}

/// The paper size that `buf` gives.
pub open spec fn paper_size_of(buf: Seq<u8>) -> Result<Size, PclError> {
    match page_size_code(buf) {
        Some(v) => if v == PCL_A4 {
            Ok(Size::A4)
        } else if v == PCL_A3 {
            Ok(Size::A3)
        } else {
            Err(PclError::InvalidPageSize)
        },
        None => Err(PclError::NoMatch),
    }
}

/// The duplex mode that `buf` gives.
pub open spec fn duplex_of(buf: Seq<u8>) -> Result<Duplex, PclError> {
    match duplex_digit(buf) {
        Some(v) => if v == 0 {
            Ok(Duplex::SIMPLEX)
        } else if v == 1 {
            Ok(Duplex::DUPLEX_LONG_EDGE)
        } else {
            Ok(Duplex::DUPLEX_SHORT_EDGE)
        },
        None => Err(PclError::NoMatch),
    }
}

/// The number of copies that `buf` gives.
pub open spec fn copies_of(buf: Seq<u8>) -> Result<nat, PclError> {
    match copies_code(buf) {
        Some(v) => Ok(v),
        None => Err(PclError::NoMatch),
    }
}

/// The header fields read in order (paper size, orientation, duplex,
/// copies); the first that cannot be read gives the error.
pub open spec fn header_of(buf: Seq<u8>) -> Result<(Size, Orientation, Duplex, nat), PclError> {
    match paper_size_of(buf) {
        Err(e) => Err(e),
        Ok(p) => match orientation_of(buf) {
            Err(e) => Err(e),
            Ok(o) => match duplex_of(buf) {
                Err(e) => Err(e),
                Ok(d) => match copies_of(buf) {
                    Err(e) => Err(e),
                    Ok(c) => Ok((p, o, d, c)),
                },
            },
        },
    }
}

/// The inputs that can be read: the page-size number fits a `u8`, and once
/// the other fields are read, the number of copies fits a `u32`.
pub open spec fn header_readable(buf: Seq<u8>) -> bool {
    &&& page_size_fits(buf)
    &&& header_of(buf) matches Ok((_p, _o, _d, c)) ==> c <= u32::MAX
}

/// `job` is the default job with the given header fields.
pub open spec fn job_with_header(job: Job, h: (Size, Orientation, Duplex, nat)) -> bool {
    &&& job.paper_size == h.0
    &&& job.direction == h.1
    &&& job.duplex == h.2
    &&& job.copies == h.3
    &&& job.id == 0
    &&& job.name@ == Seq::<char>::empty()
    &&& job.color == crate::job::Color::BW
    &&& job.bw_pages == 0
    &&& job.color_pages == 0
    &&& job.color_map@ == Seq::<char>::empty()
    &&& job.number == 0
}

fn parse_orientation(input: &[u8]) -> (r: Result<Orientation, PclError>)
    ensures
        r == orientation_of(input@),
{
    match read_single(input, 48, 49, ORIENTATION_LETTER) {
        Some(d) => if d == 0 {
            Ok(Orientation::PORTRAIT)
        } else {
            Ok(Orientation::LANDSCAPE)
        },
        None => Err(PclError::NoMatch),
    }
}

fn parse_paper_size(input: &[u8]) -> (r: Result<Size, PclError>)
    requires
        page_size_fits(input@),
    ensures
        r == paper_size_of(input@),
{
    match read_run(input, PAGE_SIZE_LETTER) {
        Some(v) => if v == PCL_A4 {
            Ok(Size::A4)
        } else if v == PCL_A3 {
            Ok(Size::A3)
        } else {
            Err(PclError::InvalidPageSize)
        },
        None => Err(PclError::NoMatch),
    }
}

fn parse_duplex_binding(input: &[u8]) -> (r: Result<Duplex, PclError>)
    ensures
        r == duplex_of(input@),
{
    match read_single(input, 48, 50, DUPLEX_LETTER) {
        Some(d) => if d == 0 {
            Ok(Duplex::SIMPLEX)
        } else if d == 1 {
            Ok(Duplex::DUPLEX_LONG_EDGE)
        } else {
            Ok(Duplex::DUPLEX_SHORT_EDGE)
        },
        None => Err(PclError::NoMatch),
    }
}

fn parse_copies(input: &[u8]) -> (r: Result<u32, PclError>)
    requires
        copies_code(input@) matches Some(v) ==> v <= u32::MAX,
    ensures
        match copies_of(input@) {
            Ok(v) => r == Ok::<u32, PclError>(v as u32),
            Err(e) => r == Err::<u32, PclError>(e),
        },
{
    match read_run(input, COPIES_LETTER) {
        Some(v) => Ok(v as u32),
        None => Err(PclError::NoMatch),
    }
}

/// Reads a job record from the bytes of a PCL print stream.
pub fn parse_pcl(contents: &[u8]) -> (r: Result<Job, PclError>)
    requires
        header_readable(ascii_filter(contents@)),
    ensures
        match header_of(ascii_filter(contents@)) {
            Ok(h) => r matches Ok(job) && job_with_header(job, h),
            Err(e) => r == Err::<Job, PclError>(e),
        },
{
    let ascii = keep_ascii(contents);
    let buffer = ascii.as_slice();
    let paper_size = match parse_paper_size(buffer) {
        Ok(p) => p,
        Err(e) => return Err(e),
    };
    let direction = match parse_orientation(buffer) {
        Ok(o) => o,
        Err(e) => return Err(e),
    };
    let duplex = match parse_duplex_binding(buffer) {
        Ok(d) => d,
        Err(e) => return Err(e),
    };
    let copies = match parse_copies(buffer) {
        Ok(c) => c,
        Err(e) => return Err(e),
    };
    let job = Job::default();
    Ok(Job { paper_size, direction, duplex, copies, ..job })
}

/// Reads a job record from the bytes of a PCL print stream, where that can
/// be done: `None` when the page-size number does not fit a `u8`, or the
/// number of copies does not fit a `u32` once the other fields are read.
pub fn parse_pcl_checked(contents: &[u8]) -> (r: Option<Result<Job, PclError>>)
    ensures
        r is None <==> !header_readable(ascii_filter(contents@)),
        r matches Some(res) ==> match header_of(ascii_filter(contents@)) {
            Ok(h) => res matches Ok(job) && job_with_header(job, h),
            Err(e) => res == Err::<Job, PclError>(e),
        },
{
    let ascii = keep_ascii(contents);
    let buffer = ascii.as_slice();
    if read_run_bounded(buffer, PAGE_SIZE_LETTER, 255).is_none() {
        return None;
    }
    let head = match parse_paper_size(buffer) {
        Ok(_) => match parse_orientation(buffer) {
            Ok(_) => match parse_duplex_binding(buffer) {
                Ok(_) => true,
                Err(_) => false,
            },
            Err(_) => false,
        },
        Err(_) => false,
    };
    if head && read_run_bounded(buffer, COPIES_LETTER, 4294967295).is_none() {
        return None;
    }
    Some(parse_pcl(contents))
}

/// Bytes outside ASCII never change what is read: taking one out of the
/// stream, wherever it stands, gives the same header.
pub proof fn law_non_ascii_bytes_ignored(a: Seq<u8>, b: u8, c: Seq<u8>)
    requires
        b >= 128,
    ensures
        header_of(ascii_filter(a + seq![b] + c)) == header_of(ascii_filter(a + c)),
        header_readable(ascii_filter(a + seq![b] + c)) == header_readable(ascii_filter(a + c)),
{
    lemma_ascii_filter_drops(a, b, c);
}

/// The first command of each kind counts: once a stream holds all four
/// header commands, whatever follows never changes the header read from
/// it.
pub proof fn law_header_fixed_by_first_commands(a: Seq<u8>, b: Seq<u8>)
    requires
        header_of(ascii_filter(a)) is Ok,
    ensures
        header_of(ascii_filter(a + b)) == header_of(ascii_filter(a)),
        header_readable(ascii_filter(a + b)) == header_readable(ascii_filter(a)),
{
    let fa = ascii_filter(a);
    let fb = ascii_filter(b);
    lemma_ascii_filter_concat(a, b);
    lemma_first_run_value_append(fa, fb, PAGE_SIZE_LETTER);
    lemma_first_single_value_append(fa, fb, 48, 49, ORIENTATION_LETTER);
    lemma_first_single_value_append(fa, fb, 48, 50, DUPLEX_LETTER);
    lemma_first_run_value_append(fa, fb, COPIES_LETTER);
}

/// Each header field is read from its own command alone, whatever the
/// other commands say. Among the ASCII bytes of the stream, the duplex mode
/// is one-sided, long-edge or short-edge as the digit of the first
/// `ESC & l <d> S` command is `0`, `1` or `2`; the orientation is portrait
/// or landscape as the digit of the first `ESC & l <d> O` command is `0` or
/// `1`; the paper size is A4 for page-size number 26 and A3 for 27; the
/// copies are the number of the first `ESC & l <n> X` command.
pub proof fn law_header_fields_follow_commands(
    contents: Seq<u8>,
    h: (Size, Orientation, Duplex, nat),
    job: Job,
)
    requires
        header_of(ascii_filter(contents)) == Ok::<(Size, Orientation, Duplex, nat), PclError>(h),
        job_with_header(job, h),
    ensures
        first_single(ascii_filter(contents), 48, 50, DUPLEX_LETTER) matches Some(i) && {
            let f = ascii_filter(contents);
            &&& (job.duplex == Duplex::SIMPLEX <==> f[i + 3] == 48)
            &&& (job.duplex == Duplex::DUPLEX_LONG_EDGE <==> f[i + 3] == 49)
            &&& (job.duplex == Duplex::DUPLEX_SHORT_EDGE <==> f[i + 3] == 50)
        },
        first_single(ascii_filter(contents), 48, 49, ORIENTATION_LETTER) matches Some(i) && {
            let f = ascii_filter(contents);
            &&& (job.direction == Orientation::PORTRAIT <==> f[i + 3] == 48)
            &&& (job.direction == Orientation::LANDSCAPE <==> f[i + 3] == 49)
        },
        job.paper_size == Size::A4 <==> page_size_code(ascii_filter(contents)) == Some(26nat),
        job.paper_size == Size::A3 <==> page_size_code(ascii_filter(contents)) == Some(27nat),
        copies_code(ascii_filter(contents)) == Some(job.copies as nat),
{
    let f = ascii_filter(contents);
    lemma_first_single_bounds(f, 48, 50, DUPLEX_LETTER, 0);
    lemma_first_single_bounds(f, 48, 49, ORIENTATION_LETTER, 0);
}

/// When the header can be read, and which error it gives otherwise: it is
/// read exactly when the stream has a page-size command with number 26 or
/// 27, an orientation command, a duplex command and a copies command; a
/// page-size number other than 26 and 27 is an invalid page size, whatever
/// else is missing; any other missing command is no match.
pub proof fn law_header_errors(contents: Seq<u8>)
    ensures
        header_of(ascii_filter(contents)) is Ok <==> {
            let f = ascii_filter(contents);
            &&& (page_size_code(f) == Some(26nat) || page_size_code(f) == Some(27nat))
            &&& first_single(f, 48, 49, ORIENTATION_LETTER) is Some
            &&& first_single(f, 48, 50, DUPLEX_LETTER) is Some
            &&& copies_code(f) is Some
        },
        header_of(ascii_filter(contents)) == Err::<(Size, Orientation, Duplex, nat), PclError>(
            PclError::InvalidPageSize,
        ) <==> (page_size_code(ascii_filter(contents)) matches Some(v) && v != 26 && v != 27),
        header_of(ascii_filter(contents)) is Err ==> header_of(ascii_filter(contents)) == Err::<
            (Size, Orientation, Duplex, nat),
            PclError,
        >(PclError::InvalidPageSize) || header_of(ascii_filter(contents)) == Err::<
            (Size, Orientation, Duplex, nat),
            PclError,
        >(PclError::NoMatch),
{
}

} // verus!
