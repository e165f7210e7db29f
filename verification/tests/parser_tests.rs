use rust_printer::job::{Color, Duplex, Orientation, Size};
use rust_printer::parser::nompcl;
use rust_printer::parser::{parse_pcl, DuplexMode, Orientation as PclOrientation, PageSize, PclError};

const HEADER: &[u8] = b"\x1b%-12345X@PJL ENTER LANGUAGE=PCL\r\n\x1bE\x1b&l0O\x1b&l26A\x1b&l7H\x1b&l0S\x1b&l1X";

#[test]
fn nompcl_reads_header() {
    let job = nompcl::parse_pcl(HEADER).unwrap();
    assert_eq!(job.paper_size, Size::A4);
    assert_eq!(job.direction, Orientation::PORTRAIT);
    assert_eq!(job.duplex, Duplex::SIMPLEX);
    assert_eq!(job.copies, 1);
    assert_eq!(job.id, 0);
    assert_eq!(job.name, "");
    assert_eq!(job.color, Color::BW);
    assert_eq!(job.number, 0);
}

#[test]
fn nompcl_reads_other_values() {
    let job = nompcl::parse_pcl(b"\x1b&l27a\x1b&l1o\x1b&l2s\x1b&l003x").unwrap();
    assert_eq!(job.paper_size, Size::A3);
    assert_eq!(job.direction, Orientation::LANDSCAPE);
    assert_eq!(job.duplex, Duplex::DUPLEX_SHORT_EDGE);
    assert_eq!(job.copies, 3);
    let job = nompcl::parse_pcl(b"\x1b&l26A\x1b&l1O\x1b&l1S\x1b&l2X").unwrap();
    assert_eq!(job.duplex, Duplex::DUPLEX_LONG_EDGE);
}

#[test]
fn nompcl_missing_field() {
    assert_eq!(nompcl::parse_pcl(b"\x1b&l0O\x1b&l0S\x1b&l1X"), Err(PclError::NoMatch));
    assert_eq!(nompcl::parse_pcl(b"\x1b&l26A\x1b&l0S\x1b&l1X"), Err(PclError::NoMatch));
    assert_eq!(nompcl::parse_pcl(b"\x1b&l26A\x1b&l0O\x1b&l1X"), Err(PclError::NoMatch));
    assert_eq!(nompcl::parse_pcl(b"\x1b&l26A\x1b&l0O\x1b&l0S"), Err(PclError::NoMatch));
    assert_eq!(nompcl::parse_pcl(b""), Err(PclError::NoMatch));
}

#[test]
fn nompcl_unknown_page_size() {
    assert_eq!(
        nompcl::parse_pcl(b"\x1b&l2A\x1b&l0O\x1b&l0S\x1b&l1X"),
        Err(PclError::InvalidPageSize)
    );
    // The page size is read first: its error wins over a missing copies command.
    assert_eq!(nompcl::parse_pcl(b"\x1b&l99A"), Err(PclError::InvalidPageSize));
}

#[test]
fn first_whole_command_wins() {
    // `\x1b&l10O` is no orientation command (one digit only); the next one is.
    let job = nompcl::parse_pcl(b"\x1b&l26A\x1b&l10O\x1b&l1O\x1b&l0O\x1b&l0S\x1b&l1X").unwrap();
    assert_eq!(job.direction, Orientation::LANDSCAPE);
    // Two page-size commands: the first counts.
    let job = nompcl::parse_pcl(b"\x1b&l27A\x1b&l26A\x1b&l0O\x1b&l0S\x1b&l1X").unwrap();
    assert_eq!(job.paper_size, Size::A3);
    // A run of digits not followed by the letter is skipped.
    let job = nompcl::parse_pcl(b"\x1b&l26\x1b&l27A\x1b&l0O\x1b&l0S\x1b&l1X").unwrap();
    assert_eq!(job.paper_size, Size::A3);
}

#[test]
fn non_ascii_bytes_ignored() {
    let with = nompcl::parse_pcl(b"\x1b&l2\xc36A\x1b&l0\xffO\x1b&l0S\x1b&l1X").unwrap();
    let without = nompcl::parse_pcl(b"\x1b&l26A\x1b&l0O\x1b&l0S\x1b&l1X").unwrap();
    assert_eq!(with, without);
    assert_eq!(with.paper_size, Size::A4);
}

#[test]
fn report_reads_header_and_pages() {
    let mut stream = HEADER.to_vec();
    stream.extend_from_slice(b"page one\x0c\x1bE\x1b*b3Wabcpage two\x0c\x1bE");
    let r = parse_pcl(&stream);
    assert_eq!(r.orientation, Ok(PclOrientation::PORTRAIT));
    assert_eq!(r.page_size, Ok(PageSize::A4));
    assert_eq!(r.duplex, Ok(DuplexMode::SIMPLEX));
    assert_eq!(r.pages, 3);
}

#[test]
fn report_errors() {
    let r = parse_pcl(b"\x1b&l5A");
    assert_eq!(r.orientation, Err(PclError::NoMatch));
    assert_eq!(r.page_size, Err(PclError::InvalidPageSize));
    assert_eq!(r.duplex, Err(PclError::NoMatch));
    assert_eq!(r.pages, 1);
    assert_eq!(PclError::NoMatch.message(), "No match found");
    assert_eq!(PclError::InvalidPageSize.message(), "Invalid page size value");
}

#[test]
fn report_takes_raster_commands_out() {
    // Taking the raster-data command out joins the page-size command.
    let r = parse_pcl(b"\x1b&l\x1b*b12W27A\x1b&l1O\x1b&l1S");
    assert_eq!(r.page_size, Ok(PageSize::A3));
    assert_eq!(r.orientation, Ok(PclOrientation::LANDSCAPE));
    assert_eq!(r.duplex, Ok(DuplexMode::DUPLEX_LONG_EDGE));
    // A page break hidden by a raster command is counted once it is out.
    let r = parse_pcl(b"x\x0c\x1b*b1W\x1by");
    assert_eq!(r.pages, 2);
    // Only an upper-case `W` ends a raster-data command.
    let r = parse_pcl(b"\x1b*b1w\x0c\x1b");
    assert_eq!(r.pages, 2);
}

#[test]
fn report_page_count_edges() {
    assert_eq!(parse_pcl(b"").pages, 1);
    assert_eq!(parse_pcl(b"\x0c\x1b").pages, 2);
    assert_eq!(parse_pcl(b"\x0c\x0c\x1b\x1b").pages, 2);
    assert_eq!(parse_pcl(b"a\x0c\x1bb\x0c\x1bc").pages, 3);
}

#[test]
fn report_non_ascii_bytes_ignored() {
    let a = parse_pcl(b"\x1b&l26A\x0c\xe9\x1b\x1b&l1O");
    let b = parse_pcl(b"\x1b&l26A\x0c\x1b\x1b&l1O");
    assert_eq!(a, b);
    assert_eq!(a.pages, 2);
}

#[test]
fn header_fixed_by_first_commands() {
    let head = b"\x1b&l26A\x1b&l1O\x1b&l2S\x1b&l4X".to_vec();
    let first = nompcl::parse_pcl(&head).unwrap();
    for tail in [&b"\x1b&l27A\x1b&l0O\x1b&l0S\x1b&l9X"[..], b"123", b"\x1b&l", b"\xff\xfe"] {
        let mut s = head.clone();
        s.extend_from_slice(tail);
        assert_eq!(nompcl::parse_pcl(&s).unwrap(), first);
    }
}

#[test]
fn checked_parse() {
    assert_eq!(nompcl::parse_pcl_checked(b"\x1b&l300A\x1b&l0O\x1b&l0S\x1b&l1X"), None);
    assert_eq!(nompcl::parse_pcl_checked(b"\x1b&l26A\x1b&l0O\x1b&l0S\x1b&l5000000000X"), None);
    assert_eq!(
        nompcl::parse_pcl_checked(b"\x1b&l25A\x1b&l0O\x1b&l0S\x1b&l5000000000X"),
        Some(Err(PclError::InvalidPageSize))
    );
    assert_eq!(
        nompcl::parse_pcl_checked(b"\x1b&l26A\x1b&l0O\x1b&l5000000000X"),
        Some(Err(PclError::NoMatch))
    );
    let job = nompcl::parse_pcl_checked(b"\x1b&l26A\x1b&l0O\x1b&l0S\x1b&l4294967295X").unwrap().unwrap();
    assert_eq!(job.copies, 4294967295);
    assert_eq!(job.paper_size, Size::A4);
}

#[test]
fn mod_test() {
    let mut stream = b"\x1b%-12345X@PJL ENTER LANGUAGE=PCL\r\n\x1bE\x1b&l1O\x1b&l27A\x1b&l2S\x1b&l2X".to_vec();
    stream.extend_from_slice(b"first page\x0c\x1bE\x1b*b4Wdatasecond page\x0c\x1bEthird");
    let r = parse_pcl(&stream);
    assert_eq!(r.orientation, Ok(PclOrientation::LANDSCAPE));
    assert_eq!(r.page_size, Ok(PageSize::A3));
    assert_eq!(r.duplex, Ok(DuplexMode::DUPLEX_SHORT_EDGE));
    assert_eq!(r.pages, 3);
}

#[test]
fn nompcl_test() {
    let mut stream = b"\x1b%-12345X@PJL ENTER LANGUAGE=PCL\r\n\x1bE\x1b&l1O\x1b&l27A\x1b&l2S\x1b&l2X".to_vec();
    stream.extend_from_slice(b"first page\x0c\x1bE\x1b*b4Wdatasecond page\x0c\x1bEthird");
    let job = nompcl::parse_pcl(&stream).unwrap();
    assert_eq!(job.direction, Orientation::LANDSCAPE);
    assert_eq!(job.paper_size, Size::A3);
    assert_eq!(job.duplex, Duplex::DUPLEX_SHORT_EDGE);
    assert_eq!(job.copies, 2);
    assert_eq!(job.id, 0);
    assert_eq!(job.name, "");
}
