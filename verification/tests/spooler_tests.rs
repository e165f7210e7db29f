use rust_printer::client::Client;
use rust_printer::job::{Color, Duplex, Orientation, Size};
use rust_printer::spooler::{SpooledJob, WindowsSpooler};

fn info(color: i16, pages: u32) -> SpooledJob {
    SpooledJob {
        job_id: 6,
        document: "report.pdf".to_string(),
        total_pages: pages,
        paper_size: 9,
        orientation: 2,
        duplex: 2,
        color,
        copies: 3,
    }
}

#[test]
fn colour_job_from_spooler() {
    let job = WindowsSpooler::job_from_info(info(2, 4));
    assert_eq!(job.id, 6);
    assert_eq!(job.name, "report.pdf");
    assert_eq!(job.number, 4);
    assert_eq!(job.color, Color::COLOR);
    assert_eq!(job.color_pages, 4);
    assert_eq!(job.bw_pages, 0);
    assert_eq!(job.color_map, "1111");
    assert_eq!(job.paper_size, Size::A4);
    assert_eq!(job.direction, Orientation::LANDSCAPE);
    assert_eq!(job.duplex, Duplex::DUPLEX_LONG_EDGE);
    assert_eq!(job.copies, 3);
}

#[test]
fn black_and_white_job_from_spooler() {
    let mut i = info(1, 3);
    i.paper_size = 8;
    i.orientation = 1;
    i.duplex = 3;
    let job = WindowsSpooler::job_from_info(i);
    assert_eq!(job.color, Color::BW);
    assert_eq!(job.bw_pages, 3);
    assert_eq!(job.color_pages, 0);
    assert_eq!(job.color_map, "000");
    assert_eq!(job.paper_size, Size::A3);
    assert_eq!(job.direction, Orientation::PORTRAIT);
    assert_eq!(job.duplex, Duplex::DUPLEX_SHORT_EDGE);
    assert_eq!(job.bw_pages + job.color_pages, job.number);
}

#[test]
fn windows_test() {
    let job = WindowsSpooler::job_from_info(info(2, 4));
    assert_eq!(job.number, 4);
    assert_eq!(Client::job_to_sz_attribute(&job), "color,vdup,collate,NUP1,");
    assert_eq!(
        Client::job_to_paper_detail(&job),
        "[{\"dwPaperID\":9,\"dwBWPages\":0,\"dwColorPages\":4,\"dwPaperNum\":2}]"
    );
}
