use rust_printer::job::{Color, Duplex, Orientation, Size};
use rust_printer::parser::ghostpcl::{is_color, GhostPCL, PageImage, Rgb};

fn grey(v: u8) -> Rgb {
    Rgb { r: v, g: v, b: v }
}

fn page(pixels: Vec<Rgb>) -> PageImage {
    PageImage { pixels }
}

#[test]
fn colour_detection() {
    assert!(!is_color(&page(vec![])));
    assert!(!is_color(&page(vec![grey(0), grey(255), grey(17)])));
    assert!(is_color(&page(vec![grey(0), Rgb { r: 1, g: 1, b: 2 }])));
    assert!(is_color(&page(vec![Rgb { r: 9, g: 1, b: 1 }])));
}

#[test]
fn job_statistics() {
    let pages = vec![
        page(vec![grey(1)]),
        page(vec![grey(1), Rgb { r: 255, g: 0, b: 0 }]),
        page(vec![]),
        page(vec![Rgb { r: 0, g: 9, b: 9 }]),
    ];
    let job = GhostPCL::job_from_pages(
        &pages,
        "20241005213611".to_string(),
        2,
        Size::A4,
        Orientation::LANDSCAPE,
        Duplex::DUPLEX_LONG_EDGE,
    );
    assert_eq!(job.id, 0);
    assert_eq!(job.name, "20241005213611");
    assert_eq!(job.number, 4);
    assert_eq!(job.color_pages, 2);
    assert_eq!(job.bw_pages, 2);
    assert_eq!(job.color_map, "0101");
    assert_eq!(job.color, Color::COLOR);
    assert_eq!(job.copies, 2);
    assert_eq!(job.paper_size, Size::A4);
    assert_eq!(job.direction, Orientation::LANDSCAPE);
    assert_eq!(job.duplex, Duplex::DUPLEX_LONG_EDGE);
    assert_eq!(job.bw_pages + job.color_pages, job.number);
}

#[test]
fn black_and_white_job() {
    let pages = vec![page(vec![grey(3)]), page(vec![grey(200)])];
    let job = GhostPCL::job_from_pages(&pages, String::new(), 1, Size::A3, Orientation::PORTRAIT, Duplex::SIMPLEX);
    assert_eq!(job.color, Color::BW);
    assert_eq!(job.color_map, "00");
    assert_eq!(job.bw_pages, 2);
    let none = GhostPCL::job_from_pages(&vec![], String::new(), 1, Size::A3, Orientation::PORTRAIT, Duplex::SIMPLEX);
    assert_eq!(none.number, 0);
    assert_eq!(none.color, Color::BW);
    assert_eq!(none.color_map, "");
}

#[test]
fn job_carries_given_name() {
    let g = GhostPCL { temp_dir: ".".to_string() };
    let job = g.get_job(
        &vec![page(vec![grey(0)])],
        "20240131235959".to_string(),
        1,
        Size::A4,
        Orientation::PORTRAIT,
        Duplex::SIMPLEX,
    );
    assert_eq!(job.name, "20240131235959");
    assert_eq!(job.id, 0);
    assert_eq!(job.number, 1);
    assert_eq!(job.color_map, "0");
}

#[test]
fn test_png() {
    let g = GhostPCL { temp_dir: ".".to_string() };
    let red = Rgb { r: 200, g: 10, b: 10 };
    let pages = vec![page(vec![grey(255), red]), page(vec![grey(0)]), page(vec![red])];
    let job = g.get_job(
        &pages,
        "20250102030405".to_string(),
        2,
        Size::A3,
        Orientation::LANDSCAPE,
        Duplex::DUPLEX_LONG_EDGE,
    );
    assert_eq!(job.name, "20250102030405");
    assert_eq!(job.number, 3);
    assert_eq!(job.color_pages, 2);
    assert_eq!(job.bw_pages, 1);
    assert_eq!(job.color_map, "101");
    assert_eq!(job.color, Color::COLOR);
    assert_eq!(job.copies, 2);
    assert_eq!(job.paper_size, Size::A3);
    assert_eq!(job.direction, Orientation::LANDSCAPE);
    assert_eq!(job.duplex, Duplex::DUPLEX_LONG_EDGE);
}
