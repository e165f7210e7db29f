use rust_printer::client::basic::{AUTH_CHECK_PATH, UPLOAD_JOB_PATH, UPLOAD_PREVIEW_PATH};
use rust_printer::client::model::{StatusCodeResponse, WaitUserInResponse, WaitUserResult};
use rust_printer::client::Client;
use rust_printer::job::{Color, Duplex, Job, Orientation, Size};

fn job(color: Color, duplex: Duplex, number: u32) -> Job {
    Job {
        id: 17,
        name: "屏幕截图 2024-10-02 233633".to_string(),
        color,
        bw_pages: if color == Color::BW { number } else { 0 },
        color_pages: if color == Color::COLOR { number } else { 0 },
        color_map: String::new(),
        number,
        copies: 2,
        paper_size: Size::A4,
        direction: Orientation::PORTRAIT,
        duplex,
    }
}

#[test]
fn sz_attribute_examples() {
    assert_eq!(Client::job_to_sz_attribute(&job(Color::BW, Duplex::SIMPLEX, 1)), "single,collate,NUP1,");
    assert_eq!(
        Client::job_to_sz_attribute(&job(Color::COLOR, Duplex::DUPLEX_LONG_EDGE, 1)),
        "color,vdup,collate,NUP1,"
    );
    assert_eq!(
        Client::job_to_sz_attribute(&job(Color::COLOR, Duplex::DUPLEX_SHORT_EDGE, 1)),
        "color,hdup,collate,NUP1,"
    );
    assert_eq!(
        Client::job_to_sz_attribute(&job(Color::BW, Duplex::DUPLEX_SHORT_EDGE, 1)),
        "single,hdup,collate,NUP1,"
    );
}

#[test]
fn paper_detail_simplex() {
    assert_eq!(
        Client::job_to_paper_detail(&job(Color::BW, Duplex::SIMPLEX, 1)),
        "[{\"dwPaperID\":9,\"dwBWPages\":1,\"dwColorPages\":0,\"dwPaperNum\":1}]"
    );
    let mut j = job(Color::COLOR, Duplex::SIMPLEX, 5);
    j.paper_size = Size::A3;
    assert_eq!(
        Client::job_to_paper_detail(&j),
        "[{\"dwPaperID\":8,\"dwBWPages\":0,\"dwColorPages\":5,\"dwPaperNum\":5}]"
    );
}

#[test]
fn paper_detail_duplex_rounds_up() {
    assert_eq!(
        Client::job_to_paper_detail(&job(Color::BW, Duplex::DUPLEX_LONG_EDGE, 5)),
        "[{\"dwPaperID\":9,\"dwBWPages\":5,\"dwColorPages\":0,\"dwPaperNum\":3}]"
    );
    assert_eq!(
        Client::job_to_paper_detail(&job(Color::BW, Duplex::DUPLEX_SHORT_EDGE, 4)),
        "[{\"dwPaperID\":9,\"dwBWPages\":4,\"dwColorPages\":0,\"dwPaperNum\":2}]"
    );
    assert_eq!(
        Client::job_to_paper_detail(&job(Color::BW, Duplex::DUPLEX_SHORT_EDGE, 0)),
        "[{\"dwPaperID\":9,\"dwBWPages\":0,\"dwColorPages\":0,\"dwPaperNum\":0}]"
    );
}

#[test]
fn paper_detail_large_numbers() {
    let j = job(Color::BW, Duplex::SIMPLEX, 4294967295);
    assert_eq!(
        Client::job_to_paper_detail(&j),
        "[{\"dwPaperID\":9,\"dwBWPages\":4294967295,\"dwColorPages\":0,\"dwPaperNum\":4294967295}]"
    );
}

#[test]
fn create_job_request_fields() {
    let r = Client::create_job_request(&job(Color::BW, Duplex::SIMPLEX, 3));
    assert_eq!(r.dw_property, 0);
    assert_eq!(r.sz_job_name, "屏幕截图 2024-10-02 233633");
    assert_eq!(r.dw_copies, 2);
    assert_eq!(r.sz_attribe, "single,collate,NUP1,");
    assert_eq!(r.sz_paper_detail, "[{\"dwPaperID\":9,\"dwBWPages\":3,\"dwColorPages\":0,\"dwPaperNum\":3}]");
    assert_eq!(r.sz_color_map, "000");
    let r = Client::create_job_request(&job(Color::COLOR, Duplex::DUPLEX_LONG_EDGE, 5));
    assert_eq!(r.sz_color_map, "11111");
    assert_eq!(r.sz_attribe, "color,vdup,collate,NUP1,");
}

#[test]
fn set_job_request_takes_session_id() {
    let r = Client::set_job_request(167523, "OSESSIONID=2a50d60c07f44c0aace049be7aff5fcf");
    assert_eq!(r.dw_job_id, 167523);
    assert_eq!(r.dw_status, 1);
    assert_eq!(r.osession_id, "2a50d60c07f44c0aace049be7aff5fcf");
    let r = Client::set_job_request(1, "OSESSIONID=");
    assert_eq!(r.osession_id, "");
}

#[test]
fn login_url_carries_token() {
    assert_eq!(
        Client::login_url("abc123"),
        "http://pay.unifound.net/uniwx/s.aspx?c=uniauth_1_abc123"
    );
}

#[test]
fn urls() {
    let c = Client::with_base_url("https://example.org");
    assert_eq!(c.base_url, "https://example.org/");
    assert_eq!(Client::endpoint(&c.base_url, AUTH_CHECK_PATH), "https://example.org//api/client/Auth/Check");
    assert_eq!(
        Client::job_endpoint("https://example.org", UPLOAD_JOB_PATH, 167523),
        "https://example.org/api/client/PrintJob/Upload?dwJobId=167523"
    );
    assert_eq!(
        Client::job_endpoint("https://example.org", UPLOAD_PREVIEW_PATH, 0),
        "https://example.org/api/client/PrintJob/UploadPreview?dwJobId=0"
    );
    assert_eq!(
        Client::wait_user_in_url("https://example.org", 1728135371000),
        "https://example.org/api/client/Auth/WaitUserIn?_=1728135371000"
    );
}

#[test]
fn responses() {
    let ok = StatusCodeResponse { code: 0, message: String::new() };
    let bad = StatusCodeResponse { code: -1, message: "no".to_string() };
    assert!(ok.is_success());
    assert!(!bad.is_success());
    let mut w = WaitUserInResponse::default();
    assert!(!w.signed_in());
    w.result = Some(WaitUserResult::default());
    assert!(w.signed_in());
}

#[test]
fn base_url_is_normalised() {
    assert_eq!(Client::with_base_url("http://Host:80").base_url, "http://host/");
    assert_eq!(Client::with_base_url("https://a.b/c?d").base_url, "https://a.b/c?d");
    assert!(Client::try_with_base_url("not a url").is_none());
    assert_eq!(Client::try_with_base_url("HTTPS://X.ORG:443/").unwrap().base_url, "https://x.org/");
}
