use rust_printer::app::{AppMessage, OS};
use rust_printer::job::Job;
use rust_printer::prog::{Action, Event, Prog, Stage};

fn job(id: u32) -> Job {
    let mut j = Job::default();
    j.id = id;
    j.name = "doc".to_string();
    j
}

#[test]
fn server_round_signed_in() {
    let mut p = Prog::new(OS::Others, "/tmp/rupm".to_string());
    assert_eq!(p.temp_dir, "/tmp/rupm");
    assert_eq!(p.step(Event::Done), Action::ReceiveAppMessage);
    assert_eq!(p.step(Event::AppMessage(Some(AppMessage::Port(9100)))), Action::ReceiveStream);
    assert_eq!(p.port, 9100);
    assert_eq!(p.pcl_file_path, "/tmp/rupm/temp.bin");
    assert_eq!(p.step(Event::JobReady(job(0))), Action::CheckFile);
    assert_eq!(p.pcl_file_path, "/tmp/rupm/temp.bin");
    assert_eq!(p.step(Event::FileExists(true)), Action::Compress);
    assert_eq!(p.compressed_path, "/tmp/rupm/0.tmp2");
    assert_eq!(p.step(Event::Done), Action::CheckLogin);
    assert_eq!(p.step(Event::LoggedIn(true)), Action::SaveCookie);
    assert_eq!(p.step(Event::Done), Action::AskConfirm);
    assert_eq!(p.step(Event::Done), Action::ReceiveAppMessage);
    assert_eq!(p.step(Event::AppMessage(Some(AppMessage::Confirm(true)))), Action::CreateJob);
    assert_eq!(p.job.name, "doc");
    assert_eq!(p.step(Event::RemoteJobId(167523)), Action::UploadJob);
    assert_eq!(p.remote_id, 167523);
    assert_eq!(p.step(Event::Done), Action::UploadPreview);
    assert_eq!(p.step(Event::Done), Action::SetJob);
    assert_eq!(p.remote_id, 167523);
    assert_eq!(p.step(Event::Done), Action::SaveCookieAfterSubmit);
    assert_eq!(p.step(Event::Done), Action::NotifySuccess);
    // The next round starts with the default port again.
    assert_eq!(p.step(Event::Done), Action::ReceiveAppMessage);
    assert_eq!(p.port, 6981);
    assert_eq!(p.step(Event::AppMessage(None)), Action::ReceiveStream);
    assert_eq!(p.port, 6981);
}

#[test]
fn server_round_sign_in_and_cancel() {
    let mut p = Prog::new(OS::Others, "t".to_string());
    p.step(Event::Done);
    p.step(Event::AppMessage(Some(AppMessage::Confirm(true))));
    assert_eq!(p.port, 6981);
    p.step(Event::JobReady(job(3)));
    p.step(Event::FileExists(true));
    p.step(Event::Done);
    assert_eq!(p.step(Event::LoggedIn(false)), Action::GetToken);
    assert_eq!(p.step(Event::Token("tok".to_string())), Action::SignIn);
    assert_eq!(p.token, "tok");
    assert_eq!(p.login_url, "http://pay.unifound.net/uniwx/s.aspx?c=uniauth_1_tok");
    assert_eq!(p.step(Event::Done), Action::SaveCookie);
    assert_eq!(p.step(Event::Done), Action::AskConfirm);
    assert_eq!(p.step(Event::Done), Action::ReceiveAppMessage);
    assert_eq!(p.step(Event::AppMessage(Some(AppMessage::Confirm(false)))), Action::CancelJob);
    assert_eq!(p.stage, Stage::Start);
    assert_eq!(p.step(Event::Done), Action::ReceiveAppMessage);
}

#[test]
fn other_answers_submit() {
    let mut p = Prog::new(OS::Others, "t".to_string());
    for e in [Event::Done, Event::AppMessage(None)] {
        p.step(e);
    }
    p.step(Event::JobReady(job(1)));
    p.step(Event::FileExists(true));
    p.step(Event::Done);
    p.step(Event::LoggedIn(true));
    p.step(Event::Done);
    p.step(Event::Done);
    assert_eq!(p.step(Event::AppMessage(Some(AppMessage::Port(1)))), Action::CreateJob);
}

#[test]
fn windows_round() {
    let mut p = Prog::new(OS::Windows((6, "P".to_string())), "ignored".to_string());
    assert_eq!(p.temp_dir, "C:\\upmclient\\temp");
    assert_eq!(p.step(Event::Done), Action::FetchSpoolerJob);
    assert_eq!(p.step(Event::JobReady(job(6))), Action::CheckFile);
    assert_eq!(p.pcl_file_path, "C:\\upmclient\\temp/6.tmp");
    assert_eq!(p.step(Event::FileExists(true)), Action::Compress);
    assert_eq!(p.compressed_path, "C:\\upmclient\\temp/6.tmp2");
    assert_eq!(p.step(Event::Done), Action::CheckLogin);
    assert_eq!(p.step(Event::LoggedIn(true)), Action::SaveCookie);
    assert_eq!(p.step(Event::Done), Action::ConfirmOnConsole);
    assert_eq!(p.step(Event::Done), Action::CreateJob);
    assert_eq!(p.step(Event::RemoteJobId(9)), Action::UploadJob);
    assert_eq!(p.step(Event::Done), Action::UploadPreview);
    assert_eq!(p.step(Event::Done), Action::SetJob);
    assert_eq!(p.step(Event::Done), Action::SaveCookieAfterSubmit);
    assert_eq!(p.step(Event::Done), Action::NotifySuccess);
    assert_eq!(p.step(Event::Done), Action::WaitEnter);
    assert_eq!(p.step(Event::Done), Action::FetchSpoolerJob);
    assert_eq!(p.remote_id, 9);
}

#[test]
fn missing_file_stops() {
    let mut p = Prog::new(OS::Windows((6, "P".to_string())), String::new());
    p.step(Event::Done);
    p.step(Event::JobReady(job(6)));
    assert_eq!(p.step(Event::FileExists(false)), Action::Stop);
    assert_eq!(p.stage, Stage::Stopped);
    assert!(!p.accepts(&Event::Done));
}

#[test]
fn accepted_events() {
    let p = Prog::new(OS::Others, String::new());
    assert!(p.accepts(&Event::Done));
    assert!(!p.accepts(&Event::FileExists(true)));
    assert!(!p.accepts(&Event::Token(String::new())));
}
