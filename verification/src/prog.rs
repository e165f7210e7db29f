//! The decisions of the print loop.
//!
//! The loop takes a job (from the Windows spooler, or from a print stream
//! received by the server and rendered), checks that its PCL file is
//! there, compresses it, signs the user in if needed, has the job
//! confirmed, and submits it; then it starts over. Every outside step is
//! done by the caller: `step` takes what the last step gave and names the
//! next one, which works on the fields of the loop's state.
use vstd::prelude::*;
use crate::app::{AppMessage, OS, DEFAULT_PORT};
use crate::client::basic::login_url_of;
use crate::client::Client;
use crate::job::Job;
use crate::text::{dec, push_dec};

verus! {

/// Where the loop stands: what it waits for.
#[derive(Debug, Clone, Copy, PartialEq, Eq, Structural)]
pub enum Stage {
    /// At the start of a round.
    Start,
    /// For the window's port message.
    AwaitPort,
    /// For the job (from the spooler, or received and rendered).
    AwaitJob,
    /// For whether the PCL file exists.
    AwaitFileCheck,
    /// For the compressed file.
    AwaitCompress,
    /// For whether the session is signed in.
    AwaitLoginCheck,
    /// For a sign-in token.
    AwaitToken,
    /// For the user to sign in.
    AwaitSignIn,
    /// For the session cookie to be saved.
    AwaitCookieSave,
    /// For the user to confirm on the console.
    AwaitConsoleConfirm,
    /// For the window to be asked for confirmation.
    AwaitConfirmNotice,
    /// For the window's confirmation.
    AwaitConfirm,
    /// For the id of the job created at the service.
    AwaitRemoteId,
    /// For the compressed file to be uploaded.
    AwaitUpload,
    /// For the preview to be uploaded.
    AwaitPreview,
    /// For the job to be marked ready.
    AwaitSet,
    /// For the session cookie to be saved after submitting.
    AwaitFinalCookieSave,
    /// For the window to be told of the success.
    AwaitSuccessNotice,
    /// For the user to press Enter (Windows).
    AwaitEnter,
    /// The loop has ended.
    Stopped,
}

/// What the caller reports of the last step.
#[derive(Debug)]
pub enum Event {
    /// The step is done.
    Done,
    /// The job that was fetched or rendered.
    JobReady(Job),
    /// What the window sent, if anything.
    AppMessage(Option<AppMessage>),
    /// Whether the PCL file exists.
    FileExists(bool),
    /// Whether the session is signed in.
    LoggedIn(bool),
    /// A sign-in token.
    Token(String),
    /// The id the service gave the created job.
    RemoteJobId(usize),
}

/// The next step for the caller.
#[derive(Debug, Clone, Copy, PartialEq, Eq, Structural)]
pub enum Action {
    /// Fetch the queued job `job_id` of the printer (from `op_system`).
    FetchSpoolerJob,
    /// Receive the window's next message.
    ReceiveAppMessage,
    /// Listen on `port`, tell the window `WaitSocket`, receive a print
    /// stream into `pcl_file_path`, and render it into a job.
    ReceiveStream,
    /// Tell whether `pcl_file_path` exists.
    CheckFile,
    /// End the loop: the PCL file `pcl_file_path` is missing.
    Stop,
    /// Compress `pcl_file_path` into `compressed_path`.
    Compress,
    /// Load the saved cookie and ask the service whether it is signed in.
    CheckLogin,
    /// Get a sign-in token.
    GetToken,
    /// Show `login_url` (to the window and on the console) and wait until
    /// the user has signed in with `token`.
    SignIn,
    /// Save the session cookie.
    SaveCookie,
    /// Show `job` on the console and wait for the user to go on.
    ConfirmOnConsole,
    /// Send `job` to the window for confirmation.
    AskConfirm,
    /// The job was dropped; start a new round.
    CancelJob,
    /// Create `job` at the service.
    CreateJob,
    /// Upload `compressed_path` for the job `remote_id`.
    UploadJob,
    /// Upload the preview for the job `remote_id`.
    UploadPreview,
    /// Mark the job `remote_id` ready to print.
    SetJob,
    /// Save the session cookie once the job is submitted.
    SaveCookieAfterSubmit,
    /// Tell the window `Success`.
    NotifySuccess,
    /// Wait for the user to press Enter.
    WaitEnter,
}

/// The state of the print loop.
pub struct Prog {
    pub op_system: OS,
    pub temp_dir: String,
    pub stage: Stage,
    pub port: u16,
    pub job: Job,
    pub pcl_file_path: String,
    pub compressed_path: String,
    pub token: String,
    pub login_url: String,
    /// The id the service gave the job being submitted.
    pub remote_id: usize,
}

/// The folder the Windows client keeps its temporary files in.
pub const WINDOWS_TEMP_DIR: &'static str = "C:\\upmclient\\temp";

/// `temp/<id><ext>`: a job's file in the temporary folder.
pub open spec fn job_file(temp: Seq<char>, id: u32, ext: Seq<char>) -> Seq<char> {
    temp + "/"@ + dec(id as nat) + ext
}

/// The file a received print stream is saved to.
pub open spec fn stream_file(temp: Seq<char>) -> Seq<char> {
    temp + "/temp.bin"@
}

/// The events each stage waits for.
pub open spec fn accepts(stage: Stage, event: Event) -> bool {
    match stage {
        Stage::Start => event is Done,
        Stage::AwaitPort => event is AppMessage,
        Stage::AwaitJob => event is JobReady,
        Stage::AwaitFileCheck => event is FileExists,
        Stage::AwaitCompress => event is Done,
        Stage::AwaitLoginCheck => event is LoggedIn,
        Stage::AwaitToken => event is Token,
        Stage::AwaitSignIn => event is Done,
        Stage::AwaitCookieSave => event is Done,
        Stage::AwaitConsoleConfirm => event is Done,
        Stage::AwaitConfirmNotice => event is Done,
        Stage::AwaitConfirm => event is AppMessage,
        Stage::AwaitRemoteId => event is RemoteJobId,
        Stage::AwaitUpload => event is Done,
        Stage::AwaitPreview => event is Done,
        Stage::AwaitSet => event is Done,
        Stage::AwaitFinalCookieSave => event is Done,
        Stage::AwaitSuccessNotice => event is Done,
        Stage::AwaitEnter => event is Done,
        Stage::Stopped => false,
    }
}

/// The window's message drops the job: only `Confirm(false)` does.
pub open spec fn drops_job(m: Option<AppMessage>) -> bool {
    m == Some(AppMessage::Confirm(false))
}

/// The state a round starts in: on Windows, fetching the job from the
/// spooler; otherwise waiting for the port with the default port.
pub open spec fn round_started(old: Prog, new: Prog, a: Action) -> bool {
    &&& new.temp_dir == old.temp_dir
    &&& new.op_system == old.op_system
    &&& new.job == old.job
    &&& new.pcl_file_path == old.pcl_file_path
    &&& new.compressed_path == old.compressed_path
    &&& new.token == old.token
    &&& new.login_url == old.login_url
    &&& match old.op_system {
        OS::Windows(_) => new.stage == Stage::AwaitJob && a == Action::FetchSpoolerJob
            && new.port == old.port,
        OS::Others => new.stage == Stage::AwaitPort && a == Action::ReceiveAppMessage && new.port
            == DEFAULT_PORT,
    }
}

/// `new` is `old` moved to stage `s`, with nothing else changed.
pub open spec fn only_stage(old: Prog, new: Prog, s: Stage) -> bool {
    &&& new.stage == s
    &&& new.temp_dir == old.temp_dir
    &&& new.op_system == old.op_system
    &&& new.port == old.port
    &&& new.job == old.job
    &&& new.pcl_file_path == old.pcl_file_path
    &&& new.compressed_path == old.compressed_path
    &&& new.token == old.token
    &&& new.login_url == old.login_url
}

/// One step of the print loop: the state after `event` and the next
/// action. Only the service's answer to creating the job changes
/// `remote_id`.
pub open spec fn step_spec(old: Prog, event: Event, new: Prog, a: Action) -> bool {
    &&& step_stages(old, event, new, a)
    &&& old.stage == Stage::AwaitRemoteId ==> new.remote_id == event->RemoteJobId_0
    &&& old.stage != Stage::AwaitRemoteId ==> new.remote_id == old.remote_id
}

/// How one step moves the print loop, apart from `remote_id`.
pub open spec fn step_stages(old: Prog, event: Event, new: Prog, a: Action) -> bool {
    match old.stage {
        Stage::Start => round_started(old, new, a),
        Stage::AwaitPort => {
            let m = event->AppMessage_0;
            &&& new.stage == Stage::AwaitJob
            &&& a == Action::ReceiveStream
            &&& new.port == (match m {
                Some(AppMessage::Port(p)) => p,
                _ => old.port,
            })
            &&& new.pcl_file_path@ == stream_file(old.temp_dir@)
            &&& new.temp_dir == old.temp_dir
            &&& new.op_system == old.op_system
            &&& new.job == old.job
            &&& new.compressed_path == old.compressed_path
            &&& new.token == old.token
            &&& new.login_url == old.login_url
        },
        Stage::AwaitJob => {
            let job = event->JobReady_0;
            &&& new.stage == Stage::AwaitFileCheck
            &&& a == Action::CheckFile
            &&& new.job == job
            &&& match old.op_system {
                OS::Windows(_) => new.pcl_file_path@ == job_file(old.temp_dir@, job.id, ".tmp"@),
                OS::Others => new.pcl_file_path == old.pcl_file_path,
            }
            &&& new.temp_dir == old.temp_dir
            &&& new.op_system == old.op_system
            &&& new.port == old.port
            &&& new.compressed_path == old.compressed_path
            &&& new.token == old.token
            &&& new.login_url == old.login_url
        },
        Stage::AwaitFileCheck => if event->FileExists_0 {
            &&& new.stage == Stage::AwaitCompress
            &&& a == Action::Compress
            &&& new.compressed_path@ == job_file(old.temp_dir@, old.job.id, ".tmp2"@)
            &&& new.temp_dir == old.temp_dir
            &&& new.op_system == old.op_system
            &&& new.port == old.port
            &&& new.job == old.job
            &&& new.pcl_file_path == old.pcl_file_path
            &&& new.token == old.token
            &&& new.login_url == old.login_url
        } else {
            only_stage(old, new, Stage::Stopped) && a == Action::Stop
        },
        Stage::AwaitCompress => only_stage(old, new, Stage::AwaitLoginCheck) && a
            == Action::CheckLogin,
        Stage::AwaitLoginCheck => if event->LoggedIn_0 {
            only_stage(old, new, Stage::AwaitCookieSave) && a == Action::SaveCookie
        } else {
            only_stage(old, new, Stage::AwaitToken) && a == Action::GetToken
        },
        Stage::AwaitToken => {
            let token = event->Token_0;
            &&& new.stage == Stage::AwaitSignIn
            &&& a == Action::SignIn
            &&& new.token == token
            &&& new.login_url@ == login_url_of(token@)
            &&& new.temp_dir == old.temp_dir
            &&& new.op_system == old.op_system
            &&& new.port == old.port
            &&& new.job == old.job
            &&& new.pcl_file_path == old.pcl_file_path
            &&& new.compressed_path == old.compressed_path
        },
        Stage::AwaitSignIn => only_stage(old, new, Stage::AwaitCookieSave) && a
            == Action::SaveCookie,
        Stage::AwaitCookieSave => match old.op_system {
            OS::Windows(_) => only_stage(old, new, Stage::AwaitConsoleConfirm) && a
                == Action::ConfirmOnConsole,
            OS::Others => only_stage(old, new, Stage::AwaitConfirmNotice) && a
                == Action::AskConfirm,
        },
        Stage::AwaitConsoleConfirm => only_stage(old, new, Stage::AwaitRemoteId) && a
            == Action::CreateJob,
        Stage::AwaitConfirmNotice => only_stage(old, new, Stage::AwaitConfirm) && a
            == Action::ReceiveAppMessage,
        Stage::AwaitConfirm => if drops_job(event->AppMessage_0) {
            only_stage(old, new, Stage::Start) && a == Action::CancelJob
        } else {
            only_stage(old, new, Stage::AwaitRemoteId) && a == Action::CreateJob
        },
        Stage::AwaitRemoteId => only_stage(old, new, Stage::AwaitUpload) && a
            == Action::UploadJob,
        Stage::AwaitUpload => only_stage(old, new, Stage::AwaitPreview) && a
            == Action::UploadPreview,
        Stage::AwaitPreview => only_stage(old, new, Stage::AwaitSet) && a == Action::SetJob,
        Stage::AwaitSet => only_stage(old, new, Stage::AwaitFinalCookieSave) && a
            == Action::SaveCookieAfterSubmit,
        Stage::AwaitFinalCookieSave => only_stage(old, new, Stage::AwaitSuccessNotice) && a
            == Action::NotifySuccess,
        Stage::AwaitSuccessNotice => match old.op_system {
            OS::Windows(_) => only_stage(old, new, Stage::AwaitEnter) && a == Action::WaitEnter,
            OS::Others => round_started(old, new, a),
        },
        Stage::AwaitEnter => round_started(old, new, a),
        Stage::Stopped => false,
    }
}

/// The stages after the PCL file was found.
pub open spec fn file_found(stage: Stage) -> bool {
    match stage {
        Stage::AwaitCompress | Stage::AwaitLoginCheck | Stage::AwaitToken | Stage::AwaitSignIn
        | Stage::AwaitCookieSave | Stage::AwaitConsoleConfirm | Stage::AwaitConfirmNotice
        | Stage::AwaitConfirm | Stage::AwaitRemoteId | Stage::AwaitUpload | Stage::AwaitPreview
        | Stage::AwaitSet | Stage::AwaitFinalCookieSave | Stage::AwaitSuccessNotice
        | Stage::AwaitEnter => true,
        _ => false,
    }
}

/// What the loop keeps at every step: once the job is known, its PCL file
/// is the job's file in the temporary folder (on Windows `<id>.tmp`,
/// otherwise the received stream); once the file is found, the compressed
/// file is `<id>.tmp2` beside it; and each stage belongs to the mode that
/// uses it.
pub open spec fn prog_inv(p: Prog) -> bool {
    let pcl_ok = match p.op_system {
        OS::Windows(_) => p.pcl_file_path@ == job_file(p.temp_dir@, p.job.id, ".tmp"@),
        OS::Others => p.pcl_file_path@ == stream_file(p.temp_dir@),
    };
    &&& (file_found(p.stage) || p.stage == Stage::AwaitFileCheck) ==> pcl_ok
    &&& file_found(p.stage) ==> p.compressed_path@ == job_file(p.temp_dir@, p.job.id, ".tmp2"@)
    &&& (p.stage == Stage::AwaitJob && p.op_system is Others) ==> p.pcl_file_path@ == stream_file(
        p.temp_dir@,
    )
    &&& (p.stage == Stage::AwaitPort || p.stage == Stage::AwaitConfirmNotice || p.stage
        == Stage::AwaitConfirm) ==> p.op_system is Others
    &&& (p.stage == Stage::AwaitConsoleConfirm || p.stage == Stage::AwaitEnter)
        ==> p.op_system is Windows
}

/// Every step keeps what the loop keeps; so the file that is submitted is
/// the compressed form of the PCL file found for the job that is
/// submitted.
pub proof fn law_step_keeps_invariant(old: Prog, event: Event, new: Prog, a: Action)
    requires
        prog_inv(old),
        accepts(old.stage, event),
        step_spec(old, event, new, a),
    ensures
        prog_inv(new),
        a == Action::UploadJob ==> new.compressed_path@ == job_file(
            new.temp_dir@,
            new.job.id,
            ".tmp2"@,
        ),
{
}

impl Prog {
    /// The loop at the start of its first round. On Windows the temporary
    /// folder is the Windows client's; otherwise it is `temp_dir`.
    pub fn new(op_system: OS, temp_dir: String) -> (p: Prog)
        ensures
            p.stage == Stage::Start,
            p.op_system == op_system,
            p.port == DEFAULT_PORT,
            p.job.is_default(),
            prog_inv(p),
            match op_system {
                OS::Windows(_) => p.temp_dir@ == WINDOWS_TEMP_DIR@,
                OS::Others => p.temp_dir@ == temp_dir@,
            },
    {
        let temp = match &op_system {
            OS::Windows(_) => WINDOWS_TEMP_DIR.to_string(),
            OS::Others => temp_dir,
        };
        Prog {
            op_system,
            temp_dir: temp,
            stage: Stage::Start,
            port: DEFAULT_PORT,
            job: Job::default(),
            pcl_file_path: String::new(),
            compressed_path: String::new(),
            token: String::new(),
            login_url: String::new(),
            remote_id: 0,
        }
    }

    /// Whether the loop waits for `event` now.
    pub fn accepts(&self, event: &Event) -> (r: bool)
        ensures
            r == accepts(self.stage, *event),
    {
        match self.stage {
            Stage::Start => matches!(event, Event::Done),
            Stage::AwaitPort => matches!(event, Event::AppMessage(_)),
            Stage::AwaitJob => matches!(event, Event::JobReady(_)),
            Stage::AwaitFileCheck => matches!(event, Event::FileExists(_)),
            Stage::AwaitCompress => matches!(event, Event::Done),
            Stage::AwaitLoginCheck => matches!(event, Event::LoggedIn(_)),
            Stage::AwaitToken => matches!(event, Event::Token(_)),
            Stage::AwaitSignIn => matches!(event, Event::Done),
            Stage::AwaitCookieSave => matches!(event, Event::Done),
            Stage::AwaitConsoleConfirm => matches!(event, Event::Done),
            Stage::AwaitConfirmNotice => matches!(event, Event::Done),
            Stage::AwaitConfirm => matches!(event, Event::AppMessage(_)),
            Stage::AwaitRemoteId => matches!(event, Event::RemoteJobId(_)),
            Stage::AwaitUpload => matches!(event, Event::Done),
            Stage::AwaitPreview => matches!(event, Event::Done),
            Stage::AwaitSet => matches!(event, Event::Done),
            Stage::AwaitFinalCookieSave => matches!(event, Event::Done),
            Stage::AwaitSuccessNotice => matches!(event, Event::Done),
            Stage::AwaitEnter => matches!(event, Event::Done),
            Stage::Stopped => false,
        }
    }

    fn job_path(temp: &str, id: u32, ext: &str) -> (r: String)
        ensures
            r@ == job_file(temp@, id, ext@),
    {
        let mut s = String::new();
        s.append(temp);
        s.append("/");
        push_dec(&mut s, id as u128);
        s.append(ext);
        s
    }

    fn start_round(&mut self) -> (a: Action)
        ensures
            round_started(*old(self), *final(self), a),
            final(self).remote_id == old(self).remote_id,
    {
        match &self.op_system {
            OS::Windows(_) => {
                self.stage = Stage::AwaitJob;
                Action::FetchSpoolerJob
            },
            OS::Others => {
                self.port = DEFAULT_PORT;
                self.stage = Stage::AwaitPort;
                Action::ReceiveAppMessage
            },
        }
    }

    /// Takes what the last step gave and names the next step.
    pub fn step(&mut self, event: Event) -> (a: Action)
        requires
            accepts(old(self).stage, event),
        ensures
            step_spec(*old(self), event, *final(self), a),
    {
        match self.stage {
            Stage::Start => self.start_round(),
            Stage::AwaitPort => {
                if let Event::AppMessage(Some(AppMessage::Port(p))) = event {
                    self.port = p;
                }
                let mut path = String::new();
                path.append(self.temp_dir.as_str());
                path.append("/temp.bin");
                self.pcl_file_path = path;
                self.stage = Stage::AwaitJob;
                Action::ReceiveStream
            },
            Stage::AwaitJob => {
                if let Event::JobReady(job) = event {
                    if let OS::Windows(_) = &self.op_system {
                        self.pcl_file_path = Self::job_path(self.temp_dir.as_str(), job.id, ".tmp");
                    }
                    self.job = job;
                }
                self.stage = Stage::AwaitFileCheck;
                Action::CheckFile
            },
            Stage::AwaitFileCheck => {
                if let Event::FileExists(true) = event {
                    self.compressed_path = Self::job_path(
                        self.temp_dir.as_str(),
                        self.job.id,
                        ".tmp2",
                    );
                    self.stage = Stage::AwaitCompress;
                    Action::Compress
                } else {
                    self.stage = Stage::Stopped;
                    Action::Stop
                }
            },
            Stage::AwaitCompress => {
                self.stage = Stage::AwaitLoginCheck;
                Action::CheckLogin
            },
            Stage::AwaitLoginCheck => {
                if let Event::LoggedIn(true) = event {
                    self.stage = Stage::AwaitCookieSave;
                    Action::SaveCookie
                } else {
                    self.stage = Stage::AwaitToken;
                    Action::GetToken
                }
            },
            Stage::AwaitToken => {
                if let Event::Token(token) = event {
                    self.login_url = Client::login_url(token.as_str());
                    self.token = token;
                }
                self.stage = Stage::AwaitSignIn;
                Action::SignIn
            },
            Stage::AwaitSignIn => {
                self.stage = Stage::AwaitCookieSave;
                Action::SaveCookie
            },
            Stage::AwaitCookieSave => {
                match &self.op_system {
                    OS::Windows(_) => {
                        self.stage = Stage::AwaitConsoleConfirm;
                        Action::ConfirmOnConsole
                    },
                    OS::Others => {
                        self.stage = Stage::AwaitConfirmNotice;
                        Action::AskConfirm
                    },
                }
            },
            Stage::AwaitConsoleConfirm => {
                self.stage = Stage::AwaitRemoteId;
                Action::CreateJob
            },
            Stage::AwaitConfirmNotice => {
                self.stage = Stage::AwaitConfirm;
                Action::ReceiveAppMessage
            },
            Stage::AwaitConfirm => {
                if let Event::AppMessage(Some(AppMessage::Confirm(false))) = event {
                    self.stage = Stage::Start;
                    Action::CancelJob
                } else {
                    self.stage = Stage::AwaitRemoteId;
                    Action::CreateJob
                }
            },
            Stage::AwaitRemoteId => {
                if let Event::RemoteJobId(id) = event {
                    self.remote_id = id;
                }
                self.stage = Stage::AwaitUpload;
                Action::UploadJob
            },
            Stage::AwaitUpload => {
                self.stage = Stage::AwaitPreview;
                Action::UploadPreview
            },
            Stage::AwaitPreview => {
                self.stage = Stage::AwaitSet;
                Action::SetJob
            },
            Stage::AwaitSet => {
                self.stage = Stage::AwaitFinalCookieSave;
                Action::SaveCookieAfterSubmit
            },
            Stage::AwaitFinalCookieSave => {
                self.stage = Stage::AwaitSuccessNotice;
                Action::NotifySuccess
            },
            Stage::AwaitSuccessNotice => {
                match &self.op_system {
                    OS::Windows(_) => {
                        self.stage = Stage::AwaitEnter;
                        Action::WaitEnter
                    },
                    OS::Others => self.start_round(),
                }
            },
            Stage::AwaitEnter => self.start_round(),
            Stage::Stopped => Action::Stop,
        }
    }
}

/// A job is created at the service only once it has been confirmed: on the
/// console, or by a window answer that does not drop it.
pub proof fn law_submit_only_after_confirmation(old: Prog, event: Event, new: Prog, a: Action)
    requires
        accepts(old.stage, event),
        step_spec(old, event, new, a),
        a == Action::CreateJob,
    ensures
        old.stage == Stage::AwaitConsoleConfirm || (old.stage == Stage::AwaitConfirm && !drops_job(
            event->AppMessage_0,
        )),
        new.job == old.job,
{
}

/// A created job is submitted in order: the compressed file is uploaded,
/// then the preview, then the job is marked ready, then the cookie is
/// saved, and only then is the window told of the success; all three
/// service calls are for the id the service gave when the job was created,
/// and for the same job and compressed file.
pub proof fn law_submission_order(
    s0: Prog,
    id: usize,
    s1: Prog,
    a1: Action,
    s2: Prog,
    a2: Action,
    s3: Prog,
    a3: Action,
    s4: Prog,
    a4: Action,
    s5: Prog,
    a5: Action,
)
    requires
        s0.stage == Stage::AwaitRemoteId,
        step_spec(s0, Event::RemoteJobId(id), s1, a1),
        step_spec(s1, Event::Done, s2, a2),
        step_spec(s2, Event::Done, s3, a3),
        step_spec(s3, Event::Done, s4, a4),
        step_spec(s4, Event::Done, s5, a5),
    ensures
        a1 == Action::UploadJob && s1.remote_id == id,
        a2 == Action::UploadPreview && s2.remote_id == id,
        a3 == Action::SetJob && s3.remote_id == id,
        a4 == Action::SaveCookieAfterSubmit,
        a5 == Action::NotifySuccess,
        s1.job == s0.job && s2.job == s0.job && s3.job == s0.job,
        s1.compressed_path == s0.compressed_path && s2.compressed_path == s0.compressed_path,
{
}

/// A job the window drops is not submitted: the loop goes back to the
/// start of a round.
pub proof fn law_dropped_job_restarts(old: Prog, new: Prog, a: Action)
    requires
        old.stage == Stage::AwaitConfirm,
        step_spec(old, Event::AppMessage(Some(AppMessage::Confirm(false))), new, a),
    ensures
        a == Action::CancelJob,
        new.stage == Stage::Start,
{
}

/// A missing PCL file ends the loop, and nothing is compressed or sent.
pub proof fn law_missing_file_stops(old: Prog, new: Prog, a: Action)
    requires
        old.stage == Stage::AwaitFileCheck,
        step_spec(old, Event::FileExists(false), new, a),
    ensures
        a == Action::Stop,
        new.stage == Stage::Stopped,
        !accepts(new.stage, Event::Done),
{
}

/// A session that is not signed in is never passed over, on any platform:
/// the user is asked to sign in first. The loop gets a token, shows the
/// sign-in page made of that token and waits, and only then saves the
/// cookie and goes on towards creating the job; a signed-in session goes
/// straight to saving the cookie.
pub proof fn law_unsigned_session_signs_in(
    s0: Prog,
    signed_in: bool,
    token: String,
    s1: Prog,
    a1: Action,
    s2: Prog,
    a2: Action,
    s3: Prog,
    a3: Action,
)
    requires
        s0.stage == Stage::AwaitLoginCheck,
        step_spec(s0, Event::LoggedIn(signed_in), s1, a1),
        !signed_in ==> step_spec(s1, Event::Token(token), s2, a2),
        !signed_in ==> step_spec(s2, Event::Done, s3, a3),
    ensures
        signed_in ==> a1 == Action::SaveCookie && s1.stage == Stage::AwaitCookieSave,
        !signed_in ==> {
            &&& a1 == Action::GetToken
            &&& s1.stage == Stage::AwaitToken
            &&& a2 == Action::SignIn
            &&& s2.token == token
            &&& s2.login_url@ == login_url_of(token@)
            &&& a3 == Action::SaveCookie
            &&& s3.stage == Stage::AwaitCookieSave
        },
        s1.op_system == s0.op_system,
{
}

/// The loop reaches the stage that leads on to creating the job (saving
/// the session cookie) in one of two ways only: from the sign-in check
/// with a session that is signed in, or after the user has signed in.
pub proof fn law_cookie_saved_only_when_signed_in(old: Prog, event: Event, new: Prog, a: Action)
    requires
        accepts(old.stage, event),
        step_spec(old, event, new, a),
        new.stage == Stage::AwaitCookieSave,
    ensures
        (old.stage == Stage::AwaitLoginCheck && event == Event::LoggedIn(true)) || old.stage
            == Stage::AwaitSignIn,
{
}

/// `states`, `events` and `actions` are a run of the loop: each state is
/// the one before it stepped with the event between them, which it waits
/// for, giving the action between them.
pub open spec fn is_run(states: Seq<Prog>, events: Seq<Event>, actions: Seq<Action>) -> bool {
    &&& states.len() == events.len() + 1
    &&& actions.len() == events.len()
    &&& forall|i: int|
        0 <= i < events.len() ==> accepts(states[i].stage, #[trigger] events[i]) && step_spec(
            states[i],
            events[i],
            states[i + 1],
            actions[i],
        )
}

/// In a run from the start of a round, on any platform, a job is created
/// at the service only after the session was found signed in or the user
/// signed in: some earlier step is a sign-in check answered `true`, or the
/// wait for the user to sign in.
pub proof fn law_create_job_follows_sign_in(
    states: Seq<Prog>,
    events: Seq<Event>,
    actions: Seq<Action>,
    n: int,
)
    requires
        is_run(states, events, actions),
        states[0].stage == Stage::Start,
        0 <= n < actions.len(),
        actions[n] == Action::CreateJob,
    ensures
        exists|k: int|
            0 <= k < n && ((states[k].stage == Stage::AwaitLoginCheck && #[trigger] events[k]
                == Event::LoggedIn(true)) || states[k].stage == Stage::AwaitSignIn),
{
    assert(accepts(states[n].stage, events[n]));
    law_submit_only_after_confirmation(states[n], events[n], states[n + 1], actions[n]);
    assert(n >= 1);
    assert(accepts(states[n - 1].stage, events[n - 1]));
    let c = if states[n].stage == Stage::AwaitConsoleConfirm {
        n - 1
    } else {
        assert(states[n - 1].stage == Stage::AwaitConfirmNotice);
        assert(n >= 2);
        assert(accepts(states[n - 2].stage, events[n - 2]));
        n - 2
    };
    assert(states[c].stage == Stage::AwaitCookieSave);
    assert(c >= 1);
    assert(accepts(states[c - 1].stage, events[c - 1]));
    law_cookie_saved_only_when_signed_in(states[c - 1], events[c - 1], states[c], actions[c - 1]);
    assert(0 <= c - 1 < n && ((states[c - 1].stage == Stage::AwaitLoginCheck && events[c - 1]
        == Event::LoggedIn(true)) || states[c - 1].stage == Stage::AwaitSignIn));
}

} // verus!
