//! The messages exchanged with the printing service.
//!
//! These are the plain records; their JSON encoding (camel-case field names)
//! is applied where they are sent and received.
use vstd::prelude::*;

verus! {

/// A general status-code response.
#[derive(Default, Debug, Clone, PartialEq)]
pub struct StatusCodeResponse {
    pub code: i64,
    pub message: String,
}

impl StatusCodeResponse {
    /// The service reports success with code 0.
    pub fn is_success(&self) -> (r: bool)
        ensures
            r == (self.code == 0),
    {
        self.code == 0
    }
}

/// The answer to `GET /api/client/Auth/GetAuthToken`.
#[derive(Default, Debug, Clone, PartialEq)]
pub struct GetAuthTokenResponse {
    pub sz_auth_type: String,
    pub sz_info: Option<String>,
    pub sz_token: String,
    pub sz_sta_session_id: Option<String>,
    pub code: i64,
    pub message: String,
    pub result: Option<String>,
}

/// The account that signed in.
#[derive(Default, Debug, Clone, PartialEq)]
pub struct WaitUserResult {
    pub dw_acc_no: i64,
    pub sz_logon_name: String,
    pub sz_alias_name: String,
    pub sz_card_no: String,
    pub sz_i_d_card: String,
    pub sz_true_name: String,
    pub sz_class_name: String,
    pub sz_dept_name: String,
    pub sz_major: Option<String>,
}

/// The answer to `GET /api/client/Auth/WaitUserIn`.
#[derive(Default, Debug, Clone, PartialEq)]
pub struct WaitUserInResponse {
    pub session_id: String,
    pub code: i64,
    pub message: String,
    pub result: Option<WaitUserResult>,
}

impl WaitUserInResponse {
    /// The user has signed in once the answer carries an account.
    pub fn signed_in(&self) -> (r: bool)
        ensures
            r == self.result is Some,
    {
        self.result.is_some()
    }
}

/// `POST /api/client/PrintJob/Create`.
#[derive(Default, Debug, Clone, PartialEq)]
pub struct CreateJobRequest {
    pub dw_property: i64,
    pub sz_job_name: String,
    pub dw_copies: i64,
    /// Such as `single,collate,NUP1,`.
    pub sz_attribe: String,
    /// Such as `[{"dwPaperID":9,"dwBWPages":1,"dwColorPages":0,"dwPaperNum":1}]`.
    pub sz_paper_detail: String,
    /// Such as `0`.
    pub sz_color_map: String,
}

/// The answer to `POST /api/client/PrintJob/Create`.
#[derive(Default, Debug, Clone, PartialEq)]
pub struct CreateJobResponse {
    pub code: i64,
    pub message: String,
    pub result: CreateJobResult,
}

/// The job the service created.
#[derive(Default, Debug, Clone, PartialEq)]
pub struct CreateJobResult {
    /// The account name.
    pub sz_logon_name: String,
    /// The account holder's name.
    pub sz_true_name: String,
    pub dw_job_id: usize,
    pub dw_create_date: i64,
    pub dw_create_time: i64,
    pub sz_file_name: String,
}

/// `POST /api/client/PrintJob/Set`.
#[derive(Default, Debug, Clone, PartialEq)]
pub struct SetJobRequest {
    pub dw_job_id: usize,
    pub dw_status: usize,
    pub osession_id: String,
}

} // verus!
