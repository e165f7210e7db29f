//! What the client sends: request records, attribute strings and URLs.
use vstd::prelude::*;
use crate::client::model::{CreateJobRequest, SetJobRequest};
use crate::client::Client;
use crate::job::{paper_id, Color, Duplex, Job};
use crate::text::{dec, push_dec, repeat_char};

verus! {

/// The attribute string of a job: colour mode, duplex flip, then
/// `collate,NUP1,`; each part ends with a comma.
pub open spec fn sz_attribute(color: Color, duplex: Duplex) -> Seq<char> {
    (if color == Color::BW {
        "single"@
    } else {
        "color"@
    }) + ","@ + (match duplex {
        Duplex::SIMPLEX => Seq::<char>::empty(),
        Duplex::DUPLEX_SHORT_EDGE => "hdup"@ + ","@,
        Duplex::DUPLEX_LONG_EDGE => "vdup"@ + ","@,
    }) + "collate"@ + ","@ + "NUP1"@ + ","@
}

/// The number of sheets a job takes: one per page printed one-sided, one
/// per two pages (rounded up) printed two-sided.
pub open spec fn paper_count(number: nat, duplex: Duplex) -> nat {
    if duplex == Duplex::SIMPLEX {
        number
    } else {
        (number + 1) / 2
    }
}

/// The paper-detail string of a job: one JSON object with paper id,
/// black-and-white pages, colour pages and sheet count.
pub open spec fn paper_detail(job: Job) -> Seq<char> {
    "[{\"dwPaperID\":"@ + dec(paper_id(job.paper_size) as nat) + ",\"dwBWPages\":"@ + dec(
        job.bw_pages as nat,
    ) + ",\"dwColorPages\":"@ + dec(job.color_pages as nat) + ",\"dwPaperNum\":"@ + dec(
        paper_count(job.number as nat, job.duplex),
    ) + "}]"@
}

/// The sheet count of a two-sided job is computed from the page count plus
/// one, which must fit a `u32`.
pub open spec fn paper_count_computable(job: Job) -> bool {
    job.duplex != Duplex::SIMPLEX ==> job.number < u32::MAX
}

/// Whether the sheet count of `job` can be computed (see
/// `paper_count_computable`).
pub fn sheet_count_fits(job: &Job) -> (r: bool)
    ensures
        r == paper_count_computable(*job),
{
    match job.duplex {
        Duplex::SIMPLEX => true,
        _ => job.number < u32::MAX,
    }
}

/// The colour map sent for a job: one `0` per page for a black-and-white
/// job, one `1` per page for a colour job.
pub open spec fn uniform_color_map(job: Job) -> Seq<char> {
    Seq::new(job.number as nat, |_i: int| if job.color == Color::BW { '0' } else { '1' })
}

/// The session id a session cookie `OSESSIONID=<id>` carries: what follows
/// its first eleven characters.
pub open spec fn session_id_of(cookie: Seq<char>) -> Seq<char> {
    cookie.skip(11)
}

/// The page a user opens in WeChat to sign in with the given token.
pub open spec fn login_url_of(token: Seq<char>) -> Seq<char> {
    "http://pay.unifound.net/uniwx/s.aspx?c=uniauth_1_"@ + token
}

/// The URL that `url::Url::parse` makes of `input`, written out as
/// `Url::as_str` gives it (normalised; for `http` and `https` with a
/// lower-case host, the default port dropped and `/` as the path of a bare
/// host), or `None` where `input` does not parse as an absolute URL.
pub uninterp spec fn url_serialization(input: Seq<char>) -> Option<Seq<char>>;

/// `reqwest::Url::parse(input)` (the `url` crate's parser), written out
/// with `as_str`. The result is named `url_serialization(input)`.
#[verifier::external_body]
fn parse_url(input: &str) -> (r: Option<String>)
    ensures
        match url_serialization(input@) {
            Some(u) => r matches Some(v) && v@ == u,
            None => r is None,
        },
{
    match reqwest::Url::parse(input) {
        Ok(u) => Some(u.as_str().to_string()),
        Err(_) => None,
    }
}

/// The path of the sign-in check.
pub const AUTH_CHECK_PATH: &'static str = "/api/client/Auth/Check";

/// The path that hands out sign-in tokens.
pub const AUTH_TOKEN_PATH: &'static str = "/api/client/Auth/GetAuthToken";

/// The path that is polled until the user has signed in.
pub const WAIT_USER_IN_PATH: &'static str = "/api/client/Auth/WaitUserIn";

/// The path that creates a job.
pub const CREATE_JOB_PATH: &'static str = "/api/client/PrintJob/Create";

/// The path that the compressed print stream is uploaded to.
pub const UPLOAD_JOB_PATH: &'static str = "/api/client/PrintJob/Upload";

/// The path that the preview is uploaded to.
pub const UPLOAD_PREVIEW_PATH: &'static str = "/api/client/PrintJob/UploadPreview";

/// The path that sets a job's status.
pub const SET_JOB_PATH: &'static str = "/api/client/PrintJob/Set";

impl Client {
    /// A client of the service at `base_url`, kept as the URL parser
    /// writes it out.
    pub fn with_base_url(base_url: &str) -> (c: Client)
        requires
            url_serialization(base_url@) is Some,
        ensures
            Some(c.base_url@) == url_serialization(base_url@),
    {
        match parse_url(base_url) {
            Some(u) => Client { base_url: u },
            None => Client { base_url: String::new() },
        }
    }

    /// A client of the service at `base_url`, or `None` where `base_url`
    /// is no URL.
    pub fn try_with_base_url(base_url: &str) -> (r: Option<Client>)
        ensures
            match url_serialization(base_url@) {
                Some(u) => r matches Some(c) && c.base_url@ == u,
                None => r is None,
            },
    {
        match parse_url(base_url) {
            Some(_) => Some(Self::with_base_url(base_url)),
            None => None,
        }
    }

    /// Constructs the attribute string of a job:
    /// + black & simplex: `single,collate,NUP1,`
    /// + colour & vertical (long-edge) duplex: `color,vdup,collate,NUP1,`
    pub fn job_to_sz_attribute(job: &Job) -> (r: String)
        ensures
            r@ == sz_attribute(job.color, job.duplex),
    {
        let mut s = String::new();
        match job.color {
            Color::BW => s.append("single"),
            Color::COLOR => s.append("color"),
        }
        s.append(",");
        match job.duplex {
            Duplex::SIMPLEX => {},
            Duplex::DUPLEX_SHORT_EDGE => {
                s.append("hdup");
                s.append(",");
            },
            Duplex::DUPLEX_LONG_EDGE => {
                s.append("vdup");
                s.append(",");
            },
        }
        let ghost head = s@;
        assert(head =~= (if job.color == Color::BW {
            "single"@
        } else {
            "color"@
        }) + ","@ + (match job.duplex {
            Duplex::SIMPLEX => Seq::<char>::empty(),
            Duplex::DUPLEX_SHORT_EDGE => "hdup"@ + ","@,
            Duplex::DUPLEX_LONG_EDGE => "vdup"@ + ","@,
        }));
        s.append("collate");
        s.append(",");
        s.append("NUP1");
        s.append(",");
        assert(s@ =~= head + "collate"@ + ","@ + "NUP1"@ + ","@);
        s
    }

    /// Constructs the paper-detail string of a job.
    pub fn job_to_paper_detail(job: &Job) -> (r: String)
        requires
            paper_count_computable(*job),
        ensures
            r@ == paper_detail(*job),
    {
        let paper_id: i16 = job.paper_size.into();
        let paper_num: u32 = match job.duplex {
            Duplex::SIMPLEX => job.number,
            _ => (job.number + 1) / 2,
        };
        let mut s = String::new();
        s.append("[{\"dwPaperID\":");
        push_dec(&mut s, paper_id as u128);
        s.append(",\"dwBWPages\":");
        push_dec(&mut s, job.bw_pages as u128);
        s.append(",\"dwColorPages\":");
        push_dec(&mut s, job.color_pages as u128);
        s.append(",\"dwPaperNum\":");
        push_dec(&mut s, paper_num as u128);
        s.append("}]");
        s
    }

    /// The request that creates `job` at the service.
    pub fn create_job_request(job: &Job) -> (r: CreateJobRequest)
        requires
            paper_count_computable(*job),
        ensures
            r.dw_property == 0,
            r.sz_job_name@ == job.name@,
            r.dw_copies == job.copies,
            r.sz_attribe@ == sz_attribute(job.color, job.duplex),
            r.sz_paper_detail@ == paper_detail(*job),
            r.sz_color_map@ == uniform_color_map(*job),
    {
        let sz_attribe = Self::job_to_sz_attribute(job);
        let sz_paper_detail = Self::job_to_paper_detail(job);
        let sz_color_map = match job.color {
            Color::BW => repeat_char('0', job.number as usize),
            Color::COLOR => repeat_char('1', job.number as usize),
        };
        CreateJobRequest {
            dw_property: 0,
            sz_job_name: job.name.clone(),
            dw_copies: job.copies as i64,
            sz_attribe,
            sz_paper_detail,
            sz_color_map,
        }
    }

    /// The request that marks job `dw_job_id` ready to print, for the
    /// session whose cookie header is `cookie` (`OSESSIONID=<id>`).
    pub fn set_job_request(dw_job_id: usize, cookie: &str) -> (r: SetJobRequest)
        requires
            cookie.is_ascii(),
            cookie@.len() >= 11,
        ensures
            r.dw_job_id == dw_job_id,
            r.dw_status == 1,
            r.osession_id@ == session_id_of(cookie@),
    {
        let n = cookie.unicode_len();
        let id = cookie.substring_ascii(11, n);
        SetJobRequest { dw_job_id, dw_status: 1, osession_id: id.to_string() }
    }

    /// The page a user opens in WeChat to sign in with `token`.
    pub fn login_url(token: &str) -> (r: String)
        ensures
            r@ == login_url_of(token@),
    {
        let mut s = String::new();
        s.append("http://pay.unifound.net/uniwx/s.aspx?c=uniauth_1_");
        s.append(token);
        s
    }

    /// `base` followed by `path`.
    pub fn endpoint(base: &str, path: &str) -> (r: String)
        ensures
            r@ == base@ + path@,
    {
        let mut s = String::new();
        s.append(base);
        s.append(path);
        s
    }

    /// `base` followed by `path` and the query `?dwJobId=<id>`.
    pub fn job_endpoint(base: &str, path: &str, dw_job_id: usize) -> (r: String)
        ensures
            r@ == base@ + path@ + "?dwJobId="@ + dec(dw_job_id as nat),
    {
        let mut s = Self::endpoint(base, path);
        s.append("?dwJobId=");
        push_dec(&mut s, dw_job_id as u128);
        s
    }

    /// The URL polled while waiting for the user to sign in, with the
    /// current time in milliseconds as the query `_`.
    pub fn wait_user_in_url(base: &str, unix_ms: u128) -> (r: String)
        ensures
            r@ == base@ + WAIT_USER_IN_PATH@ + "?_="@ + dec(unix_ms as nat),
    {
        let mut s = Self::endpoint(base, WAIT_USER_IN_PATH);
        s.append("?_=");
        push_dec(&mut s, unix_ms);
        s
    }
}

/// The session id is the cookie's value: whatever follows `OSESSIONID=`.
pub proof fn law_session_id_follows_name(value: Seq<char>)
    ensures
        session_id_of("OSESSIONID="@ + value) == value,
{
    reveal_strlit("OSESSIONID=");
    assert(("OSESSIONID="@ + value).skip(11) =~= value);
}

/// A job never takes more sheets than pages, and two-sided printing holds
/// every page: two pages per sheet, with at most one side left blank.
pub proof fn law_paper_count(number: nat, duplex: Duplex)
    ensures
        paper_count(number, duplex) <= number || number == 0,
        duplex == Duplex::SIMPLEX ==> paper_count(number, duplex) == number,
        duplex != Duplex::SIMPLEX ==> 2 * paper_count(number, duplex) >= number,
        duplex != Duplex::SIMPLEX ==> 2 * paper_count(number, duplex) <= number + 1,
{
}

/// The attribute string opens with the colour mode and nothing else: a
/// colour job's with `color,`, a black-and-white job's with `single,`,
/// whatever the duplex mode. What follows (the duplex flip and the rest)
/// is the same for both colour modes: `vdup,` for long-edge, `hdup,` for
/// short-edge and nothing for one-sided printing, then `collate,NUP1,`.
pub proof fn law_sz_attribute_parts(color: Color, duplex: Duplex)
    ensures
        color == Color::COLOR <==> sz_attribute(color, duplex).take(6) == "color,"@,
        color == Color::BW <==> sz_attribute(color, duplex).take(7) == "single,"@,
        sz_attribute(Color::COLOR, duplex).skip(6) == sz_attribute(Color::BW, duplex).skip(7),
        duplex == Duplex::DUPLEX_LONG_EDGE <==> sz_attribute(Color::COLOR, duplex).skip(6)
            == "vdup,collate,NUP1,"@,
        duplex == Duplex::DUPLEX_SHORT_EDGE <==> sz_attribute(Color::COLOR, duplex).skip(6)
            == "hdup,collate,NUP1,"@,
        duplex == Duplex::SIMPLEX <==> sz_attribute(Color::COLOR, duplex).skip(6)
            == "collate,NUP1,"@,
{
    reveal_strlit("single");
    reveal_strlit("color");
    reveal_strlit(",");
    reveal_strlit("hdup");
    reveal_strlit("vdup");
    reveal_strlit("collate");
    reveal_strlit("NUP1");
    reveal_strlit("color,");
    reveal_strlit("single,");
    reveal_strlit("vdup,collate,NUP1,");
    reveal_strlit("hdup,collate,NUP1,");
    reveal_strlit("collate,NUP1,");
    let tail = "collate"@ + ","@ + "NUP1"@ + ","@;
    let flip = match duplex {
        Duplex::SIMPLEX => Seq::<char>::empty(),
        Duplex::DUPLEX_SHORT_EDGE => "hdup"@ + ","@,
        Duplex::DUPLEX_LONG_EDGE => "vdup"@ + ","@,
    };
    assert(sz_attribute(Color::COLOR, duplex) =~= "color,"@ + (flip + tail));
    assert(sz_attribute(Color::BW, duplex) =~= "single,"@ + (flip + tail));
    assert(sz_attribute(Color::COLOR, duplex).take(6) =~= "color,"@);
    assert(sz_attribute(Color::BW, duplex).take(7) =~= "single,"@);
    assert(sz_attribute(Color::COLOR, duplex).skip(6) =~= flip + tail);
    assert(sz_attribute(Color::BW, duplex).skip(7) =~= flip + tail);
    assert(sz_attribute(Color::BW, duplex).take(6)[0] != "color,"@[0]);
    assert(sz_attribute(Color::COLOR, duplex).take(7)[0] != "single,"@[0]);
    assert(("vdup"@ + ","@ + tail) =~= "vdup,collate,NUP1,"@);
    assert(("hdup"@ + ","@ + tail) =~= "hdup,collate,NUP1,"@);
    assert(tail =~= "collate,NUP1,"@);
    assert("vdup,collate,NUP1,"@[0] != "hdup,collate,NUP1,"@[0]);
    assert("vdup,collate,NUP1,"@.len() != "collate,NUP1,"@.len());
    assert("hdup,collate,NUP1,"@.len() != "collate,NUP1,"@.len());
}

/// The paper-detail string carries the page counts of the job as they are,
/// whatever its colour mode: two jobs that differ in nothing but the colour
/// mode get the same string, and the string holds, in this order,
/// `"dwBWPages":` with the black-and-white page count and
/// `"dwColorPages":` with the colour page count, then `"dwPaperNum":`.
pub proof fn law_paper_detail_counts(j1: Job, j2: Job)
    ensures
        (j1.paper_size == j2.paper_size && j1.bw_pages == j2.bw_pages && j1.color_pages
            == j2.color_pages && j1.number == j2.number && j1.duplex == j2.duplex)
            ==> paper_detail(j1) == paper_detail(j2),
        exists|pre: Seq<char>, post: Seq<char>|
            paper_detail(j1) == pre + ",\"dwBWPages\":"@ + dec(j1.bw_pages as nat)
                + ",\"dwColorPages\":"@ + dec(j1.color_pages as nat) + ",\"dwPaperNum\":"@
                + post,
{
    let pre = "[{\"dwPaperID\":"@ + dec(paper_id(j1.paper_size) as nat);
    let post = dec(paper_count(j1.number as nat, j1.duplex)) + "}]"@;
    assert(paper_detail(j1) =~= pre + ",\"dwBWPages\":"@ + dec(j1.bw_pages as nat)
        + ",\"dwColorPages\":"@ + dec(j1.color_pages as nat) + ",\"dwPaperNum\":"@ + post);
}

/// The colour map sent for a job has one entry per page, and every entry
/// is `1` for a colour job and `0` for a black-and-white one.
pub proof fn law_uniform_color_map(job: Job)
    ensures
        uniform_color_map(job).len() == job.number,
        forall|i: int|
            0 <= i < job.number ==> (#[trigger] uniform_color_map(job)[i] == '1' <==> job.color
                == Color::COLOR) && (uniform_color_map(job)[i] == '0' <==> job.color == Color::BW),
{
}

} // verus!
