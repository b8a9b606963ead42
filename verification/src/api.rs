//! The hypervisor's API: which requests the watchdog sends and what the
//! answers mean. Sending is left to the caller.
//!
//! Every request carries a ticket. A ticket is reused while it is fresh;
//! after that it is tried out with a cheap request, and only where that
//! fails the watchdog logs in again.

use crate::config::{ProxmoxAuth, VmConfig};
use crate::text::text_view;
use vstd::prelude::*;
use vstd::string::*;

verus! {

/// The shortest pause before a request is sent again, in milliseconds.
pub const RETRY_MIN_MILLIS: u64 = 100;

/// The longest pause before a request is sent again, in milliseconds.
pub const RETRY_MAX_MILLIS: u64 = 3000;

/// How often a request is sent again at most.
pub const MAX_RETRIES: u32 = 3;

/// How long a ticket counts as fresh after it was tried out, in milliseconds.
pub const PROBED_FRESH_MILLIS: u64 = 60000;

/// How long a ticket counts as fresh after a login, in milliseconds.
pub const LOGIN_FRESH_MILLIS: u64 = 600000;

/// The text that standard base64 with padding gives for `bytes`.
pub uninterp spec fn base64_text(bytes: Seq<u8>) -> Seq<char>;

/// The text under the member `inner` of the member `outer` of the JSON
/// document `body`: `None` where `body` is no JSON document, or holds no
/// such member, or the member is no text.
pub uninterp spec fn json_text_at(body: Seq<u8>, outer: Seq<char>, inner: Seq<char>) -> Option<
    Seq<char>,
>;

/// How a request is sent.
#[derive(Debug, Clone, Copy, PartialEq, Eq, Structural)]
pub enum Method {
    Get,
    Post,
}

/// Why a call to the hypervisor gave nothing.
#[derive(Debug, Clone, Copy, PartialEq, Eq, Structural)]
pub enum ApiError {
    /// No answer arrived.
    Transport,
    /// The hypervisor answered with this status, which is an error.
    Status(u16),
    /// The answer does not hold what was asked for.
    Malformed,
}

/// An answer of the hypervisor: its status and its body.
#[derive(Debug)]
pub struct HttpAnswer {
    pub status: u16,
    pub body: Vec<u8>,
}

/// What lets a request pass: the ticket and the token against forgery.
#[derive(Debug)]
pub struct Ticket {
    pub ticket: String,
    pub csrf: String,
}

/// A ticket as contracts speak of it.
pub struct TicketView {
    pub ticket: Seq<char>,
    pub csrf: Seq<char>,
}

/// What to do to get a ticket.
#[derive(Debug)]
pub enum TicketPlan {
    /// The cached ticket is fresh: use it.
    Reuse(Ticket),
    /// A ticket is cached but no longer fresh: try it out.
    Probe(String),
    /// No ticket is cached: log in.
    Authenticate,
}

/// A request with its ticket, ready to be sent.
#[derive(Debug)]
pub struct ApiRequest {
    pub method: Method,
    pub url: String,
    /// The bearer token of the request.
    pub bearer: String,
    /// The value of the header `CSRFPreventionToken`.
    pub csrf: String,
}

/// The request that reads a file from the guest.
#[derive(Debug)]
pub struct ReadFileRequest {
    pub request: ApiRequest,
    /// The value of the query parameter `file`.
    pub file: String,
}

/// The request that writes a file into the guest.
#[derive(Debug)]
pub struct WriteFileRequest {
    pub request: ApiRequest,
    /// The member `file` of the body.
    pub file: String,
    /// The member `content` of the body: the content in base64.
    pub content: String,
    /// The member `encode` of the body.
    pub encode: bool,
}

/// The hypervisor as the watchdog knows it, with the ticket that it holds.
pub struct Api {
    base_url: String,
    username: String,
    password: String,
    cached: Option<Ticket>,
    /// Until when the cached ticket is fresh, on the caller's steady clock.
    fresh_until: u64,
}

/// The hypervisor as contracts speak of it.
pub struct ApiView {
    pub base_url: Seq<char>,
    pub username: Seq<char>,
    pub password: Seq<char>,
    pub cached: Option<TicketView>,
    pub fresh_until: u64,
}

impl View for Ticket {
    type V = TicketView;

    open spec fn view(&self) -> TicketView {
        TicketView { ticket: self.ticket@, csrf: self.csrf@ }
    }
}

impl View for Api {
    type V = ApiView;

    closed spec fn view(&self) -> ApiView {
        ApiView {
            base_url: self.base_url@,
            username: self.username@,
            password: self.password@,
            cached: match self.cached {
                Some(ticket) => Some(ticket@),
                None => None,
            },
            fresh_until: self.fresh_until,
        }
    }
}

/// Whether `status` reports success.
pub open spec fn is_success(status: u16) -> bool {
    200 <= status < 300
}

/// Whether `status` reports an error, of the client or of the server.
pub open spec fn is_error(status: u16) -> bool {
    400 <= status < 600
}

/// Where the hypervisor hands out tickets.
pub open spec fn ticket_url(base_url: Seq<char>) -> Seq<char> {
    base_url + "/api2/json/access/ticket"@
}

/// Where the hypervisor takes the request for `path`.
pub open spec fn request_url(base_url: Seq<char>, path: Seq<char>) -> Seq<char> {
    base_url + "/api2/json"@ + path
}

/// The path of what `tail` names on the machine of `config`.
pub open spec fn machine_path(config: VmConfig, tail: Seq<char>) -> Seq<char> {
    "/nodes/"@ + config.node@ + "/qemu/"@ + config.vmid@ + tail
}

/// The request for `path` with the ticket `ticket`.
pub open spec fn ticketed(
    api: ApiView,
    method: Method,
    path: Seq<char>,
    ticket: TicketView,
    request: ApiRequest,
) -> bool {
    &&& request.method == method
    &&& request.url@ == request_url(api.base_url, path)
    &&& request.bearer@ == "PVEAuthCookie="@ + ticket.ticket
    &&& request.csrf@ == ticket.csrf
}

/// Calls `encode` of the engine `base64::engine::general_purpose::STANDARD`.
/// It depends on the bytes alone, so the result is their named text; the
/// length is kept below that at which `encode` panics.
#[verifier::external_body]
fn base64_encode(bytes: &[u8]) -> (text: String)
    requires
        bytes@.len() / 3 * 4 + 4 <= usize::MAX,
    ensures
        text@ == base64_text(bytes@),
{
    base64::Engine::encode(&base64::engine::general_purpose::STANDARD, bytes)
}

/// Calls `serde_json::from_slice` for a `serde_json::Value`, indexes the
/// value by `outer` and the result by `inner`, and calls `as_str` on what is
/// found. All of it depends on the arguments alone, so the result is the
/// named text; a document that does not parse gives `None`.
#[verifier::external_body]
fn json_text(body: &[u8], outer: &str, inner: &str) -> (text: Option<String>)
    ensures
        text_view(text) == json_text_at(body@, outer@, inner@),
{
    match serde_json::from_slice::<serde_json::Value>(body) {
        Ok(value) => match value[outer][inner].as_str() {
            Some(text) => Some(text.to_string()),
            None => None,
        },
        Err(_) => None,
    }
}

/// Whether a request is sent again: only where no answer arrived. An
/// answer is final, whatever its status.
pub fn should_retry(answer_arrived: bool) -> (retry: bool)
    ensures
        retry == !answer_arrived,
{
    !answer_arrived
}

/// What an answer means where the call asks for nothing but success:
/// `None` stands for no answer, and an error status is an error.
pub open spec fn status_result(answer: Option<HttpAnswer>) -> Result<(), ApiError> {
    match answer {
        None => Err(ApiError::Transport),
        Some(a) => if is_error(a.status) {
            Err(ApiError::Status(a.status))
        } else {
            Ok(())
        },
    }
}

/// What an answer means where the call asks for the text of the member
/// `member` of the member `data` of the body.
pub open spec fn member_result(answer: Option<HttpAnswer>, member: Seq<char>) -> Result<
    Seq<char>,
    ApiError,
> {
    match answer {
        None => Err(ApiError::Transport),
        Some(a) => if is_error(a.status) {
            Err(ApiError::Status(a.status))
        } else {
            match json_text_at(a.body@, "data"@, member) {
                Some(text) => Ok(text),
                None => Err(ApiError::Malformed),
            }
        },
    }
}

/// Takes the answer to a call that asks for nothing but success, such as a
/// ping, a write or a reset; `None` stands for no answer.
pub fn check_status(answer: Option<&HttpAnswer>) -> (r: Result<(), ApiError>)
    ensures
        r == status_result(
            match answer {
                Some(a) => Some(*a),
                None => None,
            },
        ),
{
    match answer {
        None => Err(ApiError::Transport),
        Some(a) => {
            if a.status >= 400 && a.status < 600 {
                Err(ApiError::Status(a.status))
            } else {
                Ok(())
            }
        },
    }
}

/// Takes a member of an answer's body, given what the body holds there.
pub fn data_member(status: u16, found: Option<String>) -> (r: Result<String, ApiError>)
    ensures
        is_error(status) ==> r == Err::<String, ApiError>(ApiError::Status(status)),
        !is_error(status) && found is None ==> r == Err::<String, ApiError>(ApiError::Malformed),
        !is_error(status) && found is Some ==> r == Ok::<String, ApiError>(found->0),
{
    if status >= 400 && status < 600 {
        Err(ApiError::Status(status))
    } else {
        match found {
            Some(text) => Ok(text),
            None => Err(ApiError::Malformed),
        }
    }
}

/// Reads the content of the guest's file from the answer to a read; `None`
/// stands for no answer.
pub fn file_content(answer: Option<&HttpAnswer>) -> (r: Result<String, ApiError>)
    ensures
        match member_result(
            match answer {
                Some(a) => Some(*a),
                None => None,
            },
            "content"@,
        ) {
            Ok(text) => r matches Ok(content) && content@ == text,
            Err(e) => r == Err::<String, ApiError>(e),
        },
{
    match answer {
        None => Err(ApiError::Transport),
        Some(a) => data_member(a.status, json_text(a.body.as_slice(), "data", "content")),
    }
}

/// Whether the state `state` of a machine means that it runs.
pub fn state_is_running(state: &str) -> (running: bool)
    ensures
        running == (state@ == "running"@),
{
    let wanted = String::from_str("running");
    let found = String::from_str(state);
    found == wanted
}

/// Reads whether the machine runs from the answer to a query of its state;
/// `None` stands for no answer.
pub fn machine_is_running(answer: Option<&HttpAnswer>) -> (r: Result<bool, ApiError>)
    ensures
        r == match member_result(
            match answer {
                Some(a) => Some(*a),
                None => None,
            },
            "status"@,
        ) {
            Ok(state) => Ok::<bool, ApiError>(state == "running"@),
            Err(e) => Err::<bool, ApiError>(e),
        },
{
    match answer {
        None => Err(ApiError::Transport),
        Some(a) => match data_member(a.status, json_text(a.body.as_slice(), "data", "status")) {
            Ok(state) => Ok(state_is_running(state.as_str())),
            Err(e) => Err(e),
        },
    }
}

/// Puts together a ticket from what a login's answer holds.
pub fn ticket_of(ticket: Option<String>, csrf: Option<String>) -> (r: Option<Ticket>)
    ensures
        match (ticket, csrf) {
            (Some(t), Some(c)) => r matches Some(found) && found.ticket == t && found.csrf == c,
            _ => r is None,
        },
{
    match (ticket, csrf) {
        (Some(ticket), Some(csrf)) => Some(Ticket { ticket, csrf }),
        _ => None,
    }
}

/// The path of what `tail` names on the machine of `config`.
fn path_on_machine(config: &VmConfig, tail: &str) -> (path: String)
    ensures
        path@ == machine_path(*config, tail@),
{
    let mut path = String::from_str("/nodes/");
    path.append(config.node.as_str());
    path.append("/qemu/");
    path.append(config.vmid.as_str());
    path.append(tail);
    path
}

impl Ticket {
    /// A copy of the ticket.
    pub fn duplicate(&self) -> (copy: Ticket)
        ensures
            copy@ == self@,
    {
        Ticket { ticket: self.ticket.clone(), csrf: self.csrf.clone() }
    }
}

impl Api {
    /// The hypervisor of `conf`, with no ticket yet.
    pub fn from_config(conf: &ProxmoxAuth) -> (api: Api)
        ensures
            api@ == (ApiView {
                base_url: conf.url@,
                username: conf.user@,
                password: conf.password@,
                cached: None,
                fresh_until: 0,
            }),
    {
        Api {
            base_url: conf.url.clone(),
            username: conf.user.clone(),
            password: conf.password.clone(),
            cached: None,
            fresh_until: 0,
        }
    }

    /// The name to log in with.
    pub fn username(&self) -> (name: &str)
        ensures
            name@ == self@.username,
    {
        self.username.as_str()
    }

    /// The password to log in with.
    pub fn password(&self) -> (password: &str)
        ensures
            password@ == self@.password,
    {
        self.password.as_str()
    }

    /// Where to log in, and where to try out a ticket.
    pub fn ticket_url(&self) -> (url: String)
        ensures
            url@ == ticket_url(self@.base_url),
    {
        let mut url = self.base_url.clone();
        url.append("/api2/json/access/ticket");
        url
    }

    /// Says how to get a ticket at the time `now` of the caller's steady
    /// clock: a fresh ticket is reused, a stale one is tried out, and
    /// without one the caller logs in.
    pub fn get_ticket(&self, now: u64) -> (plan: TicketPlan)
        ensures
            match self@.cached {
                Some(cached) => if self@.fresh_until > now {
                    plan matches TicketPlan::Reuse(ticket) && ticket@ == cached
                } else {
                    plan matches TicketPlan::Probe(ticket) && ticket@ == cached.ticket
                },
                None => plan is Authenticate,
            },
    {
        match &self.cached {
            Some(cached) => {
                if self.fresh_until > now {
                    TicketPlan::Reuse(cached.duplicate())
                } else {
                    TicketPlan::Probe(cached.ticket.clone())
                }
            },
            None => TicketPlan::Authenticate,
        }
    }

    /// Takes the answer to the request that tried out the cached ticket;
    /// `None` stands for no answer. After a success the ticket is fresh for
    /// a minute and is handed out; after anything else the caller logs in.
    pub fn probe_answered(&mut self, now: u64, status: Option<u16>) -> (ticket: Option<Ticket>)
        requires
            now + PROBED_FRESH_MILLIS <= u64::MAX,
        ensures
            match (old(self)@.cached, status) {
                (Some(cached), Some(s)) if is_success(s) => {
                    &&& ticket matches Some(t) && t@ == cached
                    &&& final(self)@ == (ApiView {
                        fresh_until: (now + PROBED_FRESH_MILLIS) as u64,
                        ..old(self)@
                    })
                },
                _ => ticket is None && final(self)@ == old(self)@,
            },
    {
        let succeeded = match status {
            Some(s) => s >= 200 && s < 300,
            None => false,
        };
        if !succeeded {
            return None;
        }
        match &self.cached {
            Some(cached) => {
                let ticket = cached.duplicate();
                self.fresh_until = now + PROBED_FRESH_MILLIS;
                Some(ticket)
            },
            None => None,
        }
    }

    /// Takes the answer to a login; `None` stands for no answer. A success
    /// that holds a ticket and a token makes them the cached ticket, fresh
    /// for ten minutes. Anything else changes nothing.
    pub fn login_answered(&mut self, now: u64, answer: Option<&HttpAnswer>) -> (r: Result<
        Ticket,
        ApiError,
    >)
        requires
            now + LOGIN_FRESH_MILLIS <= u64::MAX,
        ensures
            match answer {
                None => r == Err::<Ticket, ApiError>(ApiError::Transport) && final(self)@ == old(
                    self,
                )@,
                Some(a) => if !is_success(a.status) {
                    r == Err::<Ticket, ApiError>(ApiError::Status(a.status)) && final(self)@
                        == old(self)@
                } else {
                    match (
                        json_text_at(a.body@, "data"@, "ticket"@),
                        json_text_at(a.body@, "data"@, "CSRFPreventionToken"@),
                    ) {
                        (Some(ticket), Some(csrf)) => {
                            &&& r matches Ok(t) && t@ == (TicketView { ticket, csrf })
                            &&& final(self)@ == (ApiView {
                                cached: Some(TicketView { ticket, csrf }),
                                fresh_until: (now + LOGIN_FRESH_MILLIS) as u64,
                                ..old(self)@
                            })
                        },
                        _ => r == Err::<Ticket, ApiError>(ApiError::Malformed) && final(self)@
                            == old(self)@,
                    }
                },
            },
    {
        let a = match answer {
            None => {
                return Err(ApiError::Transport);
            },
            Some(a) => a,
        };
        if !(a.status >= 200 && a.status < 300) {
            return Err(ApiError::Status(a.status));
        }
        let found = ticket_of(
            json_text(a.body.as_slice(), "data", "ticket"),
            json_text(a.body.as_slice(), "data", "CSRFPreventionToken"),
        );
        match found {
            Some(ticket) => {
                let copy = ticket.duplicate();
                self.cached = Some(ticket);
                self.fresh_until = now + LOGIN_FRESH_MILLIS;
                Ok(copy)
            },
            None => Err(ApiError::Malformed),
        }
    }

    /// The request for `path` with the ticket `ticket`.
    pub fn ticketed_request(&self, method: Method, path: &str, ticket: &Ticket) -> (request:
        ApiRequest)
        ensures
            ticketed(self@, method, path@, ticket@, request),
    {
        let mut url = self.base_url.clone();
        url.append("/api2/json");
        url.append(path);
        let mut bearer = String::from_str("PVEAuthCookie=");
        bearer.append(ticket.ticket.as_str());
        ApiRequest { method, url, bearer, csrf: ticket.csrf.clone() }
    }

    /// The request that pings the guest agent of the machine.
    pub fn ping_guest_agent(&self, config: &VmConfig, ticket: &Ticket) -> (request: ApiRequest)
        ensures
            ticketed(
                self@,
                Method::Post,
                machine_path(*config, "/agent/ping"@),
                ticket@,
                request,
            ),
    {
        let path = path_on_machine(config, "/agent/ping");
        self.ticketed_request(Method::Post, path.as_str(), ticket)
    }

    /// The request that writes `content` into the file `path` of the guest.
    pub fn guest_agent_write_file(
        &self,
        config: &VmConfig,
        path: &str,
        content: &[u8],
        ticket: &Ticket,
    ) -> (write: WriteFileRequest)
        requires
            content@.len() / 3 * 4 + 4 <= usize::MAX,
        ensures
            ticketed(
                self@,
                Method::Post,
                machine_path(*config, "/agent/file-write"@),
                ticket@,
                write.request,
            ),
            write.file@ == path@,
            write.content@ == base64_text(content@),
            !write.encode,
    {
        let target = path_on_machine(config, "/agent/file-write");
        WriteFileRequest {
            request: self.ticketed_request(Method::Post, target.as_str(), ticket),
            file: String::from_str(path),
            content: base64_encode(content),
            encode: false,
        }
    }

    /// The request that reads the file `path` of the guest.
    pub fn guest_agent_read_file(&self, config: &VmConfig, path: &str, ticket: &Ticket) -> (read:
        ReadFileRequest)
        ensures
            ticketed(
                self@,
                Method::Get,
                machine_path(*config, "/agent/file-read"@),
                ticket@,
                read.request,
            ),
            read.file@ == path@,
    {
        let target = path_on_machine(config, "/agent/file-read");
        ReadFileRequest {
            request: self.ticketed_request(Method::Get, target.as_str(), ticket),
            file: String::from_str(path),
        }
    }

    /// The request that asks for the state of the machine.
    pub fn get_is_machine_running(&self, config: &VmConfig, ticket: &Ticket) -> (request:
        ApiRequest)
        ensures
            ticketed(
                self@,
                Method::Get,
                machine_path(*config, "/status/current"@),
                ticket@,
                request,
            ),
    {
        let path = path_on_machine(config, "/status/current");
        self.ticketed_request(Method::Get, path.as_str(), ticket)
    }

    /// The request that resets the machine.
    pub fn reset_vm(&self, config: &VmConfig, ticket: &Ticket) -> (request: ApiRequest)
        ensures
            ticketed(
                self@,
                Method::Post,
                machine_path(*config, "/status/reset"@),
                ticket@,
                request,
            ),
    {
        let path = path_on_machine(config, "/status/reset");
        self.ticketed_request(Method::Post, path.as_str(), ticket)
    }
}

} // verus!
