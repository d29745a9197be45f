//! The dispatcher: from a routed request and its decoded body to the update
//! of the store and the reply.

use crate::model::{AuthRecord, StoreModel};
use crate::route::{Command, Request, RequestView};
use crate::store::{AuthAnswer, Store};
use vstd::prelude::*;
use vstd::string::*;

verus! {

/// The decoded body of a request, one form for each command.
#[derive(Debug, Clone)]
pub enum Payload {
    GetAuth { name: String },
    CreateAuth { name: String, password: String, privileges: String },
    SetPassword { name: String, password: String },
    SetPrivileges { name: String, privileges: String },
    /// `last_login` is the numeric timestamp in its text form.
    RecordLogin { name: String, last_login: String },
}

/// The mathematical value of a `Payload`.
pub enum PayloadView {
    GetAuth { name: Seq<char> },
    CreateAuth { name: Seq<char>, password: Seq<char>, privileges: Seq<char> },
    SetPassword { name: Seq<char>, password: Seq<char> },
    SetPrivileges { name: Seq<char>, privileges: Seq<char> },
    RecordLogin { name: Seq<char>, last_login: Seq<char> },
}

impl View for Payload {
    type V = PayloadView;

    open spec fn view(&self) -> PayloadView {
        match *self {
            Payload::GetAuth { name } => PayloadView::GetAuth { name: name@ },
            Payload::CreateAuth { name, password, privileges } => PayloadView::CreateAuth {
                name: name@,
                password: password@,
                privileges: privileges@,
            },
            Payload::SetPassword { name, password } => PayloadView::SetPassword {
                name: name@,
                password: password@,
            },
            Payload::SetPrivileges { name, privileges } => PayloadView::SetPrivileges {
                name: name@,
                privileges: privileges@,
            },
            Payload::RecordLogin { name, last_login } => PayloadView::RecordLogin {
                name: name@,
                last_login: last_login@,
            },
        }
    }
}

impl PayloadView {
    /// The command that a payload belongs to.
    pub open spec fn command(self) -> Command {
        match self {
            PayloadView::GetAuth { .. } => Command::GetAuth,
            PayloadView::CreateAuth { .. } => Command::CreateAuth,
            PayloadView::SetPassword { .. } => Command::SetPassword,
            PayloadView::SetPrivileges { .. } => Command::SetPrivileges,
            PayloadView::RecordLogin { .. } => Command::RecordLogin,
        }
    }
}

impl Payload {
    /// The command that this payload belongs to.
    pub fn command(&self) -> (r: Command)
        ensures
            r == self@.command(),
    {
        match self {
            Payload::GetAuth { .. } => Command::GetAuth,
            Payload::CreateAuth { .. } => Command::CreateAuth,
            Payload::SetPassword { .. } => Command::SetPassword,
            Payload::SetPrivileges { .. } => Command::SetPrivileges,
            Payload::RecordLogin { .. } => Command::RecordLogin,
        }
    }
}

/// The text of an optional payload.
pub open spec fn decoded_view(decoded: Option<Payload>) -> Option<PayloadView> {
    match decoded {
        Some(payload) => Some(payload@),
        None => None,
    }
}

/// Why a request got no answer.
#[derive(Debug, Clone, Copy, PartialEq, Eq, Structural)]
pub enum Failure {
    /// The API key is missing or unknown.
    Unauthorized,
    /// The path is none of the five.
    RouteNotFound,
    /// The tenant has no such player.
    NotFound,
    /// The body could not be decoded, or the store refused the update.
    Internal,
}

impl Failure {
    /// The status code of a failure.
    pub open spec fn code(self) -> u16 {
        match self {
            Failure::Unauthorized => 401,
            Failure::RouteNotFound => 404,
            Failure::NotFound => 404,
            Failure::Internal => 500,
        }
    }

    /// The text sent with a failure, as reason and as body.
    pub open spec fn text(self) -> Seq<char> {
        match self {
            Failure::Unauthorized => "Unauthorized"@,
            Failure::RouteNotFound => "Not found"@,
            Failure::NotFound => ""@,
            Failure::Internal => "Internal Server error"@,
        }
    }

    /// The status code of this failure.
    pub fn status(&self) -> (r: u16)
        ensures
            r == self.code(),
    {
        match self {
            Failure::Unauthorized => 401,
            Failure::RouteNotFound => 404,
            Failure::NotFound => 404,
            Failure::Internal => 500,
        }
    }

    /// The text sent with this failure.
    pub fn message(&self) -> (r: String)
        ensures
            r@ == self.text(),
    {
        match self {
            Failure::Unauthorized => String::from_str("Unauthorized"),
            Failure::RouteNotFound => String::from_str("Not found"),
            Failure::NotFound => String::from_str(""),
            Failure::Internal => String::from_str("Internal Server error"),
        }
    }
}

/// What a request is answered with, before it is encoded.
#[derive(Debug)]
pub enum Reply {
    /// Success with nothing to say.
    Empty,
    /// Success with a record.
    Auth(AuthAnswer),
    /// A failure.
    Failed(Failure),
}

/// The mathematical value of a `Reply`.
pub enum ReplyView {
    Empty,
    Auth(AuthRecord),
    Failed(Failure),
}

impl View for Reply {
    type V = ReplyView;

    open spec fn view(&self) -> ReplyView {
        match *self {
            Reply::Empty => ReplyView::Empty,
            Reply::Auth(answer) => ReplyView::Auth(answer@),
            Reply::Failed(failure) => ReplyView::Failed(failure),
        }
    }
}

/// The first decision on a request.
#[derive(Debug, Clone, Copy, PartialEq, Eq, Structural)]
pub enum Step {
    /// Answer with this failure; the body is not looked at.
    Respond(Failure),
    /// Decode the body as the payload of this command, for this tenant.
    Decode(i64, Command),
}

/// The mathematical value of a `Step`.
pub enum StepView {
    Respond(Failure),
    Decode(int, Command),
}

impl View for Step {
    type V = StepView;

    open spec fn view(&self) -> StepView {
        match *self {
            Step::Respond(failure) => StepView::Respond(failure),
            Step::Decode(tenant, command) => StepView::Decode(tenant as int, command),
        }
    }
}

/// The first decision: an unknown path is not found whatever the key, an
/// unknown or missing key is unauthorized, and anything else goes on.
pub open spec fn first_step(s: StoreModel, request: RequestView) -> StepView {
    match request {
        RequestView::PageNotFound => StepView::Respond(Failure::RouteNotFound),
        RequestView::Unauthorized => StepView::Respond(Failure::Unauthorized),
        RequestView::ValidCommand(key, command) => match s.tenant_of_key(key) {
            None => StepView::Respond(Failure::Unauthorized),
            Some(tenant) => StepView::Decode(tenant, command),
        },
    }
}

/// The store and the reply after a tenant's command ran on a decoded body.
/// A body that did not decode, or decoded to the payload of another
/// command, fails and changes nothing.
pub open spec fn outcome(
    s: StoreModel,
    tenant: int,
    command: Command,
    decoded: Option<PayloadView>,
) -> (StoreModel, ReplyView) {
    match decoded {
        None => (s, ReplyView::Failed(Failure::Internal)),
        Some(payload) => if payload.command() != command {
            (s, ReplyView::Failed(Failure::Internal))
        } else {
            match payload {
                PayloadView::GetAuth { name } => match s.auth(tenant, name) {
                    Some(record) => (s, ReplyView::Auth(record)),
                    None => (s, ReplyView::Failed(Failure::NotFound)),
                },
                PayloadView::CreateAuth { name, password, privileges } => if s.can_create(name) {
                    (s.with_auth(tenant, name, password, privileges), ReplyView::Empty)
                } else {
                    (s, ReplyView::Failed(Failure::Internal))
                },
                PayloadView::SetPassword { name, password } => (
                    s.with_password(name, password),
                    ReplyView::Empty,
                ),
                PayloadView::SetPrivileges { name, privileges } => (
                    s.with_privileges(tenant, name, privileges),
                    ReplyView::Empty,
                ),
                PayloadView::RecordLogin { name, last_login } => (
                    s.with_last_login(name, last_login),
                    ReplyView::Empty,
                ),
            }
        },
    }
}

/// The store and the reply after a whole request.
pub open spec fn handled(s: StoreModel, request: RequestView, decoded: Option<PayloadView>) -> (
    StoreModel,
    ReplyView,
) {
    match first_step(s, request) {
        StepView::Respond(failure) => (s, ReplyView::Failed(failure)),
        StepView::Decode(tenant, command) => outcome(s, tenant, command, decoded),
    }
}

/// Decides whether a request is answered at once or its body is decoded.
pub fn begin(store: &Store, request: &Request) -> (r: Step)
    requires
        store@.wf(),
    ensures
        r@ == first_step(store@, request@),
{
    match request {
        Request::PageNotFound => Step::Respond(Failure::RouteNotFound),
        Request::Unauthorized => Step::Respond(Failure::Unauthorized),
        Request::ValidCommand(key, command) => match store.tenant_id(key.as_str()) {
            None => Step::Respond(Failure::Unauthorized),
            Some(tenant) => Step::Decode(tenant, *command),
        },
    }
}

/// Runs a tenant's command on the decoded body, `None` standing for a body
/// that could not be decoded.
pub fn execute(store: &mut Store, tenant: i64, command: Command, decoded: Option<Payload>) -> (r:
    Reply)
    requires
        old(store)@.wf(),
    ensures
        final(store)@.wf(),
        final(store)@ == outcome(old(store)@, tenant as int, command, decoded_view(decoded)).0,
        r@ == outcome(old(store)@, tenant as int, command, decoded_view(decoded)).1,
{
    let payload = match decoded {
        None => {
            return Reply::Failed(Failure::Internal);
        },
        Some(payload) => payload,
    };
    if payload.command() != command {
        return Reply::Failed(Failure::Internal);
    }
    match payload {
        Payload::GetAuth { name } => match store.get_auth(tenant, name.as_str()) {
            Some(answer) => Reply::Auth(answer),
            None => Reply::Failed(Failure::NotFound),
        },
        Payload::CreateAuth { name, password, privileges } => match store.create_auth(
            tenant,
            name.as_str(),
            password.as_str(),
            privileges.as_str(),
        ) {
            Ok(_) => Reply::Empty,
            Err(_) => Reply::Failed(Failure::Internal),
        },
        Payload::SetPassword { name, password } => {
            store.set_password(name.as_str(), password.as_str());
            Reply::Empty
        },
        Payload::SetPrivileges { name, privileges } => {
            store.set_privileges(tenant, name.as_str(), privileges.as_str());
            Reply::Empty
        },
        Payload::RecordLogin { name, last_login } => {
            store.record_login(name.as_str(), last_login.as_str());
            Reply::Empty
        },
    }
}

/// Handles a whole request: the first decision, then the command. The
/// decoded body is not looked at unless the request is authorized.
pub fn request_received(store: &mut Store, request: &Request, decoded: Option<Payload>) -> (r:
    Reply)
    requires
        old(store)@.wf(),
    ensures
        final(store)@.wf(),
        final(store)@ == handled(old(store)@, request@, decoded_view(decoded)).0,
        r@ == handled(old(store)@, request@, decoded_view(decoded)).1,
{
    match begin(store, request) {
        Step::Respond(failure) => Reply::Failed(failure),
        Step::Decode(tenant, command) => execute(store, tenant, command, decoded),
    }
}

/// The reply to a request where the store cannot be read: the path and the
/// missing key are still judged, and a request that would need the store
/// fails.
pub open spec fn reply_without_store(request: RequestView) -> ReplyView {
    match request {
        RequestView::PageNotFound => ReplyView::Failed(Failure::RouteNotFound),
        RequestView::Unauthorized => ReplyView::Failed(Failure::Unauthorized),
        RequestView::ValidCommand(_, _) => ReplyView::Failed(Failure::Internal),
    }
}

/// Answers a request where the store cannot be read.
pub fn without_store(request: &Request) -> (r: Reply)
    ensures
        r@ == reply_without_store(request@),
{
    match request {
        Request::PageNotFound => Reply::Failed(Failure::RouteNotFound),
        Request::Unauthorized => Reply::Failed(Failure::Unauthorized),
        Request::ValidCommand(_, _) => Reply::Failed(Failure::Internal),
    }
}

/// Whether a reply stands for an update that has to be made durable: only
/// the empty success does, as every other reply leaves the store as it was.
pub fn updates(reply: &Reply) -> (r: bool)
    ensures
        r == (reply@ is Empty),
{
    match reply {
        Reply::Empty => true,
        _ => false,
    }
}

/// The reply once the update was, or was not, made durable.
pub open spec fn settled(reply: ReplyView, persisted: bool) -> ReplyView {
    if persisted {
        reply
    } else {
        ReplyView::Failed(Failure::Internal)
    }
}

/// Settles the reply to an update: it stands where the update was made
/// durable, and is an internal failure where it was not.
pub fn after_persist(reply: Reply, persisted: bool) -> (r: Reply)
    ensures
        r@ == settled(reply@, persisted),
{
    if persisted {
        reply
    } else {
        Reply::Failed(Failure::Internal)
    }
}

/// A response as it is sent: status, reason and body.
#[derive(Debug)]
pub struct Response {
    pub status: u16,
    pub reason: String,
    pub body: String,
}

/// A success with the given body.
pub fn send_string(data: String) -> (r: Response)
    ensures
        r.status == 200,
        r.reason@ == "OK"@,
        r.body@ == data@,
{
    Response { status: 200, reason: String::from_str("OK"), body: data }
}

/// A failure whose message is both the reason and the body.
pub fn send_error(code: u16, msg: &str) -> (r: Response)
    ensures
        r.status == code,
        r.reason@ == msg@,
        r.body@ == msg@,
{
    Response { status: code, reason: String::from_str(msg), body: String::from_str(msg) }
}

/// The response that a reply and the encoding of its record amount to.
pub open spec fn response_matches(r: Response, reply: ReplyView, encoded: Option<Seq<char>>) -> bool {
    match reply {
        ReplyView::Empty => r.status == 200 && r.reason@ == "OK"@ && r.body@ == Seq::<char>::empty(),
        ReplyView::Auth(_) => match encoded {
            Some(text) => r.status == 200 && r.reason@ == "OK"@ && r.body@ == text,
            None => r.status == 500 && r.reason@ == Failure::Internal.text() && r.body@
                == Failure::Internal.text(),
        },
        ReplyView::Failed(failure) => r.status == failure.code() && r.reason@ == failure.text()
            && r.body@ == failure.text(),
    }
}

/// Turns a reply into a response. `encoded` is the encoding of the reply's
/// record, `None` where encoding failed; it is read for a record only.
pub fn respond(reply: &Reply, encoded: Option<String>) -> (r: Response)
    ensures
        response_matches(r, reply@, crate::resolve::text_of(encoded)),
{
    match reply {
        Reply::Empty => send_string(String::new()),
        Reply::Auth(_) => match encoded {
            Some(text) => send_string(text),
            None => {
                let failure = Failure::Internal;
                let message = failure.message();
                send_error(failure.status(), message.as_str())
            },
        },
        Reply::Failed(failure) => {
            let message = failure.message();
            send_error(failure.status(), message.as_str())
        },
    }
}

impl Response {
    /// The length of the body in bytes, as the length header announces it.
    pub fn content_length(&self) -> (r: usize)
        ensures
            r == vstd::utf8::encode_utf8(self.body@).len() as usize,
    {
        self.body.as_str().len()
    }
}

} // verus!
