//! The handler of a push notification: it authenticates the request, reads
//! the push event, and decides by the updated ref what is to be done.
//!
//! Nothing here reads the environment, writes a log or sends a response. The
//! handler takes the configuration, the headers and the raw body as values and
//! gives back what is to be answered, logged and handed on.

use crate::decode::{decode_push_event, push_event_in, DecodeError};
use crate::json::JsonValue;
use crate::payload::{CommitDetails, GitHubPayloadBody};
use crate::signature::{
    authentic, get_signature_from_header, signature_in, verify_signature, Header, SignatureError,
    MAX_SECRET_LEN,
};
use vstd::prelude::*;
use vstd::string::*;

verus! {

/// The ref that is acted on where the configuration names no other.
pub const DEFAULT_TARGET_REF: &'static str = "refs/heads/main";

/// How many characters of a commit hash the short form keeps.
pub const SHORT_ID_LEN: usize = 7;

/// What the server was started with.
#[derive(Debug)]
pub struct WebhookConfig {
    /// The key of the keyed hash, where one was configured.
    pub secret: Option<Vec<u8>>,
    /// Pushes to this ref are acted on; pushes to any other are passed over.
    pub target_ref: String,
}

/// Why a request was answered with an error.
#[derive(Clone, Copy, Debug, PartialEq, Eq, Structural)]
pub enum WebhookError {
    /// There is no secret that could key the hash.
    Config,
    /// The headers carry no readable digest.
    Signature(SignatureError),
    /// The digest is not that of the body.
    VerificationFailed,
    /// The body is not a push event.
    Decode(DecodeError),
}

/// How the handling of a request ended.
#[derive(Clone, Copy, Debug, PartialEq, Eq, Structural)]
pub enum Disposition {
    /// The push went to the target ref and was acted on.
    Processed,
    /// The push went to another ref.
    Ignored,
    /// The request was turned down.
    Failed(WebhookError),
}

/// The answer to a request.
#[derive(Debug, PartialEq, Eq)]
pub struct Response {
    pub status: u16,
    /// A JSON object with the one member `msg`.
    pub body: String,
}

/// What is logged about one commit.
#[derive(Debug, PartialEq, Eq)]
pub struct CommitRecord {
    pub short_id: String,
    pub author_name: String,
    pub author_email: String,
    pub message: String,
}

/// All that follows from one request.
#[derive(Debug, PartialEq, Eq)]
pub struct Outcome {
    pub disposition: Disposition,
    pub response: Response,
    /// One record for each commit of a processed push, in push order.
    pub commits: Vec<CommitRecord>,
    /// The push event, where the request was authentic and held one. The
    /// action that a processed push sets off is given this event.
    pub event: Option<GitHubPayloadBody>,
}

/// The static answer of the status endpoint.
#[derive(Debug, PartialEq, Eq)]
pub struct StatusReport {
    pub code: u16,
    pub msg: String,
    pub has_error: bool,
    pub error: Option<String>,
}

/// The status that a disposition is answered with.
pub open spec fn status_of(disposition: Disposition) -> u16 {
    match disposition {
        Disposition::Processed => 200,
        Disposition::Ignored => 200,
        Disposition::Failed(_) => 400,
    }
}

/// The message that a disposition is answered with.
pub open spec fn message_of(disposition: Disposition) -> Seq<char> {
    match disposition {
        Disposition::Processed => "Success"@,
        Disposition::Ignored => "Received push on non-main branch"@,
        Disposition::Failed(WebhookError::Config) => "environment variable not found"@,
        Disposition::Failed(WebhookError::Signature(SignatureError::MissingHeader)) =>
            "Missing X-Hub-Signature-256 header"@,
        Disposition::Failed(WebhookError::Signature(SignatureError::MalformedHeader)) =>
            "X-Hub-Signature-256 header missing prefix"@,
        Disposition::Failed(WebhookError::Signature(SignatureError::InvalidEncoding)) =>
            "Invalid X-Hub-Signature-256 hex value"@,
        Disposition::Failed(WebhookError::VerificationFailed) => "Signature verification failed"@,
        Disposition::Failed(WebhookError::Decode(_)) => "failed to convert payload"@,
    }
}

/// `text` holds nothing that JSON writes with a backslash: no quotation mark,
/// no backslash and no control character.
pub open spec fn is_plain(text: Seq<char>) -> bool {
    forall|i: int|
        0 <= i < text.len() ==> 0x20 <= (#[trigger] text[i]) as u32 && text[i] != '"' && text[i]
            != '\\'
}

/// The compact JSON text of an object with one member whose value is a
/// string, where name and value are plain.
pub open spec fn single_member_object(name: Seq<char>, value: Seq<char>) -> Seq<char> {
    "{\""@ + name + "\":\""@ + value + "\"}"@
}

/// The body that carries a message: the JSON object with the one member
/// `msg`.
pub open spec fn message_body(msg: Seq<char>) -> Seq<char> {
    single_member_object("msg"@, msg)
}

/// The response that a disposition is answered with.
pub open spec fn answers(response: Response, disposition: Disposition) -> bool {
    &&& response.status == status_of(disposition)
    &&& response.body@ == message_body(message_of(disposition))
}

/// The short form of a commit hash: its first characters, or all of it where
/// it has no more than that.
pub open spec fn short_form(id: Seq<char>) -> Seq<char> {
    if id.len() <= SHORT_ID_LEN {
        id
    } else {
        id.subrange(0, SHORT_ID_LEN as int)
    }
}

/// `record` is what is logged about `commit`.
pub open spec fn record_of(commit: CommitDetails, record: CommitRecord) -> bool {
    &&& record.short_id@ == short_form(commit.id@)
    &&& record.author_name@ == commit.author.name@
    &&& record.author_email@ == commit.author.email@
    &&& record.message@ == commit.message@
}

/// `records` holds one record for each of `commits`, in the same order.
pub open spec fn records_of(commits: Seq<CommitDetails>, records: Seq<CommitRecord>) -> bool {
    &&& records.len() == commits.len()
    &&& forall|i: int| 0 <= i < commits.len() ==> record_of(commits[i], #[trigger] records[i])
}

/// The line that is logged for a commit.
pub open spec fn commit_line(record: CommitRecord) -> Seq<char> {
    "Commit: "@ + record.short_id@ + " by "@ + record.author_name@ + " ("@ + record.author_email@
        + ")\nMessage: "@ + record.message@
}

impl WebhookConfig {
    /// A configuration from what the environment holds. Where no target ref is
    /// given it is `refs/heads/main`.
    pub fn new(secret: Option<Vec<u8>>, target_ref: Option<String>) -> (config: WebhookConfig)
        ensures
            config.secret == secret,
            config.target_ref@ == (match target_ref {
                Some(name) => name@,
                None => DEFAULT_TARGET_REF@,
            }),
    {
        let target_ref = match target_ref {
            Some(name) => name,
            None => String::from_str(DEFAULT_TARGET_REF),
        };
        WebhookConfig { secret, target_ref }
    }

    /// The secret, where there is one and it is short enough to key the hash.
    pub open spec fn usable_secret(&self) -> Option<Seq<u8>> {
        match self.secret {
            Some(secret) => if secret@.len() <= MAX_SECRET_LEN {
                Some(secret@)
            } else {
                None
            },
            None => None,
        }
    }
}

/// The outcome of a request that was turned down for `error`.
pub open spec fn rejected(error: WebhookError, outcome: Outcome) -> bool {
    &&& outcome.disposition == Disposition::Failed(error)
    &&& outcome.event is None
    &&& outcome.commits@.len() == 0
    &&& answers(outcome.response, outcome.disposition)
}

/// The outcome of an authentic request that held `event`: the push is
/// processed where it went to `target_ref`, and passed over where it did not.
pub open spec fn routed(target_ref: Seq<char>, event: GitHubPayloadBody, outcome: Outcome) -> bool {
    &&& outcome.event == Some(event)
    &&& if event.reference@ == target_ref {
        &&& outcome.disposition == Disposition::Processed
        &&& records_of(event.commits@, outcome.commits@)
    } else {
        &&& outcome.disposition == Disposition::Ignored
        &&& outcome.commits@.len() == 0
    }
    &&& answers(outcome.response, outcome.disposition)
}

/// What a request comes to before the push is routed: the document of its
/// push event, or the first reason to turn it down. The secret is looked at
/// first, then the signature header, then the digest, and the body is read
/// only where the digest is that of the body.
pub open spec fn verdict(config: WebhookConfig, headers: Seq<Header>, body: Seq<u8>) -> Result<
    JsonValue,
    WebhookError,
> {
    match config.usable_secret() {
        None => Err(WebhookError::Config),
        Some(secret) => match signature_in(headers) {
            Err(e) => Err(WebhookError::Signature(e)),
            Ok(digest) => if !authentic(secret, body, digest) {
                Err(WebhookError::VerificationFailed)
            } else {
                match push_event_in(body) {
                    Err(e) => Err(WebhookError::Decode(e)),
                    Ok(document) => Ok(document),
                }
            },
        },
    }
}

/// `outcome` is what follows from the request.
pub open spec fn handled(
    config: WebhookConfig,
    headers: Seq<Header>,
    body: Seq<u8>,
    outcome: Outcome,
) -> bool {
    match verdict(config, headers, body) {
        Err(error) => rejected(error, outcome),
        Ok(document) => {
            &&& outcome.event matches Some(event)
            &&& event.decoded_from(document)
            &&& routed(config.target_ref@, event, outcome)
        },
    }
}

/// Renders an object with one string member with `serde_json`, as its
/// `Display` for `Value` writes it: compact, each string between quotation
/// marks. A string without quotation mark, backslash or control character is
/// written as it is; of any other string nothing is said here.
#[verifier::external_body]
fn render_member(name: &str, value: &str) -> (text: String)
    ensures
        is_plain(name@) && is_plain(value@) ==> text@ == single_member_object(name@, value@),
{
    let mut object = serde_json::Map::new();
    object.insert(name.to_owned(), serde_json::Value::String(value.to_owned()));
    serde_json::Value::Object(object).to_string()
}

/// The message for a disposition.
pub fn message(disposition: Disposition) -> (msg: &'static str)
    ensures
        msg@ == message_of(disposition),
        is_plain(msg@),
{
    proof {
        reveal_strlit("Success");
        reveal_strlit("Received push on non-main branch");
        reveal_strlit("environment variable not found");
        reveal_strlit("Missing X-Hub-Signature-256 header");
        reveal_strlit("X-Hub-Signature-256 header missing prefix");
        reveal_strlit("Invalid X-Hub-Signature-256 hex value");
        reveal_strlit("Signature verification failed");
        reveal_strlit("failed to convert payload");
    }
    match disposition {
        Disposition::Processed => "Success",
        Disposition::Ignored => "Received push on non-main branch",
        Disposition::Failed(WebhookError::Config) => "environment variable not found",
        Disposition::Failed(WebhookError::Signature(SignatureError::MissingHeader)) =>
            "Missing X-Hub-Signature-256 header",
        Disposition::Failed(WebhookError::Signature(SignatureError::MalformedHeader)) =>
            "X-Hub-Signature-256 header missing prefix",
        Disposition::Failed(WebhookError::Signature(SignatureError::InvalidEncoding)) =>
            "Invalid X-Hub-Signature-256 hex value",
        Disposition::Failed(WebhookError::VerificationFailed) => "Signature verification failed",
        Disposition::Failed(WebhookError::Decode(_)) => "failed to convert payload",
    }
}

/// The response for a disposition.
pub fn respond(disposition: Disposition) -> (response: Response)
    ensures
        answers(response, disposition),
{
    let status: u16 = match disposition {
        Disposition::Processed => 200,
        Disposition::Ignored => 200,
        Disposition::Failed(_) => 400,
    };
    proof {
        reveal_strlit("msg");
    }
    Response { status, body: render_member("msg", message(disposition)) }
}

/// Shortens a commit hash for display.
pub fn short_id(id: &str) -> (short: String)
    ensures
        short@ == short_form(id@),
{
    if id.unicode_len() <= SHORT_ID_LEN {
        String::from_str(id)
    } else {
        String::from_str(id.substring_char(0, SHORT_ID_LEN))
    }
}

/// What is logged about a commit.
pub fn commit_record(commit: &CommitDetails) -> (record: CommitRecord)
    ensures
        record_of(*commit, record),
{
    CommitRecord {
        short_id: short_id(commit.id.as_str()),
        author_name: commit.author.name.clone(),
        author_email: commit.author.email.clone(),
        message: commit.message.clone(),
    }
}

/// One record for each commit, in the order of the push.
pub fn commit_records(commits: &Vec<CommitDetails>) -> (records: Vec<CommitRecord>)
    ensures
        records_of(commits@, records@),
{
    let mut records: Vec<CommitRecord> = Vec::new();
    let mut i: usize = 0;
    while i < commits.len()
        invariant
            i <= commits@.len(),
            records@.len() == i,
            forall|k: int| 0 <= k < i ==> record_of(commits@[k], #[trigger] records@[k]),
        decreases commits@.len() - i,
    {
        records.push(commit_record(&commits[i]));
        i += 1;
    }
    records
}

impl CommitRecord {
    /// The line that is logged for the commit.
    pub fn line(&self) -> (line: String)
        ensures
            line@ == commit_line(*self),
    {
        let mut line = String::from_str("Commit: ");
        line.append(self.short_id.as_str());
        line.append(" by ");
        line.append(self.author_name.as_str());
        line.append(" (");
        line.append(self.author_email.as_str());
        line.append(")\nMessage: ");
        line.append(self.message.as_str());
        line
    }
}

/// The line that is logged when a push to the target ref comes in.
pub fn push_notice(event: &GitHubPayloadBody) -> (line: String)
    ensures
        line@ == "Received push to main branch in repository: "@ + event.repository.full_name@,
{
    let mut line = String::from_str("Received push to main branch in repository: ");
    line.append(event.repository.full_name.as_str());
    line
}

/// Turns a request down.
pub fn reject(error: WebhookError) -> (outcome: Outcome)
    ensures
        rejected(error, outcome),
{
    let disposition = Disposition::Failed(error);
    Outcome { disposition, response: respond(disposition), commits: Vec::new(), event: None }
}

/// Decides what is done with the push event of an authentic request.
pub fn route_event(target_ref: &str, event: GitHubPayloadBody) -> (outcome: Outcome)
    ensures
        routed(target_ref@, event, outcome),
        outcome.response.status == 200,
{
    let wanted = String::from_str(target_ref);
    if event.reference == wanted {
        let commits = commit_records(&event.commits);
        Outcome {
            disposition: Disposition::Processed,
            response: respond(Disposition::Processed),
            commits,
            event: Some(event),
        }
    } else {
        Outcome {
            disposition: Disposition::Ignored,
            response: respond(Disposition::Ignored),
            commits: Vec::new(),
            event: Some(event),
        }
    }
}

/// Handles one push notification.
pub fn handle_webhook(config: &WebhookConfig, headers: &Vec<Header>, body: &[u8]) -> (outcome:
    Outcome)
    ensures
        handled(*config, headers@, body@, outcome),
{
    let secret = match &config.secret {
        Some(secret) => if secret.len() as u64 <= MAX_SECRET_LEN {
            secret
        } else {
            return reject(WebhookError::Config);
        },
        None => return reject(WebhookError::Config),
    };
    let digest = match get_signature_from_header(headers) {
        Ok(digest) => digest,
        Err(e) => return reject(WebhookError::Signature(e)),
    };
    if !verify_signature(secret.as_slice(), body, digest.as_slice()) {
        return reject(WebhookError::VerificationFailed);
    }
    match decode_push_event(body) {
        Ok(event) => route_event(config.target_ref.as_str(), event),
        Err(e) => reject(WebhookError::Decode(e)),
    }
}

/// The answer of the status endpoint.
pub fn root_status() -> (report: StatusReport)
    ensures
        report.code == 200,
        report.msg@ == "Github Hooks Watcher"@,
        !report.has_error,
        report.error is None,
{
    StatusReport {
        code: 200,
        msg: String::from_str("Github Hooks Watcher"),
        has_error: false,
        error: None,
    }
}

/// An authentic request that holds a push event is answered with 200 whatever
/// ref the push went to; it is processed where the ref is the target ref, and
/// passed over where it is any other.
pub proof fn lemma_branch_filter(
    config: WebhookConfig,
    headers: Seq<Header>,
    body: Seq<u8>,
    outcome: Outcome,
)
    requires
        handled(config, headers, body, outcome),
        verdict(config, headers, body) is Ok,
    ensures
        outcome.response.status == 200,
        outcome.event matches Some(event) && (event.reference@ == config.target_ref@
            <==> outcome.disposition == Disposition::Processed) && (event.reference@
            != config.target_ref@ <==> outcome.disposition == Disposition::Ignored),
{
}

/// `record` tells of the commit that `item` spells: its hash in short form,
/// the name and address of its author, and its message.
pub open spec fn tells_of(record: CommitRecord, item: JsonValue) -> bool {
    &&& item.text("id"@) matches Some(id) && record.short_id@ == short_form(id)
    &&& item.text("message"@) == Some(record.message@)
    &&& item.member("author"@) matches Some(author) && author.text("name"@) == Some(
        record.author_name@,
    ) && author.text("email"@) == Some(record.author_email@)
}

/// The records of a processed push follow the commits in the body, one for
/// one and in the same order.
pub proof fn lemma_records_follow_the_body(
    config: WebhookConfig,
    headers: Seq<Header>,
    body: Seq<u8>,
    outcome: Outcome,
)
    requires
        handled(config, headers, body, outcome),
        outcome.disposition == Disposition::Processed,
    ensures
        verdict(config, headers, body) matches Ok(document) && document.items("commits"@)
            matches Some(items) && outcome.commits@.len() == items.len() && forall|i: int|
            0 <= i < items.len() ==> tells_of(#[trigger] outcome.commits@[i], items[i]),
{
    let document = verdict(config, headers, body)->Ok_0;
    let event = outcome.event->Some_0;
    let items = document.items("commits"@)->Some_0;
    assert forall|i: int| 0 <= i < items.len() implies tells_of(
        #[trigger] outcome.commits@[i],
        items[i],
    ) by {
        assert(event.commits@[i].decoded_from(items[i]));
        assert(record_of(event.commits@[i], outcome.commits@[i]));
    }
}

/// A request is turned down with status 400 exactly where no push event can
/// be had from it.
pub proof fn lemma_failures_are_answered_400(
    config: WebhookConfig,
    headers: Seq<Header>,
    body: Seq<u8>,
    outcome: Outcome,
)
    requires
        handled(config, headers, body, outcome),
    ensures
        verdict(config, headers, body) is Err <==> outcome.response.status == 400,
        verdict(config, headers, body) matches Err(error) ==> outcome.disposition
            == Disposition::Failed(error),
{
}

} // verus!
