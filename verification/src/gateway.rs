//! The gateway client: where a request goes, and what to make of the reply.

use crate::failure::{fails_with, Failure, FailureKind, FailureKindText, FailureText};
use crate::status::{status_line, Status};
use crate::text::{join2, join3};
use crate::types::{AskRequestForChat, AskResponse, ChatMessage};
use vstd::prelude::*;
use vstd::string::*;

verus! {

/// The address of the gateway.
pub const API_BASE_URL: &'static str = "http://localhost:8080";

/// The endpoint that answers questions.
pub const ASK_ENDPOINT: &'static str = "/ask";

/// The endpoint that forgets a conversation.
pub const RESET_ENDPOINT: &'static str = "/reset";

/// The endpoint that stores a character.
pub const SAVE_CHARACTER_ENDPOINT: &'static str = "/save-character";

/// The model that answers in a chat.
pub const CHAT_MODEL: &'static str = "dolphin-mistral";

/// What is shown in place of a response body that could not be read.
pub const UNREADABLE_BODY: &'static str = "Impossible de lire le corps de la réponse";

/// The status of a response that is no success. One is made only by
/// `body_use`, so a rejection never carries a status that stands for success.
#[derive(Debug, Clone, Copy, PartialEq, Eq)]
pub struct Rejection {
    status: Status,
}

impl Rejection {
    #[verifier::type_invariant]
    spec fn no_success(self) -> bool {
        !self.status.success()
    }

    /// The status that the gateway answered with.
    pub closed spec fn status(self) -> Status {
        self.status
    }

    /// The status that the gateway answered with: it is no success.
    pub fn as_status(&self) -> (r: Status)
        ensures
            r == self.status(),
            !r.success(),
    {
        proof {
            use_type_invariant(self);
        }
        self.status
    }
}

/// What to do with the body of a response, by its status.
#[derive(Debug, Clone, Copy, PartialEq, Eq)]
pub enum BodyUse {
    /// The status stands for success: the body carries the value.
    Decode,
    /// The status is no success: the body only goes into the report.
    Report(Rejection),
}

/// Decides what to do with the body of a response: it is decoded exactly
/// when the status stands for success, and reported with the status else.
pub fn body_use(status: &Status) -> (r: BodyUse)
    ensures
        r is Decode <==> status.success(),
        r matches BodyUse::Report(rejection) ==> rejection.status() == *status,
{
    if status.is_success() {
        BodyUse::Decode
    } else {
        BodyUse::Report(Rejection { status: *status })
    }
}

/// What came of a request whose response carries a value.
#[derive(Debug)]
pub enum Reply<R> {
    /// The request did not reach the gateway; the text says why.
    Unreachable(String),
    /// The gateway answered with success and the body was decoded.
    Decoded(R),
    /// The gateway answered with success and the body could not be decoded;
    /// the text says why.
    Undecodable(String),
    /// The gateway answered with a status that is no success, and with this
    /// body if it could be read.
    Rejected(Rejection, Option<String>),
}

/// What came of a request whose response carries nothing to read.
#[derive(Debug)]
pub enum Delivery {
    /// The request did not reach the gateway; the text says why.
    Unreachable(String),
    /// The gateway answered with success.
    Accepted,
    /// The gateway answered with a status that is no success, and with this
    /// body if it could be read.
    Rejected(Rejection, Option<String>),
}

/// The body to show for a response: its own if it could be read.
pub open spec fn shown_body(body: Option<String>) -> Seq<char> {
    match body {
        Some(text) => text@,
        None => "Impossible de lire le corps de la réponse"@,
    }
}

/// The failure to report for a response that is no success: it carries the
/// status code and the body to show, and its message is made of `prefix`, the
/// line that shows the status, a colon and the body.
pub open spec fn rejection_of(prefix: Seq<char>, status: u16, line: Seq<char>, body: Option<String>) -> FailureText {
    FailureText {
        kind: FailureKindText::GatewayFailure { status, body: shown_body(body) },
        message: prefix + line + ": "@ + shown_body(body),
    }
}

/// Whether `r` is the failure to report for a response with the given status
/// and body, with a message that starts with `prefix`.
pub open spec fn rejected_with<T>(r: Result<T, Failure>, prefix: Seq<char>, status: Status, body: Option<String>) -> bool {
    r matches Err(failure) && failure@ == rejection_of(prefix, status.code(), status_line(status.code()), body)
}

/// The address of an endpoint of the gateway.
pub fn endpoint_url(endpoint: &str) -> (r: String)
    ensures
        r@ == "http://localhost:8080"@ + endpoint@,
{
    join2(API_BASE_URL, endpoint)
}

/// Makes the failure to report for a response that is no success, from its
/// status code, the line that shows the status, and the body if it was read.
pub fn rejection(prefix: &str, status: u16, line: &str, body: Option<String>) -> (r: Failure)
    ensures
        r@ == rejection_of(prefix@, status, line@, body),
{
    let shown = match body {
        Some(text) => text,
        None => UNREADABLE_BODY.to_string(),
    };
    let mut message = join3(prefix, line, ": ");
    message.append(shown.as_str());
    Failure { kind: FailureKind::GatewayFailure { status, body: shown }, message }
}

fn report(prefix: &str, rejection: Rejection, body: Option<String>) -> (r: Failure)
    ensures
        rejected_with::<()>(Err(r), prefix@, rejection.status(), body),
        !rejection.status().success(),
{
    let status = rejection.as_status();
    self::rejection(prefix, status.as_u16(), status.line().as_str(), body)
}

/// Gives the value that a request was answered with, or the failure to report:
/// `TransportFailure` where the gateway was not reached, `DecodeFailure` where
/// the body of a success could not be decoded, `GatewayFailure` with the
/// status and the body where the gateway answered otherwise.
pub fn make_http_request<R>(reply: Reply<R>) -> (r: Result<R, Failure>)
    ensures
        match reply {
            Reply::Unreachable(why) => fails_with(
                r,
                FailureKindText::TransportFailure,
                "Erreur de connexion à l'API: "@ + why@,
            ),
            Reply::Decoded(value) => r == Ok::<R, Failure>(value),
            Reply::Undecodable(why) => fails_with(
                r,
                FailureKindText::DecodeFailure,
                "Erreur de parsing de la réponse: "@ + why@,
            ),
            Reply::Rejected(rejection, body) => rejected_with(
                r,
                "Erreur API "@,
                rejection.status(),
                body,
            ) && !rejection.status().success(),
        },
{
    match reply {
        Reply::Unreachable(why) => Err(
            Failure {
                kind: FailureKind::TransportFailure,
                message: join2("Erreur de connexion à l'API: ", why.as_str()),
            },
        ),
        Reply::Decoded(value) => Ok(value),
        Reply::Undecodable(why) => Err(
            Failure {
                kind: FailureKind::DecodeFailure,
                message: join2("Erreur de parsing de la réponse: ", why.as_str()),
            },
        ),
        Reply::Rejected(rejection, body) => Err(report("Erreur API ", rejection, body)),
    }
}

/// What a request without a value in its response gives, with `done` as the
/// acknowledgement of a success.
pub open spec fn delivery_of(delivery: Delivery, done: Seq<char>, r: Result<String, Failure>) -> bool {
    match delivery {
        Delivery::Unreachable(why) => fails_with(
            r,
            FailureKindText::TransportFailure,
            "Erreur de connexion: "@ + why@,
        ),
        Delivery::Accepted => r matches Ok(text) && text@ == done,
        Delivery::Rejected(rejection, body) => rejected_with(r, "Erreur "@, rejection.status(), body)
            && !rejection.status().success(),
    }
}

fn acknowledge(delivery: Delivery, done: &str) -> (r: Result<String, Failure>)
    ensures
        delivery_of(delivery, done@, r),
{
    match delivery {
        Delivery::Unreachable(why) => Err(
            Failure {
                kind: FailureKind::TransportFailure,
                message: join2("Erreur de connexion: ", why.as_str()),
            },
        ),
        Delivery::Accepted => Ok(done.to_string()),
        Delivery::Rejected(rejection, body) => Err(report("Erreur ", rejection, body)),
    }
}

/// Acknowledges a request that was answered with success, or gives the failure
/// to report: `TransportFailure` where the gateway was not reached,
/// `GatewayFailure` with the status and the body where it answered otherwise.
pub fn make_simple_post_request(delivery: Delivery) -> (r: Result<String, Failure>)
    ensures
        delivery_of(delivery, "Opération réussie"@, r),
{
    acknowledge(delivery, "Opération réussie")
}

/// Acknowledges that a conversation was forgotten, or gives the failure to
/// report.
pub fn reset_conversation(delivery: Delivery) -> (r: Result<String, Failure>)
    ensures
        delivery_of(delivery, "Conversation réinitialisée"@, r),
{
    acknowledge(delivery, "Conversation réinitialisée")
}

/// Acknowledges that a character was stored by the gateway, or gives the
/// failure to report.
pub fn save_character(delivery: Delivery) -> (r: Result<String, Failure>)
    ensures
        delivery_of(delivery, "Personnage sauvegardé"@, r),
{
    acknowledge(delivery, "Personnage sauvegardé")
}

/// Makes the question that a turn of a chat sends to the gateway: the persona
/// asks as the user, and the conversation so far goes along.
pub fn chat_request(input: String, character_id: String, persona_id: String, history: Vec<ChatMessage>) -> (r:
    AskRequestForChat)
    ensures
        r.question == input,
        r.character_id == character_id,
        r.user_id == persona_id,
        r.model@ == "dolphin-mistral"@,
        r.memory == history,
{
    AskRequestForChat {
        question: input,
        character_id,
        user_id: persona_id,
        model: CHAT_MODEL.to_string(),
        memory: history,
    }
}

/// Gives the answer of a turn of a chat, or the failure of the request with
/// its message marked as coming from the model.
pub fn chat_with_character(outcome: Result<AskResponse, Failure>) -> (r: Result<String, Failure>)
    ensures
        match outcome {
            Ok(response) => r == Ok::<String, Failure>(response.answer),
            Err(failure) => fails_with(r, failure@.kind, "Erreur LLM: "@ + failure@.message),
        },
{
    match outcome {
        Ok(response) => Ok(response.answer),
        Err(failure) => Err(
            Failure { kind: failure.kind, message: join2("Erreur LLM: ", failure.message.as_str()) },
        ),
    }
}

} // verus!
