//! The interaction classifier and dispatcher. A verified request body parses
//! into a tagged interaction; each kind gets its immediate acknowledgment or
//! rejection, and a decision callback additionally yields the follow-up work
//! the caller must run only after the acknowledgment has been sent. Parsing
//! itself goes through serde_json and twilight_model behind one trusted
//! wrapper; everything the parsed value decides is verified here.
use vstd::prelude::*;
use twilight_model::application::interaction::Interaction;
use twilight_model::application::interaction::InteractionData;
use twilight_model::application::interaction::InteractionType;
use vstd::string::StringExecFns;
use crate::auth::AuthError;
use crate::auth::hex_decode_spec;
use crate::auth::sig_valid;
use crate::auth::signed_message;
use crate::auth::valid_hex;
use crate::auth::verify_request;
use crate::codec::Action;
use crate::codec::decode_spec;
use crate::codec::decode_token;

verus! {

/// The originating message of a decision callback, as far as this core
/// reads it: its id and its rendered text.
pub struct ComponentMessage {
    pub id: u64,
    pub content: String,
}

/// An inbound interaction after parsing: the tagged union this core
/// classifies. `Unrecognized` stands for every kind/payload combination
/// outside the five known ones.
pub enum Inbound {
    Ping,
    Command,
    Component { custom_id: String, message: Option<ComponentMessage>, channel_id: Option<u64> },
    Autocomplete,
    Modal,
    Unrecognized,
}

/// What the request body parses to: `None` when it is not a well-formed
/// interaction payload. A function of the bytes alone.
pub uninterp spec fn inbound_of(body: Seq<u8>) -> Option<Inbound>;

/// Relies on serde_json::from_slice and twilight_model's Interaction
/// deserializer, and tells the latter's kind/payload variants apart, one
/// arm each, moving fields only.
#[verifier::external_body]
fn parse_inbound(body: &Vec<u8>) -> (r: Option<Inbound>)
    ensures
        r == inbound_of(body@),
{
    let i: Interaction = serde_json::from_slice(body).ok()?;
    let Interaction { kind, data, message, channel, .. } = i;
    Some(match (kind, data) {
        (InteractionType::Ping, _) => Inbound::Ping,
        (InteractionType::ApplicationCommand, Some(InteractionData::ApplicationCommand(_))) => Inbound::Command,
        (InteractionType::MessageComponent, Some(InteractionData::MessageComponent(d))) => Inbound::Component {
            custom_id: d.custom_id,
            message: message.map(|m| ComponentMessage { id: m.id.get(), content: m.content }),
            channel_id: channel.map(|c| c.id.get()),
        },
        (InteractionType::ApplicationCommandAutocomplete, Some(InteractionData::ApplicationCommand(_))) => Inbound::Autocomplete,
        (InteractionType::ModalSubmit, Some(InteractionData::ModalSubmit(_))) => Inbound::Modal,
        _ => Inbound::Unrecognized,
    })
}

/// The immediate acknowledgment returned inside the response window.
#[derive(Clone, Copy, Debug, PartialEq, Eq, Structural)]
pub enum Ack {
    /// The liveness answer to a ping.
    Pong,
    /// The deferred acknowledgment of a decision callback: received, the
    /// heavier work follows asynchronously.
    DeferredUpdate,
}

/// The payload-shape rejection.
#[derive(Clone, Copy, Debug, PartialEq, Eq, Structural)]
pub enum ProtocolError {
    /// The body is not a well-formed or classifiable interaction.
    BadPayload,
}

/// Every way a request is answered without an acknowledgment.
#[derive(Clone, Copy, Debug, PartialEq, Eq, Structural)]
pub enum WebhookRejection {
    /// Authentication failed; never retried.
    Auth(AuthError),
    /// The payload is malformed; expected traffic noise.
    Protocol(ProtocolError),
    /// A recognized but unsupported kind.
    NotImplemented,
    /// A decision callback whose token or originating message is unusable.
    Processing,
}

/// The follow-up work a decision callback defers: the decoded action and
/// transaction id, and the originating message to re-read and retire.
#[derive(Debug, PartialEq, Eq)]
pub struct FollowUp {
    pub action: Action,
    pub transaction_id: String,
    pub content: String,
    pub channel_id: u64,
    pub message_id: u64,
}

/// How a parsed interaction must be answered: a ping gets the pong; a
/// decision callback with a decodable token and a message to act on gets
/// the deferred acknowledgment plus its follow-up work; the recognized but
/// unsupported kinds are rejected as unimplemented; everything else is a
/// bad payload.
pub open spec fn classified(i: Inbound, r: Result<(Ack, Option<FollowUp>), WebhookRejection>) -> bool {
    match i {
        Inbound::Ping => r matches Ok(p) && p.0 is Pong && p.1 is None,
        Inbound::Command => r == Err::<(Ack, Option<FollowUp>), WebhookRejection>(
            WebhookRejection::NotImplemented,
        ),
        Inbound::Autocomplete => r == Err::<(Ack, Option<FollowUp>), WebhookRejection>(
            WebhookRejection::NotImplemented,
        ),
        Inbound::Modal => r == Err::<(Ack, Option<FollowUp>), WebhookRejection>(
            WebhookRejection::NotImplemented,
        ),
        Inbound::Unrecognized => r == Err::<(Ack, Option<FollowUp>), WebhookRejection>(
            WebhookRejection::Protocol(ProtocolError::BadPayload),
        ),
        Inbound::Component { custom_id, message, channel_id } => match (
            decode_spec(custom_id@),
            message,
            channel_id,
        ) {
            (Ok(d), Some(m), Some(ch)) => {
                &&& r matches Ok(p)
                &&& p.0 is DeferredUpdate
                &&& p.1 matches Some(f)
                &&& f.action == d.0
                &&& f.transaction_id@ == d.1
                &&& f.content@ == m.content@
                &&& f.channel_id == ch
                &&& f.message_id == m.id
            },
            _ => r == Err::<(Ack, Option<FollowUp>), WebhookRejection>(WebhookRejection::Processing),
        },
    }
}

/// Classifies one parsed interaction and produces its acknowledgment or
/// rejection, together with the deferred follow-up of a decision callback.
pub fn classify(i: Inbound) -> (r: Result<(Ack, Option<FollowUp>), WebhookRejection>)
    ensures
        classified(i, r),
{
    match i {
        Inbound::Ping => Ok((Ack::Pong, None)),
        Inbound::Command => Err(WebhookRejection::NotImplemented),
        Inbound::Autocomplete => Err(WebhookRejection::NotImplemented),
        Inbound::Modal => Err(WebhookRejection::NotImplemented),
        Inbound::Unrecognized => Err(WebhookRejection::Protocol(ProtocolError::BadPayload)),
        Inbound::Component { custom_id, message, channel_id } => {
            let d = match decode_token(custom_id.as_str()) {
                Ok(d) => d,
                Err(_) => return Err(WebhookRejection::Processing),
            };
            let m = match message {
                Some(m) => m,
                None => return Err(WebhookRejection::Processing),
            };
            let ch = match channel_id {
                Some(c) => c,
                None => return Err(WebhookRejection::Processing),
            };
            Ok(
                (
                    Ack::DeferredUpdate,
                    Some(
                        FollowUp {
                            action: d.0,
                            transaction_id: d.1,
                            content: m.content,
                            channel_id: ch,
                            message_id: m.id,
                        },
                    ),
                ),
            )
        },
    }
}

/// The whole webhook pipeline on one request: authenticate the raw bytes,
/// only then parse and classify them. The caller sends the acknowledgment
/// first and runs any follow-up after it.
pub fn handle_webhook(
    public_key: &Vec<u8>,
    timestamp: Option<&Vec<u8>>,
    signature_hex: Option<&Vec<u8>>,
    body: &Vec<u8>,
) -> (r: Result<(Ack, Option<FollowUp>), WebhookRejection>)
    requires
        public_key@.len() == 32,
    ensures
        (timestamp is None || signature_hex is None) ==> r == Err::<
            (Ack, Option<FollowUp>),
            WebhookRejection,
        >(WebhookRejection::Auth(AuthError::MissingHeader)),
        timestamp matches Some(t) ==> signature_hex matches Some(h) ==> {
            &&& !(valid_hex(h@) && hex_decode_spec(h@).len() == 64) ==> r == Err::<
                (Ack, Option<FollowUp>),
                WebhookRejection,
            >(WebhookRejection::Auth(AuthError::MalformedSignature))
            &&& valid_hex(h@) && hex_decode_spec(h@).len() == 64 && !sig_valid(
                public_key@,
                signed_message(t@, body@),
                hex_decode_spec(h@),
            ) ==> r == Err::<(Ack, Option<FollowUp>), WebhookRejection>(
                WebhookRejection::Auth(AuthError::InvalidSignature),
            )
            &&& valid_hex(h@) && hex_decode_spec(h@).len() == 64 && sig_valid(
                public_key@,
                signed_message(t@, body@),
                hex_decode_spec(h@),
            ) ==> {
                &&& inbound_of(body@) is None ==> r == Err::<
                    (Ack, Option<FollowUp>),
                    WebhookRejection,
                >(WebhookRejection::Protocol(ProtocolError::BadPayload))
                &&& inbound_of(body@) matches Some(i) ==> classified(i, r)
            }
        },
{
    match verify_request(public_key, timestamp, signature_hex, body) {
        Ok(u) => u,
        Err(e) => return Err(WebhookRejection::Auth(e)),
    };
    match parse_inbound(body) {
        None => Err(WebhookRejection::Protocol(ProtocolError::BadPayload)),
        Some(i) => classify(i),
    }
}

/// The HTTP status a rejection maps to: signature failure is 401, malformed
/// or unauthenticated payloads are 400, recognized-but-unsupported kinds
/// are 501, and a failing decision callback is 500.
pub fn status_code(r: &WebhookRejection) -> (s: u16)
    ensures
        *r == WebhookRejection::Auth(AuthError::InvalidSignature) ==> s == 401,
        *r == WebhookRejection::Auth(AuthError::MissingHeader) ==> s == 400,
        *r == WebhookRejection::Auth(AuthError::MalformedSignature) ==> s == 400,
        *r matches WebhookRejection::Protocol(_) ==> s == 400,
        *r is NotImplemented ==> s == 501,
        *r is Processing ==> s == 500,
{
    match r {
        WebhookRejection::Auth(AuthError::InvalidSignature) => 401,
        WebhookRejection::Auth(AuthError::MissingHeader) => 400,
        WebhookRejection::Auth(AuthError::MalformedSignature) => 400,
        WebhookRejection::Protocol(_) => 400,
        WebhookRejection::NotImplemented => 501,
        WebhookRejection::Processing => 500,
    }
}

} // verus!
