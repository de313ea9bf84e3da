//! Client-side logic for a telephony and messaging REST API: webhook
//! signature checking, request decoding, markup responses, and the building
//! and classification of API requests.

pub mod api;
pub mod client;
pub mod error;
pub mod form;
pub mod inbound;
pub mod lookup;
pub mod respond;
pub mod status;
pub mod twiml;
pub mod webhook;

pub use api::{ApiMethod, ApiRequest, OutboundMessage};
pub use client::Client;
pub use error::TwilioError;
pub use form::FieldMapping;
pub use inbound::{Call, Inbound, InboundKind, Message};
pub use respond::WebhookResponse;
pub use status::{InvalidMessageStatus, MessageStatus};
pub use webhook::{Method, WebhookRequest};
