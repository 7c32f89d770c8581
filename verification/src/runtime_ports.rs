//! The ports a runtime is given: credentials, the model, state, telemetry
//! and the clock. Each is a trait that its embedder implements.
use vstd::prelude::*;

use std::collections::BTreeMap;

verus! {

/// How the user is signed in.
#[derive(Clone, Copy, PartialEq, Eq, Structural, Debug)]
pub enum AuthMode {
    ApiKey,
    Chatgpt,
    ChatgptAuthTokens,
    AgentIdentity,
}

/// An account and its secret.
#[derive(Clone, Debug, PartialEq, Eq)]
pub struct AuthCredential {
    pub account_id: String,
    pub secret: String,
}

/// Supplies credentials.
pub trait AuthProvider {
    type Error;

    fn credential(&self) -> Result<AuthCredential, Self::Error>;
}

/// A request to a model: the model's name and the input.
#[derive(Clone, Debug, PartialEq, Eq)]
pub struct ModelRequest {
    pub model: String,
    pub input: String,
}

/// What the model answered.
#[derive(Clone, Debug, PartialEq, Eq)]
pub struct ModelResponse {
    pub output: String,
}

/// Sends requests to a model.
pub trait ModelClient {
    type Error;

    fn send_model_request(&self, request: ModelRequest) -> Result<ModelResponse, Self::Error>;
}

/// A request and response channel of the runtime.
pub trait RuntimePort {
    type Request;

    type Response;

    type Error;

    fn send(&self, request: Self::Request) -> Result<Self::Response, Self::Error>;
}

/// The wall clock, in seconds since the Unix epoch.
pub trait RuntimeClock {
    fn unix_timestamp_seconds(&self) -> i64;
}

/// A stored value under a collection and a key.
#[derive(Clone, Debug, PartialEq, Eq)]
pub struct StateRecord {
    pub collection: String,
    pub key: String,
    pub value: Vec<u8>,
}

/// Reads and writes state records.
pub trait StateDb {
    type Error;

    fn get_state_record(&self, collection: &str, key: &str) -> Result<Option<StateRecord>, Self::Error>;

    fn put_state_record(&mut self, record: StateRecord) -> Result<(), Self::Error>;
}

/// A named telemetry event with its attributes.
#[derive(Clone, Debug, PartialEq, Eq)]
pub struct TelemetryEvent {
    pub name: String,
    pub attributes: BTreeMap<String, String>,
}

/// Receives telemetry events.
pub trait TelemetrySink {
    fn emit(&self, event: TelemetryEvent);
}

} // verus!
