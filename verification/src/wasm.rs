use vstd::prelude::*;
use vstd::string::*;
use crate::text::concat2;

verus! {

/// Errors of the browser-gateway client.
#[derive(Debug, Clone)]
pub enum WasmDdsError {
    WebSocket(String),
    Serialization(String),
    NotConnected,
    TopicNotFound(String),
    /// An observable wait (open handshake, sample arrival) exceeded its
    /// deadline.
    Timeout,
    /// The requested feature or QoS is not implemented by this profile.
    Unsupported(String),
}

pub type WasmDdsResult<T> = Result<T, WasmDdsError>;

/// The message of a gateway error, as its `Display` text reads.
pub open spec fn wasm_error_text(e: WasmDdsError) -> Seq<char> {
    match e {
        WasmDdsError::WebSocket(s) => "WebSocket error: "@ + s@,
        WasmDdsError::Serialization(s) => "serialization error: "@ + s@,
        WasmDdsError::NotConnected => "not connected"@,
        WasmDdsError::TopicNotFound(s) => "topic not found: "@ + s@,
        WasmDdsError::Timeout => "timed out"@,
        WasmDdsError::Unsupported(s) => "unsupported: "@ + s@,
    }
}

impl WasmDdsError {
    /// The human-readable message of this error.
    pub fn to_string(&self) -> (r: String)
        ensures
            r@ == wasm_error_text(*self),
    {
        match self {
            WasmDdsError::WebSocket(s) => concat2("WebSocket error: ", s.as_str()),
            WasmDdsError::Serialization(s) => concat2("serialization error: ", s.as_str()),
            WasmDdsError::NotConnected => "not connected".to_owned(),
            WasmDdsError::TopicNotFound(s) => concat2("topic not found: ", s.as_str()),
            WasmDdsError::Timeout => "timed out".to_owned(),
            WasmDdsError::Unsupported(s) => concat2("unsupported: ", s.as_str()),
        }
    }
}

/// The browser-gateway participant as it stands on a host target: it keeps
/// the bridge URL and the topics it was asked for, and has no socket, so
/// disconnecting does nothing.
pub struct WasmDomainParticipant {
    url: String,
}

impl WasmDomainParticipant {
    /// The bridge URL the participant was created with.
    pub closed spec fn bridge_url(&self) -> Seq<char> {
        self.url@
    }

    /// A participant for the bridge at `url`.
    pub fn new(url: &str) -> (r: WasmDdsResult<std::rc::Rc<Self>>)
        ensures
            r matches Ok(p) && p.bridge_url() == url@,
    {
        Ok(std::rc::Rc::new(WasmDomainParticipant { url: url.to_owned() }))
    }

    /// Bridge URL this participant was created with.
    pub fn url(&self) -> (r: &str)
        ensures
            r@ == self.bridge_url(),
    {
        self.url.as_str()
    }

    /// Disconnects from the bridge; without a socket there is nothing to
    /// close, so this may be called any number of times.
    pub fn disconnect(&self) {
    }

    /// A topic handle for `name`.
    pub fn create_topic<T>(&self, name: &str) -> (r: WasmDdsResult<WasmTopic<T>>)
        ensures
            r matches Ok(t) && t.topic_name() == name@,
    {
        Ok(WasmTopic { name: name.to_owned(), _marker: std::marker::PhantomData })
    }
}

/// A topic handle in the gateway runtime.
pub struct WasmTopic<T> {
    name: String,
    _marker: std::marker::PhantomData<T>,
}

impl<T> WasmTopic<T> {
    /// The name of the topic.
    pub closed spec fn topic_name(&self) -> Seq<char> {
        self.name@
    }
}

} // verus!
