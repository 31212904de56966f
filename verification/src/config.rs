use vstd::prelude::*;

verus! {

/// Consumer-side input options: which subscription to pull from and, where
/// the host needs one, a path to a credentials file. The path is held as a
/// plain string; only the host that opens the connection interprets it.
pub struct GCPPubSubInputOpts {
    pub subscription_id: String,
    pub credentials_file: Option<String>,
}

/// Producer-side output options. They share the config schema with the input
/// options but are logically disjoint from them: the consumer core never
/// reads a topic.
pub struct GCPPubSubOutputOpts {
    pub topic: String,
    pub credentials_file: Option<String>,
}

/// Options the delivery client is constructed with.
pub struct SvixOptions {
    pub server_url: Option<String>,
}

/// Delivery target: an access token and the client options.
pub struct SvixSenderOutputOpts {
    pub token: String,
    pub options: Option<SvixOptions>,
}

/// The delivery targets a plugin instance can be configured with. A closed
/// set with, today, one variant: the webhook-ingestion API.
pub enum SenderOutputOpts {
    Svix(SvixSenderOutputOpts),
}

/// Everything the delivery client needs, as plain values: the access token
/// and the client options. The client itself (connection pool, HTTP stack)
/// is constructed from this once at startup, outside this crate.
pub struct SvixClientConfig {
    pub token: String,
    pub server_url: Option<String>,
}

/// An opaque reference to user-defined transformation logic. When absent
/// from a plugin, payloads pass through unchanged.
pub struct TransformationConfig {
    pub src: String,
}

/// The run loop's endpoint of the bounded request/response channel to the
/// transformation worker. It is wired in after construction; its presence
/// means "a transformation worker is attached". The channel itself lives in
/// the host: this crate only decides with it, it never sends.
pub struct TransformerTx {
}

/// One request down the transformation channel: the raw payload of the
/// current message and the transformation source to apply. The loop sends at
/// most one of these per message and suspends only on its response, so
/// responses are correlated to requests one-to-one.
pub struct TransformerJob {
    pub payload: Vec<u8>,
    pub transformation_src: String,
}

/// The connection parameters a host needs to open the live subscription for
/// one consumer. `topic_id` is meaningful only to producers and is always
/// left empty by consumer construction paths.
pub struct GCPPubSubConsumerConfig {
    pub subscription_id: String,
    pub credentials_file: Option<String>,
    pub topic_id: String,
}

} // verus!
