use vstd::prelude::*;

use crate::config::GCPPubSubConsumerConfig;
use crate::config::GCPPubSubInputOpts;
use crate::config::SenderOutputOpts;
use crate::config::SvixClientConfig;
use crate::config::TransformationConfig;
use crate::config::TransformerJob;
use crate::config::TransformerTx;
use crate::runloop::spec_step;
use crate::runloop::Action;
use crate::runloop::Event;
use crate::runloop::LoopState;

verus! {

/// One configured pipeline instance for the GCP Pub/Sub backend: its
/// identity, the subscription it pulls from, the delivery client
/// configuration, and the optional transformation wiring.
pub struct GCPPubSubConsumerPlugin {
    pub name: String,
    pub input_options: GCPPubSubInputOpts,
    pub svix_client: SvixClientConfig,
    pub transformer_tx: Option<TransformerTx>,
    pub transformation: Option<TransformationConfig>,
}

impl GCPPubSubConsumerPlugin {
    /// A received payload goes through the transformation worker exactly when
    /// a transformer channel is wired and a transformation config is set.
    pub open spec fn spec_transform_enabled(&self) -> bool {
        self.transformer_tx is Some && self.transformation is Some
    }

    /// Construct a plugin instance. The delivery client configuration is
    /// taken from the output options; the transformer channel is not wired
    /// yet (two-phase construction).
    pub fn new(
        name: String,
        input: GCPPubSubInputOpts,
        transformation: Option<TransformationConfig>,
        output: SenderOutputOpts,
    ) -> (p: Self)
        ensures
            p.name@ == name@,
            p.input_options.subscription_id@ == input.subscription_id@,
            (p.input_options.credentials_file is Some) == (input.credentials_file is Some),
            input.credentials_file matches Some(c) ==>
                p.input_options.credentials_file matches Some(d) && d@ == c@,
            output matches SenderOutputOpts::Svix(o) ==> {
                &&& p.svix_client.token@ == o.token@
                &&& (p.svix_client.server_url is Some)
                    == (o.options matches Some(so) && so.server_url is Some)
                &&& (o.options matches Some(so) ==> (so.server_url matches Some(u) ==>
                    p.svix_client.server_url matches Some(v) && v@ == u@))
            },
            p.transformer_tx is None,
            (p.transformation is Some) == (transformation is Some),
            transformation matches Some(t) ==>
                p.transformation matches Some(u) && u.src@ == t.src@,
    {
        let svix_client = match output {
            SenderOutputOpts::Svix(o) => {
                let server_url = match o.options {
                    Some(so) => so.server_url,
                    None => None,
                };
                SvixClientConfig { token: o.token, server_url }
            },
        };
        GCPPubSubConsumerPlugin {
            name,
            input_options: input,
            svix_client,
            transformer_tx: None,
            transformation,
        }
    }

    /// The logical source of this instance: the subscription it pulls from.
    pub fn source(&self) -> (r: &str)
        ensures
            r@ == self.input_options.subscription_id@,
    {
        self.input_options.subscription_id.as_str()
    }

    /// The fixed tag of the backend kind this instance uses.
    pub fn system(&self) -> (r: &str)
        ensures
            r@ == "gcp-pubsub"@,
    {
        "gcp-pubsub"
    }

    /// The transformer channel endpoint, if one has been wired in.
    pub fn transformer_tx(&self) -> (r: &Option<TransformerTx>)
        ensures
            r == &self.transformer_tx,
    {
        &self.transformer_tx
    }

    /// The transformation config, if one was set at construction.
    pub fn transformation(&self) -> (r: &Option<TransformationConfig>)
        ensures
            r == &self.transformation,
    {
        &self.transformation
    }

    /// The delivery client configuration.
    pub fn svix_client(&self) -> (r: &SvixClientConfig)
        ensures
            r == &self.svix_client,
    {
        &self.svix_client
    }

    /// The instance's name, for logging and error attribution.
    pub fn name(&self) -> (r: &str)
        ensures
            r@ == self.name@,
    {
        self.name.as_str()
    }

    /// Wire in (or remove) the transformer channel endpoint: the second phase
    /// of construction. Nothing else about the instance changes.
    pub fn set_transformer(&mut self, tx: Option<TransformerTx>)
        ensures
            (final(self).transformer_tx is Some) == (tx is Some),
            final(self).name == old(self).name,
            final(self).input_options == old(self).input_options,
            final(self).svix_client == old(self).svix_client,
            final(self).transformation == old(self).transformation,
    {
        self.transformer_tx = tx;
    }

    /// Whether received payloads go through the transformation worker.
    pub fn transform_enabled(&self) -> (r: bool)
        ensures
            r == self.spec_transform_enabled(),
    {
        self.transformer_tx.is_some() && self.transformation.is_some()
    }

    /// Build the transform request for a received payload: the job the run
    /// loop sends down the transformation channel. Returns a job exactly when
    /// transformation is enabled; otherwise the payload is to be delivered
    /// unchanged.
    pub fn transform_request(&self, payload: Vec<u8>) -> (r: Option<TransformerJob>)
        ensures
            (r is Some) == self.spec_transform_enabled(),
            r matches Some(job) ==> job.payload@ == payload@,
            r matches Some(job) ==> (self.transformation matches Some(t)
                && job.transformation_src@ == t.src@),
    {
        match (&self.transformer_tx, &self.transformation) {
            (Some(_), Some(t)) => Some(
                TransformerJob { payload, transformation_src: t.src.clone() },
            ),
            _ => None,
        }
    }

    /// The connection parameters for the host to open the live subscription.
    /// `topic_id` is a producer-only field and is left empty: the consumer
    /// never depends on it.
    pub fn consumer(&self) -> (r: GCPPubSubConsumerConfig)
        ensures
            r.subscription_id@ == self.input_options.subscription_id@,
            (r.credentials_file is Some) == (self.input_options.credentials_file is Some),
            self.input_options.credentials_file matches Some(c) ==>
                r.credentials_file matches Some(d) && d@ == c@,
            r.topic_id@ == Seq::<char>::empty(),
    {
        let credentials_file = match &self.input_options.credentials_file {
            Some(c) => Some(c.clone()),
            None => None,
        };
        let topic_id = String::new();
        GCPPubSubConsumerConfig {
            subscription_id: self.input_options.subscription_id.clone(),
            credentials_file,
            topic_id,
        }
    }
}

/// With no transformation config set (whether or not a transformer channel
/// is wired), the instance's run loop hands every received payload to the
/// delivery client byte-identical, with no transform request.
pub proof fn lemma_unconfigured_transformation_is_passthrough(
    p: &GCPPubSubConsumerPlugin,
    payload: Vec<u8>,
)
    requires
        p.transformation is None,
    ensures
        !p.spec_transform_enabled(),
        spec_step(
            p.spec_transform_enabled(),
            LoopState::Receiving,
            Event::Received(payload),
        ).1 == Action::Deliver(payload),
{
}

} // verus!
