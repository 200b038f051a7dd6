//! The producer: it builds the request that publishes a message and reads
//! what the service answers.

use vstd::prelude::*;
use crate::client::request_outcome;
use crate::client::Client;
use crate::client::Method;
use crate::client::SignedRequest;
use crate::client::SignedRequestView;
use crate::conf::ClientOption;
use crate::conf::ClientOptionView;
use crate::conf::ProducerOption;
use crate::conf::ProducerOptionView;
use crate::error::ClientError;
use crate::model::message::publish_response_of;
use crate::model::message::publish_xml;
use crate::model::message::PublishMessageRequest;
use crate::model::message::PublishMessageResponse;
use crate::model::properties::entries_view;
use crate::model::properties::Pair;
use crate::model::properties::Properties;
use crate::query::push_optional;
use crate::query::resource;
use crate::query::resource_for;
use crate::query::with_optional;
use crate::xml::xml_tokens;

verus! {

/// The parameters of a publish request: the namespace where it is set.
pub open spec fn publish_parameters(namespace: Option<Seq<char>>) -> Seq<Pair> {
    with_optional(Seq::empty(), "ns"@, namespace)
}

/// What `Producer::publish_message` returns.
pub open spec fn publish_outcome(
    option: ProducerOptionView,
    client: ClientOptionView,
    body: Seq<char>,
    tag: Seq<char>,
    properties: Seq<Pair>,
    unix_seconds: i64,
) -> Result<SignedRequestView, ClientError> {
    if option.topic.len() == 0 {
        Err(ClientError::Config)
    } else {
        match resource_for(option.topic, publish_parameters(client.namespace)) {
            None => Err(ClientError::Unknown),
            Some(resource) => match publish_xml(body, Some(tag), properties) {
                None => Err(ClientError::Xml),
                Some(xml) => request_outcome(
                    client,
                    Method::Post,
                    resource,
                    Some(xml),
                    unix_seconds,
                ),
            },
        }
    }
}

/// A producer of messages for one topic.
#[derive(Debug)]
pub struct Producer {
    option: ProducerOption,
    client: Client,
}

impl Producer {
    /// The producer's own configuration.
    pub closed spec fn option(&self) -> ProducerOptionView {
        self.option@
    }

    /// The configuration of the producer's client.
    pub closed spec fn client(&self) -> ClientOptionView {
        self.client@
    }

    /// A producer with this configuration, and a client with that of
    /// `client_option`.
    pub fn new(option: ProducerOption, client_option: ClientOption) -> (r: Self)
        ensures
            r.option() == option@,
            r.client() == client_option@,
    {
        let client = Client::new(client_option);
        Producer { option, client }
    }

    /// The request that publishes a message with this body, tag and
    /// properties, signed for the point in time `unix_seconds`. What the
    /// service answers is read by `read_response`.
    pub fn publish_message(
        &self,
        body: String,
        tag: String,
        msg_props: Properties,
        unix_seconds: i64,
    ) -> (r: Result<SignedRequest, ClientError>)
        ensures
            match r {
                Ok(request) => publish_outcome(
                    self.option(),
                    self.client(),
                    body@,
                    tag@,
                    msg_props.pairs(),
                    unix_seconds,
                ) == Ok::<SignedRequestView, ClientError>(request@),
                Err(e) => publish_outcome(
                    self.option(),
                    self.client(),
                    body@,
                    tag@,
                    msg_props.pairs(),
                    unix_seconds,
                ) == Err::<SignedRequestView, ClientError>(e),
            },
    {
        if self.option.get_topic().is_empty() {
            return Err(ClientError::Config);
        }
        let request = PublishMessageRequest {
            message_body: body,
            message_tag: Some(tag),
            properties: msg_props,
        };
        let mut parameters: Vec<(String, String)> = Vec::new();
        assert(entries_view(parameters@) =~= Seq::<Pair>::empty());
        push_optional(&mut parameters, "ns", self.client.get_namespace());
        let resource = match resource(self.option.get_topic(), &parameters) {
            Some(resource) => resource,
            None => {
                return Err(ClientError::Unknown);
            },
        };
        let xml = match request.to_xml() {
            Ok(xml) => xml,
            Err(e) => {
                return Err(e);
            },
        };
        self.client.post(resource.as_str(), xml, unix_seconds)
    }

    /// Reads the body that the service sent in answer to a publish request.
    pub fn read_response(body: &str) -> (r: Result<PublishMessageResponse, ClientError>)
        ensures
            match r {
                Ok(response) => publish_response_of(xml_tokens(body@)) == Some(response@),
                Err(e) => e == ClientError::Xml && publish_response_of(xml_tokens(body@)) is None,
            },
    {
        PublishMessageResponse::from_xml(body)
    }
}

} // verus!
