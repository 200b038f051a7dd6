//! The consumer: it builds the requests that fetch and acknowledge messages
//! and reads what a fetch brings back.

use vstd::prelude::*;
use crate::client::request_outcome;
use crate::client::Client;
use crate::client::Method;
use crate::client::SignedRequest;
use crate::client::SignedRequestView;
use crate::conf::ClientOption;
use crate::conf::ClientOptionView;
use crate::conf::ConsumerOption;
use crate::conf::ConsumerOptionView;
use crate::error::ClientError;
use crate::model::message::ack_xml;
use crate::model::message::consumer_response_of;
use crate::model::message::texts_view;
use crate::model::message::AckMessageRequest;
use crate::model::message::ConsumerResponse;
use crate::model::properties::entries_view;
use crate::model::properties::Pair;
use crate::query::push_optional;
use crate::query::resource;
use crate::query::resource_for;
use crate::query::with_optional;
use crate::text::decimal;
use crate::text::decimal_text;
use crate::xml::xml_tokens;

verus! {

/// The parameters of a fetch, in order: the group, the number of messages,
/// the seconds to wait, the tag and the namespace where they are set.
pub open spec fn consume_parameters(
    option: ConsumerOptionView,
    namespace: Option<Seq<char>>,
    number_of_messages: u8,
    wait_seconds: u8,
) -> Seq<Pair> {
    let fixed = seq![
        ("consumer"@, option.group),
        ("numOfMessages"@, decimal_text(number_of_messages as nat)),
        ("waitSeconds"@, decimal_text(wait_seconds as nat)),
    ];
    with_optional(with_optional(fixed, "tag"@, option.tag), "ns"@, namespace)
}

/// The parameters of an acknowledgement, in order: the namespace where it is
/// set, and the group.
pub open spec fn ack_parameters(option: ConsumerOptionView, namespace: Option<Seq<char>>) -> Seq<
    Pair,
> {
    with_optional(Seq::empty(), "ns"@, namespace).push(("consumer"@, option.group))
}

/// Whether a consumer's configuration names a group and a topic.
pub open spec fn usable_consumer(option: ConsumerOptionView) -> bool {
    option.group.len() > 0 && option.topic.len() > 0
}

/// What `Consumer::consumer_message` returns.
pub open spec fn consume_outcome(
    option: ConsumerOptionView,
    client: ClientOptionView,
    number_of_messages: u8,
    wait_seconds: u8,
    unix_seconds: i64,
) -> Result<SignedRequestView, ClientError> {
    if !usable_consumer(option) {
        Err(ClientError::Config)
    } else {
        match resource_for(
            option.topic,
            consume_parameters(option, client.namespace, number_of_messages, wait_seconds),
        ) {
            None => Err(ClientError::Unknown),
            Some(resource) => request_outcome(client, Method::Get, resource, None, unix_seconds),
        }
    }
}

/// What `Consumer::ack` returns.
pub open spec fn ack_outcome(
    option: ConsumerOptionView,
    client: ClientOptionView,
    receipt_handles: Seq<Seq<char>>,
    unix_seconds: i64,
) -> Result<SignedRequestView, ClientError> {
    if !usable_consumer(option) {
        Err(ClientError::Config)
    } else {
        match resource_for(option.topic, ack_parameters(option, client.namespace)) {
            None => Err(ClientError::Unknown),
            Some(resource) => match ack_xml(receipt_handles) {
                None => Err(ClientError::Xml),
                Some(xml) => request_outcome(
                    client,
                    Method::Delete,
                    resource,
                    Some(xml),
                    unix_seconds,
                ),
            },
        }
    }
}

/// A consumer of one topic, as a member of one group.
#[derive(Debug)]
pub struct Consumer {
    option: ConsumerOption,
    client: Client,
}

impl Consumer {
    /// The consumer's own configuration.
    pub closed spec fn option(&self) -> ConsumerOptionView {
        self.option@
    }

    /// The configuration of the consumer's client.
    pub closed spec fn client(&self) -> ClientOptionView {
        self.client@
    }

    /// A consumer with this configuration, and a client with that of
    /// `client_option`.
    pub fn new(option: ConsumerOption, client_option: ClientOption) -> (r: Self)
        ensures
            r.option() == option@,
            r.client() == client_option@,
    {
        let client = Client::new(client_option);
        Consumer { option, client }
    }

    fn is_usable(&self) -> (r: bool)
        ensures
            r == usable_consumer(self.option()),
    {
        !self.option.get_group().is_empty() && !self.option.get_topic().is_empty()
    }

    /// The request that fetches up to `number_of_messages` messages and waits
    /// up to `wait_seconds` seconds for them, signed for the point in time
    /// `unix_seconds`. What the service answers is read by `read_response`.
    pub fn consumer_message(&self, number_of_messages: u8, wait_seconds: u8, unix_seconds: i64) -> (r:
        Result<SignedRequest, ClientError>)
        ensures
            match r {
                Ok(request) => consume_outcome(
                    self.option(),
                    self.client(),
                    number_of_messages,
                    wait_seconds,
                    unix_seconds,
                ) == Ok::<SignedRequestView, ClientError>(request@),
                Err(e) => consume_outcome(
                    self.option(),
                    self.client(),
                    number_of_messages,
                    wait_seconds,
                    unix_seconds,
                ) == Err::<SignedRequestView, ClientError>(e),
            },
    {
        if !self.is_usable() {
            return Err(ClientError::Config);
        }
        let mut parameters: Vec<(String, String)> = Vec::new();
        parameters.push(("consumer".to_owned(), self.option.get_group().to_owned()));
        parameters.push(("numOfMessages".to_owned(), decimal(number_of_messages as u64)));
        parameters.push(("waitSeconds".to_owned(), decimal(wait_seconds as u64)));
        assert(entries_view(parameters@) =~= seq![
            ("consumer"@, self.option().group),
            ("numOfMessages"@, decimal_text(number_of_messages as nat)),
            ("waitSeconds"@, decimal_text(wait_seconds as nat)),
        ]);
        push_optional(&mut parameters, "tag", self.option.get_tag());
        push_optional(&mut parameters, "ns", self.client.get_namespace());
        let resource = match resource(self.option.get_topic(), &parameters) {
            Some(resource) => resource,
            None => {
                return Err(ClientError::Unknown);
            },
        };
        self.client.get(resource.as_str(), unix_seconds)
    }

    /// Reads the body that the service sent in answer to a fetch. Messages
    /// and the service's error document are both a success of the call.
    pub fn read_response(body: &str) -> (r: Result<ConsumerResponse, ClientError>)
        ensures
            match r {
                Ok(response) => consumer_response_of(xml_tokens(body@)) == Some(response@),
                Err(e) => e == ClientError::Xml && consumer_response_of(xml_tokens(body@))
                    is None,
            },
    {
        ConsumerResponse::from_xml(body)
    }

    /// The request that acknowledges the messages with these receipt handles,
    /// signed for the point in time `unix_seconds`.
    pub fn ack(&self, receipt_handles: Vec<String>, unix_seconds: i64) -> (r: Result<
        SignedRequest,
        ClientError,
    >)
        ensures
            match r {
                Ok(request) => ack_outcome(
                    self.option(),
                    self.client(),
                    texts_view(receipt_handles@),
                    unix_seconds,
                ) == Ok::<SignedRequestView, ClientError>(request@),
                Err(e) => ack_outcome(
                    self.option(),
                    self.client(),
                    texts_view(receipt_handles@),
                    unix_seconds,
                ) == Err::<SignedRequestView, ClientError>(e),
            },
    {
        if !self.is_usable() {
            return Err(ClientError::Config);
        }
        let mut parameters: Vec<(String, String)> = Vec::new();
        assert(entries_view(parameters@) =~= Seq::<Pair>::empty());
        push_optional(&mut parameters, "ns", self.client.get_namespace());
        let ghost before = entries_view(parameters@);
        parameters.push(("consumer".to_owned(), self.option.get_group().to_owned()));
        assert(entries_view(parameters@) =~= before.push(("consumer"@, self.option().group)));
        let resource = match resource(self.option.get_topic(), &parameters) {
            Some(resource) => resource,
            None => {
                return Err(ClientError::Unknown);
            },
        };
        let request = AckMessageRequest { receipt_handle: receipt_handles };
        let xml = match request.to_xml() {
            Ok(xml) => xml,
            Err(e) => {
                return Err(e);
            },
        };
        self.client.delete(resource.as_str(), xml, unix_seconds)
    }
}

} // verus!
