//! Configuration values: plain records with setters and getters.

use vstd::prelude::*;

verus! {

/// The text of an optional string.
pub open spec fn opt_text(s: Option<String>) -> Option<Seq<char>> {
    match s {
        Some(s) => Some(s@),
        None => None,
    }
}

fn opt_str(s: &Option<String>) -> (r: Option<&str>)
    ensures
        match r {
            Some(t) => opt_text(*s) == Some(t@),
            None => opt_text(*s) is None,
        },
{
    match s {
        Some(s) => Some(s.as_str()),
        None => None,
    }
}

/// What a client needs to reach the service and to sign its requests.
#[derive(Debug, Clone)]
pub struct ClientOption {
    pub endpoint: String,
    pub access_key_id: String,
    pub access_key_secret: String,
    pub security_token: Option<String>,
    pub namespace: Option<String>,
}

/// A `ClientOption` as the contracts see it.
pub struct ClientOptionView {
    pub endpoint: Seq<char>,
    pub access_key_id: Seq<char>,
    pub access_key_secret: Seq<char>,
    pub security_token: Option<Seq<char>>,
    pub namespace: Option<Seq<char>>,
}

impl View for ClientOption {
    type V = ClientOptionView;

    open spec fn view(&self) -> ClientOptionView {
        ClientOptionView {
            endpoint: self.endpoint@,
            access_key_id: self.access_key_id@,
            access_key_secret: self.access_key_secret@,
            security_token: opt_text(self.security_token),
            namespace: opt_text(self.namespace),
        }
    }
}

impl Default for ClientOption {
    /// A local endpoint, empty credentials, no token and no namespace.
    fn default() -> (r: Self)
        ensures
            r@ == (ClientOptionView {
                endpoint: "localhost:8081"@,
                access_key_id: Seq::empty(),
                access_key_secret: Seq::empty(),
                security_token: None,
                namespace: None,
            }),
    {
        ClientOption {
            endpoint: "localhost:8081".to_owned(),
            access_key_id: String::new(),
            access_key_secret: String::new(),
            security_token: None,
            namespace: None,
        }
    }
}

impl ClientOption {
    /// Sets the base URL of all requests.
    pub fn set_endpoint(&mut self, endpoint: &str)
        ensures
            final(self)@ == (ClientOptionView { endpoint: endpoint@, ..old(self)@ }),
    {
        self.endpoint = endpoint.to_owned();
    }

    /// The base URL of all requests.
    pub fn get_endpoint(&self) -> (r: &str)
        ensures
            r@ == self@.endpoint,
    {
        self.endpoint.as_str()
    }

    /// Sets the identity that stands in the authorization header.
    pub fn set_access_key_id(&mut self, access_key_id: &str)
        ensures
            final(self)@ == (ClientOptionView { access_key_id: access_key_id@, ..old(self)@ }),
    {
        self.access_key_id = access_key_id.to_owned();
    }

    /// The identity that stands in the authorization header.
    pub fn get_access_key_id(&self) -> (r: &str)
        ensures
            r@ == self@.access_key_id,
    {
        self.access_key_id.as_str()
    }

    /// Sets the key under which requests are signed.
    pub fn set_access_key_secret(&mut self, access_key_secret: &str)
        ensures
            final(self)@ == (ClientOptionView {
                access_key_secret: access_key_secret@,
                ..old(self)@
            }),
    {
        self.access_key_secret = access_key_secret.to_owned();
    }

    /// The key under which requests are signed.
    pub fn get_access_key_secret(&self) -> (r: &str)
        ensures
            r@ == self@.access_key_secret,
    {
        self.access_key_secret.as_str()
    }

    /// Sets the security token.
    pub fn set_security_token(&mut self, security_token: &str)
        ensures
            final(self)@ == (ClientOptionView {
                security_token: Some(security_token@),
                ..old(self)@
            }),
    {
        self.security_token = Some(security_token.to_owned());
    }

    /// The security token, where one is set.
    pub fn get_security_token(&self) -> (r: Option<&str>)
        ensures
            match r {
                Some(t) => self@.security_token == Some(t@),
                None => self@.security_token is None,
            },
    {
        opt_str(&self.security_token)
    }

    /// Sets the namespace.
    pub fn set_namespace(&mut self, namespace: &str)
        ensures
            final(self)@ == (ClientOptionView { namespace: Some(namespace@), ..old(self)@ }),
    {
        self.namespace = Some(namespace.to_owned());
    }

    /// The namespace, where one is set.
    pub fn get_namespace(&self) -> (r: Option<&str>)
        ensures
            match r {
                Some(t) => self@.namespace == Some(t@),
                None => self@.namespace is None,
            },
    {
        opt_str(&self.namespace)
    }
}

/// What a consumer reads from: a consumer group, a topic and an optional tag
/// that filters the messages.
#[derive(Debug, Clone)]
pub struct ConsumerOption {
    group: String,
    topic: String,
    tag: Option<String>,
}

/// A `ConsumerOption` as the contracts see it.
pub struct ConsumerOptionView {
    pub group: Seq<char>,
    pub topic: Seq<char>,
    pub tag: Option<Seq<char>>,
}

impl View for ConsumerOption {
    type V = ConsumerOptionView;

    closed spec fn view(&self) -> ConsumerOptionView {
        ConsumerOptionView { group: self.group@, topic: self.topic@, tag: opt_text(self.tag) }
    }
}

impl Default for ConsumerOption {
    /// An empty group, the topic `localhost:8081` and no tag.
    fn default() -> (r: Self)
        ensures
            r@ == (ConsumerOptionView {
                group: Seq::empty(),
                topic: "localhost:8081"@,
                tag: None,
            }),
    {
        ConsumerOption { group: String::new(), topic: "localhost:8081".to_owned(), tag: None }
    }
}

impl ConsumerOption {
    /// Sets the consumer group.
    pub fn set_group(&mut self, group: &str)
        ensures
            final(self)@ == (ConsumerOptionView { group: group@, ..old(self)@ }),
    {
        self.group = group.to_owned();
    }

    /// The consumer group.
    pub fn get_group(&self) -> (r: &str)
        ensures
            r@ == self@.group,
    {
        self.group.as_str()
    }

    /// Sets the topic.
    pub fn set_topic(&mut self, topic: &str)
        ensures
            final(self)@ == (ConsumerOptionView { topic: topic@, ..old(self)@ }),
    {
        self.topic = topic.to_owned();
    }

    /// The topic.
    pub fn get_topic(&self) -> (r: &str)
        ensures
            r@ == self@.topic,
    {
        self.topic.as_str()
    }

    /// Sets the tag that filters the messages.
    pub fn set_tag(&mut self, tag: &str)
        ensures
            final(self)@ == (ConsumerOptionView { tag: Some(tag@), ..old(self)@ }),
    {
        self.tag = Some(tag.to_owned());
    }

    /// The tag that filters the messages, where one is set.
    pub fn get_tag(&self) -> (r: Option<&str>)
        ensures
            match r {
                Some(t) => self@.tag == Some(t@),
                None => self@.tag is None,
            },
    {
        opt_str(&self.tag)
    }
}

/// What a producer writes to: a topic, and a group that is kept for later
/// use and does not reach the wire.
#[derive(Debug, Clone)]
pub struct ProducerOption {
    group: Option<String>,
    topic: String,
}

/// A `ProducerOption` as the contracts see it.
pub struct ProducerOptionView {
    pub group: Option<Seq<char>>,
    pub topic: Seq<char>,
}

impl View for ProducerOption {
    type V = ProducerOptionView;

    closed spec fn view(&self) -> ProducerOptionView {
        ProducerOptionView { group: opt_text(self.group), topic: self.topic@ }
    }
}

impl Default for ProducerOption {
    /// No group and an empty topic.
    fn default() -> (r: Self)
        ensures
            r@ == (ProducerOptionView { group: None, topic: Seq::empty() }),
    {
        ProducerOption { group: None, topic: String::new() }
    }
}

impl ProducerOption {
    /// Sets the group.
    pub fn set_group(&mut self, group: &str)
        ensures
            final(self)@ == (ProducerOptionView { group: Some(group@), ..old(self)@ }),
    {
        self.group = Some(group.to_owned());
    }

    /// The group, where one is set.
    pub fn get_group(&self) -> (r: Option<&str>)
        ensures
            match r {
                Some(t) => self@.group == Some(t@),
                None => self@.group is None,
            },
    {
        opt_str(&self.group)
    }

    /// Sets the topic.
    pub fn set_topic(&mut self, topic: &str)
        ensures
            final(self)@ == (ProducerOptionView { topic: topic@, ..old(self)@ }),
    {
        self.topic = topic.to_owned();
    }

    /// The topic.
    pub fn get_topic(&self) -> (r: &str)
        ensures
            r@ == self@.topic,
    {
        self.topic.as_str()
    }
}

} // verus!
