use vstd::prelude::*;

verus! {

/// The ways in which a request to the service can fail before or after dispatch.
#[derive(Debug, Clone, Copy, PartialEq, Eq, Structural)]
pub enum ClientError {
    /// The configuration is not usable: the access key id or secret is empty.
    Config,
    /// The keyed digest for the authorization header could not be computed.
    Signature,
    /// The method is none of GET, POST and DELETE.
    UnsupportedMethod,
    /// The endpoint followed by the resource is not a URL.
    Url,
    /// A payload could not be written as XML, or a body is not a document of the expected shape.
    Xml,
    /// The HTTP transport failed.
    Transport,
    /// Reserved.
    Unknown,
}

impl ClientError {
    /// The message that describes the error.
    pub fn message(&self) -> (r: &'static str)
        ensures
            r@ == match *self {
                ClientError::Config => "Failed to parse config"@,
                ClientError::Signature => "Failed to signature"@,
                ClientError::UnsupportedMethod => "Unsupported method"@,
                ClientError::Url => "Invalid URL"@,
                ClientError::Xml => "Invalid XML"@,
                ClientError::Transport => "Transport failure"@,
                ClientError::Unknown => "Unknown error"@,
            },
    {
        match self {
            ClientError::Config => "Failed to parse config",
            ClientError::Signature => "Failed to signature",
            ClientError::UnsupportedMethod => "Unsupported method",
            ClientError::Url => "Invalid URL",
            ClientError::Xml => "Invalid XML",
            ClientError::Transport => "Transport failure",
            ClientError::Unknown => "Unknown error",
        }
    }
}

} // verus!
