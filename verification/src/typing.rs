//! The domain entities the remote agent deals in, and the configuration
//! records a caller fills in to ask for an operation.
//!
//! All of these are plain value objects: nothing here is shared or mutated.
//! The entities are what the transport decodes responses into; the
//! configurations are turned into prepared requests by the agent binding.

use vstd::prelude::*;

use crate::error::{AgentError, ValidationError};
use crate::request::pair_views;

verus! {

/// One peer relationship, as the remote agent reports it. This client only
/// reads such records, it never makes one up.
#[derive(Clone, Debug)]
pub struct Connection {
    /// Identifier the remote agent assigned to the relationship.
    pub connection_id: String,
    /// Protocol state of the relationship, verbatim from the agent.
    pub state: String,
    /// Alias given when the connection was created, if any.
    pub alias: Option<String>,
}

/// The result of a listing query: connections in the order the remote agent
/// returned them. The order carries no meaning here beyond display.
#[derive(Clone, Debug)]
pub struct Connections {
    pub results: Vec<Connection>,
}

/// Caller intent for creating an invitation. `toolbox` is a terminal mode:
/// when it is set the other three fields are ignored outright, never
/// combined with user-supplied values.
#[derive(Clone, Debug)]
pub struct InvitationConfig {
    pub toolbox: bool,
    pub multi_use: bool,
    pub auto_accept: bool,
    pub alias: Option<String>,
}

/// The artifact the remote agent hands back after an invitation is created.
/// Its internal structure is not interpreted here: the payload is carried
/// through verbatim for the caller to display or encode.
#[derive(Clone, Debug)]
pub struct Invitation {
    /// The invitation exactly as the agent returned it.
    pub payload: String,
}

/// The protocol capabilities the remote agent reports supporting, returned
/// verbatim.
#[derive(Clone, Debug)]
pub struct Features {
    /// The discovery response exactly as the agent returned it.
    pub payload: String,
}

/// A basic message to a connected peer. Nothing is validated here beyond
/// presence: rejecting empty text is the caller's business.
#[derive(Clone, Debug)]
pub struct MessageConfig {
    pub connection_id: String,
    pub message: String,
}

/// What a credential offer is built from: the peer, the credential
/// definition, and the attribute pairs that make up the preview.
#[derive(Clone, Debug)]
pub struct IssueCredentialConfig {
    pub connection_id: String,
    pub credential_definition_id: String,
    /// Attribute name/value pairs for the credential preview.
    pub attributes: Vec<(String, String)>,
}

/// Raw caller input for a credential offer: parallel key and value lists.
/// Their lengths must match; `to_issue_config` checks that before anything
/// is sent.
#[derive(Clone, Debug)]
pub struct CredentialOfferOptions {
    pub connection_id: String,
    pub cred_def_id: String,
    pub keys: Vec<String>,
    pub values: Vec<String>,
}

/// Input for registering a schema with the remote agent.
#[derive(Clone, Debug)]
pub struct SchemaConfig {
    pub name: String,
    pub version: String,
    pub attributes: Vec<String>,
}

/// A registered schema: the identifier the agent assigned, and the
/// attribute names it echoed back.
#[derive(Clone, Debug)]
pub struct Schema {
    pub schema_id: String,
    pub attributes: Vec<String>,
}

/// Input for registering a credential definition. Revocation support is not
/// a field on purpose: this client always disables it when it builds the
/// request.
#[derive(Clone, Debug)]
pub struct CredentialDefinitionConfig {
    pub schema_id: String,
    pub tag: String,
}

/// A registered credential definition: the identifier the agent assigned.
#[derive(Clone, Debug)]
pub struct CredentialDefinition {
    pub credential_definition_id: String,
}

/// The key list and the value list of an offer, paired index by index.
pub open spec fn zipped(keys: Seq<Seq<char>>, values: Seq<Seq<char>>) -> Seq<(Seq<char>, Seq<char>)> {
    Seq::new(keys.len(), |i: int| (keys[i], values[i]))
}

impl CredentialOfferOptions {
    /// Pair the parallel key and value lists into the attributes of an
    /// `IssueCredentialConfig`. The one local invariant: both lists must be
    /// the same length. A mismatch is a validation error, found here,
    /// before any request exists.
    pub fn to_issue_config(&self) -> (r: Result<IssueCredentialConfig, AgentError>)
        ensures
            self.keys@.len() != self.values@.len() ==> (r matches Err(AgentError::Validation {
                reason,
            }) && reason == ValidationError::UnequalAmountKeyValue),
            self.keys@.len() == self.values@.len() ==> (r matches Ok(c)
                && c.connection_id@ == self.connection_id@
                && c.credential_definition_id@ == self.cred_def_id@
                && pair_views(c.attributes@) == zipped(self.keys.deep_view(), self.values.deep_view())),
    {
        if self.keys.len() != self.values.len() {
            Result::Err(AgentError::Validation { reason: ValidationError::UnequalAmountKeyValue })
        } else {
            let n: usize = self.keys.len();
            let mut attributes: Vec<(String, String)> = Vec::new();
            let mut i: usize = 0;
            while i < n
                invariant
                    n == self.keys@.len(),
                    n == self.values@.len(),
                    i <= n,
                    attributes@.len() == i,
                    forall|j: int|
                        0 <= j < i ==> attributes@[j].0@ == self.keys@[j]@
                            && attributes@[j].1@ == self.values@[j]@,
                decreases n - i,
            {
                attributes.push((self.keys[i].clone(), self.values[i].clone()));
                i = i + 1;
            }
            let config = IssueCredentialConfig {
                connection_id: self.connection_id.clone(),
                credential_definition_id: self.cred_def_id.clone(),
                attributes,
            };
            proof {
                assert(pair_views(config.attributes@) =~= zipped(
                    self.keys.deep_view(),
                    self.values.deep_view(),
                ));
            }
            Result::Ok(config)
        }
    }
}

} // verus!
