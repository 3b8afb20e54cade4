//! The transport-independent form of one administrative request.
//!
//! The agent binding produces one `PreparedRequest` per capability call; a
//! transport then performs it: append the query pairs in order, serialize
//! the body to its JSON form, send, and hand the status and body back for
//! classification.

use vstd::prelude::*;

verus! {

/// The only two methods the management API is driven with.
#[derive(Clone, Copy, Debug, PartialEq, Eq, Structural)]
pub enum HttpMethod {
    Get,
    Post,
}

/// The request bodies the management API expects. A transport serializes
/// each variant to its JSON form:
///
/// - `AdminMetadata { group }` becomes `{"metadata":{"group":<group>}}`;
/// - `Message { content }` becomes `{"content":<content>}`;
/// - `CredentialOffer { .. }` becomes `{"connection_id":..,"cred_def_id":..,
///   "credential_preview":{"@type":"issue-credential/1.0/credential-preview",
///   "attributes":[{"name":..,"value":..},..]}}`;
/// - `Schema { .. }` becomes `{"attributes":..,"schema_name":..,
///   "schema_version":..}`;
/// - `CredentialDefinition { .. }` becomes `{"schema_id":..,
///   "support_revocation":..,"tag":..}`.
#[derive(Clone, Debug)]
pub enum RequestBody {
    AdminMetadata { group: String },
    Message { content: String },
    CredentialOffer {
        connection_id: String,
        cred_def_id: String,
        attributes: Vec<(String, String)>,
    },
    Schema { attributes: Vec<String>, schema_name: String, schema_version: String },
    CredentialDefinition { schema_id: String, support_revocation: bool, tag: String },
}

/// One fully resolved request: method, absolute URL, query pairs in order,
/// and an optional body.
#[derive(Clone, Debug)]
pub struct PreparedRequest {
    pub method: HttpMethod,
    pub url: String,
    pub query: Vec<(String, String)>,
    pub body: Option<RequestBody>,
}

/// The query pairs, or attribute pairs, of a request as they read: each
/// pair of strings as its pair of character sequences.
pub open spec fn pair_views(q: Seq<(String, String)>) -> Seq<(Seq<char>, Seq<char>)> {
    q.map_values(|p: (String, String)| (p.0@, p.1@))
}

} // verus!
