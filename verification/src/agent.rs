//! The HTTP binding of the agent's administrative capabilities.
//!
//! `HttpAgent` owns the validated base address and the optional admin API
//! key, both immutable after construction. Each capability method turns
//! caller configuration into the one prepared request that the capability
//! stands for; a transport performs it and hands the answer to
//! `response::handle_response`.

use vstd::prelude::*;
use vstd::string::StringExecFns;

use crate::endpoint::{base_text_of, url_parts, BaseUrl, Endpoint};
use crate::error::{AgentError, ValidationError};
use crate::request::{pair_views, HttpMethod, PreparedRequest, RequestBody};
use crate::typing::{
    zipped, CredentialDefinitionConfig, CredentialOfferOptions, InvitationConfig,
    IssueCredentialConfig, MessageConfig, SchemaConfig,
};

verus! {

/// The query pair `multi_use=true`, when asked for.
pub open spec fn custom_multi_use(c: InvitationConfig) -> Seq<(Seq<char>, Seq<char>)> {
    if c.multi_use {
        seq![("multi_use"@, "true"@)]
    } else {
        Seq::empty()
    }
}

/// The query pair `auto_accept=true`, when asked for.
pub open spec fn custom_auto_accept(c: InvitationConfig) -> Seq<(Seq<char>, Seq<char>)> {
    if c.auto_accept {
        seq![("auto_accept"@, "true"@)]
    } else {
        Seq::empty()
    }
}

/// The query pair `alias=<alias>`, when one was supplied.
pub open spec fn custom_alias(c: InvitationConfig) -> Seq<(Seq<char>, Seq<char>)> {
    match c.alias {
        Option::Some(a) => seq![("alias"@, a@)],
        Option::None => Seq::empty(),
    }
}

/// The invitation policy, decided once per call. Toolbox mode is terminal:
/// it forces `multi_use=false&auto_accept=true&alias=toolbox` and ignores
/// the other three fields outright. Otherwise each option appears exactly
/// when asked for, in the fixed order multi_use, auto_accept, alias.
pub open spec fn invitation_query_spec(c: InvitationConfig) -> Seq<(Seq<char>, Seq<char>)> {
    if c.toolbox {
        seq![("multi_use"@, "false"@), ("auto_accept"@, "true"@), ("alias"@, "toolbox"@)]
    } else {
        custom_multi_use(c) + custom_auto_accept(c) + custom_alias(c)
    }
}

/// The query of a listing call: exactly one pair `alias=<filter>` with a
/// filter, none without one.
pub open spec fn connections_query_spec(filter: Option<String>) -> Seq<(Seq<char>, Seq<char>)> {
    match filter {
        Option::Some(alias) => seq![("alias"@, alias@)],
        Option::None => Seq::empty(),
    }
}

/// The HTTP cloudagent binding.
#[derive(Clone, Debug)]
pub struct HttpAgent {
    base: BaseUrl,
    /// Admin API key for the cloudagent, sent by the transport with every
    /// request when present.
    pub api_key: Option<String>,
}

impl HttpAgent {
    /// The validated base address, as text.
    pub closed spec fn base_text(&self) -> Seq<char> {
        self.base@
    }

    /// The base survived validation and keeps its directory form.
    pub closed spec fn wf(&self) -> bool {
        self.base.wf()
    }

    /// The admin API key the agent was constructed with.
    pub closed spec fn spec_api_key(&self) -> Option<String> {
        self.api_key
    }

    /// Fallible construction: the endpoint must be a well-formed absolute
    /// URL, and the base is exactly the directory form of its parts. A
    /// malformed endpoint is a configuration error, surfaced here so a
    /// caller can handle misconfiguration without a process abort.
    pub fn new(endpoint: &str, api_key: Option<String>) -> (r: Result<HttpAgent, AgentError>)
        ensures
            r matches Ok(a) ==> a.wf() && a.spec_api_key() == api_key,
            r matches Ok(a) ==> (url_parts(endpoint@) matches Some(p) && a.base_text()
                == base_text_of(p.0, p.1)),
            r matches Err(e) ==> url_parts(endpoint@) is None && (e
                matches AgentError::Configuration { url } && url@ == endpoint@),
    {
        match BaseUrl::parse(endpoint) {
            Result::Ok(base) => Result::Ok(HttpAgent { base, api_key }),
            Result::Err(e) => Result::Err(e),
        }
    }

    /// List connections, optionally filtered by alias: a GET on the
    /// connections endpoint whose query holds exactly the one pair
    /// `alias=<filter>` when a filter is given, and nothing otherwise.
    pub fn get_connections(&self, filter: Option<String>) -> (r: PreparedRequest)
        requires
            self.wf(),
        ensures
            r.method == HttpMethod::Get,
            r.url@ == self.base_text() + "connections"@,
            pair_views(r.query@) == connections_query_spec(filter),
            r.body is None,
    {
        let mut query: Vec<(String, String)> = Vec::new();
        match filter {
            Option::Some(alias) => {
                query.push(("alias".to_owned(), alias));
            }
            Option::None => {}
        }
        proof {
            assert(pair_views(query@) =~= connections_query_spec(filter));
        }
        PreparedRequest {
            method: HttpMethod::Get,
            url: Endpoint::connections(&self.base),
            query,
            body: Option::None,
        }
    }

    /// The startup check: a plain unfiltered listing, performed by the
    /// caller to see that the configured endpoint answers at all.
    pub fn check_endpoint(&self) -> (r: PreparedRequest)
        requires
            self.wf(),
        ensures
            r.method == HttpMethod::Get,
            r.url@ == self.base_text() + "connections"@,
            r.query@.len() == 0,
            r.body is None,
    {
        let r = self.get_connections(Option::None);
        proof {
            assert(pair_views(r.query@).len() == r.query@.len());
        }
        r
    }

    /// Fetch one connection by id: a GET with the id joined as the final
    /// path segment, no query, no body.
    pub fn get_connection_by_id(&self, id: &str) -> (r: PreparedRequest)
        requires
            self.wf(),
        ensures
            r.method == HttpMethod::Get,
            r.url@ == self.base_text() + "connections/"@ + id@,
            r.query@.len() == 0,
            r.body is None,
    {
        PreparedRequest {
            method: HttpMethod::Get,
            url: Endpoint::get_connection_by_id(&self.base, id),
            query: Vec::new(),
            body: Option::None,
        }
    }

    /// Create an invitation under the two-branch policy of
    /// `invitation_query_spec`: toolbox mode forces the fixed query and
    /// attaches the admin-metadata body; otherwise the query holds exactly
    /// the options asked for and no body is attached.
    pub fn create_invitation(&self, config: &InvitationConfig) -> (r: PreparedRequest)
        requires
            self.wf(),
        ensures
            r.method == HttpMethod::Post,
            r.url@ == self.base_text() + "connections/create-invitation"@,
            pair_views(r.query@) == invitation_query_spec(*config),
            config.toolbox ==> (r.body matches Some(RequestBody::AdminMetadata { group }) && group@
                == "admin"@),
            !config.toolbox ==> r.body is None,
    {
        let mut query: Vec<(String, String)> = Vec::new();
        let mut body: Option<RequestBody> = Option::None;
        if config.toolbox {
            query.push(("multi_use".to_owned(), "false".to_owned()));
            query.push(("auto_accept".to_owned(), "true".to_owned()));
            query.push(("alias".to_owned(), "toolbox".to_owned()));
            body = Option::Some(RequestBody::AdminMetadata { group: "admin".to_owned() });
            proof {
                assert(pair_views(query@) =~= invitation_query_spec(*config));
            }
        } else {
            if config.multi_use {
                query.push(("multi_use".to_owned(), "true".to_owned()));
            }
            proof {
                assert(pair_views(query@) =~= custom_multi_use(*config));
            }
            if config.auto_accept {
                query.push(("auto_accept".to_owned(), "true".to_owned()));
            }
            proof {
                assert(pair_views(query@) =~= custom_multi_use(*config) + custom_auto_accept(
                    *config,
                ));
            }
            match &config.alias {
                Option::Some(alias) => {
                    query.push(("alias".to_owned(), alias.clone()));
                }
                Option::None => {}
            }
            proof {
                assert(pair_views(query@) =~= invitation_query_spec(*config));
            }
        }
        PreparedRequest {
            method: HttpMethod::Post,
            url: Endpoint::create_invitation(&self.base),
            query,
            body,
        }
    }

    /// Ask the agent which protocols it supports: a GET on the features
    /// endpoint, no query, no body.
    pub fn discover_features(&self) -> (r: PreparedRequest)
        requires
            self.wf(),
        ensures
            r.method == HttpMethod::Get,
            r.url@ == self.base_text() + "features"@,
            r.query@.len() == 0,
            r.body is None,
    {
        PreparedRequest {
            method: HttpMethod::Get,
            url: Endpoint::discover_features(&self.base),
            query: Vec::new(),
            body: Option::None,
        }
    }

    /// Send a basic message: a POST on the send-message endpoint of the
    /// connection, carrying exactly the message text as its body.
    pub fn send_message(&self, config: &MessageConfig) -> (r: PreparedRequest)
        requires
            self.wf(),
        ensures
            r.method == HttpMethod::Post,
            r.url@ == self.base_text() + "connections/"@ + config.connection_id@
                + "/send-message"@,
            r.query@.len() == 0,
            (r.body matches Some(RequestBody::Message { content }) && content@
                == config.message@),
    {
        PreparedRequest {
            method: HttpMethod::Post,
            url: Endpoint::basic_message(&self.base, config.connection_id.as_str()),
            query: Vec::new(),
            body: Option::Some(RequestBody::Message { content: config.message.clone() }),
        }
    }

    /// Offer a credential: a POST on the send-offer endpoint whose body
    /// carries the connection, the credential definition and the preview
    /// attributes, exactly as configured.
    pub fn credential(&self, config: &IssueCredentialConfig) -> (r: PreparedRequest)
        requires
            self.wf(),
        ensures
            r.method == HttpMethod::Post,
            r.url@ == self.base_text() + "issue-credential/send-offer"@,
            r.query@.len() == 0,
            (r.body matches Some(RequestBody::CredentialOffer {
                connection_id,
                cred_def_id,
                attributes,
            }) && connection_id@ == config.connection_id@ && cred_def_id@
                == config.credential_definition_id@ && pair_views(attributes@) == pair_views(
                config.attributes@,
            )),
    {
        let attributes = clone_pairs(&config.attributes);
        PreparedRequest {
            method: HttpMethod::Post,
            url: Endpoint::credential_offer(&self.base),
            query: Vec::new(),
            body: Option::Some(RequestBody::CredentialOffer {
                connection_id: config.connection_id.clone(),
                cred_def_id: config.credential_definition_id.clone(),
                attributes,
            }),
        }
    }

    /// Offer a credential from raw parallel key/value lists. A length
    /// mismatch fails with a validation error right here: no request is
    /// prepared and nothing goes out. With matching lengths the offer is
    /// the one `credential` prepares from the paired attributes.
    pub fn send_offer(&self, options: &CredentialOfferOptions) -> (r: Result<
        PreparedRequest,
        AgentError,
    >)
        requires
            self.wf(),
        ensures
            options.keys@.len() != options.values@.len() ==> (r matches Err(
                AgentError::Validation { reason },
            ) && reason == ValidationError::UnequalAmountKeyValue),
            options.keys@.len() == options.values@.len() ==> (r matches Ok(p) && p.method
                == HttpMethod::Post && p.url@ == self.base_text() + "issue-credential/send-offer"@
                && p.query@.len() == 0 && (p.body matches Some(RequestBody::CredentialOffer {
                connection_id,
                cred_def_id,
                attributes,
            }) && connection_id@ == options.connection_id@ && cred_def_id@ == options.cred_def_id@
                && pair_views(attributes@) == zipped(
                options.keys.deep_view(),
                options.values.deep_view(),
            ))),
    {
        match options.to_issue_config() {
            Result::Ok(config) => Result::Ok(self.credential(&config)),
            Result::Err(e) => Result::Err(e),
        }
    }

    /// Register a schema: a POST on the schemas endpoint whose body echoes
    /// the configured name, version and attribute names.
    pub fn schema(&self, config: &SchemaConfig) -> (r: PreparedRequest)
        requires
            self.wf(),
        ensures
            r.method == HttpMethod::Post,
            r.url@ == self.base_text() + "schemas"@,
            r.query@.len() == 0,
            (r.body matches Some(RequestBody::Schema {
                attributes,
                schema_name,
                schema_version,
            }) && attributes.deep_view() == config.attributes.deep_view() && schema_name@
                == config.name@ && schema_version@ == config.version@),
    {
        let attributes = clone_strings(&config.attributes);
        PreparedRequest {
            method: HttpMethod::Post,
            url: Endpoint::schema(&self.base),
            query: Vec::new(),
            body: Option::Some(RequestBody::Schema {
                attributes,
                schema_name: config.name.clone(),
                schema_version: config.version.clone(),
            }),
        }
    }

    /// Register a credential definition: a POST on the
    /// credential-definitions endpoint. Revocation support is disabled in
    /// the body no matter what: it is not a caller option.
    pub fn credential_definition(&self, config: &CredentialDefinitionConfig) -> (r:
        PreparedRequest)
        requires
            self.wf(),
        ensures
            r.method == HttpMethod::Post,
            r.url@ == self.base_text() + "credential-definitions"@,
            r.query@.len() == 0,
            (r.body matches Some(RequestBody::CredentialDefinition {
                schema_id,
                support_revocation,
                tag,
            }) && schema_id@ == config.schema_id@ && support_revocation == false && tag@
                == config.tag@),
    {
        PreparedRequest {
            method: HttpMethod::Post,
            url: Endpoint::credential_definition(&self.base),
            query: Vec::new(),
            body: Option::Some(RequestBody::CredentialDefinition {
                schema_id: config.schema_id.clone(),
                support_revocation: false,
                tag: config.tag.clone(),
            }),
        }
    }
}

/// Copy a list of string pairs, keeping its text.
fn clone_pairs(v: &Vec<(String, String)>) -> (r: Vec<(String, String)>)
    ensures
        pair_views(r@) == pair_views(v@),
{
    let n: usize = v.len();
    let mut r: Vec<(String, String)> = Vec::new();
    let mut i: usize = 0;
    while i < n
        invariant
            n == v@.len(),
            i <= n,
            r@.len() == i,
            forall|j: int| 0 <= j < i ==> r@[j].0@ == v@[j].0@ && r@[j].1@ == v@[j].1@,
        decreases n - i,
    {
        r.push((v[i].0.clone(), v[i].1.clone()));
        i = i + 1;
    }
    proof {
        assert(pair_views(r@) =~= pair_views(v@));
    }
    r
}

/// Copy a list of strings, keeping its text.
fn clone_strings(v: &Vec<String>) -> (r: Vec<String>)
    ensures
        r.deep_view() == v.deep_view(),
{
    let n: usize = v.len();
    let mut r: Vec<String> = Vec::new();
    let mut i: usize = 0;
    while i < n
        invariant
            n == v@.len(),
            i <= n,
            r@.len() == i,
            forall|j: int| 0 <= j < i ==> r@[j]@ == v@[j]@,
        decreases n - i,
    {
        r.push(v[i].clone());
        i = i + 1;
    }
    proof {
        assert(r.deep_view() =~= v.deep_view());
    }
    r
}

/// Toolbox mode is terminal: whatever the other three fields hold, a
/// toolbox configuration always yields exactly the query
/// `multi_use=false&auto_accept=true&alias=toolbox`.
pub proof fn lemma_toolbox_policy(c: InvitationConfig)
    requires
        c.toolbox,
    ensures
        invitation_query_spec(c) == seq![
            ("multi_use"@, "false"@),
            ("auto_accept"@, "true"@),
            ("alias"@, "toolbox"@),
        ],
{
}

} // verus!
