//! Endpoint resolution: from the configured base address to the one
//! absolute URL of each administrative capability.
//!
//! The base is validated and split once, at construction; after that every
//! endpoint is plain text built by appending well-known path segments, and
//! each resolver states the exact text it produces. A connection id is
//! always joined as an intermediate directory segment, so that it stands
//! between `connections/` and `/send-message` and never after the action.

use vstd::prelude::*;
use vstd::string::StringExecFns;

use crate::error::AgentError;

verus! {

/// Somewhere in `s` two slashes stand side by side.
pub open spec fn has_double_slash(s: Seq<char>) -> bool {
    exists|i: int| 0 <= i && i + 1 < s.len() && (#[trigger] s[i]) == '/' && s[i + 1] == '/'
}

/// No character of `s` is a slash.
pub open spec fn slash_free(s: Seq<char>) -> bool {
    forall|i: int| 0 <= i < s.len() ==> s[i] != '/'
}

/// What parsing an address yields: `None` when it is not a well-formed
/// absolute URL with a segmented path; otherwise everything before the
/// path, and the path split into its segments. A function of the address
/// alone.
pub uninterp spec fn url_parts(s: Seq<char>) -> Option<(Seq<char>, Seq<Seq<char>>)>;

/// Splits an absolute URL into everything before its path, and the path's
/// segments.
///
/// Relies on `url::Url::parse` for what a well-formed absolute URL is, on
/// url's range indexing up to `Position::BeforePath` for the scheme,
/// authority and everything else in front of the path, and on
/// `Url::path_segments` for the path split on `'/'`: it yields at least one
/// segment whenever the URL has a path to segment, and no segment contains
/// a slash.
#[verifier::external_body]
fn split_url(s: &str) -> (r: Option<(String, Vec<String>)>)
    ensures
        r matches Some(p) ==> (url_parts(s@) matches Some(q) && q.0 == p.0@ && q.1
            == p.1.deep_view()),
        r is None ==> url_parts(s@) is None,
        r matches Some(p) ==> p.1@.len() >= 1,
        r matches Some(p) ==> forall|i: int| 0 <= i < p.1@.len() ==> slash_free(p.1@[i]@),
{
    match url::Url::parse(s) {
        Ok(u) => {
            let before_path = u[..url::Position::BeforePath].to_string();
            match u.path_segments() {
                Some(segments) => {
                    let parts: Vec<String> = segments.map(|seg| seg.to_string()).collect();
                    Some((before_path, parts))
                }
                None => None,
            }
        }
        Err(_) => None,
    }
}

/// The directory form of split parts, up to the first `n` segments: the
/// prefix, a slash, then each of those segments followed by a slash.
pub open spec fn dir_text(prefix: Seq<char>, segments: Seq<Seq<char>>, n: int) -> Seq<char>
    decreases n,
{
    if n <= 0 {
        prefix + "/"@
    } else {
        dir_text(prefix, segments, n - 1) + segments[n - 1] + "/"@
    }
}

/// The base text that split parts resolve to: every segment but the last
/// is a directory; the last is the file part, which relative-path
/// resolution replaces, so it is dropped.
pub open spec fn base_text_of(prefix: Seq<char>, segments: Seq<Seq<char>>) -> Seq<char> {
    dir_text(prefix, segments, segments.len() - 1)
}

/// A validated absolute base address in directory form: the scheme and
/// authority, then every directory segment of the configured path, each
/// followed by a single slash. The last path segment of the configured
/// address is not a directory and is dropped, as relative-path resolution
/// would replace it anyway.
#[derive(Clone, Debug)]
pub struct BaseUrl {
    repr: String,
}

impl View for BaseUrl {
    type V = Seq<char>;

    closed spec fn view(&self) -> Seq<char> {
        self.repr@
    }
}

impl BaseUrl {
    /// Directory form: non-empty and ending in a slash, so that an appended
    /// segment always starts a new path component.
    pub closed spec fn wf(&self) -> bool {
        self@.len() > 0 && self@.last() == '/'
    }

    /// Validate and split the configured address. A malformed address is a
    /// configuration error, surfaced here and never per call; a valid one
    /// yields exactly the directory form of its parts.
    pub fn parse(s: &str) -> (r: Result<BaseUrl, AgentError>)
        ensures
            r matches Ok(b) ==> b.wf(),
            r matches Ok(b) ==> (url_parts(s@) matches Some(p) && b@ == base_text_of(p.0, p.1)),
            r matches Err(e) ==> url_parts(s@) is None && (e matches AgentError::Configuration {
                url,
            } && url@ == s@),
    {
        match split_url(s) {
            Option::Some((prefix, segments)) => {
                let ghost prefix_text = prefix@;
                let ghost parts = segments.deep_view();
                let mut repr = prefix;
                repr.append("/");
                proof {
                    reveal_strlit("/");
                    assert(repr@ == dir_text(prefix_text, parts, 0));
                }
                let n: usize = segments.len();
                let mut i: usize = 0;
                while i < n - 1
                    invariant
                        n == segments@.len(),
                        parts == segments.deep_view(),
                        n >= 1,
                        i <= n - 1,
                        repr@ == dir_text(prefix_text, parts, i as int),
                        repr@.len() > 0,
                        repr@.last() == '/',
                    decreases n - i,
                {
                    repr.append(segments[i].as_str());
                    repr.append("/");
                    proof {
                        reveal_strlit("/");
                        assert(parts[i as int] == segments@[i as int]@);
                        assert(repr@ == dir_text(prefix_text, parts, i + 1));
                    }
                    i = i + 1;
                }
                proof {
                    assert(repr@ == base_text_of(prefix_text, parts));
                }
                Result::Ok(BaseUrl { repr })
            }
            Option::None => Result::Err(AgentError::Configuration { url: s.to_owned() }),
        }
    }

    /// The base address as text.
    pub fn resolved(&self) -> (r: String)
        ensures
            r@ == self@,
    {
        self.repr.clone()
    }
}

/// The well-known endpoints of the management API, each resolved from a
/// validated base.
pub struct Endpoint;

impl Endpoint {
    /// base + `connections`
    pub fn connections(base: &BaseUrl) -> (r: String)
        requires
            base.wf(),
        ensures
            r@ == base@ + "connections"@,
    {
        let mut r = base.resolved();
        r.append("connections");
        r
    }

    /// base + `connections/` + id
    pub fn get_connection_by_id(base: &BaseUrl, id: &str) -> (r: String)
        requires
            base.wf(),
        ensures
            r@ == base@ + "connections/"@ + id@,
    {
        let mut r = base.resolved();
        r.append("connections/");
        r.append(id);
        r
    }

    /// base + `connections/create-invitation`
    pub fn create_invitation(base: &BaseUrl) -> (r: String)
        requires
            base.wf(),
        ensures
            r@ == base@ + "connections/create-invitation"@,
    {
        let mut r = base.resolved();
        r.append("connections/create-invitation");
        r
    }

    /// base + `features`
    pub fn discover_features(base: &BaseUrl) -> (r: String)
        requires
            base.wf(),
        ensures
            r@ == base@ + "features"@,
    {
        let mut r = base.resolved();
        r.append("features");
        r
    }

    /// base + `connections/` + id + `/send-message`: the id is joined as an
    /// intermediate directory segment, before the action.
    pub fn basic_message(base: &BaseUrl, id: &str) -> (r: String)
        requires
            base.wf(),
        ensures
            r@ == base@ + "connections/"@ + id@ + "/send-message"@,
    {
        let mut r = base.resolved();
        r.append("connections/");
        r.append(id);
        r.append("/send-message");
        r
    }

    /// base + `issue-credential/send-offer`
    pub fn credential_offer(base: &BaseUrl) -> (r: String)
        requires
            base.wf(),
        ensures
            r@ == base@ + "issue-credential/send-offer"@,
    {
        let mut r = base.resolved();
        r.append("issue-credential/send-offer");
        r
    }

    /// base + `schemas`
    pub fn schema(base: &BaseUrl) -> (r: String)
        requires
            base.wf(),
        ensures
            r@ == base@ + "schemas"@,
    {
        let mut r = base.resolved();
        r.append("schemas");
        r
    }

    /// base + `credential-definitions`
    pub fn credential_definition(base: &BaseUrl) -> (r: String)
        requires
            base.wf(),
        ensures
            r@ == base@ + "credential-definitions"@,
    {
        let mut r = base.resolved();
        r.append("credential-definitions");
        r
    }
}

/// Appending a slash-free segment to a base that ends in a slash introduces
/// no double slash: the result holds one exactly where the base already
/// did.
pub proof fn lemma_append_keeps_double_slash(base: Seq<char>, seg: Seq<char>)
    requires
        base.len() > 0,
        base.last() == '/',
        slash_free(seg),
    ensures
        has_double_slash(base + seg) == has_double_slash(base),
{
    let r = base + seg;
    if has_double_slash(base) {
        let i = choose|i: int|
            0 <= i && i + 1 < base.len() && (#[trigger] base[i]) == '/' && base[i + 1] == '/';
        assert(r[i] == '/' && r[i + 1] == '/');
        assert(has_double_slash(r));
    }
    if has_double_slash(r) {
        let i = choose|i: int| 0 <= i && i + 1 < r.len() && (#[trigger] r[i]) == '/' && r[i + 1]
            == '/';
        if i + 1 < base.len() {
            assert(base[i] == '/' && base[i + 1] == '/');
            assert(has_double_slash(base));
        } else if i + 1 == base.len() {
            assert(r[i + 1] == seg[0]);
            assert(false);
        } else {
            assert(r[i] == seg[i - base.len()]);
            assert(false);
        }
    }
}

/// The segment `connections` holds no slash.
proof fn lemma_connections_slash_free()
    ensures
        slash_free("connections"@),
{
    reveal_strlit("connections");
    assert forall|i: int| 0 <= i < "connections"@.len() implies "connections"@[i] != '/' by {}
}

/// For any well-formed base, the connections endpoint is the base itself
/// with the single segment `connections` appended: the base is kept whole
/// (no path loss), and no double slash arises that the base did not
/// already hold.
pub proof fn lemma_connections_endpoint(base: BaseUrl, r: Seq<char>)
    requires
        base.wf(),
        r == base@ + "connections"@,
    ensures
        r.len() == base@.len() + "connections"@.len(),
        r.subrange(0, base@.len() as int) == base@,
        has_double_slash(r) == has_double_slash(base@),
{
    lemma_connections_slash_free();
    lemma_append_keeps_double_slash(base@, "connections"@);
    assert(r.subrange(0, base@.len() as int) =~= base@);
}

/// In the send-message endpoint the connection id stands as its own path
/// segment, between `connections/` and `/send-message`, in that order:
/// right after the base comes `connections/`, then the id, then
/// `/send-message`, and nothing else.
pub proof fn lemma_message_endpoint(base: BaseUrl, id: Seq<char>, r: Seq<char>)
    requires
        base.wf(),
        r == base@ + "connections/"@ + id + "/send-message"@,
    ensures
        r.len() == base@.len() + "connections/"@.len() + id.len() + "/send-message"@.len(),
        r.subrange(0, base@.len() as int) == base@,
        r.subrange(base@.len() as int, (base@.len() + "connections/"@.len()) as int)
            == "connections/"@,
        r.subrange(
            (base@.len() + "connections/"@.len()) as int,
            (base@.len() + "connections/"@.len() + id.len()) as int,
        ) == id,
        r.subrange((base@.len() + "connections/"@.len() + id.len()) as int, r.len() as int)
            == "/send-message"@,
{
    let n0 = base@.len() as int;
    let n1 = (base@.len() + "connections/"@.len()) as int;
    let n2 = (base@.len() + "connections/"@.len() + id.len()) as int;
    assert(r.subrange(0, n0) =~= base@);
    assert(r.subrange(n0, n1) =~= "connections/"@);
    assert(r.subrange(n1, n2) =~= id);
    assert(r.subrange(n2, r.len() as int) =~= "/send-message"@);
}

} // verus!
