//! Backend families and their URL rules.
use vstd::prelude::*;

use crate::text::{
    chars_of, ends_with, ends_with_at, lemma_trim_end_char_prefix,
    leading_char_count, string_of_range, trim_end_char, trim_end_char_len, trim_end_pattern,
    trim_start_char,
};

verus! {

/// The two backend families: an OpenAI-compatible server (line-framed
/// `data: ` streams) and a native server (one JSON object per frame).
#[derive(Debug, Clone, Copy, PartialEq, Eq, Structural)]
pub enum EndpointType {
    LMStudio,
    Ollama,
}

/// The chat-completions suffix that the native family replaces.
pub open spec fn completions_suffix() -> Seq<char> {
    seq!['v', '1', '/', 'c', 'h', 'a', 't', '/', 'c', 'o', 'm', 'p', 'l', 'e', 't', 'i', 'o', 'n', 's']
}

/// The custom prefix of a native-family base path: the path with the
/// chat-completions suffix stripped (repeatedly) and its leading and
/// trailing slashes removed.
pub open spec fn native_prefix(endpoint: Seq<char>) -> Seq<char> {
    trim_start_char(trim_end_char(trim_end_pattern(endpoint, completions_suffix()), '/'), '/')
}

/// A native-family path: the custom prefix, if any, then `suffix`.
pub open spec fn native_path(endpoint: Seq<char>, suffix: Seq<char>) -> Seq<char> {
    let prefix = native_prefix(endpoint);
    if prefix.len() == 0 {
        suffix
    } else {
        prefix + seq!['/'] + suffix
    }
}

/// `protocol://server:port/path` with trailing slashes removed.
pub open spec fn url_of(protocol: Seq<char>, server: Seq<char>, port: Seq<char>, path: Seq<char>) -> Seq<char> {
    trim_end_char(
        protocol + seq![':', '/', '/'] + server + seq![':'] + port + seq!['/'] + path,
        '/',
    )
}

impl EndpointType {
    pub open spec fn spec_default_url(self) -> Seq<char> {
        match self {
            EndpointType::LMStudio => "http://localhost:1234/v1/chat/completions"@,
            EndpointType::Ollama => "http://localhost:11434/v1/chat/completions"@,
        }
    }

    pub open spec fn spec_default_port(self) -> Seq<char> {
        match self {
            EndpointType::LMStudio => "1234"@,
            EndpointType::Ollama => "11434"@,
        }
    }

    pub open spec fn spec_default_endpoint(self) -> Seq<char> {
        "v1/chat/completions"@
    }

    /// The path, relative to the server root, of the model listing.
    pub open spec fn models_path(self, endpoint: Seq<char>) -> Seq<char> {
        match self {
            EndpointType::LMStudio => "v1/models"@,
            EndpointType::Ollama => native_path(endpoint, "api/tags"@),
        }
    }

    /// The path, relative to the server root, of the chat endpoint.
    pub open spec fn chat_path(self, endpoint: Seq<char>) -> Seq<char> {
        match self {
            EndpointType::LMStudio => "v1/chat/completions"@,
            EndpointType::Ollama => native_path(endpoint, "api/chat"@),
        }
    }

    pub fn default_url(&self) -> (r: &'static str)
        ensures
            r@ == self.spec_default_url(),
    {
        match self {
            EndpointType::LMStudio => "http://localhost:1234/v1/chat/completions",
            EndpointType::Ollama => "http://localhost:11434/v1/chat/completions",
        }
    }

    pub fn default_port(&self) -> (r: &'static str)
        ensures
            r@ == self.spec_default_port(),
    {
        match self {
            EndpointType::LMStudio => "1234",
            EndpointType::Ollama => "11434",
        }
    }

    pub fn default_endpoint(&self) -> (r: &'static str)
        ensures
            r@ == self.spec_default_endpoint(),
    {
        "v1/chat/completions"
    }

    pub fn models_endpoint(&self, endpoint: &str) -> (r: String)
        ensures
            r@ == self.models_path(endpoint@),
    {
        match self {
            EndpointType::LMStudio => String::from_str("v1/models"),
            EndpointType::Ollama => {
                native_endpoint(endpoint, "api/tags")
            },
        }
    }

    pub fn chat_endpoint(&self, endpoint: &str) -> (r: String)
        ensures
            r@ == self.chat_path(endpoint@),
    {
        match self {
            EndpointType::LMStudio => String::from_str("v1/chat/completions"),
            EndpointType::Ollama => {
                native_endpoint(endpoint, "api/chat")
            },
        }
    }
}

fn native_endpoint(endpoint: &str, suffix: &str) -> (r: String)
    ensures
        r@ == native_path(endpoint@, suffix@),
{
    let cs = chars_of(endpoint);
    let pat: Vec<char> = vec![
        'v', '1', '/', 'c', 'h', 'a', 't', '/', 'c', 'o', 'm', 'p', 'l', 'e', 't', 'i', 'o', 'n', 's',
    ];
    assert(pat@ =~= completions_suffix());
    let mut end: usize = cs.len();
    assert(cs@.subrange(0, end as int) =~= cs@);
    while ends_with_at(&cs, end, &pat)
        invariant
            end <= cs.len(),
            pat@ == completions_suffix(),
            trim_end_pattern(cs@.subrange(0, end as int), pat@) == trim_end_pattern(cs@, pat@),
        decreases end,
    {
        assert(cs@.subrange(0, end as int).subrange(0, end - pat.len()) =~= cs@.subrange(
            0,
            end - pat.len(),
        ));
        end = end - pat.len();
    }
    let ghost base = cs@.subrange(0, end as int);
    assert(trim_end_pattern(base, pat@) == base);
    let t = trim_end_char_len(&cs, end, '/');
    proof {
        lemma_trim_end_char_prefix(base, '/');
        assert(base.subrange(0, t as int) =~= cs@.subrange(0, t as int));
    }
    let k = leading_char_count(&cs, 0, t, '/');
    if k == t {
        return String::from_str(suffix);
    }
    let mut r = string_of_range(endpoint, k, t);
    r.append("/");
    r.append(suffix);
    proof {
        reveal_strlit("/");
    }
    r
}

/// Joins the parts of a server address into a URL without trailing slashes.
pub fn build_url(protocol: &str, server: &str, port: &str, path: &str) -> (r: String)
    ensures
        r@ == url_of(protocol@, server@, port@, path@),
{
    let mut s = String::from_str(protocol);
    s.append("://");
    s.append(server);
    s.append(":");
    s.append(port);
    s.append("/");
    s.append(path);
    proof {
        reveal_strlit("://");
        reveal_strlit(":");
        reveal_strlit("/");
        assert(s@ =~= protocol@ + seq![':', '/', '/'] + server@ + seq![':'] + port@ + seq!['/']
            + path@);
    }
    let cs = chars_of(s.as_str());
    let t = trim_end_char_len(&cs, cs.len(), '/');
    proof {
        assert(cs@.subrange(0, cs.len() as int) =~= cs@);
        lemma_trim_end_char_prefix(cs@, '/');
    }
    string_of_range(s.as_str(), 0, t)
}

} // verus!
