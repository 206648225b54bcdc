//! Assembly of the outbound request: which header lines it carries, and
//! with which client settings it is sent.

use crate::config::{bytes_view, ClientConfig, ClientConfigView, HeaderList, HeaderSeq};
use crate::error::MalformedInput;
use crate::proxy::{attach_proxy, optional_proxy_rules, ProxyRule, ProxyRuleView};
use crate::text::{
    is_token_byte, lower_byte, lower_bytes, same_ignoring_case, same_text_ignoring_case,
    text_eq_ignoring_case,
};
use crate::wire::{
    canonical_header_name, header_name_from_bytes, header_name_text, header_value_is_valid,
    is_header_name, is_header_value,
};
use vstd::prelude::*;
use vstd::utf8::encode_utf8;

verus! {

/// The agent that a request names where the caller names none.
pub const DEFAULT_USER_AGENT: &'static str = "tauri";

/// How many redirections the client follows.
#[derive(Debug, Clone, Copy, PartialEq, Eq, Structural)]
pub enum RedirectPolicy {
    /// As many as the client follows by itself.
    ClientDefault,
    /// None.
    Never,
    /// At most this many.
    Limited(usize),
}

/// A request as it goes out, with the settings of the client that sends it.
#[derive(Debug, Clone, PartialEq, Eq)]
pub struct OutboundRequest {
    pub method: String,
    pub url: String,
    /// The header lines in the order in which they are added; a name may
    /// occur more than once.
    pub headers: HeaderList,
    pub body: Option<Vec<u8>>,
    /// How long a connection attempt may take, in milliseconds.
    pub connect_timeout: Option<u64>,
    pub redirect: RedirectPolicy,
    pub proxies: Vec<ProxyRule>,
}

pub struct OutboundRequestView {
    pub method: Seq<char>,
    pub url: Seq<char>,
    pub headers: HeaderSeq,
    pub body: Option<Seq<u8>>,
    pub connect_timeout: Option<u64>,
    pub redirect: RedirectPolicy,
    pub proxies: Seq<ProxyRuleView>,
}

impl View for OutboundRequest {
    type V = OutboundRequestView;

    open spec fn view(&self) -> OutboundRequestView {
        OutboundRequestView {
            method: self.method@,
            url: self.url@,
            headers: self.headers.deep_view(),
            body: bytes_view(self.body),
            connect_timeout: self.connect_timeout,
            redirect: self.redirect,
            proxies: self.proxies.deep_view(),
        }
    }
}

/// The policy that a limit on redirections stands for: none follows none.
pub open spec fn redirect_policy(max_redirections: Option<usize>) -> RedirectPolicy {
    match max_redirections {
        None => RedirectPolicy::ClientDefault,
        Some(limit) => if limit == 0 {
            RedirectPolicy::Never
        } else {
            RedirectPolicy::Limited(limit)
        },
    }
}

/// Whether a later line has the same name text as line `i`, so that line
/// `i` does not count.
pub open spec fn overridden(headers: HeaderSeq, i: int) -> bool {
    exists|j: int| i < j < headers.len() && (#[trigger] headers[j]).0 == headers[i].0
}

/// The normal form of a line's name, if the name is a token.
pub open spec fn line_name(line: (Seq<char>, Seq<char>)) -> Option<Seq<char>> {
    canonical_header_name(encode_utf8(line.0))
}

/// Whether a line's value may be sent.
pub open spec fn line_value_ok(line: (Seq<char>, Seq<char>)) -> bool {
    is_header_value(encode_utf8(line.1))
}

/// Whether a header of this name is left for the transport to set.
pub open spec fn is_stripped(name: Seq<char>) -> bool {
    name == "host"@ || name == "content-length"@
}

/// The outcome of looking at one line after the lines before it gave `lines`.
pub open spec fn with_line(headers: HeaderSeq, lines: HeaderSeq, i: int) -> Result<
    HeaderSeq,
    MalformedInput,
> {
    if overridden(headers, i) {
        Ok(lines)
    } else {
        match line_name(headers[i]) {
            None => Err(MalformedInput::HeaderName),
            Some(name) => if !line_value_ok(headers[i]) {
                Err(MalformedInput::HeaderValue)
            } else if is_stripped(name) {
                Ok(lines)
            } else {
                Ok(lines.push((name, headers[i].1)))
            },
        }
    }
}

/// The lines that the first `n` supplied lines put on the request, or the
/// first failure among them. A line counts unless a later line has the same
/// name text; a counted line fails on a name that is no token, then on a
/// value that may not be sent; `Host` and `Content-Length` are left out.
pub open spec fn attached(headers: HeaderSeq, n: nat) -> Result<HeaderSeq, MalformedInput>
    decreases n,
{
    if n == 0 {
        Ok(Seq::empty())
    } else {
        match attached(headers, (n - 1) as nat) {
            Err(e) => Err(e),
            Ok(lines) => with_line(headers, lines, n - 1),
        }
    }
}

/// Whether one of the first `n` supplied lines counts and has the name `name`.
pub open spec fn names_within(headers: HeaderSeq, n: int, name: Seq<char>) -> bool {
    exists|i: int|
        0 <= i < n && i < headers.len() && !overridden(headers, i) && line_name(
            #[trigger] headers[i],
        ) == Some(name)
}

/// Whether a supplied line counts and has the name `name`.
pub open spec fn names(headers: HeaderSeq, name: Seq<char>) -> bool {
    names_within(headers, headers.len() as int, name)
}

/// Whether the method is `POST` or `PUT`, in any case of letters.
pub open spec fn is_post_or_put(method: Seq<char>) -> bool {
    same_text_ignoring_case(method, "POST"@) || same_text_ignoring_case(method, "PUT"@)
}

/// The line that states an empty body, where a `POST` or `PUT` has none.
pub open spec fn forced_length(method: Seq<char>, has_body: bool) -> HeaderSeq {
    if !has_body && is_post_or_put(method) {
        seq![("content-length"@, "0"@)]
    } else {
        Seq::empty()
    }
}

/// The line that asks for an unencoded transfer, where a range is asked for.
pub open spec fn forced_encoding(headers: HeaderSeq) -> HeaderSeq {
    if names(headers, "range"@) {
        seq![("accept-encoding"@, "identity"@)]
    } else {
        Seq::empty()
    }
}

/// The line that names the default agent, where the caller names none.
pub open spec fn forced_agent(headers: HeaderSeq) -> HeaderSeq {
    if !names(headers, "user-agent"@) {
        seq![("user-agent"@, DEFAULT_USER_AGENT@)]
    } else {
        Seq::empty()
    }
}

/// The header lines of the outbound request: the supplied lines that count,
/// then the forced length, encoding and agent lines, in this order.
pub open spec fn outbound_headers(method: Seq<char>, has_body: bool, headers: HeaderSeq) -> Result<
    HeaderSeq,
    MalformedInput,
> {
    match attached(headers, headers.len()) {
        Err(e) => Err(e),
        Ok(lines) => Ok(
            lines + forced_length(method, has_body) + forced_encoding(headers) + forced_agent(
                headers,
            ),
        ),
    }
}

/// The outbound request for a submission whose target resolved to `href`:
/// the proxies are looked at before the header lines.
pub open spec fn outbound_request(config: ClientConfigView, href: Seq<char>) -> Result<
    OutboundRequestView,
    MalformedInput,
> {
    match optional_proxy_rules(config.proxy) {
        Err(e) => Err(e),
        Ok(proxies) => match outbound_headers(config.method, config.data is Some, config.headers) {
            Err(e) => Err(e),
            Ok(headers) => Ok(
                OutboundRequestView {
                    method: config.method,
                    url: href,
                    headers,
                    body: config.data,
                    connect_timeout: config.connect_timeout,
                    redirect: redirect_policy(config.max_redirections),
                    proxies,
                },
            ),
        },
    }
}

/// A failure among the first lines stays the outcome however many lines follow.
proof fn lemma_failure_stays(headers: HeaderSeq, n: nat, m: nat)
    requires
        n <= m,
        attached(headers, n) is Err,
    ensures
        attached(headers, m) == attached(headers, n),
    decreases m,
{
    if n < m {
        lemma_failure_stays(headers, n, (m - 1) as nat);
    }
}

fn is_overridden(headers: &HeaderList, i: usize) -> (out: bool)
    requires
        i < headers.len(),
    ensures
        out == overridden(headers.deep_view(), i as int),
{
    let ghost h = headers.deep_view();
    let mut j: usize = i + 1;
    while j < headers.len()
        invariant
            i < j <= headers.len(),
            h == headers.deep_view(),
            forall|k: int| i < k < j ==> (#[trigger] h[k]).0 != h[i as int].0,
        decreases headers.len() - j,
    {
        if headers[j].0 == headers[i].0 {
            assert(h[j as int].0 == h[i as int].0);
            return true;
        }
        j += 1;
    }
    false
}

/// What a pass over the supplied lines found.
struct Attached {
    lines: HeaderList,
    range: bool,
    agent: bool,
}

fn attach_headers(headers: &HeaderList) -> (out: Result<Attached, MalformedInput>)
    ensures
        match out {
            Ok(found) => {
                &&& attached(headers.deep_view(), headers.len() as nat) == Ok::<
                    HeaderSeq,
                    MalformedInput,
                >(found.lines.deep_view())
                &&& found.range == names(headers.deep_view(), "range"@)
                &&& found.agent == names(headers.deep_view(), "user-agent"@)
            },
            Err(e) => attached(headers.deep_view(), headers.len() as nat) == Err::<
                HeaderSeq,
                MalformedInput,
            >(e),
        },
{
    let ghost h = headers.deep_view();
    let range_name = "range".to_owned();
    let agent_name = "user-agent".to_owned();
    let host_name = "host".to_owned();
    let length_name = "content-length".to_owned();
    let mut lines: HeaderList = Vec::new();
    let mut range = false;
    let mut agent = false;
    let mut i: usize = 0;
    assert(lines.deep_view() =~= HeaderSeq::empty());
    while i < headers.len()
        invariant
            i <= headers.len(),
            h == headers.deep_view(),
            range_name@ == "range"@,
            agent_name@ == "user-agent"@,
            host_name@ == "host"@,
            length_name@ == "content-length"@,
            attached(h, i as nat) == Ok::<HeaderSeq, MalformedInput>(lines.deep_view()),
            range == names_within(h, i as int, "range"@),
            agent == names_within(h, i as int, "user-agent"@),
        decreases headers.len() - i,
    {
        let ghost before = lines.deep_view();
        let ghost line = h[i as int];
        if !is_overridden(headers, i) {
            let name = match header_name_from_bytes(headers[i].0.as_str().as_bytes()) {
                Some(name) => name,
                None => {
                    proof {
                        lemma_failure_stays(h, (i + 1) as nat, headers.len() as nat);
                    }
                    return Err(MalformedInput::HeaderName);
                },
            };
            if !header_value_is_valid(headers[i].1.as_str().as_bytes()) {
                proof {
                    lemma_failure_stays(h, (i + 1) as nat, headers.len() as nat);
                }
                return Err(MalformedInput::HeaderValue);
            }
            if name == range_name {
                range = true;
            }
            if name == agent_name {
                agent = true;
            }
            if !(name == host_name || name == length_name) {
                lines.push((name, headers[i].1.clone()));
                assert(lines.deep_view() =~= before.push((name@, line.1)));
            }
        }
        i += 1;
    }
    Ok(Attached { lines, range, agent })
}

/// Whether the method is `POST` or `PUT`, in any case of letters.
pub fn method_is_post_or_put(method: &str) -> (out: bool)
    ensures
        out == is_post_or_put(method@),
{
    text_eq_ignoring_case(method, "POST") || text_eq_ignoring_case(method, "PUT")
}

fn line(name: &str, value: &str) -> (out: (String, String))
    ensures
        out.0@ == name@,
        out.1@ == value@,
{
    (name.to_owned(), value.to_owned())
}

/// Puts together the header lines of the outbound request.
///
/// Fails on the first supplied line that counts and has a name that is no
/// token ([`MalformedInput::HeaderName`]) or a value that may not be sent
/// ([`MalformedInput::HeaderValue`]).
pub fn build_headers(method: &str, has_body: bool, headers: &HeaderList) -> (out: Result<
    HeaderList,
    MalformedInput,
>)
    ensures
        match out {
            Ok(lines) => outbound_headers(method@, has_body, headers.deep_view()) == Ok::<
                HeaderSeq,
                MalformedInput,
            >(lines.deep_view()),
            Err(e) => outbound_headers(method@, has_body, headers.deep_view()) == Err::<
                HeaderSeq,
                MalformedInput,
            >(e),
        },
{
    let found = match attach_headers(headers) {
        Ok(found) => found,
        Err(e) => {
            return Err(e);
        },
    };
    let ghost h = headers.deep_view();
    let ghost supplied = found.lines.deep_view();
    let mut lines = found.lines;
    if !has_body && method_is_post_or_put(method) {
        lines.push(line("content-length", "0"));
    }
    if found.range {
        lines.push(line("accept-encoding", "identity"));
    }
    if !found.agent {
        lines.push(line("user-agent", DEFAULT_USER_AGENT));
    }
    assert(lines.deep_view() =~= supplied + forced_length(method@, has_body) + forced_encoding(h)
        + forced_agent(h));
    Ok(lines)
}

/// Turns a limit on redirections into the policy of the client.
pub fn redirect_policy_for(max_redirections: Option<usize>) -> (out: RedirectPolicy)
    ensures
        out == redirect_policy(max_redirections),
{
    match max_redirections {
        None => RedirectPolicy::ClientDefault,
        Some(limit) => if limit == 0 {
            RedirectPolicy::Never
        } else {
            RedirectPolicy::Limited(limit)
        },
    }
}

/// Assembles the outbound request of a submission whose target resolved to
/// `href`.
///
/// Fails where the client refuses a proxy address
/// ([`MalformedInput::ProxyUrl`]), else where a header line is malformed.
pub fn build_request(config: ClientConfig, href: String) -> (out: Result<
    OutboundRequest,
    MalformedInput,
>)
    ensures
        match out {
            Ok(request) => outbound_request(config@, href@) == Ok::<
                OutboundRequestView,
                MalformedInput,
            >(request@),
            Err(e) => outbound_request(config@, href@) == Err::<
                OutboundRequestView,
                MalformedInput,
            >(e),
        },
{
    let ghost view = config@;
    let ClientConfig { method, url: _, headers, data, connect_timeout, max_redirections, proxy } =
        config;
    let proxies = match proxy {
        Some(proxy_config) => match attach_proxy(proxy_config) {
            Ok(rules) => rules,
            Err(e) => {
                return Err(e);
            },
        },
        None => Vec::new(),
    };
    assert(optional_proxy_rules(view.proxy) == Ok::<Seq<ProxyRuleView>, MalformedInput>(
        proxies.deep_view(),
    )) by {
        if proxy is None {
            assert(proxies.deep_view() =~= Seq::<ProxyRuleView>::empty());
        }
    }
    let lines = match build_headers(method.as_str(), data.is_some(), &headers) {
        Ok(lines) => lines,
        Err(e) => {
            return Err(e);
        },
    };
    Ok(
        OutboundRequest {
            method,
            url: href,
            headers: lines,
            body: data,
            connect_timeout,
            redirect: redirect_policy_for(max_redirections),
            proxies,
        },
    )
}

/// No supplied line goes out under the name `Host` or `Content-Length`.
proof fn lemma_attached_lines_are_not_stripped(headers: HeaderSeq, n: nat)
    requires
        attached(headers, n) is Ok,
    ensures
        forall|i: int|
            0 <= i < attached(headers, n)->Ok_0.len() ==> !is_stripped(
                (#[trigger] attached(headers, n)->Ok_0[i]).0,
            ),
    decreases n,
{
    if n > 0 {
        lemma_attached_lines_are_not_stripped(headers, (n - 1) as nat);
    }
}

/// The request never carries a `Host` line, and carries a `Content-Length`
/// line only where the empty body of a `POST` or `PUT` is stated.
pub proof fn law_host_and_length_are_stripped(
    method: Seq<char>,
    has_body: bool,
    headers: HeaderSeq,
)
    requires
        outbound_headers(method, has_body, headers) is Ok,
    ensures
        forall|i: int|
            0 <= i < outbound_headers(method, has_body, headers)->Ok_0.len() ==> {
                let line = #[trigger] outbound_headers(method, has_body, headers)->Ok_0[i];
                &&& line.0 != "host"@
                &&& line.0 == "content-length"@ ==> line == ("content-length"@, "0"@)
                    && !has_body && is_post_or_put(method)
            },
{
    lemma_attached_lines_are_not_stripped(headers, headers.len());
    reveal_strlit("host");
    reveal_strlit("content-length");
    reveal_strlit("accept-encoding");
    reveal_strlit("user-agent");
    assert("host"@.len() == 4 && "content-length"@.len() == 14);
}

/// Two header names that differ only in the case of their letters have
/// the same normal form, or are both none.
pub proof fn law_header_name_ignores_case(first: Seq<u8>, second: Seq<u8>)
    requires
        same_ignoring_case(first, second),
    ensures
        canonical_header_name(first) == canonical_header_name(second),
{
    assert(lower_bytes(first).len() == lower_bytes(second).len());
    assert forall|i: int| 0 <= i < first.len() implies lower_byte(first[i]) == lower_byte(
        second[i],
    ) by {
        assert(lower_bytes(first)[i] == lower_bytes(second)[i]);
    }
}

/// A name of small letters, digits and token marks is its own normal form.
proof fn lemma_small_name_is_normal(name: Seq<char>)
    requires
        1 <= name.len() <= 65535,
        forall|i: int|
            0 <= i < name.len() ==> '\0' <= (#[trigger] name[i]) <= '\u{7f}' && is_token_byte(
                name[i] as u8,
            ) && lower_byte(name[i] as u8) == name[i] as u8,
    ensures
        canonical_header_name(encode_utf8(name)) == Some(name),
{
    vstd::utf8::is_ascii_chars_encode_utf8(name);
}

/// A supplied line that counts asks for a range whatever the case of the
/// letters of its name.
pub proof fn law_range_counts_in_any_case(headers: HeaderSeq, i: int)
    requires
        0 <= i < headers.len(),
        !overridden(headers, i),
        same_text_ignoring_case(headers[i].0, "range"@),
    ensures
        names(headers, "range"@),
{
    reveal_strlit("range");
    lemma_small_name_is_normal("range"@);
    law_header_name_ignores_case(encode_utf8(headers[i].0), encode_utf8("range"@));
}

/// A `POST` or `PUT` without a body goes out with `Content-Length: 0`.
pub proof fn law_empty_body_states_length(method: Seq<char>, headers: HeaderSeq)
    requires
        is_post_or_put(method),
        outbound_headers(method, false, headers) is Ok,
    ensures
        outbound_headers(method, false, headers)->Ok_0.contains(("content-length"@, "0"@)),
{
    let lines = attached(headers, headers.len())->Ok_0;
    let out = outbound_headers(method, false, headers)->Ok_0;
    assert(out[lines.len() as int] == ("content-length"@, "0"@));
}

/// A request that asks for a range goes out with `Accept-Encoding:
/// identity`, whatever else the caller said of the encoding.
pub proof fn law_range_forces_identity(method: Seq<char>, has_body: bool, headers: HeaderSeq)
    requires
        names(headers, "range"@),
        outbound_headers(method, has_body, headers) is Ok,
    ensures
        outbound_headers(method, has_body, headers)->Ok_0.contains(
            ("accept-encoding"@, "identity"@),
        ),
{
    let lines = attached(headers, headers.len())->Ok_0;
    let length = forced_length(method, has_body);
    let out = outbound_headers(method, has_body, headers)->Ok_0;
    assert(out[(lines.len() + length.len()) as int] == ("accept-encoding"@, "identity"@));
}

} // verus!
