//! Resolution of a proxy configuration into the rules a client is built with.

use crate::config::{
    auth_view, text_view, BasicAuth, BasicAuthView, ProxyConfig, ProxyConfigView, UrlOrConfig,
    UrlOrConfigView,
};
use crate::error::MalformedInput;
use vstd::prelude::*;

verus! {

/// The traffic that a proxy rule applies to.
#[derive(Debug, Clone, Copy, PartialEq, Eq, Structural)]
pub enum ProxyTarget {
    /// Requests of both schemes.
    All,
    /// `http` requests only.
    Http,
    /// `https` requests only.
    Https,
}

/// One proxy of the client: where it is, which traffic it takes, and the
/// credentials and exclusions that go with it.
#[derive(Debug, Clone, PartialEq, Eq)]
pub struct ProxyRule {
    pub target: ProxyTarget,
    pub url: String,
    pub basic_auth: Option<BasicAuth>,
    /// Hosts and patterns that bypass the proxy, separated by commas.
    pub no_proxy: Option<String>,
}

pub struct ProxyRuleView {
    pub target: ProxyTarget,
    pub url: Seq<char>,
    pub basic_auth: Option<BasicAuthView>,
    pub no_proxy: Option<Seq<char>>,
}

impl View for ProxyRule {
    type V = ProxyRuleView;

    open spec fn view(&self) -> ProxyRuleView {
        ProxyRuleView {
            target: self.target,
            url: self.url@,
            basic_auth: auth_view(self.basic_auth),
            no_proxy: text_view(self.no_proxy),
        }
    }
}

impl DeepView for ProxyRule {
    type V = ProxyRuleView;

    open spec fn deep_view(&self) -> ProxyRuleView {
        self@
    }
}

/// Whether the client takes `url` as the address of a proxy for all traffic.
pub uninterp spec fn proxy_all_accepts(url: Seq<char>) -> bool;

/// Whether the client takes `url` as the address of a proxy for `http` traffic.
pub uninterp spec fn proxy_http_accepts(url: Seq<char>) -> bool;

/// Whether the client takes `url` as the address of a proxy for `https` traffic.
pub uninterp spec fn proxy_https_accepts(url: Seq<char>) -> bool;

/// `reqwest::Proxy::all`: whether it succeeds depends on the address alone.
#[verifier::external_body]
fn accepts_for_all(url: &str) -> (out: bool)
    ensures
        out == proxy_all_accepts(url@),
{
    reqwest::Proxy::all(url).is_ok()
}

/// `reqwest::Proxy::http`: whether it succeeds depends on the address alone.
#[verifier::external_body]
fn accepts_for_http(url: &str) -> (out: bool)
    ensures
        out == proxy_http_accepts(url@),
{
    reqwest::Proxy::http(url).is_ok()
}

/// `reqwest::Proxy::https`: whether it succeeds depends on the address alone.
#[verifier::external_body]
fn accepts_for_https(url: &str) -> (out: bool)
    ensures
        out == proxy_https_accepts(url@),
{
    reqwest::Proxy::https(url).is_ok()
}

/// Whether the client takes `url` as the address of a proxy for `target`.
pub open spec fn proxy_accepts(target: ProxyTarget, url: Seq<char>) -> bool {
    match target {
        ProxyTarget::All => proxy_all_accepts(url),
        ProxyTarget::Http => proxy_http_accepts(url),
        ProxyTarget::Https => proxy_https_accepts(url),
    }
}

/// The address that a proxy entry names.
pub open spec fn entry_url(entry: UrlOrConfigView) -> Seq<char> {
    match entry {
        UrlOrConfigView::Url(url) => url,
        UrlOrConfigView::Config(config) => config.url,
    }
}

/// A rule with the given credentials and exclusions put in place of its
/// own, each only where one is given.
pub open spec fn with_config(
    basic_auth: Option<BasicAuthView>,
    no_proxy: Option<Seq<char>>,
    rule: ProxyRuleView,
) -> ProxyRuleView {
    ProxyRuleView {
        target: rule.target,
        url: rule.url,
        basic_auth: if basic_auth is Some {
            basic_auth
        } else {
            rule.basic_auth
        },
        no_proxy: if no_proxy is Some {
            no_proxy
        } else {
            rule.no_proxy
        },
    }
}

/// The rule that puts the proxy `entry` in front of the traffic `target`.
pub open spec fn rule_for(target: ProxyTarget, entry: UrlOrConfigView) -> ProxyRuleView {
    let bare = ProxyRuleView { target, url: entry_url(entry), basic_auth: None, no_proxy: None };
    match entry {
        UrlOrConfigView::Url(_) => bare,
        UrlOrConfigView::Config(config) => with_config(config.basic_auth, config.no_proxy, bare),
    }
}

/// `rules` followed by the rule for `entry`, or the failure where the
/// client does not take the entry's address.
pub open spec fn with_proxy(
    rules: Seq<ProxyRuleView>,
    target: ProxyTarget,
    entry: UrlOrConfigView,
) -> Result<Seq<ProxyRuleView>, MalformedInput> {
    if proxy_accepts(target, entry_url(entry)) {
        Ok(rules.push(rule_for(target, entry)))
    } else {
        Err(MalformedInput::ProxyUrl)
    }
}

/// The rules that a proxy configuration stands for, in the order in which
/// the client gets them: one for a single slot, the `http` rule before the
/// `https` rule for two.
pub open spec fn proxy_rules(config: ProxyConfigView) -> Result<
    Seq<ProxyRuleView>,
    MalformedInput,
> {
    match config {
        ProxyConfigView::All { all } => with_proxy(Seq::empty(), ProxyTarget::All, all),
        ProxyConfigView::Http { http } => with_proxy(Seq::empty(), ProxyTarget::Http, http),
        ProxyConfigView::Https { https } => with_proxy(Seq::empty(), ProxyTarget::Https, https),
        ProxyConfigView::HttpAndHttps { http, https } => match with_proxy(
            Seq::empty(),
            ProxyTarget::Http,
            http,
        ) {
            Ok(rules) => with_proxy(rules, ProxyTarget::Https, https),
            Err(e) => Err(e),
        },
    }
}

/// The rules of an optional proxy configuration: none where there is none.
pub open spec fn optional_proxy_rules(config: Option<ProxyConfigView>) -> Result<
    Seq<ProxyRuleView>,
    MalformedInput,
> {
    match config {
        Some(c) => proxy_rules(c),
        None => Ok(Seq::empty()),
    }
}

/// Puts credentials and exclusions on a proxy rule, each only where one is given.
pub fn attach_config(basic_auth: Option<BasicAuth>, no_proxy: Option<String>, proxy: ProxyRule) -> (out:
    ProxyRule)
    ensures
        out@ == with_config(auth_view(basic_auth), text_view(no_proxy), proxy@),
{
    let mut proxy = proxy;
    if let Some(auth) = basic_auth {
        proxy.basic_auth = Some(auth);
    }
    if let Some(hosts) = no_proxy {
        proxy.no_proxy = Some(hosts);
    }
    proxy
}

fn accepts(target: ProxyTarget, url: &str) -> (out: bool)
    ensures
        out == proxy_accepts(target, url@),
{
    match target {
        ProxyTarget::All => accepts_for_all(url),
        ProxyTarget::Http => accepts_for_http(url),
        ProxyTarget::Https => accepts_for_https(url),
    }
}

/// Adds the rule for one proxy entry, unless the client refuses its address.
pub fn process_proxy(rules: Vec<ProxyRule>, target: ProxyTarget, entry: UrlOrConfig) -> (out: Result<
    Vec<ProxyRule>,
    MalformedInput,
>)
    ensures
        match out {
            Ok(extended) => with_proxy(rules.deep_view(), target, entry@) == Ok::<
                Seq<ProxyRuleView>,
                MalformedInput,
            >(extended.deep_view()),
            Err(e) => with_proxy(rules.deep_view(), target, entry@) == Err::<
                Seq<ProxyRuleView>,
                MalformedInput,
            >(e),
        },
{
    let mut rules = rules;
    let ghost before = rules.deep_view();
    let rule = match entry {
        UrlOrConfig::Url(url) => {
            if !accepts(target, url.as_str()) {
                return Err(MalformedInput::ProxyUrl);
            }
            ProxyRule { target, url, basic_auth: None, no_proxy: None }
        },
        UrlOrConfig::Config(config) => {
            if !accepts(target, config.url.as_str()) {
                return Err(MalformedInput::ProxyUrl);
            }
            attach_config(
                config.basic_auth,
                config.no_proxy,
                ProxyRule { target, url: config.url, basic_auth: None, no_proxy: None },
            )
        },
    };
    rules.push(rule);
    assert(rules.deep_view() =~= before.push(rule_for(target, entry@)));
    Ok(rules)
}

/// Resolves a proxy configuration into the rules of the client.
///
/// Fails with [`MalformedInput::ProxyUrl`] exactly where the client refuses
/// the address of a slot; of two slots the `http` one is looked at first.
pub fn attach_proxy(config: ProxyConfig) -> (out: Result<Vec<ProxyRule>, MalformedInput>)
    ensures
        match out {
            Ok(rules) => proxy_rules(config@) == Ok::<Seq<ProxyRuleView>, MalformedInput>(
                rules.deep_view(),
            ),
            Err(e) => proxy_rules(config@) == Err::<Seq<ProxyRuleView>, MalformedInput>(e),
        },
{
    let rules: Vec<ProxyRule> = Vec::new();
    assert(rules.deep_view() =~= Seq::<ProxyRuleView>::empty());
    match config {
        ProxyConfig::All { all } => process_proxy(rules, ProxyTarget::All, all),
        ProxyConfig::Http { http } => process_proxy(rules, ProxyTarget::Http, http),
        ProxyConfig::Https { https } => process_proxy(rules, ProxyTarget::Https, https),
        ProxyConfig::HttpAndHttps { http, https } => {
            match process_proxy(rules, ProxyTarget::Http, http) {
                Ok(first) => process_proxy(first, ProxyTarget::Https, https),
                Err(e) => Err(e),
            }
        },
    }
}

/// A proxy entry gives a rule the same address, credentials and exclusions
/// whichever traffic it is put in front of.
pub proof fn law_slot_does_not_change_rule(
    entry: UrlOrConfigView,
    first: ProxyTarget,
    second: ProxyTarget,
)
    ensures
        rule_for(first, entry).url == rule_for(second, entry).url,
        rule_for(first, entry).basic_auth == rule_for(second, entry).basic_auth,
        rule_for(first, entry).no_proxy == rule_for(second, entry).no_proxy,
        rule_for(first, entry).target == first,
{
}

} // verus!
