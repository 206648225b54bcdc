//! What a caller hands to the fetch subsystem, and what it gets back.

use vstd::prelude::*;

verus! {

/// Header lines as pairs of name and value.
pub type HeaderList = Vec<(String, String)>;

/// Mathematical value of a [`HeaderList`].
pub type HeaderSeq = Seq<(Seq<char>, Seq<char>)>;

/// Metadata of a resolved response.
#[derive(Debug, Clone, PartialEq, Eq)]
pub struct FetchResponse {
    pub status: u16,
    pub status_text: String,
    pub headers: HeaderList,
    pub url: String,
}

pub struct FetchResponseView {
    pub status: u16,
    pub status_text: Seq<char>,
    pub headers: HeaderSeq,
    pub url: Seq<char>,
}

impl View for FetchResponse {
    type V = FetchResponseView;

    open spec fn view(&self) -> FetchResponseView {
        FetchResponseView {
            status: self.status,
            status_text: self.status_text@,
            headers: self.headers.deep_view(),
            url: self.url@,
        }
    }
}

/// Credentials for a proxy.
#[derive(Debug, Clone, PartialEq, Eq)]
pub struct BasicAuth {
    pub username: String,
    pub password: String,
}

pub struct BasicAuthView {
    pub username: Seq<char>,
    pub password: Seq<char>,
}

impl View for BasicAuth {
    type V = BasicAuthView;

    open spec fn view(&self) -> BasicAuthView {
        BasicAuthView { username: self.username@, password: self.password@ }
    }
}

/// A proxy with its optional credentials and its optional list of hosts
/// that bypass it.
#[derive(Debug, Clone, PartialEq, Eq)]
pub struct DetailedProxyConfig {
    pub url: String,
    pub basic_auth: Option<BasicAuth>,
    pub no_proxy: Option<String>,
}

pub struct DetailedProxyConfigView {
    pub url: Seq<char>,
    pub basic_auth: Option<BasicAuthView>,
    pub no_proxy: Option<Seq<char>>,
}

/// The value of optional credentials.
pub open spec fn auth_view(auth: Option<BasicAuth>) -> Option<BasicAuthView> {
    match auth {
        Some(a) => Some(a@),
        None => None,
    }
}

/// The value of an optional text.
pub open spec fn text_view(text: Option<String>) -> Option<Seq<char>> {
    match text {
        Some(t) => Some(t@),
        None => None,
    }
}

/// The value of optional bytes.
pub open spec fn bytes_view(bytes: Option<Vec<u8>>) -> Option<Seq<u8>> {
    match bytes {
        Some(b) => Some(b@),
        None => None,
    }
}

impl View for DetailedProxyConfig {
    type V = DetailedProxyConfigView;

    open spec fn view(&self) -> DetailedProxyConfigView {
        DetailedProxyConfigView {
            url: self.url@,
            basic_auth: auth_view(self.basic_auth),
            no_proxy: text_view(self.no_proxy),
        }
    }
}

/// A proxy given either as a bare address or in detail.
#[derive(Debug, Clone, PartialEq, Eq)]
pub enum UrlOrConfig {
    Url(String),
    Config(DetailedProxyConfig),
}

pub enum UrlOrConfigView {
    Url(Seq<char>),
    Config(DetailedProxyConfigView),
}

impl View for UrlOrConfig {
    type V = UrlOrConfigView;

    open spec fn view(&self) -> UrlOrConfigView {
        match *self {
            UrlOrConfig::Url(url) => UrlOrConfigView::Url(url@),
            UrlOrConfig::Config(config) => UrlOrConfigView::Config(config@),
        }
    }
}

/// Which traffic goes through which proxy.
#[derive(Debug, Clone, PartialEq, Eq)]
pub enum ProxyConfig {
    All { all: UrlOrConfig },
    HttpAndHttps { http: UrlOrConfig, https: UrlOrConfig },
    Http { http: UrlOrConfig },
    Https { https: UrlOrConfig },
}

pub enum ProxyConfigView {
    All { all: UrlOrConfigView },
    HttpAndHttps { http: UrlOrConfigView, https: UrlOrConfigView },
    Http { http: UrlOrConfigView },
    Https { https: UrlOrConfigView },
}

impl View for ProxyConfig {
    type V = ProxyConfigView;

    open spec fn view(&self) -> ProxyConfigView {
        match *self {
            ProxyConfig::All { all } => ProxyConfigView::All { all: all@ },
            ProxyConfig::HttpAndHttps { http, https } => ProxyConfigView::HttpAndHttps {
                http: http@,
                https: https@,
            },
            ProxyConfig::Http { http } => ProxyConfigView::Http { http: http@ },
            ProxyConfig::Https { https } => ProxyConfigView::Https { https: https@ },
        }
    }
}

/// The value of an optional proxy configuration.
pub open spec fn proxy_view(proxy: Option<ProxyConfig>) -> Option<ProxyConfigView> {
    match proxy {
        Some(p) => Some(p@),
        None => None,
    }
}

/// One submission: what to request, and through which client.
#[derive(Debug, Clone, PartialEq, Eq)]
pub struct ClientConfig {
    /// The HTTP method, compared without regard to ASCII case.
    pub method: String,
    /// The target, as text.
    pub url: String,
    /// The header lines; of two lines with the same name text the later one counts.
    pub headers: HeaderList,
    /// The body, if any.
    pub data: Option<Vec<u8>>,
    /// How long a connection attempt may take, in milliseconds.
    pub connect_timeout: Option<u64>,
    /// How many redirections are followed; zero follows none.
    pub max_redirections: Option<usize>,
    pub proxy: Option<ProxyConfig>,
}

pub struct ClientConfigView {
    pub method: Seq<char>,
    pub url: Seq<char>,
    pub headers: HeaderSeq,
    pub data: Option<Seq<u8>>,
    pub connect_timeout: Option<u64>,
    pub max_redirections: Option<usize>,
    pub proxy: Option<ProxyConfigView>,
}

impl View for ClientConfig {
    type V = ClientConfigView;

    open spec fn view(&self) -> ClientConfigView {
        ClientConfigView {
            method: self.method@,
            url: self.url@,
            headers: self.headers.deep_view(),
            data: bytes_view(self.data),
            connect_timeout: self.connect_timeout,
            max_redirections: self.max_redirections,
            proxy: proxy_view(self.proxy),
        }
    }
}

} // verus!
