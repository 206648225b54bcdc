use plugins_core::config::{BasicAuth, ClientConfig, DetailedProxyConfig, ProxyConfig, UrlOrConfig};
use plugins_core::error::{Error, MalformedInput};
use plugins_core::fetch::{prepare, Deferred};
use plugins_core::proxy::{attach_config, attach_proxy, process_proxy, ProxyRule, ProxyTarget};
use plugins_core::request::{
    build_headers, build_request, method_is_post_or_put, redirect_policy_for, OutboundRequest,
    RedirectPolicy, DEFAULT_USER_AGENT,
};
use plugins_core::text::{eq_ignoring_case, text_eq_ignoring_case, token_byte};
use plugins_core::wire::header_value_byte;

fn pair(name: &str, value: &str) -> (String, String) {
    (name.to_string(), value.to_string())
}

fn config(method: &str, headers: Vec<(String, String)>, data: Option<Vec<u8>>) -> ClientConfig {
    ClientConfig {
        method: method.to_string(),
        url: "https://example.com/x".to_string(),
        headers,
        data,
        connect_timeout: None,
        max_redirections: None,
        proxy: None,
    }
}

fn request_of(config: ClientConfig) -> OutboundRequest {
    match prepare(config, true) {
        Ok(Deferred::Send(request)) => request,
        other => panic!("no request: {:?}", other),
    }
}

#[test]
fn plain_get_carries_only_the_default_agent() {
    let request = request_of(config("GET", Vec::new(), None));
    assert_eq!(request.method, "GET");
    assert_eq!(request.url, "https://example.com/x");
    assert_eq!(request.headers, vec![pair("user-agent", DEFAULT_USER_AGENT)]);
    assert_eq!(DEFAULT_USER_AGENT, "tauri");
    assert_eq!(request.body, None);
    assert_eq!(request.connect_timeout, None);
    assert_eq!(request.redirect, RedirectPolicy::ClientDefault);
    assert!(request.proxies.is_empty());
}

#[test]
fn url_is_sent_in_normal_form() {
    let mut c = config("GET", Vec::new(), None);
    c.url = "HTTPS://Example.COM".to_string();
    assert_eq!(request_of(c).url, "https://example.com/");
}

#[test]
fn post_without_body_states_empty_length() {
    let request = request_of(config("POST", Vec::new(), None));
    assert_eq!(
        request.headers,
        vec![pair("content-length", "0"), pair("user-agent", "tauri")]
    );
}

#[test]
fn put_without_body_states_empty_length() {
    let request = request_of(config("PUT", Vec::new(), None));
    assert!(request.headers.contains(&pair("content-length", "0")));
}

#[test]
fn post_in_small_letters_states_empty_length() {
    let request = request_of(config("post", Vec::new(), None));
    assert_eq!(request.method, "post");
    assert!(request.headers.contains(&pair("content-length", "0")));
}

#[test]
fn post_with_body_states_no_length() {
    let request = request_of(config("POST", Vec::new(), Some(vec![1, 2])));
    assert_eq!(request.headers, vec![pair("user-agent", "tauri")]);
    assert_eq!(request.body, Some(vec![1, 2]));
}

#[test]
fn post_with_empty_body_states_no_length() {
    let request = request_of(config("POST", Vec::new(), Some(Vec::new())));
    assert_eq!(request.headers, vec![pair("user-agent", "tauri")]);
    assert_eq!(request.body, Some(Vec::new()));
}

#[test]
fn get_without_body_states_no_length() {
    let request = request_of(config("DELETE", Vec::new(), None));
    assert!(!request.headers.iter().any(|h| h.0 == "content-length"));
}

#[test]
fn host_and_length_are_stripped() {
    let headers = vec![
        pair("Host", "evil.example"),
        pair("Accept", "text/html"),
        pair("Content-Length", "12345"),
    ];
    let request = request_of(config("GET", headers, None));
    assert_eq!(
        request.headers,
        vec![pair("accept", "text/html"), pair("user-agent", "tauri")]
    );
}

#[test]
fn range_forces_identity_encoding() {
    let headers = vec![pair("Range", "bytes=0-10")];
    let request = request_of(config("GET", headers, None));
    assert_eq!(
        request.headers,
        vec![
            pair("range", "bytes=0-10"),
            pair("accept-encoding", "identity"),
            pair("user-agent", "tauri"),
        ]
    );
}

#[test]
fn range_adds_identity_after_the_callers_encoding() {
    let headers = vec![pair("accept-encoding", "gzip"), pair("range", "bytes=5-")];
    let request = request_of(config("GET", headers, None));
    assert_eq!(
        request.headers,
        vec![
            pair("accept-encoding", "gzip"),
            pair("range", "bytes=5-"),
            pair("accept-encoding", "identity"),
            pair("user-agent", "tauri"),
        ]
    );
}

#[test]
fn callers_agent_replaces_the_default() {
    let headers = vec![pair("User-Agent", "mine/1.0")];
    let request = request_of(config("GET", headers, None));
    assert_eq!(request.headers, vec![pair("user-agent", "mine/1.0")]);
}

#[test]
fn all_forced_lines_come_in_order() {
    let headers = vec![pair("range", "bytes=0-1")];
    let request = request_of(config("PUT", headers, None));
    assert_eq!(
        request.headers,
        vec![
            pair("range", "bytes=0-1"),
            pair("content-length", "0"),
            pair("accept-encoding", "identity"),
            pair("user-agent", "tauri"),
        ]
    );
}

#[test]
fn later_line_of_the_same_name_text_counts() {
    let headers = vec![
        pair("x-a", "first"),
        pair("x-b", "only"),
        pair("x-a", "second"),
    ];
    let request = request_of(config("GET", headers, None));
    assert_eq!(
        request.headers,
        vec![
            pair("x-b", "only"),
            pair("x-a", "second"),
            pair("user-agent", "tauri"),
        ]
    );
}

#[test]
fn name_texts_that_differ_in_case_both_count() {
    let headers = vec![pair("X-A", "first"), pair("x-a", "second")];
    let request = request_of(config("GET", headers, None));
    assert_eq!(
        request.headers,
        vec![
            pair("x-a", "first"),
            pair("x-a", "second"),
            pair("user-agent", "tauri"),
        ]
    );
}

#[test]
fn overridden_line_is_not_looked_at() {
    let headers = vec![pair("x-a", "bad\nvalue"), pair("x-a", "good")];
    let request = request_of(config("GET", headers, None));
    assert_eq!(
        request.headers,
        vec![pair("x-a", "good"), pair("user-agent", "tauri")]
    );
}

#[test]
fn bad_header_name_is_rejected() {
    let out = prepare(config("GET", vec![pair("bad name", "v")], None), true);
    assert_eq!(out, Err(Error::MalformedInput(MalformedInput::HeaderName)));
    let out = prepare(config("GET", vec![pair("", "v")], None), true);
    assert_eq!(out, Err(Error::MalformedInput(MalformedInput::HeaderName)));
}

#[test]
fn bad_header_value_is_rejected() {
    let out = prepare(config("GET", vec![pair("x-a", "line\r\nbreak")], None), true);
    assert_eq!(out, Err(Error::MalformedInput(MalformedInput::HeaderValue)));
}

#[test]
fn stripped_header_is_still_validated() {
    let out = prepare(config("GET", vec![pair("host", "a\u{7f}b")], None), true);
    assert_eq!(out, Err(Error::MalformedInput(MalformedInput::HeaderValue)));
}

#[test]
fn first_malformed_line_decides() {
    let headers = vec![pair("x-a", "bad\u{0}"), pair("bad name", "v")];
    assert_eq!(
        build_headers("GET", false, &headers),
        Err(MalformedInput::HeaderValue)
    );
    let headers = vec![pair("bad name", "bad\u{0}"), pair("x-a", "bad\u{0}")];
    assert_eq!(
        build_headers("GET", false, &headers),
        Err(MalformedInput::HeaderName)
    );
}

#[test]
fn header_value_may_hold_tabs_and_other_languages() {
    let headers = vec![pair("x-a", "a\tb é")];
    assert_eq!(
        build_headers("GET", true, &headers),
        Ok(vec![pair("x-a", "a\tb é"), pair("user-agent", "tauri")])
    );
}

#[test]
fn header_name_longer_than_the_limit_is_rejected() {
    let long = "a".repeat(65535);
    let headers = vec![(long.clone(), "v".to_string())];
    assert_eq!(
        build_headers("GET", true, &headers),
        Ok(vec![(long, "v".to_string()), pair("user-agent", "tauri")])
    );
    let too_long = "a".repeat(65536);
    let headers = vec![(too_long, "v".to_string())];
    assert_eq!(
        build_headers("GET", true, &headers),
        Err(MalformedInput::HeaderName)
    );
}

#[test]
fn token_bytes_are_those_of_the_http_library() {
    for b in 0..=255u8 {
        let bytes = [b];
        assert_eq!(
            token_byte(b),
            http::Method::from_bytes(&bytes).is_ok(),
            "method byte {}",
            b
        );
        assert_eq!(
            token_byte(b),
            http::HeaderName::from_bytes(&bytes).is_ok(),
            "name byte {}",
            b
        );
        let long = [b; 70];
        assert_eq!(
            token_byte(b),
            http::HeaderName::from_bytes(&long).is_ok(),
            "long name byte {}",
            b
        );
        assert_eq!(
            header_value_byte(b),
            http::HeaderValue::from_bytes(&bytes).is_ok(),
            "value byte {}",
            b
        );
    }
}

#[test]
fn long_methods_are_accepted() {
    let long = "X".repeat(40);
    let request = request_of(config(&long, Vec::new(), None));
    assert_eq!(request.method, long);
}

#[test]
fn comparison_without_case() {
    assert!(eq_ignoring_case(b"Content-Type", b"content-type"));
    assert!(!eq_ignoring_case(b"Content-Type", b"content-typ"));
    assert!(!eq_ignoring_case(b"a[", b"a{"));
    assert!(eq_ignoring_case(b"", b""));
    assert!(text_eq_ignoring_case("PoSt", "POST"));
    assert!(method_is_post_or_put("put"));
    assert!(method_is_post_or_put("POST"));
    assert!(!method_is_post_or_put("PATCH"));
    assert!(!method_is_post_or_put("POSTS"));
}

#[test]
fn redirect_policy_follows_the_limit() {
    assert_eq!(redirect_policy_for(None), RedirectPolicy::ClientDefault);
    assert_eq!(redirect_policy_for(Some(0)), RedirectPolicy::Never);
    assert_eq!(redirect_policy_for(Some(5)), RedirectPolicy::Limited(5));
}

#[test]
fn timeout_and_redirects_are_handed_on() {
    let mut c = config("GET", Vec::new(), None);
    c.connect_timeout = Some(1500);
    c.max_redirections = Some(0);
    let request = build_request(c, "https://example.com/y".to_string()).unwrap();
    assert_eq!(request.connect_timeout, Some(1500));
    assert_eq!(request.redirect, RedirectPolicy::Never);
    assert_eq!(request.url, "https://example.com/y");
}

fn detailed(url: &str) -> UrlOrConfig {
    UrlOrConfig::Config(DetailedProxyConfig {
        url: url.to_string(),
        basic_auth: Some(BasicAuth {
            username: "u".to_string(),
            password: "p".to_string(),
        }),
        no_proxy: Some("localhost,.internal".to_string()),
    })
}

fn detailed_rule(target: ProxyTarget, url: &str) -> ProxyRule {
    ProxyRule {
        target,
        url: url.to_string(),
        basic_auth: Some(BasicAuth {
            username: "u".to_string(),
            password: "p".to_string(),
        }),
        no_proxy: Some("localhost,.internal".to_string()),
    }
}

fn bare_rule(target: ProxyTarget, url: &str) -> ProxyRule {
    ProxyRule {
        target,
        url: url.to_string(),
        basic_auth: None,
        no_proxy: None,
    }
}

#[test]
fn proxy_for_all_traffic() {
    let config = ProxyConfig::All {
        all: UrlOrConfig::Url("http://proxy.local:8080".to_string()),
    };
    assert_eq!(
        attach_proxy(config),
        Ok(vec![bare_rule(ProxyTarget::All, "http://proxy.local:8080")])
    );
}

#[test]
fn proxy_per_scheme_keeps_the_order() {
    let config = ProxyConfig::HttpAndHttps {
        http: UrlOrConfig::Url("http://a.local".to_string()),
        https: detailed("http://b.local"),
    };
    assert_eq!(
        attach_proxy(config),
        Ok(vec![
            bare_rule(ProxyTarget::Http, "http://a.local"),
            detailed_rule(ProxyTarget::Https, "http://b.local"),
        ])
    );
}

#[test]
fn proxy_details_are_the_same_in_every_slot() {
    let http = attach_proxy(ProxyConfig::Http {
        http: detailed("http://p.local"),
    })
    .unwrap();
    let https = attach_proxy(ProxyConfig::Https {
        https: detailed("http://p.local"),
    })
    .unwrap();
    let all = attach_proxy(ProxyConfig::All {
        all: detailed("http://p.local"),
    })
    .unwrap();
    assert_eq!(http, vec![detailed_rule(ProxyTarget::Http, "http://p.local")]);
    assert_eq!(https, vec![detailed_rule(ProxyTarget::Https, "http://p.local")]);
    assert_eq!(all, vec![detailed_rule(ProxyTarget::All, "http://p.local")]);
}

#[test]
fn refused_proxy_address_is_rejected() {
    let config = ProxyConfig::All {
        all: UrlOrConfig::Url("http://[broken".to_string()),
    };
    assert_eq!(attach_proxy(config), Err(MalformedInput::ProxyUrl));
    let config = ProxyConfig::HttpAndHttps {
        http: UrlOrConfig::Url("http://fine.local".to_string()),
        https: detailed("http://[broken"),
    };
    assert_eq!(attach_proxy(config), Err(MalformedInput::ProxyUrl));
    assert_eq!(
        process_proxy(Vec::new(), ProxyTarget::Http, detailed("http://[broken")),
        Err(MalformedInput::ProxyUrl)
    );
}

#[test]
fn refused_proxy_is_reported_before_a_bad_header() {
    let mut c = config("GET", vec![pair("bad name", "v")], None);
    c.proxy = Some(ProxyConfig::Http {
        http: UrlOrConfig::Url("http://[broken".to_string()),
    });
    assert_eq!(
        prepare(c, true),
        Err(Error::MalformedInput(MalformedInput::ProxyUrl))
    );
}

#[test]
fn denied_url_is_reported_before_a_refused_proxy() {
    let mut c = config("GET", Vec::new(), None);
    c.proxy = Some(ProxyConfig::Http {
        http: UrlOrConfig::Url("http://[broken".to_string()),
    });
    assert_eq!(
        prepare(c, false),
        Err(Error::UrlNotAllowed("https://example.com/x".to_string()))
    );
}

#[test]
fn proxies_are_part_of_the_request() {
    let mut c = config("GET", Vec::new(), None);
    c.proxy = Some(ProxyConfig::All {
        all: detailed("http://p.local"),
    });
    let request = request_of(c);
    assert_eq!(
        request.proxies,
        vec![detailed_rule(ProxyTarget::All, "http://p.local")]
    );
}

#[test]
fn attach_config_sets_only_what_is_given() {
    let rule = detailed_rule(ProxyTarget::All, "http://p.local");
    assert_eq!(attach_config(None, None, rule.clone()), rule);
    let auth = BasicAuth {
        username: "x".to_string(),
        password: "y".to_string(),
    };
    let out = attach_config(Some(auth.clone()), None, rule.clone());
    assert_eq!(out.basic_auth, Some(auth));
    assert_eq!(out.no_proxy, rule.no_proxy);
    let out = attach_config(None, Some("a.b".to_string()), rule.clone());
    assert_eq!(out.basic_auth, rule.basic_auth);
    assert_eq!(out.no_proxy, Some("a.b".to_string()));
    assert_eq!(out.url, rule.url);
    assert_eq!(out.target, rule.target);
}

#[test]
fn long_header_names_are_put_in_small_letters_too() {
    let long = "X-Very-Long-Header-Name-".repeat(4);
    assert!(long.len() > 64);
    let headers = vec![(long.clone(), "v".to_string())];
    assert_eq!(
        build_headers("GET", true, &headers),
        Ok(vec![
            (long.to_ascii_lowercase(), "v".to_string()),
            pair("user-agent", "tauri")
        ])
    );
    let bad = format!("{} ", long);
    let headers = vec![(bad, "v".to_string())];
    assert_eq!(
        build_headers("GET", true, &headers),
        Err(MalformedInput::HeaderName)
    );
}

#[test]
fn standard_header_names_are_put_in_small_letters() {
    let headers = vec![
        pair("Content-Type", "text/plain"),
        pair("ACCEPT", "*/*"),
        pair("x-Custom_1", "1"),
    ];
    assert_eq!(
        build_headers("GET", true, &headers),
        Ok(vec![
            pair("content-type", "text/plain"),
            pair("accept", "*/*"),
            pair("x-custom_1", "1"),
            pair("user-agent", "tauri"),
        ])
    );
}
