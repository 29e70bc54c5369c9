use lumina_video::address::UrlParts;
use lumina_video::video::VideoError;
use lumina_video::web_moq_url::WebMoqUrl;

#[test]
fn test_moq_url_parse_with_auth_path() {
    let url = WebMoqUrl::parse("moq://localhost:4443/anon/bbb").unwrap();
    assert_eq!(url.host, "localhost");
    assert_eq!(url.port, 4443);
    assert!(!url.use_tls);
    assert_eq!(url.auth_path, Some("anon".to_string()));
    assert_eq!(url.namespace, "bbb");
    assert_eq!(url.webtransport_url(), "http://localhost:4443/anon");
}

#[test]
fn test_moq_url_parse_no_auth_path() {
    let url = WebMoqUrl::parse("moqs://relay.example.com/live").unwrap();
    assert_eq!(url.host, "relay.example.com");
    assert_eq!(url.port, 443);
    assert!(url.use_tls);
    assert_eq!(url.auth_path, None);
    assert_eq!(url.namespace, "live");
    assert_eq!(url.webtransport_url(), "https://relay.example.com:443");
}

#[test]
fn test_is_moq_url() {
    assert!(WebMoqUrl::is_moq_url("moq://localhost/test"));
    assert!(WebMoqUrl::is_moq_url("moqs://relay.example.com/live"));
    assert!(!WebMoqUrl::is_moq_url("https://example.com/video.mp4"));
}

#[test]
fn ipv6_authorities_preserve_brackets_and_explicit_ports() {
    let url = WebMoqUrl::parse("moqs://[::1]:8443/anon/video?jwt=test").unwrap();
    assert_eq!(url.webtransport_url(), "https://[::1]:8443/anon?jwt=test");
    assert_eq!(url.namespace(), "video");
    assert!(WebMoqUrl::parse("moqs://[bad]/video").is_err());
    assert!(WebMoqUrl::parse("moqs://host:99999/video").is_err());
}

fn refusal(url: &str) -> String {
    match WebMoqUrl::parse(url) {
        Ok(_) => panic!("{} was not refused", url),
        Err(VideoError::OpenFailed(message)) => message,
        Err(other) => panic!("{:?}", other),
    }
}

#[test]
fn refusals_say_what_is_wrong() {
    assert_eq!(refusal("https://host/live"), "URL must start with moq:// or moqs://");
    assert_eq!(refusal("moq://me@host/live"), "MoQ URLs do not support userinfo or fragments");
    assert_eq!(refusal("moq://host/live#part"), "MoQ URLs do not support userinfo or fragments");
    assert_eq!(refusal("moq:///live"), "Missing host");
    assert_eq!(refusal("moq://host//"), "Missing namespace");
    assert!(refusal("no url").starts_with("Invalid MoQ URL: "));
}

#[test]
fn the_last_segment_is_the_name() {
    let url = WebMoqUrl::parse("moqs://host/a/b/c/").unwrap();
    assert_eq!(url.auth_path.as_deref(), Some("a/b"));
    assert_eq!(url.namespace(), "c");
    assert_eq!(url.original, "moqs://host/a/b/c/");
}

#[test]
fn parts_are_enough_to_read_an_address() {
    let parts = UrlParts {
        scheme: "moqs".into(),
        username: String::new(),
        password: None,
        host: Some("relay".into()),
        port: Some(99),
        path: "/x".into(),
        query: Some("k=v".into()),
        fragment: None,
    };
    let url = WebMoqUrl::from_parts("as typed", parts).unwrap();
    assert_eq!(url.webtransport_url(), "https://relay:99?k=v");
    assert_eq!(url.original, "as typed");
}
