use lumina_video::address::HttpUri;
use lumina_video::network::{
    choose_redirect, declared_length, is_redirection, is_success, resolve_redirect, HttpDownload,
    HyperHttpError, LocationHeader, ResponseAction, StatusPolicy, MAX_REDIRECTS,
};

fn download(url: &str, policy: StatusPolicy, limit: usize) -> HttpDownload {
    HttpDownload::start(url, policy, limit).unwrap()
}

#[test]
fn a_download_begins_with_a_target() {
    let begun = download("https://example.com:8080/a.mp4?x=1", StatusPolicy::AnyStatus, 10);
    assert_eq!(begun.target.text, "https://example.com:8080/a.mp4?x=1");
    assert!(begun.target.has_scheme);
    assert_eq!(begun.host(), Ok("example.com:8080".to_string()));
    assert_eq!(
        HttpDownload::start("http://exa mple", StatusPolicy::AnyStatus, 10),
        Err(HyperHttpError::Uri)
    );
    assert_eq!(
        download("/only/a/path", StatusPolicy::AnyStatus, 10).host(),
        Err(HyperHttpError::Host)
    );
}

#[test]
fn redirects_are_followed_five_times() {
    let mut begun = download("http://a/0", StatusPolicy::SuccessOnly, 10);
    for step in 1..=MAX_REDIRECTS {
        let place = format!("/{}", step);
        assert_eq!(
            begun.react(302, LocationHeader::Text(place.clone())),
            Ok(ResponseAction::FollowRedirect(place.clone()))
        );
        assert_eq!(begun.follow(&place), Ok(()));
        assert_eq!(begun.target.text, format!("http://a/{}", step));
    }
    assert_eq!(
        begun.react(302, LocationHeader::Text("/6".into())),
        Err(HyperHttpError::TooManyRedirects)
    );
}

#[test]
fn redirects_need_a_readable_place() {
    let begun = download("http://a/0", StatusPolicy::AnyStatus, 10);
    assert_eq!(
        begun.react(301, LocationHeader::Missing),
        Err(HyperHttpError::MissingRedirectLocation)
    );
    assert_eq!(
        begun.react(301, LocationHeader::NotText),
        Err(HyperHttpError::InvalidRedirectLocation)
    );
}

#[test]
fn statuses_are_judged_by_policy() {
    let any = download("http://a/0", StatusPolicy::AnyStatus, 10);
    let good = download("http://a/0", StatusPolicy::SuccessOnly, 10);
    assert_eq!(any.react(404, LocationHeader::Missing), Ok(ResponseAction::ReadBody));
    assert_eq!(good.react(404, LocationHeader::Missing), Err(HyperHttpError::HttpStatus(404)));
    assert_eq!(good.react(206, LocationHeader::Missing), Ok(ResponseAction::ReadBody));
    assert!(is_redirection(399) && !is_redirection(400));
    assert!(is_success(299) && !is_success(300));
}

#[test]
fn places_are_resolved_against_the_target() {
    let base = download("https://host/dir/file", StatusPolicy::AnyStatus, 1).target;
    assert_eq!(resolve_redirect(&base, "other").unwrap().text, "https://host/dir/other");
    assert_eq!(resolve_redirect(&base, "/root?q").unwrap().text, "https://host/root?q");
    assert_eq!(resolve_redirect(&base, "http://b/c").unwrap().text, "http://b/c");
    assert_eq!(
        resolve_redirect(&base, "http://[bad"),
        Err(HyperHttpError::InvalidRedirectLocation)
    );
    let relative = download("/only/a/path", StatusPolicy::AnyStatus, 1).target;
    assert_eq!(resolve_redirect(&relative, "other"), Err(HyperHttpError::Uri));
}

#[test]
fn a_place_with_a_scheme_wins() {
    let uri = |text: &str, has_scheme: bool| HttpUri {
        text: text.into(),
        has_scheme,
        authority: None,
    };
    assert_eq!(
        choose_redirect(Some(uri("x:", true)), false, None).unwrap().text,
        "x:"
    );
    assert_eq!(
        choose_redirect(Some(uri("/x", false)), true, Some(uri("y", true))).unwrap().text,
        "y"
    );
    assert_eq!(
        choose_redirect(Some(uri("/x", false)), false, Some(uri("y", true))),
        Err(HyperHttpError::Uri)
    );
}

#[test]
fn bodies_are_taken_whole_or_refused() {
    let mut begun = download("http://a/0", StatusPolicy::AnyStatus, 5);
    assert_eq!(begun.check_length(Some(6)), Err(HyperHttpError::BodyTooLarge));
    assert_eq!(begun.check_length(Some(5)), Ok(()));
    assert_eq!(begun.check_length(None), Ok(()));
    assert_eq!(begun.push_chunk(&[1, 2, 3]), Ok(()));
    assert_eq!(begun.push_chunk(&[4, 5, 6]), Err(HyperHttpError::BodyTooLarge));
    assert_eq!(begun.push_chunk(&[4, 5]), Ok(()));
    let response = begun.finish(Some("video/mp4".into()));
    assert_eq!(response.bytes, vec![1, 2, 3, 4, 5]);
    assert_eq!(response.content_type.as_deref(), Some("video/mp4"));
}

#[test]
fn lengths_are_read_as_numbers() {
    assert_eq!(declared_length(&Some("1234".into())), Some(1234));
    assert_eq!(declared_length(&Some("+7".into())), Some(7));
    assert_eq!(declared_length(&Some("12a".into())), None);
    assert_eq!(declared_length(&Some("".into())), None);
    assert_eq!(declared_length(&Some("18446744073709551615".into())), Some(u64::MAX));
    assert_eq!(declared_length(&Some("18446744073709551616".into())), None);
    assert_eq!(declared_length(&None), None);
}

#[test]
fn failures_have_messages() {
    let cases: Vec<(HyperHttpError, &str)> = vec![
        (HyperHttpError::Hyper("reset".into()), "Hyper error: reset"),
        (HyperHttpError::Host, "Missing host in URL"),
        (HyperHttpError::Uri, "Invalid URI"),
        (HyperHttpError::BodyTooLarge, "Body too large"),
        (HyperHttpError::TooManyRedirects, "Too many redirect responses"),
        (
            HyperHttpError::MissingRedirectLocation,
            "Redirect response missing Location header",
        ),
        (HyperHttpError::InvalidRedirectLocation, "Invalid redirect Location header"),
        (
            HyperHttpError::TlsConfig,
            "TLS configuration error (missing root certificates)",
        ),
        (HyperHttpError::HttpStatus(503), "HTTP error status: 503"),
    ];
    for (error, text) in cases {
        assert_eq!(error.text(), text);
    }
}
