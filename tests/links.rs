use cushion_notify::click::{ClickAction, NotificationClick};
use cushion_notify::links::{
    is_allowed_link, is_valid_notification_url, route_checked_click, route_click, route_deep_link,
    route_parsed_deep_link, ClickRoute, DeepLinkRoute, UrlParts,
};

fn click(action: ClickAction, url: Option<&str>) -> NotificationClick {
    NotificationClick { id: "n".to_string(), url: url.map(|u| u.to_string()), action }
}

#[test]
fn allow_list_accepts_app_links_and_rejects_others() {
    assert!(is_valid_notification_url("cushion://x"));
    assert!(is_valid_notification_url("cushion-dev://x"));
    assert!(is_valid_notification_url("https://app.cushion.so/y"));
    assert!(is_valid_notification_url("https://docs.cushion.so/y"));
    assert!(is_valid_notification_url("https://cushion.so/y"));
    assert!(!is_valid_notification_url("https://evilcushion.so/y"));
    assert!(!is_valid_notification_url("https://evil.com/y"));
    assert!(!is_valid_notification_url("https://cushion.so.evil.com/y"));
    assert!(!is_valid_notification_url("http://app.cushion.so/y"));
    assert!(!is_valid_notification_url("javascript:alert(1)"));
    assert!(!is_valid_notification_url("not a url"));
    assert!(!is_valid_notification_url(""));
}

#[test]
fn allow_list_on_parsed_parts() {
    let p = |s: &str, h: Option<&str>| UrlParts {
        scheme: s.to_string(),
        host: h.map(|x| x.to_string()),
        path: "/".to_string(),
        query: Vec::new(),
    };
    assert!(is_allowed_link(&p("cushion", None)));
    assert!(is_allowed_link(&p("https", Some("app.cushion.so"))));
    assert!(is_allowed_link(&p("https", Some("x.cushion.so"))));
    assert!(is_allowed_link(&p("https", Some("cushion.so"))));
    assert!(!is_allowed_link(&p("https", Some("notcushion.so"))));
    assert!(!is_allowed_link(&p("https", None)));
    assert!(!is_allowed_link(&p("javascript", None)));
}

#[test]
fn default_policy_emits_only_allowed_urls() {
    match route_click(click(ClickAction::Body, Some("cushion://x"))) {
        ClickRoute::NavigateAndFocus(u) => assert_eq!(u, "cushion://x"),
        _ => panic!("app link not emitted"),
    }
    match route_click(click(ClickAction::Button("reply".to_string()), Some("https://app.cushion.so/y"))) {
        ClickRoute::NavigateAndFocus(u) => assert_eq!(u, "https://app.cushion.so/y"),
        _ => panic!("app domain not emitted"),
    }
    match route_click(click(ClickAction::Body, Some("https://evil.com/y"))) {
        ClickRoute::RejectAndFocus(u) => assert_eq!(u, "https://evil.com/y"),
        _ => panic!("foreign domain not rejected"),
    }
    match route_click(click(ClickAction::Body, Some("javascript:alert(1)"))) {
        ClickRoute::RejectAndFocus(u) => assert_eq!(u, "javascript:alert(1)"),
        _ => panic!("script URL not rejected"),
    }
    assert!(matches!(route_click(click(ClickAction::Body, None)), ClickRoute::Focus));
}

#[test]
fn dismiss_never_navigates() {
    assert!(matches!(route_click(click(ClickAction::Dismiss, Some("cushion://x"))), ClickRoute::Dismissed));
    assert!(matches!(route_click(click(ClickAction::Dismiss, None)), ClickRoute::Dismissed));
    assert!(matches!(
        route_checked_click(click(ClickAction::Dismiss, Some("cushion://x")), true),
        ClickRoute::Dismissed
    ));
}

#[test]
fn checked_click_follows_the_given_verdict() {
    assert!(matches!(
        route_checked_click(click(ClickAction::Body, Some("anything")), true),
        ClickRoute::NavigateAndFocus(_)
    ));
    assert!(matches!(
        route_checked_click(click(ClickAction::Body, Some("cushion://x")), false),
        ClickRoute::RejectAndFocus(_)
    ));
}

#[test]
fn deep_link_payloads() {
    match route_deep_link("[\"cushion://open/1\", \"cushion://other\"]") {
        DeepLinkRoute::Open(u) => assert_eq!(u, "cushion://open/1"),
        _ => panic!("app link not opened"),
    }
    match route_deep_link("[\"cushion-dev://open\"]") {
        DeepLinkRoute::Open(u) => assert_eq!(u, "cushion-dev://open"),
        _ => panic!("dev link not opened"),
    }
    match route_deep_link("[\"https://app.cushion.so\"]") {
        DeepLinkRoute::RejectedScheme(s) => assert_eq!(s, "https"),
        _ => panic!("https deep link not rejected"),
    }
    match route_deep_link("[\"no scheme here\"]") {
        DeepLinkRoute::Unparsable(u) => assert_eq!(u, "no scheme here"),
        _ => panic!("unparsable link not reported"),
    }
    assert!(matches!(route_deep_link("[]"), DeepLinkRoute::Ignore));
    assert!(matches!(route_deep_link("cushion://bare"), DeepLinkRoute::Ignore));
    assert!(matches!(route_deep_link("[1, 2]"), DeepLinkRoute::Ignore));
}

#[test]
fn parsed_deep_link_routes() {
    let parts = UrlParts { scheme: "mailto".to_string(), host: None, path: "a@b".to_string(), query: Vec::new() };
    match route_parsed_deep_link("mailto:a@b".to_string(), Some(parts)) {
        DeepLinkRoute::RejectedScheme(s) => assert_eq!(s, "mailto"),
        _ => panic!("foreign scheme not rejected"),
    }
    assert!(matches!(route_parsed_deep_link("x".to_string(), None), DeepLinkRoute::Unparsable(_)));
}
