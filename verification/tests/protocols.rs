use minibrowser::{
    query_text, url_info_response, url_info_text, MotoProtocolHandler, MotoResponse,
    UrlInfoProtocolHandler, UrlParts,
};

#[test]
fn the_known_shortcuts_are_served_from_the_new_tab_page() {
    let handler = MotoProtocolHandler::default();
    assert_eq!(handler.load("newtab"), MotoResponse::Resource("/newtab.html".into()));
    assert_eq!(handler.load("config"), MotoResponse::Resource("/newtab.html".into()));
}

#[test]
fn any_other_shortcut_is_invalid() {
    let handler = MotoProtocolHandler::default();
    for path in ["", "newtab/", "Newtab", "about", "/newtab.html", "config2"] {
        assert_eq!(handler.load(path), MotoResponse::NetworkError("Invalid shortcut".into()));
    }
}

#[test]
fn the_description_has_four_lines() {
    assert_eq!(
        url_info_text("urlinfo:a/b?c=d", "urlinfo", "a/b", "Some(\"c=d\")"),
        "Full url: urlinfo:a/b?c=d\n  scheme: urlinfo\n    path: a/b\n   query: Some(\"c=d\")"
    );
    assert_eq!(url_info_text("", "", "", ""), "Full url: \n  scheme: \n    path: \n   query: ");
}

#[test]
fn a_query_is_shown_as_an_option() {
    assert_eq!(query_text(None), "None");
    assert_eq!(query_text(Some("\"c=d\"")), "Some(\"c=d\")");
    assert_eq!(query_text(Some("")), "Some()");
}

#[test]
fn an_address_is_answered_with_its_description() {
    let url = UrlParts {
        url: "urlinfo:some/path?q=1".into(),
        scheme: "urlinfo".into(),
        path: "some/path".into(),
        query: Some("q=1".into()),
    };
    let response = UrlInfoProtocolHandler::default().load(&url);
    assert_eq!(response.url, "urlinfo:some/path?q=1");
    assert_eq!(
        String::from_utf8(response.body).unwrap(),
        "Full url: urlinfo:some/path?q=1\n  scheme: urlinfo\n    path: some/path\n   query: Some(\"q=1\")"
    );
    assert_eq!(response.status, Some((200, "OK".to_string())));
    assert_eq!(response.raw_status, Some((200, b"OK".to_vec())));
    assert_eq!(response.headers.len(), 1);
    assert_eq!(response.headers.get(http::header::CONTENT_TYPE).unwrap(), "text/plain");
    assert_eq!(response.headers.get_all("content-type").iter().count(), 1);
}

#[test]
fn an_address_without_a_query_says_so() {
    let url = UrlParts {
        url: "urlinfo:x".into(),
        scheme: "urlinfo".into(),
        path: "x".into(),
        query: None,
    };
    let response = UrlInfoProtocolHandler::default().load(&url);
    assert_eq!(
        String::from_utf8(response.body).unwrap(),
        "Full url: urlinfo:x\n  scheme: urlinfo\n    path: x\n   query: None"
    );
}

#[test]
fn a_query_is_quoted_and_escaped() {
    let url = UrlParts {
        url: "urlinfo:x?a=\"b\"\\".into(),
        scheme: "urlinfo".into(),
        path: "x".into(),
        query: Some("a=\"b\"\\".into()),
    };
    let response = UrlInfoProtocolHandler::default().load(&url);
    assert_eq!(
        String::from_utf8(response.body).unwrap(),
        "Full url: urlinfo:x?a=\"b\"\\\n  scheme: urlinfo\n    path: x\n   query: Some(\"a=\\\"b\\\"\\\\\")"
    );
}

#[test]
fn the_body_is_the_content_in_utf8() {
    let response = url_info_response("urlinfo:\u{e9}", "caf\u{e9}");
    assert_eq!(response.url, "urlinfo:\u{e9}");
    assert_eq!(response.body, vec![b'c', b'a', b'f', 0xc3, 0xa9]);
    assert_eq!(response.status, Some((200, "OK".to_string())));
    assert_eq!(response.headers.get("content-type").unwrap().as_bytes(), b"text/plain");
}
