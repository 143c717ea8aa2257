use minibrowser::{
    browser_tab, tab_event, tab_label, Bookmark, Content, EmbedderEvent, Interaction, LoadButton, LoadStatus,
    Minibrowser, MinibrowserEvent, MouseButton, Point, Rect, Reply, StoreRequest, TabResponse,
    TraversalDirection, WebView, WebViewManager, WindowEvent,
};

fn rect(min_x: i64, min_y: i64, max_x: i64, max_y: i64) -> Rect {
    Rect { min_x, min_y, max_x, max_y }
}

fn tab(id: u64, title: Option<&str>, url: Option<&str>, focused: bool) -> WebView {
    WebView {
        id,
        title: title.map(String::from),
        url: url.map(String::from),
        focused,
        rect: rect(0, 0, 0, 0),
    }
}

fn engine(tabs: Vec<WebView>, focused: Option<u64>) -> WebViewManager {
    let current = focused
        .and_then(|id| tabs.iter().find(|t| t.id == id))
        .and_then(|t| t.url.clone());
    WebViewManager {
        webviews: tabs,
        focused_webview_id: focused,
        current_url_string: current,
        load_status: LoadStatus::LoadComplete,
        status_text: None,
    }
}

fn one_tab(url: &str, title: &str) -> WebViewManager {
    engine(vec![tab(7, Some(title), Some(url), true)], Some(7))
}

fn chrome(url: &str) -> Minibrowser {
    Minibrowser::new(url.to_string(), Vec::new())
}

const NO_CLICK: TabResponse = TabResponse {
    clicked: false,
    middle_clicked: false,
    close_clicked: false,
    close_middle_clicked: false,
};

#[test]
fn a_new_window_shows_the_initial_address() {
    let bookmarks = vec![Bookmark { url: "https://a.test".into(), title: "A".into() }];
    let chrome = Minibrowser::new("https://start.test/".to_string(), bookmarks.clone());
    assert_eq!(chrome.location(), "https://start.test/");
    assert!(!chrome.location_dirty());
    assert_eq!(chrome.load_status(), LoadStatus::LoadComplete);
    assert_eq!(chrome.status_text(), &None);
    assert!(!chrome.show_about_window());
    assert!(!chrome.show_preferences_page());
    assert_eq!(chrome.toolbar_height(), 0);
    assert_eq!(chrome.last_mouse_position(), None);
    assert_eq!(chrome.bookmarks(), &bookmarks);
    assert!(chrome.event_queue().is_empty());
}

#[test]
fn typing_and_confirming_navigates_once() {
    let browser = one_tab("https://old.test/", "Old");
    let mut chrome = chrome("https://old.test/");
    let reply =
        chrome.handle_interaction(&browser, &Interaction::EditLocation("example.com".into()));
    assert_eq!(reply, Reply::Nothing);
    assert!(chrome.location_dirty());
    assert_eq!(chrome.location(), "example.com");
    assert!(chrome.event_queue().is_empty());

    let reply = chrome.handle_interaction(&browser, &Interaction::SubmitLocation);
    assert_eq!(reply, Reply::Nothing);
    assert!(!chrome.location_dirty());
    assert_eq!(chrome.location(), "example.com");
    assert_eq!(chrome.event_queue(), &vec![MinibrowserEvent::Go]);

    let mut commands = Vec::new();
    let parsed = Some("https://example.com/".to_string());
    let completed =
        chrome.queue_embedder_events_for_minibrowser_events(&browser, &parsed, &mut commands);
    assert!(completed);
    assert_eq!(commands, vec![EmbedderEvent::LoadUrl(7, "https://example.com/".into())]);
    assert!(chrome.event_queue().is_empty());
}

#[test]
fn the_last_of_several_edits_is_what_is_confirmed() {
    let browser = one_tab("https://old.test/", "Old");
    let mut chrome = chrome("https://old.test/");
    for text in ["e", "ex", "exa", "example.org"] {
        chrome.handle_interaction(&browser, &Interaction::EditLocation(text.into()));
        assert!(chrome.location_dirty());
    }
    chrome.handle_interaction(&browser, &Interaction::SubmitLocation);
    assert_eq!(chrome.location(), "example.org");
    assert!(!chrome.location_dirty());
    assert_eq!(chrome.event_queue(), &vec![MinibrowserEvent::Go]);
}

#[test]
fn a_pending_edit_is_not_overwritten_by_the_engine() {
    let mut browser = one_tab("https://old.test/", "Old");
    let mut chrome = chrome("https://old.test/");
    chrome.handle_interaction(&browser, &Interaction::EditLocation("half-typed".into()));
    browser.current_url_string = Some("https://redirected.test/".into());
    assert!(!chrome.update_location_in_toolbar(&browser));
    assert!(!chrome.update_webview_data(&browser));
    assert_eq!(chrome.location(), "half-typed");
    assert!(chrome.location_dirty());

    chrome.handle_interaction(&browser, &Interaction::SubmitLocation);
    assert!(chrome.update_location_in_toolbar(&browser));
    assert_eq!(chrome.location(), "https://redirected.test/");
}

#[test]
fn choosing_a_bookmark_ends_a_pending_edit() {
    let browser = one_tab("https://old.test/", "Old");
    let bookmarks = vec![
        Bookmark { url: "https://a.test".into(), title: "A".into() },
        Bookmark { url: "https://b.test".into(), title: "B".into() },
    ];
    let mut chrome = Minibrowser::new("https://old.test/".to_string(), bookmarks);
    chrome.handle_interaction(&browser, &Interaction::EditLocation("half".into()));
    let reply = chrome.handle_interaction(&browser, &Interaction::SelectBookmark(1));
    assert_eq!(reply, Reply::Nothing);
    assert_eq!(chrome.location(), "https://b.test");
    assert!(!chrome.location_dirty());
    assert_eq!(chrome.event_queue(), &vec![MinibrowserEvent::Go]);
}

#[test]
fn a_bookmark_that_is_not_there_changes_nothing() {
    let browser = one_tab("https://old.test/", "Old");
    let mut chrome = chrome("https://old.test/");
    chrome.handle_interaction(&browser, &Interaction::EditLocation("half".into()));
    chrome.handle_interaction(&browser, &Interaction::SelectBookmark(0));
    assert_eq!(chrome.location(), "half");
    assert!(chrome.location_dirty());
    assert!(chrome.event_queue().is_empty());
}

#[test]
fn choosing_a_history_entry_loads_it() {
    let browser = one_tab("https://old.test/", "Old");
    let mut chrome = chrome("https://old.test/");
    chrome.handle_interaction(&browser, &Interaction::SelectHistory("https://seen.test/".into()));
    assert_eq!(chrome.location(), "https://seen.test/");
    assert!(!chrome.location_dirty());
    assert_eq!(chrome.event_queue(), &vec![MinibrowserEvent::Go]);
}

#[test]
fn opening_a_file_loads_its_file_address() {
    let browser = one_tab("https://old.test/", "Old");
    let mut chrome = chrome("https://old.test/");
    chrome.handle_interaction(&browser, &Interaction::OpenFile("home/me/page.html".into()));
    assert_eq!(chrome.location(), "file:///home/me/page.html");
    assert!(!chrome.location_dirty());
    assert_eq!(chrome.event_queue(), &vec![MinibrowserEvent::Go]);
}

#[test]
fn the_about_dialog_opens_and_closes() {
    let browser = one_tab("https://old.test/", "Old");
    let mut chrome = chrome("https://old.test/");
    chrome.handle_interaction(&browser, &Interaction::ShowAbout);
    assert!(chrome.show_about_window());
    chrome.handle_interaction(&browser, &Interaction::CloseAbout);
    assert!(!chrome.show_about_window());
    chrome.set_show_about_window(true);
    assert!(chrome.show_about_window());
}

#[test]
fn the_arrows_and_the_new_tab_button_queue_one_intent_each() {
    let browser = one_tab("https://old.test/", "Old");
    let mut chrome = chrome("https://old.test/");
    chrome.handle_interaction(&browser, &Interaction::Back);
    chrome.handle_interaction(&browser, &Interaction::Forward);
    chrome.handle_interaction(&browser, &Interaction::NewTab);
    chrome.handle_interaction(&browser, &Interaction::StopOrReload);
    assert_eq!(
        chrome.event_queue(),
        &vec![
            MinibrowserEvent::Back,
            MinibrowserEvent::Forward,
            MinibrowserEvent::NewWebView,
            MinibrowserEvent::Reload,
        ]
    );
}

#[test]
fn the_load_button_follows_the_loading_phase() {
    let mut browser = one_tab("https://old.test/", "Old");
    let mut chrome = chrome("https://old.test/");

    browser.load_status = LoadStatus::LoadStart;
    assert!(chrome.update_webview_data(&browser));
    assert_eq!(chrome.load_status(), LoadStatus::LoadStart);
    assert_eq!(chrome.load_button(), LoadButton::Stop);
    chrome.handle_interaction(&browser, &Interaction::StopOrReload);
    assert!(chrome.event_queue().is_empty());

    browser.load_status = LoadStatus::HeadParsed;
    assert!(chrome.update_spinner_in_toolbar(&browser));
    assert_eq!(chrome.load_button(), LoadButton::Stop);

    browser.load_status = LoadStatus::LoadComplete;
    assert!(chrome.update_webview_data(&browser));
    assert_eq!(chrome.load_status(), LoadStatus::LoadComplete);
    assert_eq!(chrome.load_button(), LoadButton::Reload);
    chrome.handle_interaction(&browser, &Interaction::StopOrReload);
    assert_eq!(chrome.event_queue(), &vec![MinibrowserEvent::Reload]);
}

#[test]
fn pulling_the_same_engine_state_twice_changes_nothing() {
    let mut browser = one_tab("https://new.test/", "New");
    browser.load_status = LoadStatus::HeadParsed;
    browser.status_text = Some("https://hovered.test/".into());
    let mut chrome = chrome("https://old.test/");

    assert!(chrome.update_webview_data(&browser));
    assert_eq!(chrome.location(), "https://new.test/");
    assert_eq!(chrome.load_status(), LoadStatus::HeadParsed);
    assert_eq!(chrome.status_text(), &Some("https://hovered.test/".to_string()));

    assert!(!chrome.update_webview_data(&browser));
    assert_eq!(chrome.location(), "https://new.test/");
    assert_eq!(chrome.load_status(), LoadStatus::HeadParsed);
    assert_eq!(chrome.status_text(), &Some("https://hovered.test/".to_string()));
}

#[test]
fn each_pull_reports_its_own_change() {
    let mut browser = one_tab("https://old.test/", "Old");
    let mut chrome = chrome("https://old.test/");
    assert!(!chrome.update_location_in_toolbar(&browser));
    assert!(!chrome.update_spinner_in_toolbar(&browser));
    assert!(!chrome.update_status_text(&browser));

    browser.status_text = Some("link".into());
    assert!(chrome.update_status_text(&browser));
    assert!(!chrome.update_status_text(&browser));
    browser.status_text = None;
    assert!(chrome.update_status_text(&browser));
    assert_eq!(chrome.status_text(), &None);

    browser.current_url_string = None;
    assert!(!chrome.update_location_in_toolbar(&browser));
    assert_eq!(chrome.location(), "https://old.test/");
}

#[test]
fn the_star_toggles_the_bookmark_of_the_focused_page() {
    let browser = one_tab("https://a.test", "A");
    let mut chrome = chrome("https://a.test");
    assert!(!chrome.starred(&browser));

    let first = chrome.handle_interaction(&browser, &Interaction::ToggleBookmark);
    let add = StoreRequest::Add { url: "https://a.test".into(), title: "A".into() };
    assert_eq!(first, Reply::Store(add.clone()));
    assert!(chrome.bookmarks().is_empty());
    chrome.complete_store_request(add, true);
    assert_eq!(
        chrome.bookmarks(),
        &vec![Bookmark { url: "https://a.test".into(), title: "A".into() }]
    );
    assert!(chrome.starred(&browser));
    assert!(chrome.has_bookmark("https://a.test"));

    let second = chrome.handle_interaction(&browser, &Interaction::ToggleBookmark);
    let remove = StoreRequest::Remove { url: "https://a.test".into() };
    assert_eq!(second, Reply::Store(remove.clone()));
    chrome.complete_store_request(remove, true);
    assert!(chrome.bookmarks().is_empty());
    assert!(!chrome.starred(&browser));
    assert!(!chrome.has_bookmark("https://a.test"));
}

#[test]
fn a_failed_store_request_leaves_the_bookmarks_alone() {
    let kept = vec![Bookmark { url: "https://a.test".into(), title: "A".into() }];
    let mut chrome = Minibrowser::new("https://b.test".to_string(), kept.clone());
    chrome.complete_store_request(
        StoreRequest::Add { url: "https://b.test".into(), title: "B".into() },
        false,
    );
    assert_eq!(chrome.bookmarks(), &kept);
    chrome.complete_store_request(StoreRequest::Remove { url: "https://a.test".into() }, false);
    assert_eq!(chrome.bookmarks(), &kept);
}

#[test]
fn the_star_asks_nothing_without_a_focused_page() {
    let mut chrome = chrome("https://a.test");
    let nothing_focused = engine(vec![tab(1, None, Some("https://a.test"), false)], None);
    assert_eq!(
        chrome.handle_interaction(&nothing_focused, &Interaction::ToggleBookmark),
        Reply::Nothing
    );
    let focus_is_gone = engine(vec![tab(1, None, Some("https://a.test"), false)], Some(2));
    assert_eq!(
        chrome.handle_interaction(&focus_is_gone, &Interaction::ToggleBookmark),
        Reply::Nothing
    );
    let no_address = engine(vec![tab(1, Some("T"), None, true)], Some(1));
    assert_eq!(
        chrome.handle_interaction(&no_address, &Interaction::ToggleBookmark),
        Reply::Nothing
    );
}

#[test]
fn a_page_without_a_title_is_bookmarked_with_an_empty_one() {
    let browser = engine(vec![tab(1, None, Some("https://a.test"), true)], Some(1));
    let mut chrome = chrome("https://a.test");
    assert_eq!(
        chrome.handle_interaction(&browser, &Interaction::ToggleBookmark),
        Reply::Store(StoreRequest::Add { url: "https://a.test".into(), title: String::new() })
    );
}

#[test]
fn the_shortcut_selects_the_whole_address() {
    let browser = one_tab("https://old.test/", "Old");
    let mut chrome = chrome("caf\u{e9}.test");
    assert_eq!(
        chrome.handle_interaction(&browser, &Interaction::FocusLocation),
        Reply::SelectLocation { start: 0, end: 9 }
    );
    assert!(!chrome.location_dirty());
}

#[test]
fn a_click_on_a_tab_focuses_or_closes_it() {
    let click = TabResponse { clicked: true, ..NO_CLICK };
    let middle = TabResponse { middle_clicked: true, ..NO_CLICK };
    let close = TabResponse { close_clicked: true, ..NO_CLICK };
    let close_middle = TabResponse { close_middle_clicked: true, ..NO_CLICK };
    let both = TabResponse { clicked: true, close_clicked: true, ..NO_CLICK };

    assert_eq!(browser_tab("T", false, 3, click).1, Some(MinibrowserEvent::FocusWebView(3)));
    assert_eq!(browser_tab("T", true, 3, click).1, None);
    assert_eq!(browser_tab("T", false, 3, NO_CLICK).1, None);
    assert_eq!(browser_tab("T", true, 3, middle).1, Some(MinibrowserEvent::CloseWebView(3)));
    assert_eq!(browser_tab("T", false, 3, close).1, Some(MinibrowserEvent::CloseWebView(3)));
    assert_eq!(browser_tab("T", true, 3, close_middle).1, Some(MinibrowserEvent::CloseWebView(3)));
    assert_eq!(browser_tab("T", false, 3, both).1, Some(MinibrowserEvent::CloseWebView(3)));
    assert_eq!(
        browser_tab("A title that is far too long for a tab", false, 3, NO_CLICK).0,
        "A title that is far\u{2026}"
    );
}

#[test]
fn a_click_on_a_tab_ends_a_pending_edit() {
    let browser = one_tab("https://old.test/", "Old");
    let mut chrome = chrome("https://old.test/");
    chrome.handle_interaction(&browser, &Interaction::EditLocation("half".into()));
    let selected_again = Interaction::Tab {
        webview_id: 7,
        selected: true,
        response: TabResponse { clicked: true, ..NO_CLICK },
    };
    chrome.handle_interaction(&browser, &selected_again);
    assert!(chrome.location_dirty());
    assert!(chrome.event_queue().is_empty());

    let other = Interaction::Tab {
        webview_id: 8,
        selected: false,
        response: TabResponse { clicked: true, ..NO_CLICK },
    };
    chrome.handle_interaction(&browser, &other);
    assert!(!chrome.location_dirty());
    assert_eq!(chrome.event_queue(), &vec![MinibrowserEvent::FocusWebView(8)]);
}

#[test]
fn a_tab_is_labelled_by_title_then_address_then_placeholder() {
    assert_eq!(tab_label(&tab(1, Some("Title"), Some("https://a.test"), false)), "Title");
    assert_eq!(tab_label(&tab(1, Some(""), Some("https://a.test"), false)), "https://a.test");
    assert_eq!(tab_label(&tab(1, None, Some("https://a.test"), false)), "https://a.test");
    assert_eq!(tab_label(&tab(1, Some(""), None, false)), "New Tab");
    assert_eq!(tab_label(&tab(1, None, None, false)), "New Tab");
}

#[test]
fn every_intent_becomes_its_command_in_order() {
    let browser = one_tab("https://old.test/", "Old");
    let mut chrome = chrome("https://old.test/");
    for event in [
        MinibrowserEvent::Back,
        MinibrowserEvent::Go,
        MinibrowserEvent::Forward,
        MinibrowserEvent::Reload,
        MinibrowserEvent::NewWebView,
        MinibrowserEvent::CloseWebView(9),
        MinibrowserEvent::FocusWebView(4),
    ] {
        chrome.queue_event(event);
    }
    let mut commands = vec![EmbedderEvent::Reload(1)];
    let parsed = Some("https://old.test/".to_string());
    assert!(chrome.queue_embedder_events_for_minibrowser_events(&browser, &parsed, &mut commands));
    assert_eq!(
        commands,
        vec![
            EmbedderEvent::Reload(1),
            EmbedderEvent::Navigation(7, TraversalDirection::Back(1)),
            EmbedderEvent::LoadUrl(7, "https://old.test/".into()),
            EmbedderEvent::Navigation(7, TraversalDirection::Forward(1)),
            EmbedderEvent::Reload(7),
            EmbedderEvent::NewWebView("moto:newtab".into()),
            EmbedderEvent::CloseWebView(9),
            EmbedderEvent::FocusWebView(4),
        ]
    );
    assert!(chrome.event_queue().is_empty());
}

#[test]
fn an_address_that_does_not_parse_halts_the_pass() {
    let browser = one_tab("https://old.test/", "Old");
    let mut chrome = chrome("https://old.test/");
    chrome.handle_interaction(&browser, &Interaction::EditLocation("::::".into()));
    chrome.queue_event(MinibrowserEvent::Back);
    chrome.handle_interaction(&browser, &Interaction::SubmitLocation);
    chrome.handle_interaction(&browser, &Interaction::EditLocation(":::::".into()));
    chrome.queue_event(MinibrowserEvent::NewWebView);
    chrome.queue_event(MinibrowserEvent::Reload);

    let mut commands = Vec::new();
    let completed =
        chrome.queue_embedder_events_for_minibrowser_events(&browser, &None, &mut commands);
    assert!(!completed);
    assert_eq!(commands, vec![EmbedderEvent::Navigation(7, TraversalDirection::Back(1))]);
    assert!(chrome.event_queue().is_empty());
    assert!(chrome.location_dirty());

    chrome.queue_event(MinibrowserEvent::Reload);
    let mut next = Vec::new();
    assert!(chrome.queue_embedder_events_for_minibrowser_events(&browser, &None, &mut next));
    assert_eq!(next, vec![EmbedderEvent::Reload(7)]);
}

#[test]
fn intents_that_need_a_focused_tab_are_dropped_without_one() {
    let browser = engine(vec![tab(1, None, None, false)], Some(2));
    let mut chrome = chrome("https://old.test/");
    for event in [
        MinibrowserEvent::Go,
        MinibrowserEvent::Back,
        MinibrowserEvent::Forward,
        MinibrowserEvent::Reload,
        MinibrowserEvent::CloseWebView(1),
        MinibrowserEvent::NewWebView,
    ] {
        chrome.queue_event(event);
    }
    let mut commands = Vec::new();
    assert!(chrome.queue_embedder_events_for_minibrowser_events(&browser, &None, &mut commands));
    assert_eq!(
        commands,
        vec![EmbedderEvent::CloseWebView(1), EmbedderEvent::NewWebView("moto:newtab".into())]
    );
}

#[test]
fn a_new_tab_ends_a_pending_edit_when_it_is_dispatched() {
    let browser = one_tab("https://old.test/", "Old");
    let mut chrome = chrome("https://old.test/");
    chrome.handle_interaction(&browser, &Interaction::NewTab);
    chrome.handle_interaction(&browser, &Interaction::EditLocation("half".into()));
    assert!(chrome.location_dirty());
    let mut commands = Vec::new();
    assert!(chrome.queue_embedder_events_for_minibrowser_events(&browser, &None, &mut commands));
    assert!(!chrome.location_dirty());
    assert_eq!(chrome.location(), "half");
}

#[test]
fn the_focused_tab_is_the_one_at_dispatch() {
    let mut chrome = chrome("https://old.test/");
    let at_click = engine(
        vec![tab(1, None, None, true), tab(2, None, None, false)],
        Some(1),
    );
    chrome.handle_interaction(&at_click, &Interaction::Back);
    let at_dispatch = engine(
        vec![tab(1, None, None, false), tab(2, None, None, true)],
        Some(2),
    );
    assert_eq!(at_dispatch.focused_webview_id(), Some(2));
    assert_eq!(at_dispatch.focused_index(), Some(1));
    assert_eq!(at_dispatch.focused_webview().map(|w| w.id), Some(2));
    let mut commands = Vec::new();
    chrome.queue_embedder_events_for_minibrowser_events(&at_dispatch, &None, &mut commands);
    assert_eq!(commands, vec![EmbedderEvent::Navigation(2, TraversalDirection::Back(1))]);
}

#[test]
fn a_changed_viewport_is_told_to_the_engine_once() {
    let mut browser = one_tab("https://old.test/", "Old");
    let mut chrome = chrome("https://old.test/");
    let region = rect(0, 58, 1024, 768);

    let output = chrome.update(&mut browser, &Vec::new(), 58, region);
    assert_eq!(output.resize, Some(EmbedderEvent::MoveResizeWebView(7, region)));
    assert!(output.replies.is_empty());
    assert_eq!(browser.webviews[0].rect, region);
    assert_eq!(chrome.toolbar_height(), 58);

    let output = chrome.update(&mut browser, &Vec::new(), 58, region);
    assert_eq!(output.resize, None);
    assert_eq!(browser.webviews[0].rect, region);

    let wider = rect(0, 58, 1280, 768);
    let output = chrome.update(&mut browser, &Vec::new(), 58, wider);
    assert_eq!(output.resize, Some(EmbedderEvent::MoveResizeWebView(7, wider)));
    assert_eq!(browser.webviews[0].rect, wider);
}

#[test]
fn only_the_focused_tab_is_resized() {
    let mut browser = engine(
        vec![tab(1, None, None, false), tab(2, None, None, true), tab(3, None, None, false)],
        Some(2),
    );
    let region = rect(0, 40, 800, 600);
    assert_eq!(
        browser.resize_focused(false, region),
        Some(EmbedderEvent::MoveResizeWebView(2, region))
    );
    assert_eq!(browser.webviews[0].rect, rect(0, 0, 0, 0));
    assert_eq!(browser.webviews[1].rect, region);
    assert_eq!(browser.webviews[2].rect, rect(0, 0, 0, 0));

    let mut nothing_focused = engine(vec![tab(1, None, None, false)], None);
    assert_eq!(nothing_focused.resize_focused(false, region), None);
    assert_eq!(nothing_focused.webviews[0].rect, rect(0, 0, 0, 0));
}

#[test]
fn the_preferences_page_takes_the_place_of_the_viewport() {
    let mut browser = one_tab("moto:config", "Preferences");
    let mut chrome = chrome("moto:config");
    let output = chrome.update(&mut browser, &Vec::new(), 58, rect(0, 58, 1024, 768));
    assert!(chrome.show_preferences_page());
    assert_eq!(output.resize, None);
    assert_eq!(browser.webviews[0].rect, rect(0, 0, 0, 0));

    browser.current_url_string = Some("moto:newtab".into());
    let output = chrome.update(&mut browser, &Vec::new(), 58, rect(0, 58, 1024, 768));
    assert!(!chrome.show_preferences_page());
    assert!(output.resize.is_some());
}

#[test]
fn a_frame_takes_its_interactions_in_order() {
    let mut browser = one_tab("https://a.test", "A");
    let mut chrome = chrome("https://a.test");
    let interactions = vec![
        Interaction::ToggleBookmark,
        Interaction::EditLocation("https://b.test".into()),
        Interaction::FocusLocation,
        Interaction::SubmitLocation,
        Interaction::NewTab,
    ];
    let output = chrome.update(&mut browser, &interactions, 30, rect(0, 0, 0, 0));
    assert_eq!(
        output.replies,
        vec![
            Reply::Store(StoreRequest::Add { url: "https://a.test".into(), title: "A".into() }),
            Reply::Nothing,
            Reply::SelectLocation { start: 0, end: 14 },
            Reply::Nothing,
            Reply::Nothing,
        ]
    );
    assert_eq!(output.resize, None);
    assert_eq!(chrome.location(), "https://b.test");
    assert!(!chrome.location_dirty());
    assert_eq!(chrome.event_queue(), &vec![MinibrowserEvent::Go, MinibrowserEvent::NewWebView]);
    assert_eq!(chrome.toolbar_height(), 30);
}

#[test]
fn pointer_events_over_the_page_are_left_to_the_page() {
    let mut chrome = chrome("https://old.test/");
    chrome.set_toolbar_height(58);
    let click = WindowEvent::MouseInput { pressed: true, button: MouseButton::Left };
    let release = WindowEvent::MouseInput { pressed: false, button: MouseButton::Left };

    // Before the pointer has been seen, clicks and the wheel are the page's.
    assert!(!chrome.on_window_event(click, true));
    assert!(!chrome.on_window_event(WindowEvent::MouseWheel, true));

    assert!(chrome.on_window_event(WindowEvent::CursorMoved(Point { x: 10, y: 20 }), true));
    assert_eq!(chrome.last_mouse_position(), Some(Point { x: 10, y: 20 }));
    assert!(chrome.is_over_toolbar(Point { x: 10, y: 20 }));
    assert!(chrome.on_window_event(click, true));
    assert!(chrome.on_window_event(release, true));
    assert!(chrome.on_window_event(WindowEvent::MouseWheel, true));
    assert!(!chrome.on_window_event(click, false));

    assert!(!chrome.on_window_event(WindowEvent::CursorMoved(Point { x: 10, y: 58 }), true));
    assert!(!chrome.is_over_toolbar(Point { x: 10, y: 58 }));
    assert!(!chrome.on_window_event(click, true));
    assert!(!chrome.on_window_event(WindowEvent::MouseWheel, true));
    assert!(chrome.on_window_event(WindowEvent::Other, true));
    assert!(!chrome.on_window_event(WindowEvent::Other, false));
    assert!(chrome.event_queue().is_empty());
}

#[test]
fn the_thumb_buttons_go_back_and_forward() {
    let mut chrome = chrome("https://old.test/");
    chrome.set_toolbar_height(58);
    chrome.on_window_event(WindowEvent::CursorMoved(Point { x: 10, y: 400 }), true);
    let back = WindowEvent::MouseInput { pressed: true, button: MouseButton::Back };
    let forward = WindowEvent::MouseInput { pressed: true, button: MouseButton::Forward };
    let back_up = WindowEvent::MouseInput { pressed: false, button: MouseButton::Back };
    let other = WindowEvent::MouseInput { pressed: true, button: MouseButton::Other(9) };
    assert!(chrome.on_window_event(back, true));
    assert!(chrome.on_window_event(forward, true));
    assert!(!chrome.on_window_event(forward, false));
    assert!(!chrome.on_window_event(back_up, true));
    assert!(!chrome.on_window_event(other, true));
    assert_eq!(
        chrome.event_queue(),
        &vec![MinibrowserEvent::Back, MinibrowserEvent::Forward, MinibrowserEvent::Forward]
    );
}

#[test]
fn the_window_shows_the_page_the_preferences_or_nothing() {
    let mut chrome = chrome("https://old.test/");
    let mut browser = one_tab("https://old.test/", "Old");
    chrome.begin_frame(&browser);
    assert!(!chrome.show_preferences_page());
    assert_eq!(chrome.content(&browser), Content::Page);

    browser.current_url_string = Some("moto:config".into());
    assert_eq!(chrome.content(&browser), Content::Page);
    chrome.begin_frame(&browser);
    assert!(chrome.show_preferences_page());
    assert_eq!(chrome.content(&browser), Content::Preferences);
    assert_eq!(chrome.sync_viewport(&mut browser, rect(0, 1, 2, 3)), None);
    assert_eq!(browser.webviews[0].rect, rect(0, 0, 0, 0));

    let unfocused = engine(vec![tab(1, None, Some("moto:config"), false)], None);
    assert_eq!(chrome.content(&unfocused), Content::Nothing);

    for address in [None, Some("moto:configuration"), Some("Moto:config"), Some("moto:newtab")] {
        browser.current_url_string = address.map(String::from);
        chrome.begin_frame(&browser);
        assert!(!chrome.show_preferences_page());
    }
}

#[test]
fn a_click_on_a_tab_is_one_intent_at_most() {
    let click = TabResponse { clicked: true, ..NO_CLICK };
    assert_eq!(tab_event(false, 5, click), Some(MinibrowserEvent::FocusWebView(5)));
    assert_eq!(tab_event(true, 5, click), None);
    let all = TabResponse {
        clicked: true,
        middle_clicked: true,
        close_clicked: true,
        close_middle_clicked: true,
    };
    assert_eq!(tab_event(true, 5, all), Some(MinibrowserEvent::CloseWebView(5)));
}

#[test]
fn the_star_goes_by_the_focused_page_not_by_the_address_bar() {
    let browser = one_tab("https://a.test", "A");
    let mut chrome = Minibrowser::new(
        "https://a.test".to_string(),
        vec![Bookmark { url: "https://kept.test".into(), title: "Kept".into() }],
    );
    chrome.handle_interaction(&browser, &Interaction::EditLocation("half-typed".into()));
    assert!(chrome.location_dirty());
    assert!(!chrome.starred(&browser));

    let first = chrome.handle_interaction(&browser, &Interaction::ToggleBookmark);
    let add = StoreRequest::Add { url: "https://a.test".into(), title: "A".into() };
    assert_eq!(first, Reply::Store(add.clone()));
    chrome.complete_store_request(add, true);
    assert_eq!(
        chrome.bookmarks(),
        &vec![
            Bookmark { url: "https://kept.test".into(), title: "Kept".into() },
            Bookmark { url: "https://a.test".into(), title: "A".into() },
        ]
    );
    assert!(chrome.starred(&browser));

    let second = chrome.handle_interaction(&browser, &Interaction::ToggleBookmark);
    let remove = StoreRequest::Remove { url: "https://a.test".into() };
    assert_eq!(second, Reply::Store(remove.clone()));
    chrome.complete_store_request(remove, true);
    assert_eq!(
        chrome.bookmarks(),
        &vec![Bookmark { url: "https://kept.test".into(), title: "Kept".into() }]
    );
    assert!(!chrome.starred(&browser));
    assert_eq!(chrome.location(), "half-typed");
    assert!(chrome.location_dirty());
}

#[test]
fn a_bookmarked_address_in_the_bar_does_not_light_the_star_of_another_page() {
    let browser = one_tab("https://a.test", "A");
    let mut chrome = Minibrowser::new(
        "https://old.test/".to_string(),
        vec![Bookmark { url: "https://b.test".into(), title: "B".into() }],
    );
    // A bookmark was just chosen: the bar holds it, the page has not followed yet.
    chrome.handle_interaction(&browser, &Interaction::SelectBookmark(0));
    assert_eq!(chrome.location(), "https://b.test");
    assert!(chrome.has_bookmark("https://b.test"));
    assert!(!chrome.starred(&browser));
    assert_eq!(
        chrome.handle_interaction(&browser, &Interaction::ToggleBookmark),
        Reply::Store(StoreRequest::Add { url: "https://a.test".into(), title: "A".into() })
    );
}

#[test]
fn the_star_is_off_without_a_focused_page() {
    let chrome = Minibrowser::new(
        "https://a.test".to_string(),
        vec![Bookmark { url: "https://a.test".into(), title: "A".into() }],
    );
    assert!(chrome.starred(&one_tab("https://a.test", "A")));
    assert!(!chrome.starred(&engine(vec![tab(1, None, Some("https://a.test"), false)], None)));
    assert!(!chrome.starred(&engine(vec![tab(1, Some("A"), None, true)], Some(1))));
}
