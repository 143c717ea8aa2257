//! The chrome itself: the state of one window's controls and the operations
//! that the embedder drives it with.

use vstd::prelude::*;
use vstd::string::*;
use crate::bookmarks::{bookmarks_view, has_bookmark, remove_url, Bookmark, StoreRequest};
use crate::dispatch::{dispatch, dispatch_queue};
use crate::state::{
    label_of, load_button, tab_intent, ChromeState, Content, InteractionView, LoadButton,
    MinibrowserEvent, MouseButton, Point, ReplyView, TabResponse, WindowEvent,
};
use crate::text::{truncate_with_ellipsis, truncated};
use crate::webview::{
    events_view, opt_text, EmbedderEvent, LoadStatus, Rect, WebView, WebViewId, WebViewManager,
};

verus! {

/// How many characters of a tab's label the tab strip shows.
pub const TAB_LABEL_LENGTH: usize = 20;

/// What the user did to one control of the chrome.
#[derive(Clone, Debug, PartialEq, Eq)]
pub enum Interaction {
    /// A file was picked in the file dialog; the text is its path.
    OpenFile(String),
    /// The entry at this position of the bookmarks menu was chosen.
    SelectBookmark(usize),
    /// An entry of the history menu was chosen; the text is its address.
    SelectHistory(String),
    /// The about dialog was asked for.
    ShowAbout,
    /// The about dialog was closed.
    CloseAbout,
    /// The back arrow was clicked.
    Back,
    /// The forward arrow was clicked.
    Forward,
    /// The button that stops a load or reloads the page was clicked.
    StopOrReload,
    /// The bookmark star was clicked.
    ToggleBookmark,
    /// The address bar was edited; the text is its new content.
    EditLocation(String),
    /// The shortcut that leads to the address bar was pressed.
    FocusLocation,
    /// The address bar was confirmed.
    SubmitLocation,
    /// A tab of the tab strip was clicked.  `selected` says whether it was the
    /// selected tab when it was drawn.
    Tab { webview_id: WebViewId, selected: bool, response: TabResponse },
    /// The button that opens a new tab was clicked.
    NewTab,
}

impl View for Interaction {
    type V = InteractionView;

    open spec fn view(&self) -> InteractionView {
        match *self {
            Interaction::OpenFile(path) => InteractionView::OpenFile(path@),
            Interaction::SelectBookmark(i) => InteractionView::SelectBookmark(i as int),
            Interaction::SelectHistory(address) => InteractionView::SelectHistory(address@),
            Interaction::ShowAbout => InteractionView::ShowAbout,
            Interaction::CloseAbout => InteractionView::CloseAbout,
            Interaction::Back => InteractionView::Back,
            Interaction::Forward => InteractionView::Forward,
            Interaction::StopOrReload => InteractionView::StopOrReload,
            Interaction::ToggleBookmark => InteractionView::ToggleBookmark,
            Interaction::EditLocation(text) => InteractionView::EditLocation(text@),
            Interaction::FocusLocation => InteractionView::FocusLocation,
            Interaction::SubmitLocation => InteractionView::SubmitLocation,
            Interaction::Tab { webview_id, selected, response } => InteractionView::Tab {
                webview_id,
                selected,
                response,
            },
            Interaction::NewTab => InteractionView::NewTab,
        }
    }
}

/// The interactions of a list, each by its content.
pub open spec fn interactions_view(interactions: Seq<Interaction>) -> Seq<InteractionView> {
    interactions.map_values(|i: Interaction| i@)
}

/// What the chrome asks of the embedder in answer to an interaction.
#[derive(Clone, Debug, PartialEq, Eq)]
pub enum Reply {
    /// Nothing.
    Nothing,
    /// Ask the bookmark store for this change, then report the outcome with
    /// [`Minibrowser::complete_store_request`].
    Store(StoreRequest),
    /// Put the input focus into the address field and select the characters
    /// from `start` up to `end`.
    SelectLocation { start: usize, end: usize },
}

impl View for Reply {
    type V = ReplyView;

    open spec fn view(&self) -> ReplyView {
        match *self {
            Reply::Nothing => ReplyView::Nothing,
            Reply::Store(request) => ReplyView::Store(request@),
            Reply::SelectLocation { start, end } => ReplyView::SelectLocation {
                start: start as int,
                end: end as int,
            },
        }
    }
}

/// The replies of a list, each by its content.
pub open spec fn replies_view(replies: Seq<Reply>) -> Seq<ReplyView> {
    replies.map_values(|r: Reply| r@)
}

/// What a frame leaves for the embedder to do.
#[derive(Clone, Debug, PartialEq, Eq)]
pub struct FrameOutput {
    /// The replies to the frame's interactions, one for each, in their order.
    pub replies: Vec<Reply>,
    /// The command that gives the focused tab its new region, to be handed to
    /// the engine at once.
    pub resize: Option<EmbedderEvent>,
}

/// Whether two optional texts are both absent or hold the same characters.
fn same_text(a: &Option<String>, b: &Option<String>) -> (same: bool)
    ensures
        same == (opt_text(*a) == opt_text(*b)),
{
    match (a, b) {
        (Some(x), Some(y)) => x.as_str().eq(y.as_str()),
        (None, None) => true,
        _ => false,
    }
}

/// A copy of an optional text.
fn copy_text(text: &Option<String>) -> (copy: Option<String>)
    ensures
        opt_text(copy) == opt_text(*text),
{
    match text {
        Some(s) => Some(s.clone()),
        None => None,
    }
}

/// The label under which the tab strip lists a tab, in full: the title unless
/// it is missing or empty, else the address, else `New Tab`.
pub fn tab_label(webview: &WebView) -> (label: String)
    ensures
        label@ == label_of(webview@),
{
    match &webview.title {
        Some(title) => {
            if !title.as_str().is_empty() {
                return title.clone();
            }
        },
        None => {},
    }
    match &webview.url {
        Some(url) => url.clone(),
        None => String::from_str("New Tab"),
    }
}

/// What a click on a tab asks for: closing wins over focusing, and the
/// selected tab is never focused again.
pub fn tab_event(selected: bool, webview_id: WebViewId, response: TabResponse) -> (intent: Option<
    MinibrowserEvent,
>)
    ensures
        intent == tab_intent(selected, webview_id, response),
{
    if response.close_clicked || response.close_middle_clicked || response.middle_clicked {
        Some(MinibrowserEvent::CloseWebView(webview_id))
    } else if !selected && response.clicked {
        Some(MinibrowserEvent::FocusWebView(webview_id))
    } else {
        None
    }
}

/// What the tab strip shows of one tab and what a click on it asks for.
///
/// The label is cut to [`TAB_LABEL_LENGTH`] characters.  The intent is that
/// of [`tab_event`].
pub fn browser_tab(label: &str, selected: bool, webview_id: WebViewId, response: TabResponse) -> (tab:
    (String, Option<MinibrowserEvent>))
    ensures
        tab.0@ == truncated(label@, TAB_LABEL_LENGTH as nat),
        tab.1 == tab_intent(selected, webview_id, response),
{
    (truncate_with_ellipsis(label, TAB_LABEL_LENGTH), tab_event(selected, webview_id, response))
}

/// No interaction shows or hides the preferences editor.
pub proof fn lemma_after_all_keeps_mode(state: ChromeState, interactions: Seq<InteractionView>)
    ensures
        state.after_all(interactions).show_preferences_page == state.show_preferences_page,
    decreases interactions.len(),
{
    if interactions.len() > 0 {
        lemma_after_all_keeps_mode(state, interactions.drop_last());
    }
}

/// The state of one window's controls.
#[derive(Clone, Debug)]
pub struct Minibrowser {
    event_queue: Vec<MinibrowserEvent>,
    toolbar_height: i64,
    last_mouse_position: Option<Point>,
    location: String,
    location_dirty: bool,
    load_status: LoadStatus,
    status_text: Option<String>,
    show_about_window: bool,
    show_preferences_page: bool,
    bookmarks: Vec<Bookmark>,
}

impl View for Minibrowser {
    type V = ChromeState;

    closed spec fn view(&self) -> ChromeState {
        ChromeState {
            address_text: self.location@,
            address_dirty: self.location_dirty,
            load_status: self.load_status,
            status_text: opt_text(self.status_text),
            show_about: self.show_about_window,
            show_preferences_page: self.show_preferences_page,
            toolbar_height: self.toolbar_height,
            pointer: self.last_mouse_position,
            bookmarks: bookmarks_view(self.bookmarks@),
            event_queue: self.event_queue@,
        }
    }
}

impl Minibrowser {
    /// The controls of a window that opens on `initial_url`, with the
    /// bookmarks that the store holds.
    pub fn new(initial_url: String, bookmarks: Vec<Bookmark>) -> (chrome: Minibrowser)
        ensures
            chrome@ == ChromeState::initial(initial_url@, bookmarks_view(bookmarks@)),
    {
        Minibrowser {
            event_queue: Vec::new(),
            toolbar_height: 0,
            last_mouse_position: None,
            location: initial_url,
            location_dirty: false,
            load_status: LoadStatus::LoadComplete,
            status_text: None,
            show_about_window: false,
            show_preferences_page: false,
            bookmarks,
        }
    }

    /// The content of the address bar.
    pub fn location(&self) -> (text: &str)
        ensures
            text@ == self@.address_text,
    {
        self.location.as_str()
    }

    /// Whether the user has edited the address bar and not yet confirmed.
    pub fn location_dirty(&self) -> (dirty: bool)
        ensures
            dirty == self@.address_dirty,
    {
        self.location_dirty
    }

    /// The loading phase of the focused page.
    pub fn load_status(&self) -> (status: LoadStatus)
        ensures
            status == self@.load_status,
    {
        self.load_status
    }

    /// The transient status message.
    pub fn status_text(&self) -> (text: &Option<String>)
        ensures
            opt_text(*text) == self@.status_text,
    {
        &self.status_text
    }

    /// Whether the about dialog is open.
    pub fn show_about_window(&self) -> (shown: bool)
        ensures
            shown == self@.show_about,
    {
        self.show_about_window
    }

    /// Whether the preferences editor takes the place of the page.
    pub fn show_preferences_page(&self) -> (shown: bool)
        ensures
            shown == self@.show_preferences_page,
    {
        self.show_preferences_page
    }

    /// The height of the controls above the page, as of the last frame.
    pub fn toolbar_height(&self) -> (height: i64)
        ensures
            height == self@.toolbar_height,
    {
        self.toolbar_height
    }

    /// Where the pointer was last seen.
    pub fn last_mouse_position(&self) -> (position: Option<Point>)
        ensures
            position == self@.pointer,
    {
        self.last_mouse_position
    }

    /// The bookmarks, oldest first.
    pub fn bookmarks(&self) -> (bookmarks: &Vec<Bookmark>)
        ensures
            bookmarks_view(bookmarks@) == self@.bookmarks,
    {
        &self.bookmarks
    }

    /// The intents that wait for the next dispatch, oldest first.
    pub fn event_queue(&self) -> (queue: &Vec<MinibrowserEvent>)
        ensures
            queue@ == self@.event_queue,
    {
        &self.event_queue
    }

    /// Records the height of the controls.
    pub fn set_toolbar_height(&mut self, height: i64)
        ensures
            final(self)@ == (ChromeState { toolbar_height: height, ..old(self)@ }),
    {
        self.toolbar_height = height;
    }

    /// Opens or closes the about dialog.
    pub fn set_show_about_window(&mut self, shown: bool)
        ensures
            final(self)@ == (ChromeState { show_about: shown, ..old(self)@ }),
    {
        self.show_about_window = shown;
    }

    /// Adds an intent to the queue.
    pub fn queue_event(&mut self, event: MinibrowserEvent)
        ensures
            final(self)@ == old(self)@.enqueue(event),
    {
        self.event_queue.push(event);
    }

    /// Whether a bookmark for the address is in the list.
    pub fn has_bookmark(&self, url: &str) -> (found: bool)
        ensures
            found == crate::bookmarks::has_url(self@.bookmarks, url@),
    {
        has_bookmark(&self.bookmarks, url)
    }

    /// Whether the star is lit: whether the focused page is bookmarked.
    /// Without a focused page that has an address the star is off.
    pub fn starred(&self, browser: &WebViewManager) -> (lit: bool)
        ensures
            lit == self@.starred(browser@.focused_webview()),
    {
        match browser.focused_webview() {
            Some(webview) => match &webview.url {
                Some(url) => has_bookmark(&self.bookmarks, url.as_str()),
                None => false,
            },
            None => false,
        }
    }

    /// The face that the stop/reload button shows.
    pub fn load_button(&self) -> (face: LoadButton)
        ensures
            face == load_button(self@.load_status),
    {
        match self.load_status {
            LoadStatus::LoadComplete => LoadButton::Reload,
            _ => LoadButton::Stop,
        }
    }

    /// Whether a position lies over the controls, above the page.
    pub fn is_over_toolbar(&self, position: Point) -> (over: bool)
        ensures
            over == self@.over_toolbar(position),
    {
        position.y < self.toolbar_height
    }

    /// Takes note of a window event and decides whether it stays with the
    /// chrome.
    ///
    /// `consumed` says whether the controls claimed the event.  The answer is
    /// whether the event is kept from the page: the claim stands only for
    /// events that the chrome may keep.
    pub fn on_window_event(&mut self, event: WindowEvent, consumed: bool) -> (kept: bool)
        ensures
            final(self)@ == old(self)@.after_window_event(event),
            kept == (consumed && old(self)@.may_consume(event)),
    {
        let may_consume = match event {
            WindowEvent::CursorMoved(position) => {
                self.last_mouse_position = Some(position);
                self.is_over_toolbar(position)
            },
            WindowEvent::MouseInput { pressed: true, button: MouseButton::Forward } => {
                self.event_queue.push(MinibrowserEvent::Forward);
                true
            },
            WindowEvent::MouseInput { pressed: true, button: MouseButton::Back } => {
                self.event_queue.push(MinibrowserEvent::Back);
                true
            },
            WindowEvent::MouseInput { .. } | WindowEvent::MouseWheel => {
                match self.last_mouse_position {
                    Some(position) => self.is_over_toolbar(position),
                    None => false,
                }
            },
            WindowEvent::Other => true,
        };
        consumed && may_consume
    }

    /// Puts an address into the address bar on the chrome's own account and
    /// asks to go there.  A pending edit ends.
    fn load(&mut self, address: String)
        ensures
            final(self)@ == old(self)@.load(address@),
    {
        self.location = address;
        self.location_dirty = false;
        self.event_queue.push(MinibrowserEvent::Go);
    }

    /// What a click on the star asks of the bookmark store.
    fn toggle_bookmark(&self, focused: Option<&WebView>) -> (reply: Reply)
        ensures
            reply@ == self@.reply(
                InteractionView::ToggleBookmark,
                match focused {
                    Some(webview) => Some(webview@),
                    None => None,
                },
            ),
    {
        let webview = match focused {
            Some(webview) => webview,
            None => {
                return Reply::Nothing;
            },
        };
        let url = match &webview.url {
            Some(url) => url.clone(),
            None => {
                return Reply::Nothing;
            },
        };
        if has_bookmark(&self.bookmarks, url.as_str()) {
            Reply::Store(StoreRequest::Remove { url })
        } else {
            let title = match &webview.title {
                Some(title) => title.clone(),
                None => String::new(),
            };
            Reply::Store(StoreRequest::Add { url, title })
        }
    }

    /// Takes note of one interaction and answers with what the embedder has
    /// to do about it.
    ///
    /// Choosing a file, a bookmark or a history entry loads its address at
    /// once.  The arrows, the reload button, the new-tab button and a click
    /// on a tab each queue one intent; the stop button and a click on the
    /// label of the selected tab queue none.  Typing into the address bar
    /// marks it as edited, confirming it clears the mark and queues a
    /// navigation.  The star and the address-bar shortcut change nothing
    /// here: they are answered with a request to the store and with the
    /// range to select.
    pub fn handle_interaction(&mut self, browser: &WebViewManager, interaction: &Interaction) -> (reply:
        Reply)
        ensures
            final(self)@ == old(self)@.after(interaction@),
            reply@ == old(self)@.reply(interaction@, browser@.focused_webview()),
    {
        match interaction {
            Interaction::OpenFile(path) => {
                let mut address = String::from_str("file:///");
                address.append(path.as_str());
                self.load(address);
                Reply::Nothing
            },
            Interaction::SelectBookmark(i) => {
                if *i < self.bookmarks.len() {
                    assert(self@.bookmarks[*i as int] == self.bookmarks@[*i as int]@);
                    let address = self.bookmarks[*i].url.clone();
                    self.load(address);
                }
                Reply::Nothing
            },
            Interaction::SelectHistory(address) => {
                self.load(address.clone());
                Reply::Nothing
            },
            Interaction::ShowAbout => {
                self.show_about_window = true;
                Reply::Nothing
            },
            Interaction::CloseAbout => {
                self.show_about_window = false;
                Reply::Nothing
            },
            Interaction::Back => {
                self.event_queue.push(MinibrowserEvent::Back);
                Reply::Nothing
            },
            Interaction::Forward => {
                self.event_queue.push(MinibrowserEvent::Forward);
                Reply::Nothing
            },
            Interaction::StopOrReload => {
                match self.load_button() {
                    LoadButton::Reload => {
                        self.event_queue.push(MinibrowserEvent::Reload);
                    },
                    LoadButton::Stop => {},
                }
                Reply::Nothing
            },
            Interaction::ToggleBookmark => self.toggle_bookmark(browser.focused_webview()),
            Interaction::EditLocation(text) => {
                self.location = text.clone();
                self.location_dirty = true;
                Reply::Nothing
            },
            Interaction::FocusLocation => Reply::SelectLocation {
                start: 0,
                end: self.location.as_str().unicode_len(),
            },
            Interaction::SubmitLocation => {
                self.location_dirty = false;
                self.event_queue.push(MinibrowserEvent::Go);
                Reply::Nothing
            },
            Interaction::Tab { webview_id, selected, response } => {
                match tab_event(*selected, *webview_id, *response) {
                    Some(event) => {
                        self.location_dirty = false;
                        self.event_queue.push(event);
                    },
                    None => {},
                }
                Reply::Nothing
            },
            Interaction::NewTab => {
                self.event_queue.push(MinibrowserEvent::NewWebView);
                Reply::Nothing
            },
        }
    }

    /// Takes note of how the store answered a request.
    ///
    /// A change that the store has made shows in the bookmarks: an added page
    /// comes last, a removed address is gone.  A change that the store has
    /// failed to make leaves the bookmarks as they were.
    pub fn complete_store_request(&mut self, request: StoreRequest, succeeded: bool)
        ensures
            final(self)@ == old(self)@.store_answered(request@, succeeded),
    {
        if succeeded {
            match request {
                StoreRequest::Add { url, title } => {
                    let ghost before = bookmarks_view(self.bookmarks@);
                    let ghost added = (Bookmark { url, title })@;
                    self.bookmarks.push(Bookmark { url, title });
                    assert(bookmarks_view(self.bookmarks@) =~= before.push(added));
                },
                StoreRequest::Remove { url } => {
                    remove_url(&mut self.bookmarks, url.as_str());
                },
            }
        }
    }

    /// Opens a frame: the preferences editor is shown exactly while the
    /// engine is on the configuration address.
    pub fn begin_frame(&mut self, browser: &WebViewManager)
        ensures
            final(self)@ == old(self)@.begin_frame(browser@),
    {
        self.show_preferences_page = match &browser.current_url_string {
            Some(address) => address.as_str().eq("moto:config"),
            None => false,
        };
    }

    /// What fills the window below the controls.
    pub fn content(&self, browser: &WebViewManager) -> (content: Content)
        ensures
            content == self@.content(browser@),
    {
        if browser.focused_webview().is_none() {
            Content::Nothing
        } else if self.show_preferences_page {
            Content::Preferences
        } else {
            Content::Page
        }
    }

    /// Brings the focused tab's region in line with `viewport`, the region
    /// that the layout has left for the page, and answers with the command
    /// that tells the engine, if the region has changed.  While the
    /// preferences editor is shown no tab is resized.
    pub fn sync_viewport(&self, browser: &mut WebViewManager, viewport: Rect) -> (command: Option<
        EmbedderEvent,
    >)
        ensures
            final(browser)@ == old(browser)@.resized(self@.show_preferences_page, viewport),
            match command {
                Some(c) => Some(c@) == old(browser)@.resize_command(
                    self@.show_preferences_page,
                    viewport,
                ),
                None => old(browser)@.resize_command(
                    self@.show_preferences_page,
                    viewport,
                ).is_none(),
            },
    {
        browser.resize_focused(self.show_preferences_page, viewport)
    }

    /// Runs the chrome through one frame.
    ///
    /// The preferences editor is shown exactly while the engine is on the
    /// configuration address.  The frame's interactions are taken note of in
    /// their order, each answered on the state that the ones before it have
    /// left.  The height of the controls is recorded for the routing of
    /// pointer events until the next frame.  Last, the focused tab's region is
    /// brought in line with `viewport`, the region that the layout has left
    /// for the page, unless the preferences editor is shown.
    pub fn update(
        &mut self,
        browser: &mut WebViewManager,
        interactions: &Vec<Interaction>,
        toolbar_height: i64,
        viewport: Rect,
    ) -> (output: FrameOutput)
        ensures
            final(self)@ == old(self)@.frame(
                old(browser)@,
                interactions_view(interactions@),
                toolbar_height,
            ),
            replies_view(output.replies@) == old(self)@.begin_frame(old(browser)@).replies(
                interactions_view(interactions@),
                old(browser)@.focused_webview(),
            ),
            final(browser)@ == old(browser)@.resized(
                final(self)@.show_preferences_page,
                viewport,
            ),
            match output.resize {
                Some(command) => Some(command@) == old(browser)@.resize_command(
                    final(self)@.show_preferences_page,
                    viewport,
                ),
                None => old(browser)@.resize_command(
                    final(self)@.show_preferences_page,
                    viewport,
                ).is_none(),
            },
    {
        self.begin_frame(browser);
        let ghost begun = self@;
        let ghost all = interactions_view(interactions@);
        let ghost focused = browser@.focused_webview();
        let mut replies: Vec<Reply> = Vec::new();
        let mut i: usize = 0;
        proof {
            assert(all.take(0) =~= Seq::<InteractionView>::empty());
            assert(replies_view(replies@) =~= Seq::<ReplyView>::empty());
        }
        while i < interactions.len()
            invariant
                i <= interactions.len(),
                all == interactions_view(interactions@),
                focused == browser@.focused_webview(),
                self@ == begun.after_all(all.take(i as int)),
                replies_view(replies@) == begun.replies(all.take(i as int), focused),
            decreases interactions.len() - i,
        {
            let ghost answered = replies_view(replies@);
            let reply = self.handle_interaction(browser, &interactions[i]);
            let ghost made = reply@;
            replies.push(reply);
            proof {
                assert(all[i as int] == interactions@[i as int]@);
                assert(all.take(i + 1).drop_last() =~= all.take(i as int));
                assert(all.take(i + 1).last() == all[i as int]);
                assert(replies_view(replies@) =~= answered.push(made));
            }
            i += 1;
        }
        proof {
            assert(all.take(i as int) =~= all);
            lemma_after_all_keeps_mode(begun, all);
        }
        self.set_toolbar_height(toolbar_height);
        let resize = self.sync_viewport(browser, viewport);
        FrameOutput { replies, resize }
    }

    /// Offers the engine's address to the address bar.
    ///
    /// The address bar takes it unless the user has an edit pending.  Returns
    /// whether the address bar has changed.
    pub fn update_location_in_toolbar(&mut self, browser: &WebViewManager) -> (changed: bool)
        ensures
            final(self)@ == old(self)@.pull_location(browser@.current_url_string),
            changed == old(self)@.location_changes(browser@.current_url_string),
    {
        if self.location_dirty {
            return false;
        }
        match &browser.current_url_string {
            Some(location) => {
                if !location.as_str().eq(self.location.as_str()) {
                    self.location = location.clone();
                    true
                } else {
                    false
                }
            },
            None => false,
        }
    }

    /// Takes over the engine's loading phase.  Returns whether it has
    /// changed.
    pub fn update_spinner_in_toolbar(&mut self, browser: &WebViewManager) -> (changed: bool)
        ensures
            final(self)@ == old(self)@.pull_load_status(browser@.load_status),
            changed == (old(self)@.load_status != browser@.load_status),
    {
        let need_update = browser.load_status != self.load_status;
        self.load_status = browser.load_status;
        need_update
    }

    /// Takes over the engine's status message.  Returns whether it has
    /// changed.
    pub fn update_status_text(&mut self, browser: &WebViewManager) -> (changed: bool)
        ensures
            final(self)@ == old(self)@.pull_status_text(browser@.status_text),
            changed == (old(self)@.status_text != browser@.status_text),
    {
        let need_update = !same_text(&browser.status_text, &self.status_text);
        self.status_text = copy_text(&browser.status_text);
        need_update
    }

    /// Takes over everything that the engine reports: the address, the
    /// loading phase and the status message.  Returns whether anything that
    /// the chrome shows has changed.
    pub fn update_webview_data(&mut self, browser: &WebViewManager) -> (changed: bool)
        ensures
            final(self)@ == old(self)@.pull(browser@),
            changed == old(self)@.pull_changes(browser@),
    {
        let location = self.update_location_in_toolbar(browser);
        let spinner = self.update_spinner_in_toolbar(browser);
        let status = self.update_status_text(browser);
        location || spinner || status
    }

    /// Empties the queue of intents into commands for the engine, appended to
    /// `app_event_queue` in the order of the intents.
    ///
    /// `address` is what the address bar's text parses to, `None` if it does
    /// not parse.  The focused tab is the one that `browser` reports now.
    /// Intents that need a focused tab are dropped when there is none.  A
    /// navigation to a text that does not parse ends the pass: it and the
    /// intents behind it are dropped, and the answer is `false`.  A new tab
    /// ends a pending edit of the address bar.
    pub fn queue_embedder_events_for_minibrowser_events(
        &mut self,
        browser: &WebViewManager,
        address: &Option<String>,
        app_event_queue: &mut Vec<EmbedderEvent>,
    ) -> (completed: bool)
        ensures
            events_view(final(app_event_queue)@) == events_view(old(app_event_queue)@) + dispatch(
                old(self)@.event_queue,
                browser@.focused_webview_id(),
                opt_text(*address),
            ).commands,
            completed == !dispatch(
                old(self)@.event_queue,
                browser@.focused_webview_id(),
                opt_text(*address),
            ).halted,
            final(self)@ == (ChromeState {
                event_queue: Seq::empty(),
                address_dirty: old(self)@.address_dirty && !dispatch(
                    old(self)@.event_queue,
                    browser@.focused_webview_id(),
                    opt_text(*address),
                ).opened_tab,
                ..old(self)@
            }),
    {
        let focused = browser.focused_webview_id();
        let (opened_tab, completed) = dispatch_queue(
            &self.event_queue,
            focused,
            address,
            app_event_queue,
        );
        self.event_queue.clear();
        if opened_tab {
            self.location_dirty = false;
        }
        completed
    }
}

} // verus!
