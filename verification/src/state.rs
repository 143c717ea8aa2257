//! The chrome's state as a mathematical value, and the rules by which it
//! changes.
//!
//! [`ChromeState`] is what a [`Minibrowser`](crate::Minibrowser) stands for.
//! Every operation of the chrome is specified here as a function on that
//! value; the executable operations are proved to compute these functions.

use vstd::prelude::*;
use crate::bookmarks::{
    count_url, has_url, law_add_then_remove_round_trip, law_remove_then_list, toggle_request,
    BookmarkView, StoreRequestView,
};
use crate::webview::{LoadStatus, WebViewId, WebViewManagerView, WebViewView};

verus! {

/// Something the user asked for that waits to be handed to the engine.
#[derive(Clone, Copy, Debug, PartialEq, Eq, Structural)]
pub enum MinibrowserEvent {
    /// Navigate to what the address bar holds.
    Go,
    /// Go one entry back in the session history.
    Back,
    /// Go one entry forward in the session history.
    Forward,
    /// Load the focused page again.
    Reload,
    /// Open a new tab.
    NewWebView,
    /// Close the tab.
    CloseWebView(WebViewId),
    /// Give the tab the input focus.
    FocusWebView(WebViewId),
}

/// A position on the screen, in the unit of the toolbar height.
#[derive(Clone, Copy, Debug, PartialEq, Eq, Structural)]
pub struct Point {
    pub x: i64,
    pub y: i64,
}

/// What the pointer did to one tab of the tab strip during a frame.
#[derive(Clone, Copy, Debug, PartialEq, Eq, Structural)]
pub struct TabResponse {
    /// The label was clicked with the primary button.
    pub clicked: bool,
    /// The label was clicked with the middle button.
    pub middle_clicked: bool,
    /// The close button was clicked with the primary button.
    pub close_clicked: bool,
    /// The close button was clicked with the middle button.
    pub close_middle_clicked: bool,
}

/// A button of the pointing device.
#[derive(Clone, Copy, Debug, PartialEq, Eq, Structural)]
pub enum MouseButton {
    Left,
    Right,
    Middle,
    /// The thumb button that goes back.
    Back,
    /// The thumb button that goes forward.
    Forward,
    /// Any further button, by its number.
    Other(u16),
}

/// An event of the window, as far as the chrome tells events apart.
#[derive(Clone, Copy, Debug, PartialEq, Eq, Structural)]
pub enum WindowEvent {
    /// The pointer has moved to the position.
    CursorMoved(Point),
    /// A button of the pointing device went down (`pressed`) or up.
    MouseInput { pressed: bool, button: MouseButton },
    /// The wheel was turned.
    MouseWheel,
    /// Anything else: keys, focus, resizing and the like.
    Other,
}

/// What fills the window below the controls.
#[derive(Clone, Copy, Debug, PartialEq, Eq, Structural)]
pub enum Content {
    /// Nothing: no tab is focused.
    Nothing,
    /// The preferences editor.
    Preferences,
    /// The focused page, as the engine has rendered it.
    Page,
}

/// The two faces of the button next to the navigation arrows.
#[derive(Clone, Copy, Debug, PartialEq, Eq, Structural)]
pub enum LoadButton {
    /// Shown while a page loads.
    Stop,
    /// Shown once the page has loaded.
    Reload,
}

/// The address that opens the new-tab page.
pub open spec fn new_tab_address() -> Seq<char> {
    "moto:newtab"@
}

/// The address whose page is the preferences editor.
pub open spec fn config_address() -> Seq<char> {
    "moto:config"@
}

/// The prefix that turns a file path into an address.
pub open spec fn file_address_prefix() -> Seq<char> {
    "file:///"@
}

/// The label of a tab that has neither a title nor an address.
pub open spec fn new_tab_label() -> Seq<char> {
    "New Tab"@
}

/// The label of a tab: its title unless that is missing or empty, else its
/// address, else a fixed placeholder.
pub open spec fn label_of(webview: WebViewView) -> Seq<char> {
    match (webview.title, webview.url) {
        (Some(title), _) if title.len() > 0 => title,
        (_, Some(url)) => url,
        _ => new_tab_label(),
    }
}

/// What a click on a tab asks for.
///
/// A click on the close button, or a middle click anywhere on the tab, closes
/// it.  A primary click on the label of a tab that is not selected focuses it.
/// A click on the label of the selected tab asks for nothing.
pub open spec fn tab_intent(
    selected: bool,
    webview_id: WebViewId,
    response: TabResponse,
) -> Option<MinibrowserEvent> {
    if response.close_clicked || response.close_middle_clicked || response.middle_clicked {
        Some(MinibrowserEvent::CloseWebView(webview_id))
    } else if !selected && response.clicked {
        Some(MinibrowserEvent::FocusWebView(webview_id))
    } else {
        None
    }
}

/// The face of the stop/reload button in a loading phase.
pub open spec fn load_button(status: LoadStatus) -> LoadButton {
    match status {
        LoadStatus::LoadComplete => LoadButton::Reload,
        _ => LoadButton::Stop,
    }
}

/// What the user did to one control of the chrome.
pub enum InteractionView {
    OpenFile(Seq<char>),
    SelectBookmark(int),
    SelectHistory(Seq<char>),
    ShowAbout,
    CloseAbout,
    Back,
    Forward,
    StopOrReload,
    ToggleBookmark,
    EditLocation(Seq<char>),
    FocusLocation,
    SubmitLocation,
    Tab { webview_id: WebViewId, selected: bool, response: TabResponse },
    NewTab,
}

/// What the chrome asks of the embedder in answer to an interaction.
pub enum ReplyView {
    /// Nothing.
    Nothing,
    /// Ask the bookmark store for this change, then report how it went.
    Store(StoreRequestView),
    /// Put the input focus into the address field and select the characters
    /// from `start` up to `end`.
    SelectLocation { start: int, end: int },
}

/// Everything the chrome shows and remembers, for one window.
pub struct ChromeState {
    /// The content of the address bar.
    pub address_text: Seq<char>,
    /// Whether the user has edited the address bar and not yet confirmed.
    pub address_dirty: bool,
    /// The loading phase of the focused page.
    pub load_status: LoadStatus,
    /// The transient status message.
    pub status_text: Option<Seq<char>>,
    /// Whether the about dialog is open.
    pub show_about: bool,
    /// Whether the preferences editor takes the place of the page.
    pub show_preferences_page: bool,
    /// The height of the controls above the page, as of the last frame.
    pub toolbar_height: i64,
    /// Where the pointer was last seen.
    pub pointer: Option<Point>,
    /// The bookmarks, oldest first, as the store last confirmed them.
    pub bookmarks: Seq<BookmarkView>,
    /// The intents that wait for the next dispatch, oldest first.
    pub event_queue: Seq<MinibrowserEvent>,
}

impl ChromeState {
    /// The state of a window that has just opened on `address`.
    pub open spec fn initial(address: Seq<char>, bookmarks: Seq<BookmarkView>) -> ChromeState {
        ChromeState {
            address_text: address,
            address_dirty: false,
            load_status: LoadStatus::LoadComplete,
            status_text: None,
            show_about: false,
            show_preferences_page: false,
            toolbar_height: 0,
            pointer: None,
            bookmarks,
            event_queue: Seq::empty(),
        }
    }

    /// One more intent waits for dispatch.
    pub open spec fn enqueue(self, event: MinibrowserEvent) -> ChromeState {
        ChromeState { event_queue: self.event_queue.push(event), ..self }
    }

    /// The user has typed in the address bar: the text is theirs until they
    /// confirm it.
    pub open spec fn edit(self, text: Seq<char>) -> ChromeState {
        ChromeState { address_text: text, address_dirty: true, ..self }
    }

    /// The user has confirmed the address bar.
    pub open spec fn confirm(self) -> ChromeState {
        ChromeState { address_dirty: false, ..self }.enqueue(MinibrowserEvent::Go)
    }

    /// The chrome itself puts an address into the bar and asks to go there.
    pub open spec fn load(self, address: Seq<char>) -> ChromeState {
        ChromeState { address_text: address, address_dirty: false, ..self }.enqueue(
            MinibrowserEvent::Go,
        )
    }

    /// Whether the star is lit: whether the focused page is bookmarked.
    /// Without a focused page that has an address the star is off.  What the
    /// address bar holds does not matter.
    pub open spec fn starred(self, focused: Option<WebViewView>) -> bool {
        match focused {
            Some(webview) => match webview.url {
                Some(url) => has_url(self.bookmarks, url),
                None => false,
            },
            None => false,
        }
    }

    /// The state after one interaction.
    pub open spec fn after(self, interaction: InteractionView) -> ChromeState {
        match interaction {
            InteractionView::OpenFile(path) => self.load(file_address_prefix() + path),
            InteractionView::SelectBookmark(i) => if 0 <= i < self.bookmarks.len() {
                self.load(self.bookmarks[i].url)
            } else {
                self
            },
            InteractionView::SelectHistory(address) => self.load(address),
            InteractionView::ShowAbout => ChromeState { show_about: true, ..self },
            InteractionView::CloseAbout => ChromeState { show_about: false, ..self },
            InteractionView::Back => self.enqueue(MinibrowserEvent::Back),
            InteractionView::Forward => self.enqueue(MinibrowserEvent::Forward),
            InteractionView::StopOrReload => match load_button(self.load_status) {
                LoadButton::Reload => self.enqueue(MinibrowserEvent::Reload),
                LoadButton::Stop => self,
            },
            InteractionView::ToggleBookmark => self,
            InteractionView::EditLocation(text) => self.edit(text),
            InteractionView::FocusLocation => self,
            InteractionView::SubmitLocation => self.confirm(),
            InteractionView::Tab { webview_id, selected, response } => match tab_intent(
                selected,
                webview_id,
                response,
            ) {
                Some(event) => ChromeState { address_dirty: false, ..self }.enqueue(event),
                None => self,
            },
            InteractionView::NewTab => self.enqueue(MinibrowserEvent::NewWebView),
        }
    }

    /// What the chrome asks of the embedder in answer to one interaction,
    /// given the tab that is focused at that moment.
    ///
    /// A click on the star asks the store to add the focused page when that
    /// page is not bookmarked and to remove it when it is; without a focused
    /// page that has an address it asks for nothing.
    pub open spec fn reply(
        self,
        interaction: InteractionView,
        focused: Option<WebViewView>,
    ) -> ReplyView {
        match interaction {
            InteractionView::ToggleBookmark => match focused {
                Some(webview) => match webview.url {
                    Some(url) => ReplyView::Store(
                        toggle_request(
                            has_url(self.bookmarks, url),
                            url,
                            match webview.title {
                                Some(title) => title,
                                None => Seq::empty(),
                            },
                        ),
                    ),
                    None => ReplyView::Nothing,
                },
                None => ReplyView::Nothing,
            },
            InteractionView::FocusLocation => ReplyView::SelectLocation {
                start: 0,
                end: self.address_text.len() as int,
            },
            _ => ReplyView::Nothing,
        }
    }

    /// The state after a run of interactions, taken in order.
    pub open spec fn after_all(self, interactions: Seq<InteractionView>) -> ChromeState
        decreases interactions.len(),
    {
        if interactions.len() == 0 {
            self
        } else {
            self.after_all(interactions.drop_last()).after(interactions.last())
        }
    }

    /// The replies to a run of interactions, one for each, in order.  Each is
    /// decided on the state that the interactions before it have left.
    pub open spec fn replies(
        self,
        interactions: Seq<InteractionView>,
        focused: Option<WebViewView>,
    ) -> Seq<ReplyView>
        decreases interactions.len(),
    {
        if interactions.len() == 0 {
            Seq::empty()
        } else {
            let before = interactions.drop_last();
            self.replies(before, focused).push(
                self.after_all(before).reply(interactions.last(), focused),
            )
        }
    }

    /// The state once the store has answered a request: a confirmed change
    /// shows in the bookmarks, a failed one leaves them as they were.
    pub open spec fn store_answered(self, request: StoreRequestView, succeeded: bool) -> ChromeState {
        if succeeded {
            ChromeState { bookmarks: request.applied_to(self.bookmarks), ..self }
        } else {
            self
        }
    }

    /// The state at the start of a frame: the preferences editor takes the
    /// page's place exactly while the engine is on the configuration address.
    pub open spec fn begin_frame(self, engine: WebViewManagerView) -> ChromeState {
        ChromeState {
            show_preferences_page: engine.current_url_string == Some(config_address()),
            ..self
        }
    }

    /// What fills the window below the controls: nothing without a focused
    /// tab, else the preferences editor while it is shown, else the page.
    pub open spec fn content(self, engine: WebViewManagerView) -> Content {
        if engine.focused_webview().is_none() {
            Content::Nothing
        } else if self.show_preferences_page {
            Content::Preferences
        } else {
            Content::Page
        }
    }

    /// The state at the end of a frame in which the user did `interactions`
    /// and the controls came out `toolbar_height` high.
    pub open spec fn frame(
        self,
        engine: WebViewManagerView,
        interactions: Seq<InteractionView>,
        toolbar_height: i64,
    ) -> ChromeState {
        ChromeState { toolbar_height, ..self.begin_frame(engine).after_all(interactions) }
    }

    /// Whether a position lies over the controls, above the page.
    pub open spec fn over_toolbar(self, position: Point) -> bool {
        position.y < self.toolbar_height
    }

    /// Whether the pointer was last seen over the controls.
    pub open spec fn pointer_over_toolbar(self) -> bool {
        match self.pointer {
            Some(position) => self.over_toolbar(position),
            None => false,
        }
    }

    /// The state after a window event: the pointer's position is remembered,
    /// and the thumb buttons ask to go back and forward.
    pub open spec fn after_window_event(self, event: WindowEvent) -> ChromeState {
        match event {
            WindowEvent::CursorMoved(position) => ChromeState { pointer: Some(position), ..self },
            WindowEvent::MouseInput { pressed: true, button: MouseButton::Forward } => self.enqueue(
                MinibrowserEvent::Forward,
            ),
            WindowEvent::MouseInput { pressed: true, button: MouseButton::Back } => self.enqueue(
                MinibrowserEvent::Back,
            ),
            _ => self,
        }
    }

    /// Whether the chrome may keep a window event for itself.
    ///
    /// Pointer events over the page belong to the page: a movement is the
    /// chrome's only when it ends over the controls, a click or a turn of the
    /// wheel only when the pointer was last seen there.  The thumb buttons and
    /// all other events are the chrome's wherever the pointer is.
    pub open spec fn may_consume(self, event: WindowEvent) -> bool {
        match event {
            WindowEvent::CursorMoved(position) => self.over_toolbar(position),
            WindowEvent::MouseInput { pressed: true, button: MouseButton::Forward } => true,
            WindowEvent::MouseInput { pressed: true, button: MouseButton::Back } => true,
            WindowEvent::MouseInput { .. } => self.pointer_over_toolbar(),
            WindowEvent::MouseWheel => self.pointer_over_toolbar(),
            WindowEvent::Other => true,
        }
    }

    /// Whether taking over the engine's address changes the address bar: only
    /// when the user has no edit pending and the engine reports an address
    /// that differs from the one shown.
    pub open spec fn location_changes(self, reported: Option<Seq<char>>) -> bool {
        !self.address_dirty && reported.is_some() && reported.unwrap() != self.address_text
    }

    /// The state after the engine's address has been offered to the address
    /// bar.
    pub open spec fn pull_location(self, reported: Option<Seq<char>>) -> ChromeState {
        if self.location_changes(reported) {
            ChromeState { address_text: reported.unwrap(), ..self }
        } else {
            self
        }
    }

    /// The state after the engine's loading phase has been taken over.
    pub open spec fn pull_load_status(self, reported: LoadStatus) -> ChromeState {
        ChromeState { load_status: reported, ..self }
    }

    /// The state after the engine's status message has been taken over.
    pub open spec fn pull_status_text(self, reported: Option<Seq<char>>) -> ChromeState {
        ChromeState { status_text: reported, ..self }
    }

    /// The state after everything the engine reports has been taken over.
    pub open spec fn pull(self, engine: WebViewManagerView) -> ChromeState {
        self.pull_location(engine.current_url_string).pull_load_status(
            engine.load_status,
        ).pull_status_text(engine.status_text)
    }

    /// Whether taking over what the engine reports changes anything that the
    /// chrome shows.
    pub open spec fn pull_changes(self, engine: WebViewManagerView) -> bool {
        ||| self.location_changes(engine.current_url_string)
        ||| self.load_status != engine.load_status
        ||| self.status_text != engine.status_text
    }

    /// The state after a run of engine reports has been taken over, one after
    /// the other.
    pub open spec fn pull_all(self, reports: Seq<WebViewManagerView>) -> ChromeState
        decreases reports.len(),
    {
        if reports.len() == 0 {
            self
        } else {
            self.pull_all(reports.drop_last()).pull(reports.last())
        }
    }

    /// The state after the user has typed a run of texts into the address bar,
    /// one replacing the other.
    pub open spec fn edit_all(self, texts: Seq<Seq<char>>) -> ChromeState
        decreases texts.len(),
    {
        if texts.len() == 0 {
            self
        } else {
            self.edit_all(texts.drop_last()).edit(texts.last())
        }
    }
}

/// After any run of edits to the address bar and a confirmation, exactly one
/// navigation intent has been added to the queue, it is the newest, the
/// address bar holds the last text typed (what it held before, if nothing was
/// typed), and no edit is pending.
pub proof fn law_edits_then_confirm(state: ChromeState, texts: Seq<Seq<char>>)
    ensures
        state.edit_all(texts).confirm().address_text == (if texts.len() > 0 {
            texts.last()
        } else {
            state.address_text
        }),
        !state.edit_all(texts).confirm().address_dirty,
        state.edit_all(texts).confirm().event_queue == state.event_queue.push(MinibrowserEvent::Go),
{
    lemma_edit_all_is_last_edit(state, texts);
}

/// A run of edits to the address bar comes to the same as its last edit
/// alone.
pub proof fn lemma_edit_all_is_last_edit(state: ChromeState, texts: Seq<Seq<char>>)
    ensures
        state.edit_all(texts) == if texts.len() == 0 {
            state
        } else {
            state.edit(texts.last())
        },
    decreases texts.len(),
{
    if texts.len() > 0 {
        lemma_edit_all_is_last_edit(state, texts.drop_last());
    }
}

/// While an edit is pending, the address bar keeps the user's text whatever
/// the engine reports, and however often.
pub proof fn law_pending_edit_survives_reports(
    state: ChromeState,
    reports: Seq<WebViewManagerView>,
)
    requires
        state.address_dirty,
    ensures
        state.pull_all(reports).address_text == state.address_text,
        state.pull_all(reports).address_dirty,
    decreases reports.len(),
{
    if reports.len() > 0 {
        law_pending_edit_survives_reports(state, reports.drop_last());
    }
}

/// A pending edit ends with a confirmation or with an address that the chrome
/// itself loads; from then on the engine's address is taken over again.
pub proof fn law_confirm_or_load_ends_pending_edit(
    state: ChromeState,
    address: Seq<char>,
    engine: WebViewManagerView,
)
    requires
        engine.current_url_string.is_some(),
    ensures
        state.confirm().pull(engine).address_text == engine.current_url_string.unwrap(),
        state.load(address).pull(engine).address_text == engine.current_url_string.unwrap(),
{
}

/// Taking over the same engine report a second time changes nothing and says
/// so.
pub proof fn law_pull_is_idempotent(state: ChromeState, engine: WebViewManagerView)
    ensures
        state.pull(engine).pull(engine) == state.pull(engine),
        !state.pull(engine).pull_changes(engine),
{
}

/// The bookmarks in memory follow the store: if they mirror it before a
/// request, they mirror it after the store has answered, whether the store
/// has made the change or failed to.
pub proof fn law_bookmarks_mirror_store(
    state: ChromeState,
    store: Seq<BookmarkView>,
    request: StoreRequestView,
    succeeded: bool,
)
    requires
        state.bookmarks == store,
    ensures
        state.store_answered(request, succeeded).bookmarks == (if succeeded {
            request.applied_to(store)
        } else {
            store
        }),
{
}

/// Clicking the star twice on a focused page that was not bookmarked, the
/// store confirming both times, first adds the page to the bookmarks, once
/// and under its title, and then takes it out again, whatever the address
/// bar holds.
pub proof fn law_star_twice(state: ChromeState, focused: WebViewView)
    requires
        focused.url is Some,
        !has_url(state.bookmarks, focused.url.unwrap()),
    ensures
        ({
            let url = focused.url.unwrap();
            let title = match focused.title {
                Some(title) => title,
                None => Seq::empty(),
            };
            let first = state.reply(InteractionView::ToggleBookmark, Some(focused));
            &&& !state.starred(Some(focused))
            &&& first == ReplyView::Store(StoreRequestView::Add { url, title })
            &&& first matches ReplyView::Store(add)
            &&& state.store_answered(add, true).starred(Some(focused))
            &&& state.store_answered(add, true).bookmarks == state.bookmarks.push(
                BookmarkView { url, title },
            )
            &&& count_url(state.store_answered(add, true).bookmarks, url) == 1
            &&& state.store_answered(add, true).reply(
                InteractionView::ToggleBookmark,
                Some(focused),
            ) == ReplyView::Store(StoreRequestView::Remove { url })
            &&& state.store_answered(add, true).store_answered(
                StoreRequestView::Remove { url },
                true,
            ) == state
        }),
{
    let url = focused.url.unwrap();
    let title = match focused.title {
        Some(title) => title,
        None => Seq::empty(),
    };
    law_add_then_remove_round_trip(state.bookmarks, url, title);
}

/// The star acts as it looks: a click asks for a removal exactly when the
/// star is lit and for an addition exactly when it is not, and a change that
/// the store has made flips the star.
pub proof fn law_star_face_and_action_agree(state: ChromeState, focused: WebViewView)
    requires
        focused.url is Some,
    ensures
        ({
            let reply = state.reply(InteractionView::ToggleBookmark, Some(focused));
            &&& reply matches ReplyView::Store(request)
            &&& state.starred(Some(focused)) <==> request is Remove
            &&& state.store_answered(request, true).starred(Some(focused)) == !state.starred(
                Some(focused),
            )
        }),
{
    let url = focused.url.unwrap();
    let title = match focused.title {
        Some(title) => title,
        None => Seq::empty(),
    };
    if has_url(state.bookmarks, url) {
        law_remove_then_list(state.bookmarks, url);
    } else {
        law_add_then_remove_round_trip(state.bookmarks, url, title);
    }
}

} // verus!
