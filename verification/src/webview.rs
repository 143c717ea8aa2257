//! What the chrome knows of the engine: the tabs it reports, and the commands
//! it takes.
//!
//! The engine owns its tabs.  The chrome sees them as plain records, names them
//! by an identifier that it never interprets, and asks for changes by handing
//! over [`EmbedderEvent`]s.

use vstd::prelude::*;

verus! {

/// The name of a tab.  The chrome compares identifiers and passes them on; it
/// attaches no meaning to the number.
pub type WebViewId = u64;

/// How far the focused page has come in loading.
#[derive(Clone, Copy, Debug, PartialEq, Eq, Structural)]
pub enum LoadStatus {
    /// The load has begun.
    LoadStart,
    /// The document head has been parsed.
    HeadParsed,
    /// The load has finished.
    LoadComplete,
}

/// A rectangle on the screen.
///
/// The coordinates are whole numbers in a unit that the embedder chooses.  The
/// chrome only tells rectangles apart; it never computes with them.
#[derive(Clone, Copy, Debug, PartialEq, Eq, Structural)]
pub struct Rect {
    pub min_x: i64,
    pub min_y: i64,
    pub max_x: i64,
    pub max_y: i64,
}

/// A step through the session history.
#[derive(Clone, Copy, Debug, PartialEq, Eq, Structural)]
pub enum TraversalDirection {
    /// Forward by the given number of entries.
    Forward(usize),
    /// Back by the given number of entries.
    Back(usize),
}

/// One tab, as the engine reports it.
#[derive(Clone, Debug, PartialEq, Eq)]
pub struct WebView {
    pub id: WebViewId,
    /// The page's title, once it has one.
    pub title: Option<String>,
    /// The page's address, once it has one.
    pub url: Option<String>,
    /// Whether this tab has the input focus.
    pub focused: bool,
    /// The screen region that the engine renders this tab into.
    pub rect: Rect,
}

/// The mathematical content of a [`WebView`].
pub struct WebViewView {
    pub id: WebViewId,
    pub title: Option<Seq<char>>,
    pub url: Option<Seq<char>>,
    pub focused: bool,
    pub rect: Rect,
}

/// The characters of an optional text.
pub open spec fn opt_text(text: Option<String>) -> Option<Seq<char>> {
    match text {
        Some(s) => Some(s@),
        None => None,
    }
}

impl View for WebView {
    type V = WebViewView;

    open spec fn view(&self) -> WebViewView {
        WebViewView {
            id: self.id,
            title: opt_text(self.title),
            url: opt_text(self.url),
            focused: self.focused,
            rect: self.rect,
        }
    }
}

/// A command for the engine.
#[derive(Clone, Debug, PartialEq, Eq)]
pub enum EmbedderEvent {
    /// Load the address in the tab.
    LoadUrl(WebViewId, String),
    /// Move through the tab's session history.
    Navigation(WebViewId, TraversalDirection),
    /// Load the tab's current page again.
    Reload(WebViewId),
    /// Open a new tab on the address.
    NewWebView(String),
    /// Close the tab.
    CloseWebView(WebViewId),
    /// Give the tab the input focus.
    FocusWebView(WebViewId),
    /// Render the tab into the region.
    MoveResizeWebView(WebViewId, Rect),
}

/// The mathematical content of an [`EmbedderEvent`].
pub enum EmbedderEventView {
    LoadUrl(WebViewId, Seq<char>),
    Navigation(WebViewId, TraversalDirection),
    Reload(WebViewId),
    NewWebView(Seq<char>),
    CloseWebView(WebViewId),
    FocusWebView(WebViewId),
    MoveResizeWebView(WebViewId, Rect),
}

impl View for EmbedderEvent {
    type V = EmbedderEventView;

    open spec fn view(&self) -> EmbedderEventView {
        match *self {
            EmbedderEvent::LoadUrl(id, url) => EmbedderEventView::LoadUrl(id, url@),
            EmbedderEvent::Navigation(id, direction) => EmbedderEventView::Navigation(
                id,
                direction,
            ),
            EmbedderEvent::Reload(id) => EmbedderEventView::Reload(id),
            EmbedderEvent::NewWebView(url) => EmbedderEventView::NewWebView(url@),
            EmbedderEvent::CloseWebView(id) => EmbedderEventView::CloseWebView(id),
            EmbedderEvent::FocusWebView(id) => EmbedderEventView::FocusWebView(id),
            EmbedderEvent::MoveResizeWebView(id, rect) => EmbedderEventView::MoveResizeWebView(
                id,
                rect,
            ),
        }
    }
}

/// The commands of a batch, each by its content.
pub open spec fn events_view(events: Seq<EmbedderEvent>) -> Seq<EmbedderEventView> {
    events.map_values(|e: EmbedderEvent| e@)
}

/// The tabs of a list, each by its content.
pub open spec fn webviews_view(webviews: Seq<WebView>) -> Seq<WebViewView> {
    webviews.map_values(|w: WebView| w@)
}

/// The index of the first tab named `id`, if there is one.
pub open spec fn position_of(webviews: Seq<WebViewView>, id: WebViewId) -> Option<int>
    decreases webviews.len(),
{
    if webviews.len() == 0 {
        None
    } else if webviews[0].id == id {
        Some(0)
    } else {
        match position_of(webviews.drop_first(), id) {
            Some(i) => Some(i + 1),
            None => None,
        }
    }
}

/// What the engine exposes to the chrome at one moment.
#[derive(Clone, Debug, PartialEq, Eq)]
pub struct WebViewManager {
    /// The tabs, in the order of the tab strip.
    pub webviews: Vec<WebView>,
    /// The tab that has the input focus, if any has.
    pub focused_webview_id: Option<WebViewId>,
    /// The address of the focused page.
    pub current_url_string: Option<String>,
    /// The loading phase of the focused page.
    pub load_status: LoadStatus,
    /// The transient status message, such as the target of a hovered link.
    pub status_text: Option<String>,
}

/// The mathematical content of a [`WebViewManager`].
pub struct WebViewManagerView {
    pub webviews: Seq<WebViewView>,
    pub focused_webview_id: Option<WebViewId>,
    pub current_url_string: Option<Seq<char>>,
    pub load_status: LoadStatus,
    pub status_text: Option<Seq<char>>,
}

impl WebViewManagerView {
    /// The index of the focused tab: the first tab that carries the focused
    /// identifier.  `None` when no tab is focused or the focused tab is gone.
    pub open spec fn focused_index(self) -> Option<int> {
        match self.focused_webview_id {
            Some(id) => position_of(self.webviews, id),
            None => None,
        }
    }

    /// The focused tab.
    pub open spec fn focused_webview(self) -> Option<WebViewView> {
        match self.focused_index() {
            Some(i) => Some(self.webviews[i]),
            None => None,
        }
    }

    /// The identifier of the focused tab, if that tab exists.
    pub open spec fn focused_webview_id(self) -> Option<WebViewId> {
        match self.focused_webview() {
            Some(webview) => Some(webview.id),
            None => None,
        }
    }
}

impl WebViewManagerView {
    /// The index of the tab whose region has to follow the layout: the
    /// focused tab, unless the preferences editor takes the page's place or
    /// the tab already has the region.
    pub open spec fn stale_region(self, preferences_shown: bool, viewport: Rect) -> Option<int> {
        match self.focused_index() {
            Some(i) => if !preferences_shown && self.webviews[i].rect != viewport {
                Some(i)
            } else {
                None
            },
            None => None,
        }
    }

    /// What the engine exposes once the focused tab's region has been brought
    /// in line with the layout.
    pub open spec fn resized(self, preferences_shown: bool, viewport: Rect) -> WebViewManagerView {
        match self.stale_region(preferences_shown, viewport) {
            Some(i) => WebViewManagerView {
                webviews: self.webviews.update(
                    i,
                    WebViewView { rect: viewport, ..self.webviews[i] },
                ),
                ..self
            },
            None => self,
        }
    }

    /// The command that tells the engine of the focused tab's new region, if
    /// the region has changed.
    pub open spec fn resize_command(
        self,
        preferences_shown: bool,
        viewport: Rect,
    ) -> Option<EmbedderEventView> {
        match self.stale_region(preferences_shown, viewport) {
            Some(i) => Some(EmbedderEventView::MoveResizeWebView(self.webviews[i].id, viewport)),
            None => None,
        }
    }
}

impl View for WebViewManager {
    type V = WebViewManagerView;

    open spec fn view(&self) -> WebViewManagerView {
        WebViewManagerView {
            webviews: webviews_view(self.webviews@),
            focused_webview_id: self.focused_webview_id,
            current_url_string: opt_text(self.current_url_string),
            load_status: self.load_status,
            status_text: opt_text(self.status_text),
        }
    }
}

/// `position_of` finds a tab with the identifier, and none stands before it.
pub proof fn lemma_position_of(webviews: Seq<WebViewView>, id: WebViewId)
    ensures
        match position_of(webviews, id) {
            Some(i) => 0 <= i < webviews.len() && webviews[i].id == id && forall|j: int|
                0 <= j < i ==> webviews[j].id != id,
            None => forall|j: int| 0 <= j < webviews.len() ==> webviews[j].id != id,
        },
    decreases webviews.len(),
{
    if webviews.len() > 0 && webviews[0].id != id {
        let rest = webviews.drop_first();
        lemma_position_of(rest, id);
        match position_of(rest, id) {
            Some(i) => {
                assert forall|j: int| 0 <= j < i + 1 implies webviews[j].id != id by {
                    if j > 0 {
                        assert(webviews[j] == rest[j - 1]);
                    }
                }
            },
            None => {
                assert forall|j: int| 0 <= j < webviews.len() implies webviews[j].id != id by {
                    if j > 0 {
                        assert(webviews[j] == rest[j - 1]);
                    }
                }
            },
        }
    }
}

impl WebViewManager {
    /// The index of the focused tab among `webviews`.
    pub fn focused_index(&self) -> (found: Option<usize>)
        ensures
            match found {
                Some(i) => self@.focused_index() == Some(i as int) && i < self.webviews.len(),
                None => self@.focused_index().is_none(),
            },
    {
        let id = match self.focused_webview_id {
            Some(id) => id,
            None => {
                return None;
            },
        };
        let ghost views = webviews_view(self.webviews@);
        let mut i: usize = 0;
        while i < self.webviews.len()
            invariant
                i <= self.webviews.len(),
                self.focused_webview_id == Some(id),
                views == webviews_view(self.webviews@),
                forall|j: int| 0 <= j < i ==> views[j].id != id,
            decreases self.webviews.len() - i,
        {
            assert(views[i as int] == self.webviews@[i as int]@);
            if self.webviews[i].id == id {
                proof {
                    lemma_position_of(views, id);
                }
                return Some(i);
            }
            i += 1;
        }
        proof {
            lemma_position_of(views, id);
        }
        None
    }

    /// The identifier of the focused tab, if that tab exists.
    pub fn focused_webview_id(&self) -> (found: Option<WebViewId>)
        ensures
            found == self@.focused_webview_id(),
    {
        match self.focused_index() {
            Some(i) => Some(self.webviews[i].id),
            None => None,
        }
    }

    /// The focused tab.
    pub fn focused_webview(&self) -> (found: Option<&WebView>)
        ensures
            match found {
                Some(w) => self@.focused_webview() == Some(w@),
                None => self@.focused_webview().is_none(),
            },
    {
        match self.focused_index() {
            Some(i) => Some(&self.webviews[i]),
            None => None,
        }
    }

    /// Brings the focused tab's region in line with the layout.
    ///
    /// When the region that the layout has left for the page differs from the
    /// one the focused tab has, the tab takes the new region and the engine is
    /// told so, at once and exactly once.  Nothing happens while the
    /// preferences editor takes the page's place, or without a focused tab.
    pub fn resize_focused(&mut self, preferences_shown: bool, viewport: Rect) -> (command: Option<
        EmbedderEvent,
    >)
        ensures
            final(self)@ == old(self)@.resized(preferences_shown, viewport),
            match command {
                Some(c) => Some(c@) == old(self)@.resize_command(preferences_shown, viewport),
                None => old(self)@.resize_command(preferences_shown, viewport).is_none(),
            },
    {
        let i = match self.focused_index() {
            Some(i) => i,
            None => {
                return None;
            },
        };
        let ghost before = webviews_view(self.webviews@);
        assert(before[i as int] == self.webviews@[i as int]@);
        if preferences_shown || self.webviews[i].rect == viewport {
            return None;
        }
        let id = self.webviews[i].id;
        self.webviews[i].rect = viewport;
        assert(webviews_view(self.webviews@) =~= before.update(
            i as int,
            WebViewView { rect: viewport, ..before[i as int] },
        ));
        Some(EmbedderEvent::MoveResizeWebView(id, viewport))
    }
}

} // verus!
