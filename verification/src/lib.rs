//! The chrome of a small desktop browser: the state behind the address bar,
//! the tab strip, the bookmarks menu and the preferences page, the rules by
//! which user interactions become navigation requests, and the rules by which
//! what the engine reports flows back into the controls.
//!
//! Nothing here draws, opens a window or touches a file.  The embedder renders
//! the controls from a [`Minibrowser`], tells it what the user did, performs the
//! requests it answers with, and hands back their outcomes.

pub mod bookmarks;
pub mod db;
pub mod dispatch;
pub mod minibrowser;
pub mod prefs;
pub mod protocols;
pub mod state;
pub mod text;
pub mod webview;

pub use bookmarks::{has_bookmark, remove_url, Bookmark, StoreRequest};
pub use db::{
    add_bookmark, create_bookmarks_db, database_file_name, get_bookmarks, remove_bookmark,
    select_bookmarks, setup_steps, BookmarkRow, SetupStep, Statement,
};
pub use minibrowser::{
    browser_tab, tab_event, tab_label, FrameOutput, Interaction, Minibrowser, Reply,
    TAB_LABEL_LENGTH,
};
pub use prefs::{
    collect_pref_edits, sort_prefs, Editor, PrefEdits, PrefInput, PrefRow, PrefValue, RowEdit,
};
pub use protocols::moto::{MotoProtocolHandler, MotoResponse};
pub use protocols::urlinfo::{
    query_text, url_info_response, url_info_text, UrlInfoProtocolHandler, UrlInfoResponse, UrlParts,
};
pub use state::{
    Content, LoadButton, MinibrowserEvent, MouseButton, Point, TabResponse, WindowEvent,
};
pub use text::truncate_with_ellipsis;
pub use webview::{
    EmbedderEvent, LoadStatus, Rect, TraversalDirection, WebView, WebViewId, WebViewManager,
};
