//! What a web view is made from.

use http::header::HeaderValue;
use http::HeaderMap;
use vstd::prelude::*;

verus! {

/// The operating system that hosts a web view.
#[derive(Debug, Clone, Copy, PartialEq, Eq, Structural)]
pub enum Platform {
    MacOs,
    Ios,
}

/// Parts of the library that a build can leave out.
#[derive(Debug, Clone, Copy, PartialEq, Eq, Structural)]
pub struct Features {
    /// Proxies can be set.
    pub mac_proxy: bool,
    /// The background can be left undrawn.
    pub transparent: bool,
    /// Pages can ask for the full screen.
    pub fullscreen: bool,
    /// The inspector can be used.
    pub devtools: bool,
}

/// How a proxy is spoken to.
#[derive(Debug, Clone, Copy, PartialEq, Eq, Structural)]
pub enum ProxyKind {
    Http,
    Socks5,
}

/// What the maker of a web view asks for. Of handlers, which are functions of the caller, only
/// their presence matters here.
#[derive(Debug)]
pub struct WebViewAttributes {
    /// Keep nothing of the session.
    pub incognito: bool,
    /// The custom data store to use, where the system has them.
    pub data_store_identifier: Option<[u8; 16]>,
    /// The names of the custom protocols.
    pub custom_protocols: Vec<String>,
    pub drag_drop_handler: bool,
    pub accept_first_mouse: bool,
    /// How the proxy is spoken to; its endpoint stays with whoever carries the commands out.
    pub proxy_config: Option<ProxyKind>,
    pub autoplay: bool,
    pub transparent: bool,
    pub back_forward_navigation_gestures: bool,
    pub visible: bool,
    pub devtools: bool,
    pub ipc_handler: bool,
    pub document_title_changed_handler: bool,
    pub navigation_handler: bool,
    pub new_window_req_handler: bool,
    pub on_page_load_handler: bool,
    pub download_started_handler: bool,
    pub download_completed_handler: bool,
    /// Scripts to run at the start of every document, in this order.
    pub initialization_scripts: Vec<String>,
    pub user_agent: Option<String>,
    /// The page to open first; with it, `html` is left unread.
    pub url: Option<String>,
    /// The headers of the request for `url`.
    pub headers: Option<HeaderMap<HeaderValue>>,
    pub html: Option<String>,
}

} // verus!
