//! What the platform is told to do, and what it is asked.

use crate::attributes::ProxyKind;
use crate::geometry::{Double, Frame, Single};
use crate::headers::HeaderField;
use vstd::prelude::*;

verus! {

/// Where a web view keeps what pages store.
#[derive(Debug, Clone, Copy, PartialEq, Eq)]
pub enum DataStore {
    /// In memory, for as long as the web view lives.
    NonPersistent,
    /// In the store with this identifier.
    Identified([u8; 16]),
    /// In the store that all web views share.
    Shared,
}

/// How a view follows the size of its parent.
#[derive(Debug, Clone, Copy, PartialEq, Eq, Structural)]
pub enum Autoresizing {
    /// Only the margin below the view stretches.
    MinYMargin,
    /// The view stretches with its parent.
    WidthAndHeight,
    /// The view and all its margins stretch.
    Everything,
}

/// What the mouse does in a web view.
#[derive(Debug, Clone, Copy, PartialEq, Eq, Structural)]
pub struct MouseBehavior {
    /// A handler of the caller sees what is dragged in; without it every drag is left to WebKit.
    pub drag_drop_handler: bool,
    /// The click that activates the window reaches the page too.
    pub accept_first_mouse: bool,
}

/// A side of a printed page.
#[derive(Debug, Clone, Copy, PartialEq, Eq, Structural)]
pub enum Margin {
    Top,
    Right,
    Bottom,
    Left,
}

/// One thing that the platform is told to do.
#[derive(Debug, PartialEq, Eq)]
pub enum Command {
    /// Make a web view configuration.
    NewConfiguration,
    /// Fetch the data store.
    OpenDataStore(DataStore),
    /// Make an instance of the handler class for the custom protocol with this index and name.
    CreateSchemeHandler { index: usize, name: String },
    /// Move the caller's function for the protocol to the heap, keep it, and point the handler to
    /// it.
    BindSchemeFunction { index: usize },
    /// Tell the handler which web view it serves.
    BindSchemeWebView { index: usize, webview_id: u32 },
    /// Fetch the configuration's user content controller.
    OpenUserContentController,
    /// Allocate the web view object.
    AllocateWebView { is_child: bool, mouse: Option<MouseBehavior> },
    /// Give the data store to the configuration.
    AttachDataStore,
    /// Route the data store's traffic through the caller's proxy.
    SetProxy(ProxyKind),
    /// Set a value of the configuration's preferences.
    SetPreference { key: String, value: bool },
    /// Set a value of the configuration.
    SetConfiguration { key: String, value: bool },
    /// Let media play without an action of the user.
    AllowAutoplay,
    /// Initialise the web view with this frame and the configuration.
    InitWithFrame(Frame),
    /// Initialise the web view with the frame of its parent and the configuration.
    InitWithParentFrame,
    SetAutoresizing(Autoresizing),
    SetBackForwardGestures(bool),
    SetScrollBounce(bool),
    SetHidden(bool),
    SetInspectable(bool),
    /// Hand the caller's message handler to the user content controller.
    CreateIpcHandler,
    CreateTitleObserver,
    CreateDownloadDelegate { started: bool, completed: bool },
    /// Make the delegate that sees every navigation, with those functions of the caller that are
    /// there.
    CreateNavigationDelegate {
        has_download_handler: bool,
        navigation_handler: bool,
        new_window_req_handler: bool,
        download_delegate: bool,
        on_page_load_handler: bool,
    },
    SetNavigationDelegate,
    CreateUiDelegate,
    SetUiDelegate,
    /// Draw no line under the window's title bar.
    HideTitlebarSeparator,
    /// Run a script in every document.
    AddUserScript { source: String, at_document_start: bool, main_frame_only: bool },
    SetUserAgent(String),
    /// Request a page. The header fields are added one by one.
    LoadRequest { url: String, headers: Vec<HeaderField> },
    /// Show a page whose text is given; it has no base URL.
    LoadHtml(String),
    /// Add the web view to the view that it was made for.
    AddToView,
    CreateParentView,
    SetParentAutoresizing(Autoresizing),
    AddToParentView,
    /// Make the parent view the content of the window.
    SetContentView,
    /// Let the web view receive the window's keyboard events.
    MakeFirstResponder,
    /// Bring the application to the front.
    ActivateApplication,
    /// Run a script in the current document, and report its result where the caller wants it.
    EvaluateJavaScript { source: String, callback: bool },
    /// Remove all data of every kind that changed since this many seconds after 1970 began.
    RemoveWebsiteData { modified_since: u64 },
    /// Set a margin of the shared print info.
    SetPrintMargin { side: Margin, size: Single },
    CreatePrintOperation,
    /// Let the print operation leave the current thread.
    SetPrintSpawnsThread(bool),
    /// Show the print dialog as a sheet of the web view's window.
    RunPrintOperation,
    ShowInspector,
    CloseInspector,
    SetPageZoom(Double),
    SetFrame(Frame),
    /// Add the web view to the content view of another window.
    AddToContentView,
    /// Take the caller's message handler back from the user content controller.
    RemoveIpcHandler,
    /// Free the caller's function for the protocol.
    FreeSchemeFunction { index: usize },
    RemoveFromSuperview,
    RetainWebView,
    RetainUserContentController,
}

/// The model of a [`Command`]: the same command, with texts as sequences of characters.
pub enum CommandView {
    NewConfiguration,
    OpenDataStore(DataStore),
    CreateSchemeHandler { index: int, name: Seq<char> },
    BindSchemeFunction { index: int },
    BindSchemeWebView { index: int, webview_id: u32 },
    OpenUserContentController,
    AllocateWebView { is_child: bool, mouse: Option<MouseBehavior> },
    AttachDataStore,
    SetProxy(ProxyKind),
    SetPreference { key: Seq<char>, value: bool },
    SetConfiguration { key: Seq<char>, value: bool },
    AllowAutoplay,
    InitWithFrame(Frame),
    InitWithParentFrame,
    SetAutoresizing(Autoresizing),
    SetBackForwardGestures(bool),
    SetScrollBounce(bool),
    SetHidden(bool),
    SetInspectable(bool),
    CreateIpcHandler,
    CreateTitleObserver,
    CreateDownloadDelegate { started: bool, completed: bool },
    CreateNavigationDelegate {
        has_download_handler: bool,
        navigation_handler: bool,
        new_window_req_handler: bool,
        download_delegate: bool,
        on_page_load_handler: bool,
    },
    SetNavigationDelegate,
    CreateUiDelegate,
    SetUiDelegate,
    HideTitlebarSeparator,
    AddUserScript { source: Seq<char>, at_document_start: bool, main_frame_only: bool },
    SetUserAgent(Seq<char>),
    LoadRequest { url: Seq<char>, headers: Seq<(Seq<char>, Seq<char>)> },
    LoadHtml(Seq<char>),
    AddToView,
    CreateParentView,
    SetParentAutoresizing(Autoresizing),
    AddToParentView,
    SetContentView,
    MakeFirstResponder,
    ActivateApplication,
    EvaluateJavaScript { source: Seq<char>, callback: bool },
    RemoveWebsiteData { modified_since: u64 },
    SetPrintMargin { side: Margin, size: Single },
    CreatePrintOperation,
    SetPrintSpawnsThread(bool),
    RunPrintOperation,
    ShowInspector,
    CloseInspector,
    SetPageZoom(Double),
    SetFrame(Frame),
    AddToContentView,
    RemoveIpcHandler,
    FreeSchemeFunction { index: int },
    RemoveFromSuperview,
    RetainWebView,
    RetainUserContentController,
}

impl View for Command {
    type V = CommandView;

    open spec fn view(&self) -> CommandView {
        match *self {
            Command::NewConfiguration => CommandView::NewConfiguration,
            Command::OpenDataStore(value) => CommandView::OpenDataStore(value),
            Command::CreateSchemeHandler { index, name } => CommandView::CreateSchemeHandler {
                index: index as int,
                name: name@,
            },
            Command::BindSchemeFunction { index } => CommandView::BindSchemeFunction {
                index: index as int,
            },
            Command::BindSchemeWebView { index, webview_id } => CommandView::BindSchemeWebView {
                index: index as int,
                webview_id,
            },
            Command::OpenUserContentController => CommandView::OpenUserContentController,
            Command::AllocateWebView { is_child, mouse } => CommandView::AllocateWebView {
                is_child,
                mouse,
            },
            Command::AttachDataStore => CommandView::AttachDataStore,
            Command::SetProxy(value) => CommandView::SetProxy(value),
            Command::SetPreference { key, value } => CommandView::SetPreference {
                key: key@,
                value,
            },
            Command::SetConfiguration { key, value } => CommandView::SetConfiguration {
                key: key@,
                value,
            },
            Command::AllowAutoplay => CommandView::AllowAutoplay,
            Command::InitWithFrame(value) => CommandView::InitWithFrame(value),
            Command::InitWithParentFrame => CommandView::InitWithParentFrame,
            Command::SetAutoresizing(value) => CommandView::SetAutoresizing(value),
            Command::SetBackForwardGestures(value) => CommandView::SetBackForwardGestures(value),
            Command::SetScrollBounce(value) => CommandView::SetScrollBounce(value),
            Command::SetHidden(value) => CommandView::SetHidden(value),
            Command::SetInspectable(value) => CommandView::SetInspectable(value),
            Command::CreateIpcHandler => CommandView::CreateIpcHandler,
            Command::CreateTitleObserver => CommandView::CreateTitleObserver,
            Command::CreateDownloadDelegate { started, completed } => CommandView::CreateDownloadDelegate {
                started,
                completed,
            },
            Command::CreateNavigationDelegate {
                has_download_handler,
                navigation_handler,
                new_window_req_handler,
                download_delegate,
                on_page_load_handler,
            } => CommandView::CreateNavigationDelegate {
                has_download_handler,
                navigation_handler,
                new_window_req_handler,
                download_delegate,
                on_page_load_handler,
            },
            Command::SetNavigationDelegate => CommandView::SetNavigationDelegate,
            Command::CreateUiDelegate => CommandView::CreateUiDelegate,
            Command::SetUiDelegate => CommandView::SetUiDelegate,
            Command::HideTitlebarSeparator => CommandView::HideTitlebarSeparator,
            Command::AddUserScript { source, at_document_start, main_frame_only } => CommandView::AddUserScript {
                source: source@,
                at_document_start,
                main_frame_only,
            },
            Command::SetUserAgent(text) => CommandView::SetUserAgent(text@),
            Command::LoadRequest { url, headers } => CommandView::LoadRequest {
                url: url@,
                headers: headers@.map_values(|f: HeaderField| f@),
            },
            Command::LoadHtml(text) => CommandView::LoadHtml(text@),
            Command::AddToView => CommandView::AddToView,
            Command::CreateParentView => CommandView::CreateParentView,
            Command::SetParentAutoresizing(value) => CommandView::SetParentAutoresizing(value),
            Command::AddToParentView => CommandView::AddToParentView,
            Command::SetContentView => CommandView::SetContentView,
            Command::MakeFirstResponder => CommandView::MakeFirstResponder,
            Command::ActivateApplication => CommandView::ActivateApplication,
            Command::EvaluateJavaScript { source, callback } => CommandView::EvaluateJavaScript {
                source: source@,
                callback,
            },
            Command::RemoveWebsiteData { modified_since } => CommandView::RemoveWebsiteData {
                modified_since,
            },
            Command::SetPrintMargin { side, size } => CommandView::SetPrintMargin { side, size },
            Command::CreatePrintOperation => CommandView::CreatePrintOperation,
            Command::SetPrintSpawnsThread(value) => CommandView::SetPrintSpawnsThread(value),
            Command::RunPrintOperation => CommandView::RunPrintOperation,
            Command::ShowInspector => CommandView::ShowInspector,
            Command::CloseInspector => CommandView::CloseInspector,
            Command::SetPageZoom(value) => CommandView::SetPageZoom(value),
            Command::SetFrame(value) => CommandView::SetFrame(value),
            Command::AddToContentView => CommandView::AddToContentView,
            Command::RemoveIpcHandler => CommandView::RemoveIpcHandler,
            Command::FreeSchemeFunction { index } => CommandView::FreeSchemeFunction {
                index: index as int,
            },
            Command::RemoveFromSuperview => CommandView::RemoveFromSuperview,
            Command::RetainWebView => CommandView::RetainWebView,
            Command::RetainUserContentController => CommandView::RetainUserContentController,
        }
    }
}

/// The models of a list of commands.
pub open spec fn views(commands: Seq<Command>) -> Seq<CommandView> {
    commands.map_values(|c: Command| c@)
}

/// A command that is given only under a condition.
pub open spec fn when(condition: bool, command: CommandView) -> Seq<CommandView> {
    if condition {
        seq![command]
    } else {
        Seq::empty()
    }
}

/// Appends a command.
pub(crate) fn tell(commands: &mut Vec<Command>, command: Command)
    ensures
        views(final(commands)@) == views(old(commands)@) + seq![command@],
{
    commands.push(command);
    assert(views(commands@) =~= views(old(commands)@) + seq![command@]);
}

/// Appends a command if a condition holds.
pub(crate) fn tell_when(commands: &mut Vec<Command>, condition: bool, command: Command)
    ensures
        views(final(commands)@) == views(old(commands)@) + when(condition, command@),
{
    if condition {
        commands.push(command);
    }
    assert(views(commands@) =~= views(old(commands)@) + when(condition, command@));
}

/// Appends a list of commands.
pub(crate) fn tell_all(commands: &mut Vec<Command>, more: Vec<Command>)
    ensures
        views(final(commands)@) == views(old(commands)@) + views(more@),
{
    let ghost added = views(more@);
    let mut more = more;
    commands.append(&mut more);
    assert(views(commands@) =~= views(old(commands)@) + added);
}

/// No commands.
pub(crate) fn no_commands() -> (r: Vec<Command>)
    ensures
        views(r@) == Seq::<CommandView>::empty(),
{
    let r: Vec<Command> = Vec::new();
    assert(views(r@) =~= Seq::empty());
    r
}

/// One thing that the platform is asked.
#[derive(Debug, Clone, Copy, PartialEq, Eq, Structural)]
pub enum Query {
    /// Is this the main thread?
    MainThread,
    /// Which number comes next for a web view?
    WebViewId,
    /// What is the major version of the operating system?
    OsVersion,
    /// Does the configuration accept the handler of the custom protocol with this index?
    RegisterScheme(usize),
    /// Where should the web view stand, in logical pixels of its window?
    LogicalPosition,
    /// How large should the web view be, in logical pixels of its window?
    LogicalSize,
    /// How large is the view that the web view is made for?
    ViewSize,
    /// How high is the view that the web view is made for, exactly?
    ViewHeight,
    /// Does the web view know the selector `setInspectable:`?
    KnowsInspectable,
    /// Does the window know the selector `setTitlebarSeparatorStyle:`?
    KnowsTitlebarStyle,
    /// Does the web view know the selector `printOperationWithPrintInfo:`?
    KnowsPrint,
    /// Is the inspector visible?
    InspectorVisible,
    /// Where should the web view stand in its parent, in logical pixels, and how high is the
    /// parent?
    Placement,
}

/// A conversation with the platform: either a question is still open, or it is over.
#[derive(Debug, PartialEq, Eq)]
pub enum Step<T> {
    Ask(Query),
    Finish(T),
}

} // verus!
