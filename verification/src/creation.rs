//! The making of a web view: a conversation in which the platform is told what to do and asked
//! what only it knows, until the web view stands or the attempt has failed.

use crate::attributes::{Features, Platform, WebViewAttributes};
use crate::command::{
    no_commands, tell, tell_all, tell_when, Autoresizing, Command, CommandView, DataStore,
    MouseBehavior, Query,
};
use crate::error::Error;
use crate::geometry::{window_position, Double, Frame, Origin};
use crate::registry::WebViewIds;
use crate::webview::InnerWebView;
use crate::window::host;
use raw_window_handle::{HandleError, RawWindowHandle};
use vstd::prelude::*;

verus! {

/// The script that gives every page a way to send messages to the caller.
pub const IPC_SCRIPT: &'static str =
    "Object.defineProperty(window, 'ipc', {\n  value: Object.freeze({postMessage: function(s) {window.webkit.messageHandlers.ipc.postMessage(s);}})\n});";

/// What a web view is made of, and where.
#[derive(Debug)]
pub struct Plan {
    pub platform: Platform,
    pub features: Features,
    pub is_child: bool,
    pub attributes: WebViewAttributes,
}

/// Where the conversation stands: the question that is open, and what was learned for it.
#[derive(Debug, Clone, Copy, PartialEq, Eq, Structural)]
pub enum Phase {
    MainThread,
    WebViewId,
    OsVersion,
    RegisterScheme(usize),
    LogicalPosition,
    LogicalSize { x: i32, y: i32 },
    ViewSize { x: i32, y: i32 },
    ViewHeight { x: i32, y: i32, width: u32, height: u32 },
    KnowsInspectable,
    KnowsTitlebarStyle,
}

/// An answer of the platform.
#[derive(Debug, Clone, Copy, PartialEq, Eq)]
pub enum Reply {
    /// To a question with yes or no.
    Bool(bool),
    WebViewId(u32),
    OsVersion(i64),
    /// The position that the caller asked for, if it asked for one.
    Position(Option<(i32, i32)>),
    /// The size that the caller asked for, if it asked for one.
    Size(Option<(u32, u32)>),
    ViewSize(u32, u32),
    ViewHeight(Double),
}

/// A web view in the making.
#[derive(Debug)]
pub struct Creation {
    pub plan: Plan,
    pub webview_id: u32,
    pub phase: Phase,
}

/// What an answer leads to. The commands are to be carried out in their order before anything
/// else.
#[derive(Debug)]
pub enum Progress {
    /// The conversation goes on.
    Ask { commands: Vec<Command>, creation: Creation },
    /// The web view stands once the commands are carried out.
    Done { commands: Vec<Command>, webview: InnerWebView },
    /// There is no web view.
    Failed(Error),
}

/// Which data store a web view uses: none that lasts if it is incognito, the one that it names if
/// the system has named stores, and the shared one otherwise.
pub open spec fn store_for(
    platform: Platform,
    incognito: bool,
    identifier: Option<[u8; 16]>,
    os_version: i64,
) -> DataStore {
    if incognito {
        DataStore::NonPersistent
    } else if has_named_stores(platform, os_version) && identifier is Some {
        DataStore::Identified(identifier->0)
    } else {
        DataStore::Shared
    }
}

/// Named data stores came with macOS 14 and iOS 17.
pub open spec fn has_named_stores(platform: Platform, os_version: i64) -> bool {
    match platform {
        Platform::MacOs => os_version >= 14,
        Platform::Ios => os_version >= 17,
    }
}

/// Chooses the data store.
pub fn choose_data_store(
    platform: Platform,
    incognito: bool,
    identifier: Option<[u8; 16]>,
    os_version: i64,
) -> (r: DataStore)
    ensures
        r == store_for(platform, incognito, identifier, os_version),
        incognito ==> r == DataStore::NonPersistent,
        !incognito ==> match (platform, identifier) {
            (_, None) => r == DataStore::Shared,
            (Platform::MacOs, Some(id)) => r == if os_version >= 14 {
                DataStore::Identified(id)
            } else {
                DataStore::Shared
            },
            (Platform::Ios, Some(id)) => r == if os_version >= 17 {
                DataStore::Identified(id)
            } else {
                DataStore::Shared
            },
        },
{
    let custom_data_store_available = match platform {
        Platform::MacOs => os_version >= 14,
        Platform::Ios => os_version >= 17,
    };
    match (incognito, custom_data_store_available, identifier) {
        (true, _, _) => DataStore::NonPersistent,
        (false, true, Some(identifier)) => DataStore::Identified(identifier),
        _ => DataStore::Shared,
    }
}

/// What makes the handler of one custom protocol, up to its registration.
pub open spec fn scheme_commands(plan: Plan, index: int, webview_id: u32) -> Seq<CommandView> {
    seq![
        CommandView::CreateSchemeHandler {
            index,
            name: plan.attributes.custom_protocols@[index]@,
        },
        CommandView::BindSchemeFunction { index },
        CommandView::BindSchemeWebView { index, webview_id },
    ]
}

fn scheme(plan: &Plan, index: usize, webview_id: u32) -> (r: Vec<Command>)
    requires
        index < plan.attributes.custom_protocols@.len(),
    ensures
        crate::command::views(r@) == scheme_commands(*plan, index as int, webview_id),
{
    let name = plan.attributes.custom_protocols[index].clone();
    let mut r = no_commands();
    tell(&mut r, Command::CreateSchemeHandler { index, name });
    tell(&mut r, Command::BindSchemeFunction { index });
    tell(&mut r, Command::BindSchemeWebView { index, webview_id });
    assert(crate::command::views(r@) =~= scheme_commands(*plan, index as int, webview_id));
    r
}

/// A value of the preferences that is switched on.
pub open spec fn preference(key: Seq<char>) -> CommandView {
    CommandView::SetPreference { key, value: true }
}

/// What the mouse does in a web view on macOS; iOS has none.
pub open spec fn mouse_behavior(plan: Plan) -> Option<MouseBehavior> {
    if plan.platform is MacOs {
        Some(
            MouseBehavior {
                drag_drop_handler: plan.attributes.drag_drop_handler,
                accept_first_mouse: plan.attributes.accept_first_mouse,
            },
        )
    } else {
        None
    }
}

/// What is done with the configuration, once all custom protocols are registered.
pub open spec fn configuration(plan: Plan) -> Seq<CommandView> {
    seq![CommandView::OpenUserContentController] + seq![
        CommandView::AllocateWebView { is_child: plan.is_child, mouse: mouse_behavior(plan) },
    ] + configuration_values(plan)
}

/// What is set on the configuration, once the web view is allocated.
pub open spec fn configuration_values(plan: Plan) -> Seq<CommandView> {
    seq![CommandView::AttachDataStore] + crate::command::when(
        plan.features.mac_proxy && plan.attributes.proxy_config is Some,
        CommandView::SetProxy(plan.attributes.proxy_config->0),
    ) + seq![preference("allowsPictureInPictureMediaPlayback"@)] + crate::command::when(
        plan.platform is Ios,
        CommandView::SetConfiguration { key: "allowsInlineMediaPlayback"@, value: true },
    ) + crate::command::when(plan.attributes.autoplay, CommandView::AllowAutoplay)
        + crate::command::when(
        plan.features.transparent && plan.attributes.transparent,
        CommandView::SetConfiguration { key: "drawsBackground"@, value: false },
    ) + crate::command::when(plan.features.fullscreen, preference("fullScreenEnabled"@))
}

fn prefer(key: &str) -> (r: Command)
    ensures
        r@ == preference(key@),
{
    Command::SetPreference { key: key.to_owned(), value: true }
}

fn configure(plan: &Plan) -> (r: Vec<Command>)
    ensures
        crate::command::views(r@) == configuration(*plan),
{
    let mouse = match plan.platform {
        Platform::MacOs => Some(
            MouseBehavior {
                drag_drop_handler: plan.attributes.drag_drop_handler,
                accept_first_mouse: plan.attributes.accept_first_mouse,
            },
        ),
        Platform::Ios => None,
    };
    let mut r = no_commands();
    tell(&mut r, Command::OpenUserContentController);
    assert(crate::command::views(r@) =~= seq![CommandView::OpenUserContentController]);
    tell(&mut r, Command::AllocateWebView { is_child: plan.is_child, mouse });
    tell_all(&mut r, configure_values(plan));
    r
}

fn configure_values(plan: &Plan) -> (r: Vec<Command>)
    ensures
        crate::command::views(r@) == configuration_values(*plan),
{
    let attributes = &plan.attributes;
    let mut r = no_commands();
    tell(&mut r, Command::AttachDataStore);
    assert(crate::command::views(r@) =~= seq![CommandView::AttachDataStore]);
    let ghost before = crate::command::views(r@);
    if plan.features.mac_proxy {
        if let Some(proxy) = attributes.proxy_config {
            tell(&mut r, Command::SetProxy(proxy));
        }
    }
    assert(crate::command::views(r@) =~= before + crate::command::when(
        plan.features.mac_proxy && attributes.proxy_config is Some,
        CommandView::SetProxy(attributes.proxy_config->0),
    ));
    tell(&mut r, prefer("allowsPictureInPictureMediaPlayback"));
    tell_when(
        &mut r,
        matches!(plan.platform, Platform::Ios),
        Command::SetConfiguration { key: "allowsInlineMediaPlayback".to_owned(), value: true },
    );
    tell_when(&mut r, attributes.autoplay, Command::AllowAutoplay);
    tell_when(
        &mut r,
        plan.features.transparent && attributes.transparent,
        Command::SetConfiguration { key: "drawsBackground".to_owned(), value: false },
    );
    tell_when(&mut r, plan.features.fullscreen, prefer("fullScreenEnabled"));
    r
}

/// The frame of a new web view on macOS. A child stands where it was wanted in its parent; any
/// other starts out empty and is stretched by its window later.
pub open spec fn first_frame(
    is_child: bool,
    x: i32,
    y: i32,
    width: u32,
    height: u32,
    view_height: Double,
) -> Frame {
    if is_child {
        Frame {
            origin: Origin::Flipped(crate::geometry::flipped(view_height, x, y, height as i64)),
            width: width as i64,
            height: height as i64,
        }
    } else {
        Frame { origin: Origin::At { x, y: (-y) as i32 }, width: 0, height: 0 }
    }
}

/// How a web view follows its parent and the user's gestures.
pub open spec fn first_behavior(plan: Plan) -> Seq<CommandView> {
    if plan.platform is MacOs {
        seq![
            CommandView::SetAutoresizing(
                if plan.is_child {
                    Autoresizing::MinYMargin
                } else {
                    Autoresizing::WidthAndHeight
                },
            ),
            CommandView::SetBackForwardGestures(plan.attributes.back_forward_navigation_gestures),
            preference("tabFocusesLinks"@),
        ]
    } else {
        seq![
            CommandView::SetAutoresizing(Autoresizing::Everything),
            CommandView::SetScrollBounce(false),
        ]
    }
}

/// What is set on a web view as soon as it is initialised.
pub open spec fn first_settings(plan: Plan) -> Seq<CommandView> {
    first_behavior(plan) + crate::command::when(
        !plan.attributes.visible,
        CommandView::SetHidden(true),
    )
}

fn settle(plan: &Plan) -> (r: Vec<Command>)
    ensures
        crate::command::views(r@) == first_settings(*plan),
{
    let mut r = no_commands();
    match plan.platform {
        Platform::MacOs => {
            let mask = if plan.is_child {
                Autoresizing::MinYMargin
            } else {
                Autoresizing::WidthAndHeight
            };
            tell(&mut r, Command::SetAutoresizing(mask));
            tell(
                &mut r,
                Command::SetBackForwardGestures(plan.attributes.back_forward_navigation_gestures),
            );
            tell(&mut r, prefer("tabFocusesLinks"));
        },
        Platform::Ios => {
            tell(&mut r, Command::SetAutoresizing(Autoresizing::Everything));
            tell(&mut r, Command::SetScrollBounce(false));
        },
    }
    tell_when(&mut r, !plan.attributes.visible, Command::SetHidden(true));
    assert(crate::command::views(r@) =~= first_settings(*plan));
    r
}

/// Whether the web view can be inspected.
pub open spec fn inspected(plan: Plan) -> bool {
    plan.features.devtools && plan.attributes.devtools
}

/// What opens a web view to the inspector.
pub open spec fn inspection(knows_inspectable: bool) -> Seq<CommandView> {
    crate::command::when(knows_inspectable, CommandView::SetInspectable(true)) + seq![
        preference("developerExtrasEnabled"@),
    ]
}

/// What tells the functions of the caller about titles, downloads and navigation.
pub open spec fn delegates(plan: Plan) -> Seq<CommandView> {
    let downloads = plan.attributes.download_started_handler
        || plan.attributes.download_completed_handler;
    crate::command::when(
        plan.attributes.document_title_changed_handler,
        CommandView::CreateTitleObserver,
    ) + crate::command::when(
        downloads,
        CommandView::CreateDownloadDelegate {
            started: plan.attributes.download_started_handler,
            completed: plan.attributes.download_completed_handler,
        },
    ) + seq![
        CommandView::CreateNavigationDelegate {
            has_download_handler: plan.attributes.download_started_handler,
            navigation_handler: plan.attributes.navigation_handler,
            new_window_req_handler: plan.attributes.new_window_req_handler,
            download_delegate: downloads,
            on_page_load_handler: plan.attributes.on_page_load_handler,
        },
        CommandView::SetNavigationDelegate,
        CommandView::CreateUiDelegate,
        CommandView::SetUiDelegate,
    ]
}

/// What connects a web view to the functions of its caller.
pub open spec fn handlers(plan: Plan) -> Seq<CommandView> {
    crate::command::when(plan.attributes.ipc_handler, CommandView::CreateIpcHandler) + delegates(
        plan,
    )
}

fn connect(plan: &Plan) -> (r: Vec<Command>)
    ensures
        crate::command::views(r@) == handlers(*plan),
{
    let started = plan.attributes.download_started_handler;
    let completed = plan.attributes.download_completed_handler;
    let mut r = no_commands();
    tell_when(&mut r, plan.attributes.ipc_handler, Command::CreateIpcHandler);
    tell_when(
        &mut r,
        plan.attributes.document_title_changed_handler,
        Command::CreateTitleObserver,
    );
    tell_when(
        &mut r,
        started || completed,
        Command::CreateDownloadDelegate { started, completed },
    );
    tell(
        &mut r,
        Command::CreateNavigationDelegate {
            has_download_handler: started,
            navigation_handler: plan.attributes.navigation_handler,
            new_window_req_handler: plan.attributes.new_window_req_handler,
            download_delegate: started || completed,
            on_page_load_handler: plan.attributes.on_page_load_handler,
        },
    );
    tell(&mut r, Command::SetNavigationDelegate);
    tell(&mut r, Command::CreateUiDelegate);
    tell(&mut r, Command::SetUiDelegate);
    assert(crate::command::views(r@) =~= handlers(*plan));
    r
}

/// The scripts of every document: the library's own, then the caller's in their order.
pub open spec fn scripts(plan: Plan) -> Seq<CommandView> {
    seq![crate::webview::user_script(IPC_SCRIPT@)]
        + plan.attributes.initialization_scripts@.map_values(
        |js: String| crate::webview::user_script(js@),
    )
}

/// The user agent, where the caller has one.
pub open spec fn user_agent(plan: Plan) -> Seq<CommandView> {
    match plan.attributes.user_agent {
        Some(name) => seq![CommandView::SetUserAgent(name@)],
        None => Seq::empty(),
    }
}

/// The first page: the one with the caller's address, or else the one with the caller's text.
pub open spec fn first_page(plan: Plan) -> Seq<CommandView> {
    match (plan.attributes.url, plan.attributes.html) {
        (Some(url), _) => seq![crate::webview::request(url@, plan.attributes.headers)],
        (None, Some(html)) => seq![CommandView::LoadHtml(html@)],
        (None, None) => Seq::empty(),
    }
}

/// What puts a web view into its window.
pub open spec fn injection(plan: Plan) -> Seq<CommandView> {
    if plan.platform is Ios {
        seq![CommandView::AddToView]
    } else if plan.is_child {
        seq![CommandView::AddToView, CommandView::ActivateApplication]
    } else {
        seq![
            CommandView::CreateParentView,
            CommandView::SetParentAutoresizing(Autoresizing::WidthAndHeight),
            CommandView::AddToParentView,
            CommandView::SetContentView,
            CommandView::MakeFirstResponder,
            CommandView::ActivateApplication,
        ]
    }
}

/// What completes a web view.
pub open spec fn opening(plan: Plan) -> Seq<CommandView> {
    scripts(plan) + user_agent(plan) + first_page(plan) + injection(plan)
}

fn add_scripts(webview: &InnerWebView, plan: &Plan) -> (r: Vec<Command>)
    ensures
        crate::command::views(r@) == scripts(*plan),
{
    let list = &plan.attributes.initialization_scripts;
    let mut r = no_commands();
    tell(&mut r, webview.init(IPC_SCRIPT));
    for i in 0..list.len()
        invariant
            list == &plan.attributes.initialization_scripts,
            crate::command::views(r@) =~= seq![crate::webview::user_script(IPC_SCRIPT@)]
                + list@.take(i as int).map_values(
                |js: String| crate::webview::user_script(js@),
            ),
    {
        tell(&mut r, webview.init(list[i].as_str()));
        assert(list@.take(i + 1) =~= list@.take(i as int).push(list@[i as int]));
    }
    assert(list@.take(list@.len() as int) =~= list@);
    r
}

fn inject(plan: &Plan) -> (r: Vec<Command>)
    ensures
        crate::command::views(r@) == injection(*plan),
{
    let mut r = no_commands();
    match plan.platform {
        Platform::MacOs => {
            if plan.is_child {
                tell(&mut r, Command::AddToView);
            } else {
                tell(&mut r, Command::CreateParentView);
                tell(&mut r, Command::SetParentAutoresizing(Autoresizing::WidthAndHeight));
                tell(&mut r, Command::AddToParentView);
                tell(&mut r, Command::SetContentView);
                tell(&mut r, Command::MakeFirstResponder);
            }
            tell(&mut r, Command::ActivateApplication);
        },
        Platform::Ios => {
            tell(&mut r, Command::AddToView);
        },
    }
    assert(crate::command::views(r@) =~= injection(*plan));
    r
}

/// What an answer leads to, as a model of [`Progress`].
pub enum Next {
    Ask { commands: Seq<CommandView>, phase: Phase, webview_id: u32 },
    Done { commands: Seq<CommandView>, webview_id: u32 },
    NotMainThread,
    /// The custom protocol with this index was refused.
    Refused(int),
}

/// The custom protocols from `index` on are next.
pub open spec fn schemes_next(
    plan: Plan,
    webview_id: u32,
    before: Seq<CommandView>,
    index: int,
) -> Next {
    if index < plan.attributes.custom_protocols@.len() {
        Next::Ask {
            commands: before + scheme_commands(plan, index, webview_id),
            phase: Phase::RegisterScheme(index as usize),
            webview_id,
        }
    } else if plan.platform is MacOs {
        Next::Ask {
            commands: before + configuration(plan),
            phase: Phase::LogicalPosition,
            webview_id,
        }
    } else {
        settings_next(
            plan,
            webview_id,
            before + configuration(plan) + seq![CommandView::InitWithParentFrame],
        )
    }
}

/// The settings of the initialised web view are next.
pub open spec fn settings_next(plan: Plan, webview_id: u32, before: Seq<CommandView>) -> Next {
    if inspected(plan) {
        Next::Ask {
            commands: before + first_settings(plan),
            phase: Phase::KnowsInspectable,
            webview_id,
        }
    } else {
        handlers_next(plan, webview_id, before + first_settings(plan))
    }
}

/// The functions of the caller are next.
pub open spec fn handlers_next(plan: Plan, webview_id: u32, before: Seq<CommandView>) -> Next {
    if plan.platform is MacOs {
        Next::Ask {
            commands: before + handlers(plan),
            phase: Phase::KnowsTitlebarStyle,
            webview_id,
        }
    } else {
        Next::Done { commands: before + handlers(plan) + opening(plan), webview_id }
    }
}

/// The frame is known: initialising the web view is next.
pub open spec fn frame_next(plan: Plan, webview_id: u32, frame: Frame) -> Next {
    settings_next(plan, webview_id, seq![CommandView::InitWithFrame(frame)])
}

/// The web views that are alive after an answer: a web view is, from the moment that it gets its
/// number.
pub open spec fn noted(alive: Set<u32>, reply: Reply) -> Set<u32> {
    match reply {
        Reply::WebViewId(id) => alive.insert(id),
        _ => alive,
    }
}

/// What an answer to the open question leads to.
pub open spec fn next(plan: Plan, phase: Phase, webview_id: u32, reply: Reply) -> Next {
    match (phase, reply) {
        (Phase::MainThread, Reply::Bool(true)) => Next::Ask {
            commands: Seq::empty(),
            phase: Phase::WebViewId,
            webview_id,
        },
        (Phase::MainThread, _) => Next::NotMainThread,
        (Phase::WebViewId, Reply::WebViewId(id)) => Next::Ask {
            commands: seq![CommandView::NewConfiguration],
            phase: Phase::OsVersion,
            webview_id: id,
        },
        (Phase::OsVersion, Reply::OsVersion(version)) => schemes_next(
            plan,
            webview_id,
            seq![CommandView::OpenDataStore(plan_store(plan, version))],
            0,
        ),
        (Phase::RegisterScheme(index), Reply::Bool(true)) => schemes_next(
            plan,
            webview_id,
            Seq::empty(),
            index + 1,
        ),
        (Phase::RegisterScheme(index), _) => Next::Refused(index as int),
        (Phase::LogicalPosition, Reply::Position(wanted)) => {
            let (x, y) = wanted_position(wanted);
            if plan.is_child {
                Next::Ask {
                    commands: Seq::empty(),
                    phase: Phase::LogicalSize { x, y },
                    webview_id,
                }
            } else {
                frame_next(
                    plan,
                    webview_id,
                    first_frame(false, x, y, 0, 0, Double { bits: 0 }),
                )
            }
        },
        (Phase::LogicalSize { x, y }, Reply::Size(Some((width, height)))) => Next::Ask {
            commands: Seq::empty(),
            phase: Phase::ViewHeight { x, y, width, height },
            webview_id,
        },
        (Phase::LogicalSize { x, y }, _) => Next::Ask {
            commands: Seq::empty(),
            phase: Phase::ViewSize { x, y },
            webview_id,
        },
        (Phase::ViewSize { x, y }, Reply::ViewSize(width, height)) => Next::Ask {
            commands: Seq::empty(),
            phase: Phase::ViewHeight { x, y, width, height },
            webview_id,
        },
        (
            Phase::ViewHeight { x, y, width, height },
            Reply::ViewHeight(view_height),
        ) => frame_next(
            plan,
            webview_id,
            first_frame(true, x, y, width, height, view_height),
        ),
        (Phase::KnowsInspectable, Reply::Bool(known)) => handlers_next(
            plan,
            webview_id,
            inspection(known),
        ),
        (Phase::KnowsTitlebarStyle, Reply::Bool(known)) => Next::Done {
            commands: crate::command::when(known, CommandView::HideTitlebarSeparator) + opening(
                plan,
            ),
            webview_id,
        },
        _ => arbitrary(),
    }
}

/// The data store of a plan.
pub open spec fn plan_store(plan: Plan, os_version: i64) -> DataStore {
    store_for(
        plan.platform,
        plan.attributes.incognito,
        plan.attributes.data_store_identifier,
        os_version,
    )
}

/// The position that was asked for, or the corner.
pub open spec fn wanted_position(wanted: Option<(i32, i32)>) -> (i32, i32) {
    match wanted {
        Some(position) => position,
        None => (0, 0),
    }
}

/// A web view that has just been made by a plan: no script waits, and no page has loaded.
pub open spec fn stands(webview: InnerWebView, plan: Plan, webview_id: u32) -> bool {
    &&& made_by(webview, plan, webview_id)
    &&& crate::webview::waiting(webview.pending_scripts) == Some(Seq::<Seq<char>>::empty())
}

/// A web view that was made by a plan, whatever scripts it was given since.
pub open spec fn made_by(webview: InnerWebView, plan: Plan, webview_id: u32) -> bool {
    &&& webview.platform == plan.platform
    &&& webview.is_child == plan.is_child
    &&& webview.ipc_handler == plan.attributes.ipc_handler
    &&& webview.scheme_functions == plan.attributes.custom_protocols@.len()
    &&& webview.webview_id == webview_id
}

/// Whether a [`Progress`] is what its model says.
pub open spec fn agrees(progress: Progress, plan: Plan, next: Next) -> bool {
    match next {
        Next::Ask { commands, phase, webview_id } => {
            &&& progress matches Progress::Ask { commands: told, creation }
            &&& crate::command::views(told@) == commands
            &&& creation == Creation { plan, webview_id, phase }
            &&& creation.wf()
        },
        Next::Done { commands, webview_id } => {
            &&& progress matches Progress::Done { commands: told, webview }
            &&& crate::command::views(told@) == commands
            &&& stands(webview, plan, webview_id)
        },
        Next::NotMainThread => progress == Progress::Failed(Error::NotMainThread),
        Next::Refused(index) => {
            &&& progress matches Progress::Failed(Error::UrlSchemeRegisterError(name))
            &&& name@ == plan.attributes.custom_protocols@[index]@
        },
    }
}

impl Creation {
    /// A custom protocol that is being registered is one of the plan's.
    pub open spec fn wf(self) -> bool {
        match self.phase {
            Phase::RegisterScheme(index) => index < self.plan.attributes.custom_protocols@.len(),
            _ => true,
        }
    }

    /// Whether an answer fits the open question. The `y` of a web view that fills its window is
    /// negated as an `i32`, which cannot hold the negation of the lowest `y` of all.
    pub open spec fn accepts(self, reply: Reply) -> bool {
        match self.phase {
            Phase::MainThread => reply is Bool,
            Phase::WebViewId => reply is WebViewId,
            Phase::OsVersion => reply is OsVersion,
            Phase::RegisterScheme(_) => reply is Bool,
            Phase::LogicalPosition => {
                &&& reply matches Reply::Position(wanted)
                &&& !self.plan.is_child ==> wanted_position(wanted).1 > i32::MIN
            },
            Phase::LogicalSize { .. } => reply is Size,
            Phase::ViewSize { .. } => reply is ViewSize,
            Phase::ViewHeight { .. } => reply is ViewHeight,
            Phase::KnowsInspectable => reply is Bool,
            Phase::KnowsTitlebarStyle => reply is Bool,
        }
    }

    /// Begins to make a web view. The first question is open.
    pub fn begin(plan: Plan) -> (r: Self)
        ensures
            r == (Creation { plan, webview_id: 0, phase: Phase::MainThread }),
            r.wf(),
    {
        Creation { plan, webview_id: 0, phase: Phase::MainThread }
    }

    /// The question that is open.
    pub fn question(&self) -> (r: Query)
        ensures
            r == asked(self.phase),
            self.phase is MainThread ==> r == Query::MainThread,
            self.phase is WebViewId ==> r == Query::WebViewId,
            self.phase is OsVersion ==> r == Query::OsVersion,
            self.phase matches Phase::RegisterScheme(index) ==> r == Query::RegisterScheme(index),
            self.phase is LogicalPosition ==> r == Query::LogicalPosition,
            self.phase is LogicalSize ==> r == Query::LogicalSize,
            self.phase is ViewSize ==> r == Query::ViewSize,
            self.phase is ViewHeight ==> r == Query::ViewHeight,
            self.phase is KnowsInspectable ==> r == Query::KnowsInspectable,
            self.phase is KnowsTitlebarStyle ==> r == Query::KnowsTitlebarStyle,
    {
        match self.phase {
            Phase::MainThread => Query::MainThread,
            Phase::WebViewId => Query::WebViewId,
            Phase::OsVersion => Query::OsVersion,
            Phase::RegisterScheme(index) => Query::RegisterScheme(index),
            Phase::LogicalPosition => Query::LogicalPosition,
            Phase::LogicalSize { .. } => Query::LogicalSize,
            Phase::ViewSize { .. } => Query::ViewSize,
            Phase::ViewHeight { .. } => Query::ViewHeight,
            Phase::KnowsInspectable => Query::KnowsInspectable,
            Phase::KnowsTitlebarStyle => Query::KnowsTitlebarStyle,
        }
    }

    fn ask(plan: Plan, webview_id: u32, phase: Phase, commands: Vec<Command>) -> (r: Progress)
        ensures
            r == (Progress::Ask { commands, creation: Creation { plan, webview_id, phase } }),
    {
        Progress::Ask { commands, creation: Creation { plan, webview_id, phase } }
    }

    fn go_to_schemes(
        plan: Plan,
        webview_id: u32,
        commands: Vec<Command>,
        index: usize,
    ) -> (r: Progress)
        ensures
            agrees(
                r,
                plan,
                schemes_next(plan, webview_id, crate::command::views(commands@), index as int),
            ),
    {
        let mut commands = commands;
        if index < plan.attributes.custom_protocols.len() {
            tell_all(&mut commands, scheme(&plan, index, webview_id));
            return Self::ask(plan, webview_id, Phase::RegisterScheme(index), commands);
        }
        tell_all(&mut commands, configure(&plan));
        match plan.platform {
            Platform::MacOs => Self::ask(plan, webview_id, Phase::LogicalPosition, commands),
            Platform::Ios => {
                tell(&mut commands, Command::InitWithParentFrame);
                Self::go_to_settings(plan, webview_id, commands)
            },
        }
    }

    fn go_to_frame(plan: Plan, webview_id: u32, frame: Frame) -> (r: Progress)
        ensures
            agrees(r, plan, frame_next(plan, webview_id, frame)),
    {
        let mut commands = no_commands();
        tell(&mut commands, Command::InitWithFrame(frame));
        assert(crate::command::views(commands@) =~= seq![CommandView::InitWithFrame(frame)]);
        Self::go_to_settings(plan, webview_id, commands)
    }

    fn go_to_settings(plan: Plan, webview_id: u32, commands: Vec<Command>) -> (r: Progress)
        ensures
            agrees(
                r,
                plan,
                settings_next(plan, webview_id, crate::command::views(commands@)),
            ),
    {
        let mut commands = commands;
        tell_all(&mut commands, settle(&plan));
        if plan.features.devtools && plan.attributes.devtools {
            Self::ask(plan, webview_id, Phase::KnowsInspectable, commands)
        } else {
            Self::go_to_handlers(plan, webview_id, commands)
        }
    }

    fn go_to_handlers(plan: Plan, webview_id: u32, commands: Vec<Command>) -> (r: Progress)
        ensures
            agrees(
                r,
                plan,
                handlers_next(plan, webview_id, crate::command::views(commands@)),
            ),
    {
        let mut commands = commands;
        tell_all(&mut commands, connect(&plan));
        match plan.platform {
            Platform::MacOs => Self::ask(plan, webview_id, Phase::KnowsTitlebarStyle, commands),
            Platform::Ios => Self::finish(plan, webview_id, commands),
        }
    }

    fn finish(plan: Plan, webview_id: u32, commands: Vec<Command>) -> (r: Progress)
        ensures
            agrees(
                r,
                plan,
                Next::Done {
                    commands: crate::command::views(commands@) + opening(plan),
                    webview_id,
                },
            ),
    {
        let webview = InnerWebView {
            platform: plan.platform,
            is_child: plan.is_child,
            pending_scripts: Some(Vec::new()),
            ipc_handler: plan.attributes.ipc_handler,
            scheme_functions: plan.attributes.custom_protocols.len(),
            webview_id,
        };
        assert(crate::webview::waiting(webview.pending_scripts)->0 =~= Seq::<Seq<char>>::empty());
        let mut last = add_scripts(&webview, &plan);
        let ghost so_far = crate::command::views(last@);
        if let Some(user_agent) = &plan.attributes.user_agent {
            tell(&mut last, webview.set_user_agent(user_agent.as_str()));
        }
        assert(crate::command::views(last@) =~= so_far + user_agent(plan));
        let ghost so_far = crate::command::views(last@);
        if let Some(url) = &plan.attributes.url {
            match webview.navigate_to_url(url.as_str(), &plan.attributes.headers) {
                Ok(command) => tell(&mut last, command),
                Err(error) => return Progress::Failed(error),
            }
        } else if let Some(html) = &plan.attributes.html {
            tell(&mut last, webview.navigate_to_string(html.as_str()));
        }
        assert(crate::command::views(last@) =~= so_far + first_page(plan));
        tell_all(&mut last, inject(&plan));
        let mut commands = commands;
        tell_all(&mut commands, last);
        Progress::Done { commands, webview }
    }

    /// Takes the answer to the open question. The web view counts as alive from the moment that it
    /// gets its number.
    pub fn resume(self, reply: Reply, ids: &mut WebViewIds) -> (r: Progress)
        requires
            self.wf(),
            self.accepts(reply),
        ensures
            agrees(r, self.plan, next(self.plan, self.phase, self.webview_id, reply)),
            final(ids)@ == noted(old(ids)@, reply),
            reply matches Reply::WebViewId(id) ==> final(ids)@ == old(ids)@.insert(id),
            !(reply is WebViewId) ==> final(ids)@ == old(ids)@,
            self.phase is MainThread && reply == Reply::Bool(false) ==> r == Progress::Failed(
                Error::NotMainThread,
            ),
            self.phase matches Phase::RegisterScheme(index) ==> (reply == Reply::Bool(false) ==> (
            r matches Progress::Failed(Error::UrlSchemeRegisterError(name)) && name@
                == self.plan.attributes.custom_protocols@[index as int]@)),
            r is Failed ==> reply == Reply::Bool(false) && (self.phase is MainThread
                || self.phase is RegisterScheme),
            r matches Progress::Ask { creation, .. } ==> creation.wf() && creation.plan
                == self.plan,
            r matches Progress::Done { webview, .. } ==> {
                &&& webview.platform == self.plan.platform
                &&& webview.is_child == self.plan.is_child
                &&& webview.pending_scripts matches Some(scripts) && scripts@.len() == 0
                &&& webview.ipc_handler == self.plan.attributes.ipc_handler
                &&& webview.scheme_functions == self.plan.attributes.custom_protocols@.len()
                &&& webview.webview_id == self.webview_id
            },
    {
        let Creation { plan, webview_id, phase } = self;
        let progress = match (phase, reply) {
            (Phase::MainThread, Reply::Bool(main_thread)) => {
                if main_thread {
                    Self::ask(plan, webview_id, Phase::WebViewId, no_commands())
                } else {
                    Progress::Failed(Error::NotMainThread)
                }
            },
            (Phase::WebViewId, Reply::WebViewId(id)) => {
                ids.insert(id);
                let mut commands = no_commands();
                tell(&mut commands, Command::NewConfiguration);
                assert(crate::command::views(commands@) =~= seq![CommandView::NewConfiguration]);
                Self::ask(plan, id, Phase::OsVersion, commands)
            },
            (Phase::OsVersion, Reply::OsVersion(version)) => {
                let store = choose_data_store(
                    plan.platform,
                    plan.attributes.incognito,
                    plan.attributes.data_store_identifier,
                    version,
                );
                let mut commands = no_commands();
                tell(&mut commands, Command::OpenDataStore(store));
                assert(crate::command::views(commands@) =~= seq![
                    CommandView::OpenDataStore(store),
                ]);
                Self::go_to_schemes(plan, webview_id, commands, 0)
            },
            (Phase::RegisterScheme(index), Reply::Bool(accepted)) => {
                if accepted {
                    assert(index < plan.attributes.custom_protocols.len());
                    Self::go_to_schemes(plan, webview_id, no_commands(), index + 1)
                } else {
                    let name = plan.attributes.custom_protocols[index].clone();
                    Progress::Failed(Error::UrlSchemeRegisterError(name))
                }
            },
            (Phase::LogicalPosition, Reply::Position(wanted)) => {
                let (x, y) = match wanted {
                    Some(position) => position,
                    None => (0, 0),
                };
                if plan.is_child {
                    Self::ask(plan, webview_id, Phase::LogicalSize { x, y }, no_commands())
                } else {
                    let frame = Frame { origin: Origin::At { x, y: 0 - y }, width: 0, height: 0 };
                    Self::go_to_frame(plan, webview_id, frame)
                }
            },
            (Phase::LogicalSize { x, y }, Reply::Size(wanted)) => {
                let phase = match wanted {
                    Some((width, height)) => Phase::ViewHeight { x, y, width, height },
                    None => Phase::ViewSize { x, y },
                };
                Self::ask(plan, webview_id, phase, no_commands())
            },
            (Phase::ViewSize { x, y }, Reply::ViewSize(width, height)) => {
                let phase = Phase::ViewHeight { x, y, width, height };
                Self::ask(plan, webview_id, phase, no_commands())
            },
            (Phase::ViewHeight { x, y, width, height }, Reply::ViewHeight(view_height)) => {
                let frame = Frame {
                    origin: Origin::Flipped(window_position(view_height, x, y, height as i64)),
                    width: width as i64,
                    height: height as i64,
                };
                Self::go_to_frame(plan, webview_id, frame)
            },
            (Phase::KnowsInspectable, Reply::Bool(known)) => {
                let mut commands = no_commands();
                tell_when(&mut commands, known, Command::SetInspectable(true));
                tell(&mut commands, prefer("developerExtrasEnabled"));
                assert(crate::command::views(commands@) =~= inspection(known));
                Self::go_to_handlers(plan, webview_id, commands)
            },
            (Phase::KnowsTitlebarStyle, Reply::Bool(known)) => {
                let mut commands = no_commands();
                tell_when(&mut commands, known, Command::HideTitlebarSeparator);
                assert(crate::command::views(commands@) =~= crate::command::when(
                    known,
                    CommandView::HideTitlebarSeparator,
                ));
                Self::finish(plan, webview_id, commands)
            },
            _ => {
                assert(false);
                Progress::Failed(Error::NotMainThread)
            },
        };
        proof {
            if progress is Done {
                crate::laws::using::lemma_waiting_texts(progress->webview.pending_scripts);
            }
        }
        progress
    }
}

/// The question of each phase.
pub open spec fn asked(phase: Phase) -> Query {
    match phase {
        Phase::MainThread => Query::MainThread,
        Phase::WebViewId => Query::WebViewId,
        Phase::OsVersion => Query::OsVersion,
        Phase::RegisterScheme(index) => Query::RegisterScheme(index),
        Phase::LogicalPosition => Query::LogicalPosition,
        Phase::LogicalSize { .. } => Query::LogicalSize,
        Phase::ViewSize { .. } => Query::ViewSize,
        Phase::ViewHeight { .. } => Query::ViewHeight,
        Phase::KnowsInspectable => Query::KnowsInspectable,
        Phase::KnowsTitlebarStyle => Query::KnowsTitlebarStyle,
    }
}

/// How the making of a web view begins: in the window that hosts it, with the first question open;
/// or not at all, if there is no such window.
pub open spec fn beginning(
    window: Result<RawWindowHandle, HandleError>,
    plan: Plan,
) -> Result<(RawWindowHandle, Creation), Error> {
    match crate::window::host_of(plan.platform, window) {
        Ok(handle) => Ok(
            (handle, Creation { plan, webview_id: 0, phase: Phase::MainThread }),
        ),
        Err(error) => Err(error),
    }
}

impl InnerWebView {
    /// Begins to make a web view that fills its window.
    pub fn new(
        window: Result<RawWindowHandle, HandleError>,
        attributes: WebViewAttributes,
        platform: Platform,
        features: Features,
    ) -> (r: Result<(RawWindowHandle, Creation), Error>)
        ensures
            r == beginning(window, Plan { platform, features, is_child: false, attributes }),
            match window {
                Ok(handle) => if (platform is MacOs && crate::window::system_of(handle) is AppKit)
                    || (platform is Ios && crate::window::system_of(handle) is UiKit) {
                    &&& r matches Ok((host, creation))
                    &&& host == handle
                    &&& creation.plan == (Plan { platform, features, is_child: false, attributes })
                    &&& creation.phase is MainThread
                } else {
                    r == Err::<(RawWindowHandle, Creation), Error>(Error::UnsupportedWindowHandle)
                },
                Err(error) => r == Err::<(RawWindowHandle, Creation), Error>(
                    Error::WindowHandleError(error),
                ),
            },
    {
        match host(platform, window) {
            Ok(handle) => Ok(
                (
                    handle,
                    Creation::begin(Plan { platform, features, is_child: false, attributes }),
                ),
            ),
            Err(error) => Err(error),
        }
    }

    /// Begins to make a web view that is one view among others of its window.
    pub fn new_as_child(
        window: Result<RawWindowHandle, HandleError>,
        attributes: WebViewAttributes,
        platform: Platform,
        features: Features,
    ) -> (r: Result<(RawWindowHandle, Creation), Error>)
        ensures
            r == beginning(window, Plan { platform, features, is_child: true, attributes }),
            match window {
                Ok(handle) => if (platform is MacOs && crate::window::system_of(handle) is AppKit)
                    || (platform is Ios && crate::window::system_of(handle) is UiKit) {
                    &&& r matches Ok((host, creation))
                    &&& host == handle
                    &&& creation.plan == (Plan { platform, features, is_child: true, attributes })
                    &&& creation.phase is MainThread
                } else {
                    r == Err::<(RawWindowHandle, Creation), Error>(Error::UnsupportedWindowHandle)
                },
                Err(error) => r == Err::<(RawWindowHandle, Creation), Error>(
                    Error::WindowHandleError(error),
                ),
            },
    {
        match host(platform, window) {
            Ok(handle) => Ok(
                (handle, Creation::begin(Plan { platform, features, is_child: true, attributes })),
            ),
            Err(error) => Err(error),
        }
    }
}

} // verus!
