use raw_window_handle::{
    AppKitWindowHandle, HandleError, RawWindowHandle, UiKitWindowHandle, XlibWindowHandle,
};
use wry::attributes::{Features, Platform, ProxyKind, WebViewAttributes};
use wry::command::{Autoresizing, Command, DataStore, MouseBehavior, Query};
use wry::creation::{choose_data_store, Creation, Plan, Progress, Reply, IPC_SCRIPT};
use wry::error::Error;
use wry::geometry::{Difference, Double, FlippedPoint, Frame, Length, Origin};
use wry::headers::HeaderField;
use wry::registry::{Counter, WebViewIds};
use wry::webview::InnerWebView;
use wry::window::{check_window_system, WindowSystem};

fn plain() -> WebViewAttributes {
    WebViewAttributes {
        incognito: false,
        data_store_identifier: None,
        custom_protocols: Vec::new(),
        drag_drop_handler: false,
        accept_first_mouse: false,
        proxy_config: None,
        autoplay: false,
        transparent: false,
        back_forward_navigation_gestures: false,
        visible: true,
        devtools: false,
        ipc_handler: false,
        document_title_changed_handler: false,
        navigation_handler: false,
        new_window_req_handler: false,
        on_page_load_handler: false,
        download_started_handler: false,
        download_completed_handler: false,
        initialization_scripts: Vec::new(),
        user_agent: None,
        url: None,
        headers: None,
        html: None,
    }
}

fn features(on: bool) -> Features {
    Features { mac_proxy: on, transparent: on, fullscreen: on, devtools: on }
}

fn app_kit() -> RawWindowHandle {
    RawWindowHandle::AppKit(AppKitWindowHandle::new(std::ptr::NonNull::dangling()))
}

fn ui_kit() -> RawWindowHandle {
    RawWindowHandle::UiKit(UiKitWindowHandle::new(std::ptr::NonNull::dangling()))
}

struct Answers {
    main_thread: bool,
    id: u32,
    os_version: i64,
    refused: Option<usize>,
    position: Option<(i32, i32)>,
    size: Option<(u32, u32)>,
    knows: bool,
}

fn usual() -> Answers {
    Answers {
        main_thread: true,
        id: 7,
        os_version: 14,
        refused: None,
        position: None,
        size: None,
        knows: true,
    }
}

const VIEW_HEIGHT: Double = Double { bits: 0x4082_c000_0000_0000 };

fn answer(query: Query, answers: &Answers) -> Reply {
    match query {
        Query::MainThread => Reply::Bool(answers.main_thread),
        Query::WebViewId => Reply::WebViewId(answers.id),
        Query::OsVersion => Reply::OsVersion(answers.os_version),
        Query::RegisterScheme(index) => Reply::Bool(answers.refused != Some(index)),
        Query::LogicalPosition => Reply::Position(answers.position),
        Query::LogicalSize => Reply::Size(answers.size),
        Query::ViewSize => Reply::ViewSize(800, 600),
        Query::ViewHeight => Reply::ViewHeight(VIEW_HEIGHT),
        Query::KnowsInspectable => Reply::Bool(answers.knows),
        Query::KnowsTitlebarStyle => Reply::Bool(answers.knows),
        other => panic!("unexpected question {:?}", other),
    }
}

fn make(
    mut creation: Creation,
    answers: &Answers,
    ids: &mut WebViewIds,
) -> (Vec<Command>, Result<InnerWebView, Error>, Vec<Query>) {
    let mut told = Vec::new();
    let mut asked = Vec::new();
    loop {
        let query = creation.question();
        asked.push(query);
        match creation.resume(answer(query, answers), ids) {
            Progress::Ask { commands, creation: next } => {
                told.extend(commands);
                creation = next;
            }
            Progress::Done { commands, webview } => {
                told.extend(commands);
                return (told, Ok(webview), asked);
            }
            Progress::Failed(error) => return (told, Err(error), asked),
        }
    }
}

fn pref(key: &str) -> Command {
    Command::SetPreference { key: key.to_string(), value: true }
}

fn script(source: &str) -> Command {
    Command::AddUserScript {
        source: source.to_string(),
        at_document_start: true,
        main_frame_only: true,
    }
}

#[test]
fn data_store_follows_incognito_version_and_identifier() {
    let id = Some([3u8; 16]);
    let choose = choose_data_store;
    assert_eq!(choose(Platform::MacOs, true, id, 14), DataStore::NonPersistent);
    assert_eq!(choose(Platform::MacOs, true, None, 10), DataStore::NonPersistent);
    assert_eq!(choose(Platform::MacOs, false, id, 14), DataStore::Identified([3; 16]));
    assert_eq!(choose(Platform::MacOs, false, id, 13), DataStore::Shared);
    assert_eq!(choose(Platform::Ios, false, id, 17), DataStore::Identified([3; 16]));
    assert_eq!(choose(Platform::Ios, false, id, 16), DataStore::Shared);
    assert_eq!(choose(Platform::MacOs, false, None, 14), DataStore::Shared);
}

#[test]
fn windows_of_other_systems_are_refused() {
    assert!(check_window_system(Platform::MacOs, WindowSystem::AppKit).is_ok());
    assert!(check_window_system(Platform::Ios, WindowSystem::UiKit).is_ok());
    let mac = |w| InnerWebView::new(w, plain(), Platform::MacOs, features(false));
    let ios = |w| InnerWebView::new_as_child(w, plain(), Platform::Ios, features(false));
    let (handle, creation) = mac(Ok(app_kit())).unwrap();
    assert!(matches!(handle, RawWindowHandle::AppKit(_)));
    assert!(!creation.plan.is_child);
    assert_eq!(creation.question(), Query::MainThread);
    let (handle, creation) = ios(Ok(ui_kit())).unwrap();
    assert!(matches!(handle, RawWindowHandle::UiKit(_)));
    assert!(creation.plan.is_child);
    assert!(matches!(mac(Ok(ui_kit())), Err(Error::UnsupportedWindowHandle)));
    assert!(matches!(ios(Ok(app_kit())), Err(Error::UnsupportedWindowHandle)));
    let x11 = RawWindowHandle::Xlib(XlibWindowHandle::new(5));
    assert!(matches!(mac(Ok(x11)), Err(Error::UnsupportedWindowHandle)));
    assert!(matches!(
        mac(Err(HandleError::Unavailable)),
        Err(Error::WindowHandleError(HandleError::Unavailable))
    ));
}

#[test]
fn web_views_need_the_main_thread() {
    let plan = Plan {
        platform: Platform::MacOs,
        features: features(true),
        is_child: false,
        attributes: plain(),
    };
    let mut ids = WebViewIds::new();
    let answers = Answers { main_thread: false, ..usual() };
    let (told, end, asked) = make(Creation::begin(plan), &answers, &mut ids);
    assert!(told.is_empty());
    assert!(matches!(end, Err(Error::NotMainThread)));
    assert_eq!(asked, vec![Query::MainThread]);
    assert!(!ids.contains(7));
}

#[test]
fn a_plain_mac_web_view_is_made_step_by_step() {
    let mut ids = WebViewIds::new();
    let (_, creation) =
        InnerWebView::new(Ok(app_kit()), plain(), Platform::MacOs, features(false)).unwrap();
    let (told, end, asked) = make(creation, &usual(), &mut ids);
    let expected = vec![
        Command::NewConfiguration,
        Command::OpenDataStore(DataStore::Shared),
        Command::OpenUserContentController,
        Command::AllocateWebView {
            is_child: false,
            mouse: Some(MouseBehavior { drag_drop_handler: false, accept_first_mouse: false }),
        },
        Command::AttachDataStore,
        pref("allowsPictureInPictureMediaPlayback"),
        Command::InitWithFrame(Frame {
            origin: Origin::At { x: 0, y: 0 },
            width: 0,
            height: 0,
        }),
        Command::SetAutoresizing(Autoresizing::WidthAndHeight),
        Command::SetBackForwardGestures(false),
        pref("tabFocusesLinks"),
        Command::CreateNavigationDelegate {
            has_download_handler: false,
            navigation_handler: false,
            new_window_req_handler: false,
            download_delegate: false,
            on_page_load_handler: false,
        },
        Command::SetNavigationDelegate,
        Command::CreateUiDelegate,
        Command::SetUiDelegate,
        Command::HideTitlebarSeparator,
        script(IPC_SCRIPT),
        Command::CreateParentView,
        Command::SetParentAutoresizing(Autoresizing::WidthAndHeight),
        Command::AddToParentView,
        Command::SetContentView,
        Command::MakeFirstResponder,
        Command::ActivateApplication,
    ];
    assert_eq!(told, expected);
    assert_eq!(
        asked,
        vec![
            Query::MainThread,
            Query::WebViewId,
            Query::OsVersion,
            Query::LogicalPosition,
            Query::KnowsTitlebarStyle,
        ]
    );
    let webview = end.unwrap();
    assert_eq!(webview.webview_id, 7);
    assert!(!webview.is_child);
    assert_eq!(webview.pending_scripts, Some(Vec::new()));
    assert!(!webview.ipc_handler);
    assert_eq!(webview.scheme_functions, 0);
    assert!(ids.contains(7));
}

#[test]
fn a_full_child_on_the_mac_gets_everything_it_asked_for() {
    let mut headers = http::HeaderMap::new();
    headers.insert("x-token", http::HeaderValue::from_static("abc"));
    let attributes = WebViewAttributes {
        incognito: true,
        data_store_identifier: Some([1; 16]),
        custom_protocols: vec!["app".to_string(), "asset".to_string()],
        drag_drop_handler: true,
        accept_first_mouse: true,
        proxy_config: Some(ProxyKind::Socks5),
        autoplay: true,
        transparent: true,
        back_forward_navigation_gestures: true,
        visible: false,
        devtools: true,
        ipc_handler: true,
        document_title_changed_handler: true,
        navigation_handler: true,
        new_window_req_handler: false,
        on_page_load_handler: true,
        download_started_handler: false,
        download_completed_handler: true,
        initialization_scripts: vec!["one()".to_string(), "two()".to_string()],
        user_agent: Some("agent".to_string()),
        url: Some("app://index".to_string()),
        headers: Some(headers),
        html: Some("<p>unread</p>".to_string()),
    };
    let (_, creation) =
        InnerWebView::new_as_child(Ok(app_kit()), attributes, Platform::MacOs, features(true))
            .unwrap();
    let mut ids = WebViewIds::new();
    let answers =
        Answers { position: Some((10, 20)), size: Some((300, 200)), knows: false, ..usual() };
    let (told, end, asked) = make(creation, &answers, &mut ids);
    let expected = vec![
        Command::NewConfiguration,
        Command::OpenDataStore(DataStore::NonPersistent),
        Command::CreateSchemeHandler { index: 0, name: "app".to_string() },
        Command::BindSchemeFunction { index: 0 },
        Command::BindSchemeWebView { index: 0, webview_id: 7 },
        Command::CreateSchemeHandler { index: 1, name: "asset".to_string() },
        Command::BindSchemeFunction { index: 1 },
        Command::BindSchemeWebView { index: 1, webview_id: 7 },
        Command::OpenUserContentController,
        Command::AllocateWebView {
            is_child: true,
            mouse: Some(MouseBehavior { drag_drop_handler: true, accept_first_mouse: true }),
        },
        Command::AttachDataStore,
        Command::SetProxy(ProxyKind::Socks5),
        pref("allowsPictureInPictureMediaPlayback"),
        Command::AllowAutoplay,
        Command::SetConfiguration { key: "drawsBackground".to_string(), value: false },
        pref("fullScreenEnabled"),
        Command::InitWithFrame(Frame {
            origin: Origin::Flipped(FlippedPoint {
                x: Length::Whole(10),
                y: Difference {
                    whole: Length::Double(VIEW_HEIGHT),
                    first: Length::Whole(20),
                    second: Length::Whole(200),
                },
            }),
            width: 300,
            height: 200,
        }),
        Command::SetAutoresizing(Autoresizing::MinYMargin),
        Command::SetBackForwardGestures(true),
        pref("tabFocusesLinks"),
        Command::SetHidden(true),
        pref("developerExtrasEnabled"),
        Command::CreateIpcHandler,
        Command::CreateTitleObserver,
        Command::CreateDownloadDelegate { started: false, completed: true },
        Command::CreateNavigationDelegate {
            has_download_handler: false,
            navigation_handler: true,
            new_window_req_handler: false,
            download_delegate: true,
            on_page_load_handler: true,
        },
        Command::SetNavigationDelegate,
        Command::CreateUiDelegate,
        Command::SetUiDelegate,
        script(IPC_SCRIPT),
        script("one()"),
        script("two()"),
        Command::SetUserAgent("agent".to_string()),
        Command::LoadRequest {
            url: "app://index".to_string(),
            headers: vec![HeaderField { name: "x-token".to_string(), value: "abc".to_string() }],
        },
        Command::AddToView,
        Command::ActivateApplication,
    ];
    assert_eq!(told, expected);
    assert_eq!(
        asked,
        vec![
            Query::MainThread,
            Query::WebViewId,
            Query::OsVersion,
            Query::RegisterScheme(0),
            Query::RegisterScheme(1),
            Query::LogicalPosition,
            Query::LogicalSize,
            Query::ViewHeight,
            Query::KnowsInspectable,
            Query::KnowsTitlebarStyle,
        ]
    );
    let webview = end.unwrap();
    assert!(webview.is_child);
    assert!(webview.ipc_handler);
    assert_eq!(webview.scheme_functions, 2);
}

#[test]
fn a_web_view_on_ios_takes_the_frame_of_its_parent() {
    let attributes = WebViewAttributes {
        devtools: true,
        html: Some("<p>hi</p>".to_string()),
        ..plain()
    };
    let (_, creation) =
        InnerWebView::new(Ok(ui_kit()), attributes, Platform::Ios, features(true)).unwrap();
    let mut ids = WebViewIds::new();
    let (told, end, asked) = make(creation, &usual(), &mut ids);
    let expected = vec![
        Command::NewConfiguration,
        Command::OpenDataStore(DataStore::Shared),
        Command::OpenUserContentController,
        Command::AllocateWebView { is_child: false, mouse: None },
        Command::AttachDataStore,
        pref("allowsPictureInPictureMediaPlayback"),
        Command::SetConfiguration { key: "allowsInlineMediaPlayback".to_string(), value: true },
        pref("fullScreenEnabled"),
        Command::InitWithParentFrame,
        Command::SetAutoresizing(Autoresizing::Everything),
        Command::SetScrollBounce(false),
        Command::SetInspectable(true),
        pref("developerExtrasEnabled"),
        Command::CreateNavigationDelegate {
            has_download_handler: false,
            navigation_handler: false,
            new_window_req_handler: false,
            download_delegate: false,
            on_page_load_handler: false,
        },
        Command::SetNavigationDelegate,
        Command::CreateUiDelegate,
        Command::SetUiDelegate,
        script(IPC_SCRIPT),
        Command::LoadHtml("<p>hi</p>".to_string()),
        Command::AddToView,
    ];
    assert_eq!(told, expected);
    assert_eq!(
        asked,
        vec![Query::MainThread, Query::WebViewId, Query::OsVersion, Query::KnowsInspectable]
    );
    assert!(end.is_ok());
}

#[test]
fn a_child_without_a_size_takes_that_of_its_view() {
    let (_, creation) =
        InnerWebView::new_as_child(Ok(app_kit()), plain(), Platform::MacOs, features(false))
            .unwrap();
    let mut ids = WebViewIds::new();
    let (told, _, asked) = make(creation, &usual(), &mut ids);
    assert!(asked.contains(&Query::ViewSize));
    let frame = Frame {
        origin: Origin::Flipped(FlippedPoint {
            x: Length::Whole(0),
            y: Difference {
                whole: Length::Double(VIEW_HEIGHT),
                first: Length::Whole(0),
                second: Length::Whole(600),
            },
        }),
        width: 800,
        height: 600,
    };
    assert!(told.contains(&Command::InitWithFrame(frame)));
}

#[test]
fn a_web_view_that_fills_its_window_starts_out_empty_below_it() {
    let (_, creation) =
        InnerWebView::new(Ok(app_kit()), plain(), Platform::MacOs, features(false)).unwrap();
    let mut ids = WebViewIds::new();
    let answers = Answers { position: Some((10, 20)), size: Some((300, 200)), ..usual() };
    let (told, _, asked) = make(creation, &answers, &mut ids);
    assert!(!asked.contains(&Query::LogicalSize));
    let frame = Frame { origin: Origin::At { x: 10, y: -20 }, width: 0, height: 0 };
    assert!(told.contains(&Command::InitWithFrame(frame)));
}

#[test]
fn a_refused_protocol_ends_the_making_and_its_number_stays() {
    let attributes = WebViewAttributes {
        custom_protocols: vec!["app".to_string(), "https".to_string(), "late".to_string()],
        ..plain()
    };
    let (_, creation) =
        InnerWebView::new(Ok(app_kit()), attributes, Platform::MacOs, features(false)).unwrap();
    let mut ids = WebViewIds::new();
    let answers = Answers { refused: Some(1), ..usual() };
    let (told, end, _) = make(creation, &answers, &mut ids);
    match end {
        Err(Error::UrlSchemeRegisterError(name)) => assert_eq!(name, "https"),
        other => panic!("{:?}", other),
    }
    assert_eq!(told.len(), 8);
    assert_eq!(told[7], Command::BindSchemeWebView { index: 1, webview_id: 7 });
    assert!(ids.contains(7));
}

#[test]
fn features_that_are_left_out_have_no_effect() {
    let attributes = || WebViewAttributes {
        proxy_config: Some(ProxyKind::Http),
        transparent: true,
        devtools: true,
        ..plain()
    };
    let mut ids = WebViewIds::new();
    let (_, creation) =
        InnerWebView::new(Ok(app_kit()), attributes(), Platform::MacOs, features(false)).unwrap();
    let (told, _, asked) = make(creation, &usual(), &mut ids);
    assert!(!told.contains(&Command::SetProxy(ProxyKind::Http)));
    assert!(!told.contains(&pref("fullScreenEnabled")));
    assert!(!told.contains(&pref("developerExtrasEnabled")));
    assert!(!told.iter().any(|c| matches!(c, Command::SetConfiguration { .. })));
    assert!(!asked.contains(&Query::KnowsInspectable));
    let (_, creation) =
        InnerWebView::new(Ok(app_kit()), attributes(), Platform::MacOs, features(true)).unwrap();
    let (told, _, _) = make(creation, &usual(), &mut ids);
    assert!(told.contains(&Command::SetProxy(ProxyKind::Http)));
    assert!(told.contains(&Command::SetInspectable(true)));
}

#[test]
fn all_scripts_come_before_the_first_page() {
    let attributes = WebViewAttributes {
        initialization_scripts: vec!["a".to_string(), "b".to_string()],
        user_agent: Some("u".to_string()),
        url: Some("https://example.com".to_string()),
        ..plain()
    };
    let (_, creation) =
        InnerWebView::new(Ok(app_kit()), attributes, Platform::MacOs, features(false)).unwrap();
    let mut ids = WebViewIds::new();
    let (told, _, _) = make(creation, &usual(), &mut ids);
    let page = told.iter().position(|c| matches!(c, Command::LoadRequest { .. })).unwrap();
    let last_script =
        told.iter().rposition(|c| matches!(c, Command::AddUserScript { .. })).unwrap();
    let agent = told.iter().position(|c| matches!(c, Command::SetUserAgent(_))).unwrap();
    assert!(last_script < page);
    assert!(agent < page);
    assert_eq!(told.iter().filter(|c| matches!(c, Command::AddUserScript { .. })).count(), 3);
}

#[test]
fn taking_a_web_view_apart_undoes_its_making() {
    let attributes = WebViewAttributes {
        custom_protocols: vec!["app".to_string(), "asset".to_string()],
        ipc_handler: true,
        ..plain()
    };
    let (_, creation) =
        InnerWebView::new(Ok(app_kit()), attributes, Platform::MacOs, features(false)).unwrap();
    let mut ids = WebViewIds::new();
    ids.insert(3);
    let (_, end, _) = make(creation, &usual(), &mut ids);
    let mut webview = end.unwrap();
    assert!(ids.contains(3) && ids.contains(7));
    let told = webview.teardown(&mut ids);
    assert_eq!(
        told,
        vec![
            Command::RemoveIpcHandler,
            Command::FreeSchemeFunction { index: 0 },
            Command::FreeSchemeFunction { index: 1 },
            Command::RemoveFromSuperview,
            Command::RetainWebView,
            Command::RetainUserContentController,
        ]
    );
    assert!(ids.contains(3) && !ids.contains(7));
    assert!(!webview.ipc_handler);
    assert_eq!(webview.scheme_functions, 0);
    assert_eq!(
        webview.teardown(&mut ids),
        vec![
            Command::RemoveFromSuperview,
            Command::RetainWebView,
            Command::RetainUserContentController,
        ]
    );
    assert!(ids.contains(3) && !ids.contains(7));
}

#[test]
fn two_live_web_views_have_different_numbers() {
    let mut ids = WebViewIds::new();
    let mut counter = Counter::new();
    let mut made = Vec::new();
    for is_child in [true, false] {
        let (_, creation) = if is_child {
            InnerWebView::new_as_child(Ok(app_kit()), plain(), Platform::MacOs, features(false))
        } else {
            InnerWebView::new(Ok(app_kit()), plain(), Platform::MacOs, features(false))
        }
        .unwrap();
        let answers = Answers { id: counter.next(), ..usual() };
        let (_, end, _) = make(creation, &answers, &mut ids);
        made.push(end.unwrap());
    }
    assert_eq!(made[0].webview_id, 1);
    assert_eq!(made[1].webview_id, 2);
    assert!(made[0].is_child && !made[1].is_child);
    assert!(ids.contains(1) && ids.contains(2));
}

#[test]
fn counting_goes_on_at_zero_after_the_highest_number() {
    let mut counter = Counter { next: u32::MAX };
    assert_eq!(counter.next(), u32::MAX);
    assert_eq!(counter.next(), 0);
    assert_eq!(counter.next(), 1);
}

#[test]
fn the_ipc_script_is_the_one_that_pages_know() {
    let expected = r#"Object.defineProperty(window, 'ipc', {
  value: Object.freeze({postMessage: function(s) {window.webkit.messageHandlers.ipc.postMessage(s);}})
});"#;
    assert_eq!(IPC_SCRIPT, expected);
}
