use wry::attributes::Platform;
use wry::command::{Command, Margin, Query, Step};
use wry::error::Error;
use wry::geometry::{
    Difference, Double, FlippedPoint, Frame, Length, Origin, Placement, Single, ViewFrame,
};
use wry::headers::{header_fields, request_fields, HeaderField};
use wry::print::{PrintMargin, PrintOptions};
use wry::registry::WebViewIds;
use wry::url::url_from_webview;
use wry::webview::InnerWebView;

fn webview(platform: Platform, is_child: bool) -> InnerWebView {
    InnerWebView {
        platform,
        is_child,
        pending_scripts: Some(Vec::new()),
        ipc_handler: false,
        scheme_functions: 0,
        webview_id: 1,
    }
}

fn double(value: f64) -> Double {
    Double { bits: value.to_bits() }
}

fn single(value: f32) -> Single {
    Single { bits: value.to_bits() }
}

fn evaluate(length: Length) -> f64 {
    match length {
        Length::Whole(n) => n as f64,
        Length::Double(d) => f64::from_bits(d.bits),
    }
}

fn subtract(difference: Difference) -> f64 {
    evaluate(difference.whole) - evaluate(difference.first) - evaluate(difference.second)
}

fn field(name: &str, value: &str) -> HeaderField {
    HeaderField { name: name.to_string(), value: value.to_string() }
}

#[test]
fn scripts_wait_in_order_until_the_first_page_has_loaded() {
    let mut view = webview(Platform::MacOs, false);
    assert!(matches!(view.eval("one", true), Ok(None)));
    assert!(matches!(view.eval("two", false), Ok(None)));
    assert_eq!(view.pending_scripts, Some(vec!["one".to_string(), "two".to_string()]));
    view.pending_scripts = None;
    let command = view.eval("three", true).unwrap();
    let expected = Command::EvaluateJavaScript { source: "three".to_string(), callback: true };
    assert_eq!(command, Some(expected));
    let command = view.eval("four", false).unwrap();
    let expected = Command::EvaluateJavaScript { source: "four".to_string(), callback: false };
    assert_eq!(command, Some(expected));
    assert_eq!(view.pending_scripts, None);
}

#[test]
fn a_script_without_a_result_reports_the_empty_text() {
    assert_eq!(InnerWebView::evaluation_result(Some("{\"a\":1}".to_string())), "{\"a\":1}");
    assert_eq!(InnerWebView::evaluation_result(None), "");
}

#[test]
fn urls_are_read_as_utf8() {
    let view = webview(Platform::MacOs, false);
    assert_eq!(view.url("https://exämple.com/€".as_bytes()).unwrap(), "https://exämple.com/€");
    assert_eq!(url_from_webview(b"").unwrap(), "");
    match view.url(&[b'a', 0xff]) {
        Err(Error::Utf8Error(error)) => {
            assert_eq!(error.valid_up_to(), 1);
            assert_eq!(error.error_len(), Some(1));
        }
        other => panic!("{:?}", other),
    }
    match url_from_webview(&[b'a', b'b', 0xe2, 0x82]) {
        Err(Error::Utf8Error(error)) => {
            assert_eq!(error.valid_up_to(), 2);
            assert_eq!(error.error_len(), None);
        }
        other => panic!("{:?}", other),
    }
}

#[test]
fn requests_carry_headers_as_text() {
    let mut headers = http::HeaderMap::new();
    headers.insert("Accept", http::HeaderValue::from_static("text/html\tx ~"));
    headers.insert("x-raw", http::HeaderValue::from_bytes(&[b'a', 0xfa]).unwrap());
    headers.append("accept", http::HeaderValue::from_static("*/*"));
    let expected =
        vec![field("accept", "text/html\tx ~"), field("accept", "*/*"), field("x-raw", "")];
    assert_eq!(header_fields(&headers), expected);
    let view = webview(Platform::Ios, false);
    let command = view.load_url_with_headers("https://a.b", headers).unwrap();
    assert_eq!(
        command,
        Command::LoadRequest { url: "https://a.b".to_string(), headers: expected }
    );
}

#[test]
fn a_request_without_headers_is_one_with_an_empty_map() {
    let view = webview(Platform::MacOs, false);
    let without = view.load_url("https://a.b").unwrap();
    let with = view.load_url_with_headers("https://a.b", http::HeaderMap::new()).unwrap();
    assert_eq!(without, with);
    let expected = Command::LoadRequest { url: "https://a.b".to_string(), headers: Vec::new() };
    assert_eq!(without, expected);
}

#[test]
fn values_that_are_not_text_are_sent_empty() {
    let readings = vec![
        ("a".to_string(), Some("1".to_string())),
        ("b".to_string(), None),
    ];
    assert_eq!(request_fields(readings), vec![field("a", "1"), field("b", "")]);
}

#[test]
fn printing_sets_the_margins_and_runs() {
    let view = webview(Platform::MacOs, false);
    let margins = PrintMargin {
        top: single(1.5),
        right: single(2.0),
        bottom: single(3.25),
        left: single(-4.0),
    };
    let options = PrintOptions { margins };
    let print = |can| view.print_with_options(&options, can).unwrap();
    assert_eq!(print(None), Step::Ask(Query::KnowsPrint));
    assert_eq!(print(Some(false)), Step::Finish(Vec::new()));
    assert_eq!(
        print(Some(true)),
        Step::Finish(vec![
            Command::SetPrintMargin { side: Margin::Top, size: single(1.5) },
            Command::SetPrintMargin { side: Margin::Right, size: single(2.0) },
            Command::SetPrintMargin { side: Margin::Bottom, size: single(3.25) },
            Command::SetPrintMargin { side: Margin::Left, size: single(-4.0) },
            Command::CreatePrintOperation,
            Command::SetPrintSpawnsThread(true),
            Command::RunPrintOperation,
        ])
    );
    let ios = webview(Platform::Ios, false);
    assert_eq!(ios.print(None).unwrap(), Step::Finish(Vec::new()));
}

#[test]
fn printing_without_options_has_no_margins() {
    let view = webview(Platform::MacOs, false);
    assert_eq!(PrintOptions::default().margins.left, single(0.0));
    assert_eq!(PrintMargin::default().top, single(f32::default()));
    assert_eq!(
        view.print(Some(true)).unwrap(),
        view.print_with_options(&PrintOptions::default(), Some(true)).unwrap()
    );
}

#[test]
fn only_the_mac_has_an_inspector() {
    let mac = webview(Platform::MacOs, false);
    assert_eq!(mac.open_devtools(), Some(Command::ShowInspector));
    assert_eq!(mac.close_devtools(), Some(Command::CloseInspector));
    assert_eq!(mac.is_devtools_open(None), Step::Ask(Query::InspectorVisible));
    assert_eq!(mac.is_devtools_open(Some(true)), Step::Finish(true));
    assert_eq!(mac.is_devtools_open(Some(false)), Step::Finish(false));
    let ios = webview(Platform::Ios, false);
    assert_eq!(ios.open_devtools(), None);
    assert_eq!(ios.close_devtools(), None);
    assert_eq!(ios.is_devtools_open(None), Step::Finish(false));
    assert_eq!(ios.is_devtools_open(Some(true)), Step::Finish(false));
}

#[test]
fn small_requests_become_one_command() {
    let view = webview(Platform::MacOs, true);
    assert_eq!(view.zoom(double(1.25)).unwrap(), Command::SetPageZoom(double(1.25)));
    assert_eq!(view.set_background_color((1, 2, 3, 4)).unwrap(), None);
    assert_eq!(view.set_visible(true).unwrap(), Command::SetHidden(false));
    assert_eq!(view.set_visible(false).unwrap(), Command::SetHidden(true));
    assert_eq!(view.focus().unwrap(), Command::MakeFirstResponder);
    assert_eq!(view.reparent().unwrap(), Command::AddToContentView);
    let cleared = view.clear_all_browsing_data().unwrap();
    assert_eq!(cleared, Command::RemoveWebsiteData { modified_since: 0 });
}

#[test]
fn only_a_child_on_the_mac_is_moved() {
    let wanted =
        Placement { x: 10, y: 20, width: 300, height: 200, parent_height: double(600.0) };
    for view in
        [webview(Platform::MacOs, false), webview(Platform::Ios, true), webview(Platform::Ios, false)]
    {
        assert_eq!(view.set_bounds(None).unwrap(), Step::Finish(None));
        assert_eq!(view.set_bounds(Some(wanted)).unwrap(), Step::Finish(None));
    }
    let child = webview(Platform::MacOs, true);
    assert_eq!(child.set_bounds(None).unwrap(), Step::Ask(Query::Placement));
    let origin = FlippedPoint {
        x: Length::Whole(10),
        y: Difference {
            whole: Length::Double(double(600.0)),
            first: Length::Whole(20),
            second: Length::Whole(200),
        },
    };
    assert_eq!(subtract(origin.y), 380.0);
    let frame = Frame { origin: Origin::Flipped(origin), width: 300, height: 200 };
    assert_eq!(
        child.set_bounds(Some(wanted)).unwrap(),
        Step::Finish(Some(Command::SetFrame(frame)))
    );
}

#[test]
fn bounds_are_as_they_were_set() {
    let child = webview(Platform::MacOs, true);
    let wanted =
        Placement { x: 10, y: 20, width: 300, height: 200, parent_height: double(600.5) };
    let frame = match child.set_bounds(Some(wanted)).unwrap() {
        Step::Finish(Some(Command::SetFrame(frame))) => frame,
        other => panic!("{:?}", other),
    };
    let origin = match frame.origin {
        Origin::Flipped(origin) => origin,
        other => panic!("{:?}", other),
    };
    let view = ViewFrame {
        x: double(evaluate(origin.x)),
        y: double(subtract(origin.y)),
        width: double(frame.width as f64),
        height: double(frame.height as f64),
    };
    let parent = ViewFrame {
        x: double(0.0),
        y: double(0.0),
        width: double(800.0),
        height: double(600.5),
    };
    let bounds = child.bounds(parent, view).unwrap();
    assert_eq!(evaluate(bounds.position.x), 10.0);
    assert_eq!(subtract(bounds.position.y), 20.0);
    assert_eq!(bounds.width, double(300.0));
    assert_eq!(bounds.height, double(200.0));
}

#[test]
fn a_web_view_without_handlers_just_leaves() {
    let mut view = webview(Platform::Ios, false);
    let mut ids = WebViewIds::new();
    let told = view.teardown(&mut ids);
    assert_eq!(
        told,
        vec![
            Command::RemoveFromSuperview,
            Command::RetainWebView,
            Command::RetainUserContentController,
        ]
    );
    assert!(!ids.contains(1));
}
