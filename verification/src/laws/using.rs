//! What a web view that has been made does, in terms of what it is asked and of what it was.

use crate::attributes::Platform;
use crate::command::{Command, CommandView, Margin, Query, Step};
use crate::geometry::{
    Difference, Double, FlippedPoint, Length, Origin, Placement, Single, ViewFrame,
};
use crate::headers::HeaderField;
use crate::print::PrintOptions;
use crate::webview::InnerWebView;
use crate::window::WindowSystem;
use http::header::HeaderValue;
use http::HeaderMap;
use vstd::prelude::*;

verus! {

/// A child on macOS is given a frame whose bottom-left corner is where it was wanted, seen from the
/// bottom of its parent: as far to the right, and as high as the parent's height leaves below the
/// wanted distance from the top and the web view's own height. Its size is the wanted one.
pub proof fn lemma_placed_from_bottom(wanted: Placement, read: spec_fn(Double) -> int)
    ensures
        ({
            let frame = crate::webview::placed_frame(wanted);
            &&& frame.origin.place(read) == (
                wanted.x as int,
                read(wanted.parent_height) - wanted.y - wanted.height,
            )
            &&& frame.origin == Origin::Flipped(
                FlippedPoint {
                    x: Length::Whole(wanted.x as i64),
                    y: Difference {
                        whole: Length::Double(wanted.parent_height),
                        first: Length::Whole(wanted.y as i64),
                        second: Length::Whole(wanted.height as i64),
                    },
                },
            )
            &&& frame.width == wanted.width
            &&& frame.height == wanted.height
        }),
{
}

/// The bounds of a web view are counted from the top of its parent: what the parent's height leaves
/// above the web view's bottom edge and its height.
pub proof fn lemma_bounds_from_top(
    parent: ViewFrame,
    view: ViewFrame,
    read: spec_fn(Double) -> int,
)
    ensures
        ({
            let bounds = crate::geometry::bounds_of(parent, view);
            &&& bounds.position.x.value(read) == read(view.x)
            &&& bounds.position.y.value(read) == read(parent.height) - read(view.y) - read(
                view.height,
            )
            &&& bounds.position == FlippedPoint {
                x: Length::Double(view.x),
                y: Difference {
                    whole: Length::Double(parent.height),
                    first: Length::Double(view.y),
                    second: Length::Double(view.height),
                },
            }
            &&& bounds.width == view.width
            &&& bounds.height == view.height
        }),
{
}

/// A web view that is wanted further down is given a frame that is lower by just as much.
pub proof fn lemma_lower_by_as_much(
    wanted: Placement,
    other: Placement,
    read: spec_fn(Double) -> int,
)
    requires
        wanted.parent_height == other.parent_height,
        wanted.height == other.height,
    ensures
        crate::webview::placed_frame(wanted).origin.place(read).1 - crate::webview::placed_frame(
            other,
        ).origin.place(read).1 == other.y - wanted.y,
{
}

/// The size that options give to a margin.
pub open spec fn size_of(options: PrintOptions, side: Margin) -> Single {
    match side {
        Margin::Top => options.margins.top,
        Margin::Right => options.margins.right,
        Margin::Bottom => options.margins.bottom,
        Margin::Left => options.margins.left,
    }
}

/// Commands that print a page: each of the four margins is set once, to the size that is given for
/// it, and then the print operation is made, let off the current thread, and run.
pub open spec fn prints(commands: Seq<CommandView>, options: PrintOptions) -> bool {
    &&& commands.len() == 7
    &&& forall|i: int| 0 <= i < 4 ==> #[trigger] commands[i] is SetPrintMargin
    &&& forall|side: Margin|
        exists|i: int|
            0 <= i < 4 && #[trigger] commands[i] == (CommandView::SetPrintMargin {
                side,
                size: #[trigger] size_of(options, side),
            })
    &&& commands[4] == CommandView::CreatePrintOperation
    &&& commands[5] == CommandView::SetPrintSpawnsThread(true)
    &&& commands[6] == CommandView::RunPrintOperation
}

proof fn lemma_prints(options: PrintOptions)
    ensures
        prints(crate::print::printing(options), options),
{
    let commands = crate::print::printing(options);
    assert forall|side: Margin|
        exists|i: int|
            0 <= i < 4 && #[trigger] commands[i] == (CommandView::SetPrintMargin {
                side,
                size: #[trigger] size_of(options, side),
            }) by {
        let at: int = match side {
            Margin::Top => 0,
            Margin::Right => 1,
            Margin::Bottom => 2,
            Margin::Left => 3,
        };
        assert(commands[at] == (CommandView::SetPrintMargin {
            side,
            size: size_of(options, side),
        }));
    }
}

/// Whatever the margins, a web view on macOS that knows how to print does print; it is asked first
/// whether it knows, and prints nothing if it does not. Nothing is printed on iOS.
pub proof fn lemma_printed_as_asked(options: PrintOptions, can_print: Option<bool>)
    ensures
        crate::webview::print_step(Platform::MacOs, options, Some(true)) matches Step::Finish(
            commands,
        ) && prints(commands, options),
        crate::webview::print_step(Platform::MacOs, options, None) == Step::<Seq<CommandView>>::Ask(
            Query::KnowsPrint,
        ),
        crate::webview::print_step(Platform::MacOs, options, Some(false)) matches Step::Finish(
            commands,
        ) && commands.len() == 0,
        crate::webview::print_step(Platform::Ios, options, can_print) matches Step::Finish(commands)
            && commands.len() == 0,
{
    lemma_prints(options);
}

/// Without options, all four margins are zero.
pub proof fn lemma_no_margins(side: Margin)
    ensures
        size_of(PrintOptions { margins: crate::print::no_margins() }, side).bits == 0,
{
}

/// What ends a conversation about printing is the commands in their order, each as its model.
pub proof fn lemma_told(step: Step<Vec<Command>>)
    ensures
        step matches Step::Ask(query) ==> crate::webview::told(step) == Step::<
            Seq<CommandView>,
        >::Ask(query),
        step matches Step::Finish(commands) ==> {
            &&& crate::webview::told(step) matches Step::Finish(models)
            &&& models.len() == commands@.len()
            &&& forall|i: int| 0 <= i < models.len() ==> #[trigger] models[i] == commands@[i]@
        },
{
}

/// Header values that can be read hold visible characters, spaces and tabs only; the text then has
/// a character for each byte. Any other value is sent empty.
pub proof fn lemma_field_texts(entries: Seq<(Seq<char>, Seq<u8>)>, at: int)
    requires
        0 <= at < entries.len(),
    ensures
        ({
            let bytes = entries[at].1;
            let (name, text) = crate::headers::fields(entries)[at];
            &&& name == entries[at].0
            &&& (forall|i: int|
                0 <= i < bytes.len() ==> #[trigger] bytes[i] == 9 || 32 <= bytes[i] <= 126) ==> {
                &&& text.len() == bytes.len()
                &&& forall|i: int| 0 <= i < bytes.len() ==> #[trigger] text[i] == bytes[i] as char
            }
            &&& (exists|i: int|
                0 <= i < bytes.len() && #[trigger] bytes[i] != 9 && !(32 <= bytes[i] <= 126))
                ==> text.len() == 0
        }),
{
    let bytes = entries[at].1;
    if exists|i: int| 0 <= i < bytes.len() && #[trigger] bytes[i] != 9 && !(32 <= bytes[i] <= 126) {
        let i = choose|i: int|
            0 <= i < bytes.len() && #[trigger] bytes[i] != 9 && !(32 <= bytes[i] <= 126);
        assert(!crate::headers::is_visible(bytes[i]));
    }
}

/// A header field is its name and its value.
pub proof fn lemma_field_view(field: HeaderField)
    ensures
        field@ == (field.name@, field.value@),
{
}

/// A request goes to the address that it was made for, and carries one field for each entry of the
/// caller's headers, and none without them.
pub proof fn lemma_requested_as_asked(url: Seq<char>, headers: HeaderMap<HeaderValue>)
    ensures
        crate::webview::request(url, None) matches CommandView::LoadRequest {
            url: address,
            headers: sent,
        } && address == url && sent.len() == 0,
        crate::webview::request(url, Some(headers)) matches CommandView::LoadRequest {
            url: address,
            headers: sent,
        } && address == url && sent == crate::headers::fields(
            crate::headers::header_entries(headers),
        ) && sent.len() == crate::headers::header_entries(headers).len(),
{
}

/// A web view on macOS needs a window of AppKit, and one on iOS a window of UIKit; no other window
/// can host it.
pub proof fn lemma_window_systems(system: WindowSystem)
    ensures
        crate::window::can_host(Platform::MacOs, system) <==> system == WindowSystem::AppKit,
        crate::window::can_host(Platform::Ios, system) <==> system == WindowSystem::UiKit,
{
}

/// A web view is taken apart in this order: its message handler is taken back, if there is one; the
/// function of each custom protocol is freed; and the web view leaves its window.
pub proof fn lemma_taken_apart_in_order(webview: InnerWebView, index: int)
    requires
        0 <= index < webview.scheme_functions,
    ensures
        ({
            let told = crate::webview::teardown_commands(webview);
            let first: int = if webview.ipc_handler {
                1
            } else {
                0
            };
            &&& webview.ipc_handler ==> told[0] == CommandView::RemoveIpcHandler
            &&& told[first + index] == (CommandView::FreeSchemeFunction { index })
        }),
{
    let ipc = crate::command::when(webview.ipc_handler, CommandView::RemoveIpcHandler);
    let free = crate::webview::freeing(webview.scheme_functions as nat);
    let told = crate::webview::teardown_commands(webview);
    assert(told[ipc.len() + index] == free[index]);
}

/// The last things that are done with a web view: it leaves its window, and it and its user content
/// controller are retained. Nothing else is done but to give up what its caller gave it, and that
/// alone is forgotten.
pub proof fn lemma_left_at_last(webview: InnerWebView)
    ensures
        ({
            let told = crate::webview::teardown_commands(webview);
            let first: int = if webview.ipc_handler {
                1
            } else {
                0
            };
            let count = webview.scheme_functions as int;
            &&& told.len() == first + count + 3
            &&& told[first + count] == CommandView::RemoveFromSuperview
            &&& told[first + count + 1] == CommandView::RetainWebView
            &&& told[first + count + 2] == CommandView::RetainUserContentController
        }),
        ({
            let left = crate::webview::taken_apart(webview);
            &&& !left.ipc_handler
            &&& left.scheme_functions == 0
            &&& left.platform == webview.platform
            &&& left.is_child == webview.is_child
            &&& left.pending_scripts == webview.pending_scripts
            &&& left.webview_id == webview.webview_id
        }),
{
}

/// A script that is given while others wait is the last of them, and changes none; once none has to
/// wait, none ever waits again.
pub proof fn lemma_queued_last(before: Option<Seq<Seq<char>>>, js: Seq<char>)
    ensures
        before matches Some(list) ==> {
            &&& crate::webview::queued(before, js) matches Some(after)
            &&& after.len() == list.len() + 1
            &&& after.last() == js
            &&& forall|i: int| 0 <= i < list.len() ==> #[trigger] after[i] == list[i]
        },
        before is None ==> crate::webview::queued(before, js) is None,
{
}

/// The texts that wait are those of the scripts that were queued, one by one.
pub proof fn lemma_waiting_texts(scripts: Option<Vec<String>>)
    ensures
        scripts matches Some(list) ==> {
            &&& crate::webview::waiting(scripts) matches Some(texts)
            &&& texts.len() == list@.len()
            &&& forall|i: int| 0 <= i < texts.len() ==> #[trigger] texts[i] == list@[i]@
        },
        scripts is None ==> crate::webview::waiting(scripts) is None,
{
}

/// A list of commands is read command by command, in its order, and a command under a condition is
/// given just when the condition holds.
pub proof fn lemma_lists_of_commands(
    commands: Seq<Command>,
    condition: bool,
    command: CommandView,
)
    ensures
        crate::command::views(commands).len() == commands.len(),
        forall|i: int|
            0 <= i < commands.len() ==> #[trigger] crate::command::views(commands)[i]
                == commands[i]@,
        condition ==> crate::command::when(condition, command) == seq![command],
        !condition ==> crate::command::when(condition, command).len() == 0,
{
}

/// The model of a command is the same command with the same content.
pub proof fn lemma_command_view(command: Command)
    ensures
        match command {
            Command::NewConfiguration => command@ == CommandView::NewConfiguration,
            Command::OpenDataStore(value) => command@ == CommandView::OpenDataStore(value),
            Command::CreateSchemeHandler { index, name } => command@ == (CommandView::CreateSchemeHandler {
                index: index as int,
                name: name@,
            }),
            Command::BindSchemeFunction { index } => command@ == (CommandView::BindSchemeFunction {
                index: index as int,
            }),
            Command::BindSchemeWebView { index, webview_id } => command@ == (CommandView::BindSchemeWebView {
                index: index as int,
                webview_id,
            }),
            Command::OpenUserContentController => command@ == CommandView::OpenUserContentController,
            Command::AllocateWebView { is_child, mouse } => command@ == (CommandView::AllocateWebView {
                is_child,
                mouse,
            }),
            Command::AttachDataStore => command@ == CommandView::AttachDataStore,
            Command::SetProxy(value) => command@ == CommandView::SetProxy(value),
            Command::SetPreference { key, value } => command@ == (CommandView::SetPreference {
                key: key@,
                value,
            }),
            Command::SetConfiguration { key, value } => command@ == (CommandView::SetConfiguration {
                key: key@,
                value,
            }),
            Command::AllowAutoplay => command@ == CommandView::AllowAutoplay,
            Command::InitWithFrame(value) => command@ == CommandView::InitWithFrame(value),
            Command::InitWithParentFrame => command@ == CommandView::InitWithParentFrame,
            Command::SetAutoresizing(value) => command@ == CommandView::SetAutoresizing(value),
            Command::SetBackForwardGestures(value) => command@ == CommandView::SetBackForwardGestures(value),
            Command::SetScrollBounce(value) => command@ == CommandView::SetScrollBounce(value),
            Command::SetHidden(value) => command@ == CommandView::SetHidden(value),
            Command::SetInspectable(value) => command@ == CommandView::SetInspectable(value),
            Command::CreateIpcHandler => command@ == CommandView::CreateIpcHandler,
            Command::CreateTitleObserver => command@ == CommandView::CreateTitleObserver,
            Command::CreateDownloadDelegate { started, completed } => command@ == (CommandView::CreateDownloadDelegate {
                started,
                completed,
            }),
            Command::CreateNavigationDelegate {
                has_download_handler,
                navigation_handler,
                new_window_req_handler,
                download_delegate,
                on_page_load_handler,
            } => command@ == (CommandView::CreateNavigationDelegate {
                has_download_handler,
                navigation_handler,
                new_window_req_handler,
                download_delegate,
                on_page_load_handler,
            }),
            Command::SetNavigationDelegate => command@ == CommandView::SetNavigationDelegate,
            Command::CreateUiDelegate => command@ == CommandView::CreateUiDelegate,
            Command::SetUiDelegate => command@ == CommandView::SetUiDelegate,
            Command::HideTitlebarSeparator => command@ == CommandView::HideTitlebarSeparator,
            Command::AddUserScript { source, at_document_start, main_frame_only } => command@ == (CommandView::AddUserScript {
                source: source@,
                at_document_start,
                main_frame_only,
            }),
            Command::SetUserAgent(text) => command@ == CommandView::SetUserAgent(text@),
            Command::LoadRequest { url, headers } => command@ == (CommandView::LoadRequest {
                url: url@,
                headers: headers@.map_values(|f: HeaderField| f@),
            }),
            Command::LoadHtml(text) => command@ == CommandView::LoadHtml(text@),
            Command::AddToView => command@ == CommandView::AddToView,
            Command::CreateParentView => command@ == CommandView::CreateParentView,
            Command::SetParentAutoresizing(value) => command@ == CommandView::SetParentAutoresizing(value),
            Command::AddToParentView => command@ == CommandView::AddToParentView,
            Command::SetContentView => command@ == CommandView::SetContentView,
            Command::MakeFirstResponder => command@ == CommandView::MakeFirstResponder,
            Command::ActivateApplication => command@ == CommandView::ActivateApplication,
            Command::EvaluateJavaScript { source, callback } => command@ == (CommandView::EvaluateJavaScript {
                source: source@,
                callback,
            }),
            Command::RemoveWebsiteData { modified_since } => command@ == (CommandView::RemoveWebsiteData {
                modified_since,
            }),
            Command::SetPrintMargin { side, size } => command@ == (CommandView::SetPrintMargin { side, size }),
            Command::CreatePrintOperation => command@ == CommandView::CreatePrintOperation,
            Command::SetPrintSpawnsThread(value) => command@ == CommandView::SetPrintSpawnsThread(value),
            Command::RunPrintOperation => command@ == CommandView::RunPrintOperation,
            Command::ShowInspector => command@ == CommandView::ShowInspector,
            Command::CloseInspector => command@ == CommandView::CloseInspector,
            Command::SetPageZoom(value) => command@ == CommandView::SetPageZoom(value),
            Command::SetFrame(value) => command@ == CommandView::SetFrame(value),
            Command::AddToContentView => command@ == CommandView::AddToContentView,
            Command::RemoveIpcHandler => command@ == CommandView::RemoveIpcHandler,
            Command::FreeSchemeFunction { index } => command@ == (CommandView::FreeSchemeFunction {
                index: index as int,
            }),
            Command::RemoveFromSuperview => command@ == CommandView::RemoveFromSuperview,
            Command::RetainWebView => command@ == CommandView::RetainWebView,
            Command::RetainUserContentController => command@ == CommandView::RetainUserContentController,
        },
{
}

} // verus!
