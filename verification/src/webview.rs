//! A web view that has been made.

use crate::attributes::Platform;
use crate::command::{no_commands, tell, tell_when, Command, CommandView, Query, Step};
use crate::error::Error;
use crate::geometry::{
    bounds_in_parent, window_position, Double, Frame, Origin, Placement, Rect, ViewFrame,
};
use crate::headers::{header_fields, HeaderField};
use crate::print::{print_commands, PrintOptions};
use crate::registry::WebViewIds;
use crate::url::url_from_webview;
use http::header::HeaderValue;
use http::HeaderMap;
use vstd::prelude::*;

verus! {

/// What a web view remembers between calls.
#[derive(Debug)]
pub struct InnerWebView {
    pub platform: Platform,
    /// The web view is one view among others of its window, and not the window's whole content.
    pub is_child: bool,
    /// Scripts that wait for the first page to load; `None` once it has loaded.
    pub pending_scripts: Option<Vec<String>>,
    /// The user content controller holds a message handler of the caller.
    pub ipc_handler: bool,
    /// How many functions of the caller are kept for custom protocols.
    pub scheme_functions: usize,
    pub webview_id: u32,
}

/// The texts of the scripts that wait.
pub open spec fn waiting(scripts: Option<Vec<String>>) -> Option<Seq<Seq<char>>> {
    match scripts {
        Some(list) => Some(list@.map_values(|s: String| s@)),
        None => None,
    }
}

/// The scripts that wait once another was given: it joins them as long as there is a queue.
pub open spec fn queued(before: Option<Seq<Seq<char>>>, js: Seq<char>) -> Option<Seq<Seq<char>>> {
    match before {
        Some(list) => Some(list.push(js)),
        None => None,
    }
}

/// A request for a page, with these headers where there are any.
pub open spec fn request(
    url: Seq<char>,
    headers: Option<HeaderMap<HeaderValue>>,
) -> CommandView {
    CommandView::LoadRequest {
        url,
        headers: match headers {
            Some(map) => crate::headers::fields(crate::headers::header_entries(map)),
            None => Seq::empty(),
        },
    }
}

/// A script for every document, run before anything else in it and in its main frame only.
pub open spec fn user_script(source: Seq<char>) -> CommandView {
    CommandView::AddUserScript { source, at_document_start: true, main_frame_only: true }
}

/// Freeing the functions of the first `n` custom protocols.
pub open spec fn freeing(n: nat) -> Seq<CommandView> {
    Seq::new(n, |i: int| CommandView::FreeSchemeFunction { index: i })
}

/// What takes a web view apart.
pub open spec fn teardown_commands(webview: InnerWebView) -> Seq<CommandView> {
    crate::command::when(webview.ipc_handler, CommandView::RemoveIpcHandler) + freeing(
        webview.scheme_functions as nat,
    ) + seq![
        CommandView::RemoveFromSuperview,
        CommandView::RetainWebView,
        CommandView::RetainUserContentController,
    ]
}

/// What is left of a web view that was taken apart: it holds no function of its caller any more.
pub open spec fn taken_apart(webview: InnerWebView) -> InnerWebView {
    InnerWebView { ipc_handler: false, scheme_functions: 0, ..webview }
}

/// The frame that puts a web view where it is wanted.
pub open spec fn placed_frame(placement: Placement) -> Frame {
    Frame {
        origin: Origin::Flipped(
            crate::geometry::flipped(
                placement.parent_height,
                placement.x,
                placement.y,
                placement.height as i64,
            ),
        ),
        width: placement.width as i64,
        height: placement.height as i64,
    }
}

impl InnerWebView {
    /// The address of the current page, out of the bytes that the platform holds it in.
    pub fn url(&self, absolute_url: &[u8]) -> (r: Result<String, Error>)
        ensures
            vstd::utf8::valid_utf8(absolute_url@) ==> (r matches Ok(url) && url@
                == vstd::utf8::decode_utf8(absolute_url@)),
            !vstd::utf8::valid_utf8(absolute_url@) ==> r == Err::<String, Error>(
                Error::Utf8Error(crate::url::utf8_error(absolute_url@)),
            ),
    {
        url_from_webview(absolute_url)
    }

    /// Runs a script. As long as the first page has not loaded, the script waits behind those that
    /// came before it, and nobody is told its result.
    pub fn eval(&mut self, js: &str, callback: bool) -> (r: Result<Option<Command>, Error>)
        ensures
            r is Ok,
            waiting(final(self).pending_scripts) == queued(waiting(old(self).pending_scripts), js@),
            old(self).pending_scripts is Some ==> r->Ok_0 is None,
            old(self).pending_scripts is None ==> {
                &&& r->Ok_0 matches Some(command)
                &&& command@ == (CommandView::EvaluateJavaScript { source: js@, callback })
            },
            final(self).platform == old(self).platform,
            final(self).is_child == old(self).is_child,
            final(self).ipc_handler == old(self).ipc_handler,
            final(self).scheme_functions == old(self).scheme_functions,
            final(self).webview_id == old(self).webview_id,
    {
        match &mut self.pending_scripts {
            Some(scripts) => {
                let ghost before = scripts@;
                scripts.push(js.to_owned());
                assert(scripts@.map_values(|s: String| s@) =~= before.map_values(
                    |s: String| s@,
                ).push(js@));
                Ok(None)
            },
            None => Ok(Some(Command::EvaluateJavaScript { source: js.to_owned(), callback })),
        }
    }

    /// What a script's caller is told: the result as JSON, or the empty text if there is none.
    pub fn evaluation_result(json: Option<String>) -> (r: String)
        ensures
            json matches Some(text) ==> r@ == text@,
            json is None ==> r@ == Seq::<char>::empty(),
    {
        match json {
            Some(text) => text,
            None => String::new(),
        }
    }

    /// Adds a script to every document.
    pub(crate) fn init(&self, js: &str) -> (r: Command)
        ensures
            r@ == user_script(js@),
            r@ == (CommandView::AddUserScript {
                source: js@,
                at_document_start: true,
                main_frame_only: true,
            }),
    {
        Command::AddUserScript {
            source: js.to_owned(),
            at_document_start: true,
            main_frame_only: true,
        }
    }

    /// Opens a page.
    pub fn load_url(&self, url: &str) -> (r: Result<Command, Error>)
        ensures
            r matches Ok(command) && command@ == request(url@, None),
    {
        self.navigate_to_url(url, &None)
    }

    /// Opens a page, with headers of the caller in the request.
    pub fn load_url_with_headers(&self, url: &str, headers: HeaderMap<HeaderValue>) -> (r: Result<
        Command,
        Error,
    >)
        ensures
            r matches Ok(command) && command@ == request(url@, Some(headers)),
    {
        self.navigate_to_url(url, &Some(headers))
    }

    /// Removes all that pages have stored.
    pub fn clear_all_browsing_data(&self) -> (r: Result<Command, Error>)
        ensures
            r matches Ok(command) && command@ == (CommandView::RemoveWebsiteData {
                modified_since: 0,
            }),
    {
        Ok(Command::RemoveWebsiteData { modified_since: 0 })
    }

    /// Requests a page.
    pub(crate) fn navigate_to_url(
        &self,
        url: &str,
        headers: &Option<HeaderMap<HeaderValue>>,
    ) -> (r: Result<Command, Error>)
        ensures
            r matches Ok(command) && command@ == request(url@, *headers),
    {
        let fields: Vec<HeaderField> = match headers {
            Some(map) => header_fields(map),
            None => Vec::new(),
        };
        let command = Command::LoadRequest { url: url.to_owned(), headers: fields };
        assert(command@->LoadRequest_headers =~= request(url@, *headers)->LoadRequest_headers);
        Ok(command)
    }

    /// Shows a page whose text is given.
    pub(crate) fn navigate_to_string(&self, html: &str) -> (r: Command)
        ensures
            r@ == CommandView::LoadHtml(html@),
    {
        Command::LoadHtml(html.to_owned())
    }

    /// Sets what the web view calls itself in requests.
    pub(crate) fn set_user_agent(&self, user_agent: &str) -> (r: Command)
        ensures
            r@ == CommandView::SetUserAgent(user_agent@),
    {
        Command::SetUserAgent(user_agent.to_owned())
    }

    /// Prints the page without margins.
    pub fn print(&self, can_print: Option<bool>) -> (r: Result<Step<Vec<Command>>, Error>)
        ensures
            r is Ok,
            told(r->Ok_0) == print_step(
                self.platform,
                PrintOptions { margins: crate::print::no_margins() },
                can_print,
            ),
            self.platform is MacOs && can_print == Some(true) ==> (r matches Ok(
                Step::Finish(commands),
            ) && crate::laws::using::prints(
                crate::command::views(commands@),
                PrintOptions {
                    margins: crate::print::PrintMargin {
                        top: crate::geometry::Single { bits: 0 },
                        right: crate::geometry::Single { bits: 0 },
                        bottom: crate::geometry::Single { bits: 0 },
                        left: crate::geometry::Single { bits: 0 },
                    },
                },
            )),
    {
        self.print_with_options(&PrintOptions::default(), can_print)
    }

    /// Prints the page. `can_print` is the answer to [`Query::KnowsPrint`], once it is known.
    pub fn print_with_options(&self, options: &PrintOptions, can_print: Option<bool>) -> (r: Result<
        Step<Vec<Command>>,
        Error,
    >)
        ensures
            r is Ok,
            told(r->Ok_0) == print_step(self.platform, *options, can_print),
            self.platform is MacOs && can_print == Some(true) ==> (r matches Ok(
                Step::Finish(commands),
            ) && crate::laws::using::prints(crate::command::views(commands@), *options)),
    {
        proof {
            crate::laws::using::lemma_printed_as_asked(*options, can_print);
        }
        let step = match self.platform {
            Platform::MacOs => match can_print {
                None => Step::Ask(Query::KnowsPrint),
                Some(true) => Step::Finish(print_commands(options)),
                Some(false) => Step::Finish(no_commands()),
            },
            Platform::Ios => Step::Finish(no_commands()),
        };
        Ok(step)
    }

    /// Shows the inspector, where there is one.
    pub fn open_devtools(&self) -> (r: Option<Command>)
        ensures
            self.platform is MacOs ==> (r matches Some(command) && command@
                == CommandView::ShowInspector),
            self.platform is Ios ==> r is None,
    {
        match self.platform {
            Platform::MacOs => Some(Command::ShowInspector),
            Platform::Ios => None,
        }
    }

    /// Hides the inspector, where there is one.
    pub fn close_devtools(&self) -> (r: Option<Command>)
        ensures
            self.platform is MacOs ==> (r matches Some(command) && command@
                == CommandView::CloseInspector),
            self.platform is Ios ==> r is None,
    {
        match self.platform {
            Platform::MacOs => Some(Command::CloseInspector),
            Platform::Ios => None,
        }
    }

    /// Whether the inspector is open. `visible` is the answer to [`Query::InspectorVisible`], once
    /// it is known; where there is no inspector, it is never open.
    pub fn is_devtools_open(&self, visible: Option<bool>) -> (r: Step<bool>)
        ensures
            r == (match (self.platform, visible) {
                (Platform::MacOs, None) => Step::Ask(Query::InspectorVisible),
                (Platform::MacOs, Some(open)) => Step::Finish(open),
                (Platform::Ios, _) => Step::Finish(false),
            }),
    {
        match self.platform {
            Platform::MacOs => match visible {
                None => Step::Ask(Query::InspectorVisible),
                Some(open) => Step::Finish(open),
            },
            Platform::Ios => Step::Finish(false),
        }
    }

    /// Scales the page.
    pub fn zoom(&self, scale_factor: Double) -> (r: Result<Command, Error>)
        ensures
            r matches Ok(command) && command@ == CommandView::SetPageZoom(scale_factor),
    {
        Ok(Command::SetPageZoom(scale_factor))
    }

    /// Leaves the background as it is: WebKit draws it.
    pub fn set_background_color(&self, _background_color: (u8, u8, u8, u8)) -> (r: Result<
        Option<Command>,
        Error,
    >)
        ensures
            r == Ok::<Option<Command>, Error>(None),
    {
        Ok(None)
    }

    /// Where the web view stands in its parent, given the frames of both.
    pub fn bounds(&self, parent: ViewFrame, view: ViewFrame) -> (r: Result<Rect, Error>)
        ensures
            r == Ok::<Rect, Error>(crate::geometry::bounds_of(parent, view)),
    {
        Ok(bounds_in_parent(parent, view))
    }

    /// Moves and resizes the web view, if it is a child of its window on macOS: any other follows
    /// the size of its parent. `placement` is the answer to [`Query::Placement`], once it is known.
    pub fn set_bounds(&self, placement: Option<Placement>) -> (r: Result<
        Step<Option<Command>>,
        Error,
    >)
        ensures
            r is Ok,
            !(self.platform is MacOs && self.is_child) ==> r->Ok_0 == Step::Finish(
                None::<Command>,
            ),
            self.platform is MacOs && self.is_child ==> match placement {
                None => r->Ok_0 == Step::<Option<Command>>::Ask(Query::Placement),
                Some(wanted) => {
                    &&& r->Ok_0 matches Step::Finish(Some(command))
                    &&& command@ == CommandView::SetFrame(placed_frame(wanted))
                    &&& forall|read: spec_fn(Double) -> int|
                        (#[trigger] placed_frame(wanted).origin.place(read)) == (
                            wanted.x as int,
                            read(wanted.parent_height) - wanted.y - wanted.height,
                        )
                },
            },
    {
        if !self.is_child {
            return Ok(Step::Finish(None));
        }
        let step = match self.platform {
            Platform::MacOs => match placement {
                None => Step::Ask(Query::Placement),
                Some(wanted) => {
                    let height: i64 = wanted.height as i64;
                    let origin = window_position(wanted.parent_height, wanted.x, wanted.y, height);
                    let frame = Frame {
                        origin: Origin::Flipped(origin),
                        width: wanted.width as i64,
                        height,
                    };
                    Step::Finish(Some(Command::SetFrame(frame)))
                },
            },
            Platform::Ios => Step::Finish(None),
        };
        Ok(step)
    }

    /// Shows or hides the web view.
    pub fn set_visible(&self, visible: bool) -> (r: Result<Command, Error>)
        ensures
            r matches Ok(command) && command@ == CommandView::SetHidden(!visible),
    {
        Ok(Command::SetHidden(!visible))
    }

    /// Lets the web view receive its window's keyboard events.
    pub fn focus(&self) -> (r: Result<Command, Error>)
        ensures
            r matches Ok(command) && command@ == CommandView::MakeFirstResponder,
    {
        Ok(Command::MakeFirstResponder)
    }

    /// Moves the web view to another window.
    pub fn reparent(&self) -> (r: Result<Command, Error>)
        ensures
            r matches Ok(command) && command@ == CommandView::AddToContentView,
    {
        Ok(Command::AddToContentView)
    }

    /// Takes the web view apart: it is no longer alive, its message handler is taken back, the
    /// functions for its custom protocols are freed, and it leaves its window. What was taken back
    /// or freed once is not held any more.
    pub fn teardown(&mut self, ids: &mut WebViewIds) -> (r: Vec<Command>)
        ensures
            crate::command::views(r@) == teardown_commands(*old(self)),
            final(ids)@ == old(ids)@.remove(old(self).webview_id),
            *final(self) == taken_apart(*old(self)),
    {
        ids.remove(self.webview_id);
        let mut r = no_commands();
        tell_when(&mut r, self.ipc_handler, Command::RemoveIpcHandler);
        self.ipc_handler = false;
        let ghost start = crate::command::when(old(self).ipc_handler, CommandView::RemoveIpcHandler);
        assert(crate::command::views(r@) =~= start + freeing(0));
        let count: usize = self.scheme_functions;
        self.scheme_functions = 0;
        for index in 0..count
            invariant
                crate::command::views(r@) == start + freeing(index as nat),
        {
            tell(&mut r, Command::FreeSchemeFunction { index });
            assert(crate::command::views(r@) =~= start + freeing((index + 1) as nat));
        }
        tell(&mut r, Command::RemoveFromSuperview);
        tell(&mut r, Command::RetainWebView);
        tell(&mut r, Command::RetainUserContentController);
        assert(crate::command::views(r@) =~= teardown_commands(*old(self)));
        r
    }
}

/// The models of the commands that end a conversation.
pub open spec fn told(step: Step<Vec<Command>>) -> Step<Seq<CommandView>> {
    match step {
        Step::Ask(query) => Step::Ask(query),
        Step::Finish(commands) => Step::Finish(crate::command::views(commands@)),
    }
}

/// How printing goes: only macOS prints, and only where the web view knows how to.
pub open spec fn print_step(
    platform: Platform,
    options: PrintOptions,
    can_print: Option<bool>,
) -> Step<Seq<CommandView>> {
    match (platform, can_print) {
        (Platform::MacOs, None) => Step::Ask(Query::KnowsPrint),
        (Platform::MacOs, Some(true)) => Step::Finish(crate::print::printing(options)),
        _ => Step::Finish(Seq::empty()),
    }
}

} // verus!
