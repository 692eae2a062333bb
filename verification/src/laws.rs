//! What holds of web views as a whole, across their making, their life and their end.

use crate::command::{CommandView, DataStore};
use crate::creation::{Phase, Plan};
use crate::dialogue::Answers;
use crate::geometry::{Double, Placement, ViewFrame};
use crate::webview::InnerWebView;
use http::header::HeaderValue;
use http::HeaderMap;
use vstd::prelude::*;

pub mod making;
pub mod using;

verus! {

/// A kind of command.
pub type Kind = spec_fn(CommandView) -> bool;

/// Scripts for every document.
pub open spec fn user_scripts() -> Kind {
    |c: CommandView| c is AddUserScript
}

/// Names that the web view goes by.
pub open spec fn user_agents() -> Kind {
    |c: CommandView| c is SetUserAgent
}

/// Pages to show.
pub open spec fn pages() -> Kind {
    |c: CommandView| c is LoadRequest || c is LoadHtml
}

/// Data stores to use.
pub open spec fn stores() -> Kind {
    |c: CommandView| c is OpenDataStore
}

/// Web views to allocate.
pub open spec fn allocations() -> Kind {
    |c: CommandView| c is AllocateWebView
}

/// Web views to hide or show.
pub open spec fn hidings() -> Kind {
    |c: CommandView| c is SetHidden
}

/// Functions of the caller to keep for custom protocols.
pub open spec fn keepings() -> Kind {
    |c: CommandView| c is BindSchemeFunction
}

/// Functions of the caller to free.
pub open spec fn freeings() -> Kind {
    |c: CommandView| c is FreeSchemeFunction
}

/// Message handlers to hand to the user content controller.
pub open spec fn ipc_creations() -> Kind {
    |c: CommandView| c is CreateIpcHandler
}

/// Message handlers to take back.
pub open spec fn ipc_removals() -> Kind {
    |c: CommandView| c is RemoveIpcHandler
}

/// No command is of a kind.
spec fn none(commands: Seq<CommandView>, kind: Kind) -> bool {
    forall|i: int| 0 <= i < commands.len() ==> !kind(#[trigger] commands[i])
}

/// Every command is of a kind.
spec fn all(commands: Seq<CommandView>, kind: Kind) -> bool {
    forall|i: int| 0 <= i < commands.len() ==> kind(#[trigger] commands[i])
}

proof fn lemma_none(commands: Seq<CommandView>, kind: Kind)
    requires
        none(commands, kind),
    ensures
        commands.filter(kind) == Seq::<CommandView>::empty(),
    decreases commands.len(),
{
    reveal(Seq::filter);
    if commands.len() > 0 {
        assert(!kind(commands[commands.len() - 1]));
        assert forall|i: int| 0 <= i < commands.len() - 1 implies !kind(
            #[trigger] commands.drop_last()[i],
        ) by {
            assert(commands.drop_last()[i] == commands[i]);
        }
        lemma_none(commands.drop_last(), kind);
    }
}

proof fn lemma_all(commands: Seq<CommandView>, kind: Kind)
    requires
        all(commands, kind),
    ensures
        commands.filter(kind) == commands,
    decreases commands.len(),
{
    reveal(Seq::filter);
    if commands.len() > 0 {
        assert(kind(commands[commands.len() - 1]));
        assert forall|i: int| 0 <= i < commands.len() - 1 implies kind(
            #[trigger] commands.drop_last()[i],
        ) by {
            assert(commands.drop_last()[i] == commands[i]);
        }
        lemma_all(commands.drop_last(), kind);
        assert(commands.drop_last().push(commands.last()) =~= commands);
    }
}

proof fn lemma_sum(a: Seq<CommandView>, b: Seq<CommandView>, kind: Kind)
    ensures
        (a + b).filter(kind) == a.filter(kind) + b.filter(kind),
{
    Seq::filter_distributes_over_add(a, b, kind);
}

proof fn lemma_none_sum(a: Seq<CommandView>, b: Seq<CommandView>, kind: Kind)
    requires
        none(a, kind),
        none(b, kind),
    ensures
        none(a + b, kind),
{
}

proof fn lemma_none_when(condition: bool, command: CommandView, kind: Kind)
    requires
        condition ==> !kind(command),
    ensures
        none(crate::command::when(condition, command), kind),
{
}

/// A command of one of the kinds that complete a web view, and that nothing else gives.
spec fn completes(c: CommandView) -> bool {
    c is AddUserScript || c is SetUserAgent || c is LoadRequest || c is LoadHtml
}

/// A kind of which no command occurs before the custom protocols.
spec fn off_preparation(kind: Kind) -> bool {
    forall|c: CommandView| #[trigger] kind(c) ==> !(c is NewConfiguration || c is OpenDataStore)
}

/// A kind of which no command serves a custom protocol.
spec fn off_schemes(kind: Kind) -> bool {
    forall|c: CommandView| #[trigger]
        kind(c) ==> !(c is CreateSchemeHandler || c is BindSchemeFunction || c is BindSchemeWebView)
}

/// A kind of which no command sets a value of the configuration.
spec fn off_configuration_values(kind: Kind) -> bool {
    forall|c: CommandView| #[trigger]
        kind(c) ==> !(c is AttachDataStore || c is SetProxy || c is SetPreference
            || c is SetConfiguration || c is AllowAutoplay)
}

/// A kind of which no command configures a web view.
spec fn off_configuration(kind: Kind) -> bool {
    &&& off_configuration_values(kind)
    &&& forall|c: CommandView| #[trigger]
        kind(c) ==> !(c is OpenUserContentController || c is AllocateWebView)
}

/// A kind of which no command initialises a web view.
spec fn off_initialisation(kind: Kind) -> bool {
    forall|c: CommandView| #[trigger]
        kind(c) ==> !(c is InitWithFrame || c is InitWithParentFrame)
}

/// A kind of which no command is a first setting.
spec fn off_settings(kind: Kind) -> bool {
    forall|c: CommandView| #[trigger]
        kind(c) ==> !(c is SetAutoresizing || c is SetBackForwardGestures || c is SetPreference
            || c is SetScrollBounce || c is SetHidden)
}

/// A kind of which no command connects a web view to its caller.
spec fn off_connection(kind: Kind) -> bool {
    forall|c: CommandView| #[trigger]
        kind(c) ==> !(c is SetInspectable || c is SetPreference || c is CreateIpcHandler
            || c is CreateTitleObserver || c is CreateDownloadDelegate
            || c is CreateNavigationDelegate || c is SetNavigationDelegate || c is CreateUiDelegate
            || c is SetUiDelegate || c is HideTitlebarSeparator)
}

/// A kind of which no command puts a web view into its window.
spec fn off_injection(kind: Kind) -> bool {
    forall|c: CommandView| #[trigger]
        kind(c) ==> !(c is AddToView || c is CreateParentView || c is SetParentAutoresizing
            || c is AddToParentView || c is SetContentView || c is MakeFirstResponder
            || c is ActivateApplication)
}

/// A kind of which no command completes a web view.
spec fn off_opening(kind: Kind) -> bool {
    &&& off_injection(kind)
    &&& forall|c: CommandView| #[trigger] kind(c) ==> !completes(c)
}

proof fn lemma_schemes(plan: Plan, from: int, to: int, id: u32, kind: Kind)
    requires
        off_schemes(kind),
    ensures
        none(crate::dialogue::schemes(plan, from, to, id), kind),
    decreases to - from,
{
    if from < to {
        lemma_schemes(plan, from + 1, to, id, kind);
        lemma_none_sum(
            crate::creation::scheme_commands(plan, from, id),
            crate::dialogue::schemes(plan, from + 1, to, id),
            kind,
        );
    }
}

proof fn lemma_configuration_values(plan: Plan, kind: Kind)
    requires
        off_configuration_values(kind),
    ensures
        none(crate::creation::configuration_values(plan), kind),
{
    let a = seq![CommandView::AttachDataStore];
    let proxied = plan.features.mac_proxy && plan.attributes.proxy_config is Some;
    let proxy = CommandView::SetProxy(plan.attributes.proxy_config->0);
    lemma_none_when(proxied, proxy, kind);
    let b = a + crate::command::when(proxied, proxy);
    lemma_none_sum(a, crate::command::when(proxied, proxy), kind);
    let picture = seq![crate::creation::preference("allowsPictureInPictureMediaPlayback"@)];
    let c = b + picture;
    lemma_none_sum(b, picture, kind);
    let inline = CommandView::SetConfiguration { key: "allowsInlineMediaPlayback"@, value: true };
    lemma_none_when(plan.platform is Ios, inline, kind);
    let d = c + crate::command::when(plan.platform is Ios, inline);
    lemma_none_sum(c, crate::command::when(plan.platform is Ios, inline), kind);
    let autoplay = crate::command::when(plan.attributes.autoplay, CommandView::AllowAutoplay);
    let e = d + autoplay;
    lemma_none_sum(d, autoplay, kind);
    let clear = plan.features.transparent && plan.attributes.transparent;
    let undrawn = CommandView::SetConfiguration { key: "drawsBackground"@, value: false };
    lemma_none_when(clear, undrawn, kind);
    let f = e + crate::command::when(clear, undrawn);
    lemma_none_sum(e, crate::command::when(clear, undrawn), kind);
    let full = crate::creation::preference("fullScreenEnabled"@);
    lemma_none_when(plan.features.fullscreen, full, kind);
    lemma_none_sum(f, crate::command::when(plan.features.fullscreen, full), kind);
}

proof fn lemma_configuration(plan: Plan, kind: Kind)
    requires
        off_configuration(kind),
    ensures
        none(crate::creation::configuration(plan), kind),
{
    let start = seq![CommandView::OpenUserContentController] + seq![
        CommandView::AllocateWebView {
            is_child: plan.is_child,
            mouse: crate::creation::mouse_behavior(plan),
        },
    ];
    assert(none(start, kind));
    lemma_configuration_values(plan, kind);
    lemma_none_sum(start, crate::creation::configuration_values(plan), kind);
}

proof fn lemma_connected(plan: Plan, answers: Answers, kind: Kind)
    requires
        off_connection(kind),
    ensures
        none(crate::dialogue::connected(plan, answers), kind),
{
    let a = if crate::creation::inspected(plan) {
        crate::creation::inspection(answers.knows_inspectable)
    } else {
        Seq::empty()
    };
    assert(none(a, kind));
    let handlers = crate::creation::handlers(plan);
    assert(none(handlers, kind));
    lemma_none_sum(a, handlers, kind);
    let titled = plan.platform is MacOs && answers.knows_titlebar_style;
    lemma_none_when(titled, CommandView::HideTitlebarSeparator, kind);
    lemma_none_sum(
        a + handlers,
        crate::command::when(titled, CommandView::HideTitlebarSeparator),
        kind,
    );
}

proof fn lemma_initialisation(plan: Plan, answers: Answers, kind: Kind)
    requires
        off_initialisation(kind),
    ensures
        none(crate::dialogue::initialisation(plan, answers), kind),
{
}

proof fn lemma_settings(plan: Plan, kind: Kind)
    requires
        off_settings(kind),
    ensures
        none(crate::creation::first_settings(plan), kind),
{
}

proof fn lemma_injection(plan: Plan, kind: Kind)
    requires
        off_injection(kind),
    ensures
        none(crate::creation::injection(plan), kind),
{
}

proof fn lemma_opening(plan: Plan, kind: Kind)
    requires
        off_opening(kind),
    ensures
        none(crate::creation::opening(plan), kind),
{
    let scripts = crate::creation::scripts(plan);
    let agent = crate::creation::user_agent(plan);
    let page = crate::creation::first_page(plan);
    assert(none(scripts, kind));
    assert(none(agent, kind));
    assert(none(page, kind));
    lemma_injection(plan, kind);
    lemma_none_sum(scripts, agent, kind);
    lemma_none_sum(scripts + agent, page, kind);
    lemma_none_sum(scripts + agent + page, crate::creation::injection(plan), kind);
}

/// The parts of the whole, one after the other.
spec fn whole(
    preparation: Seq<CommandView>,
    schemes: Seq<CommandView>,
    configuration: Seq<CommandView>,
    initialisation: Seq<CommandView>,
    settings: Seq<CommandView>,
    connection: Seq<CommandView>,
    opening: Seq<CommandView>,
) -> Seq<CommandView> {
    preparation + schemes + (configuration + (initialisation + settings + connection)) + opening
}

proof fn lemma_collapse(
    p: Seq<CommandView>,
    s: Seq<CommandView>,
    c: Seq<CommandView>,
    i: Seq<CommandView>,
    f: Seq<CommandView>,
    n: Seq<CommandView>,
    o: Seq<CommandView>,
)
    ensures
        ({
            let all = whole(p, s, c, i, f, n, o);
            &&& s.len() + c.len() + i.len() + f.len() + n.len() + o.len() == 0 ==> all == p
            &&& p.len() + c.len() + i.len() + f.len() + n.len() + o.len() == 0 ==> all == s
            &&& p.len() + s.len() + i.len() + f.len() + n.len() + o.len() == 0 ==> all == c
            &&& p.len() + s.len() + c.len() + i.len() + n.len() + o.len() == 0 ==> all == f
            &&& p.len() + s.len() + c.len() + i.len() + f.len() + o.len() == 0 ==> all == n
            &&& p.len() + s.len() + c.len() + i.len() + f.len() + n.len() == 0 ==> all == o
        }),
{
    let all = whole(p, s, c, i, f, n, o);
    if s.len() + c.len() + i.len() + f.len() + n.len() + o.len() == 0 {
        assert(all =~= p);
    }
    if p.len() + c.len() + i.len() + f.len() + n.len() + o.len() == 0 {
        assert(all =~= s);
    }
    if p.len() + s.len() + i.len() + f.len() + n.len() + o.len() == 0 {
        assert(all =~= c);
    }
    if p.len() + s.len() + c.len() + i.len() + n.len() + o.len() == 0 {
        assert(all =~= f);
    }
    if p.len() + s.len() + c.len() + i.len() + f.len() + o.len() == 0 {
        assert(all =~= n);
    }
    if p.len() + s.len() + c.len() + i.len() + f.len() + n.len() == 0 {
        assert(all =~= o);
    }
}

/// The commands of a kind, out of those that make a web view, are the ones out of each part.
proof fn lemma_parts(plan: Plan, answers: Answers, kind: Kind)
    requires
        crate::dialogue::end(plan, answers) is Done,
    ensures
        crate::dialogue::all_commands(plan, answers).filter(kind) == whole(
            crate::dialogue::preparation(plan, answers).filter(kind),
            crate::dialogue::schemes(
                plan,
                0,
                plan.attributes.custom_protocols@.len() as int,
                answers.webview_id,
            ).filter(kind),
            crate::creation::configuration(plan).filter(kind),
            crate::dialogue::initialisation(plan, answers).filter(kind),
            crate::creation::first_settings(plan).filter(kind),
            crate::dialogue::connected(plan, answers).filter(kind),
            crate::creation::opening(plan).filter(kind),
        ),
{
    let count = plan.attributes.custom_protocols@.len() as int;
    let preparation = crate::dialogue::preparation(plan, answers);
    let schemes = crate::dialogue::schemes(plan, 0, count, answers.webview_id);
    let construction = crate::dialogue::construction(plan, answers);
    let opening = crate::creation::opening(plan);
    let initialisation = crate::dialogue::initialisation(plan, answers);
    let first = crate::creation::first_settings(plan);
    lemma_sum(preparation + schemes + construction, opening, kind);
    lemma_sum(preparation + schemes, construction, kind);
    lemma_sum(preparation, schemes, kind);
    lemma_sum(
        crate::creation::configuration(plan),
        crate::dialogue::settled(plan, answers),
        kind,
    );
    lemma_sum(initialisation + first, crate::dialogue::connected(plan, answers), kind);
    lemma_sum(initialisation, first, kind);
}

/// The parts in which a kind does not occur.
proof fn lemma_absent(plan: Plan, answers: Answers, kind: Kind)
    ensures
        off_preparation(kind) ==> crate::dialogue::preparation(plan, answers).filter(kind).len()
            == 0,
        off_schemes(kind) ==> crate::dialogue::schemes(
            plan,
            0,
            plan.attributes.custom_protocols@.len() as int,
            answers.webview_id,
        ).filter(kind).len() == 0,
        off_configuration(kind) ==> crate::creation::configuration(plan).filter(kind).len() == 0,
        off_initialisation(kind) ==> crate::dialogue::initialisation(plan, answers).filter(
            kind,
        ).len() == 0,
        off_settings(kind) ==> crate::creation::first_settings(plan).filter(kind).len() == 0,
        off_connection(kind) ==> crate::dialogue::connected(plan, answers).filter(kind).len() == 0,
        off_opening(kind) ==> crate::creation::opening(plan).filter(kind).len() == 0,
{
    let count = plan.attributes.custom_protocols@.len() as int;
    if off_preparation(kind) {
        lemma_none(crate::dialogue::preparation(plan, answers), kind);
    }
    if off_schemes(kind) {
        lemma_schemes(plan, 0, count, answers.webview_id, kind);
        lemma_none(crate::dialogue::schemes(plan, 0, count, answers.webview_id), kind);
    }
    if off_configuration(kind) {
        lemma_configuration(plan, kind);
        lemma_none(crate::creation::configuration(plan), kind);
    }
    if off_initialisation(kind) {
        lemma_initialisation(plan, answers, kind);
        lemma_none(crate::dialogue::initialisation(plan, answers), kind);
    }
    if off_settings(kind) {
        lemma_settings(plan, kind);
        lemma_none(crate::creation::first_settings(plan), kind);
    }
    if off_connection(kind) {
        lemma_connected(plan, answers, kind);
        lemma_none(crate::dialogue::connected(plan, answers), kind);
    }
    if off_opening(kind) {
        lemma_opening(plan, kind);
        lemma_none(crate::creation::opening(plan), kind);
    }
}

/// The commands of a kind that occurs in one part only are those of that part.
proof fn lemma_found(plan: Plan, answers: Answers, kind: Kind)
    requires
        crate::dialogue::end(plan, answers) is Done,
        off_initialisation(kind),
    ensures
        ({
            let found = crate::dialogue::all_commands(plan, answers).filter(kind);
            let count = plan.attributes.custom_protocols@.len() as int;
            let p = off_preparation(kind);
            let s = off_schemes(kind);
            let c = off_configuration(kind);
            let f = off_settings(kind);
            let n = off_connection(kind);
            let o = off_opening(kind);
            &&& s && c && f && n && o ==> found == crate::dialogue::preparation(
                plan,
                answers,
            ).filter(kind)
            &&& p && c && f && n && o ==> found == crate::dialogue::schemes(
                plan,
                0,
                count,
                answers.webview_id,
            ).filter(kind)
            &&& p && s && f && n && o ==> found == crate::creation::configuration(plan).filter(
                kind,
            )
            &&& p && s && c && n && o ==> found == crate::creation::first_settings(plan).filter(
                kind,
            )
            &&& p && s && c && f && o ==> found == crate::dialogue::connected(plan, answers).filter(
                kind,
            )
            &&& p && s && c && f && n ==> found == crate::creation::opening(plan).filter(kind)
        }),
{
    let count = plan.attributes.custom_protocols@.len() as int;
    lemma_absent(plan, answers, kind);
    lemma_parts(plan, answers, kind);
    lemma_collapse(
        crate::dialogue::preparation(plan, answers).filter(kind),
        crate::dialogue::schemes(plan, 0, count, answers.webview_id).filter(kind),
        crate::creation::configuration(plan).filter(kind),
        crate::dialogue::initialisation(plan, answers).filter(kind),
        crate::creation::first_settings(plan).filter(kind),
        crate::dialogue::connected(plan, answers).filter(kind),
        crate::creation::opening(plan).filter(kind),
    );
}

proof fn lemma_opening_parts(
    scripts: Seq<CommandView>,
    agent: Seq<CommandView>,
    page: Seq<CommandView>,
    injection: Seq<CommandView>,
    kind: Kind,
)
    ensures
        ({
            let found = (scripts + agent + page + injection).filter(kind);
            &&& none(agent, kind) && none(page, kind) && none(injection, kind) ==> found
                == scripts.filter(kind)
            &&& none(scripts, kind) && none(agent, kind) && none(injection, kind) ==> found
                == page.filter(kind)
        }),
{
    lemma_sum(scripts + agent + page, injection, kind);
    lemma_sum(scripts + agent, page, kind);
    lemma_sum(scripts, agent, kind);
    let found = (scripts + agent + page + injection).filter(kind);
    if none(agent, kind) && none(injection, kind) {
        lemma_none(agent, kind);
        lemma_none(injection, kind);
        if none(page, kind) {
            lemma_none(page, kind);
            assert(found =~= scripts.filter(kind));
        }
        if none(scripts, kind) {
            lemma_none(scripts, kind);
            assert(found =~= page.filter(kind));
        }
    }
}

/// A web view that is made runs the library's own script and then the caller's in every document,
/// in the caller's order, and no others.
pub proof fn lemma_scripts_in_order(plan: Plan, answers: Answers)
    requires
        crate::dialogue::end(plan, answers) is Done,
    ensures
        crate::dialogue::all_commands(plan, answers).filter(user_scripts())
            == crate::creation::scripts(plan),
{
    let kind = user_scripts();
    let scripts = crate::creation::scripts(plan);
    let agent = crate::creation::user_agent(plan);
    let page = crate::creation::first_page(plan);
    lemma_found(plan, answers, kind);
    lemma_injection(plan, kind);
    assert(none(agent, kind));
    assert(none(page, kind));
    assert(all(scripts, kind));
    lemma_opening_parts(scripts, agent, page, crate::creation::injection(plan), kind);
    lemma_all(scripts, kind);
}

/// A web view that is made shows one page at most: that of the caller's address, or else that of
/// the caller's text.
pub proof fn lemma_one_page(plan: Plan, answers: Answers)
    requires
        crate::dialogue::end(plan, answers) is Done,
    ensures
        crate::dialogue::all_commands(plan, answers).filter(pages())
            == crate::creation::first_page(plan),
{
    let kind = pages();
    let scripts = crate::creation::scripts(plan);
    let agent = crate::creation::user_agent(plan);
    let page = crate::creation::first_page(plan);
    lemma_found(plan, answers, kind);
    lemma_injection(plan, kind);
    assert(none(scripts, kind));
    assert(none(agent, kind));
    assert(all(page, kind));
    lemma_opening_parts(scripts, agent, page, crate::creation::injection(plan), kind);
    lemma_all(page, kind);
}

proof fn lemma_earlier(
    front: Seq<CommandView>,
    before: Seq<CommandView>,
    after: Seq<CommandView>,
    early: Kind,
    late: Kind,
    i: int,
    j: int,
)
    requires
        none(front, late),
        none(before, late),
        none(after, early),
        0 <= i < (front + (before + after)).len(),
        0 <= j < (front + (before + after)).len(),
        early((front + (before + after))[i]),
        late((front + (before + after))[j]),
    ensures
        i < j,
{
    let all = front + (before + after);
    let edge = front.len() + before.len();
    if i >= edge {
        assert(all[i] == after[i - edge]);
    }
    if j < front.len() {
        assert(all[j] == front[j]);
    } else if j < edge {
        assert(all[j] == before[j - front.len()]);
    }
}

/// By the time the first page is asked for, all scripts are in place and the user agent is set.
pub proof fn lemma_scripts_before_page(plan: Plan, answers: Answers, i: int, j: int)
    requires
        crate::dialogue::end(plan, answers) is Done,
        0 <= i < crate::dialogue::all_commands(plan, answers).len(),
        0 <= j < crate::dialogue::all_commands(plan, answers).len(),
        user_scripts()(crate::dialogue::all_commands(plan, answers)[i]) || user_agents()(
            crate::dialogue::all_commands(plan, answers)[i],
        ),
        pages()(crate::dialogue::all_commands(plan, answers)[j]),
    ensures
        i < j,
{
    let early: Kind = |c: CommandView| c is AddUserScript || c is SetUserAgent;
    let late = pages();
    let count = plan.attributes.custom_protocols@.len() as int;
    let preparation = crate::dialogue::preparation(plan, answers);
    let schemes = crate::dialogue::schemes(plan, 0, count, answers.webview_id);
    let construction = crate::dialogue::construction(plan, answers);
    let front = preparation + schemes + construction;
    lemma_schemes(plan, 0, count, answers.webview_id, late);
    lemma_construction(plan, answers, late);
    lemma_none_sum(preparation, schemes, late);
    lemma_none_sum(preparation + schemes, construction, late);
    let scripts = crate::creation::scripts(plan);
    let agent = crate::creation::user_agent(plan);
    let page = crate::creation::first_page(plan);
    let injection = crate::creation::injection(plan);
    assert(none(scripts, late));
    assert(none(agent, late));
    lemma_none_sum(scripts, agent, late);
    assert(none(page, early));
    lemma_injection(plan, early);
    lemma_none_sum(page, injection, early);
    assert(scripts + agent + page + injection =~= (scripts + agent) + (page + injection));
    lemma_earlier(front, scripts + agent, page + injection, early, late, i, j);
}

proof fn lemma_construction(plan: Plan, answers: Answers, kind: Kind)
    requires
        off_configuration(kind),
        off_initialisation(kind),
        off_settings(kind),
        off_connection(kind),
    ensures
        none(crate::dialogue::construction(plan, answers), kind),
{
    let configuration = crate::creation::configuration(plan);
    let initialisation = crate::dialogue::initialisation(plan, answers);
    let first = crate::creation::first_settings(plan);
    let connected = crate::dialogue::connected(plan, answers);
    lemma_configuration(plan, kind);
    lemma_initialisation(plan, answers, kind);
    lemma_settings(plan, kind);
    lemma_connected(plan, answers, kind);
    lemma_none_sum(initialisation, first, kind);
    lemma_none_sum(initialisation + first, connected, kind);
    lemma_none_sum(configuration, initialisation + first + connected, kind);
}

proof fn lemma_single(command: CommandView, kind: Kind)
    ensures
        seq![command].filter(kind) == crate::command::when(kind(command), command),
{
    if kind(command) {
        lemma_all(seq![command], kind);
    } else {
        lemma_none(seq![command], kind);
    }
}

/// Once it is clear that this is the main thread, one data store is opened and no other: that
/// of [`crate::creation::plan_store`]. An incognito web view thus never touches a store that
/// lasts.
pub proof fn lemma_one_store(plan: Plan, answers: Answers)
    requires
        answers.main_thread,
    ensures
        crate::dialogue::all_commands(plan, answers).filter(stores()) == seq![
            CommandView::OpenDataStore(crate::creation::plan_store(plan, answers.os_version)),
        ],
        plan.attributes.incognito ==> crate::creation::plan_store(plan, answers.os_version)
            == DataStore::NonPersistent,
{
    let kind = stores();
    let id = answers.webview_id;
    let count = plan.attributes.custom_protocols@.len() as int;
    let refused = answers.first_refused(0, count);
    let preparation = crate::dialogue::preparation(plan, answers);
    let config = seq![CommandView::NewConfiguration];
    let store = seq![
        CommandView::OpenDataStore(crate::creation::plan_store(plan, answers.os_version)),
    ];
    assert(preparation =~= config + store);
    lemma_sum(config, store, kind);
    lemma_none(config, kind);
    lemma_all(store, kind);
    assert(preparation.filter(kind) =~= store);
    if refused < count {
        let schemes = crate::dialogue::schemes(plan, 0, refused + 1, id);
        lemma_schemes(plan, 0, refused + 1, id, kind);
        lemma_sum(preparation, schemes, kind);
        lemma_none(schemes, kind);
        assert(store + Seq::<CommandView>::empty() =~= store);
    } else {
        lemma_found(plan, answers, kind);
    }
}

/// The kind of web view that was asked for is allocated just once, and none at all if the making
/// fails.
pub proof fn lemma_one_allocation(plan: Plan, answers: Answers)
    ensures
        crate::dialogue::all_commands(plan, answers).filter(allocations())
            == crate::command::when(
            crate::dialogue::end(plan, answers) is Done,
            CommandView::AllocateWebView {
                is_child: plan.is_child,
                mouse: crate::creation::mouse_behavior(plan),
            },
        ),
{
    let kind = allocations();
    let id = answers.webview_id;
    let count = plan.attributes.custom_protocols@.len() as int;
    let refused = answers.first_refused(0, count);
    if crate::dialogue::end(plan, answers) is Done {
        lemma_found(plan, answers, kind);
        lemma_configured(plan);
    } else if answers.main_thread {
        let preparation = crate::dialogue::preparation(plan, answers);
        let schemes = crate::dialogue::schemes(plan, 0, refused + 1, id);
        lemma_schemes(plan, 0, refused + 1, id, kind);
        assert(none(preparation, kind));
        lemma_none_sum(preparation, schemes, kind);
        lemma_none(preparation + schemes, kind);
    } else {
        lemma_none(Seq::empty(), kind);
    }
}

proof fn lemma_configured(plan: Plan)
    ensures
        crate::creation::configuration(plan).filter(allocations()) == seq![
            CommandView::AllocateWebView {
                is_child: plan.is_child,
                mouse: crate::creation::mouse_behavior(plan),
            },
        ],
{
    let kind = allocations();
    let allocate = CommandView::AllocateWebView {
        is_child: plan.is_child,
        mouse: crate::creation::mouse_behavior(plan),
    };
    let a = seq![CommandView::OpenUserContentController] + seq![allocate];
    lemma_sum(seq![CommandView::OpenUserContentController], seq![allocate], kind);
    lemma_single(CommandView::OpenUserContentController, kind);
    lemma_single(allocate, kind);
    assert(a.filter(kind) =~= seq![allocate]);
    lemma_configuration_values(plan, kind);
    lemma_skip(a, crate::creation::configuration_values(plan), kind);
}

proof fn lemma_skip(a: Seq<CommandView>, b: Seq<CommandView>, kind: Kind)
    requires
        none(b, kind),
    ensures
        (a + b).filter(kind) == a.filter(kind),
{
    lemma_sum(a, b, kind);
    lemma_none(b, kind);
    assert(a.filter(kind) + Seq::<CommandView>::empty() =~= a.filter(kind));
}

/// A web view that is made is hidden from the start just when it was not asked to be visible.
pub proof fn lemma_hidden_at_first(plan: Plan, answers: Answers)
    requires
        crate::dialogue::end(plan, answers) is Done,
    ensures
        crate::dialogue::all_commands(plan, answers).filter(hidings()) == crate::command::when(
            !plan.attributes.visible,
            CommandView::SetHidden(true),
        ),
{
    let kind = hidings();
    let hide = crate::command::when(!plan.attributes.visible, CommandView::SetHidden(true));
    lemma_found(plan, answers, kind);
    let behavior = crate::creation::first_behavior(plan);
    assert(none(behavior, kind));
    lemma_pass(behavior, hide, kind);
    lemma_all(hide, kind);
}

proof fn lemma_pass(a: Seq<CommandView>, b: Seq<CommandView>, kind: Kind)
    requires
        none(a, kind),
    ensures
        (a + b).filter(kind) == b.filter(kind),
{
    lemma_sum(a, b, kind);
    lemma_none(a, kind);
    assert(Seq::<CommandView>::empty() + b.filter(kind) =~= b.filter(kind));
}

proof fn lemma_one_kept(plan: Plan, index: int, id: u32)
    ensures
        crate::creation::scheme_commands(plan, index, id).filter(keepings()) == seq![
            CommandView::BindSchemeFunction { index },
        ],
{
    let kind = keepings();
    let name = plan.attributes.custom_protocols@[index]@;
    let create = seq![CommandView::CreateSchemeHandler { index, name }];
    let bind = seq![CommandView::BindSchemeFunction { index }];
    let serve = seq![CommandView::BindSchemeWebView { index, webview_id: id }];
    assert(crate::creation::scheme_commands(plan, index, id) =~= create + bind + serve);
    lemma_skip(create + bind, serve, kind);
    lemma_pass(create, bind, kind);
    lemma_all(bind, kind);
}

/// Keeping the functions of the custom protocols from `from` up to `to`.
spec fn keeping(from: int, to: int) -> Seq<CommandView> {
    Seq::new((to - from) as nat, |i: int| CommandView::BindSchemeFunction { index: from + i })
}

proof fn lemma_kept(plan: Plan, from: int, to: int, id: u32)
    requires
        0 <= from <= to,
    ensures
        crate::dialogue::schemes(plan, from, to, id).filter(keepings()) == keeping(from, to),
    decreases to - from,
{
    let kind = keepings();
    if from < to {
        let one = crate::creation::scheme_commands(plan, from, id);
        let rest = crate::dialogue::schemes(plan, from + 1, to, id);
        lemma_kept(plan, from + 1, to, id);
        lemma_sum(one, rest, kind);
        lemma_one_kept(plan, from, id);
        assert(seq![CommandView::BindSchemeFunction { index: from }] + keeping(from + 1, to)
            =~= keeping(from, to));
    } else {
        lemma_none(Seq::empty(), kind);
        assert(keeping(from, to) =~= Seq::empty());
    }
}

/// The function of every custom protocol is kept just once while a web view is made, and freed
/// just once when it is taken apart.
pub proof fn lemma_functions_freed(plan: Plan, answers: Answers, webview: InnerWebView)
    requires
        crate::dialogue::end(plan, answers) is Done,
        crate::creation::made_by(webview, plan, answers.webview_id),
    ensures
        ({
            let count = plan.attributes.custom_protocols@.len();
            &&& crate::dialogue::all_commands(plan, answers).filter(keepings()) == Seq::new(
                count,
                |i: int| CommandView::BindSchemeFunction { index: i },
            )
            &&& crate::webview::teardown_commands(webview).filter(freeings()) == Seq::new(
                count,
                |i: int| CommandView::FreeSchemeFunction { index: i },
            )
        }),
{
    let count = plan.attributes.custom_protocols@.len();
    lemma_found(plan, answers, keepings());
    lemma_kept(plan, 0, count as int, answers.webview_id);
    assert(keeping(0, count as int) =~= Seq::new(
        count,
        |i: int| CommandView::BindSchemeFunction { index: i },
    ));
    let kind = freeings();
    let ipc = crate::command::when(webview.ipc_handler, CommandView::RemoveIpcHandler);
    let free = crate::webview::freeing(webview.scheme_functions as nat);
    let last = seq![
        CommandView::RemoveFromSuperview,
        CommandView::RetainWebView,
        CommandView::RetainUserContentController,
    ];
    lemma_skip(ipc + free, last, kind);
    lemma_pass(ipc, free, kind);
    lemma_all(free, kind);
    assert(free =~= Seq::new(count, |i: int| CommandView::FreeSchemeFunction { index: i }));
}

proof fn lemma_middle(
    a: Seq<CommandView>,
    b: Seq<CommandView>,
    c: Seq<CommandView>,
    d: Seq<CommandView>,
    kind: Kind,
)
    requires
        none(a, kind),
        all(b, kind),
        none(c, kind),
        none(d, kind),
    ensures
        (a + (b + c) + d).filter(kind) == b,
{
    lemma_skip(a + (b + c), d, kind);
    lemma_pass(a, b + c, kind);
    lemma_skip(b, c, kind);
    lemma_all(b, kind);
}

proof fn lemma_delegates(plan: Plan)
    ensures
        none(crate::creation::delegates(plan), ipc_creations()),
{
}

proof fn lemma_inspection(plan: Plan, answers: Answers)
    ensures
        none(
            if crate::creation::inspected(plan) {
                crate::creation::inspection(answers.knows_inspectable)
            } else {
                Seq::empty()
            },
            ipc_creations(),
        ),
{
}

proof fn lemma_ipc_connected(plan: Plan, answers: Answers)
    ensures
        crate::dialogue::connected(plan, answers).filter(ipc_creations()) == crate::command::when(
            plan.attributes.ipc_handler,
            CommandView::CreateIpcHandler,
        ),
{
    let kind = ipc_creations();
    let titled = plan.platform is MacOs && answers.knows_titlebar_style;
    let create = crate::command::when(plan.attributes.ipc_handler, CommandView::CreateIpcHandler);
    lemma_delegates(plan);
    lemma_inspection(plan, answers);
    lemma_none_when(titled, CommandView::HideTitlebarSeparator, kind);
    assert(all(create, kind));
    lemma_middle(
        if crate::creation::inspected(plan) {
            crate::creation::inspection(answers.knows_inspectable)
        } else {
            Seq::empty()
        },
        create,
        crate::creation::delegates(plan),
        crate::command::when(titled, CommandView::HideTitlebarSeparator),
        kind,
    );
}

#[verifier::rlimit(30)]
proof fn lemma_ipc_created(plan: Plan, answers: Answers)
    requires
        crate::dialogue::end(plan, answers) is Done,
    ensures
        crate::dialogue::all_commands(plan, answers).filter(ipc_creations())
            == crate::command::when(plan.attributes.ipc_handler, CommandView::CreateIpcHandler),
{
    let kind = ipc_creations();
    let connected = crate::dialogue::connected(plan, answers).filter(kind);
    assert(crate::dialogue::all_commands(plan, answers).filter(kind) == connected) by {
        lemma_found(plan, answers, kind);
    }
    lemma_ipc_connected(plan, answers);
}

proof fn lemma_ipc_removed(webview: InnerWebView)
    ensures
        crate::webview::teardown_commands(webview).filter(ipc_removals()) == crate::command::when(
            webview.ipc_handler,
            CommandView::RemoveIpcHandler,
        ),
{
    let kind = ipc_removals();
    let remove = crate::command::when(webview.ipc_handler, CommandView::RemoveIpcHandler);
    let free = crate::webview::freeing(webview.scheme_functions as nat);
    let last = seq![
        CommandView::RemoveFromSuperview,
        CommandView::RetainWebView,
        CommandView::RetainUserContentController,
    ];
    lemma_skip(remove + free, last, kind);
    lemma_skip(remove, free, kind);
    lemma_all(remove, kind);
}

/// A message handler is taken back when a web view is taken apart just if it was handed over
/// while the web view was made.
pub proof fn lemma_ipc_handler_returned(plan: Plan, answers: Answers, webview: InnerWebView)
    requires
        crate::dialogue::end(plan, answers) is Done,
        crate::creation::made_by(webview, plan, answers.webview_id),
    ensures
        crate::dialogue::all_commands(plan, answers).filter(ipc_creations())
            == crate::command::when(plan.attributes.ipc_handler, CommandView::CreateIpcHandler),
        crate::webview::teardown_commands(webview).filter(ipc_removals()) == crate::command::when(
            plan.attributes.ipc_handler,
            CommandView::RemoveIpcHandler,
        ),
{
    lemma_ipc_created(plan, answers);
    lemma_ipc_removed(webview);
}

/// Taking a web view apart once more takes no message handler back and frees no function: each is
/// given up just once.
pub proof fn lemma_given_up_once(webview: InnerWebView)
    ensures
        ({
            let left = crate::webview::taken_apart(webview);
            let again = crate::webview::teardown_commands(left);
            &&& again.filter(freeings()) == Seq::<CommandView>::empty()
            &&& again.filter(ipc_removals()) == Seq::<CommandView>::empty()
            &&& crate::webview::taken_apart(left) == left
        }),
{
    let again = crate::webview::teardown_commands(crate::webview::taken_apart(webview));
    assert(crate::webview::freeing(0) =~= Seq::empty());
    lemma_none(again, freeings());
    lemma_none(again, ipc_removals());
}

/// A web view is alive from its making to its end: taking it apart leaves alive just the web views
/// that were alive before it was made.
pub proof fn lemma_life(plan: Plan, answers: Answers, webview: InnerWebView, alive: Set<u32>)
    requires
        crate::dialogue::end(plan, answers) is Done,
        crate::creation::made_by(webview, plan, answers.webview_id),
        !alive.contains(answers.webview_id),
    ensures
        ({
            let during = crate::dialogue::alive_after(
                plan,
                Phase::MainThread,
                0,
                answers,
                alive,
            );
            &&& during.contains(webview.webview_id)
            &&& during.remove(webview.webview_id) == alive
        }),
{
    crate::dialogue::lemma_alive(plan, answers, alive);
    assert(alive.insert(webview.webview_id).remove(webview.webview_id) =~= alive);
}

/// A web view whose number is not in use has another number than any that is alive, and both are
/// alive once it is made.
pub proof fn lemma_live_numbers_differ(
    plan: Plan,
    answers: Answers,
    first: InnerWebView,
    second: InnerWebView,
    alive: Set<u32>,
)
    requires
        crate::dialogue::end(plan, answers) is Done,
        crate::creation::made_by(second, plan, answers.webview_id),
        alive.contains(first.webview_id),
        !alive.contains(answers.webview_id),
    ensures
        first.webview_id != second.webview_id,
        second.is_child == plan.is_child,
        ({
            let after = crate::dialogue::alive_after(plan, Phase::MainThread, 0, answers, alive);
            after.contains(first.webview_id) && after.contains(second.webview_id)
        }),
{
    crate::dialogue::lemma_alive(plan, answers, alive);
}

/// Two numbers of one counter are different, unless all numbers there are have been given between
/// them.
pub proof fn lemma_numbers_differ(start: u32, first: nat, second: nat)
    requires
        first < second < first + 0x1_0000_0000,
    ensures
        crate::registry::number_after(start, first) != crate::registry::number_after(start, second),
{
}

/// One more number is the number after.
pub proof fn lemma_one_more_number(start: u32, count: nat)
    ensures
        crate::registry::number_after(start, 0) == start,
        crate::registry::number_after(crate::registry::number_after(start, count), 1)
            == crate::registry::number_after(start, count + 1),
{
}

/// A web view that is made while another is alive has another number, unless the counter has given
/// all numbers there are in between; both are alive then.
pub proof fn lemma_counted_numbers_differ(
    plan: Plan,
    answers: Answers,
    start: u32,
    earlier: nat,
    later: nat,
    first: InnerWebView,
    second: InnerWebView,
    alive: Set<u32>,
)
    requires
        crate::dialogue::end(plan, answers) is Done,
        crate::creation::made_by(second, plan, answers.webview_id),
        alive.contains(first.webview_id),
        first.webview_id == crate::registry::number_after(start, earlier),
        answers.webview_id == crate::registry::number_after(start, later),
        earlier < later < earlier + 0x1_0000_0000,
    ensures
        first.webview_id != second.webview_id,
        second.is_child == plan.is_child,
        ({
            let after = crate::dialogue::alive_after(plan, Phase::MainThread, 0, answers, alive);
            after.contains(first.webview_id) && after.contains(second.webview_id)
        }),
{
    lemma_numbers_differ(start, earlier, later);
    crate::dialogue::lemma_alive(plan, answers, alive);
}

/// The scripts that wait after a web view was told to run some, one after the other.
pub open spec fn waiting_after(
    before: Option<Seq<Seq<char>>>,
    scripts: Seq<Seq<char>>,
) -> Option<Seq<Seq<char>>>
    decreases scripts.len(),
{
    if scripts.len() == 0 {
        before
    } else {
        crate::webview::queued(waiting_after(before, scripts.drop_last()), scripts.last())
    }
}

/// Scripts that come before the first page has loaded wait behind those that wait already, in the
/// order in which they came; once it has loaded, none waits any more.
pub proof fn lemma_scripts_wait_in_order(
    before: Option<Seq<Seq<char>>>,
    scripts: Seq<Seq<char>>,
)
    ensures
        waiting_after(before, scripts) == match before {
            Some(list) => Some(list + scripts),
            None => None,
        },
    decreases scripts.len(),
{
    if scripts.len() > 0 {
        lemma_scripts_wait_in_order(before, scripts.drop_last());
        if let Some(list) = before {
            assert((list + scripts.drop_last()).push(scripts.last()) =~= list + scripts);
        }
    } else if let Some(list) = before {
        assert(list + scripts =~= list);
    }
}

/// A request with no headers in its map is the same as a request without a map.
pub proof fn lemma_empty_headers(url: Seq<char>, headers: HeaderMap<HeaderValue>)
    requires
        crate::headers::header_entries(headers).len() == 0,
    ensures
        crate::webview::request(url, Some(headers)) == crate::webview::request(url, None),
{
    assert(crate::headers::fields(crate::headers::header_entries(headers)) =~= Seq::empty());
}

/// Every entry of a header map becomes one field, in its place and under its name.
pub proof fn lemma_fields_keep_names(entries: Seq<(Seq<char>, Seq<u8>)>)
    ensures
        crate::headers::fields(entries).len() == entries.len(),
        forall|i: int|
            0 <= i < entries.len() ==> (#[trigger] crate::headers::fields(entries)[i]).0
                == entries[i].0,
{
}

/// What is asked back for the bounds of a child is what they were set to, in exact arithmetic: if
/// the view has the frame that was given to it in a parent of the height that was counted on, then
/// the bounds are the wanted ones.
pub proof fn lemma_bounds_are_as_set(
    wanted: Placement,
    parent: ViewFrame,
    view: ViewFrame,
    read: spec_fn(Double) -> int,
)
    requires
        read(parent.height) == read(wanted.parent_height),
        (read(view.x), read(view.y)) == crate::webview::placed_frame(wanted).origin.place(read),
        read(view.width) == crate::webview::placed_frame(wanted).width,
        read(view.height) == crate::webview::placed_frame(wanted).height,
    ensures
        ({
            let bounds = crate::geometry::bounds_of(parent, view);
            &&& bounds.position.x.value(read) == wanted.x
            &&& bounds.position.y.value(read) == wanted.y
            &&& read(bounds.width) == wanted.width
            &&& read(bounds.height) == wanted.height
        }),
{
}

/// A child that was asked for at a place and in a size stands there once it is made, in exact
/// arithmetic.
pub proof fn lemma_child_stands_as_wanted(
    plan: Plan,
    answers: Answers,
    view: ViewFrame,
    parent: ViewFrame,
    read: spec_fn(Double) -> int,
)
    requires
        plan.platform is MacOs,
        plan.is_child,
        answers.position is Some,
        answers.size is Some,
        read(parent.height) == read(answers.view_height),
        (read(view.x), read(view.y)) == crate::dialogue::frame(plan, answers).origin.place(read),
        read(view.width) == crate::dialogue::frame(plan, answers).width,
        read(view.height) == crate::dialogue::frame(plan, answers).height,
    ensures
        ({
            let bounds = crate::geometry::bounds_of(parent, view);
            let (x, y) = answers.position->0;
            let (width, height) = answers.size->0;
            &&& bounds.position.x.value(read) == x
            &&& bounds.position.y.value(read) == y
            &&& read(bounds.width) == width
            &&& read(bounds.height) == height
        }),
{
}

} // verus!
