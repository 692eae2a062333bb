//! What making a web view comes to, command by command, in terms of what was asked for and of what
//! the platform answered.

use crate::attributes::Platform;
use crate::command::{Autoresizing, CommandView, DataStore, MouseBehavior};
use crate::creation::{Creation, Next, Phase, Plan, Reply, IPC_SCRIPT};
use crate::dialogue::{Answers, End};
use crate::geometry::{Difference, Double, FlippedPoint, Length, Origin};
use crate::laws::Kind;
use vstd::prelude::*;

verus! {

/// User content controllers to fetch.
pub open spec fn controllers() -> Kind {
    |c: CommandView| c is OpenUserContentController
}

/// Data stores to give to the configuration.
pub open spec fn attachments() -> Kind {
    |c: CommandView| c is AttachDataStore
}

/// Proxies to set.
pub open spec fn proxies() -> Kind {
    |c: CommandView| c is SetProxy
}

/// Values of the configuration to set.
pub open spec fn values() -> Kind {
    |c: CommandView| c is SetConfiguration
}

/// Leaves to play media.
pub open spec fn autoplays() -> Kind {
    |c: CommandView| c is AllowAutoplay
}

/// Ways to follow the size of the parent.
pub open spec fn masks() -> Kind {
    |c: CommandView| c is SetAutoresizing
}

/// Gestures to switch on or off.
pub open spec fn gestures() -> Kind {
    |c: CommandView| c is SetBackForwardGestures
}

/// Scroll bounces to switch on or off.
pub open spec fn bounces() -> Kind {
    |c: CommandView| c is SetScrollBounce
}

/// Web views to open to the inspector.
pub open spec fn inspectables() -> Kind {
    |c: CommandView| c is SetInspectable
}

/// Title observers to make.
pub open spec fn title_observers() -> Kind {
    |c: CommandView| c is CreateTitleObserver
}

/// Download delegates to make.
pub open spec fn download_delegates() -> Kind {
    |c: CommandView| c is CreateDownloadDelegate
}

/// Navigation delegates to make.
pub open spec fn navigation_delegates() -> Kind {
    |c: CommandView| c is CreateNavigationDelegate
}

/// Navigation delegates to set.
pub open spec fn navigation_settings() -> Kind {
    |c: CommandView| c is SetNavigationDelegate
}

/// Delegates for the user interface to make.
pub open spec fn ui_delegates() -> Kind {
    |c: CommandView| c is CreateUiDelegate
}

/// Delegates for the user interface to set.
pub open spec fn ui_settings() -> Kind {
    |c: CommandView| c is SetUiDelegate
}

/// Lines under title bars to hide.
pub open spec fn separators() -> Kind {
    |c: CommandView| c is HideTitlebarSeparator
}

/// Web views to initialise, and values of the preferences to set.
pub open spec fn preferences_and_initialisations() -> Kind {
    |c: CommandView| c is SetPreference || c is InitWithFrame || c is InitWithParentFrame
}

/// What puts a web view into its window.
pub open spec fn injections() -> Kind {
    |c: CommandView|
        c is AddToView || c is CreateParentView || c is SetParentAutoresizing
            || c is AddToParentView || c is SetContentView || c is MakeFirstResponder
            || c is ActivateApplication
}

proof fn lemma_add(a: Seq<CommandView>, b: Seq<CommandView>)
    ensures
        a.len() == 0 ==> a + b == b,
        b.len() == 0 ==> a + b == a,
{
    if a.len() == 0 {
        assert(a + b =~= b);
    }
    if b.len() == 0 {
        assert(a + b =~= a);
    }
}

/// A list is what a sum of seven lists comes to when all but one of them, or all but a certain two,
/// are empty.
spec fn seven(
    sum: Seq<CommandView>,
    a: Seq<CommandView>,
    b: Seq<CommandView>,
    c: Seq<CommandView>,
    d: Seq<CommandView>,
    e: Seq<CommandView>,
    f: Seq<CommandView>,
    g: Seq<CommandView>,
) -> bool {
    &&& b.len() + c.len() + d.len() + e.len() + f.len() + g.len() == 0 ==> sum == a
    &&& a.len() + c.len() + d.len() + e.len() + f.len() + g.len() == 0 ==> sum == b
    &&& a.len() + b.len() + d.len() + e.len() + f.len() + g.len() == 0 ==> sum == c
    &&& a.len() + b.len() + c.len() + e.len() + f.len() + g.len() == 0 ==> sum == d
    &&& a.len() + b.len() + c.len() + d.len() + f.len() + g.len() == 0 ==> sum == e
    &&& a.len() + b.len() + c.len() + d.len() + e.len() + g.len() == 0 ==> sum == f
    &&& a.len() + b.len() + c.len() + d.len() + e.len() + f.len() == 0 ==> sum == g
    &&& a.len() + b.len() + c.len() + d.len() + e.len() + f.len() + g.len() == 0 ==> sum == Seq::<
        CommandView,
    >::empty()
    &&& a.len() + b.len() + c.len() + e.len() + g.len() == 0 ==> sum == d + f
    &&& a.len() + b.len() + d.len() + e.len() + f.len() == 0 ==> sum == c + g
}

proof fn lemma_seven(
    a: Seq<CommandView>,
    b: Seq<CommandView>,
    c: Seq<CommandView>,
    d: Seq<CommandView>,
    e: Seq<CommandView>,
    f: Seq<CommandView>,
    g: Seq<CommandView>,
)
    ensures
        seven(a + b + c + d + e + f + g, a, b, c, d, e, f, g),
{
    lemma_add(a, b);
    lemma_add(a + b, c);
    lemma_add(a + b + c, d);
    lemma_add(a + b + c + d, e);
    lemma_add(a + b + c + d + e, f);
    lemma_add(a + b + c + d + e + f, g);
    if a.len() + b.len() + c.len() + d.len() + e.len() + f.len() + g.len() == 0 {
        assert(g =~= Seq::<CommandView>::empty());
    }
}

/// A list is what a sum of three lists comes to when all but one of them are empty.
spec fn three(
    sum: Seq<CommandView>,
    a: Seq<CommandView>,
    b: Seq<CommandView>,
    c: Seq<CommandView>,
) -> bool {
    &&& b.len() + c.len() == 0 ==> sum == a
    &&& a.len() + c.len() == 0 ==> sum == b
    &&& a.len() + b.len() == 0 ==> sum == c
    &&& a.len() + b.len() + c.len() == 0 ==> sum == Seq::<CommandView>::empty()
}

proof fn lemma_three(a: Seq<CommandView>, b: Seq<CommandView>, c: Seq<CommandView>)
    ensures
        three(a + b + c, a, b, c),
{
    lemma_add(a, b);
    lemma_add(a + b, c);
    if a.len() + b.len() + c.len() == 0 {
        assert(c =~= Seq::<CommandView>::empty());
    }
}

/// A command, provided that a condition holds; nothing otherwise.
pub open spec fn provided(condition: bool, command: CommandView) -> Seq<CommandView> {
    if condition {
        seq![command]
    } else {
        Seq::empty()
    }
}

/// The commands of a kind, out of a list, are just these.
pub open spec fn just(
    commands: Seq<CommandView>,
    kind: Kind,
    expected: Seq<CommandView>,
) -> bool {
    commands.filter(kind) == expected
}

/// A command that is given under a condition, if it is of a kind.
spec fn sifted(condition: bool, command: CommandView, kind: Kind) -> Seq<CommandView> {
    if condition && kind(command) {
        seq![command]
    } else {
        Seq::empty()
    }
}

proof fn lemma_sifted(condition: bool, command: CommandView, kind: Kind)
    ensures
        crate::command::when(condition, command).filter(kind) == sifted(condition, command, kind),
        seq![command].filter(kind) == sifted(true, command, kind),
{
    super::lemma_single(command, kind);
    if !condition {
        super::lemma_none(Seq::empty(), kind);
    }
}

proof fn lemma_sifted_values(plan: Plan, kind: Kind)
    ensures
        seven(
            crate::creation::configuration_values(plan).filter(kind),
            sifted(true, CommandView::AttachDataStore, kind),
            sifted(
                plan.features.mac_proxy && plan.attributes.proxy_config is Some,
                CommandView::SetProxy(plan.attributes.proxy_config->0),
                kind,
            ),
            sifted(
                true,
                CommandView::SetPreference {
                    key: "allowsPictureInPictureMediaPlayback"@,
                    value: true,
                },
                kind,
            ),
            sifted(
                plan.platform is Ios,
                CommandView::SetConfiguration { key: "allowsInlineMediaPlayback"@, value: true },
                kind,
            ),
            sifted(plan.attributes.autoplay, CommandView::AllowAutoplay, kind),
            sifted(
                plan.features.transparent && plan.attributes.transparent,
                CommandView::SetConfiguration { key: "drawsBackground"@, value: false },
                kind,
            ),
            sifted(
                plan.features.fullscreen,
                CommandView::SetPreference { key: "fullScreenEnabled"@, value: true },
                kind,
            ),
        ),
{
    let proxied = plan.features.mac_proxy && plan.attributes.proxy_config is Some;
    let proxy = CommandView::SetProxy(plan.attributes.proxy_config->0);
    let picture = CommandView::SetPreference {
        key: "allowsPictureInPictureMediaPlayback"@,
        value: true,
    };
    let inline = CommandView::SetConfiguration { key: "allowsInlineMediaPlayback"@, value: true };
    let clear = plan.features.transparent && plan.attributes.transparent;
    let undrawn = CommandView::SetConfiguration { key: "drawsBackground"@, value: false };
    let full = CommandView::SetPreference { key: "fullScreenEnabled"@, value: true };
    let a = seq![CommandView::AttachDataStore];
    let b = crate::command::when(proxied, proxy);
    let c = seq![picture];
    let d = crate::command::when(plan.platform is Ios, inline);
    let e = crate::command::when(plan.attributes.autoplay, CommandView::AllowAutoplay);
    let f = crate::command::when(clear, undrawn);
    let g = crate::command::when(plan.features.fullscreen, full);
    assert(crate::creation::configuration_values(plan) == a + b + c + d + e + f + g);
    lemma_sum_of_seven(a, b, c, d, e, f, g, kind);
    lemma_sifted(true, CommandView::AttachDataStore, kind);
    lemma_sifted(proxied, proxy, kind);
    lemma_sifted(true, picture, kind);
    lemma_sifted(plan.platform is Ios, inline, kind);
    lemma_sifted(plan.attributes.autoplay, CommandView::AllowAutoplay, kind);
    lemma_sifted(clear, undrawn, kind);
    lemma_sifted(plan.features.fullscreen, full, kind);
}

proof fn lemma_sum_of_seven(
    a: Seq<CommandView>,
    b: Seq<CommandView>,
    c: Seq<CommandView>,
    d: Seq<CommandView>,
    e: Seq<CommandView>,
    f: Seq<CommandView>,
    g: Seq<CommandView>,
    kind: Kind,
)
    ensures
        seven(
            (a + b + c + d + e + f + g).filter(kind),
            a.filter(kind),
            b.filter(kind),
            c.filter(kind),
            d.filter(kind),
            e.filter(kind),
            f.filter(kind),
            g.filter(kind),
        ),
{
    super::lemma_sum(a, b, kind);
    super::lemma_sum(a + b, c, kind);
    super::lemma_sum(a + b + c, d, kind);
    super::lemma_sum(a + b + c + d, e, kind);
    super::lemma_sum(a + b + c + d + e, f, kind);
    super::lemma_sum(a + b + c + d + e + f, g, kind);
    lemma_seven(
        a.filter(kind),
        b.filter(kind),
        c.filter(kind),
        d.filter(kind),
        e.filter(kind),
        f.filter(kind),
        g.filter(kind),
    );
}

proof fn lemma_sum_of_three(
    a: Seq<CommandView>,
    b: Seq<CommandView>,
    c: Seq<CommandView>,
    kind: Kind,
)
    ensures
        three((a + b + c).filter(kind), a.filter(kind), b.filter(kind), c.filter(kind)),
{
    super::lemma_sum(a, b, kind);
    super::lemma_sum(a + b, c, kind);
    lemma_three(a.filter(kind), b.filter(kind), c.filter(kind));
}

proof fn lemma_nothing(kind: Kind)
    ensures
        Seq::<CommandView>::empty().filter(kind) == Seq::<CommandView>::empty(),
{
    super::lemma_none(Seq::empty(), kind);
}

/// How a plan's web view is allocated.
spec fn allocation(plan: Plan) -> CommandView {
    CommandView::AllocateWebView {
        is_child: plan.is_child,
        mouse: match plan.platform {
            Platform::MacOs => Some(
                MouseBehavior {
                    drag_drop_handler: plan.attributes.drag_drop_handler,
                    accept_first_mouse: plan.attributes.accept_first_mouse,
                },
            ),
            Platform::Ios => None,
        },
    }
}

proof fn lemma_sifted_configuration(plan: Plan, kind: Kind)
    ensures
        three(
            crate::creation::configuration(plan).filter(kind),
            sifted(true, CommandView::OpenUserContentController, kind),
            sifted(true, allocation(plan), kind),
            crate::creation::configuration_values(plan).filter(kind),
        ),
{
    let open = CommandView::OpenUserContentController;
    let values = crate::creation::configuration_values(plan);
    lemma_sum_of_three(seq![open], seq![allocation(plan)], values, kind);
    lemma_sifted(true, open, kind);
    lemma_sifted(true, allocation(plan), kind);
}

/// How a plan's web view follows the size of its parent.
spec fn mask(plan: Plan) -> CommandView {
    CommandView::SetAutoresizing(
        match (plan.platform, plan.is_child) {
            (Platform::MacOs, true) => Autoresizing::MinYMargin,
            (Platform::MacOs, false) => Autoresizing::WidthAndHeight,
            (Platform::Ios, _) => Autoresizing::Everything,
        },
    )
}

proof fn lemma_sifted_settings(plan: Plan, kind: Kind)
    ensures
        seven(
            crate::creation::first_settings(plan).filter(kind),
            sifted(true, mask(plan), kind),
            sifted(
                plan.platform is MacOs,
                CommandView::SetBackForwardGestures(
                    plan.attributes.back_forward_navigation_gestures,
                ),
                kind,
            ),
            sifted(
                plan.platform is MacOs,
                CommandView::SetPreference { key: "tabFocusesLinks"@, value: true },
                kind,
            ),
            sifted(plan.platform is Ios, CommandView::SetScrollBounce(false), kind),
            sifted(!plan.attributes.visible, CommandView::SetHidden(true), kind),
            Seq::empty(),
            Seq::empty(),
        ),
{
    let mac_os = plan.platform is MacOs;
    let gestures = CommandView::SetBackForwardGestures(
        plan.attributes.back_forward_navigation_gestures,
    );
    let tab = CommandView::SetPreference { key: "tabFocusesLinks"@, value: true };
    let bounce = CommandView::SetScrollBounce(false);
    let a = seq![mask(plan)];
    let b = crate::command::when(mac_os, gestures);
    let c = crate::command::when(mac_os, tab);
    let d = crate::command::when(!mac_os, bounce);
    let e = crate::command::when(!plan.attributes.visible, CommandView::SetHidden(true));
    let none = Seq::<CommandView>::empty();
    assert(crate::creation::first_behavior(plan) =~= a + b + c + d);
    assert(a + b + c + d + e + none + none =~= a + b + c + d + e);
    lemma_sum_of_seven(a, b, c, d, e, none, none, kind);
    lemma_sifted(true, mask(plan), kind);
    lemma_sifted(mac_os, gestures, kind);
    lemma_sifted(mac_os, tab, kind);
    lemma_sifted(!mac_os, bounce, kind);
    lemma_sifted(!plan.attributes.visible, CommandView::SetHidden(true), kind);
    lemma_nothing(kind);
}

/// The navigation delegate of a plan.
spec fn navigation_delegate(plan: Plan) -> CommandView {
    CommandView::CreateNavigationDelegate {
        has_download_handler: plan.attributes.download_started_handler,
        navigation_handler: plan.attributes.navigation_handler,
        new_window_req_handler: plan.attributes.new_window_req_handler,
        download_delegate: plan.attributes.download_started_handler
            || plan.attributes.download_completed_handler,
        on_page_load_handler: plan.attributes.on_page_load_handler,
    }
}

/// The download delegate of a plan.
spec fn download_delegate(plan: Plan) -> CommandView {
    CommandView::CreateDownloadDelegate {
        started: plan.attributes.download_started_handler,
        completed: plan.attributes.download_completed_handler,
    }
}

proof fn lemma_sifted_delegates(plan: Plan, kind: Kind)
    ensures
        seven(
            crate::creation::delegates(plan).filter(kind),
            sifted(
                plan.attributes.document_title_changed_handler,
                CommandView::CreateTitleObserver,
                kind,
            ),
            sifted(
                plan.attributes.download_started_handler
                    || plan.attributes.download_completed_handler,
                download_delegate(plan),
                kind,
            ),
            sifted(true, navigation_delegate(plan), kind),
            sifted(true, CommandView::SetNavigationDelegate, kind),
            sifted(true, CommandView::CreateUiDelegate, kind),
            sifted(true, CommandView::SetUiDelegate, kind),
            Seq::empty(),
        ),
{
    let titled = plan.attributes.document_title_changed_handler;
    let downloads = plan.attributes.download_started_handler
        || plan.attributes.download_completed_handler;
    let a = crate::command::when(titled, CommandView::CreateTitleObserver);
    let b = crate::command::when(downloads, download_delegate(plan));
    let c = seq![navigation_delegate(plan)];
    let d = seq![CommandView::SetNavigationDelegate];
    let e = seq![CommandView::CreateUiDelegate];
    let f = seq![CommandView::SetUiDelegate];
    let none = Seq::<CommandView>::empty();
    assert(crate::creation::delegates(plan) =~= a + b + c + d + e + f + none);
    lemma_sum_of_seven(a, b, c, d, e, f, none, kind);
    lemma_sifted(titled, CommandView::CreateTitleObserver, kind);
    lemma_sifted(downloads, download_delegate(plan), kind);
    lemma_sifted(true, navigation_delegate(plan), kind);
    lemma_sifted(true, CommandView::SetNavigationDelegate, kind);
    lemma_sifted(true, CommandView::CreateUiDelegate, kind);
    lemma_sifted(true, CommandView::SetUiDelegate, kind);
    lemma_nothing(kind);
}

proof fn lemma_sifted_connection(plan: Plan, answers: Answers, kind: Kind)
    ensures
        seven(
            crate::dialogue::connected(plan, answers).filter(kind),
            sifted(
                plan.features.devtools && plan.attributes.devtools && answers.knows_inspectable,
                CommandView::SetInspectable(true),
                kind,
            ),
            sifted(
                plan.features.devtools && plan.attributes.devtools,
                CommandView::SetPreference { key: "developerExtrasEnabled"@, value: true },
                kind,
            ),
            sifted(plan.attributes.ipc_handler, CommandView::CreateIpcHandler, kind),
            crate::creation::delegates(plan).filter(kind),
            sifted(
                plan.platform is MacOs && answers.knows_titlebar_style,
                CommandView::HideTitlebarSeparator,
                kind,
            ),
            Seq::empty(),
            Seq::empty(),
        ),
{
    let inspected = plan.features.devtools && plan.attributes.devtools;
    let extras = CommandView::SetPreference { key: "developerExtrasEnabled"@, value: true };
    let inspectable = CommandView::SetInspectable(true);
    let titled = plan.platform is MacOs && answers.knows_titlebar_style;
    let a = crate::command::when(inspected && answers.knows_inspectable, inspectable);
    let b = crate::command::when(inspected, extras);
    let c = crate::command::when(plan.attributes.ipc_handler, CommandView::CreateIpcHandler);
    let d = crate::creation::delegates(plan);
    let e = crate::command::when(titled, CommandView::HideTitlebarSeparator);
    let none = Seq::<CommandView>::empty();
    let first = if crate::creation::inspected(plan) {
        crate::creation::inspection(answers.knows_inspectable)
    } else {
        Seq::empty()
    };
    assert(first =~= a + b);
    lemma_grouped(a, b, c, d, e);
    lemma_sum_of_seven(a, b, c, d, e, none, none, kind);
    lemma_sifted(inspected && answers.knows_inspectable, inspectable, kind);
    lemma_sifted(inspected, extras, kind);
    lemma_sifted(plan.attributes.ipc_handler, CommandView::CreateIpcHandler, kind);
    lemma_sifted(titled, CommandView::HideTitlebarSeparator, kind);
    lemma_nothing(kind);
}

proof fn lemma_grouped(
    a: Seq<CommandView>,
    b: Seq<CommandView>,
    c: Seq<CommandView>,
    d: Seq<CommandView>,
    e: Seq<CommandView>,
)
    ensures
        (a + b) + (c + d) + e == a + b + c + d + e + Seq::<CommandView>::empty() + Seq::<
            CommandView,
        >::empty(),
{
    assert((a + b) + (c + d) + e =~= a + b + c + d + e + Seq::<CommandView>::empty() + Seq::<
        CommandView,
    >::empty());
}

proof fn lemma_of_configuration(
    plan: Plan,
    answers: Answers,
    kind: Kind,
    expected: Seq<CommandView>,
)
    requires
        crate::dialogue::end(plan, answers) is Done,
        super::off_preparation(kind),
        super::off_schemes(kind),
        super::off_initialisation(kind),
        super::off_opening(kind),
        super::off_settings(kind),
        super::off_connection(kind),
        just(crate::creation::configuration(plan), kind, expected),
    ensures
        just(crate::dialogue::all_commands(plan, answers), kind, expected),
{
    super::lemma_found(plan, answers, kind);
}

proof fn lemma_of_settings(
    plan: Plan,
    answers: Answers,
    kind: Kind,
    expected: Seq<CommandView>,
)
    requires
        crate::dialogue::end(plan, answers) is Done,
        super::off_preparation(kind),
        super::off_schemes(kind),
        super::off_initialisation(kind),
        super::off_opening(kind),
        super::off_configuration(kind),
        super::off_connection(kind),
        just(crate::creation::first_settings(plan), kind, expected),
    ensures
        just(crate::dialogue::all_commands(plan, answers), kind, expected),
{
    super::lemma_found(plan, answers, kind);
}

proof fn lemma_of_connection(
    plan: Plan,
    answers: Answers,
    kind: Kind,
    expected: Seq<CommandView>,
)
    requires
        crate::dialogue::end(plan, answers) is Done,
        super::off_preparation(kind),
        super::off_schemes(kind),
        super::off_initialisation(kind),
        super::off_opening(kind),
        super::off_configuration(kind),
        super::off_settings(kind),
        just(crate::dialogue::connected(plan, answers), kind, expected),
    ensures
        just(crate::dialogue::all_commands(plan, answers), kind, expected),
{
    super::lemma_found(plan, answers, kind);
}

proof fn lemma_controllers_told(plan: Plan, answers: Answers, expected: Seq<CommandView>)
    requires
        crate::dialogue::end(plan, answers) is Done,
        just(crate::creation::configuration(plan), controllers(), expected),
    ensures
        just(crate::dialogue::all_commands(plan, answers), controllers(), expected),
{
    lemma_of_configuration(plan, answers, controllers(), expected);
}

proof fn lemma_controllers(plan: Plan)
    ensures
        just(
            crate::creation::configuration(plan),
            controllers(),
            seq![CommandView::OpenUserContentController],
        ),
{
    lemma_sifted_configuration(plan, controllers());
    super::lemma_configuration_values(plan, controllers());
    super::lemma_none(crate::creation::configuration_values(plan), controllers());
}

proof fn lemma_allocations_told(plan: Plan, answers: Answers, expected: Seq<CommandView>)
    requires
        crate::dialogue::end(plan, answers) is Done,
        just(crate::creation::configuration(plan), super::allocations(), expected),
    ensures
        just(crate::dialogue::all_commands(plan, answers), super::allocations(), expected),
{
    lemma_of_configuration(plan, answers, super::allocations(), expected);
}

proof fn lemma_allocations(plan: Plan)
    ensures
        just(crate::creation::configuration(plan), super::allocations(), seq![
            CommandView::AllocateWebView {
                is_child: plan.is_child,
                mouse: match plan.platform {
                    Platform::MacOs => Some(
                        MouseBehavior {
                            drag_drop_handler: plan.attributes.drag_drop_handler,
                            accept_first_mouse: plan.attributes.accept_first_mouse,
                        },
                    ),
                    Platform::Ios => None,
                },
            },
        ]),
{
    lemma_sifted_configuration(plan, super::allocations());
    super::lemma_configuration_values(plan, super::allocations());
    super::lemma_none(crate::creation::configuration_values(plan), super::allocations());
}

proof fn lemma_attachments_told(plan: Plan, answers: Answers, expected: Seq<CommandView>)
    requires
        crate::dialogue::end(plan, answers) is Done,
        just(crate::creation::configuration(plan), attachments(), expected),
    ensures
        just(crate::dialogue::all_commands(plan, answers), attachments(), expected),
{
    lemma_of_configuration(plan, answers, attachments(), expected);
}

proof fn lemma_attachments(plan: Plan)
    ensures
        just(
            crate::creation::configuration(plan),
            attachments(),
            seq![CommandView::AttachDataStore],
        ),
{
    lemma_sifted_configuration(plan, attachments());
    lemma_sifted_values(plan, attachments());
}

proof fn lemma_proxies_told(plan: Plan, answers: Answers, expected: Seq<CommandView>)
    requires
        crate::dialogue::end(plan, answers) is Done,
        just(crate::creation::configuration(plan), proxies(), expected),
    ensures
        just(crate::dialogue::all_commands(plan, answers), proxies(), expected),
{
    lemma_of_configuration(plan, answers, proxies(), expected);
}

proof fn lemma_proxies(plan: Plan)
    ensures
        just(
            crate::creation::configuration(plan),
            proxies(),
            provided(
                plan.features.mac_proxy && plan.attributes.proxy_config is Some,
                CommandView::SetProxy(plan.attributes.proxy_config->0),
            ),
        ),
{
    lemma_sifted_configuration(plan, proxies());
    lemma_sifted_values(plan, proxies());
}

proof fn lemma_autoplays_told(plan: Plan, answers: Answers, expected: Seq<CommandView>)
    requires
        crate::dialogue::end(plan, answers) is Done,
        just(crate::creation::configuration(plan), autoplays(), expected),
    ensures
        just(crate::dialogue::all_commands(plan, answers), autoplays(), expected),
{
    lemma_of_configuration(plan, answers, autoplays(), expected);
}

proof fn lemma_autoplays(plan: Plan)
    ensures
        just(
            crate::creation::configuration(plan),
            autoplays(),
            provided(plan.attributes.autoplay, CommandView::AllowAutoplay),
        ),
{
    lemma_sifted_configuration(plan, autoplays());
    lemma_sifted_values(plan, autoplays());
}

/// A web view that is made is allocated once, as a child or not and with the mouse behaviour that was
/// asked for where there is a mouse; its data store is attached once; a proxy is set just where there
/// is one and it can be set; and media play by themselves just where they were asked to.
pub proof fn lemma_configured_as_asked(plan: Plan, answers: Answers)
    requires
        crate::dialogue::end(plan, answers) is Done,
    ensures
        just(
            crate::dialogue::all_commands(plan, answers),
            controllers(),
            seq![CommandView::OpenUserContentController],
        ),
        just(crate::dialogue::all_commands(plan, answers), super::allocations(), seq![
            CommandView::AllocateWebView {
                is_child: plan.is_child,
                mouse: match plan.platform {
                    Platform::MacOs => Some(
                        MouseBehavior {
                            drag_drop_handler: plan.attributes.drag_drop_handler,
                            accept_first_mouse: plan.attributes.accept_first_mouse,
                        },
                    ),
                    Platform::Ios => None,
                },
            },
        ]),
        just(
            crate::dialogue::all_commands(plan, answers),
            attachments(),
            seq![CommandView::AttachDataStore],
        ),
        just(
            crate::dialogue::all_commands(plan, answers),
            proxies(),
            provided(
                plan.features.mac_proxy && plan.attributes.proxy_config is Some,
                CommandView::SetProxy(plan.attributes.proxy_config->0),
            ),
        ),
        just(
            crate::dialogue::all_commands(plan, answers),
            autoplays(),
            provided(plan.attributes.autoplay, CommandView::AllowAutoplay),
        ),
{
    lemma_controllers(plan);
    lemma_controllers_told(plan, answers, seq![CommandView::OpenUserContentController]);
    lemma_allocations(plan);
    lemma_allocations_told(plan, answers, seq![
            CommandView::AllocateWebView {
                is_child: plan.is_child,
                mouse: match plan.platform {
                    Platform::MacOs => Some(
                        MouseBehavior {
                            drag_drop_handler: plan.attributes.drag_drop_handler,
                            accept_first_mouse: plan.attributes.accept_first_mouse,
                        },
                    ),
                    Platform::Ios => None,
                },
            },
        ]);
    lemma_attachments(plan);
    lemma_attachments_told(plan, answers, seq![CommandView::AttachDataStore]);
    lemma_proxies(plan);
    lemma_proxies_told(
        plan,
        answers,
        provided(
            plan.features.mac_proxy && plan.attributes.proxy_config is Some,
            CommandView::SetProxy(plan.attributes.proxy_config->0),
        ),
    );
    lemma_autoplays(plan);
    lemma_autoplays_told(
        plan,
        answers,
        provided(plan.attributes.autoplay, CommandView::AllowAutoplay),
    );
}

proof fn lemma_values_told(plan: Plan, answers: Answers, expected: Seq<CommandView>)
    requires
        crate::dialogue::end(plan, answers) is Done,
        just(crate::creation::configuration(plan), values(), expected),
    ensures
        just(crate::dialogue::all_commands(plan, answers), values(), expected),
{
    lemma_of_configuration(plan, answers, values(), expected);
}

proof fn lemma_values(plan: Plan)
    ensures
        just(
            crate::creation::configuration(plan),
            values(),
            provided(
                plan.platform is Ios,
                CommandView::SetConfiguration { key: "allowsInlineMediaPlayback"@, value: true },
            ) + provided(
                plan.features.transparent && plan.attributes.transparent,
                CommandView::SetConfiguration { key: "drawsBackground"@, value: false },
            ),
        ),
{
    lemma_sifted_configuration(plan, values());
    lemma_sifted_values(plan, values());
    lemma_nothing(values());
}

/// On iOS media can play in the page, and a background that was asked to be transparent is left undrawn
/// where that can be; no other value of the configuration is set.
pub proof fn lemma_configuration_values_as_asked(plan: Plan, answers: Answers)
    requires
        crate::dialogue::end(plan, answers) is Done,
    ensures
        just(
            crate::dialogue::all_commands(plan, answers),
            values(),
            provided(
                plan.platform is Ios,
                CommandView::SetConfiguration { key: "allowsInlineMediaPlayback"@, value: true },
            ) + provided(
                plan.features.transparent && plan.attributes.transparent,
                CommandView::SetConfiguration { key: "drawsBackground"@, value: false },
            ),
        ),
{
    lemma_values(plan);
    lemma_values_told(
        plan,
        answers,
        provided(
            plan.platform is Ios,
            CommandView::SetConfiguration { key: "allowsInlineMediaPlayback"@, value: true },
        ) + provided(
            plan.features.transparent && plan.attributes.transparent,
            CommandView::SetConfiguration { key: "drawsBackground"@, value: false },
        ),
    );
}

proof fn lemma_masks_told(plan: Plan, answers: Answers, expected: Seq<CommandView>)
    requires
        crate::dialogue::end(plan, answers) is Done,
        just(crate::creation::first_settings(plan), masks(), expected),
    ensures
        just(crate::dialogue::all_commands(plan, answers), masks(), expected),
{
    lemma_of_settings(plan, answers, masks(), expected);
}

proof fn lemma_masks(plan: Plan)
    ensures
        just(crate::creation::first_settings(plan), masks(), seq![
            CommandView::SetAutoresizing(
                match (plan.platform, plan.is_child) {
                    (Platform::MacOs, true) => Autoresizing::MinYMargin,
                    (Platform::MacOs, false) => Autoresizing::WidthAndHeight,
                    (Platform::Ios, _) => Autoresizing::Everything,
                },
            ),
        ]),
{
    lemma_sifted_settings(plan, masks());
}

proof fn lemma_gestures_told(plan: Plan, answers: Answers, expected: Seq<CommandView>)
    requires
        crate::dialogue::end(plan, answers) is Done,
        just(crate::creation::first_settings(plan), gestures(), expected),
    ensures
        just(crate::dialogue::all_commands(plan, answers), gestures(), expected),
{
    lemma_of_settings(plan, answers, gestures(), expected);
}

proof fn lemma_gestures(plan: Plan)
    ensures
        just(
            crate::creation::first_settings(plan),
            gestures(),
            provided(
                plan.platform is MacOs,
                CommandView::SetBackForwardGestures(
                    plan.attributes.back_forward_navigation_gestures,
                ),
            ),
        ),
{
    lemma_sifted_settings(plan, gestures());
}

proof fn lemma_bounces_told(plan: Plan, answers: Answers, expected: Seq<CommandView>)
    requires
        crate::dialogue::end(plan, answers) is Done,
        just(crate::creation::first_settings(plan), bounces(), expected),
    ensures
        just(crate::dialogue::all_commands(plan, answers), bounces(), expected),
{
    lemma_of_settings(plan, answers, bounces(), expected);
}

proof fn lemma_bounces(plan: Plan)
    ensures
        just(
            crate::creation::first_settings(plan),
            bounces(),
            provided(plan.platform is Ios, CommandView::SetScrollBounce(false)),
        ),
{
    lemma_sifted_settings(plan, bounces());
}

proof fn lemma_hidings_told(plan: Plan, answers: Answers, expected: Seq<CommandView>)
    requires
        crate::dialogue::end(plan, answers) is Done,
        just(crate::creation::first_settings(plan), super::hidings(), expected),
    ensures
        just(crate::dialogue::all_commands(plan, answers), super::hidings(), expected),
{
    lemma_of_settings(plan, answers, super::hidings(), expected);
}

proof fn lemma_hidings(plan: Plan)
    ensures
        just(
            crate::creation::first_settings(plan),
            super::hidings(),
            provided(!plan.attributes.visible, CommandView::SetHidden(true)),
        ),
{
    lemma_sifted_settings(plan, super::hidings());
}

/// A child on macOS stays where it is, any other web view there stretches with its parent, and on iOS
/// all its margins stretch too; on macOS the gestures are as asked for, and on iOS scrolling does not
/// bounce; and the web view is hidden just if it was not asked to be visible.
pub proof fn lemma_settings_as_asked(plan: Plan, answers: Answers)
    requires
        crate::dialogue::end(plan, answers) is Done,
    ensures
        just(crate::dialogue::all_commands(plan, answers), masks(), seq![
            CommandView::SetAutoresizing(
                match (plan.platform, plan.is_child) {
                    (Platform::MacOs, true) => Autoresizing::MinYMargin,
                    (Platform::MacOs, false) => Autoresizing::WidthAndHeight,
                    (Platform::Ios, _) => Autoresizing::Everything,
                },
            ),
        ]),
        just(
            crate::dialogue::all_commands(plan, answers),
            gestures(),
            provided(
                plan.platform is MacOs,
                CommandView::SetBackForwardGestures(
                    plan.attributes.back_forward_navigation_gestures,
                ),
            ),
        ),
        just(
            crate::dialogue::all_commands(plan, answers),
            bounces(),
            provided(plan.platform is Ios, CommandView::SetScrollBounce(false)),
        ),
        just(
            crate::dialogue::all_commands(plan, answers),
            super::hidings(),
            provided(!plan.attributes.visible, CommandView::SetHidden(true)),
        ),
{
    lemma_masks(plan);
    lemma_masks_told(plan, answers, seq![
            CommandView::SetAutoresizing(
                match (plan.platform, plan.is_child) {
                    (Platform::MacOs, true) => Autoresizing::MinYMargin,
                    (Platform::MacOs, false) => Autoresizing::WidthAndHeight,
                    (Platform::Ios, _) => Autoresizing::Everything,
                },
            ),
        ]);
    lemma_gestures(plan);
    lemma_gestures_told(
        plan,
        answers,
        provided(
            plan.platform is MacOs,
            CommandView::SetBackForwardGestures(plan.attributes.back_forward_navigation_gestures),
        ),
    );
    lemma_bounces(plan);
    lemma_bounces_told(
        plan,
        answers,
        provided(plan.platform is Ios, CommandView::SetScrollBounce(false)),
    );
    lemma_hidings(plan);
    lemma_hidings_told(
        plan,
        answers,
        provided(!plan.attributes.visible, CommandView::SetHidden(true)),
    );
}

proof fn lemma_navigation_delegates_told(plan: Plan, answers: Answers, expected: Seq<CommandView>)
    requires
        crate::dialogue::end(plan, answers) is Done,
        just(crate::dialogue::connected(plan, answers), navigation_delegates(), expected),
    ensures
        just(crate::dialogue::all_commands(plan, answers), navigation_delegates(), expected),
{
    lemma_of_connection(plan, answers, navigation_delegates(), expected);
}

proof fn lemma_navigation_delegates(plan: Plan, answers: Answers)
    ensures
        just(crate::dialogue::connected(plan, answers), navigation_delegates(), seq![
            CommandView::CreateNavigationDelegate {
                has_download_handler: plan.attributes.download_started_handler,
                navigation_handler: plan.attributes.navigation_handler,
                new_window_req_handler: plan.attributes.new_window_req_handler,
                download_delegate: plan.attributes.download_started_handler
                    || plan.attributes.download_completed_handler,
                on_page_load_handler: plan.attributes.on_page_load_handler,
            },
        ]),
{
    lemma_sifted_connection(plan, answers, navigation_delegates());
    lemma_sifted_delegates(plan, navigation_delegates());
}

proof fn lemma_navigation_settings_told(plan: Plan, answers: Answers, expected: Seq<CommandView>)
    requires
        crate::dialogue::end(plan, answers) is Done,
        just(crate::dialogue::connected(plan, answers), navigation_settings(), expected),
    ensures
        just(crate::dialogue::all_commands(plan, answers), navigation_settings(), expected),
{
    lemma_of_connection(plan, answers, navigation_settings(), expected);
}

proof fn lemma_navigation_settings(plan: Plan, answers: Answers)
    ensures
        just(
            crate::dialogue::connected(plan, answers),
            navigation_settings(),
            seq![CommandView::SetNavigationDelegate],
        ),
{
    lemma_sifted_connection(plan, answers, navigation_settings());
    lemma_sifted_delegates(plan, navigation_settings());
}

proof fn lemma_ui_delegates_told(plan: Plan, answers: Answers, expected: Seq<CommandView>)
    requires
        crate::dialogue::end(plan, answers) is Done,
        just(crate::dialogue::connected(plan, answers), ui_delegates(), expected),
    ensures
        just(crate::dialogue::all_commands(plan, answers), ui_delegates(), expected),
{
    lemma_of_connection(plan, answers, ui_delegates(), expected);
}

proof fn lemma_ui_delegates(plan: Plan, answers: Answers)
    ensures
        just(
            crate::dialogue::connected(plan, answers),
            ui_delegates(),
            seq![CommandView::CreateUiDelegate],
        ),
{
    lemma_sifted_connection(plan, answers, ui_delegates());
    lemma_sifted_delegates(plan, ui_delegates());
}

proof fn lemma_ui_settings_told(plan: Plan, answers: Answers, expected: Seq<CommandView>)
    requires
        crate::dialogue::end(plan, answers) is Done,
        just(crate::dialogue::connected(plan, answers), ui_settings(), expected),
    ensures
        just(crate::dialogue::all_commands(plan, answers), ui_settings(), expected),
{
    lemma_of_connection(plan, answers, ui_settings(), expected);
}

proof fn lemma_ui_settings(plan: Plan, answers: Answers)
    ensures
        just(
            crate::dialogue::connected(plan, answers),
            ui_settings(),
            seq![CommandView::SetUiDelegate],
        ),
{
    lemma_sifted_connection(plan, answers, ui_settings());
    lemma_sifted_delegates(plan, ui_settings());
}

/// There is just one navigation delegate, and it gets just those handlers that the caller gave; a
/// download delegate goes with it just if the caller gave a handler for downloads.
pub proof fn lemma_navigation_delegate_as_asked(plan: Plan, answers: Answers)
    requires
        crate::dialogue::end(plan, answers) is Done,
    ensures
        just(crate::dialogue::all_commands(plan, answers), navigation_delegates(), seq![
            CommandView::CreateNavigationDelegate {
                has_download_handler: plan.attributes.download_started_handler,
                navigation_handler: plan.attributes.navigation_handler,
                new_window_req_handler: plan.attributes.new_window_req_handler,
                download_delegate: plan.attributes.download_started_handler
                    || plan.attributes.download_completed_handler,
                on_page_load_handler: plan.attributes.on_page_load_handler,
            },
        ]),
        just(
            crate::dialogue::all_commands(plan, answers),
            navigation_settings(),
            seq![CommandView::SetNavigationDelegate],
        ),
        just(
            crate::dialogue::all_commands(plan, answers),
            ui_delegates(),
            seq![CommandView::CreateUiDelegate],
        ),
        just(
            crate::dialogue::all_commands(plan, answers),
            ui_settings(),
            seq![CommandView::SetUiDelegate],
        ),
{
    lemma_navigation_delegates(plan, answers);
    lemma_navigation_delegates_told(plan, answers, seq![
            CommandView::CreateNavigationDelegate {
                has_download_handler: plan.attributes.download_started_handler,
                navigation_handler: plan.attributes.navigation_handler,
                new_window_req_handler: plan.attributes.new_window_req_handler,
                download_delegate: plan.attributes.download_started_handler
                    || plan.attributes.download_completed_handler,
                on_page_load_handler: plan.attributes.on_page_load_handler,
            },
        ]);
    lemma_navigation_settings(plan, answers);
    lemma_navigation_settings_told(plan, answers, seq![CommandView::SetNavigationDelegate]);
    lemma_ui_delegates(plan, answers);
    lemma_ui_delegates_told(plan, answers, seq![CommandView::CreateUiDelegate]);
    lemma_ui_settings(plan, answers);
    lemma_ui_settings_told(plan, answers, seq![CommandView::SetUiDelegate]);
}

proof fn lemma_ipc_creations_told(plan: Plan, answers: Answers, expected: Seq<CommandView>)
    requires
        crate::dialogue::end(plan, answers) is Done,
        just(crate::dialogue::connected(plan, answers), super::ipc_creations(), expected),
    ensures
        just(crate::dialogue::all_commands(plan, answers), super::ipc_creations(), expected),
{
    lemma_of_connection(plan, answers, super::ipc_creations(), expected);
}

proof fn lemma_ipc_creations(plan: Plan, answers: Answers)
    ensures
        just(
            crate::dialogue::connected(plan, answers),
            super::ipc_creations(),
            provided(plan.attributes.ipc_handler, CommandView::CreateIpcHandler),
        ),
{
    lemma_sifted_connection(plan, answers, super::ipc_creations());
    lemma_sifted_delegates(plan, super::ipc_creations());
}

proof fn lemma_title_observers_told(plan: Plan, answers: Answers, expected: Seq<CommandView>)
    requires
        crate::dialogue::end(plan, answers) is Done,
        just(crate::dialogue::connected(plan, answers), title_observers(), expected),
    ensures
        just(crate::dialogue::all_commands(plan, answers), title_observers(), expected),
{
    lemma_of_connection(plan, answers, title_observers(), expected);
}

proof fn lemma_title_observers(plan: Plan, answers: Answers)
    ensures
        just(
            crate::dialogue::connected(plan, answers),
            title_observers(),
            provided(
                plan.attributes.document_title_changed_handler,
                CommandView::CreateTitleObserver,
            ),
        ),
{
    lemma_sifted_connection(plan, answers, title_observers());
    lemma_sifted_delegates(plan, title_observers());
}

proof fn lemma_download_delegates_told(plan: Plan, answers: Answers, expected: Seq<CommandView>)
    requires
        crate::dialogue::end(plan, answers) is Done,
        just(crate::dialogue::connected(plan, answers), download_delegates(), expected),
    ensures
        just(crate::dialogue::all_commands(plan, answers), download_delegates(), expected),
{
    lemma_of_connection(plan, answers, download_delegates(), expected);
}

proof fn lemma_download_delegates(plan: Plan, answers: Answers)
    ensures
        just(
            crate::dialogue::connected(plan, answers),
            download_delegates(),
            provided(
                plan.attributes.download_started_handler
                    || plan.attributes.download_completed_handler,
                CommandView::CreateDownloadDelegate {
                    started: plan.attributes.download_started_handler,
                    completed: plan.attributes.download_completed_handler,
                },
            ),
        ),
{
    lemma_sifted_connection(plan, answers, download_delegates());
    lemma_sifted_delegates(plan, download_delegates());
}

/// The message handler, the title observer and the download delegate are made just where the caller gave
/// handlers for them.
pub proof fn lemma_handlers_as_asked(plan: Plan, answers: Answers)
    requires
        crate::dialogue::end(plan, answers) is Done,
    ensures
        just(
            crate::dialogue::all_commands(plan, answers),
            super::ipc_creations(),
            provided(plan.attributes.ipc_handler, CommandView::CreateIpcHandler),
        ),
        just(
            crate::dialogue::all_commands(plan, answers),
            title_observers(),
            provided(
                plan.attributes.document_title_changed_handler,
                CommandView::CreateTitleObserver,
            ),
        ),
        just(
            crate::dialogue::all_commands(plan, answers),
            download_delegates(),
            provided(
                plan.attributes.download_started_handler
                    || plan.attributes.download_completed_handler,
                CommandView::CreateDownloadDelegate {
                    started: plan.attributes.download_started_handler,
                    completed: plan.attributes.download_completed_handler,
                },
            ),
        ),
{
    lemma_ipc_creations(plan, answers);
    lemma_ipc_creations_told(
        plan,
        answers,
        provided(plan.attributes.ipc_handler, CommandView::CreateIpcHandler),
    );
    lemma_title_observers(plan, answers);
    lemma_title_observers_told(
        plan,
        answers,
        provided(plan.attributes.document_title_changed_handler, CommandView::CreateTitleObserver),
    );
    lemma_download_delegates(plan, answers);
    lemma_download_delegates_told(
        plan,
        answers,
        provided(
            plan.attributes.download_started_handler || plan.attributes.download_completed_handler,
            CommandView::CreateDownloadDelegate {
                started: plan.attributes.download_started_handler,
                completed: plan.attributes.download_completed_handler,
            },
        ),
    );
}

proof fn lemma_inspectables_told(plan: Plan, answers: Answers, expected: Seq<CommandView>)
    requires
        crate::dialogue::end(plan, answers) is Done,
        just(crate::dialogue::connected(plan, answers), inspectables(), expected),
    ensures
        just(crate::dialogue::all_commands(plan, answers), inspectables(), expected),
{
    lemma_of_connection(plan, answers, inspectables(), expected);
}

proof fn lemma_inspectables(plan: Plan, answers: Answers)
    ensures
        just(
            crate::dialogue::connected(plan, answers),
            inspectables(),
            provided(
                plan.features.devtools && plan.attributes.devtools && answers.knows_inspectable,
                CommandView::SetInspectable(true),
            ),
        ),
{
    lemma_sifted_connection(plan, answers, inspectables());
    lemma_sifted_delegates(plan, inspectables());
}

proof fn lemma_separators_told(plan: Plan, answers: Answers, expected: Seq<CommandView>)
    requires
        crate::dialogue::end(plan, answers) is Done,
        just(crate::dialogue::connected(plan, answers), separators(), expected),
    ensures
        just(crate::dialogue::all_commands(plan, answers), separators(), expected),
{
    lemma_of_connection(plan, answers, separators(), expected);
}

proof fn lemma_separators(plan: Plan, answers: Answers)
    ensures
        just(
            crate::dialogue::connected(plan, answers),
            separators(),
            provided(
                plan.platform is MacOs && answers.knows_titlebar_style,
                CommandView::HideTitlebarSeparator,
            ),
        ),
{
    lemma_sifted_connection(plan, answers, separators());
    lemma_sifted_delegates(plan, separators());
}

/// A web view is opened to the inspector just if that was asked for, can be done in this build, and the
/// web view knows how; and the line under the title bar is hidden just where the window knows how.
pub proof fn lemma_inspection_as_asked(plan: Plan, answers: Answers)
    requires
        crate::dialogue::end(plan, answers) is Done,
    ensures
        just(
            crate::dialogue::all_commands(plan, answers),
            inspectables(),
            provided(
                plan.features.devtools && plan.attributes.devtools && answers.knows_inspectable,
                CommandView::SetInspectable(true),
            ),
        ),
        just(
            crate::dialogue::all_commands(plan, answers),
            separators(),
            provided(
                plan.platform is MacOs && answers.knows_titlebar_style,
                CommandView::HideTitlebarSeparator,
            ),
        ),
{
    lemma_inspectables(plan, answers);
    lemma_inspectables_told(
        plan,
        answers,
        provided(
            plan.features.devtools && plan.attributes.devtools && answers.knows_inspectable,
            CommandView::SetInspectable(true),
        ),
    );
    lemma_separators(plan, answers);
    lemma_separators_told(
        plan,
        answers,
        provided(
            plan.platform is MacOs && answers.knows_titlebar_style,
            CommandView::HideTitlebarSeparator,
        ),
    );
}

/// Scripts for every document: the library's own first and then each of a list, in its order, each
/// at the start of the document and in its main frame only.
pub open spec fn runs_in_order(found: Seq<CommandView>, list: Seq<String>) -> bool {
    &&& found.len() == list.len() + 1
    &&& found[0] == CommandView::AddUserScript {
        source: IPC_SCRIPT@,
        at_document_start: true,
        main_frame_only: true,
    }
    &&& forall|i: int|
        0 <= i < list.len() ==> #[trigger] found[i + 1] == (CommandView::AddUserScript {
            source: list[i]@,
            at_document_start: true,
            main_frame_only: true,
        })
}

proof fn lemma_scripts(plan: Plan)
    ensures
        runs_in_order(crate::creation::scripts(plan), plan.attributes.initialization_scripts@),
{
}

/// All pages see the library's own script first and then each script of the caller, in the caller's
/// order: each at the start of the document and in its main frame only.
pub proof fn lemma_scripts_as_asked(plan: Plan, answers: Answers)
    requires
        crate::dialogue::end(plan, answers) is Done,
    ensures
        runs_in_order(
            crate::dialogue::all_commands(plan, answers).filter(super::user_scripts()),
            plan.attributes.initialization_scripts@,
        ),
{
    super::lemma_scripts_in_order(plan, answers);
    lemma_scripts(plan);
}

/// A web view goes by the name that the caller gave, and by its own if the caller gave none.
pub proof fn lemma_user_agent_as_asked(plan: Plan, answers: Answers)
    requires
        crate::dialogue::end(plan, answers) is Done,
    ensures
        just(crate::dialogue::all_commands(plan, answers), super::user_agents(), (
        match plan.attributes.user_agent {
            Some(name) => seq![CommandView::SetUserAgent(name@)],
            None => Seq::<CommandView>::empty(),
        })),
{
    let kind = super::user_agents();
    let scripts = crate::creation::scripts(plan);
    let agent = crate::creation::user_agent(plan);
    let page = crate::creation::first_page(plan);
    let injection = crate::creation::injection(plan);
    super::lemma_found(plan, answers, kind);
    super::lemma_injection(plan, kind);
    assert(super::none(scripts, kind));
    assert(super::none(page, kind));
    assert(super::all(agent, kind));
    super::lemma_skip(scripts + agent + page, injection, kind);
    super::lemma_skip(scripts + agent, page, kind);
    super::lemma_pass(scripts, agent, kind);
    super::lemma_all(agent, kind);
}

/// On every platform, a web view that is made requests the page with the caller's address, with the
/// fields of the caller's headers; without an address it shows the caller's text; and without
/// either it shows nothing.
pub proof fn lemma_page_as_asked(plan: Plan, answers: Answers)
    requires
        crate::dialogue::end(plan, answers) is Done,
    ensures
        ({
            let found = crate::dialogue::all_commands(plan, answers).filter(super::pages());
            match (plan.attributes.url, plan.attributes.html) {
                (Some(url), _) => found == seq![
                    CommandView::LoadRequest {
                        url: url@,
                        headers: match plan.attributes.headers {
                            Some(map) => crate::headers::fields(
                                crate::headers::header_entries(map),
                            ),
                            None => Seq::empty(),
                        },
                    },
                ],
                (None, Some(html)) => found == seq![CommandView::LoadHtml(html@)],
                (None, None) => found == Seq::<CommandView>::empty(),
            }
        }),
{
    super::lemma_one_page(plan, answers);
}

/// How a web view gets into its window. A child on macOS and any web view on iOS is added to the view
/// that it was made for. Any other becomes the content of its window, in a view of its own that
/// stretches with the window, and gets the keyboard. On macOS the application then comes to the
/// front.
pub open spec fn into_window(platform: Platform, is_child: bool) -> Seq<CommandView> {
    match (platform, is_child) {
        (Platform::Ios, _) => seq![CommandView::AddToView],
        (Platform::MacOs, true) => seq![CommandView::AddToView, CommandView::ActivateApplication],
        (Platform::MacOs, false) => seq![
            CommandView::CreateParentView,
            CommandView::SetParentAutoresizing(Autoresizing::WidthAndHeight),
            CommandView::AddToParentView,
            CommandView::SetContentView,
            CommandView::MakeFirstResponder,
            CommandView::ActivateApplication,
        ],
    }
}

/// Every web view that is made gets into its window, just once and as its platform and its being a
/// child or not want it.
pub proof fn lemma_put_into_window(plan: Plan, answers: Answers)
    requires
        crate::dialogue::end(plan, answers) is Done,
    ensures
        just(
            crate::dialogue::all_commands(plan, answers),
            injections(),
            into_window(plan.platform, plan.is_child),
        ),
{
    lemma_injection_into_window(plan);
    lemma_injections_told(plan, answers, into_window(plan.platform, plan.is_child));
}

proof fn lemma_injection_into_window(plan: Plan)
    ensures
        into_window(plan.platform, plan.is_child) == crate::creation::injection(plan),
{
}

/// The last thing that is done for a new web view on macOS is to bring the application to the front,
/// and on iOS to add the web view to its parent.
pub proof fn lemma_ends_in_window(plan: Plan, answers: Answers)
    requires
        crate::dialogue::end(plan, answers) is Done,
    ensures
        crate::dialogue::all_commands(plan, answers).last() == (match plan.platform {
            Platform::Ios => CommandView::AddToView,
            Platform::MacOs => CommandView::ActivateApplication,
        }),
{
    lemma_ends_injected(plan, answers);
}

proof fn lemma_injections_told(plan: Plan, answers: Answers, expected: Seq<CommandView>)
    requires
        crate::dialogue::end(plan, answers) is Done,
        expected == crate::creation::injection(plan),
    ensures
        just(crate::dialogue::all_commands(plan, answers), injections(), expected),
{
    lemma_injected(plan);
    lemma_found_in_opening(plan, answers, expected);
}

proof fn lemma_found_in_opening(plan: Plan, answers: Answers, expected: Seq<CommandView>)
    requires
        crate::dialogue::end(plan, answers) is Done,
        just(crate::creation::opening(plan), injections(), expected),
    ensures
        just(crate::dialogue::all_commands(plan, answers), injections(), expected),
{
    super::lemma_found(plan, answers, injections());
}

proof fn lemma_injected(plan: Plan)
    ensures
        just(crate::creation::opening(plan), injections(), crate::creation::injection(plan)),
{
    let kind = injections();
    let scripts = crate::creation::scripts(plan);
    let agent = crate::creation::user_agent(plan);
    let page = crate::creation::first_page(plan);
    let injection = crate::creation::injection(plan);
    assert(super::none(scripts, kind));
    assert(super::none(agent, kind));
    assert(super::none(page, kind));
    assert(super::all(injection, kind));
    super::lemma_none_sum(scripts, agent, kind);
    super::lemma_none_sum(scripts + agent, page, kind);
    super::lemma_pass(scripts + agent + page, injection, kind);
    super::lemma_all(injection, kind);
}

proof fn lemma_last(a: Seq<CommandView>, b: Seq<CommandView>)
    requires
        b.len() > 0,
    ensures
        (a + b).len() > 0,
        (a + b).last() == b.last(),
{
}

proof fn lemma_ends_injected(plan: Plan, answers: Answers)
    requires
        crate::dialogue::end(plan, answers) is Done,
    ensures
        crate::dialogue::all_commands(plan, answers).last() == crate::creation::injection(
            plan,
        ).last(),
{
    let count = plan.attributes.custom_protocols@.len() as int;
    let before = crate::creation::scripts(plan) + crate::creation::user_agent(plan)
        + crate::creation::first_page(plan);
    let front = crate::dialogue::preparation(plan, answers) + crate::dialogue::schemes(
        plan,
        0,
        count,
        answers.webview_id,
    ) + crate::dialogue::construction(plan, answers);
    assert(crate::creation::injection(plan).len() > 0);
    lemma_last(before, crate::creation::injection(plan));
    lemma_last(front, crate::creation::opening(plan));
}

/// A web view that is made is initialised just once. What its pages may do in a window of their own
/// and on the full screen is set before that; that tabs reach links, and that it can be inspected,
/// after it.
pub proof fn lemma_preferences_around_initialisation(plan: Plan, answers: Answers)
    requires
        crate::dialogue::end(plan, answers) is Done,
    ensures
        just(crate::dialogue::all_commands(plan, answers), preferences_and_initialisations(), (
        seq![
            CommandView::SetPreference {
                key: "allowsPictureInPictureMediaPlayback"@,
                value: true,
            },
        ] + provided(
            plan.features.fullscreen,
            CommandView::SetPreference { key: "fullScreenEnabled"@, value: true },
        )) + (seq![
            match plan.platform {
                Platform::MacOs => CommandView::InitWithFrame(
                    crate::dialogue::frame(plan, answers),
                ),
                Platform::Ios => CommandView::InitWithParentFrame,
            },
        ] + provided(
            plan.platform is MacOs,
            CommandView::SetPreference { key: "tabFocusesLinks"@, value: true },
        ) + provided(
            plan.features.devtools && plan.attributes.devtools,
            CommandView::SetPreference { key: "developerExtrasEnabled"@, value: true },
        ))),
{
    lemma_preferred_configured(plan, answers);
    lemma_preferred_initialised(plan, answers);
    lemma_preferred_settled(plan, answers);
    lemma_preferred_connected(plan, answers);
    lemma_preferences_told(
        plan,
        answers,
        seq![
            CommandView::SetPreference {
                key: "allowsPictureInPictureMediaPlayback"@,
                value: true,
            },
        ] + provided(
            plan.features.fullscreen,
            CommandView::SetPreference { key: "fullScreenEnabled"@, value: true },
        ),
        seq![
            match plan.platform {
                Platform::MacOs => CommandView::InitWithFrame(
                    crate::dialogue::frame(plan, answers),
                ),
                Platform::Ios => CommandView::InitWithParentFrame,
            },
        ],
        provided(
            plan.platform is MacOs,
            CommandView::SetPreference { key: "tabFocusesLinks"@, value: true },
        ),
        provided(
            plan.features.devtools && plan.attributes.devtools,
            CommandView::SetPreference { key: "developerExtrasEnabled"@, value: true },
        ),
    );
}

proof fn lemma_preferences_told(
    plan: Plan,
    answers: Answers,
    c: Seq<CommandView>,
    i: Seq<CommandView>,
    f: Seq<CommandView>,
    n: Seq<CommandView>,
)
    requires
        crate::dialogue::end(plan, answers) is Done,
        just(crate::creation::configuration(plan), preferences_and_initialisations(), c),
        just(crate::dialogue::initialisation(plan, answers), preferences_and_initialisations(), i),
        just(crate::creation::first_settings(plan), preferences_and_initialisations(), f),
        just(crate::dialogue::connected(plan, answers), preferences_and_initialisations(), n),
    ensures
        just(
            crate::dialogue::all_commands(plan, answers),
            preferences_and_initialisations(),
            c + (i + f + n),
        ),
{
    let kind = preferences_and_initialisations();
    let count = plan.attributes.custom_protocols@.len() as int;
    let p = crate::dialogue::preparation(plan, answers).filter(kind);
    let s = crate::dialogue::schemes(plan, 0, count, answers.webview_id).filter(kind);
    let o = crate::creation::opening(plan).filter(kind);
    super::lemma_parts(plan, answers, kind);
    super::lemma_absent(plan, answers, kind);
    lemma_middle_parts(p, s, c, i, f, n, o);
}

proof fn lemma_middle_parts(
    p: Seq<CommandView>,
    s: Seq<CommandView>,
    c: Seq<CommandView>,
    i: Seq<CommandView>,
    f: Seq<CommandView>,
    n: Seq<CommandView>,
    o: Seq<CommandView>,
)
    requires
        p.len() + s.len() + o.len() == 0,
    ensures
        super::whole(p, s, c, i, f, n, o) == c + (i + f + n),
{
    assert(super::whole(p, s, c, i, f, n, o) =~= c + (i + f + n));
}

proof fn lemma_preferred_configured(plan: Plan, answers: Answers)
    ensures
        just(crate::creation::configuration(plan), preferences_and_initialisations(), seq![
            CommandView::SetPreference {
                key: "allowsPictureInPictureMediaPlayback"@,
                value: true,
            },
        ] + provided(
            plan.features.fullscreen,
            CommandView::SetPreference { key: "fullScreenEnabled"@, value: true },
        )),
{
    lemma_sifted_configuration(plan, preferences_and_initialisations());
    lemma_sifted_values(plan, preferences_and_initialisations());
}

proof fn lemma_preferred_initialised(plan: Plan, answers: Answers)
    ensures
        just(crate::dialogue::initialisation(plan, answers), preferences_and_initialisations(), seq![
            match plan.platform {
                Platform::MacOs => CommandView::InitWithFrame(
                    crate::dialogue::frame(plan, answers),
                ),
                Platform::Ios => CommandView::InitWithParentFrame,
            },
        ]),
{
    let init = crate::dialogue::initialisation(plan, answers);
    assert(super::all(init, preferences_and_initialisations()));
    super::lemma_all(init, preferences_and_initialisations());
}

proof fn lemma_preferred_settled(plan: Plan, answers: Answers)
    ensures
        just(
            crate::creation::first_settings(plan),
            preferences_and_initialisations(),
            provided(
                plan.platform is MacOs,
                CommandView::SetPreference { key: "tabFocusesLinks"@, value: true },
            ),
        ),
{
    lemma_sifted_settings(plan, preferences_and_initialisations());
}

proof fn lemma_preferred_connected(plan: Plan, answers: Answers)
    ensures
        just(
            crate::dialogue::connected(plan, answers),
            preferences_and_initialisations(),
            provided(
                plan.features.devtools && plan.attributes.devtools,
                CommandView::SetPreference { key: "developerExtrasEnabled"@, value: true },
            ),
        ),
{
    lemma_sifted_connection(plan, answers, preferences_and_initialisations());
    lemma_sifted_delegates(plan, preferences_and_initialisations());
}

/// The first frame of a web view on macOS. A child gets the place that was asked for, or else the
/// top-left corner, and the size that was asked for, or else that of its parent: its bottom edge is
/// as far from the bottom of the parent as the parent's height leaves below it. Any other web view
/// starts out empty, with its `y` counted upwards.
pub proof fn lemma_first_frame_as_asked(
    plan: Plan,
    answers: Answers,
    read: spec_fn(Double) -> int,
)
    ensures
        ({
            let frame = crate::dialogue::frame(plan, answers);
            let (x, y) = match answers.position {
                Some((x, y)) => (x, y),
                None => (0i32, 0i32),
            };
            let (width, height) = match answers.size {
                Some((width, height)) => (width, height),
                None => answers.view_size,
            };
            if plan.is_child {
                &&& frame.origin.place(read) == (x as int, read(answers.view_height) - y - height)
                &&& frame.origin == Origin::Flipped(
                    FlippedPoint {
                        x: Length::Whole(x as i64),
                        y: Difference {
                            whole: Length::Double(answers.view_height),
                            first: Length::Whole(y as i64),
                            second: Length::Whole(height as i64),
                        },
                    },
                )
                &&& frame.width == width
                &&& frame.height == height
            } else {
                &&& y > i32::MIN ==> frame.origin.place(read) == (x as int, -y)
                &&& frame.width == 0
                &&& frame.height == 0
            }
        }),
{
}

/// Which data store is used: none that lasts if the web view is incognito; otherwise the one with
/// the identifier, if there is one and the system is macOS 14 or iOS 17 or any later version; and
/// otherwise the shared one. Once a system has named stores, every later version has them.
pub proof fn lemma_store_by_version(
    platform: Platform,
    incognito: bool,
    identifier: Option<[u8; 16]>,
    version: i64,
    later: i64,
)
    ensures
        ({
            let store = crate::creation::store_for(platform, incognito, identifier, version);
            let then = crate::creation::store_for(platform, incognito, identifier, later);
            &&& incognito ==> store == DataStore::NonPersistent
            &&& !incognito && identifier is None ==> store == DataStore::Shared
            &&& !incognito && platform is MacOs && version < 14 ==> store == DataStore::Shared
            &&& !incognito && platform is Ios && version < 17 ==> store == DataStore::Shared
            &&& !incognito && platform is MacOs && version >= 14 ==> (identifier matches Some(id)
                ==> store == DataStore::Identified(id))
            &&& !incognito && platform is Ios && version >= 17 ==> (identifier matches Some(id)
                ==> store == DataStore::Identified(id))
            &&& version <= later && store is Identified ==> then == store
        }),
{
}

/// Once it is clear that this is the main thread, one data store is opened and no other: one that
/// does not last for an incognito web view, the named one where there is a name and the system is
/// macOS 14 or iOS 17 or later, and the shared one otherwise.
pub proof fn lemma_store_as_asked(plan: Plan, answers: Answers)
    requires
        answers.main_thread,
    ensures
        just(
            crate::dialogue::all_commands(plan, answers),
            super::stores(),
            seq![
                CommandView::OpenDataStore(
                    match (plan.attributes.incognito, plan.attributes.data_store_identifier) {
                        (true, _) => DataStore::NonPersistent,
                        (false, None) => DataStore::Shared,
                        (false, Some(id)) => {
                            let first: i64 = match plan.platform {
                                Platform::MacOs => 14,
                                Platform::Ios => 17,
                            };
                            if answers.os_version < first {
                                DataStore::Shared
                            } else {
                                DataStore::Identified(id)
                            }
                        },
                    },
                ),
            ],
        ),
{
    super::lemma_one_store(plan, answers);
}

proof fn lemma_first_refused(answers: Answers, index: int, count: int)
    requires
        index <= count,
    ensures
        ({
            let refused = answers.first_refused(index, count);
            &&& index <= refused <= count
            &&& refused < count ==> !(answers.accepts_scheme)(refused)
            &&& forall|i: int| index <= i < refused ==> #[trigger] (answers.accepts_scheme)(i)
        }),
    decreases count - index,
{
    if index < count && (answers.accepts_scheme)(index) {
        lemma_first_refused(answers, index + 1, count);
    }
}

/// Making a web view fails off the main thread, and at the first custom protocol that is refused;
/// otherwise it succeeds, and the web view has the number that it was given.
pub proof fn lemma_end_as_answered(plan: Plan, answers: Answers)
    ensures
        ({
            let count = plan.attributes.custom_protocols@.len();
            match crate::dialogue::end(plan, answers) {
                End::NotMainThread => !answers.main_thread,
                End::Refused(k) => {
                    &&& answers.main_thread
                    &&& 0 <= k < count
                    &&& !(answers.accepts_scheme)(k)
                    &&& forall|i: int| 0 <= i < k ==> #[trigger] (answers.accepts_scheme)(i)
                },
                End::Done(id) => {
                    &&& answers.main_thread
                    &&& id == answers.webview_id
                    &&& forall|i: int| 0 <= i < count ==> #[trigger] (answers.accepts_scheme)(i)
                },
            }
        }),
{
    lemma_first_refused(answers, 0, plan.attributes.custom_protocols@.len() as int);
}

/// What serves the custom protocol with an index stands at its place in a list.
pub open spec fn serves(
    commands: Seq<CommandView>,
    at: int,
    plan: Plan,
    index: int,
    id: u32,
) -> bool {
    &&& commands[at] == CommandView::CreateSchemeHandler {
        index,
        name: plan.attributes.custom_protocols@[index]@,
    }
    &&& commands[at + 1] == CommandView::BindSchemeFunction { index }
    &&& commands[at + 2] == CommandView::BindSchemeWebView { index, webview_id: id }
}

proof fn lemma_schemes_at(plan: Plan, from: int, to: int, id: u32, index: int)
    requires
        0 <= from <= to,
        from <= index < to,
    ensures
        crate::dialogue::schemes(plan, from, to, id).len() == 3 * (to - from),
        serves(
            crate::dialogue::schemes(plan, from, to, id),
            3 * (index - from),
            plan,
            index,
            id,
        ),
    decreases to - from,
{
    let one = crate::creation::scheme_commands(plan, from, id);
    let rest = crate::dialogue::schemes(plan, from + 1, to, id);
    if index > from {
        lemma_schemes_at(plan, from + 1, to, id, index);
    } else if from + 1 < to {
        lemma_schemes_at(plan, from + 1, to, id, from + 1);
    }
    assert(one.len() == 3);
    assert(crate::dialogue::schemes(plan, from, to, id) == one + rest);
}

proof fn lemma_shifted(
    front: Seq<CommandView>,
    middle: Seq<CommandView>,
    back: Seq<CommandView>,
    at: int,
)
    requires
        0 <= at < middle.len(),
    ensures
        (front + middle + back)[front.len() + at] == middle[at],
{
}

/// The first thing to do is to make a configuration and to open the data store. The custom protocols
/// follow in their order: each gets a handler under its name, the caller's function for it, and the
/// number of the web view that it serves. After the one that is refused, nothing more is done.
pub proof fn lemma_protocols_in_order(plan: Plan, answers: Answers, index: int)
    requires
        answers.main_thread,
        0 <= index < plan.attributes.custom_protocols@.len(),
        forall|i: int| 0 <= i < index ==> #[trigger] (answers.accepts_scheme)(i),
    ensures
        ({
            let all = crate::dialogue::all_commands(plan, answers);
            &&& all.len() >= 2 + 3 * (index + 1)
            &&& all[0] == CommandView::NewConfiguration
            &&& all[1] is OpenDataStore
            &&& serves(all, 2 + 3 * index, plan, index, answers.webview_id)
            &&& !(answers.accepts_scheme)(index) ==> all.len() == 2 + 3 * (index + 1)
        }),
{
    let count = plan.attributes.custom_protocols@.len() as int;
    let id = answers.webview_id;
    let refused = answers.first_refused(0, count);
    lemma_first_refused(answers, 0, count);
    assert(index <= refused) by {
        if refused < index {
            assert((answers.accepts_scheme)(refused));
        }
    }
    let to = if refused < count {
        refused + 1
    } else {
        count
    };
    let front = crate::dialogue::preparation(plan, answers);
    let middle = crate::dialogue::schemes(plan, 0, to, id);
    let back = if refused < count {
        Seq::empty()
    } else {
        crate::dialogue::construction(plan, answers) + crate::creation::opening(plan)
    };
    lemma_schemes_at(plan, 0, to, id, index);
    let all = front + middle + back;
    assert(crate::dialogue::all_commands(plan, answers) == all) by {
        if refused < count {
            assert(front + middle =~= all);
        } else {
            crate::dialogue::lemma_regroup(
                front + middle,
                crate::dialogue::construction(plan, answers),
                crate::creation::opening(plan),
            );
        }
    }
    lemma_shifted(front, middle, back, 3 * index);
    lemma_shifted(front, middle, back, 3 * index + 1);
    lemma_shifted(front, middle, back, 3 * index + 2);
    assert(all[0] == front[0] && all[1] == front[1]);
    if !(answers.accepts_scheme)(index) {
        assert(refused == index);
    }
}

proof fn lemma_scheme_count(plan: Plan, from: int, to: int, id: u32)
    requires
        0 <= from <= to,
    ensures
        crate::dialogue::schemes(plan, from, to, id).len() == 3 * (to - from),
{
    if from < to {
        lemma_schemes_at(plan, from, to, id, from);
    }
}

/// A web view that is made begins with a configuration and its data store. What follows the custom
/// protocols, once each has had its three commands, is the user content controller.
pub proof fn lemma_begins_with_configuration(plan: Plan, answers: Answers)
    requires
        crate::dialogue::end(plan, answers) is Done,
    ensures
        ({
            let all = crate::dialogue::all_commands(plan, answers);
            let count = plan.attributes.custom_protocols@.len() as int;
            &&& all.len() > 2 + 3 * count
            &&& all[0] == CommandView::NewConfiguration
            &&& all[1] is OpenDataStore
            &&& all[2 + 3 * count] == CommandView::OpenUserContentController
        }),
{
    let count = plan.attributes.custom_protocols@.len() as int;
    let front = crate::dialogue::preparation(plan, answers);
    let schemes = crate::dialogue::schemes(plan, 0, count, answers.webview_id);
    let construction = crate::dialogue::construction(plan, answers);
    let opening = crate::creation::opening(plan);
    lemma_scheme_count(plan, 0, count, answers.webview_id);
    let config = crate::creation::configuration(plan);
    assert(config.len() > 0 && config[0] == CommandView::OpenUserContentController);
    assert(construction.len() > 0 && construction[0] == config[0]);
    lemma_shifted(front + schemes, construction, opening, 0);
    let all = front + schemes + construction + opening;
    assert(all[0] == front[0] && all[1] == front[1]);
}

/// Off the main thread, the platform is told nothing.
pub proof fn lemma_nothing_off_main_thread(plan: Plan, answers: Answers)
    requires
        !answers.main_thread,
    ensures
        crate::dialogue::all_commands(plan, answers).len() == 0,
{
}

/// The platform is asked whether it accepts a custom protocol as soon as its handler is complete,
/// and what a web view knows only once the web view is initialised.
pub proof fn lemma_asked_in_time(plan: Plan, phase: Phase, webview_id: u32, reply: Reply)
    requires
        (Creation { plan, webview_id, phase }).wf(),
        (Creation { plan, webview_id, phase }).accepts(reply),
    ensures
        crate::creation::next(plan, phase, webview_id, reply) matches Next::Ask {
            commands,
            phase: then,
            webview_id: id,
        } ==> {
            &&& then matches Phase::RegisterScheme(index) ==> {
                &&& index < plan.attributes.custom_protocols@.len()
                &&& commands.len() >= 3
                &&& serves(commands, commands.len() - 3, plan, index as int, webview_id)
            }
            &&& then is KnowsInspectable ==> exists|i: int|
                0 <= i < commands.len() && (#[trigger] commands[i] is InitWithFrame
                    || commands[i] is InitWithParentFrame)
        },
{
    assert(plan.attributes.custom_protocols@.len() == plan.attributes.custom_protocols.len());
    let config = crate::creation::configuration(plan);
    let first = crate::creation::first_settings(plan);
    if let Next::Ask { commands, phase: then, webview_id: id } = crate::creation::next(
        plan,
        phase,
        webview_id,
        reply,
    ) {
        if then is KnowsInspectable {
            if phase is OsVersion || phase is RegisterScheme {
                let init = CommandView::InitWithParentFrame;
                let before = match reply {
                    Reply::OsVersion(version) => seq![
                        CommandView::OpenDataStore(crate::creation::plan_store(plan, version)),
                    ],
                    _ => Seq::empty(),
                } + config;
                assert(commands == before + seq![init] + first);
                lemma_shifted(before, seq![init], first, 0);
                assert(commands[before.len() as int] is InitWithParentFrame);
            } else {
                assert(commands[0] is InitWithFrame);
            }
        }
    }
}

/// Whatever a platform answers, its answer to each question is taken; a web view that fills its
/// window just cannot be asked for at the lowest `y` of all.
pub proof fn lemma_answers_accepted(plan: Plan, phase: Phase, webview_id: u32, answers: Answers)
    requires
        !plan.is_child ==> (answers.position matches Some((x, y)) ==> y > i32::MIN),
    ensures
        (Creation { plan, webview_id, phase }).accepts(answers.reply(phase)),
{
}

/// Where a command belongs in the making of a web view. Values of the preferences have no place of
/// their own.
pub open spec fn stage(command: CommandView) -> int {
    match command {
        CommandView::NewConfiguration => 1,
        CommandView::OpenDataStore(_) => 2,
        CommandView::CreateSchemeHandler { .. } => 3,
        CommandView::BindSchemeFunction { .. } => 3,
        CommandView::BindSchemeWebView { .. } => 3,
        CommandView::OpenUserContentController => 4,
        CommandView::AllocateWebView { .. } => 5,
        CommandView::AttachDataStore => 6,
        CommandView::SetProxy(_) => 7,
        CommandView::SetConfiguration { value: true, .. } => 8,
        CommandView::AllowAutoplay => 9,
        CommandView::SetConfiguration { value: false, .. } => 10,
        CommandView::InitWithFrame(_) => 11,
        CommandView::InitWithParentFrame => 11,
        CommandView::SetAutoresizing(_) => 12,
        CommandView::SetBackForwardGestures(_) => 13,
        CommandView::SetScrollBounce(_) => 13,
        CommandView::SetHidden(_) => 14,
        CommandView::SetInspectable(_) => 15,
        CommandView::CreateIpcHandler => 16,
        CommandView::CreateTitleObserver => 17,
        CommandView::CreateDownloadDelegate { .. } => 18,
        CommandView::CreateNavigationDelegate { .. } => 19,
        CommandView::SetNavigationDelegate => 20,
        CommandView::CreateUiDelegate => 21,
        CommandView::SetUiDelegate => 22,
        CommandView::HideTitlebarSeparator => 23,
        CommandView::AddUserScript { .. } => 24,
        CommandView::SetUserAgent(_) => 25,
        CommandView::LoadRequest { .. } => 26,
        CommandView::LoadHtml(_) => 26,
        CommandView::AddToView => 27,
        CommandView::CreateParentView => 27,
        CommandView::SetParentAutoresizing(_) => 28,
        CommandView::AddToParentView => 29,
        CommandView::SetContentView => 30,
        CommandView::MakeFirstResponder => 31,
        CommandView::ActivateApplication => 32,
        _ => 0,
    }
}

/// Commands that belong between two stages, in the order of their stages, with values of the
/// preferences anywhere among them.
pub open spec fn ordered(commands: Seq<CommandView>, low: int, high: int) -> bool {
    &&& forall|i: int|
        0 <= i < commands.len() ==> commands[i] is SetPreference || low <= #[trigger] stage(
            commands[i],
        ) <= high
    &&& forall|i: int, j: int|
        0 <= i < j < commands.len() && !(commands[i] is SetPreference)
            && !(commands[j] is SetPreference) ==> #[trigger] stage(commands[i])
            <= #[trigger] stage(commands[j])
}

proof fn lemma_ordered_sum(
    a: Seq<CommandView>,
    b: Seq<CommandView>,
    low: int,
    middle: int,
    high: int,
)
    requires
        ordered(a, low, middle),
        ordered(b, middle, high),
        low <= middle <= high,
    ensures
        ordered(a + b, low, high),
{
    let sum = a + b;
    assert forall|i: int| 0 <= i < sum.len() implies sum[i] is SetPreference || low
        <= #[trigger] stage(sum[i]) <= high by {
        if i < a.len() {
            assert(sum[i] == a[i]);
            assert(stage(a[i]) == stage(sum[i]));
        } else {
            assert(sum[i] == b[i - a.len()]);
            assert(stage(b[i - a.len()]) == stage(sum[i]));
        }
    }
    assert forall|i: int, j: int|
        0 <= i < j < sum.len() && !(sum[i] is SetPreference) && !(sum[j] is SetPreference) implies
        #[trigger] stage(sum[i]) <= #[trigger] stage(sum[j]) by {
        if j < a.len() {
            assert(sum[i] == a[i] && sum[j] == a[j]);
            assert(stage(a[i]) <= stage(a[j]));
        } else if i >= a.len() {
            assert(sum[i] == b[i - a.len()] && sum[j] == b[j - a.len()]);
            assert(stage(b[i - a.len()]) <= stage(b[j - a.len()]));
        } else {
            assert(sum[i] == a[i] && sum[j] == b[j - a.len()]);
            assert(stage(a[i]) <= middle);
            assert(stage(b[j - a.len()]) >= middle);
        }
    }
}

proof fn lemma_ordered_wider(commands: Seq<CommandView>, low: int, high: int, l: int, h: int)
    requires
        ordered(commands, low, high),
        l <= low,
        high <= h,
    ensures
        ordered(commands, l, h),
{
}

proof fn lemma_ordered_when(condition: bool, command: CommandView, low: int, high: int)
    requires
        command is SetPreference || low <= stage(command) <= high,
    ensures
        ordered(crate::command::when(condition, command), low, high),
        ordered(seq![command], low, high),
{
}

proof fn lemma_ordered_schemes(plan: Plan, from: int, to: int, id: u32)
    ensures
        ordered(crate::dialogue::schemes(plan, from, to, id), 3, 3),
    decreases to - from,
{
    if from < to {
        let one = crate::creation::scheme_commands(plan, from, id);
        assert(ordered(one, 3, 3));
        lemma_ordered_schemes(plan, from + 1, to, id);
        lemma_ordered_sum(one, crate::dialogue::schemes(plan, from + 1, to, id), 3, 3, 3);
    }
}

proof fn lemma_ordered_configuration(plan: Plan)
    ensures
        ordered(crate::creation::configuration(plan), 4, 10),
{
    let open = seq![CommandView::OpenUserContentController];
    let allocate = seq![allocation(plan)];
    lemma_ordered_when(true, CommandView::OpenUserContentController, 4, 4);
    lemma_ordered_when(true, allocation(plan), 4, 5);
    lemma_ordered_sum(open, allocate, 4, 4, 5);
    lemma_ordered_values(plan);
    lemma_ordered_sum(open + allocate, crate::creation::configuration_values(plan), 4, 5, 10);
}

proof fn lemma_ordered_values(plan: Plan)
    ensures
        ordered(crate::creation::configuration_values(plan), 5, 10),
{
    let proxied = plan.features.mac_proxy && plan.attributes.proxy_config is Some;
    let proxy = CommandView::SetProxy(plan.attributes.proxy_config->0);
    let picture = CommandView::SetPreference {
        key: "allowsPictureInPictureMediaPlayback"@,
        value: true,
    };
    let inline = CommandView::SetConfiguration { key: "allowsInlineMediaPlayback"@, value: true };
    let clear = plan.features.transparent && plan.attributes.transparent;
    let undrawn = CommandView::SetConfiguration { key: "drawsBackground"@, value: false };
    let full = CommandView::SetPreference { key: "fullScreenEnabled"@, value: true };
    let a = seq![CommandView::AttachDataStore];
    let b = crate::command::when(proxied, proxy);
    let c = seq![picture];
    let d = crate::command::when(plan.platform is Ios, inline);
    let e = crate::command::when(plan.attributes.autoplay, CommandView::AllowAutoplay);
    let f = crate::command::when(clear, undrawn);
    let g = crate::command::when(plan.features.fullscreen, full);
    lemma_ordered_when(true, CommandView::AttachDataStore, 5, 6);
    lemma_ordered_when(proxied, proxy, 6, 7);
    lemma_ordered_sum(a, b, 5, 6, 7);
    lemma_ordered_when(true, picture, 7, 7);
    lemma_ordered_sum(a + b, c, 5, 7, 7);
    lemma_ordered_when(plan.platform is Ios, inline, 7, 8);
    lemma_ordered_sum(a + b + c, d, 5, 7, 8);
    lemma_ordered_when(plan.attributes.autoplay, CommandView::AllowAutoplay, 8, 9);
    lemma_ordered_sum(a + b + c + d, e, 5, 8, 9);
    lemma_ordered_when(clear, undrawn, 9, 10);
    lemma_ordered_sum(a + b + c + d + e, f, 5, 9, 10);
    lemma_ordered_when(plan.features.fullscreen, full, 10, 10);
    lemma_ordered_sum(a + b + c + d + e + f, g, 5, 10, 10);
    assert(crate::creation::configuration_values(plan) == a + b + c + d + e + f + g);
}

proof fn lemma_ordered_settled(plan: Plan, answers: Answers)
    ensures
        ordered(crate::dialogue::settled(plan, answers), 10, 23),
{
    let init = crate::dialogue::initialisation(plan, answers);
    let behavior = crate::creation::first_behavior(plan);
    let hidden = crate::command::when(!plan.attributes.visible, CommandView::SetHidden(true));
    assert(ordered(init, 10, 11));
    assert(ordered(behavior, 11, 13));
    lemma_ordered_when(!plan.attributes.visible, CommandView::SetHidden(true), 13, 14);
    lemma_ordered_sum(behavior, hidden, 11, 13, 14);
    lemma_ordered_sum(init, behavior + hidden, 10, 11, 14);
    lemma_ordered_connected(plan, answers);
    lemma_ordered_sum(
        init + (behavior + hidden),
        crate::dialogue::connected(plan, answers),
        10,
        14,
        23,
    );
}

proof fn lemma_ordered_connected(plan: Plan, answers: Answers)
    ensures
        ordered(crate::dialogue::connected(plan, answers), 14, 23),
{
    let first = if crate::creation::inspected(plan) {
        crate::creation::inspection(answers.knows_inspectable)
    } else {
        Seq::empty()
    };
    let ipc = crate::command::when(plan.attributes.ipc_handler, CommandView::CreateIpcHandler);
    let delegates = crate::creation::delegates(plan);
    let titled = plan.platform is MacOs && answers.knows_titlebar_style;
    let title = crate::command::when(titled, CommandView::HideTitlebarSeparator);
    assert(ordered(first, 14, 15));
    lemma_ordered_when(plan.attributes.ipc_handler, CommandView::CreateIpcHandler, 15, 16);
    lemma_ordered_delegates(plan);
    lemma_ordered_sum(ipc, delegates, 15, 16, 22);
    lemma_ordered_sum(first, ipc + delegates, 14, 15, 22);
    lemma_ordered_when(titled, CommandView::HideTitlebarSeparator, 22, 23);
    lemma_ordered_sum(first + (ipc + delegates), title, 14, 22, 23);
}

proof fn lemma_ordered_delegates(plan: Plan)
    ensures
        ordered(crate::creation::delegates(plan), 16, 22),
{
    let titled = plan.attributes.document_title_changed_handler;
    let downloads = plan.attributes.download_started_handler
        || plan.attributes.download_completed_handler;
    let a = crate::command::when(titled, CommandView::CreateTitleObserver);
    let b = crate::command::when(downloads, download_delegate(plan));
    let c = seq![
        navigation_delegate(plan),
        CommandView::SetNavigationDelegate,
        CommandView::CreateUiDelegate,
        CommandView::SetUiDelegate,
    ];
    lemma_ordered_when(titled, CommandView::CreateTitleObserver, 16, 17);
    lemma_ordered_when(downloads, download_delegate(plan), 17, 18);
    lemma_ordered_sum(a, b, 16, 17, 18);
    assert(ordered(c, 18, 22));
    lemma_ordered_sum(a + b, c, 16, 18, 22);
}

proof fn lemma_ordered_opening(plan: Plan)
    ensures
        ordered(crate::creation::opening(plan), 23, 32),
{
    let scripts = crate::creation::scripts(plan);
    let agent = crate::creation::user_agent(plan);
    let page = crate::creation::first_page(plan);
    let injection = crate::creation::injection(plan);
    assert(ordered(scripts, 23, 24));
    assert(ordered(agent, 24, 25));
    lemma_ordered_sum(scripts, agent, 23, 24, 25);
    assert(ordered(page, 25, 26));
    lemma_ordered_sum(scripts + agent, page, 23, 25, 26);
    assert(ordered(injection, 26, 32));
    lemma_ordered_sum(scripts + agent + page, injection, 23, 26, 32);
}

/// A web view is made in stages, whatever is asked for and answered: the data store is there before
/// the custom protocols, all that is configured is configured before the web view is initialised,
/// the functions of the caller are connected and the scripts are in place before the first page is
/// asked for, and only then the web view goes into its window. Nothing else is done.
pub proof fn lemma_made_in_stages(plan: Plan, answers: Answers)
    ensures
        ordered(crate::dialogue::all_commands(plan, answers), 1, 32),
{
    let count = plan.attributes.custom_protocols@.len() as int;
    let refused = answers.first_refused(0, count);
    let id = answers.webview_id;
    let preparation = crate::dialogue::preparation(plan, answers);
    assert(ordered(preparation, 1, 2));
    lemma_ordered_schemes(plan, 0, refused + 1, id);
    lemma_ordered_schemes(plan, 0, count, id);
    if answers.main_thread && refused < count {
        let schemes = crate::dialogue::schemes(plan, 0, refused + 1, id);
        lemma_ordered_wider(schemes, 3, 3, 2, 3);
        lemma_ordered_sum(preparation, schemes, 1, 2, 3);
        lemma_ordered_wider(preparation + schemes, 1, 3, 1, 32);
    } else if answers.main_thread {
        let schemes = crate::dialogue::schemes(plan, 0, count, id);
        let config = crate::creation::configuration(plan);
        let settled = crate::dialogue::settled(plan, answers);
        let opening = crate::creation::opening(plan);
        lemma_ordered_wider(schemes, 3, 3, 2, 3);
        lemma_ordered_sum(preparation, schemes, 1, 2, 3);
        lemma_ordered_configuration(plan);
        lemma_ordered_settled(plan, answers);
        lemma_ordered_sum(config, settled, 4, 10, 23);
        lemma_ordered_wider(config + settled, 4, 23, 3, 23);
        lemma_ordered_sum(preparation + schemes, config + settled, 1, 3, 23);
        lemma_ordered_opening(plan);
        lemma_ordered_sum(preparation + schemes + (config + settled), opening, 1, 23, 32);
    }
}

} // verus!
