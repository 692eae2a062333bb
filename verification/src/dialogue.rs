//! The whole conversation that makes a web view, for a platform whose answers are given.

use crate::command::CommandView;
use crate::creation::{Creation, Next, Phase, Plan, Reply};
use crate::geometry::{Double, Frame};
use vstd::prelude::*;

verus! {

/// What a platform answers to each question.
pub struct Answers {
    pub main_thread: bool,
    pub webview_id: u32,
    pub os_version: i64,
    /// Which custom protocols are accepted, by their index.
    pub accepts_scheme: spec_fn(int) -> bool,
    pub position: Option<(i32, i32)>,
    pub size: Option<(u32, u32)>,
    pub view_size: (u32, u32),
    pub view_height: Double,
    pub knows_inspectable: bool,
    pub knows_titlebar_style: bool,
}

impl Answers {
    /// The answer to the question of a phase.
    pub open spec fn reply(self, phase: Phase) -> Reply {
        match phase {
            Phase::MainThread => Reply::Bool(self.main_thread),
            Phase::WebViewId => Reply::WebViewId(self.webview_id),
            Phase::OsVersion => Reply::OsVersion(self.os_version),
            Phase::RegisterScheme(index) => Reply::Bool((self.accepts_scheme)(index as int)),
            Phase::LogicalPosition => Reply::Position(self.position),
            Phase::LogicalSize { .. } => Reply::Size(self.size),
            Phase::ViewSize { .. } => Reply::ViewSize(self.view_size.0, self.view_size.1),
            Phase::ViewHeight { .. } => Reply::ViewHeight(self.view_height),
            Phase::KnowsInspectable => Reply::Bool(self.knows_inspectable),
            Phase::KnowsTitlebarStyle => Reply::Bool(self.knows_titlebar_style),
        }
    }

    /// The first custom protocol from `index` on that is refused, or `count` if none is.
    pub open spec fn first_refused(self, index: int, count: int) -> int
        decreases count - index,
    {
        if index >= count {
            count
        } else if !(self.accepts_scheme)(index) {
            index
        } else {
            self.first_refused(index + 1, count)
        }
    }
}

/// How a conversation ends.
pub enum End {
    /// With a web view of this number.
    Done(u32),
    NotMainThread,
    /// With the refusal of the custom protocol with this index.
    Refused(int),
}

/// How many questions can still come.
pub open spec fn questions_left(plan: Plan, phase: Phase) -> nat {
    let count = plan.attributes.custom_protocols@.len();
    match phase {
        Phase::MainThread => count + 11,
        Phase::WebViewId => count + 10,
        Phase::OsVersion => count + 9,
        Phase::RegisterScheme(index) => if index < count {
            (count - index + 7) as nat
        } else {
            7
        },
        Phase::LogicalPosition => 6,
        Phase::LogicalSize { .. } => 5,
        Phase::ViewSize { .. } => 4,
        Phase::ViewHeight { .. } => 3,
        Phase::KnowsInspectable => 2,
        Phase::KnowsTitlebarStyle => 1,
    }
}

/// The commands that are given from a phase on, in their order, and the end: the conversation that
/// [`Creation::resume`] leads when every question gets its answer.
pub open spec fn conversation(plan: Plan, phase: Phase, webview_id: u32, answers: Answers) -> (
    Seq<CommandView>,
    End,
)
    decreases questions_left(plan, phase),
{
    match crate::creation::next(plan, phase, webview_id, answers.reply(phase)) {
        Next::Ask { commands, phase: then, webview_id: id } => {
            if questions_left(plan, then) < questions_left(plan, phase) {
                let (more, end) = conversation(plan, then, id, answers);
                (commands + more, end)
            } else {
                arbitrary()
            }
        },
        Next::Done { commands, webview_id: id } => (commands, End::Done(id)),
        Next::NotMainThread => (Seq::empty(), End::NotMainThread),
        Next::Refused(index) => (Seq::empty(), End::Refused(index)),
    }
}

/// The handlers of the custom protocols from `from` up to `to`.
pub open spec fn schemes(plan: Plan, from: int, to: int, webview_id: u32) -> Seq<CommandView>
    decreases to - from,
{
    if from >= to {
        Seq::empty()
    } else {
        crate::creation::scheme_commands(plan, from, webview_id) + schemes(
            plan,
            from + 1,
            to,
            webview_id,
        )
    }
}

/// The frame of a new web view on macOS: a child that was asked for in no size takes that of its
/// parent.
pub open spec fn frame(plan: Plan, answers: Answers) -> Frame {
    let (x, y) = crate::creation::wanted_position(answers.position);
    let (width, height) = match answers.size {
        Some(size) => size,
        None => answers.view_size,
    };
    crate::creation::first_frame(plan.is_child, x, y, width, height, answers.view_height)
}

/// What initialises a web view.
pub open spec fn initialisation(plan: Plan, answers: Answers) -> Seq<CommandView> {
    if plan.platform is MacOs {
        seq![CommandView::InitWithFrame(frame(plan, answers))]
    } else {
        seq![CommandView::InitWithParentFrame]
    }
}

/// What comes before the custom protocols.
pub open spec fn preparation(plan: Plan, answers: Answers) -> Seq<CommandView> {
    seq![
        CommandView::NewConfiguration,
        CommandView::OpenDataStore(crate::creation::plan_store(plan, answers.os_version)),
    ]
}

/// What comes between the custom protocols and the first script.
pub open spec fn construction(plan: Plan, answers: Answers) -> Seq<CommandView> {
    crate::creation::configuration(plan) + settled(plan, answers)
}

/// What comes between the configuration and the first script.
pub open spec fn settled(plan: Plan, answers: Answers) -> Seq<CommandView> {
    initialisation(plan, answers) + crate::creation::first_settings(plan) + connected(plan, answers)
}

/// What comes between the first settings of a web view and the first script.
pub open spec fn connected(plan: Plan, answers: Answers) -> Seq<CommandView> {
    (if crate::creation::inspected(plan) {
        crate::creation::inspection(answers.knows_inspectable)
    } else {
        Seq::empty()
    }) + crate::creation::handlers(plan) + crate::command::when(
        plan.platform is MacOs && answers.knows_titlebar_style,
        CommandView::HideTitlebarSeparator,
    )
}

/// All that the platform is told while a web view is made, in its order.
pub open spec fn all_commands(plan: Plan, answers: Answers) -> Seq<CommandView> {
    let count = plan.attributes.custom_protocols@.len() as int;
    let refused = answers.first_refused(0, count);
    if !answers.main_thread {
        Seq::empty()
    } else if refused < count {
        preparation(plan, answers) + schemes(plan, 0, refused + 1, answers.webview_id)
    } else {
        preparation(plan, answers) + schemes(plan, 0, count, answers.webview_id) + construction(
            plan,
            answers,
        ) + crate::creation::opening(plan)
    }
}

/// How the making of a web view ends: it fails off the main thread and at the first custom
/// protocol that is refused, and succeeds otherwise.
pub open spec fn end(plan: Plan, answers: Answers) -> End {
    let count = plan.attributes.custom_protocols@.len() as int;
    let refused = answers.first_refused(0, count);
    if !answers.main_thread {
        End::NotMainThread
    } else if refused < count {
        End::Refused(refused)
    } else {
        End::Done(answers.webview_id)
    }
}

proof fn lemma_connecting(plan: Plan, id: u32, answers: Answers, before: Seq<CommandView>)
    ensures
        follow(plan, crate::creation::handlers_next(plan, id, before), answers) == (
            before + crate::creation::handlers(plan) + crate::command::when(
                plan.platform is MacOs && answers.knows_titlebar_style,
                CommandView::HideTitlebarSeparator,
            ) + crate::creation::opening(plan),
            End::Done(id),
        ),
{
    let handlers = crate::creation::handlers(plan);
    let opening = crate::creation::opening(plan);
    let title = crate::command::when(
        plan.platform is MacOs && answers.knows_titlebar_style,
        CommandView::HideTitlebarSeparator,
    );
    if plan.platform is MacOs {
        assert(conversation(plan, Phase::KnowsTitlebarStyle, id, answers) == (
            title + opening,
            End::Done(id),
        ));
        assert(before + handlers + (title + opening) =~= before + handlers + title + opening);
    } else {
        assert(before + handlers + opening =~= before + handlers + title + opening);
    }
}

/// What comes of a model of progress.
spec fn follow(plan: Plan, next: Next, answers: Answers) -> (Seq<CommandView>, End) {
    match next {
        Next::Ask { commands, phase, webview_id } => {
            let (more, end) = conversation(plan, phase, webview_id, answers);
            (commands + more, end)
        },
        Next::Done { commands, webview_id } => (commands, End::Done(webview_id)),
        Next::NotMainThread => (Seq::empty(), End::NotMainThread),
        Next::Refused(index) => (Seq::empty(), End::Refused(index)),
    }
}

proof fn lemma_settling(plan: Plan, id: u32, answers: Answers, before: Seq<CommandView>)
    ensures
        follow(plan, crate::creation::settings_next(plan, id, before), answers) == (
            before + crate::creation::first_settings(plan) + connected(plan, answers)
                + crate::creation::opening(plan),
            End::Done(id),
        ),
{
    let first = crate::creation::first_settings(plan);
    let opening = crate::creation::opening(plan);
    if crate::creation::inspected(plan) {
        let inspection = crate::creation::inspection(answers.knows_inspectable);
        lemma_connecting(plan, id, answers, inspection);
        assert(conversation(plan, Phase::KnowsInspectable, id, answers) == follow(
            plan,
            crate::creation::handlers_next(plan, id, inspection),
            answers,
        ));
        assert(before + first + (connected(plan, answers) + opening) =~= before + first + connected(
            plan,
            answers,
        ) + opening);
    } else {
        lemma_connecting(plan, id, answers, before + first);
        let tail = crate::creation::handlers(plan) + crate::command::when(
            plan.platform is MacOs && answers.knows_titlebar_style,
            CommandView::HideTitlebarSeparator,
        );
        assert(connected(plan, answers) =~= tail);
        assert(before + first + crate::creation::handlers(plan) + crate::command::when(
            plan.platform is MacOs && answers.knows_titlebar_style,
            CommandView::HideTitlebarSeparator,
        ) + opening =~= before + first + tail + opening);
    }
}

proof fn lemma_framing(plan: Plan, id: u32, answers: Answers)
    requires
        plan.platform is MacOs,
    ensures
        conversation(plan, Phase::LogicalPosition, id, answers) == (
            settled(plan, answers) + crate::creation::opening(plan),
            End::Done(id),
        ),
{
    let whole = frame(plan, answers);
    let (x, y) = crate::creation::wanted_position(answers.position);
    let start = seq![CommandView::InitWithFrame(whole)];
    lemma_settling(plan, id, answers, start);
    let rest = (settled(plan, answers) + crate::creation::opening(plan), End::Done(id));
    assert(follow(plan, crate::creation::frame_next(plan, id, whole), answers) == rest);
    if plan.is_child {
        let (width, height) = match answers.size {
            Some(size) => size,
            None => answers.view_size,
        };
        let last = Phase::ViewHeight { x, y, width, height };
        assert(conversation(plan, last, id, answers) == rest);
        assert(Seq::<CommandView>::empty() + rest.0 =~= rest.0);
        if answers.size is None {
            assert(conversation(plan, Phase::ViewSize { x, y }, id, answers) == rest);
        }
        assert(conversation(plan, Phase::LogicalSize { x, y }, id, answers) == rest);
    }
}

pub proof fn lemma_regroup(a: Seq<CommandView>, b: Seq<CommandView>, c: Seq<CommandView>)
    ensures
        a + (b + c) == a + b + c,
{
    assert(a + (b + c) =~= a + b + c);
}

proof fn lemma_empty(a: Seq<CommandView>)
    ensures
        a + Seq::<CommandView>::empty() == a,
        Seq::<CommandView>::empty() + a == a,
{
    assert(a + Seq::<CommandView>::empty() =~= a);
    assert(Seq::<CommandView>::empty() + a =~= a);
}

proof fn lemma_configuring(plan: Plan, id: u32, answers: Answers, before: Seq<CommandView>)
    ensures
        follow(
            plan,
            crate::creation::schemes_next(
                plan,
                id,
                before,
                plan.attributes.custom_protocols@.len() as int,
            ),
            answers,
        ) == (
            before + construction(plan, answers) + crate::creation::opening(plan),
            End::Done(id),
        ),
{
    let config = crate::creation::configuration(plan);
    let opening = crate::creation::opening(plan);
    let settled = settled(plan, answers);
    if plan.platform is MacOs {
        lemma_framing(plan, id, answers);
        lemma_regroup(before + config, settled, opening);
        lemma_regroup(before, config, settled);
    } else {
        let start = seq![CommandView::InitWithParentFrame];
        let first = crate::creation::first_settings(plan);
        let connected = connected(plan, answers);
        lemma_settling(plan, id, answers, before + config + start);
        lemma_regroup(before, config, settled);
        lemma_regroup(before + config, start + first, connected);
        lemma_regroup(before + config, start, first);
    }
}

proof fn lemma_registering(
    plan: Plan,
    id: u32,
    answers: Answers,
    before: Seq<CommandView>,
    index: int,
)
    requires
        0 <= index <= plan.attributes.custom_protocols@.len() <= usize::MAX,
    ensures
        ({
            let count = plan.attributes.custom_protocols@.len() as int;
            let refused = answers.first_refused(index, count);
            &&& index <= refused <= count
            &&& follow(plan, crate::creation::schemes_next(plan, id, before, index), answers)
                == if refused < count {
                (before + schemes(plan, index, refused + 1, id), End::Refused(refused))
            } else {
                (
                    before + schemes(plan, index, count, id) + construction(plan, answers)
                        + crate::creation::opening(plan),
                    End::Done(id),
                )
            }
        }),
    decreases plan.attributes.custom_protocols@.len() - index,
{
    let count = plan.attributes.custom_protocols@.len() as int;
    let refused = answers.first_refused(index, count);
    if index >= count {
        lemma_configuring(plan, id, answers, before);
        lemma_empty(before);
    } else {
        let one = crate::creation::scheme_commands(plan, index, id);
        let none = Seq::<CommandView>::empty();
        let phase = Phase::RegisterScheme(index as usize);
        if (answers.accepts_scheme)(index) {
            lemma_registering(plan, id, answers, none, index + 1);
            assert(conversation(plan, phase, id, answers) == follow(
                plan,
                crate::creation::schemes_next(plan, id, none, index + 1),
                answers,
            ));
            let to = if refused < count {
                refused + 1
            } else {
                count
            };
            let others = schemes(plan, index + 1, to, id);
            lemma_empty(others);
            lemma_regroup(before, one, others);
            if refused == count {
                let rest = construction(plan, answers);
                let opening = crate::creation::opening(plan);
                lemma_regroup(before + one, others + rest, opening);
                lemma_regroup(before + one, others, rest);
            }
        } else {
            assert(conversation(plan, phase, id, answers) == (none, End::Refused(index)));
            lemma_empty(before + one);
            lemma_empty(one);
            assert(schemes(plan, index + 1, index + 1, id) == none);
            assert(schemes(plan, index, index + 1, id) == one);
        }
    }
}

/// Whatever the platform answers, the conversation that makes a web view gives exactly the
/// commands of [`all_commands`], in that order, and ends as [`end`] says.
pub proof fn lemma_conversation(plan: Plan, answers: Answers)
    ensures
        conversation(plan, Phase::MainThread, 0, answers) == (
            all_commands(plan, answers),
            end(plan, answers),
        ),
{
    let id = answers.webview_id;
    assert(plan.attributes.custom_protocols@.len() == plan.attributes.custom_protocols.len());
    if answers.main_thread {
        let store = seq![
            CommandView::OpenDataStore(crate::creation::plan_store(plan, answers.os_version)),
        ];
        let config = seq![CommandView::NewConfiguration];
        lemma_registering(plan, id, answers, store, 0);
        assert(conversation(plan, Phase::OsVersion, id, answers) == follow(
            plan,
            crate::creation::schemes_next(plan, id, store, 0),
            answers,
        ));
        let rest = conversation(plan, Phase::OsVersion, id, answers).0;
        assert(conversation(plan, Phase::WebViewId, 0, answers).0 == config + rest);
        assert(Seq::<CommandView>::empty() + (config + rest) =~= all_commands(plan, answers));
    }
}

/// The web views that are alive at the end of a conversation, given those that are alive in a
/// phase of it.
pub open spec fn alive_after(
    plan: Plan,
    phase: Phase,
    webview_id: u32,
    answers: Answers,
    alive: Set<u32>,
) -> Set<u32>
    decreases questions_left(plan, phase),
{
    let reply = answers.reply(phase);
    let then_alive = crate::creation::noted(alive, reply);
    match crate::creation::next(plan, phase, webview_id, reply) {
        Next::Ask { commands, phase: then, webview_id: id } => {
            if questions_left(plan, then) < questions_left(plan, phase) {
                alive_after(plan, then, id, answers, then_alive)
            } else {
                arbitrary()
            }
        },
        _ => then_alive,
    }
}

proof fn lemma_alive_from_number_on(
    plan: Plan,
    phase: Phase,
    id: u32,
    answers: Answers,
    alive: Set<u32>,
)
    requires
        (Creation { plan, webview_id: id, phase }).wf(),
        !(phase is MainThread || phase is WebViewId),
    ensures
        alive_after(plan, phase, id, answers, alive) == alive,
    decreases questions_left(plan, phase),
{
    assert(plan.attributes.custom_protocols@.len() == plan.attributes.custom_protocols.len());
    match crate::creation::next(plan, phase, id, answers.reply(phase)) {
        Next::Ask { commands, phase: then, webview_id } => {
            lemma_alive_from_number_on(plan, then, webview_id, answers, alive);
        },
        _ => {},
    }
}

/// Making a web view adds its number to those of the web views that are alive, whether it succeeds
/// or not; only off the main thread it gets no number.
pub proof fn lemma_alive(plan: Plan, answers: Answers, alive: Set<u32>)
    ensures
        alive_after(plan, Phase::MainThread, 0, answers, alive) == if answers.main_thread {
            alive.insert(answers.webview_id)
        } else {
            alive
        },
{
    if answers.main_thread {
        let id = answers.webview_id;
        lemma_alive_from_number_on(plan, Phase::OsVersion, id, answers, alive.insert(id));
        assert(alive_after(plan, Phase::WebViewId, 0, answers, alive) == alive.insert(id));
    }
}

} // verus!
