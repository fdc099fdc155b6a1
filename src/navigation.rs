//! In-app navigation: the four named views, and the steps that bring the host
//! window to one of them (find the window, change its route, show it, focus it).

use vstd::prelude::*;
use crate::text::{joined, same_text};
use crate::process::reply_view;

verus! {

/// A view of the user interface that a `function` request can open.
#[derive(Clone, Copy, Debug, PartialEq, Eq, Structural)]
pub enum NavigationTarget {
    Settings,
    Plugins,
    Downloads,
    About,
}

/// The action name that selects `t`.
pub open spec fn action_name(t: NavigationTarget) -> Seq<char> {
    match t {
        NavigationTarget::Settings => "open-settings"@,
        NavigationTarget::Plugins => "open-plugins"@,
        NavigationTarget::Downloads => "open-downloads"@,
        NavigationTarget::About => "open-about"@,
    }
}

/// The target that the action name `name` selects, if any.
pub open spec fn target_of(name: Seq<char>) -> Option<NavigationTarget> {
    if name == action_name(NavigationTarget::Settings) {
        Some(NavigationTarget::Settings)
    } else if name == action_name(NavigationTarget::Plugins) {
        Some(NavigationTarget::Plugins)
    } else if name == action_name(NavigationTarget::Downloads) {
        Some(NavigationTarget::Downloads)
    } else if name == action_name(NavigationTarget::About) {
        Some(NavigationTarget::About)
    } else {
        None
    }
}

/// The script that sets the interface's hash route to `t`.
pub open spec fn route_script(t: NavigationTarget) -> Seq<char> {
    match t {
        NavigationTarget::Settings => "window.location.hash = '#/settings'"@,
        NavigationTarget::Plugins => "window.location.hash = '#/plugins'"@,
        NavigationTarget::Downloads => "window.location.hash = '#/downloads'"@,
        NavigationTarget::About => "window.location.hash = '#/about'"@,
    }
}

/// The message that reports `t` as opened.
pub open spec fn confirmation(t: NavigationTarget) -> Seq<char> {
    match t {
        NavigationTarget::Settings => "已打开设置"@,
        NavigationTarget::Plugins => "已打开插件管理"@,
        NavigationTarget::Downloads => "已打开下载管理"@,
        NavigationTarget::About => "已打开关于页面"@,
    }
}

/// The start of the message that reports a failed route change to `t`.
pub open spec fn route_failure(t: NavigationTarget) -> Seq<char> {
    match t {
        NavigationTarget::Settings => "导航到设置失败: "@,
        NavigationTarget::Plugins => "导航到插件失败: "@,
        NavigationTarget::Downloads => "导航到下载失败: "@,
        NavigationTarget::About => "导航到关于失败: "@,
    }
}

/// The start of the message that reports a window that could not be shown.
pub open spec fn show_failure() -> Seq<char> {
    "显示窗口失败: "@
}

/// The start of the message that reports a window that could not take focus.
pub open spec fn focus_failure() -> Seq<char> {
    "聚焦窗口失败: "@
}

/// The reply to an action name that names no view.
pub open spec fn unknown_function(name: Seq<char>) -> Seq<char> {
    "未知的系统功能: "@ + name
}

impl NavigationTarget {
    /// The target that `name` selects; `None` for any other name.
    pub fn from_action(name: &str) -> (r: Option<NavigationTarget>)
        ensures
            r == target_of(name@),
    {
        if same_text(name, "open-settings") {
            Some(NavigationTarget::Settings)
        } else if same_text(name, "open-plugins") {
            Some(NavigationTarget::Plugins)
        } else if same_text(name, "open-downloads") {
            Some(NavigationTarget::Downloads)
        } else if same_text(name, "open-about") {
            Some(NavigationTarget::About)
        } else {
            None
        }
    }

    /// The script that moves the interface to this view.
    pub fn script(&self) -> (r: String)
        ensures
            r@ == route_script(*self),
    {
        match self {
            NavigationTarget::Settings => String::from_str("window.location.hash = '#/settings'"),
            NavigationTarget::Plugins => String::from_str("window.location.hash = '#/plugins'"),
            NavigationTarget::Downloads => String::from_str("window.location.hash = '#/downloads'"),
            NavigationTarget::About => String::from_str("window.location.hash = '#/about'"),
        }
    }

    /// The message that reports this view as opened.
    pub fn confirmation(&self) -> (r: String)
        ensures
            r@ == confirmation(*self),
    {
        match self {
            NavigationTarget::Settings => String::from_str("已打开设置"),
            NavigationTarget::Plugins => String::from_str("已打开插件管理"),
            NavigationTarget::Downloads => String::from_str("已打开下载管理"),
            NavigationTarget::About => String::from_str("已打开关于页面"),
        }
    }

    /// The message for a route change to this view that failed with `error`.
    pub fn route_failed(&self, error: &str) -> (r: String)
        ensures
            r@ == route_failure(*self) + error@,
    {
        match self {
            NavigationTarget::Settings => joined("导航到设置失败: ", error),
            NavigationTarget::Plugins => joined("导航到插件失败: ", error),
            NavigationTarget::Downloads => joined("导航到下载失败: ", error),
            NavigationTarget::About => joined("导航到关于失败: ", error),
        }
    }
}

/// The reply to `name` when it selects no view.
pub fn unknown_function_reply(name: &str) -> (r: String)
    ensures
        r@ == unknown_function(name@),
{
    joined("未知的系统功能: ", name)
}

/// How far a navigation has come.
#[derive(Debug, PartialEq, Eq)]
pub enum NavStage {
    /// Looking up the host window.
    Locating,
    /// Changing the interface's route.
    Routing,
    /// Making the window visible.
    Showing,
    /// Giving the window input focus.
    Focusing,
    /// Done, with the reply for the user interface.
    Finished(Result<String, String>),
}

/// Mathematical form of a [`NavStage`].
pub enum StageView {
    Locating,
    Routing,
    Showing,
    Focusing,
    Finished(Result<Seq<char>, Seq<char>>),
}

impl View for NavStage {
    type V = StageView;

    open spec fn view(&self) -> StageView {
        match self {
            NavStage::Locating => StageView::Locating,
            NavStage::Routing => StageView::Routing,
            NavStage::Showing => StageView::Showing,
            NavStage::Focusing => StageView::Focusing,
            NavStage::Finished(r) => StageView::Finished(reply_view(*r)),
        }
    }
}

/// What the window host reports after carrying out the pending step.
#[derive(Clone, Debug, PartialEq, Eq)]
pub enum WindowReport {
    /// The host window was looked up: whether it exists.
    Found(bool),
    /// The step succeeded.
    Done,
    /// The step failed, with the host's description of why.
    Failed(String),
}

/// Mathematical form of a [`WindowReport`].
pub enum ReportView {
    Found(bool),
    Done,
    Failed(Seq<char>),
}

impl View for WindowReport {
    type V = ReportView;

    open spec fn view(&self) -> ReportView {
        match self {
            WindowReport::Found(b) => ReportView::Found(*b),
            WindowReport::Done => ReportView::Done,
            WindowReport::Failed(e) => ReportView::Failed(e@),
        }
    }
}

/// The step that the window host should carry out next.
#[derive(Debug, PartialEq, Eq)]
pub enum WindowStep {
    /// Look up the host window.
    Locate,
    /// Run this script in the window.
    RunScript(String),
    /// Show the window.
    Show,
    /// Focus the window.
    Focus,
    /// Nothing more to do: hand this reply to the user interface.
    Finish(Result<String, String>),
}

/// Mathematical form of a [`WindowStep`].
pub enum StepView {
    Locate,
    RunScript(Seq<char>),
    Show,
    Focus,
    Finish(Result<Seq<char>, Seq<char>>),
}

impl View for WindowStep {
    type V = StepView;

    open spec fn view(&self) -> StepView {
        match self {
            WindowStep::Locate => StepView::Locate,
            WindowStep::RunScript(s) => StepView::RunScript(s@),
            WindowStep::Show => StepView::Show,
            WindowStep::Focus => StepView::Focus,
            WindowStep::Finish(r) => StepView::Finish(reply_view(*r)),
        }
    }
}

/// The stage that follows `s` on the report `e`, when navigating to `t`. A
/// missing host window ends the navigation at once as a success; the first
/// failing step ends it with that step's message; a report that does not
/// answer the pending step changes nothing.
pub open spec fn next_stage(t: NavigationTarget, s: StageView, e: ReportView) -> StageView {
    match (s, e) {
        (StageView::Locating, ReportView::Found(false)) => StageView::Finished(Ok(confirmation(t))),
        (StageView::Locating, ReportView::Found(true)) => StageView::Routing,
        (StageView::Routing, ReportView::Done) => StageView::Showing,
        (StageView::Routing, ReportView::Failed(m)) => StageView::Finished(Err(route_failure(t) + m)),
        (StageView::Showing, ReportView::Done) => StageView::Focusing,
        (StageView::Showing, ReportView::Failed(m)) => StageView::Finished(Err(show_failure() + m)),
        (StageView::Focusing, ReportView::Done) => StageView::Finished(Ok(confirmation(t))),
        (StageView::Focusing, ReportView::Failed(m)) => StageView::Finished(Err(focus_failure() + m)),
        _ => s,
    }
}

/// The step that stage `s` asks of the window host, when navigating to `t`.
pub open spec fn pending_step(t: NavigationTarget, s: StageView) -> StepView {
    match s {
        StageView::Locating => StepView::Locate,
        StageView::Routing => StepView::RunScript(route_script(t)),
        StageView::Showing => StepView::Show,
        StageView::Focusing => StepView::Focus,
        StageView::Finished(r) => StepView::Finish(r),
    }
}

/// The stage reached from `s` after the reports `es`, in order.
pub open spec fn run_reports(t: NavigationTarget, s: StageView, es: Seq<ReportView>) -> StageView
    decreases es.len(),
{
    if es.len() == 0 {
        s
    } else {
        run_reports(t, next_stage(t, s, es[0]), es.drop_first())
    }
}

/// One navigation of the host window to a view, driven step by step: ask
/// [`Navigation::pending`] what to do, do it, and hand what happened to
/// [`Navigation::advance`], until the pending step is `Finish`.
#[derive(Debug, PartialEq, Eq)]
pub struct Navigation {
    pub target: NavigationTarget,
    pub stage: NavStage,
}

impl Navigation {
    /// A navigation to `target` that has not begun.
    pub fn new(target: NavigationTarget) -> (r: Navigation)
        ensures
            r.target == target,
            r.stage@ == StageView::Locating,
    {
        Navigation { target, stage: NavStage::Locating }
    }

    /// The step that the window host should carry out now.
    pub fn pending(&self) -> (r: WindowStep)
        ensures
            r@ == pending_step(self.target, self.stage@),
    {
        match &self.stage {
            NavStage::Locating => WindowStep::Locate,
            NavStage::Routing => WindowStep::RunScript(self.target.script()),
            NavStage::Showing => WindowStep::Show,
            NavStage::Focusing => WindowStep::Focus,
            NavStage::Finished(Ok(m)) => WindowStep::Finish(Ok(m.clone())),
            NavStage::Finished(Err(m)) => WindowStep::Finish(Err(m.clone())),
        }
    }

    /// Takes in what the window host reported for the pending step.
    pub fn advance(&mut self, report: WindowReport)
        ensures
            final(self).target == old(self).target,
            final(self).stage@ == next_stage(old(self).target, old(self).stage@, report@),
    {
        let t = self.target;
        let next = match (&self.stage, report) {
            (NavStage::Locating, WindowReport::Found(false)) => NavStage::Finished(Ok(t.confirmation())),
            (NavStage::Locating, WindowReport::Found(true)) => NavStage::Routing,
            (NavStage::Routing, WindowReport::Done) => NavStage::Showing,
            (NavStage::Routing, WindowReport::Failed(m)) => NavStage::Finished(Err(t.route_failed(m.as_str()))),
            (NavStage::Showing, WindowReport::Done) => NavStage::Focusing,
            (NavStage::Showing, WindowReport::Failed(m)) => NavStage::Finished(Err(joined("显示窗口失败: ", m.as_str()))),
            (NavStage::Focusing, WindowReport::Done) => NavStage::Finished(Ok(t.confirmation())),
            (NavStage::Focusing, WindowReport::Failed(m)) => NavStage::Finished(Err(joined("聚焦窗口失败: ", m.as_str()))),
            _ => return,
        };
        self.stage = next;
    }
}

/// Each view is selected by its own action name and by no other: the four
/// names and the four views correspond one to one, and any other name selects
/// nothing.
pub proof fn lemma_targets_one_to_one(name: Seq<char>, t: NavigationTarget)
    ensures
        target_of(action_name(t)) == Some(t),
        target_of(name) == Some(t) <==> name == action_name(t),
        target_of(name) is None <==> (forall|u: NavigationTarget| name != action_name(u)),
{
    reveal_strlit("open-settings");
    reveal_strlit("open-plugins");
    reveal_strlit("open-downloads");
    reveal_strlit("open-about");
    assert(action_name(NavigationTarget::Settings).len() == 13);
    assert(action_name(NavigationTarget::Plugins).len() == 12);
    assert(action_name(NavigationTarget::Downloads).len() == 14);
    assert(action_name(NavigationTarget::About).len() == 10);
    if target_of(name) is None {
        assert forall|u: NavigationTarget| name != action_name(u) by {
            match u {
                NavigationTarget::Settings => {},
                NavigationTarget::Plugins => {},
                NavigationTarget::Downloads => {},
                NavigationTarget::About => {},
            }
        }
    }
}

/// The reports of a navigation in which the host window exists and each step
/// on it succeeds.
pub open spec fn smooth_reports(es: Seq<ReportView>) -> bool {
    &&& es.len() >= 4
    &&& es[0] == ReportView::Found(true)
    &&& es[1] == ReportView::Done
    &&& es[2] == ReportView::Done
    &&& es[3] == ReportView::Done
}

proof fn lemma_finished_stays(t: NavigationTarget, r: Result<Seq<char>, Seq<char>>, es: Seq<ReportView>)
    ensures
        run_reports(t, StageView::Finished(r), es) == StageView::Finished(r),
    decreases es.len(),
{
    if es.len() > 0 {
        lemma_finished_stays(t, r, es.drop_first());
    }
}

/// Navigating to the same view twice, with the host window present and every
/// step succeeding both times, ends both times in the same success.
pub proof fn lemma_navigation_repeatable(t: NavigationTarget, first: Seq<ReportView>, second: Seq<ReportView>)
    requires
        smooth_reports(first),
        smooth_reports(second),
    ensures
        run_reports(t, StageView::Locating, first) == StageView::Finished(Ok(confirmation(t))),
        run_reports(t, StageView::Locating, second) == run_reports(t, StageView::Locating, first),
{
    lemma_smooth_run(t, first);
    lemma_smooth_run(t, second);
}

proof fn lemma_smooth_run(t: NavigationTarget, es: Seq<ReportView>)
    requires
        smooth_reports(es),
    ensures
        run_reports(t, StageView::Locating, es) == StageView::Finished(Ok(confirmation(t))),
{
    let e1 = es.drop_first();
    let e2 = e1.drop_first();
    let e3 = e2.drop_first();
    let e4 = e3.drop_first();
    assert(run_reports(t, StageView::Locating, es) == run_reports(t, StageView::Routing, e1));
    assert(run_reports(t, StageView::Routing, e1) == run_reports(t, StageView::Showing, e2));
    assert(run_reports(t, StageView::Showing, e2) == run_reports(t, StageView::Focusing, e3));
    assert(run_reports(t, StageView::Focusing, e3) == run_reports(t, StageView::Finished(Ok(confirmation(t))), e4));
    lemma_finished_stays(t, Ok(confirmation(t)), e4);
}

} // verus!
