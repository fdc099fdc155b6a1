//! Classification of a quick-search selection into the work it asks for.

use vstd::prelude::*;
use crate::text::{joined, same_text};
use crate::process::reply_view;
use crate::navigation::{NavigationTarget, target_of, unknown_function, unknown_function_reply};

verus! {

/// A selection made in the launcher's quick search: what kind of entry it is
/// (`application`, `function` or `file`), how it was shown, and what it points
/// at. An application or a file carries a `path`; a function an `action`.
#[derive(Clone, Debug, PartialEq, Eq)]
pub struct QuickSearchResult {
    pub result_type: String,
    pub title: String,
    pub description: String,
    pub icon: String,
    pub path: Option<String>,
    pub action: Option<String>,
    pub category: String,
}

/// The work that a selection asks for.
#[derive(Debug, PartialEq, Eq)]
pub enum Dispatch {
    /// Start the application at this path.
    Launch(String),
    /// Open the file at this path with its default handler.
    OpenFile(String),
    /// Bring the host window to this view.
    Navigate(NavigationTarget),
    /// Nothing to run: hand this reply to the user interface.
    Reply(Result<String, String>),
}

/// Mathematical form of a [`Dispatch`].
pub enum DispatchView {
    Launch(Seq<char>),
    OpenFile(Seq<char>),
    Navigate(NavigationTarget),
    Reply(Result<Seq<char>, Seq<char>>),
}

impl View for Dispatch {
    type V = DispatchView;

    open spec fn view(&self) -> DispatchView {
        match self {
            Dispatch::Launch(p) => DispatchView::Launch(p@),
            Dispatch::OpenFile(p) => DispatchView::OpenFile(p@),
            Dispatch::Navigate(t) => DispatchView::Navigate(*t),
            Dispatch::Reply(r) => DispatchView::Reply(reply_view(*r)),
        }
    }
}

/// The characters of an optional string.
pub open spec fn opt_text(o: Option<String>) -> Option<Seq<char>> {
    match o {
        Some(s) => Some(s@),
        None => None,
    }
}

/// A path that is absent or empty.
pub open spec fn no_path(p: Option<Seq<char>>) -> bool {
    p is None || p->0.len() == 0
}

/// The reply to an application entry without a path.
pub open spec fn missing_app_path() -> Seq<char> {
    "应用路径不能为空"@
}

/// The reply to a file entry without a path.
pub open spec fn missing_file_path() -> Seq<char> {
    "文件路径不能为空"@
}

/// The reply to a function entry without an action.
pub open spec fn missing_action() -> Seq<char> {
    "功能动作不能为空"@
}

/// The reply to an entry of a kind this launcher does not know.
pub open spec fn unknown_kind(kind: Seq<char>) -> Seq<char> {
    "未知的结果类型: "@ + kind
}

/// The work asked for by an entry of kind `kind` with `path` and `action`.
pub open spec fn dispatch_of(kind: Seq<char>, path: Option<Seq<char>>, action: Option<Seq<char>>) -> DispatchView {
    if kind == "application"@ {
        if no_path(path) {
            DispatchView::Reply(Err(missing_app_path()))
        } else {
            DispatchView::Launch(path->0)
        }
    } else if kind == "function"@ {
        match action {
            None => DispatchView::Reply(Err(missing_action())),
            Some(a) => match target_of(a) {
                Some(t) => DispatchView::Navigate(t),
                None => DispatchView::Reply(Err(unknown_function(a))),
            },
        }
    } else if kind == "file"@ {
        if no_path(path) {
            DispatchView::Reply(Err(missing_file_path()))
        } else {
            DispatchView::OpenFile(path->0)
        }
    } else {
        DispatchView::Reply(Err(unknown_kind(kind)))
    }
}

impl QuickSearchResult {
    /// The work that this selection asks for. Requests that cannot be carried
    /// out (a missing or empty path, a missing or unknown action, an unknown
    /// kind) are answered with an error before anything is run.
    pub fn dispatch(&self) -> (d: Dispatch)
        ensures
            d@ == dispatch_of(self.result_type@, opt_text(self.path), opt_text(self.action)),
            self.result_type@ == "application"@ && no_path(opt_text(self.path))
                ==> d@ == DispatchView::Reply(Err(missing_app_path())),
            self.result_type@ == "function"@ && self.action is Some
                && target_of(self.action->0@) is None
                ==> d@ == DispatchView::Reply(Err(unknown_function(self.action->0@))),
            self.result_type@ != "application"@ && self.result_type@ != "function"@
                && self.result_type@ != "file"@
                ==> d@ == DispatchView::Reply(Err(unknown_kind(self.result_type@))),
    {
        proof {
            reveal_strlit("application");
            reveal_strlit("function");
        }
        let kind = self.result_type.as_str();
        if same_text(kind, "application") {
            match &self.path {
                Some(p) => {
                    if p.as_str().unicode_len() == 0 {
                        Dispatch::Reply(Err(String::from_str("应用路径不能为空")))
                    } else {
                        Dispatch::Launch(p.clone())
                    }
                },
                None => Dispatch::Reply(Err(String::from_str("应用路径不能为空"))),
            }
        } else if same_text(kind, "function") {
            match &self.action {
                Some(a) => match NavigationTarget::from_action(a.as_str()) {
                    Some(t) => Dispatch::Navigate(t),
                    None => Dispatch::Reply(Err(unknown_function_reply(a.as_str()))),
                },
                None => Dispatch::Reply(Err(String::from_str("功能动作不能为空"))),
            }
        } else if same_text(kind, "file") {
            match &self.path {
                Some(p) => {
                    if p.as_str().unicode_len() == 0 {
                        Dispatch::Reply(Err(String::from_str("文件路径不能为空")))
                    } else {
                        Dispatch::OpenFile(p.clone())
                    }
                },
                None => Dispatch::Reply(Err(String::from_str("文件路径不能为空"))),
            }
        } else {
            Dispatch::Reply(Err(joined("未知的结果类型: ", kind)))
        }
    }
}

} // verus!
