//! Process launch: which program to run for a request on each host family, and
//! how a finished (or failed) child process is reported back.

use vstd::prelude::*;
use crate::text::{doubled_quotes, trim_quotes, joined, same_text, strip_quotes, double_single_quotes};

verus! {

/// The host operating-system family, chosen once when the application starts.
#[derive(Clone, Copy, Debug, PartialEq, Eq, Structural)]
pub enum Platform {
    Windows,
    MacOs,
    Linux,
}

/// A program and its arguments, ready to be spawned.
#[derive(Clone, Debug, PartialEq, Eq)]
pub struct Invocation {
    pub program: String,
    pub args: Vec<String>,
}

/// Mathematical form of an [`Invocation`].
pub struct InvocationView {
    pub program: Seq<char>,
    pub args: Seq<Seq<char>>,
}

/// The characters of each string in `v`.
pub open spec fn texts(v: Seq<String>) -> Seq<Seq<char>> {
    v.map_values(|s: String| s@)
}

impl View for Invocation {
    type V = InvocationView;

    open spec fn view(&self) -> InvocationView {
        InvocationView { program: self.program@, args: texts(self.args@) }
    }
}

/// What became of a spawned child process, as the host reported it.
#[derive(Clone, Debug, PartialEq, Eq)]
pub enum ProcessOutcome {
    /// The process could not be created; the host's description of why.
    SpawnFailed(String),
    /// The process ran to its end; whether its exit status was zero, and the
    /// text of its standard error.
    Exited { success: bool, stderr: String },
}

/// Mathematical form of a [`ProcessOutcome`].
pub enum OutcomeView {
    SpawnFailed(Seq<char>),
    Exited { success: bool, stderr: Seq<char> },
}

impl View for ProcessOutcome {
    type V = OutcomeView;

    open spec fn view(&self) -> OutcomeView {
        match self {
            ProcessOutcome::SpawnFailed(e) => OutcomeView::SpawnFailed(e@),
            ProcessOutcome::Exited { success, stderr } => OutcomeView::Exited {
                success: *success,
                stderr: stderr@,
            },
        }
    }
}

/// Mathematical form of a reply to the user interface.
pub open spec fn reply_view(r: Result<String, String>) -> Result<Seq<char>, Seq<char>> {
    match r {
        Ok(m) => Ok(m@),
        Err(m) => Err(m@),
    }
}

/// How an application at `path` is started: through the shell's `start` on
/// Windows, through `open` elsewhere.
pub open spec fn launch_plan(p: Platform, path: Seq<char>) -> InvocationView {
    if p == Platform::Windows {
        InvocationView { program: "cmd"@, args: seq!["/C"@, "start"@, path] }
    } else {
        InvocationView { program: "open"@, args: seq![path] }
    }
}

/// How the file at `path` is opened with its default handler.
pub open spec fn open_plan(p: Platform, path: Seq<char>) -> InvocationView {
    match p {
        Platform::Windows => InvocationView {
            program: "cmd"@,
            args: seq!["/C"@, "start"@, ""@, path],
        },
        Platform::MacOs => InvocationView { program: "open"@, args: seq![path] },
        Platform::Linux => InvocationView { program: "xdg-open"@, args: seq![path] },
    }
}

/// A command of the shape `cmd <flag> start <title> <target> ...`.
pub open spec fn is_start_form(command: Seq<char>, args: Seq<Seq<char>>) -> bool {
    command == "cmd"@ && args.len() >= 4 && args[1] == "start"@
}

/// The PowerShell script that starts `target` (quotes around it removed).
pub open spec fn start_process_script(target: Seq<char>) -> Seq<char> {
    "Start-Process -FilePath '"@ + doubled_quotes(trim_quotes(target)) + "' -ErrorAction Stop"@
}

/// How a command is run: as given, except that a Windows `cmd ... start`
/// form is handed to PowerShell's `Start-Process` with its fourth argument as
/// the target, which avoids `cmd`'s quoting rules.
pub open spec fn command_plan(p: Platform, command: Seq<char>, args: Seq<Seq<char>>) -> InvocationView {
    if p == Platform::Windows && is_start_form(command, args) {
        InvocationView {
            program: "powershell"@,
            args: seq!["-Command"@, start_process_script(args[3])],
        }
    } else {
        InvocationView { program: command, args }
    }
}

/// The reply to an application launch.
pub open spec fn launch_reply(o: OutcomeView) -> Result<Seq<char>, Seq<char>> {
    match o {
        OutcomeView::SpawnFailed(e) => Err("Failed to launch app: "@ + e),
        OutcomeView::Exited { success, stderr } => if success {
            Ok("App launched successfully"@)
        } else {
            Err("Failed to launch app: "@ + stderr)
        },
    }
}

/// The reply to opening a file.
pub open spec fn open_reply(o: OutcomeView) -> Result<Seq<char>, Seq<char>> {
    match o {
        OutcomeView::SpawnFailed(e) => Err("打开文件失败: "@ + e),
        OutcomeView::Exited { success, stderr } => if success {
            Ok("文件已打开"@)
        } else {
            Err("打开文件失败: "@ + stderr)
        },
    }
}

/// The reply to a command: a non-zero exit with nothing on standard error
/// still counts as success.
pub open spec fn command_reply(o: OutcomeView) -> Result<Seq<char>, Seq<char>> {
    match o {
        OutcomeView::SpawnFailed(e) => Err("执行命令失败: "@ + e),
        OutcomeView::Exited { success, stderr } => if success || stderr.len() == 0 {
            Ok("命令执行成功"@)
        } else {
            Err("命令执行失败: "@ + stderr)
        },
    }
}

fn owned(s: &str) -> (r: String)
    ensures
        r@ == s@,
{
    String::from_str(s)
}

fn copy_all(v: &Vec<String>) -> (r: Vec<String>)
    ensures
        texts(r@) == texts(v@),
{
    let mut r: Vec<String> = Vec::new();
    let mut i: usize = 0;
    while i < v.len()
        invariant
            i <= v@.len(),
            r@.len() == i,
            forall|j: int| 0 <= j < i ==> r@[j]@ == v@[j]@,
        decreases v@.len() - i,
    {
        let s = v[i].clone();
        r.push(s);
        i = i + 1;
    }
    assert(texts(r@) =~= texts(v@));
    r
}

/// The program and arguments that start the application at `app_path`.
pub fn launch_invocation(platform: Platform, app_path: &str) -> (r: Invocation)
    ensures
        r@ == launch_plan(platform, app_path@),
{
    let mut args: Vec<String> = Vec::new();
    if platform == Platform::Windows {
        args.push(owned("/C"));
        args.push(owned("start"));
        args.push(owned(app_path));
        let r = Invocation { program: owned("cmd"), args };
        assert(r@.args =~= launch_plan(platform, app_path@).args);
        r
    } else {
        args.push(owned(app_path));
        let r = Invocation { program: owned("open"), args };
        assert(r@.args =~= launch_plan(platform, app_path@).args);
        r
    }
}

/// The program and arguments that open the file at `path` with its default
/// handler.
pub fn open_invocation(platform: Platform, path: &str) -> (r: Invocation)
    ensures
        r@ == open_plan(platform, path@),
{
    let mut args: Vec<String> = Vec::new();
    match platform {
        Platform::Windows => {
            args.push(owned("/C"));
            args.push(owned("start"));
            args.push(owned(""));
            args.push(owned(path));
            let r = Invocation { program: owned("cmd"), args };
            assert(r@.args =~= open_plan(platform, path@).args);
            r
        },
        Platform::MacOs => {
            args.push(owned(path));
            let r = Invocation { program: owned("open"), args };
            assert(r@.args =~= open_plan(platform, path@).args);
            r
        },
        Platform::Linux => {
            args.push(owned(path));
            let r = Invocation { program: owned("xdg-open"), args };
            assert(r@.args =~= open_plan(platform, path@).args);
            r
        },
    }
}

/// The program and arguments that run `command` with `args`.
pub fn command_invocation(platform: Platform, command: &str, args: &Vec<String>) -> (r: Invocation)
    ensures
        r@ == command_plan(platform, command@, texts(args@)),
{
    let ghost a = texts(args@);
    if platform == Platform::Windows && same_text(command, "cmd") && args.len() >= 4
        && same_text(args[1].as_str(), "start") {
        let target = strip_quotes(args[3].as_str());
        let quoted = double_single_quotes(target);
        let script = joined("Start-Process -FilePath '", quoted.as_str());
        let script = joined(script.as_str(), "' -ErrorAction Stop");
        let mut plan_args: Vec<String> = Vec::new();
        plan_args.push(owned("-Command"));
        plan_args.push(script);
        let r = Invocation { program: owned("powershell"), args: plan_args };
        assert(r@.args =~= command_plan(platform, command@, a).args);
        r
    } else {
        let r = Invocation { program: owned(command), args: copy_all(args) };
        r
    }
}

/// The reply for a launch that ended as `outcome` says.
pub fn launch_result(outcome: &ProcessOutcome) -> (r: Result<String, String>)
    ensures
        reply_view(r) == launch_reply(outcome@),
{
    match outcome {
        ProcessOutcome::SpawnFailed(e) => Err(joined("Failed to launch app: ", e.as_str())),
        ProcessOutcome::Exited { success, stderr } => {
            if *success {
                Ok(owned("App launched successfully"))
            } else {
                Err(joined("Failed to launch app: ", stderr.as_str()))
            }
        },
    }
}

/// The reply for a file opening that ended as `outcome` says.
pub fn open_result(outcome: &ProcessOutcome) -> (r: Result<String, String>)
    ensures
        reply_view(r) == open_reply(outcome@),
{
    match outcome {
        ProcessOutcome::SpawnFailed(e) => Err(joined("打开文件失败: ", e.as_str())),
        ProcessOutcome::Exited { success, stderr } => {
            if *success {
                Ok(owned("文件已打开"))
            } else {
                Err(joined("打开文件失败: ", stderr.as_str()))
            }
        },
    }
}

/// The reply for a command that ended as `outcome` says.
pub fn command_result(outcome: &ProcessOutcome) -> (r: Result<String, String>)
    ensures
        reply_view(r) == command_reply(outcome@),
{
    match outcome {
        ProcessOutcome::SpawnFailed(e) => Err(joined("执行命令失败: ", e.as_str())),
        ProcessOutcome::Exited { success, stderr } => {
            if *success || stderr.as_str().unicode_len() == 0 {
                Ok(owned("命令执行成功"))
            } else {
                Err(joined("命令执行失败: ", stderr.as_str()))
            }
        },
    }
}

} // verus!
