//! The command-line input tools used on Linux when the input library cannot
//! reach the display server, and the order in which they are tried. The
//! environment is read and the programs are spawned by the caller.
use vstd::prelude::*;
use crate::text::{eq_ignore_ascii_case, spec_eq_ignore_ascii_case};

verus! {

/// A program and the arguments it is started with.
pub struct InputTool {
    pub program: String,
    pub args: Vec<String>,
}

/// The characters of each string, in order.
pub open spec fn spec_strs(v: Seq<String>) -> Seq<Seq<char>> {
    v.map_values(|s: String| s@)
}

/// A tool as a program name and argument list.
pub open spec fn spec_tool(t: InputTool) -> (Seq<char>, Seq<Seq<char>>) {
    (t.program@, spec_strs(t.args@))
}

/// A list of tools as program names and argument lists.
pub open spec fn spec_tools(v: Seq<InputTool>) -> Seq<(Seq<char>, Seq<Seq<char>>)> {
    v.map_values(|t: InputTool| spec_tool(t))
}

fn string(s: &str) -> (r: String)
    ensures
        r@ == s@,
{
    String::from_str(s)
}

fn tool(program: &str, args: Vec<String>) -> (t: InputTool)
    ensures
        t.program@ == program@,
        t.args == args,
{
    InputTool { program: string(program), args }
}

/// The session is a Wayland session: `WAYLAND_DISPLAY` is set, or
/// `XDG_SESSION_TYPE` says `wayland` in any ASCII case.
pub open spec fn spec_is_wayland(wayland_display_set: bool, session_type: Option<Seq<char>>) -> bool {
    wayland_display_set || (session_type matches Some(t) && spec_eq_ignore_ascii_case(t, "wayland"@))
}

/// Whether the session is a Wayland session, from whether `WAYLAND_DISPLAY`
/// is set and the value of `XDG_SESSION_TYPE` (`None` when unset or not
/// Unicode).
pub fn is_wayland(wayland_display_set: bool, session_type: Option<&str>) -> (wayland: bool)
    ensures
        wayland == spec_is_wayland(
            wayland_display_set,
            match session_type {
                Some(t) => Some(t@),
                None => None,
            },
        ),
{
    if wayland_display_set {
        return true;
    }
    match session_type {
        Some(t) => eq_ignore_ascii_case(t, "wayland"),
        None => false,
    }
}

/// The tools that send Ctrl+V when the input library cannot reach the display
/// server, in the order they are tried.
pub open spec fn spec_paste_chord_fallback_tools(wayland: bool) -> Seq<(Seq<char>, Seq<Seq<char>>)> {
    if wayland {
        seq![
            ("wtype"@, seq!["-M"@, "ctrl"@, "v"@, "-m"@, "ctrl"@]),
            ("ydotool"@, seq!["key"@, "29:1"@, "47:1"@, "47:0"@, "29:0"@]),
        ]
    } else {
        seq![
            ("xdotool"@, seq!["key"@, "--clearmodifiers"@, "ctrl+v"@]),
            ("wtype"@, seq!["-M"@, "ctrl"@, "v"@, "-m"@, "ctrl"@]),
        ]
    }
}

/// The tools that type text on Linux, in the order they are tried; the text
/// is appended as the last argument.
pub open spec fn spec_type_text_tools(wayland: bool) -> Seq<(Seq<char>, Seq<Seq<char>>)> {
    if wayland {
        seq![("wtype"@, seq!["--"@]), ("ydotool"@, seq!["type"@, "--"@])]
    } else {
        seq![("xdotool"@, seq!["type"@, "--clearmodifiers"@, "--"@]), ("wtype"@, seq!["--"@])]
    }
}

fn wtype_ctrl_v() -> (t: InputTool)
    ensures
        spec_tool(t) == ("wtype"@, seq!["-M"@, "ctrl"@, "v"@, "-m"@, "ctrl"@]),
{
    let args = vec![string("-M"), string("ctrl"), string("v"), string("-m"), string("ctrl")];
    let t = tool("wtype", args);
    assert(spec_strs(t.args@) =~= seq!["-M"@, "ctrl"@, "v"@, "-m"@, "ctrl"@]);
    t
}

/// The tools that send the paste chord when the input library cannot reach
/// the display server: wtype, then ydotool (which speaks raw evdev codes:
/// 29 = KEY_LEFTCTRL, 47 = KEY_V, :1 press, :0 release) on Wayland; xdotool,
/// then wtype elsewhere.
pub fn paste_chord_fallback_tools(wayland: bool) -> (tools: Vec<InputTool>)
    ensures
        spec_tools(tools@) == spec_paste_chord_fallback_tools(wayland),
{
    if wayland {
        let ydotool = tool(
            "ydotool",
            vec![string("key"), string("29:1"), string("47:1"), string("47:0"), string("29:0")],
        );
        assert(spec_strs(ydotool.args@) =~= seq!["key"@, "29:1"@, "47:1"@, "47:0"@, "29:0"@]);
        let tools = vec![wtype_ctrl_v(), ydotool];
        assert(spec_tools(tools@) =~= spec_paste_chord_fallback_tools(wayland));
        tools
    } else {
        let xdotool = tool("xdotool", vec![string("key"), string("--clearmodifiers"), string("ctrl+v")]);
        assert(spec_strs(xdotool.args@) =~= seq!["key"@, "--clearmodifiers"@, "ctrl+v"@]);
        let tools = vec![xdotool, wtype_ctrl_v()];
        assert(spec_tools(tools@) =~= spec_paste_chord_fallback_tools(wayland));
        tools
    }
}

/// The tools that type text on Linux: wtype, then ydotool on Wayland;
/// xdotool, then wtype elsewhere. Each ends its options with `--`, so text
/// that starts with a dash is typed rather than read as an option.
pub fn type_text_tools(wayland: bool) -> (tools: Vec<InputTool>)
    ensures
        spec_tools(tools@) == spec_type_text_tools(wayland),
{
    if wayland {
        let wtype = tool("wtype", vec![string("--")]);
        assert(spec_strs(wtype.args@) =~= seq!["--"@]);
        let ydotool = tool("ydotool", vec![string("type"), string("--")]);
        assert(spec_strs(ydotool.args@) =~= seq!["type"@, "--"@]);
        let tools = vec![wtype, ydotool];
        assert(spec_tools(tools@) =~= spec_type_text_tools(wayland));
        tools
    } else {
        let xdotool = tool("xdotool", vec![string("type"), string("--clearmodifiers"), string("--")]);
        assert(spec_strs(xdotool.args@) =~= seq!["type"@, "--clearmodifiers"@, "--"@]);
        let wtype = tool("wtype", vec![string("--")]);
        assert(spec_strs(wtype.args@) =~= seq!["--"@]);
        let tools = vec![xdotool, wtype];
        assert(spec_tools(tools@) =~= spec_type_text_tools(wayland));
        tools
    }
}

/// The arguments a tool is started with: its own, then `trailing` when present.
pub fn command_args(tool: &InputTool, trailing: Option<&str>) -> (args: Vec<String>)
    ensures
        spec_strs(args@) == match trailing {
            Some(t) => spec_strs(tool.args@).push(t@),
            None => spec_strs(tool.args@),
        },
{
    let mut args: Vec<String> = Vec::new();
    let n = tool.args.len();
    let mut i: usize = 0;
    while i < n
        invariant
            n == tool.args@.len(),
            i <= n,
            spec_strs(args@) =~= spec_strs(tool.args@.take(i as int)),
        decreases n - i,
    {
        let ghost before = args@;
        let a = tool.args[i].clone();
        assert(a@ == tool.args@[i as int]@);
        args.push(a);
        assert(args@ =~= before.push(a));
        assert(tool.args@.take(i + 1) =~= tool.args@.take(i as int).push(tool.args@[i as int]));
        assert(spec_strs(args@) =~= spec_strs(before).push(a@));
        assert(spec_strs(tool.args@.take(i + 1)) =~= spec_strs(tool.args@.take(i as int)).push(a@));
        i = i + 1;
    }
    assert(tool.args@.take(n as int) =~= tool.args@);
    match trailing {
        Some(t) => {
            args.push(string(t));
        },
        None => {},
    }
    args
}

/// Trying tools in order until one exits cleanly.
#[derive(Clone, Copy, Debug, PartialEq, Eq, Structural)]
pub struct ToolRun {
    /// The index of the tool being run.
    pub current: usize,
    /// How many tools there are.
    pub count: usize,
}

/// What the caller is asked to do next.
#[derive(Clone, Copy, Debug, PartialEq, Eq, Structural)]
pub enum RunAction {
    /// Run the tool with this index, and report whether it ran and exited
    /// cleanly (a missing program, a failed spawn and an unclean exit all
    /// count as not).
    Run(usize),
    /// Stop: whether some tool succeeded.
    Finish(bool),
}

/// The transition of the tool run.
pub open spec fn spec_run_step(run: ToolRun, succeeded: bool) -> (ToolRun, RunAction) {
    if succeeded && run.current < run.count {
        (run, RunAction::Finish(true))
    } else if run.current + 1 < run.count {
        (ToolRun { current: (run.current + 1) as usize, count: run.count }, RunAction::Run((run.current + 1) as usize))
    } else {
        (run, RunAction::Finish(false))
    }
}

impl ToolRun {
    /// Begins trying `count` tools, first to last.
    pub fn start(count: usize) -> (r: (ToolRun, RunAction))
        ensures
            r.0 == (ToolRun { current: 0, count }),
            r.1 == (if count == 0 {
                RunAction::Finish(false)
            } else {
                RunAction::Run(0)
            }),
    {
        let run = ToolRun { current: 0, count };
        if count == 0 {
            (run, RunAction::Finish(false))
        } else {
            (run, RunAction::Run(0))
        }
    }

    /// One step, given whether the current tool succeeded: stop at the first
    /// success, otherwise go on to the next tool, and report failure once every
    /// tool has been tried.
    pub fn step(self, succeeded: bool) -> (r: (ToolRun, RunAction))
        ensures
            r == spec_run_step(self, succeeded),
    {
        if succeeded && self.current < self.count {
            (self, RunAction::Finish(true))
        } else if self.current < self.count && self.current + 1 < self.count {
            let next = self.current + 1;
            (ToolRun { current: next, count: self.count }, RunAction::Run(next))
        } else {
            (self, RunAction::Finish(false))
        }
    }
}

/// Tools are tried in order, each at most once, and only a success reports
/// success: every run asked for is the next index and within the list, and
/// success is reported only right after the current tool succeeded.
pub proof fn lemma_tools_in_order(run: ToolRun, succeeded: bool)
    requires
        run.current < run.count,
    ensures
        spec_run_step(run, succeeded).1 matches RunAction::Run(i) ==> i == run.current + 1 && i
            < run.count && spec_run_step(run, succeeded).0.current == i,
        spec_run_step(run, succeeded).1 == RunAction::Finish(true) ==> succeeded,
        spec_run_step(run, succeeded).1 == RunAction::Finish(false) ==> !succeeded && run.current
            + 1 == run.count,
        succeeded ==> spec_run_step(run, succeeded).1 == RunAction::Finish(true),
        !succeeded && run.current + 1 < run.count ==> spec_run_step(run, succeeded) == (
            ToolRun { current: (run.current + 1) as usize, count: run.count },
            RunAction::Run((run.current + 1) as usize),
        ),
{
}

} // verus!
