//! Decisions about the terminal and the programs around it.

use crate::text::{chars_of, occurs, owned, Chars};
use vstd::prelude::*;

verus! {

/// A way in which a terminal shows pictures.
#[derive(Clone, Copy, Debug, PartialEq, Eq, Structural)]
pub enum TerminalProtocol {
    Halfblocks,
    Sixel,
    Kitty,
    Iterm2,
}

/// The way that the settings ask for.
#[derive(Clone, Copy, Debug, PartialEq, Eq, Structural)]
pub enum ImageProtocol {
    Auto,
    Kitty,
    Iterm2,
    Sixel,
}

/// The way in which pictures are shown: the one that was asked for, or the one that was found out.
/// iTerm2 is sometimes taken for Kitty.
pub open spec fn protocol_in_use(
    wanted: ImageProtocol,
    found: TerminalProtocol,
    program: Option<Chars>,
) -> TerminalProtocol {
    match wanted {
        ImageProtocol::Auto => if found == TerminalProtocol::Kitty && program is Some && occurs(
            program->0,
            "iTerm"@,
        ) {
            TerminalProtocol::Iterm2
        } else {
            found
        },
        ImageProtocol::Kitty => TerminalProtocol::Kitty,
        ImageProtocol::Iterm2 => TerminalProtocol::Iterm2,
        ImageProtocol::Sixel => TerminalProtocol::Sixel,
    }
}

/// Chooses the way in which pictures are shown. `program` is the name that the terminal goes by.
pub fn configured_image_protocol(
    wanted: ImageProtocol,
    found: TerminalProtocol,
    program: &Option<String>,
) -> (r: TerminalProtocol)
    ensures
        r == protocol_in_use(wanted, found, crate::text::opt_text(*program)),
{
    match wanted {
        ImageProtocol::Auto => {
            if found == TerminalProtocol::Kitty {
                if let Some(p) = program {
                    let chars: Vec<char> = chars_of(p.as_str());
                    if crate::text::contains(&chars, "iTerm") {
                        return TerminalProtocol::Iterm2;
                    }
                }
            }
            found
        },
        ImageProtocol::Kitty => TerminalProtocol::Kitty,
        ImageProtocol::Iterm2 => TerminalProtocol::Iterm2,
        ImageProtocol::Sixel => TerminalProtocol::Sixel,
    }
}

/// A program that takes text for the clipboard, and its arguments.
#[derive(Debug)]
pub struct ClipboardTool {
    pub command: &'static str,
    pub args: Vec<&'static str>,
}

pub struct ToolView {
    pub command: Chars,
    pub args: Seq<Chars>,
}

impl View for ClipboardTool {
    type V = ToolView;

    open spec fn view(&self) -> ToolView {
        ToolView {
            command: self.command@,
            args: Seq::new(self.args@.len(), |i: int| self.args@[i]@),
        }
    }
}

pub open spec fn tools_view(v: Seq<ClipboardTool>) -> Seq<ToolView> {
    Seq::new(v.len(), |i: int| v[i]@)
}

/// The programs that are tried for the clipboard, in order: the first that can be started is taken.
pub open spec fn clipboard_programs(macos: bool) -> Seq<ToolView> {
    if macos {
        seq![ToolView { command: "pbcopy"@, args: Seq::empty() }]
    } else {
        seq![
            ToolView { command: "wl-copy"@, args: Seq::empty() },
            ToolView { command: "xclip"@, args: seq!["-selection"@, "clipboard"@] },
        ]
    }
}

fn tool(command: &'static str) -> (r: ClipboardTool)
    ensures
        r@ == (ToolView { command: command@, args: Seq::empty() }),
{
    let t: ClipboardTool = ClipboardTool { command, args: Vec::new() };
    assert(t@.args =~= Seq::empty());
    t
}

/// Lists the programs that are tried for the clipboard.
pub fn clipboard_tools(macos: bool) -> (r: Vec<ClipboardTool>)
    ensures
        tools_view(r@) == clipboard_programs(macos),
{
    let mut v: Vec<ClipboardTool> = Vec::new();
    if macos {
        v.push(tool("pbcopy"));
    } else {
        v.push(tool("wl-copy"));
        let mut args: Vec<&'static str> = Vec::new();
        args.push("-selection");
        args.push("clipboard");
        let x: ClipboardTool = ClipboardTool { command: "xclip", args };
        assert(x@.args =~= seq!["-selection"@, "clipboard"@]);
        v.push(x);
    }
    assert(tools_view(v@) =~= clipboard_programs(macos));
    v
}

/// What became of a text for the clipboard.
#[derive(Debug)]
pub enum Clipboard {
    /// The next program has to be tried.
    Try(usize),
    Written,
    Failed(String),
}

/// Goes on with the clipboard after the program at `index` of `count` was tried. `started` tells
/// whether it could be started, and `error` what went wrong while it ran.
pub fn clipboard_tried(index: usize, count: usize, started: bool, error: Option<String>) -> (r:
    Clipboard)
    requires
        index < count,
    ensures
        started ==> match error {
            Some(e) => r matches Clipboard::Failed(m) && m == e,
            None => r is Written,
        },
        !started && index + 1 < count ==> r == Clipboard::Try((index + 1) as usize),
        !started && index + 1 >= count ==> (r matches Clipboard::Failed(m) && m@
            == "no clipboard tool found (pbcopy / wl-copy / xclip)"@),
{
    if started {
        return match error {
            Some(e) => Clipboard::Failed(e),
            None => Clipboard::Written,
        };
    }
    if index + 1 < count {
        Clipboard::Try(index + 1)
    } else {
        Clipboard::Failed(owned("no clipboard tool found (pbcopy / wl-copy / xclip)"))
    }
}

} // verus!
