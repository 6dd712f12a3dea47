//! Launching outside programs: the browser command per platform, and what a finished
//! command reports back.
use vstd::prelude::*;

use crate::text::{decode_lossy, utf8_lossy};

verus! {

/// The operating systems the control panel distinguishes.
#[derive(Clone, Copy, Debug, PartialEq, Eq, Structural)]
pub enum Platform {
    Windows,
    MacOs,
    Linux,
    Other,
}

/// Process creation flag that keeps a console window from appearing (`CREATE_NO_WINDOW`).
pub const CREATE_NO_WINDOW: u32 = 0x0800_0000;

/// A program to start, its arguments, and whether its console window is kept hidden.
pub struct LaunchCommand {
    pub program: String,
    pub args: Vec<String>,
    pub hide_console: bool,
}

impl View for LaunchCommand {
    type V = (Seq<char>, Seq<Seq<char>>, bool);

    open spec fn view(&self) -> (Seq<char>, Seq<Seq<char>>, bool) {
        (self.program@, self.args@.map_values(|a: String| a@), self.hide_console)
    }
}

/// The command that opens `url` in the default browser on `platform`, if the platform has one.
pub open spec fn browser_command_of(platform: Platform, url: Seq<char>) -> Option<
    (Seq<char>, Seq<Seq<char>>, bool),
> {
    match platform {
        Platform::Windows => Some(
            ("rundll32"@, seq!["url.dll,FileProtocolHandler"@, url], true),
        ),
        Platform::MacOs => Some(("open"@, seq![url], false)),
        Platform::Linux => Some(("xdg-open"@, seq![url], false)),
        Platform::Other => None,
    }
}

/// The command that opens `url` in the default browser: `rundll32 url.dll,FileProtocolHandler`
/// without a console on Windows, `open` on macOS, `xdg-open` on Linux, none elsewhere.
pub fn browser_command(platform: Platform, url: String) -> (cmd: Option<LaunchCommand>)
    ensures
        cmd matches Some(c) ==> browser_command_of(platform, url@) == Some(c@),
        cmd is None ==> browser_command_of(platform, url@) is None,
        platform == Platform::Windows ==> (cmd matches Some(c) && c.program@ == "rundll32"@
            && c.args@.map_values(|a: String| a@) == seq!["url.dll,FileProtocolHandler"@, url@]
            && c.hide_console),
        platform == Platform::MacOs ==> (cmd matches Some(c) && c.program@ == "open"@
            && c.args@.map_values(|a: String| a@) == seq![url@] && !c.hide_console),
        platform == Platform::Linux ==> (cmd matches Some(c) && c.program@ == "xdg-open"@
            && c.args@.map_values(|a: String| a@) == seq![url@] && !c.hide_console),
        platform == Platform::Other ==> cmd is None,
        cmd matches Some(c) ==> c.args@.len() >= 1 && c.args@.last()@ == url@,
{
    let ghost u = url@;
    match platform {
        Platform::Windows => {
            let mut args: Vec<String> = Vec::new();
            args.push("url.dll,FileProtocolHandler".to_owned());
            args.push(url);
            let c = LaunchCommand { program: "rundll32".to_owned(), args, hide_console: true };
            assert(c@.1 =~= seq!["url.dll,FileProtocolHandler"@, u]);
            assert(c.args@.map_values(|a: String| a@) =~= seq!["url.dll,FileProtocolHandler"@, u]);
            Some(c)
        },
        Platform::MacOs => {
            let mut args: Vec<String> = Vec::new();
            args.push(url);
            let c = LaunchCommand { program: "open".to_owned(), args, hide_console: false };
            assert(c@.1 =~= seq![u]);
            assert(c.args@.map_values(|a: String| a@) =~= seq![u]);
            Some(c)
        },
        Platform::Linux => {
            let mut args: Vec<String> = Vec::new();
            args.push(url);
            let c = LaunchCommand { program: "xdg-open".to_owned(), args, hide_console: false };
            assert(c@.1 =~= seq![u]);
            assert(c.args@.map_values(|a: String| a@) =~= seq![u]);
            Some(c)
        },
        Platform::Other => None,
    }
}

/// Every platform with a browser command hands it the whole URL, unchanged, as its last
/// argument; on Windows the arguments are exactly `url.dll,FileProtocolHandler` and the URL,
/// and only there is the console hidden. Only an unknown platform has no command.
pub proof fn law_browser_command_passes_whole_url(platform: Platform, url: Seq<char>)
    ensures
        (platform != Platform::Other) == (browser_command_of(platform, url) is Some),
        browser_command_of(platform, url) matches Some(c) ==> c.1.len() >= 1 && c.1.last()
            == url,
        platform == Platform::Windows ==> browser_command_of(platform, url) == Some(
            ("rundll32"@, seq!["url.dll,FileProtocolHandler"@, url], true),
        ),
        browser_command_of(platform, url) matches Some(c) ==> (c.2 <==> platform
            == Platform::Windows),
        platform == Platform::MacOs ==> browser_command_of(platform, url) == Some(
            ("open"@, seq![url], false),
        ),
        platform == Platform::Linux ==> browser_command_of(platform, url) == Some(
            ("xdg-open"@, seq![url], false),
        ),
{
}

/// The process creation flags for an outside command on `platform`: no console window on
/// Windows, none elsewhere.
pub fn creation_flags(platform: Platform) -> (flags: u32)
    ensures
        flags == (if platform == Platform::Windows {
            CREATE_NO_WINDOW
        } else {
            0
        }),
{
    match platform {
        Platform::Windows => CREATE_NO_WINDOW,
        _ => 0,
    }
}

/// What a finished command reports: its standard output when it succeeded, else its standard
/// error, each decoded as `String::from_utf8_lossy` decodes.
pub fn command_outcome(success: bool, stdout: &[u8], stderr: &[u8]) -> (r: Result<String, String>)
    ensures
        success ==> (r matches Ok(out) && out@ == utf8_lossy(stdout@)),
        !success ==> (r matches Err(err) && err@ == utf8_lossy(stderr@)),
{
    if success {
        Ok(decode_lossy(stdout))
    } else {
        Err(decode_lossy(stderr))
    }
}

} // verus!
