//! Starting the daemon with the session: the PowerShell script that puts a
//! shortcut to `boop --daemon <name>` into the user's startup folder.
//!
//! The library writes the texts; running them is the caller's part.

use vstd::prelude::*;
use vstd::string::*;

verus! {

/// The PowerShell that the shortcut starts and that runs the script.
pub const POWERSHELL: &'static str = "C:\\Windows\\System32\\WindowsPowerShell\\v1.0\\powershell.EXE";

/// What PowerShell runs at startup: the program at `exe` as a daemon named `name`.
pub open spec fn daemon_command(exe: Seq<char>, name: Seq<char>) -> Seq<char> {
    ". '"@ + exe + "' --daemon '"@ + name + "'"@
}

/// The arguments of the shortcut: run [`daemon_command`] in a hidden window.
pub open spec fn shell_arguments(exe: Seq<char>, name: Seq<char>) -> Seq<char> {
    "-windowstyle hidden -command \""@ + daemon_command(exe, name) + "\""@
}

/// The shortcut's file, in the startup folder below `appdata`.
pub open spec fn shortcut_file(appdata: Seq<char>) -> Seq<char> {
    appdata + "\\Microsoft\\Windows\\Start Menu\\Programs\\Startup"@ + "\\Boop.lnk"@
}

/// A character as it stands inside a quoted PowerShell string: a backtick
/// goes before a double quote.
pub open spec fn escaped_char(c: char) -> Seq<char> {
    if c == '"' {
        seq!['`', '"']
    } else {
        seq![c]
    }
}

/// A text as it stands inside a quoted PowerShell string.
pub open spec fn escaped(text: Seq<char>) -> Seq<char>
    decreases text.len(),
{
    if text.len() == 0 {
        seq![]
    } else {
        escaped(text.drop_last()) + escaped_char(text.last())
    }
}

/// The script that makes the shortcut: its file, its target, the directory it
/// works in and its arguments, then the saving.
pub open spec fn script(
    exe: Seq<char>,
    exe_dir: Seq<char>,
    appdata: Seq<char>,
    name: Seq<char>,
) -> Seq<char> {
    "$ws = New-Object -ComObject WScript.Shell; $shortcut = $ws.CreateShortcut(\""@
        + shortcut_file(appdata) + "\"); $shortcut.TargetPath = \""@ + POWERSHELL@
        + "\"; $shortcut.WorkingDirectory = \""@ + exe_dir + "\"; $shortcut.Arguments = \""@
        + escaped(shell_arguments(exe, name)) + "\"; $shortcut.Save();"@
}

/// `text` as it stands inside a quoted PowerShell string.
pub fn escape_quotes(text: &str) -> (out: String)
    ensures
        out@ == escaped(text@),
{
    let mut out = String::new();
    for c in it: text.chars()
        invariant
            it.seq() == text@,
            out@ == escaped(text@.take(it.index() as int)),
    {
        proof {
            let k = it.index() as int;
            assert(text@.take(k + 1).drop_last() =~= text@.take(k));
        }
        if c == '"' {
            out.push('`');
        }
        out.push(c);
    }
    assert(text@.take(text@.len() as int) =~= text@);
    out
}

/// The file of the shortcut, given the user's application-data folder.
pub fn shortcut_path(appdata: &str) -> (out: String)
    ensures
        out@ == shortcut_file(appdata@),
{
    let mut out = String::from_str(appdata);
    out.append("\\Microsoft\\Windows\\Start Menu\\Programs\\Startup");
    out.append("\\Boop.lnk");
    out
}

/// The script that makes the shortcut, given where the program is (`exe`, in
/// the directory `exe_dir`), the user's application-data folder and the name
/// that the daemon is to listen as.
pub fn shortcut_script(exe: &str, exe_dir: &str, appdata: &str, name: &str) -> (out: String)
    ensures
        out@ == script(exe@, exe_dir@, appdata@, name@),
{
    let mut command = String::from_str(". '");
    command.append(exe);
    command.append("' --daemon '");
    command.append(name);
    command.append("'");
    let mut arguments = String::from_str("-windowstyle hidden -command \"");
    arguments.append(command.as_str());
    arguments.append("\"");
    let shortcut = shortcut_path(appdata);
    let quoted = escape_quotes(arguments.as_str());

    let mut out = String::from_str(
        "$ws = New-Object -ComObject WScript.Shell; $shortcut = $ws.CreateShortcut(\"",
    );
    out.append(shortcut.as_str());
    out.append("\"); $shortcut.TargetPath = \"");
    out.append(POWERSHELL);
    out.append("\"; $shortcut.WorkingDirectory = \"");
    out.append(exe_dir);
    out.append("\"; $shortcut.Arguments = \"");
    out.append(quoted.as_str());
    out.append("\"; $shortcut.Save();");
    out
}

} // verus!
