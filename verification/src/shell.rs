//! The functions that a shell needs to change its directory to the one
//! chosen in the navigator.

use vstd::prelude::*;

verus! {

/// The shells for which the navigator has such functions.
#[derive(Clone, Copy, Debug, PartialEq, Eq, Structural)]
pub enum ShellType {
    Bash,
    Zsh,
    Fish,
    Powershell,
    /// The command prompt of Windows, for which there are none yet.
    Cmd,
}

/// The functions for Bash and Zsh.
pub const BASH_ZSH_INIT: &'static str = r#"
qs() {
    local dir
    dir=$(quickswitch 2>&1 >/dev/tty | tail -n 1)
    if [ -d "$dir" ]; then
        cd "$dir"
    fi
}

qshs() {
    local dir
    dir=$(quickswitch --mode history 2>&1 >/dev/tty | tail -n 1)
    if [ -d "$dir" ]; then
        cd "$dir"
    fi
}
    "#;

/// The functions for Fish.
pub const FISH_INIT: &'static str = r#"
function qs
    set -l result (quickswitch 2>&1 >/dev/tty)

    if [ -n "$result" ]
        cd -- $result

        # Remove last token from commandline.
        commandline -t ""
        commandline -it -- $prefix
    end

    commandline -f repaint
end

function qshs
    set -l result (quickswitch --mode history 2>&1 >/dev/tty)

    if [ -n "$result" ]
        cd -- $result

        # Remove last token from commandline.
        commandline -t ""
        commandline -it -- $prefix
    end

    commandline -f repaint
end
    "#;

/// The functions for PowerShell.
pub const POWERSHELL_INIT: &'static str = r#"
function qs {
    $errorFile = [System.IO.Path]::GetTempFileName()
    Start-Process -FilePath "quickswitch.exe" -NoNewWindow -Wait -RedirectStandardError $errorFile
    $errorOutput = Get-Content -Path $errorFile -Encoding UTF8
    Remove-Item $errorFile
    if ($errorOutput -and (Test-Path $errorOutput)) {
        cd $errorOutput
    }
}

function qshs {
    $errorFile = [System.IO.Path]::GetTempFileName()
    Start-Process -FilePath "quickswitch.exe" -NoNewWindow -Wait -RedirectStandardError $errorFile -ArgumentList "--mode history"
    $errorOutput = Get-Content -Path $errorFile -Encoding UTF8
    Remove-Item $errorFile
    if ($errorOutput -and (Test-Path $errorOutput)) {
        cd $errorOutput
    }
}
    "#;

/// The text to print for `shell`.
pub open spec fn init_script(shell: ShellType) -> Seq<char> {
    match shell {
        ShellType::Bash => BASH_ZSH_INIT@,
        ShellType::Zsh => BASH_ZSH_INIT@,
        ShellType::Fish => FISH_INIT@,
        _ => POWERSHELL_INIT@,
    }
}

/// The functions to print for `shell`. There are none for the command prompt
/// of Windows.
pub fn qs_init(shell: ShellType) -> (script: String)
    requires
        !(shell is Cmd),
    ensures
        script@ == init_script(shell),
{
    match shell {
        ShellType::Bash => BASH_ZSH_INIT.to_string(),
        ShellType::Zsh => BASH_ZSH_INIT.to_string(),
        ShellType::Fish => FISH_INIT.to_string(),
        _ => POWERSHELL_INIT.to_string(),
    }
}

/// The functions to print for `shell`, where there are any.
pub fn init_script_for(shell: ShellType) -> (script: Option<String>)
    ensures
        script is None == (shell is Cmd),
        script matches Some(s) ==> s@ == init_script(shell),
{
    match shell {
        ShellType::Cmd => None,
        _ => Some(qs_init(shell)),
    }
}

} // verus!
