//! Desktop notifications.
//!
//! A notification is shown by a program of the platform: a script host on
//! macOS and on Windows, a notifier on Linux. This module builds the command
//! line, with title and body escaped for the script they are spliced into.
//! Running the command is the caller's work.

use vstd::prelude::*;
use vstd::string::*;
use crate::text::views;

verus! {

/// The platforms that are told apart.
#[derive(Clone, Copy, Debug, PartialEq, Eq, Structural)]
pub enum Platform {
    MacOs,
    Linux,
    Windows,
    Other,
}

/// A program and its arguments.
pub struct NotifyCommand {
    pub program: String,
    pub args: Vec<String>,
}

/// Why a notification was not shown.
pub enum NotifyError {
    /// The platform has no notifier that is known here.
    UnsupportedPlatform,
    /// The notifier could not be run; `reason` is what the system said.
    Dispatch { reason: String },
}

/// How one character stands inside a double-quoted AppleScript string: a
/// backslash and a double quote each get a backslash in front.
pub open spec fn escaped_char(c: char) -> Seq<char> {
    if c == '\\' || c == '"' {
        seq!['\\', c]
    } else {
        seq![c]
    }
}

/// A text as it stands inside a double-quoted AppleScript string.
pub open spec fn escaped(s: Seq<char>) -> Seq<char>
    decreases s.len(),
{
    if s.len() == 0 {
        Seq::<char>::empty()
    } else {
        escaped_char(s[0]) + escaped(s.drop_first())
    }
}

/// The text that a double-quoted AppleScript string stands for: a backslash
/// makes the character after it literal.
pub open spec fn unescaped(t: Seq<char>) -> Seq<char>
    decreases t.len(),
{
    if t.len() == 0 {
        Seq::<char>::empty()
    } else if t[0] == '\\' && t.len() >= 2 {
        seq![t[1]] + unescaped(t.subrange(2, t.len() as int))
    } else {
        seq![t[0]] + unescaped(t.drop_first())
    }
}

/// How one character stands inside a single-quoted PowerShell string: a
/// single quote is doubled.
pub open spec fn quoted_char(c: char) -> Seq<char> {
    if c == '\'' {
        seq!['\'', '\'']
    } else {
        seq![c]
    }
}

/// A text as it stands inside a single-quoted PowerShell string.
pub open spec fn quoted(s: Seq<char>) -> Seq<char>
    decreases s.len(),
{
    if s.len() == 0 {
        Seq::<char>::empty()
    } else {
        quoted_char(s[0]) + quoted(s.drop_first())
    }
}

/// The AppleScript that shows a notification.
pub open spec fn apple_script(title: Seq<char>, body: Seq<char>) -> Seq<char> {
    "display notification \""@ + escaped(body) + "\" with title \""@ + escaped(title) + "\""@
}

/// What follows the two assignments in the PowerShell script: it loads the
/// toast types, builds the toast from `$t` and `$b` and shows it.
pub open spec fn toast_tail() -> Seq<char> {
    "';[Windows.UI.Notifications.ToastNotificationManager,Windows.UI.Notifications,ContentType=WindowsRuntime]>$null;[Windows.Data.Xml.Dom.XmlDocument,Windows.Data.Xml.Dom.XmlDocument,ContentType=WindowsRuntime]>$null;$x=New-Object Windows.Data.Xml.Dom.XmlDocument;$x.LoadXml(\"<toast><visual><binding template='ToastGeneric'><text>$t</text><text>$b</text></binding></visual></toast>\");$n=[Windows.UI.Notifications.ToastNotification]::new($x);[Windows.UI.Notifications.ToastNotificationManager]::CreateToastNotifier('SEFS').Show($n);"@
}

/// The PowerShell script that shows a notification.
pub open spec fn power_shell_script(title: Seq<char>, body: Seq<char>) -> Seq<char> {
    "$t='"@ + quoted(title) + "';$b='"@ + quoted(body) + toast_tail()
}

/// The program that shows notifications on `platform`.
pub open spec fn notifier_program(platform: Platform) -> Seq<char> {
    match platform {
        Platform::MacOs => "osascript"@,
        Platform::Linux => "notify-send"@,
        Platform::Windows => "powershell"@,
        Platform::Other => Seq::<char>::empty(),
    }
}

/// The arguments with which it shows `title` and `body`.
pub open spec fn notifier_args(platform: Platform, title: Seq<char>, body: Seq<char>) -> Seq<
    Seq<char>,
> {
    match platform {
        Platform::MacOs => seq!["-e"@, apple_script(title, body)],
        Platform::Linux => seq![title, body],
        Platform::Windows => seq!["-NoProfile"@, "-Command"@, power_shell_script(title, body)],
        Platform::Other => Seq::<Seq<char>>::empty(),
    }
}

/// Escaping goes character by character, so it can be done from the left.
pub proof fn lemma_escaped_push(s: Seq<char>, c: char)
    ensures
        escaped(s.push(c)) == escaped(s) + escaped_char(c),
    decreases s.len(),
{
    if s.len() == 0 {
        assert(s.push(c).drop_first() =~= Seq::<char>::empty());
        assert(escaped(s.push(c)) =~= escaped_char(c) + escaped(Seq::<char>::empty()));
    } else {
        lemma_escaped_push(s.drop_first(), c);
        assert(s.push(c).drop_first() =~= s.drop_first().push(c));
    }
}

/// Quoting goes character by character, so it can be done from the left.
pub proof fn lemma_quoted_push(s: Seq<char>, c: char)
    ensures
        quoted(s.push(c)) == quoted(s) + quoted_char(c),
    decreases s.len(),
{
    if s.len() == 0 {
        assert(s.push(c).drop_first() =~= Seq::<char>::empty());
        assert(quoted(s.push(c)) =~= quoted_char(c) + quoted(Seq::<char>::empty()));
    } else {
        lemma_quoted_push(s.drop_first(), c);
        assert(s.push(c).drop_first() =~= s.drop_first().push(c));
    }
}

/// An escaped text stands for the text it was made from, whatever quotes
/// and backslashes that text holds.
pub proof fn lemma_escape_round_trip(s: Seq<char>)
    ensures
        unescaped(escaped(s)) == s,
    decreases s.len(),
{
    if s.len() > 0 {
        let rest = s.drop_first();
        let e = escaped(s);
        lemma_escape_round_trip(rest);
        if s[0] == '\\' || s[0] == '"' {
            assert(e.subrange(2, e.len() as int) =~= escaped(rest));
        } else {
            assert(e.drop_first() =~= escaped(rest));
        }
    }
}

/// In an escaped text no double quote stands without a backslash in front.
pub proof fn lemma_escaped_quote_guarded(s: Seq<char>, i: int)
    requires
        0 <= i < escaped(s).len(),
        escaped(s)[i] == '"',
    ensures
        i > 0,
        escaped(s)[i - 1] == '\\',
    decreases s.len(),
{
    if s.len() > 0 {
        let head = escaped_char(s[0]);
        if i >= head.len() {
            lemma_escaped_quote_guarded(s.drop_first(), i - head.len());
        }
    }
}

/// Escapes `s` for a double-quoted AppleScript string.
pub fn escape_applescript(s: &str) -> (r: String)
    ensures
        r@ == escaped(s@),
{
    let n = s.unicode_len();
    let mut out = String::new();
    let mut i: usize = 0;
    while i < n
        invariant
            n == s@.len(),
            i <= n,
            out@ == escaped(s@.subrange(0, i as int)),
        decreases n - i,
    {
        let c = s.get_char(i);
        proof {
            lemma_escaped_push(s@.subrange(0, i as int), c);
            assert(s@.subrange(0, i as int).push(c) =~= s@.subrange(0, i + 1));
            reveal_strlit("\\\\");
            reveal_strlit("\\\"");
        }
        if c == '\\' {
            out.append("\\\\");
        } else if c == '"' {
            out.append("\\\"");
        } else {
            out.append(s.substring_char(i, i + 1));
        }
        i += 1;
    }
    assert(s@.subrange(0, n as int) =~= s@);
    out
}

/// Quotes `s` for a single-quoted PowerShell string.
pub fn quote_powershell(s: &str) -> (r: String)
    ensures
        r@ == quoted(s@),
{
    let n = s.unicode_len();
    let mut out = String::new();
    let mut i: usize = 0;
    while i < n
        invariant
            n == s@.len(),
            i <= n,
            out@ == quoted(s@.subrange(0, i as int)),
        decreases n - i,
    {
        let c = s.get_char(i);
        proof {
            lemma_quoted_push(s@.subrange(0, i as int), c);
            assert(s@.subrange(0, i as int).push(c) =~= s@.subrange(0, i + 1));
            reveal_strlit("''");
        }
        if c == '\'' {
            out.append("''");
        } else {
            out.append(s.substring_char(i, i + 1));
        }
        i += 1;
    }
    assert(s@.subrange(0, n as int) =~= s@);
    out
}

/// Builds the AppleScript that shows `title` and `body`.
pub fn build_apple_script(title: &str, body: &str) -> (r: String)
    ensures
        r@ == apple_script(title@, body@),
{
    let mut out = "display notification \"".to_owned();
    out.append(escape_applescript(body).as_str());
    out.append("\" with title \"");
    out.append(escape_applescript(title).as_str());
    out.append("\"");
    out
}

/// Builds the PowerShell script that shows `title` and `body`.
pub fn build_power_shell_script(title: &str, body: &str) -> (r: String)
    ensures
        r@ == power_shell_script(title@, body@),
{
    let mut out = "$t='".to_owned();
    out.append(quote_powershell(title).as_str());
    out.append("';$b='");
    out.append(quote_powershell(body).as_str());
    out.append("';[Windows.UI.Notifications.ToastNotificationManager,Windows.UI.Notifications,ContentType=WindowsRuntime]>$null;[Windows.Data.Xml.Dom.XmlDocument,Windows.Data.Xml.Dom.XmlDocument,ContentType=WindowsRuntime]>$null;$x=New-Object Windows.Data.Xml.Dom.XmlDocument;$x.LoadXml(\"<toast><visual><binding template='ToastGeneric'><text>$t</text><text>$b</text></binding></visual></toast>\");$n=[Windows.UI.Notifications.ToastNotification]::new($x);[Windows.UI.Notifications.ToastNotificationManager]::CreateToastNotifier('SEFS').Show($n);");
    out
}

/// The command that shows a notification with `title` and `body` on
/// `platform`. Every platform but `Other` has one.
pub fn notification_command(platform: Platform, title: &str, body: &str) -> (r: Result<
    NotifyCommand,
    NotifyError,
>)
    ensures
        r is Ok <==> platform != Platform::Other,
        r is Err ==> r->Err_0 is UnsupportedPlatform,
        r is Ok ==> r->Ok_0.program@ == notifier_program(platform) && views(r->Ok_0.args@)
            == notifier_args(platform, title@, body@),
{
    let mut args: Vec<String> = Vec::new();
    match platform {
        Platform::MacOs => {
            args.push("-e".to_owned());
            args.push(build_apple_script(title, body));
            Ok(NotifyCommand { program: "osascript".to_owned(), args })
        },
        Platform::Linux => {
            args.push(title.to_owned());
            args.push(body.to_owned());
            Ok(NotifyCommand { program: "notify-send".to_owned(), args })
        },
        Platform::Windows => {
            args.push("-NoProfile".to_owned());
            args.push("-Command".to_owned());
            args.push(build_power_shell_script(title, body));
            Ok(NotifyCommand { program: "powershell".to_owned(), args })
        },
        Platform::Other => Err(NotifyError::UnsupportedPlatform),
    }
}

/// The text of an error, as it is handed to the caller.
pub open spec fn error_text(e: NotifyError) -> Seq<char> {
    match e {
        NotifyError::UnsupportedPlatform => "Unsupported platform"@,
        NotifyError::Dispatch { reason } => reason@,
    }
}

impl NotifyError {
    /// The text of the error.
    pub fn message(&self) -> (r: String)
        ensures
            r@ == error_text(*self),
    {
        match self {
            NotifyError::UnsupportedPlatform => "Unsupported platform".to_owned(),
            NotifyError::Dispatch { reason } => reason.clone(),
        }
    }
}

/// The result of a dispatch whose command ran, or failed to run with the
/// system's words in `failure`.
pub fn dispatch_result(failure: Option<String>) -> (r: Result<(), NotifyError>)
    ensures
        failure is None ==> r is Ok,
        failure is Some ==> r is Err && r->Err_0 is Dispatch && r->Err_0->reason@
            == failure->Some_0@,
{
    match failure {
        None => Ok(()),
        Some(reason) => Err(NotifyError::Dispatch { reason }),
    }
}

} // verus!
