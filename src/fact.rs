//! Labelled facts about the running system.

use vstd::prelude::*;

verus! {

/// One labelled fact: a short label, an icon glyph that stands for the label
/// in icon mode, and the collected value, empty when it could not be read.
#[derive(Clone, Debug)]
pub struct Data {
    pub name: String,
    pub icon: char,
    pub value: String,
}

impl Data {
    /// The label is not empty.
    pub open spec fn wf(&self) -> bool {
        self.name@.len() > 0
    }
}

fn fact(name: &str, icon: char, value: String) -> (d: Data)
    ensures
        d.name@ == name@,
        d.icon == icon,
        d.value == value,
{
    Data { name: String::from_str(name), icon, value }
}

/// The user fact: the login name.
pub fn username(value: String) -> (d: Data)
    ensures
        d.name@ == "User"@,
        d.icon == '\u{f17c}',
        d.value == value,
        d.wf(),
{
    proof {
        reveal_strlit("User");
    }
    fact("User", '\u{f17c}', value)
}

/// The host fact: the machine's host name.
pub fn hostname(value: String) -> (d: Data)
    ensures
        d.name@ == "Hostname"@,
        d.icon == '\u{f17c}',
        d.value == value,
        d.wf(),
{
    proof {
        reveal_strlit("Hostname");
    }
    fact("Hostname", '\u{f17c}', value)
}

/// The operating-system fact: the distribution's pretty name.
pub fn distro(value: String) -> (d: Data)
    ensures
        d.name@ == "OS"@,
        d.icon == '\u{f17c}',
        d.value == value,
        d.wf(),
{
    proof {
        reveal_strlit("OS");
    }
    fact("OS", '\u{f17c}', value)
}

/// The kernel fact: the kernel release.
pub fn kernel(value: String) -> (d: Data)
    ensures
        d.name@ == "Kernel"@,
        d.icon == '\u{e266}',
        d.value == value,
        d.wf(),
{
    proof {
        reveal_strlit("Kernel");
    }
    fact("Kernel", '\u{e266}', value)
}

/// The uptime fact: how long the system has run.
pub fn uptime(value: String) -> (d: Data)
    ensures
        d.name@ == "Uptime"@,
        d.icon == '\u{f017}',
        d.value == value,
        d.wf(),
{
    proof {
        reveal_strlit("Uptime");
    }
    fact("Uptime", '\u{f017}', value)
}

/// The shell fact: the login shell's name.
pub fn shell(value: String) -> (d: Data)
    ensures
        d.name@ == "Shell"@,
        d.icon == '\u{e795}',
        d.value == value,
        d.wf(),
{
    proof {
        reveal_strlit("Shell");
    }
    fact("Shell", '\u{e795}', value)
}

/// The window-manager fact: the desktop session's name.
pub fn wm(value: String) -> (d: Data)
    ensures
        d.name@ == "WM"@,
        d.icon == '\u{f878}',
        d.value == value,
        d.wf(),
{
    proof {
        reveal_strlit("WM");
    }
    fact("WM", '\u{f878}', value)
}

/// The terminal fact: the terminal's name.
pub fn term(value: String) -> (d: Data)
    ensures
        d.name@ == "Term"@,
        d.icon == '\u{f44f}',
        d.value == value,
        d.wf(),
{
    proof {
        reveal_strlit("Term");
    }
    fact("Term", '\u{f44f}', value)
}

} // verus!
