//! Desktop-environment classification and the desktop entries the autostart
//! feature writes. Reading environment variables and touching files is the
//! caller's business.

use vstd::prelude::*;

verus! {

/// ASCII lower-casing of one character; anything but `A`..`Z` is unchanged.
pub open spec fn lower_char(c: char) -> char {
    if c == 'A' {
        'a'
    } else if c == 'B' {
        'b'
    } else if c == 'C' {
        'c'
    } else if c == 'D' {
        'd'
    } else if c == 'E' {
        'e'
    } else if c == 'F' {
        'f'
    } else if c == 'G' {
        'g'
    } else if c == 'H' {
        'h'
    } else if c == 'I' {
        'i'
    } else if c == 'J' {
        'j'
    } else if c == 'K' {
        'k'
    } else if c == 'L' {
        'l'
    } else if c == 'M' {
        'm'
    } else if c == 'N' {
        'n'
    } else if c == 'O' {
        'o'
    } else if c == 'P' {
        'p'
    } else if c == 'Q' {
        'q'
    } else if c == 'R' {
        'r'
    } else if c == 'S' {
        's'
    } else if c == 'T' {
        't'
    } else if c == 'U' {
        'u'
    } else if c == 'V' {
        'v'
    } else if c == 'W' {
        'w'
    } else if c == 'X' {
        'x'
    } else if c == 'Y' {
        'y'
    } else if c == 'Z' {
        'z'
    } else {
        c
    }
}

/// ASCII lower-casing of a whole string.
pub open spec fn lower_seq(s: Seq<char>) -> Seq<char> {
    s.map(|i: int, c: char| lower_char(c))
}

fn lower_char_exec(c: char) -> (r: char)
    ensures
        r == lower_char(c),
{
    match c {
        'A' => 'a',
        'B' => 'b',
        'C' => 'c',
        'D' => 'd',
        'E' => 'e',
        'F' => 'f',
        'G' => 'g',
        'H' => 'h',
        'I' => 'i',
        'J' => 'j',
        'K' => 'k',
        'L' => 'l',
        'M' => 'm',
        'N' => 'n',
        'O' => 'o',
        'P' => 'p',
        'Q' => 'q',
        'R' => 'r',
        'S' => 's',
        'T' => 't',
        'U' => 'u',
        'V' => 'v',
        'W' => 'w',
        'X' => 'x',
        'Y' => 'y',
        'Z' => 'z',
        _ => c,
    }
}

/// Whether `a` equals `b` up to ASCII case; `b` is expected lower-case.
pub fn eq_ignore_ascii_case(a: &str, b: &str) -> (r: bool)
    ensures
        r == (lower_seq(a@) == b@),
{
    let alen = a.unicode_len();
    let blen = b.unicode_len();
    if alen != blen {
        assert(lower_seq(a@) != b@) by {
            assert(lower_seq(a@).len() == a@.len());
        }
        return false;
    }
    let mut i: usize = 0;
    while i < alen
        invariant
            alen == a@.len(),
            alen == b@.len(),
            0 <= i <= alen,
            forall|j: int| 0 <= j < i ==> lower_char(a@[j]) == b@[j],
        decreases alen - i,
    {
        if lower_char_exec(a.get_char(i)) != b.get_char(i) {
            assert(lower_seq(a@)[i as int] != b@[i as int]);
            return false;
        }
        i = i + 1;
    }
    proof {
        assert(lower_seq(a@) =~= b@);
    }
    true
}

/// The desktop environments the autostart feature distinguishes.
#[derive(Debug, Clone, Copy, PartialEq, Eq, Structural)]
pub enum DesktopEnvironment {
    GNOME,
    KDE,
    XFCE,
    LXDE,
    LXQT,
    MATE,
    Cinnamon,
    Unknown,
}

/// How `XDG_CURRENT_DESKTOP` names map to environments.
pub open spec fn env_from_xdg(v: Seq<char>) -> DesktopEnvironment {
    let l = lower_seq(v);
    if l == "gnome"@ || l == "ubuntu:gnome"@ || l == "pop:gnome"@ {
        DesktopEnvironment::GNOME
    } else if l == "kde"@ || l == "plasma"@ {
        DesktopEnvironment::KDE
    } else if l == "xfce"@ {
        DesktopEnvironment::XFCE
    } else if l == "lxde"@ {
        DesktopEnvironment::LXDE
    } else if l == "lxqt"@ {
        DesktopEnvironment::LXQT
    } else if l == "mate"@ {
        DesktopEnvironment::MATE
    } else if l == "cinnamon"@ {
        DesktopEnvironment::Cinnamon
    } else {
        DesktopEnvironment::Unknown
    }
}

/// How `DESKTOP_SESSION` names map to environments.
pub open spec fn env_from_session(v: Seq<char>) -> DesktopEnvironment {
    let l = lower_seq(v);
    if l == "gnome"@ || l == "ubuntu"@ {
        DesktopEnvironment::GNOME
    } else if l == "plasma"@ {
        DesktopEnvironment::KDE
    } else if l == "xfce"@ {
        DesktopEnvironment::XFCE
    } else if l == "mate"@ {
        DesktopEnvironment::MATE
    } else {
        DesktopEnvironment::Unknown
    }
}

/// The classification: `XDG_CURRENT_DESKTOP` decides when it is set, the
/// session name only otherwise, and with neither the environment is unknown.
pub open spec fn detect_spec(
    xdg: Option<Seq<char>>,
    session: Option<Seq<char>>,
) -> DesktopEnvironment {
    match xdg {
        Some(v) => env_from_xdg(v),
        None => match session {
            Some(v) => env_from_session(v),
            None => DesktopEnvironment::Unknown,
        },
    }
}

impl DesktopEnvironment {
    /// Classifies the desktop from the two environment variables' values, as
    /// the caller read them.
    pub fn detect_from(xdg: Option<&str>, session: Option<&str>) -> (r: DesktopEnvironment)
        ensures
            r == detect_spec(
                match xdg {
                    Some(v) => Some(v@),
                    None => None,
                },
                match session {
                    Some(v) => Some(v@),
                    None => None,
                },
            ),
    {
        match xdg {
            Some(v) => {
                if eq_ignore_ascii_case(v, "gnome") || eq_ignore_ascii_case(v, "ubuntu:gnome")
                    || eq_ignore_ascii_case(v, "pop:gnome") {
                    DesktopEnvironment::GNOME
                } else if eq_ignore_ascii_case(v, "kde") || eq_ignore_ascii_case(v, "plasma") {
                    DesktopEnvironment::KDE
                } else if eq_ignore_ascii_case(v, "xfce") {
                    DesktopEnvironment::XFCE
                } else if eq_ignore_ascii_case(v, "lxde") {
                    DesktopEnvironment::LXDE
                } else if eq_ignore_ascii_case(v, "lxqt") {
                    DesktopEnvironment::LXQT
                } else if eq_ignore_ascii_case(v, "mate") {
                    DesktopEnvironment::MATE
                } else if eq_ignore_ascii_case(v, "cinnamon") {
                    DesktopEnvironment::Cinnamon
                } else {
                    DesktopEnvironment::Unknown
                }
            }
            None => match session {
                Some(v) => {
                    if eq_ignore_ascii_case(v, "gnome") || eq_ignore_ascii_case(v, "ubuntu") {
                        DesktopEnvironment::GNOME
                    } else if eq_ignore_ascii_case(v, "plasma") {
                        DesktopEnvironment::KDE
                    } else if eq_ignore_ascii_case(v, "xfce") {
                        DesktopEnvironment::XFCE
                    } else if eq_ignore_ascii_case(v, "mate") {
                        DesktopEnvironment::MATE
                    } else {
                        DesktopEnvironment::Unknown
                    }
                }
                None => DesktopEnvironment::Unknown,
            },
        }
    }
}

/// Where an environment's autostart entry goes.
#[derive(Debug, Clone, Copy, PartialEq, Eq, Structural)]
pub enum AutostartMethod {
    /// The XDG autostart directory, which GNOME, KDE and most others honour.
    XdgDesktopFile,
    /// XFCE's own session directory.
    XfceSessionFile,
}

/// Which method serves which environment: XFCE keeps its own session
/// directory, everything else takes the XDG file.
pub open spec fn setup_method_spec(env: DesktopEnvironment) -> AutostartMethod {
    match env {
        DesktopEnvironment::XFCE => AutostartMethod::XfceSessionFile,
        _ => AutostartMethod::XdgDesktopFile,
    }
}

/// Knows the desktop environment and where its autostart entry belongs;
/// writing the entry is the caller's business.
pub struct AutoStartManager {
    pub desktop_env: DesktopEnvironment,
    pub config_dir: String,
}

impl AutoStartManager {
    pub fn new(desktop_env: DesktopEnvironment, config_dir: String) -> (r: Self)
        ensures
            r.desktop_env == desktop_env,
            r.config_dir == config_dir,
    {
        Self { desktop_env, config_dir }
    }

    /// The method to apply for this manager's environment.
    pub fn setup_method(&self) -> (r: AutostartMethod)
        ensures
            r == setup_method_spec(self.desktop_env),
    {
        match self.desktop_env {
            DesktopEnvironment::XFCE => AutostartMethod::XfceSessionFile,
            _ => AutostartMethod::XdgDesktopFile,
        }
    }
}

/// The autostart desktop entry, with or without the minimized flag.
pub fn autostart_entry_content(minimized: bool) -> (r: String)
    ensures
        minimized
            ==> r@ == "[Desktop Entry]\nType=Application\nName=CopyMaster\nComment=Administrador de copias avanzado\nExec=copymaster --minimized\nIcon=copymaster\nTerminal=false\nStartupNotify=false\nX-GNOME-Autostart-enabled=true\nHidden=false\n"@,
        !minimized
            ==> r@ == "[Desktop Entry]\nType=Application\nName=CopyMaster\nComment=Administrador de copias avanzado\nExec=copymaster\nIcon=copymaster\nTerminal=false\nStartupNotify=false\nX-GNOME-Autostart-enabled=true\nHidden=false\n"@,
{
    if minimized {
        String::from_str(
            "[Desktop Entry]\nType=Application\nName=CopyMaster\nComment=Administrador de copias avanzado\nExec=copymaster --minimized\nIcon=copymaster\nTerminal=false\nStartupNotify=false\nX-GNOME-Autostart-enabled=true\nHidden=false\n",
        )
    } else {
        String::from_str(
            "[Desktop Entry]\nType=Application\nName=CopyMaster\nComment=Administrador de copias avanzado\nExec=copymaster\nIcon=copymaster\nTerminal=false\nStartupNotify=false\nX-GNOME-Autostart-enabled=true\nHidden=false\n",
        )
    }
}

/// The entry XFCE's session directory takes.
pub fn xfce_entry_content() -> (r: String)
    ensures
        r@ == "[Desktop Entry]\nType=Application\nName=CopyMaster\nExec=copymaster --minimized\nStartupNotify=false\n"@,
{
    String::from_str(
        "[Desktop Entry]\nType=Application\nName=CopyMaster\nExec=copymaster --minimized\nStartupNotify=false\n",
    )
}

/// The application-menu entry.
pub fn app_menu_entry_content() -> (r: String)
    ensures
        r@ == "[Desktop Entry]\nType=Application\nName=CopyMaster\nComment=Administrador de copias avanzado\nExec=copymaster\nIcon=copymaster\nTerminal=false\nCategories=Utility;FileTools;\nKeywords=copy;file;transfer;backup;\nStartupWMClass=copymaster\n"@,
{
    String::from_str(
        "[Desktop Entry]\nType=Application\nName=CopyMaster\nComment=Administrador de copias avanzado\nExec=copymaster\nIcon=copymaster\nTerminal=false\nCategories=Utility;FileTools;\nKeywords=copy;file;transfer;backup;\nStartupWMClass=copymaster\n",
    )
}

} // verus!
