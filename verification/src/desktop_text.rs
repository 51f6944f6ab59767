//! The desktop application's text insertion: which display server runs, and which
//! command types text on it.
use vstd::prelude::*;
use vstd::string::StringExecFns;
use crate::strings::chars_of;

verus! {

/// The display server of the session.
#[derive(Clone, Copy, Debug, PartialEq, Eq, Structural)]
pub enum DisplayServer {
    Wayland,
    X11,
    Unknown,
}

/// `needle` occurs in `hay`.
pub open spec fn spec_contains(hay: Seq<char>, needle: Seq<char>) -> bool {
    exists|i: int| 0 <= i <= hay.len() - needle.len() && #[trigger] hay.subrange(i, i + needle.len()) == needle
}

/// Any text occurs in itself.
pub proof fn lemma_contains_itself(s: Seq<char>)
    ensures
        spec_contains(s, s),
{
    assert(s.subrange(0, 0 + s.len() as int) =~= s);
}

/// Text that occurs in a middle piece occurs in the whole.
pub proof fn lemma_contains_in_concat(a: Seq<char>, b: Seq<char>, c: Seq<char>, needle: Seq<char>)
    requires
        spec_contains(b, needle),
    ensures
        spec_contains(a + b + c, needle),
{
    let i = choose|i: int|
        0 <= i <= b.len() - needle.len() && #[trigger] b.subrange(i, i + needle.len()) == needle;
    let whole = a + b + c;
    assert(whole.subrange(a.len() + i, a.len() + i + needle.len()) =~= b.subrange(
        i,
        i + needle.len(),
    ));
}

/// Whether `needle` occurs in `hay`.
pub fn contains(hay: &[char], needle: &[char]) -> (r: bool)
    ensures
        r == spec_contains(hay@, needle@),
{
    let n = hay.len();
    let m = needle.len();
    if m > n {
        proof {
            assert forall|i: int| 0 <= i <= n - m implies #[trigger] hay@.subrange(i, i + m)
                != needle@ by {}
        }
        return false;
    }
    let mut i: usize = 0;
    while i <= n - m
        invariant
            m <= n,
            n == hay@.len(),
            m == needle@.len(),
            i <= n - m + 1,
            forall|k: int| 0 <= k < i ==> #[trigger] hay@.subrange(k, k + m) != needle@,
        decreases n - m + 1 - i,
    {
        let mut j: usize = 0;
        while j < m && hay[i + j] == needle[j]
            invariant
                i <= n - m,
                j <= m,
                m <= n,
                n == hay@.len(),
                m == needle@.len(),
                forall|t: int| 0 <= t < j ==> hay@[i + t] == needle@[t],
            decreases m - j,
        {
            j = j + 1;
        }
        if j == m {
            proof {
                assert(hay@.subrange(i as int, i + m) =~= needle@);
            }
            return true;
        }
        proof {
            assert(hay@.subrange(i as int, i + m)[j as int] != needle@[j as int]);
        }
        i = i + 1;
    }
    false
}

/// What the environment and process list told about the session.
pub struct SessionProbe {
    /// `WAYLAND_DISPLAY` is set.
    pub wayland_display_set: bool,
    /// The value of `XDG_SESSION_TYPE`, when set.
    pub session_type: Option<Vec<char>>,
    /// `DISPLAY` is set.
    pub display_set: bool,
    /// The output of `ps -e`, when it ran.
    pub process_list: Option<Vec<char>>,
}

/// The display server that the probe shows: Wayland when `WAYLAND_DISPLAY` is set or
/// the session type is `wayland`; X11 when `DISPLAY` is set; otherwise what the
/// process list mentions (`wayland` or `wlroots` before `Xorg` or `Xwayland`).
pub open spec fn spec_detect(probe: SessionProbe) -> DisplayServer {
    if probe.wayland_display_set || (probe.session_type matches Some(t) && t@ == "wayland"@) {
        DisplayServer::Wayland
    } else if probe.display_set {
        DisplayServer::X11
    } else {
        match probe.process_list {
            Some(p) => if spec_contains(p@, "wayland"@) || spec_contains(p@, "wlroots"@) {
                DisplayServer::Wayland
            } else if spec_contains(p@, "Xorg"@) || spec_contains(p@, "Xwayland"@) {
                DisplayServer::X11
            } else {
                DisplayServer::Unknown
            },
            None => DisplayServer::Unknown,
        }
    }
}

fn chars_eq(a: &[char], b: &[char]) -> (r: bool)
    ensures
        r == (a@ == b@),
{
    if a.len() != b.len() {
        return false;
    }
    let mut i: usize = 0;
    while i < a.len()
        invariant
            a@.len() == b@.len(),
            i <= a@.len(),
            forall|k: int| 0 <= k < i ==> a@[k] == b@[k],
        decreases a@.len() - i,
    {
        if a[i] != b[i] {
            return false;
        }
        i = i + 1;
    }
    proof {
        assert(a@ =~= b@);
    }
    true
}

/// What decides the display server. `WAYLAND_DISPLAY`, or a session type of
/// `wayland`, means Wayland whatever else the probe says. Otherwise `DISPLAY` means
/// X11 whatever the process list says. X11 is never chosen while a Wayland variable is
/// present. With the environment silent, a process list that mentions `wayland` or
/// `wlroots` means Wayland, and otherwise one that mentions `Xorg` or `Xwayland` means
/// X11; Unknown comes only when the environment names no server and the process list
/// (if any) mentions none.
pub proof fn lemma_detect_prefers_wayland_then_environment(probe: SessionProbe)
    ensures
        probe.wayland_display_set ==> spec_detect(probe) == DisplayServer::Wayland,
        (probe.session_type matches Some(t) && t@ == "wayland"@) ==> spec_detect(probe)
            == DisplayServer::Wayland,
        !probe.wayland_display_set && !(probe.session_type matches Some(t) && t@ == "wayland"@)
            && probe.display_set ==> spec_detect(probe) == DisplayServer::X11,
        spec_detect(probe) == DisplayServer::X11 ==> !probe.wayland_display_set && (
        probe.display_set || (probe.process_list matches Some(p) && (spec_contains(p@, "Xorg"@)
            || spec_contains(p@, "Xwayland"@)))),
        !probe.wayland_display_set && !(probe.session_type matches Some(t) && t@ == "wayland"@)
            && !probe.display_set && (probe.process_list matches Some(p) && (spec_contains(
            p@,
            "wayland"@,
        ) || spec_contains(p@, "wlroots"@))) ==> spec_detect(probe) == DisplayServer::Wayland,
        !probe.wayland_display_set && !(probe.session_type matches Some(t) && t@ == "wayland"@)
            && !probe.display_set && (probe.process_list matches Some(p) && !spec_contains(
            p@,
            "wayland"@,
        ) && !spec_contains(p@, "wlroots"@) && (spec_contains(p@, "Xorg"@) || spec_contains(
            p@,
            "Xwayland"@,
        ))) ==> spec_detect(probe) == DisplayServer::X11,
        spec_detect(probe) == DisplayServer::Unknown ==> !probe.wayland_display_set
            && !probe.display_set && (probe.process_list matches Some(p) ==> !spec_contains(
            p@,
            "wayland"@,
        ) && !spec_contains(p@, "Xorg"@)),
{
}

impl DisplayServer {
    /// The display server that the probe shows.
    pub fn detect_from(probe: &SessionProbe) -> (r: DisplayServer)
        ensures
            r == spec_detect(*probe),
    {
        let wayland = chars_of("wayland");
        let is_wayland_session = match &probe.session_type {
            Some(t) => chars_eq(t.as_slice(), wayland.as_slice()),
            None => false,
        };
        if probe.wayland_display_set || is_wayland_session {
            return DisplayServer::Wayland;
        }
        if probe.display_set {
            return DisplayServer::X11;
        }
        match &probe.process_list {
            Some(p) => {
                let wlroots = chars_of("wlroots");
                let xorg = chars_of("Xorg");
                let xwayland = chars_of("Xwayland");
                if contains(p.as_slice(), wayland.as_slice()) || contains(
                    p.as_slice(),
                    wlroots.as_slice(),
                ) {
                    DisplayServer::Wayland
                } else if contains(p.as_slice(), xorg.as_slice()) || contains(
                    p.as_slice(),
                    xwayland.as_slice(),
                ) {
                    DisplayServer::X11
                } else {
                    DisplayServer::Unknown
                }
            },
            None => DisplayServer::Unknown,
        }
    }

    /// The command that types `text`: `xdotool type -- text` on X11, `wtype text` on
    /// Wayland, `echo -n text` otherwise.
    pub fn get_insert_command(&self, text: &str) -> (r: InsertCommand)
        ensures
            r.program@ == match self {
                DisplayServer::X11 => "xdotool"@,
                DisplayServer::Wayland => "wtype"@,
                DisplayServer::Unknown => "echo"@,
            },
            string_views_of(r.args@) == match self {
                DisplayServer::X11 => seq!["type"@, "--"@, text@],
                DisplayServer::Wayland => seq![text@],
                DisplayServer::Unknown => seq!["-n"@, text@],
            },
    {
        let mut args: Vec<String> = Vec::new();
        let program = match self {
            DisplayServer::X11 => {
                args.push(String::from_str("type"));
                args.push(String::from_str("--"));
                args.push(String::from_str(text));
                "xdotool"
            },
            DisplayServer::Wayland => {
                args.push(String::from_str(text));
                "wtype"
            },
            DisplayServer::Unknown => {
                args.push(String::from_str("-n"));
                args.push(String::from_str(text));
                "echo"
            },
        };
        let r = InsertCommand { program, args };
        proof {
            assert(string_views_of(r.args@) =~= match self {
                DisplayServer::X11 => seq!["type"@, "--"@, text@],
                DisplayServer::Wayland => seq![text@],
                DisplayServer::Unknown => seq!["-n"@, text@],
            });
        }
        r
    }
}

/// The character views of strings.
pub open spec fn string_views_of(s: Seq<String>) -> Seq<Seq<char>> {
    s.map_values(|x: String| x@)
}

/// A program and its arguments.
#[derive(Clone, Debug, PartialEq, Eq)]
pub struct InsertCommand {
    pub program: &'static str,
    pub args: Vec<String>,
}

/// Types text on the display server of the session.
#[derive(Clone, Copy, Debug, PartialEq, Eq, Structural)]
pub struct TextInserter {
    pub display_server: DisplayServer,
}

impl TextInserter {
    /// An inserter for the display server that was detected.
    pub fn new(display_server: DisplayServer) -> (r: TextInserter)
        ensures
            r.display_server == display_server,
    {
        TextInserter { display_server }
    }
}

/// A stored transcription.
#[derive(Clone, Debug, PartialEq, Eq)]
pub struct Transcription {
    pub id: Option<i64>,
    pub text: String,
    pub created_at: Option<i64>,
    pub duration_ms: Option<i64>,
    pub model_id: Option<String>,
    pub audio_path: Option<String>,
    pub output_mode: Option<String>,
    pub audio_size_bytes: Option<i64>,
}

} // verus!
