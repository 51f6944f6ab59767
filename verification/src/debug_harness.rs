//! The debug harness's screen registry: which screens and scenarios it offers, how a
//! command-line selection resolves against them, how the keyboard cycles through
//! scenarios, and the scenarios of the overlay screen.
use vstd::prelude::*;
use vstd::string::StringExecFns;
use vstd::arithmetic::div_mod::lemma_add_mod_noop_right;
use vstd::arithmetic::div_mod::lemma_mod_add_multiples_vanish;
use vstd::arithmetic::div_mod::lemma_mod_bound;
use vstd::arithmetic::div_mod::lemma_small_mod;
use vstd::arithmetic::div_mod::lemma_sub_mod_noop_right;
use crate::daemon::OverlayState;
use crate::strings::debug_quoted;
use crate::strings::debug_quoted_spec;
use crate::strings::str_eq;
use crate::strings::chars_of;
use crate::niri::parse_u64;
use crate::niri::spec_parse_u64;
use crate::time::TimeSpan;
use crate::time::NANOS_PER_MILLI;

verus! {

/// A registered screen: its name, what it shows, and the ids of its scenarios.
#[derive(Clone, Debug, PartialEq, Eq)]
pub struct ScreenListing {
    pub name: &'static str,
    pub description: &'static str,
    pub scenarios: Vec<&'static str>,
}

/// The screen and scenario to open.
#[derive(Clone, Debug, PartialEq, Eq)]
pub struct Selection {
    pub screen: String,
    pub scenario: String,
}

/// The characters of each string.
pub open spec fn texts(s: Seq<&'static str>) -> Seq<Seq<char>> {
    s.map_values(|x: &'static str| x@)
}

/// The names of the screens.
pub open spec fn screen_names(registry: Seq<ScreenListing>) -> Seq<Seq<char>> {
    registry.map_values(|s: ScreenListing| s.name@)
}

/// `items` joined by `sep`.
pub open spec fn spec_joined(items: Seq<Seq<char>>, sep: Seq<char>) -> Seq<char>
    decreases items.len(),
{
    if items.len() == 0 {
        Seq::empty()
    } else if items.len() == 1 {
        items[0]
    } else {
        spec_joined(items.drop_last(), sep) + sep + items.last()
    }
}

/// The first index at which `items` holds `x`.
pub open spec fn spec_position(items: Seq<Seq<char>>, x: Seq<char>) -> Option<int>
    decreases items.len(),
{
    if items.len() == 0 {
        None
    } else if items[0] == x {
        Some(0)
    } else {
        match spec_position(items.drop_first(), x) {
            Some(i) => Some(i + 1),
            None => None,
        }
    }
}

/// The index of the first screen without scenarios.
pub open spec fn first_empty_screen(registry: Seq<ScreenListing>) -> Option<int>
    decreases registry.len(),
{
    if registry.len() == 0 {
        None
    } else if registry[0].scenarios@.len() == 0 {
        Some(0)
    } else {
        match first_empty_screen(registry.drop_first()) {
            Some(i) => Some(i + 1),
            None => None,
        }
    }
}

/// Why a registry is unusable: the first screen without scenarios.
pub open spec fn spec_validation_error(registry: Seq<ScreenListing>) -> Option<Seq<char>> {
    match first_empty_screen(registry) {
        Some(i) => Some(
            "debug screen "@ + debug_quoted_spec(registry[i].name@)
                + " must define at least one scenario"@,
        ),
        None => None,
    }
}

proof fn lemma_first_empty_bounds(registry: Seq<ScreenListing>)
    ensures
        first_empty_screen(registry) matches Some(i) ==> 0 <= i < registry.len()
            && registry[i].scenarios@.len() == 0,
        first_empty_screen(registry) is None ==> forall|j: int|
            0 <= j < registry.len() ==> (#[trigger] registry[j]).scenarios@.len() > 0,
    decreases registry.len(),
{
    if registry.len() > 0 {
        lemma_first_empty_bounds(registry.drop_first());
        assert forall|j: int| 0 < j < registry.len() implies #[trigger] registry[j]
            == registry.drop_first()[j - 1] by {}
    }
}

proof fn lemma_position_bounds(items: Seq<Seq<char>>, x: Seq<char>)
    ensures
        spec_position(items, x) matches Some(i) ==> 0 <= i < items.len() && items[i] == x,
        spec_position(items, x) is None ==> forall|j: int|
            0 <= j < items.len() ==> #[trigger] items[j] != x,
    decreases items.len(),
{
    if items.len() > 0 {
        lemma_position_bounds(items.drop_first(), x);
        assert forall|j: int| 0 < j < items.len() implies #[trigger] items[j]
            == items.drop_first()[j - 1] by {}
    }
}

/// `Ok` when every screen has a scenario; otherwise the error names the first screen
/// without one.
pub fn validate_registry(registry: &[ScreenListing]) -> (r: Result<(), String>)
    ensures
        match spec_validation_error(registry@) {
            None => r is Ok,
            Some(m) => r matches Err(e) && e@ == m,
        },
{
    let mut i: usize = 0;
    proof {
        assert(registry@.subrange(0, registry@.len() as int) =~= registry@);
    }
    while i < registry.len()
        invariant
            i <= registry@.len(),
            forall|j: int| 0 <= j < i ==> (#[trigger] registry@[j]).scenarios@.len() > 0,
            first_empty_screen(registry@.subrange(i as int, registry@.len() as int)) matches Some(
                k,
            ) ==> first_empty_screen(registry@) == Some(k + i),
            first_empty_screen(registry@.subrange(i as int, registry@.len() as int)) is None
                ==> first_empty_screen(registry@) is None,
        decreases registry@.len() - i,
    {
        let ghost rest = registry@.subrange(i as int, registry@.len() as int);
        proof {
            assert(rest[0] == registry@[i as int]);
            assert(rest.drop_first() =~= registry@.subrange(i + 1, registry@.len() as int));
        }
        if registry[i].scenarios.len() == 0 {
            let mut message = String::from_str("debug screen ");
            message.append(debug_quoted(registry[i].name).as_str());
            message.append(" must define at least one scenario");
            return Err(message);
        }
        i = i + 1;
    }
    proof {
        assert(registry@.subrange(i as int, registry@.len() as int) =~= Seq::<ScreenListing>::empty());
    }
    Ok(())
}

/// `items` joined by `sep`.
pub fn join_strs(items: &[&'static str], sep: &str) -> (r: String)
    ensures
        r@ == spec_joined(texts(items@), sep@),
{
    let ghost all = texts(items@);
    let mut out = String::new();
    let mut i: usize = 0;
    while i < items.len()
        invariant
            i <= items@.len(),
            all == texts(items@),
            out@ == spec_joined(all.subrange(0, i as int), sep@),
        decreases items@.len() - i,
    {
        let ghost before = all.subrange(0, i as int);
        if i > 0 {
            out.append(sep);
        }
        out.append(items[i]);
        proof {
            let after = all.subrange(0, i + 1);
            assert(after.drop_last() =~= before);
            if i == 0 {
                assert(out@ =~= after[0]);
            }
        }
        i = i + 1;
    }
    proof {
        assert(all.subrange(0, i as int) =~= all);
    }
    out
}

/// The error for a screen name that no screen has: the name and the valid names.
pub fn unknown_screen_error(screen: &str, registry: &[ScreenListing]) -> (r: String)
    ensures
        r@ == "unknown debug screen "@ + debug_quoted_spec(screen@) + "; valid screens: "@
            + spec_joined(screen_names(registry@), ", "@),
{
    let mut names: Vec<&'static str> = Vec::new();
    let mut i: usize = 0;
    while i < registry.len()
        invariant
            i <= registry@.len(),
            names@.len() == i,
            forall|j: int| 0 <= j < i ==> (#[trigger] names@[j])@ == registry@[j].name@,
        decreases registry@.len() - i,
    {
        names.push(registry[i].name);
        i = i + 1;
    }
    proof {
        assert(texts(names@) =~= screen_names(registry@));
    }
    let mut out = String::from_str("unknown debug screen ");
    out.append(debug_quoted(screen).as_str());
    out.append("; valid screens: ");
    out.append(join_strs(names.as_slice(), ", ").as_str());
    out
}

/// The index of the first screen named `name`.
fn find_screen(registry: &[ScreenListing], name: &str) -> (r: Option<usize>)
    ensures
        r matches Some(i) ==> spec_position(screen_names(registry@), name@) == Some(i as int),
        r is None ==> spec_position(screen_names(registry@), name@) is None,
{
    let ghost names = screen_names(registry@);
    let mut i: usize = 0;
    proof {
        assert(names.subrange(0, names.len() as int) =~= names);
    }
    while i < registry.len()
        invariant
            i <= registry@.len(),
            names == screen_names(registry@),
            names.len() == registry@.len(),
            spec_position(names.subrange(i as int, names.len() as int), name@) matches Some(k)
                ==> spec_position(names, name@) == Some(k + i),
            spec_position(names.subrange(i as int, names.len() as int), name@) is None
                ==> spec_position(names, name@) is None,
        decreases registry@.len() - i,
    {
        let ghost rest = names.subrange(i as int, names.len() as int);
        proof {
            assert(rest[0] == registry@[i as int].name@);
            assert(rest.drop_first() =~= names.subrange(i + 1, names.len() as int));
        }
        if str_eq(registry[i].name, name) {
            return Some(i);
        }
        i = i + 1;
    }
    proof {
        assert(names.subrange(i as int, names.len() as int) =~= Seq::<Seq<char>>::empty());
    }
    None
}

/// Whether `items` holds `x`.
fn contains_str(items: &[&'static str], x: &str) -> (r: bool)
    ensures
        r == texts(items@).contains(x@),
{
    let mut i: usize = 0;
    while i < items.len()
        invariant
            i <= items@.len(),
            forall|j: int| 0 <= j < i ==> (#[trigger] items@[j])@ != x@,
        decreases items@.len() - i,
    {
        if str_eq(items[i], x) {
            proof {
                assert(texts(items@)[i as int] == x@);
            }
            return true;
        }
        i = i + 1;
    }
    proof {
        if texts(items@).contains(x@) {
            let k = choose|k: int| 0 <= k < texts(items@).len() && texts(items@)[k] == x@;
            assert(items@[k]@ == x@);
        }
    }
    false
}

/// The screen that a selection names, or the first screen; as the index of the screen.
pub open spec fn spec_selected_screen(registry: Seq<ScreenListing>, screen: Option<Seq<char>>) -> Option<
    int,
> {
    match screen {
        Some(name) => spec_position(screen_names(registry), name),
        None => if registry.len() > 0 {
            Some(0)
        } else {
            None
        },
    }
}

/// How a selection resolves: the registry must be valid; a named screen must exist;
/// a named scenario must belong to the screen; without a name the first screen and
/// the first scenario are taken. `Ok` holds the screen's name and the scenario.
pub open spec fn spec_resolve(
    registry: Seq<ScreenListing>,
    screen: Option<Seq<char>>,
    scenario: Option<Seq<char>>,
) -> Result<(Seq<char>, Seq<char>), Seq<char>> {
    match spec_validation_error(registry) {
        Some(e) => Err(e),
        None => match spec_selected_screen(registry, screen) {
            None => match screen {
                Some(name) => Err(
                    "unknown debug screen "@ + debug_quoted_spec(name) + "; valid screens: "@
                        + spec_joined(screen_names(registry), ", "@),
                ),
                None => Err("debug registry is empty"@),
            },
            Some(i) => {
                let component = registry[i];
                let scenarios = texts(component.scenarios@);
                match scenario {
                    Some(s) => if scenarios.contains(s) {
                        Ok((component.name@, s))
                    } else {
                        Err(
                            "unknown scenario "@ + debug_quoted_spec(s) + " for screen "@
                                + debug_quoted_spec(component.name@) + "; valid scenarios: "@
                                + spec_joined(scenarios, ", "@),
                        )
                    },
                    None => Ok((component.name@, scenarios[0])),
                }
            },
        },
    }
}

fn opt_view(s: Option<&str>) -> (r: Option<&str>)
    ensures
        r == s,
{
    s
}

/// The selection to open, from the screen and scenario named on the command line.
pub fn resolve_selection(
    registry: &[ScreenListing],
    screen: Option<&str>,
    scenario: Option<&str>,
) -> (r: Result<Selection, String>)
    ensures
        match spec_resolve(
            registry@,
            match screen {
                Some(s) => Some(s@),
                None => None,
            },
            match scenario {
                Some(s) => Some(s@),
                None => None,
            },
        ) {
            Ok((name, chosen)) => r matches Ok(sel) && sel.screen@ == name && sel.scenario@
                == chosen,
            Err(e) => r matches Err(m) && m@ == e,
        },
{
    match validate_registry(registry) {
        Ok(()) => {},
        Err(e) => {
            return Err(e);
        },
    }
    proof {
        lemma_first_empty_bounds(registry@);
    }
    let index = match screen {
        Some(name) => match find_screen(registry, name) {
            Some(i) => i,
            None => {
                return Err(unknown_screen_error(name, registry));
            },
        },
        None => {
            if registry.len() == 0 {
                return Err(String::from_str("debug registry is empty"));
            }
            0
        },
    };
    proof {
        if let Some(name) = screen {
            lemma_position_bounds(screen_names(registry@), name@);
        }
    }
    let component = &registry[index];
    proof {
        assert(component.scenarios@.len() > 0);
    }
    match opt_view(scenario) {
        Some(s) => {
            if contains_str(component.scenarios.as_slice(), s) {
                Ok(Selection { screen: String::from_str(component.name), scenario: String::from_str(s) })
            } else {
                let mut message = String::from_str("unknown scenario ");
                message.append(debug_quoted(s).as_str());
                message.append(" for screen ");
                message.append(debug_quoted(component.name).as_str());
                message.append("; valid scenarios: ");
                message.append(join_strs(component.scenarios.as_slice(), ", ").as_str());
                Err(message)
            }
        },
        None => {
            let first = component.scenarios[0];
            proof {
                assert(texts(component.scenarios@)[0] == first@);
            }
            Ok(Selection { screen: String::from_str(component.name), scenario: String::from_str(first) })
        },
    }
}

/// The scenario `offset` places after the selected one, wrapping around; an unknown
/// selection counts as the first scenario.
pub open spec fn spec_cycled(scenarios: Seq<Seq<char>>, selected: Seq<char>, offset: int) -> int {
    let current = match spec_position(scenarios, selected) {
        Some(i) => i,
        None => 0,
    };
    (current + offset) % (scenarios.len() as int)
}

/// The index of the first of `items` that holds `x`.
fn position_of(items: &[&'static str], x: &str) -> (r: Option<usize>)
    ensures
        r matches Some(i) ==> spec_position(texts(items@), x@) == Some(i as int),
        r is None ==> spec_position(texts(items@), x@) is None,
{
    let ghost names = texts(items@);
    let mut i: usize = 0;
    proof {
        assert(names.subrange(0, names.len() as int) =~= names);
    }
    while i < items.len()
        invariant
            i <= items@.len(),
            names == texts(items@),
            spec_position(names.subrange(i as int, names.len() as int), x@) matches Some(k)
                ==> spec_position(names, x@) == Some(k + i),
            spec_position(names.subrange(i as int, names.len() as int), x@) is None
                ==> spec_position(names, x@) is None,
        decreases items@.len() - i,
    {
        let ghost rest = names.subrange(i as int, names.len() as int);
        proof {
            assert(rest[0] == items@[i as int]@);
            assert(rest.drop_first() =~= names.subrange(i + 1, names.len() as int));
        }
        if str_eq(items[i], x) {
            return Some(i);
        }
        i = i + 1;
    }
    proof {
        assert(names.subrange(i as int, names.len() as int) =~= Seq::<Seq<char>>::empty());
    }
    None
}

/// For `0 <= x < 2m`, `x % m` is `x` below `m` and `x - m` from there.
proof fn lemma_mod_below_twice(x: int, m: int)
    requires
        0 < m,
        0 <= x < 2 * m,
    ensures
        x % m == if x < m {
            x
        } else {
            x - m
        },
{
    if x < m {
        lemma_small_mod(x as nat, m as nat);
    } else {
        lemma_small_mod((x - m) as nat, m as nat);
        lemma_mod_add_multiples_vanish(x - m, m);
    }
}

/// The index of the scenario `offset` steps from the selected one, wrapping around.
pub fn cycle_scenario(scenarios: &[&'static str], selected: &str, offset: isize) -> (r: usize)
    requires
        scenarios@.len() > 0,
    ensures
        r == spec_cycled(texts(scenarios@), selected@, offset as int),
        r < scenarios@.len(),
{
    let len = scenarios.len();
    let current = match position_of(scenarios, selected) {
        Some(i) => i,
        None => 0,
    };
    proof {
        lemma_position_bounds(texts(scenarios@), selected@);
    }
    let ghost m = len as int;
    if offset >= 0 {
        let step = (offset as usize) % len;
        proof {
            lemma_add_mod_noop_right(current as int, offset as int, m);
            lemma_mod_below_twice(current + step, m);
        }
        if step >= len - current {
            step - (len - current)
        } else {
            current + step
        }
    } else {
        let magnitude: u128 = (0i128 - (offset as i128)) as u128;
        let back = (magnitude % (len as u128)) as usize;
        proof {
            let neg = -(offset as int);
            assert(back as int == neg % m);
            lemma_mod_bound(neg, m);
            lemma_sub_mod_noop_right(current + m, neg, m);
            lemma_mod_add_multiples_vanish(current + offset, m);
            assert(current + m - neg == m + (current + offset));
            lemma_mod_below_twice(current + m - back, m);
        }
        if back <= current {
            current - back
        } else {
            current + (len - back)
        }
    }
}

/// The overlay screen's scenarios.
#[derive(Clone, Copy, Debug, PartialEq, Eq, Structural)]
pub enum OverlayScenario {
    RecordingSine,
    RecordingConstant,
    RecordingFrames,
    RecordingLive,
    Transcribing,
    PendingTranscript,
    InsertSubmitted,
    InsertionUncertain,
    DeliveryFailed,
    NoTranscript,
    NothingToPaste,
}

/// Every overlay scenario, in the order the screen lists them.
pub open spec fn spec_overlay_scenarios() -> Seq<OverlayScenario> {
    seq![
        OverlayScenario::RecordingSine,
        OverlayScenario::RecordingConstant,
        OverlayScenario::RecordingFrames,
        OverlayScenario::RecordingLive,
        OverlayScenario::Transcribing,
        OverlayScenario::PendingTranscript,
        OverlayScenario::InsertSubmitted,
        OverlayScenario::InsertionUncertain,
        OverlayScenario::DeliveryFailed,
        OverlayScenario::NoTranscript,
        OverlayScenario::NothingToPaste,
    ]
}

impl OverlayScenario {
    pub open spec fn spec_id(self) -> Seq<char> {
        match self {
            OverlayScenario::RecordingSine => "recording-sine"@,
            OverlayScenario::RecordingConstant => "recording-constant"@,
            OverlayScenario::RecordingFrames => "recording-frames"@,
            OverlayScenario::RecordingLive => "recording-live"@,
            OverlayScenario::Transcribing => "transcribing"@,
            OverlayScenario::PendingTranscript => "pending-transcript"@,
            OverlayScenario::InsertSubmitted => "insert-submitted"@,
            OverlayScenario::InsertionUncertain => "insertion-uncertain"@,
            OverlayScenario::DeliveryFailed => "delivery-failed"@,
            OverlayScenario::NoTranscript => "no-transcript"@,
            OverlayScenario::NothingToPaste => "nothing-to-paste"@,
        }
    }

    /// Every overlay scenario, in the order the screen lists them.
    pub fn all() -> (r: Vec<OverlayScenario>)
        ensures
            r@ == spec_overlay_scenarios(),
    {
        let r = vec![
            OverlayScenario::RecordingSine,
            OverlayScenario::RecordingConstant,
            OverlayScenario::RecordingFrames,
            OverlayScenario::RecordingLive,
            OverlayScenario::Transcribing,
            OverlayScenario::PendingTranscript,
            OverlayScenario::InsertSubmitted,
            OverlayScenario::InsertionUncertain,
            OverlayScenario::DeliveryFailed,
            OverlayScenario::NoTranscript,
            OverlayScenario::NothingToPaste,
        ];
        proof {
            assert(r@ =~= spec_overlay_scenarios());
        }
        r
    }

    /// The id that selects the scenario.
    pub fn id(self) -> (r: &'static str)
        ensures
            r@ == self.spec_id(),
    {
        match self {
            OverlayScenario::RecordingSine => "recording-sine",
            OverlayScenario::RecordingConstant => "recording-constant",
            OverlayScenario::RecordingFrames => "recording-frames",
            OverlayScenario::RecordingLive => "recording-live",
            OverlayScenario::Transcribing => "transcribing",
            OverlayScenario::PendingTranscript => "pending-transcript",
            OverlayScenario::InsertSubmitted => "insert-submitted",
            OverlayScenario::InsertionUncertain => "insertion-uncertain",
            OverlayScenario::DeliveryFailed => "delivery-failed",
            OverlayScenario::NoTranscript => "no-transcript",
            OverlayScenario::NothingToPaste => "nothing-to-paste",
        }
    }

    /// The scenario with id `id`, if any.
    pub fn from_id(id: &str) -> (r: Option<OverlayScenario>)
        ensures
            r matches Some(s) ==> s.spec_id() == id@,
            r is None ==> forall|s: OverlayScenario| s.spec_id() != id@,
    {
        if str_eq(id, "recording-sine") {
            Some(OverlayScenario::RecordingSine)
        } else if str_eq(id, "recording-constant") {
            Some(OverlayScenario::RecordingConstant)
        } else if str_eq(id, "recording-frames") {
            Some(OverlayScenario::RecordingFrames)
        } else if str_eq(id, "recording-live") {
            Some(OverlayScenario::RecordingLive)
        } else if str_eq(id, "transcribing") {
            Some(OverlayScenario::Transcribing)
        } else if str_eq(id, "pending-transcript") {
            Some(OverlayScenario::PendingTranscript)
        } else if str_eq(id, "insert-submitted") {
            Some(OverlayScenario::InsertSubmitted)
        } else if str_eq(id, "insertion-uncertain") {
            Some(OverlayScenario::InsertionUncertain)
        } else if str_eq(id, "delivery-failed") {
            Some(OverlayScenario::DeliveryFailed)
        } else if str_eq(id, "no-transcript") {
            Some(OverlayScenario::NoTranscript)
        } else if str_eq(id, "nothing-to-paste") {
            Some(OverlayScenario::NothingToPaste)
        } else {
            None
        }
    }

    /// The scenario with id `id`; the sine recording for an unknown id.
    pub fn selected(id: &str) -> (r: OverlayScenario)
        ensures
            r.spec_id() == id@ || (r == OverlayScenario::RecordingSine && forall|
                s: OverlayScenario,
            | s.spec_id() != id@),
    {
        match OverlayScenario::from_id(id) {
            Some(s) => s,
            None => OverlayScenario::RecordingSine,
        }
    }

    pub open spec fn spec_overlay_state(self) -> OverlayState {
        match self {
            OverlayScenario::RecordingSine | OverlayScenario::RecordingConstant
            | OverlayScenario::RecordingFrames | OverlayScenario::RecordingLive =>
                OverlayState::Recording,
            OverlayScenario::Transcribing => OverlayState::Transcribing,
            OverlayScenario::PendingTranscript => OverlayState::PendingTranscript,
            OverlayScenario::InsertSubmitted => OverlayState::InsertSubmitted,
            OverlayScenario::InsertionUncertain => OverlayState::InsertionUncertain,
            OverlayScenario::DeliveryFailed => OverlayState::DeliveryFailed,
            OverlayScenario::NoTranscript => OverlayState::NoTranscript,
            OverlayScenario::NothingToPaste => OverlayState::NothingToPaste,
        }
    }

    /// The overlay state the scenario shows: every recording source shows recording.
    pub fn overlay_state(self) -> (r: OverlayState)
        ensures
            r == self.spec_overlay_state(),
    {
        match self {
            OverlayScenario::RecordingSine | OverlayScenario::RecordingConstant
            | OverlayScenario::RecordingFrames | OverlayScenario::RecordingLive =>
                OverlayState::Recording,
            OverlayScenario::Transcribing => OverlayState::Transcribing,
            OverlayScenario::PendingTranscript => OverlayState::PendingTranscript,
            OverlayScenario::InsertSubmitted => OverlayState::InsertSubmitted,
            OverlayScenario::InsertionUncertain => OverlayState::InsertionUncertain,
            OverlayScenario::DeliveryFailed => OverlayState::DeliveryFailed,
            OverlayScenario::NoTranscript => OverlayState::NoTranscript,
            OverlayScenario::NothingToPaste => OverlayState::NothingToPaste,
        }
    }
}

/// The ids of every overlay scenario, in order.
pub fn overlay_scenario_ids() -> (r: Vec<&'static str>)
    ensures
        r@.len() == spec_overlay_scenarios().len(),
        forall|i: int|
            0 <= i < r@.len() ==> (#[trigger] r@[i])@ == spec_overlay_scenarios()[i].spec_id(),
{
    let all = OverlayScenario::all();
    let mut out: Vec<&'static str> = Vec::new();
    let mut i: usize = 0;
    while i < all.len()
        invariant
            all@ == spec_overlay_scenarios(),
            i <= all@.len(),
            out@.len() == i,
            forall|j: int| 0 <= j < i ==> (#[trigger] out@[j])@ == all@[j].spec_id(),
        decreases all@.len() - i,
    {
        out.push(all[i].id());
        i = i + 1;
    }
    out
}

/// A selectable chip: its label, the scenario it opens, and the scenarios during which
/// it shows as active.
#[derive(Clone, Debug, PartialEq, Eq)]
pub struct ScenarioChip {
    pub label: &'static str,
    pub activates: &'static str,
    pub matches: Vec<&'static str>,
}

/// A labelled row of chips.
#[derive(Clone, Debug, PartialEq, Eq)]
pub struct ScenarioRow {
    pub label: &'static str,
    pub chips: Vec<ScenarioChip>,
}

/// A chip is active during the scenario it opens, and each scenario it names passes
/// `valid`.
pub open spec fn chip_is_consistent(chip: ScenarioChip, valid: spec_fn(Seq<char>) -> bool) -> bool {
    &&& texts(chip.matches@).contains(chip.activates@)
    &&& forall|i: int| 0 <= i < chip.matches@.len() ==> valid(#[trigger] chip.matches@[i]@)
}

/// Every chip of every row is consistent.
pub open spec fn rows_are_consistent(rows: Seq<ScenarioRow>, valid: spec_fn(Seq<char>) -> bool) -> bool {
    forall|r: int, c: int|
        0 <= r < rows.len() && 0 <= c < rows[r].chips@.len() ==> chip_is_consistent(
            #[trigger] rows[r].chips@[c],
            valid,
        )
}

fn single_chip(label: &'static str, scenario: &'static str) -> (r: ScenarioChip)
    ensures
        r.label == label,
        r.activates == scenario,
        r.matches@ == seq![scenario],
{
    let mut matches: Vec<&'static str> = Vec::new();
    matches.push(scenario);
    ScenarioChip { label, activates: scenario, matches }
}

/// One row, `"scenario"`, with a chip for each scenario that opens and matches it.
pub fn default_scenario_rows(scenarios: &[&'static str]) -> (r: Vec<ScenarioRow>)
    ensures
        r@.len() == 1,
        r@[0].label@ == "scenario"@,
        r@[0].chips@.len() == scenarios@.len(),
        forall|i: int|
            0 <= i < scenarios@.len() ==> (#[trigger] r@[0].chips@[i]).label == scenarios@[i]
                && r@[0].chips@[i].activates == scenarios@[i] && r@[0].chips@[i].matches@
                == seq![scenarios@[i]],
        rows_are_consistent(r@, |x: Seq<char>| texts(scenarios@).contains(x)),
{
    let mut chips: Vec<ScenarioChip> = Vec::new();
    let mut i: usize = 0;
    while i < scenarios.len()
        invariant
            i <= scenarios@.len(),
            chips@.len() == i,
            forall|j: int|
                0 <= j < i ==> (#[trigger] chips@[j]).label == scenarios@[j] && chips@[j].activates
                    == scenarios@[j] && chips@[j].matches@ == seq![scenarios@[j]],
        decreases scenarios@.len() - i,
    {
        chips.push(single_chip(scenarios[i], scenarios[i]));
        i = i + 1;
    }
    let mut rows: Vec<ScenarioRow> = Vec::new();
    rows.push(ScenarioRow { label: "scenario", chips });
    proof {
        let valid = |x: Seq<char>| texts(scenarios@).contains(x);
        assert forall|r: int, c: int|
            0 <= r < rows@.len() && 0 <= c < rows@[r].chips@.len() implies chip_is_consistent(
            #[trigger] rows@[r].chips@[c],
            valid,
        ) by {
            let chip = rows@[r].chips@[c];
            assert(texts(chip.matches@)[0] == chip.activates@);
            assert(texts(scenarios@)[c] == chip.activates@);
        }
    }
    rows
}

/// An id of an overlay scenario.
pub open spec fn is_overlay_id(x: Seq<char>) -> bool {
    exists|s: OverlayScenario| #[trigger] s.spec_id() == x
}

/// The labels of a row's chips.
pub open spec fn chip_labels(row: ScenarioRow) -> Seq<Seq<char>> {
    row.chips@.map_values(|c: ScenarioChip| c.label@)
}

/// The scenarios that a row's chips open.
pub open spec fn chip_targets(row: ScenarioRow) -> Seq<Seq<char>> {
    row.chips@.map_values(|c: ScenarioChip| c.activates@)
}

/// The overlay screen's chips: a phase row, whose recording chip is active for every
/// recording source, and a row of recording sources.
pub fn overlay_scenario_rows() -> (r: Vec<ScenarioRow>)
    ensures
        r@.len() == 2,
        r@[0].label@ == "phase"@,
        chip_labels(r@[0]) == seq![
            "recording"@,
            "transcribing"@,
            "pending transcript"@,
            "insert submitted"@,
            "insertion uncertain"@,
            "delivery failed"@,
            "no transcript"@,
            "nothing to paste"@,
        ],
        chip_targets(r@[0]) == seq![
            "recording-sine"@,
            "transcribing"@,
            "pending-transcript"@,
            "insert-submitted"@,
            "insertion-uncertain"@,
            "delivery-failed"@,
            "no-transcript"@,
            "nothing-to-paste"@,
        ],
        texts(r@[0].chips@[0].matches@) == seq![
            "recording-sine"@,
            "recording-constant"@,
            "recording-frames"@,
            "recording-live"@,
        ],
        r@[1].label@ == "source"@,
        chip_labels(r@[1]) == seq!["sine"@, "constant"@, "frames"@, "live mic"@],
        chip_targets(r@[1]) == seq![
            "recording-sine"@,
            "recording-constant"@,
            "recording-frames"@,
            "recording-live"@,
        ],
        forall|row: int, c: int|
            0 <= row < 2 && 0 <= c < r@[row].chips@.len() && !(row == 0 && c == 0) ==> (
            #[trigger] r@[row].chips@[c]).matches@ == seq![r@[row].chips@[c].activates],
        rows_are_consistent(r@, |x: Seq<char>| is_overlay_id(x)),
{
    let mut recording: Vec<&'static str> = Vec::new();
    recording.push("recording-sine");
    recording.push("recording-constant");
    recording.push("recording-frames");
    recording.push("recording-live");
    let mut phase: Vec<ScenarioChip> = Vec::new();
    phase.push(ScenarioChip { label: "recording", activates: "recording-sine", matches: recording });
    phase.push(single_chip("transcribing", "transcribing"));
    phase.push(single_chip("pending transcript", "pending-transcript"));
    phase.push(single_chip("insert submitted", "insert-submitted"));
    phase.push(single_chip("insertion uncertain", "insertion-uncertain"));
    phase.push(single_chip("delivery failed", "delivery-failed"));
    phase.push(single_chip("no transcript", "no-transcript"));
    phase.push(single_chip("nothing to paste", "nothing-to-paste"));
    let mut source: Vec<ScenarioChip> = Vec::new();
    source.push(single_chip("sine", "recording-sine"));
    source.push(single_chip("constant", "recording-constant"));
    source.push(single_chip("frames", "recording-frames"));
    source.push(single_chip("live mic", "recording-live"));
    let mut rows: Vec<ScenarioRow> = Vec::new();
    rows.push(ScenarioRow { label: "phase", chips: phase });
    rows.push(ScenarioRow { label: "source", chips: source });
    proof {
        assert(chip_labels(rows@[0]) =~= seq![
            "recording"@,
            "transcribing"@,
            "pending transcript"@,
            "insert submitted"@,
            "insertion uncertain"@,
            "delivery failed"@,
            "no transcript"@,
            "nothing to paste"@,
        ]);
        assert(chip_targets(rows@[0]) =~= seq![
            "recording-sine"@,
            "transcribing"@,
            "pending-transcript"@,
            "insert-submitted"@,
            "insertion-uncertain"@,
            "delivery-failed"@,
            "no-transcript"@,
            "nothing-to-paste"@,
        ]);
        assert(texts(rows@[0].chips@[0].matches@) =~= seq![
            "recording-sine"@,
            "recording-constant"@,
            "recording-frames"@,
            "recording-live"@,
        ]);
        assert(chip_labels(rows@[1]) =~= seq!["sine"@, "constant"@, "frames"@, "live mic"@]);
        assert(chip_targets(rows@[1]) =~= seq![
            "recording-sine"@,
            "recording-constant"@,
            "recording-frames"@,
            "recording-live"@,
        ]);
        let valid = |x: Seq<char>| is_overlay_id(x);
        assert(OverlayScenario::RecordingSine.spec_id() == "recording-sine"@);
        assert(OverlayScenario::RecordingConstant.spec_id() == "recording-constant"@);
        assert(OverlayScenario::RecordingFrames.spec_id() == "recording-frames"@);
        assert(OverlayScenario::RecordingLive.spec_id() == "recording-live"@);
        assert(OverlayScenario::Transcribing.spec_id() == "transcribing"@);
        assert(OverlayScenario::PendingTranscript.spec_id() == "pending-transcript"@);
        assert(OverlayScenario::InsertSubmitted.spec_id() == "insert-submitted"@);
        assert(OverlayScenario::InsertionUncertain.spec_id() == "insertion-uncertain"@);
        assert(OverlayScenario::DeliveryFailed.spec_id() == "delivery-failed"@);
        assert(OverlayScenario::NoTranscript.spec_id() == "no-transcript"@);
        assert(OverlayScenario::NothingToPaste.spec_id() == "nothing-to-paste"@);
        assert forall|r: int, c: int|
            0 <= r < rows@.len() && 0 <= c < rows@[r].chips@.len() implies chip_is_consistent(
            #[trigger] rows@[r].chips@[c],
            valid,
        ) by {
            let chip = rows@[r].chips@[c];
            assert(texts(chip.matches@)[0] == chip.activates@);
            assert forall|i: int| 0 <= i < chip.matches@.len() implies valid(
                #[trigger] chip.matches@[i]@,
            ) by {
                if r == 0 && c == 0 {
                    assert(texts(chip.matches@)[i] == chip.matches@[i]@);
                }
            }
        }
    }
    rows
}

/// The overlay screen as the registry lists it.
pub fn overlay_screen_listing() -> (r: ScreenListing)
    ensures
        r.name@ == "overlay"@,
        r.description@
            == "Preview the dictation overlay against deterministic phase and spectrum scenarios."@,
        r.scenarios@.len() == spec_overlay_scenarios().len(),
        forall|i: int|
            0 <= i < r.scenarios@.len() ==> (#[trigger] r.scenarios@[i])@
                == spec_overlay_scenarios()[i].spec_id(),
{
    ScreenListing {
        name: "overlay",
        description: "Preview the dictation overlay against deterministic phase and spectrum scenarios.",
        scenarios: overlay_scenario_ids(),
    }
}

/// A duration written with the `ms` suffix: its whole milliseconds, or an error that
/// quotes the value. `None` for a value without the suffix.
pub open spec fn spec_millisecond_duration(value: Seq<char>) -> Option<Result<nat, Seq<char>>> {
    if value.len() >= 2 && value[value.len() - 2] == 'm' && value[value.len() - 1] == 's' {
        match spec_parse_u64(value.subrange(0, value.len() - 2)) {
            Some(n) => Some(Ok(n as nat)),
            None => Some(Err("invalid millisecond duration "@ + debug_quoted_spec(value))),
        }
    } else {
        None
    }
}

/// Reads a duration written with the `ms` suffix; `None` when the value has no such
/// suffix.
pub fn parse_millisecond_duration(value: &str) -> (r: Option<Result<TimeSpan, String>>)
    ensures
        match spec_millisecond_duration(value@) {
            None => r is None,
            Some(Ok(ms)) => r matches Some(Ok(span)) && span.spec_nanos() == ms * NANOS_PER_MILLI,
            Some(Err(m)) => r matches Some(Err(e)) && e@ == m,
        },
{
    let chars = chars_of(value);
    let n = chars.len();
    if n < 2 || chars[n - 2] != 'm' || chars[n - 1] != 's' {
        return None;
    }
    let mut digits: Vec<char> = Vec::new();
    let mut i: usize = 0;
    while i < n - 2
        invariant
            n == chars@.len(),
            n >= 2,
            i <= n - 2,
            digits@ == chars@.subrange(0, i as int),
        decreases n - 2 - i,
    {
        digits.push(chars[i]);
        i = i + 1;
        proof {
            assert(digits@ =~= chars@.subrange(0, i as int));
        }
    }
    match parse_u64(digits.as_slice()) {
        Some(ms) => Some(Ok(TimeSpan::from_millis(ms))),
        None => {
            let mut message = String::from_str("invalid millisecond duration ");
            message.append(debug_quoted(value).as_str());
            Some(Err(message))
        },
    }
}

} // verus!
