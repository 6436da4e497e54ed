//! Lunar phase display module: which body is tracked and how its phases are
//! named. The phase angle itself is floating-point astronomy done by the
//! application runtime.

use vstd::prelude::*;
use crate::module::DisplayMode;
use crate::text::{ascii_lower, ascii_lower_seq, eq_ignore_ascii_case};

verus! {

/// A celestial body whose phase we can approximate.
#[derive(Debug, Clone, Copy, PartialEq, Eq, Structural)]
pub enum Body {
    Luna,
    Phobos,
    Deimos,
    Io,
    Europa,
    Ganymede,
    Titan,
    Triton,
}

/// The body a configuration name denotes, compared without regard to ASCII
/// case: `luna` or `moon`, `phobos`, `deimos`, `io`, `europa`, `ganymede`,
/// `titan`, `triton`.
pub open spec fn body_named(name: Seq<char>) -> Option<Body> {
    let l = ascii_lower_seq(name);
    if l == "luna"@ || l == "moon"@ {
        Some(Body::Luna)
    } else if l == "phobos"@ {
        Some(Body::Phobos)
    } else if l == "deimos"@ {
        Some(Body::Deimos)
    } else if l == "io"@ {
        Some(Body::Io)
    } else if l == "europa"@ {
        Some(Body::Europa)
    } else if l == "ganymede"@ {
        Some(Body::Ganymede)
    } else if l == "titan"@ {
        Some(Body::Titan)
    } else if l == "triton"@ {
        Some(Body::Triton)
    } else {
        None
    }
}

/// An ASCII letter, either case.
pub open spec fn is_ascii_letter(c: char) -> bool {
    ('a' <= c && c <= 'z') || ('A' <= c && c <= 'Z')
}

/// Every body's name is written in lower-case ASCII letters.
proof fn lemma_body_names_lower_ascii(l: Seq<char>)
    requires
        body_named(l) is Some,
        ascii_lower_seq(l) == l,
    ensures
        forall|i: int| 0 <= i < l.len() ==> 'a' <= #[trigger] l[i] && l[i] <= 'z',
{
    reveal_strlit("luna");
    reveal_strlit("moon");
    reveal_strlit("phobos");
    reveal_strlit("deimos");
    reveal_strlit("io");
    reveal_strlit("europa");
    reveal_strlit("ganymede");
    reveal_strlit("titan");
    reveal_strlit("triton");
}

/// Case does not matter to a body's name: a name and its lower-cased form
/// name the same body (or none), as do any two names that differ only in
/// ASCII case; and only names made of ASCII letters name a body, so no
/// other case mapping could make a name match.
pub proof fn law_body_name_ignores_case(name: Seq<char>)
    ensures
        body_named(ascii_lower_seq(name)) == body_named(name),
        forall|other: Seq<char>|
            ascii_lower_seq(other) == ascii_lower_seq(name) ==> #[trigger] body_named(other)
                == body_named(name),
        body_named(name) is Some ==> forall|i: int| 0 <= i < name.len() ==> is_ascii_letter(
            #[trigger] name[i],
        ),
{
    let l = ascii_lower_seq(name);
    assert forall|i: int| 0 <= i < l.len() implies ascii_lower(#[trigger] l[i]) == l[i] by {
        let c = name[i];
        if 'A' <= c && c <= 'Z' {
            assert(l[i] == ((c as u32) + 32) as char);
            assert('a' <= l[i] && l[i] <= 'z');
        }
    }
    assert(ascii_lower_seq(l) =~= l);
    if body_named(name) is Some {
        lemma_body_names_lower_ascii(l);
        assert forall|i: int| 0 <= i < name.len() implies is_ascii_letter(#[trigger] name[i]) by {
            assert(l[i] == ascii_lower(name[i]));
        }
    }
}

impl Body {
    /// Parse a body name, ignoring case: the name and its lower-cased form
    /// give the same body (see [`law_body_name_ignores_case`]).
    pub fn parse(s: &str) -> (r: Option<Body>)
        ensures
            r == body_named(s@),
            r == body_named(ascii_lower_seq(s@)),
    {
        proof {
            law_body_name_ignores_case(s@);
        }
        if eq_ignore_ascii_case(s, "luna") || eq_ignore_ascii_case(s, "moon") {
            Some(Body::Luna)
        } else if eq_ignore_ascii_case(s, "phobos") {
            Some(Body::Phobos)
        } else if eq_ignore_ascii_case(s, "deimos") {
            Some(Body::Deimos)
        } else if eq_ignore_ascii_case(s, "io") {
            Some(Body::Io)
        } else if eq_ignore_ascii_case(s, "europa") {
            Some(Body::Europa)
        } else if eq_ignore_ascii_case(s, "ganymede") {
            Some(Body::Ganymede)
        } else if eq_ignore_ascii_case(s, "titan") {
            Some(Body::Titan)
        } else if eq_ignore_ascii_case(s, "triton") {
            Some(Body::Triton)
        } else {
            None
        }
    }

    /// Triton orbits against its planet's rotation, so its phases run backwards.
    pub fn retrograde(self) -> (r: bool)
        ensures
            r == (self == Body::Triton),
    {
        match self {
            Body::Triton => true,
            _ => false,
        }
    }
}

/// The configured body, or Luna when the name is not recognised.
pub fn resolve_body(name: &str) -> (r: Body)
    ensures
        r == match body_named(name@) {
            Some(b) => b,
            None => Body::Luna,
        },
{
    match Body::parse(name) {
        Some(b) => b,
        None => Body::Luna,
    }
}

/// The eight named phases of a moon.
#[derive(Debug, Clone, Copy, PartialEq, Eq, Structural)]
pub enum PhaseName {
    NewMoon,
    WaxingCrescent,
    FirstQuarter,
    WaxingGibbous,
    FullMoon,
    WaningGibbous,
    LastQuarter,
    WaningCrescent,
}

impl PhaseName {
    /// Human-readable name of the phase.
    pub fn label(self) -> (r: &'static str)
        ensures
            r@ == match self {
                PhaseName::NewMoon => "New Moon"@,
                PhaseName::WaxingCrescent => "Waxing Crescent"@,
                PhaseName::FirstQuarter => "First Quarter"@,
                PhaseName::WaxingGibbous => "Waxing Gibbous"@,
                PhaseName::FullMoon => "Full Moon"@,
                PhaseName::WaningGibbous => "Waning Gibbous"@,
                PhaseName::LastQuarter => "Last Quarter"@,
                PhaseName::WaningCrescent => "Waning Crescent"@,
            },
    {
        match self {
            PhaseName::NewMoon => "New Moon",
            PhaseName::WaxingCrescent => "Waxing Crescent",
            PhaseName::FirstQuarter => "First Quarter",
            PhaseName::WaxingGibbous => "Waxing Gibbous",
            PhaseName::FullMoon => "Full Moon",
            PhaseName::WaningGibbous => "Waning Gibbous",
            PhaseName::LastQuarter => "Last Quarter",
            PhaseName::WaningCrescent => "Waning Crescent",
        }
    }

    /// Moon-phase emoji of the phase.
    pub fn emoji(self) -> (r: &'static str)
        ensures
            r@ == match self {
                PhaseName::NewMoon => "🌑"@,
                PhaseName::WaxingCrescent => "🌒"@,
                PhaseName::FirstQuarter => "🌓"@,
                PhaseName::WaxingGibbous => "🌔"@,
                PhaseName::FullMoon => "🌕"@,
                PhaseName::WaningGibbous => "🌖"@,
                PhaseName::LastQuarter => "🌗"@,
                PhaseName::WaningCrescent => "🌘"@,
            },
    {
        match self {
            PhaseName::NewMoon => "🌑",
            PhaseName::WaxingCrescent => "🌒",
            PhaseName::FirstQuarter => "🌓",
            PhaseName::WaxingGibbous => "🌔",
            PhaseName::FullMoon => "🌕",
            PhaseName::WaningGibbous => "🌖",
            PhaseName::LastQuarter => "🌗",
            PhaseName::WaningCrescent => "🌘",
        }
    }
}

/// How the moon phase icon is rendered.
#[derive(Debug, Clone, Copy, Default, PartialEq, Eq, Structural)]
pub enum LunarRenderMode {
    #[default]
    Canvas,
    Icons,
    Emoji,
    Ascii,
}

/// Configuration for the lunar phase display module.
#[derive(Debug, Default, Clone, PartialEq, Eq)]
pub struct LunarConfig {
    /// Show the phase name as text next to the icon.
    pub show_label: bool,
    /// Celestial body to track (see [`Body::parse`]).
    pub body: String,
    /// Calendar locale for phase names (BCP-47 tag, e.g. "en", "zh-TW").
    pub locale: String,
    /// Rendering mode for the moon icon.
    pub render_mode: LunarRenderMode,
    /// `icon` renders a square icon only; `verbose` adds the illumination
    /// percentage.
    pub display: DisplayMode,
}

/// Body tracked when the configuration names none.
pub fn default_body() -> (r: String)
    ensures
        r@ == "luna"@,
{
    "luna".to_owned()
}

/// Locale used when the configuration names none.
pub fn default_locale() -> (r: String)
    ensures
        r@ == "en"@,
{
    "en".to_owned()
}

} // verus!
