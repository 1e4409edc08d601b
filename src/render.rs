//! The two lines of text that report a classification.
use vstd::prelude::*;
use vstd::string::*;
use crate::hazard::{Hazards, Precipitation, Sun, Temperature, Vampires};

verus! {

pub open spec fn vampires_glyph(v: Vampires) -> Seq<char> {
    match v {
        Vampires::No => Seq::empty(),
        Vampires::Yes => "🧛🏻"@,
    }
}

pub open spec fn precipitation_glyph(p: Precipitation) -> Seq<char> {
    match p {
        Precipitation::Clear => Seq::empty(),
        Precipitation::Dry => "🐪"@,
        Precipitation::Humid => "😰"@,
        Precipitation::Drown => "🌊"@,
    }
}

pub open spec fn temperature_glyph(t: Temperature) -> Seq<char> {
    match t {
        Temperature::Clear => Seq::empty(),
        Temperature::Freeze => "🥶"@,
        Temperature::Burn => "🥵"@,
    }
}

pub open spec fn sun_glyph(s: Sun) -> Seq<char> {
    match s {
        Sun::Clear => Seq::empty(),
        Sun::Sunburn => "🕶"@,
        Sun::Depression => "😔"@,
    }
}

/// The glyphs of the four categories, in the order vampires, precipitation,
/// temperature, sun, with nothing between them.
pub open spec fn glyphs_of(v: Vampires, p: Precipitation, t: Temperature, s: Sun) -> Seq<char> {
    vampires_glyph(v) + precipitation_glyph(p) + temperature_glyph(t) + sun_glyph(s)
}

/// The glyphs in brackets: `[ ]` when there are none, else `[ ` glyphs ` ]`.
pub open spec fn summary_of(v: Vampires, p: Precipitation, t: Temperature, s: Sun) -> Seq<char> {
    let g = glyphs_of(v, p, t, s);
    if g.len() == 0 {
        "[ ]"@
    } else {
        "[ "@ + g + " ]"@
    }
}

pub open spec fn header_of(area_name: Seq<char>, country: Seq<char>) -> Seq<char> {
    "Current Metereological Safety Hazards in "@ + area_name + ", "@ + country + ":"@
}

fn empty_glyph() -> (r: &'static str)
    ensures
        r@ == Seq::<char>::empty(),
{
    proof {
        reveal_strlit("");
    }
    ""
}

impl Vampires {
    pub fn glyph(&self) -> (r: &'static str)
        ensures
            r@ == vampires_glyph(*self),
    {
        match self {
            Vampires::No => empty_glyph(),
            Vampires::Yes => "🧛🏻",
        }
    }
}

impl Precipitation {
    pub fn glyph(&self) -> (r: &'static str)
        ensures
            r@ == precipitation_glyph(*self),
    {
        match self {
            Precipitation::Clear => empty_glyph(),
            Precipitation::Dry => "🐪",
            Precipitation::Humid => "😰",
            Precipitation::Drown => "🌊",
        }
    }
}

impl Temperature {
    pub fn glyph(&self) -> (r: &'static str)
        ensures
            r@ == temperature_glyph(*self),
    {
        match self {
            Temperature::Clear => empty_glyph(),
            Temperature::Freeze => "🥶",
            Temperature::Burn => "🥵",
        }
    }
}

impl Sun {
    pub fn glyph(&self) -> (r: &'static str)
        ensures
            r@ == sun_glyph(*self),
    {
        match self {
            Sun::Clear => empty_glyph(),
            Sun::Sunburn => "🕶",
            Sun::Depression => "😔",
        }
    }
}

impl Hazards {
    /// The bracketed glyph line.
    pub fn summary_line(&self) -> (r: String)
        ensures
            r@ == summary_of(self.vampires, self.precipitation, self.temperature, self.sun),
    {
        let mut g = String::from_str(self.vampires.glyph());
        g.append(self.precipitation.glyph());
        g.append(self.temperature.glyph());
        g.append(self.sun.glyph());
        if g.as_str().unicode_len() == 0 {
            String::from_str("[ ]")
        } else {
            let mut line = String::from_str("[ ");
            line.append(g.as_str());
            line.append(" ]");
            line
        }
    }

    /// The line that names the location.
    pub fn header_line(&self) -> (r: String)
        ensures
            r@ == header_of(self.location.area_name@, self.location.country@),
    {
        let mut line = String::from_str("Current Metereological Safety Hazards in ");
        line.append(self.location.area_name.as_str());
        line.append(", ");
        line.append(self.location.country.as_str());
        line.append(":");
        line
    }
}

/// The summary line depends on the four categories alone, so formatting the
/// same result twice gives the same text.
pub proof fn lemma_summary_determined(a: &Hazards, b: &Hazards)
    requires
        a.vampires == b.vampires,
        a.precipitation == b.precipitation,
        a.temperature == b.temperature,
        a.sun == b.sun,
    ensures
        summary_of(a.vampires, a.precipitation, a.temperature, a.sun) == summary_of(
            b.vampires,
            b.precipitation,
            b.temperature,
            b.sun,
        ),
{
}

/// With no hazard in any category the summary is the empty brackets.
pub proof fn lemma_all_clear_summary()
    ensures
        summary_of(Vampires::No, Precipitation::Clear, Temperature::Clear, Sun::Clear) == "[ ]"@,
{
    assert(glyphs_of(Vampires::No, Precipitation::Clear, Temperature::Clear, Sun::Clear) =~= Seq::<
        char,
    >::empty());
}

} // verus!
