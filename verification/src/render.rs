//! Rendering a weather observation as an HTML fragment. Rendering is pure
//! formatting: it never fails, and the output is fully determined by the
//! observation's fields.

use vstd::prelude::*;
use crate::numfmt::{dec_seq, signed_dec_seq, fmt_i32, fmt_u32};
use crate::weather::WeatherObservation;

verus! {

/// The condition text as rendered: an empty condition is replaced by a
/// fixed placeholder.
pub open spec fn condition_text(cond: Seq<char>) -> Seq<char> {
    if cond.len() == 0 {
        "N/A"@
    } else {
        cond
    }
}

/// The exact HTML fragment for an observation: fixed markup with the
/// place, temperature, condition and humidity interpolated. The fields
/// come from a trusted upstream, so no escaping is applied.
pub open spec fn widget_html(
    place: Seq<char>,
    temperature_c: int,
    cond: Seq<char>,
    humidity_pct: nat,
) -> Seq<char> {
    "<div class=\"weather-widget\"><h2>Weather in "@ + place + "</h2><p>Temperature: "@
        + signed_dec_seq(temperature_c) + "&#176;C</p><p>Condition: "@ + condition_text(cond)
        + "</p><p>Humidity: "@ + dec_seq(humidity_pct) + "%</p></div>"@
}

/// The HTML fragment of a whole observation.
pub open spec fn rendered(obs: WeatherObservation) -> Seq<char> {
    widget_html(obs.place@, obs.temperature_c as int, obs.condition@, obs.humidity_pct as nat)
}

/// Renders the widget. Pure formatting: the result is exactly the HTML
/// fragment `rendered` gives for the observation, so repeated calls on
/// equal observations return identical strings.
pub fn render_widget(obs: &WeatherObservation) -> (html: String)
    ensures
        html@ == rendered(*obs),
{
    let mut s = String::from_str("<div class=\"weather-widget\"><h2>Weather in ");
    s.append(obs.place.as_str());
    s.append("</h2><p>Temperature: ");
    let t = fmt_i32(obs.temperature_c);
    s.append(t.as_str());
    s.append("&#176;C</p><p>Condition: ");
    if obs.condition.as_str().is_empty() {
        s.append("N/A");
    } else {
        s.append(obs.condition.as_str());
    }
    s.append("</p><p>Humidity: ");
    let h = fmt_u32(obs.humidity_pct as u32);
    s.append(h.as_str());
    s.append("%</p></div>");
    assert(s@ =~= rendered(*obs));
    s
}

/// Law: rendering is deterministic. Two observations with equal fields
/// render to the same character sequence, byte for byte.
pub proof fn lemma_render_deterministic(a: WeatherObservation, b: WeatherObservation)
    requires
        a.place@ == b.place@,
        a.temperature_c == b.temperature_c,
        a.condition@ == b.condition@,
        a.humidity_pct == b.humidity_pct,
    ensures
        rendered(a) == rendered(b),
{
}

} // verus!
