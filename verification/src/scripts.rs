//! The script payloads sent to a render surface.
//!
//! The composition-state protocol consists of opaque script strings: a
//! bundle-mode command, a one-shot prepare-composition command, and a
//! set-frame command per frame. Each builder's contract pins the exact
//! character sequence, so the commands a surface receives are a function of
//! the composition alone.

use vstd::prelude::*;

verus! {

use crate::composition::Composition;

/// The decimal digit character for `d`.
pub open spec fn spec_digit(d: int) -> char {
    if d == 0 {
        '0'
    } else if d == 1 {
        '1'
    } else if d == 2 {
        '2'
    } else if d == 3 {
        '3'
    } else if d == 4 {
        '4'
    } else if d == 5 {
        '5'
    } else if d == 6 {
        '6'
    } else if d == 7 {
        '7'
    } else if d == 8 {
        '8'
    } else {
        '9'
    }
}

/// The decimal numeral of `n`, most significant digit first, without
/// leading zeros (`0` itself is the single digit `0`).
pub open spec fn spec_decimal(n: int) -> Seq<char>
    decreases n,
{
    if n < 10 {
        seq![spec_digit(n)]
    } else {
        spec_decimal(n / 10) + seq![spec_digit(n % 10)]
    }
}

/// The one-character string for a single decimal digit.
fn digit_str(d: u32) -> (r: &'static str)
    requires
        d < 10,
    ensures
        r@ == seq![spec_digit(d as int)],
{
    proof {
        reveal_strlit("0");
        reveal_strlit("1");
        reveal_strlit("2");
        reveal_strlit("3");
        reveal_strlit("4");
        reveal_strlit("5");
        reveal_strlit("6");
        reveal_strlit("7");
        reveal_strlit("8");
        reveal_strlit("9");
    }
    let r = match d {
        0 => "0",
        1 => "1",
        2 => "2",
        3 => "3",
        4 => "4",
        5 => "5",
        6 => "6",
        7 => "7",
        8 => "8",
        _ => "9",
    };
    proof {
        assert(r@ =~= seq![spec_digit(d as int)]);
    }
    r
}

/// Renders `n` as its decimal numeral.
pub fn u32_to_decimal(n: u32) -> (r: String)
    ensures
        r@ == spec_decimal(n as int),
    decreases n,
{
    if n < 10 {
        digit_str(n).to_owned()
    } else {
        let mut s = u32_to_decimal(n / 10);
        s.append(digit_str(n % 10));
        proof {
            assert(s@ =~= spec_decimal(n as int));
        }
        s
    }
}

/// The command that switches the loaded bundle into evaluation mode, under
/// which its compositions can be queried.
pub fn evaluation_mode_script() -> (r: String)
    ensures
        r@ == "window.remotion_setBundleMode({ type: 'evaluation' });"@,
{
    "window.remotion_setBundleMode({ type: 'evaluation' });".to_owned()
}

/// The expression that looks composition `id` up in the loaded bundle and
/// yields its serialized metadata.
pub open spec fn spec_composition_query_script(id: Seq<char>) -> Seq<char> {
    "window.getStaticCompositions().then(cs => cs.find(c => c.id === '"@ + id
        + "')).then(c => JSON.stringify(c))"@
}

/// See [`spec_composition_query_script`].
pub fn composition_query_script(id: &str) -> (r: String)
    ensures
        r@ == spec_composition_query_script(id@),
{
    let mut s = "window.getStaticCompositions().then(cs => cs.find(c => c.id === '".to_owned();
    s.append(id);
    s.append("')).then(c => JSON.stringify(c))");
    s
}

/// The one-shot prepare-composition command: it carries the composition's
/// identifier, serialized props, duration, frame rate and viewport, and is
/// idempotent on the surface — the command is a pure function of the
/// composition, so re-issuing it sets the same state again.
pub open spec fn spec_prepare_composition_script(comp: Composition) -> Seq<char> {
    "window.remotion_setBundleMode({ type: 'composition', compositionName: '"@ + comp.id@
        + "', serializedResolvedPropsWithSchema: '"@
        + comp.serialized_default_props_with_custom_schema@ + "', compositionDurationInFrames: "@
        + spec_decimal(comp.duration_in_frames as int) + ", compositionFps: "@ + spec_decimal(
        comp.fps as int,
    ) + ", compositionHeight: "@ + spec_decimal(comp.height as int) + ", compositionWidth: "@
        + spec_decimal(comp.width as int) + ", });"@
}

/// See [`spec_prepare_composition_script`].
pub fn prepare_composition_script(comp: &Composition) -> (r: String)
    ensures
        r@ == spec_prepare_composition_script(*comp),
{
    let mut s = "window.remotion_setBundleMode({ type: 'composition', compositionName: '".to_owned();
    s.append(comp.id.as_str());
    s.append("', serializedResolvedPropsWithSchema: '");
    s.append(comp.serialized_default_props_with_custom_schema.as_str());
    s.append("', compositionDurationInFrames: ");
    let duration = u32_to_decimal(comp.duration_in_frames);
    s.append(duration.as_str());
    s.append(", compositionFps: ");
    let fps = u32_to_decimal(comp.fps);
    s.append(fps.as_str());
    s.append(", compositionHeight: ");
    let height = u32_to_decimal(comp.height);
    s.append(height.as_str());
    s.append(", compositionWidth: ");
    let width = u32_to_decimal(comp.width);
    s.append(width.as_str());
    s.append(", });");
    s
}

/// The per-frame command that moves composition `id` to frame `frame`.
pub open spec fn spec_set_frame_script(frame: int, id: Seq<char>) -> Seq<char> {
    "window.remotion_setFrame("@ + spec_decimal(frame) + ", '"@ + id + "');"@
}

/// See [`spec_set_frame_script`].
pub fn set_frame_script(frame: u32, id: &str) -> (r: String)
    ensures
        r@ == spec_set_frame_script(frame as int, id@),
{
    let mut s = "window.remotion_setFrame(".to_owned();
    let frame_digits = u32_to_decimal(frame);
    s.append(frame_digits.as_str());
    s.append(", '");
    s.append(id);
    s.append("');");
    s
}

} // verus!
