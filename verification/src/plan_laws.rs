use vstd::prelude::*;
use crate::fields::{GlobalDirective, SphereDirective};
use crate::number::is_number;
use crate::plan::{
    close_sphere, fails_with, is_stopped, read_line, read_lines, scalar_value, scene_plan, set_global, set_once_result, set_sphere,
    vector3_value, BuildStep, CameraValues, LightingValues, SphereValues, Vector3, GlobalFields, Located, ScanState, SceneParseError, SpecError, SphereFields, Text,
};
use crate::text::{comment_start, is_whitespace, line_split, lines_of, normalized, token_split, tokens_of};

verus! {

/// A comma turned into a space.
pub open spec fn comma_to_space(c: char) -> char {
    if c == ',' {
        ' '
    } else {
        c
    }
}

/// `text` with every comma turned into a space.
pub open spec fn commas_to_spaces(text: Text) -> Text {
    text.map_values(|c: char| comma_to_space(c))
}

proof fn lemma_comment_start_same(a: Text, b: Text)
    requires
        a.len() == b.len(),
        forall|i: int| 0 <= i < a.len() ==> (#[trigger] a[i] == '#') == (b[i] == '#'),
    ensures
        comment_start(a) == comment_start(b),
{
    let pa = exists|k: int| 0 <= k < a.len() && a[k] == '#' && (forall|j: int| 0 <= j < k ==> a[j] != '#');
    let pb = exists|k: int| 0 <= k < b.len() && b[k] == '#' && (forall|j: int| 0 <= j < k ==> b[j] != '#');
    if pa {
        let ka = choose|k: int| 0 <= k < a.len() && a[k] == '#' && (forall|j: int| 0 <= j < k ==> a[j] != '#');
        assert forall|j: int| 0 <= j < ka implies b[j] != '#' by {
            assert(a[j] != '#');
        }
        assert(b[ka] == '#');
        let kb = choose|k: int| 0 <= k < b.len() && b[k] == '#' && (forall|j: int| 0 <= j < k ==> b[j] != '#');
        if ka < kb {
            assert(b[ka] != '#');
        }
        if kb < ka {
            assert(a[kb] != '#');
        }
    } else {
        if pb {
            let kb = choose|k: int| 0 <= k < b.len() && b[k] == '#' && (forall|j: int| 0 <= j < k ==> b[j] != '#');
            assert forall|j: int| 0 <= j < kb implies a[j] != '#' by {
                assert(b[j] != '#');
            }
            assert(a[kb] == '#');
        }
    }
}

/// A line reads the same with its commas turned into spaces.
pub proof fn lemma_line_commas_are_spaces(st: ScanState, line: usize, raw: Text)
    ensures
        read_line(st, line, commas_to_spaces(raw)) == read_line(st, line, raw),
{
    let mapped = commas_to_spaces(raw);
    lemma_comment_start_same(raw, mapped);
    assert(normalized(mapped) =~= normalized(raw));
}

proof fn lemma_line_split_commas(text: Text)
    ensures
        line_split(commas_to_spaces(text)).1 == commas_to_spaces(line_split(text).1),
        line_split(commas_to_spaces(text)).0 == line_split(text).0.map_values(|l: Text| commas_to_spaces(l)),
    decreases text.len(),
{
    let mapped = commas_to_spaces(text);
    if text.len() > 0 {
        lemma_line_split_commas(text.drop_last());
        assert(mapped.drop_last() =~= commas_to_spaces(text.drop_last()));
        let (done, open) = line_split(text.drop_last());
        if text.last() == '\n' {
            let stripped = if open.len() > 0 && open.last() == '\r' { open.drop_last() } else { open };
            assert(commas_to_spaces(stripped) =~= (if commas_to_spaces(open).len() > 0 && commas_to_spaces(open).last() == '\r' {
                commas_to_spaces(open).drop_last()
            } else {
                commas_to_spaces(open)
            }));
            assert(line_split(mapped).0 =~= line_split(text).0.map_values(|l: Text| commas_to_spaces(l)));
            assert(line_split(mapped).1 =~= commas_to_spaces(line_split(text).1));
        } else {
            assert(line_split(mapped).1 =~= commas_to_spaces(line_split(text).1));
            assert(line_split(mapped).0 =~= line_split(text).0.map_values(|l: Text| commas_to_spaces(l)));
        }
    } else {
        assert(line_split(mapped).0 =~= line_split(text).0.map_values(|l: Text| commas_to_spaces(l)));
        assert(line_split(mapped).1 =~= commas_to_spaces(line_split(text).1));
    }
}

proof fn lemma_read_lines_commas(lines: Seq<Text>)
    ensures
        read_lines(lines.map_values(|l: Text| commas_to_spaces(l))) == read_lines(lines),
    decreases lines.len(),
{
    let mapped = lines.map_values(|l: Text| commas_to_spaces(l));
    if lines.len() > 0 {
        assert(mapped.drop_last() =~= lines.drop_last().map_values(|l: Text| commas_to_spaces(l)));
        lemma_read_lines_commas(lines.drop_last());
        let st = read_lines(lines.drop_last());
        lemma_line_commas_are_spaces(st, lines.len() as usize, lines.last());
    }
}

/// Commas separate values as spaces do: a scene file reads the same with
/// every comma turned into a space.
pub proof fn lemma_commas_are_spaces(text: Text)
    ensures
        scene_plan(commas_to_spaces(text)) == scene_plan(text),
{
    let mapped = commas_to_spaces(text);
    lemma_line_split_commas(text);
    let lines = lines_of(text);
    assert(lines_of(mapped) =~= lines.map_values(|l: Text| commas_to_spaces(l)));
    lemma_read_lines_commas(lines);
}

/// A comment, from `'#'` to the end of the line, changes nothing.
pub proof fn lemma_comment_is_ignored(st: ScanState, line: usize, raw: Text, comment: Text)
    requires
        forall|i: int| 0 <= i < raw.len() ==> raw[i] != '#',
    ensures
        read_line(st, line, raw + seq!['#'] + comment) == read_line(st, line, raw),
{
    let full = raw + seq!['#'] + comment;
    let k = raw.len() as int;
    assert(full[k] == '#');
    assert(forall|j: int| 0 <= j < k ==> full[j] == raw[j]);
    let kk = choose|kk: int| 0 <= kk < full.len() && full[kk] == '#' && (forall|j: int| 0 <= j < kk ==> full[j] != '#');
    if kk < k {
        assert(full[kk] == raw[kk]);
    }
    if kk > k {
        assert(full[k] != '#');
    }
    assert(comment_start(full) == k);
    assert(comment_start(raw) == k);
    assert(normalized(full) =~= normalized(raw));
}

proof fn lemma_blank_has_no_tokens(s: Text)
    requires
        forall|i: int| 0 <= i < s.len() ==> is_whitespace(#[trigger] s[i]),
    ensures
        token_split(s).0.len() == 0,
        token_split(s).1.len() == 0,
    decreases s.len(),
{
    if s.len() > 0 {
        lemma_blank_has_no_tokens(s.drop_last());
    }
}

/// A line of whitespace changes nothing.
pub proof fn lemma_blank_line_is_ignored(st: ScanState, line: usize, raw: Text)
    requires
        forall|i: int| 0 <= i < raw.len() ==> is_whitespace(#[trigger] raw[i]),
    ensures
        read_line(st, line, raw) == Ok::<ScanState, SpecError>(st),
{
    let n = normalized(raw);
    assert forall|i: int| 0 <= i < n.len() implies is_whitespace(#[trigger] n[i]) by {
        assert(raw[i] != ',' ==> n[i] == raw[i]);
    }
    lemma_blank_has_no_tokens(n);
    assert(tokens_of(n).len() == 0);
}

/// A global field is given at most once: once a line has set it, every later
/// line with the same directive is refused, and one whose values read is
/// refused as a duplicate that names the first line.
pub proof fn lemma_global_field_given_once(
    g: GlobalFields<Text>,
    d: GlobalDirective,
    values: Seq<Text>,
    line: usize,
    later_values: Seq<Text>,
    later_line: usize,
)
    requires
        set_global(g, d, values, line) is Ok,
    ensures
        set_global(g, d, values, line) matches Ok(g2) && {
            &&& set_global(g2, d, later_values, later_line) is Err
            &&& fails_with(
                set_global(g2, d, values, later_line),
                SceneParseError::DuplicateField { line: later_line, field: d.spec_field_name(), first_defined_line: line },
            )
        },
{
}

/// A sphere field is given at most once per sphere block: once a line has set
/// it, every later line with the same directive is refused, and one whose
/// values read is refused as a duplicate that names the first line.
pub proof fn lemma_sphere_field_given_once(
    s: SphereFields<Text>,
    d: SphereDirective,
    values: Seq<Text>,
    line: usize,
    later_values: Seq<Text>,
    later_line: usize,
)
    requires
        set_sphere(s, d, values, line) is Ok,
    ensures
        set_sphere(s, d, values, line) matches Ok(s2) && {
            &&& set_sphere(s2, d, later_values, later_line) is Err
            &&& fails_with(
                set_sphere(s2, d, values, later_line),
                SceneParseError::DuplicateField { line: later_line, field: d.spec_field_name(), first_defined_line: line },
            )
        },
{
}

/// Every step but the last builds a sphere, and reading has stopped exactly
/// when the last step is an error.
pub open spec fn spheres_then_maybe_failure(steps: Seq<BuildStep<Text>>) -> bool {
    forall|i: int| 0 <= i < steps.len() && (i < steps.len() - 1 || !is_stopped(steps)) ==> #[trigger] steps[i] is Sphere
}

/// The shape of a scene plan: sphere steps, then either an error, or the
/// camera followed by the lighting or an error.
pub open spec fn is_ordered_plan(steps: Seq<BuildStep<Text>>) -> bool {
    let n = steps.len() as int;
    ||| n >= 1 && steps[n - 1] is Fail && (forall|i: int| 0 <= i < n - 1 ==> #[trigger] steps[i] is Sphere)
    ||| n >= 2 && steps[n - 2] is Camera && (steps[n - 1] is Lighting || steps[n - 1] is Fail)
        && (forall|i: int| 0 <= i < n - 2 ==> #[trigger] steps[i] is Sphere)
}

proof fn lemma_close_sphere_keeps_spheres(st: ScanState)
    requires
        forall|i: int| 0 <= i < st.2.len() ==> #[trigger] st.2[i] is Sphere,
    ensures
        close_sphere(st) matches Ok(c) ==> forall|i: int| 0 <= i < c.2.len() ==> #[trigger] c.2[i] is Sphere,
{
    if let Ok(c) = close_sphere(st) {
        assert forall|i: int| 0 <= i < c.2.len() implies #[trigger] c.2[i] is Sphere by {
            if i < st.2.len() {
                assert(c.2[i] == st.2[i]);
            }
        }
    }
}

proof fn lemma_read_lines_spheres(lines: Seq<Text>)
    ensures
        spheres_then_maybe_failure(read_lines(lines).2),
    decreases lines.len(),
{
    if lines.len() > 0 {
        lemma_read_lines_spheres(lines.drop_last());
        let st = read_lines(lines.drop_last());
        if !is_stopped(st.2) {
            assert(forall|i: int| 0 <= i < st.2.len() ==> #[trigger] st.2[i] is Sphere);
            lemma_close_sphere_keeps_spheres(st);
            let next = read_lines(lines);
            match read_line(st, lines.len() as usize, lines.last()) {
                Ok(n2) => {
                    assert(forall|i: int| 0 <= i < n2.2.len() ==> #[trigger] n2.2[i] is Sphere);
                },
                Err(e) => {
                    assert forall|i: int| 0 <= i < next.2.len() - 1 implies #[trigger] next.2[i] is Sphere by {
                        assert(next.2[i] == st.2[i]);
                    }
                },
            }
        }
    }
}

/// Building a scene takes its steps in a fixed order: spheres in file
/// order, then the camera, then the lighting, stopping at the first error.
pub proof fn lemma_plan_is_ordered(text: Text)
    ensures
        is_ordered_plan(scene_plan(text).1),
{
    let lines = lines_of(text);
    lemma_read_lines_spheres(lines);
    let st = read_lines(lines);
    if !is_stopped(st.2) {
        assert(forall|i: int| 0 <= i < st.2.len() ==> #[trigger] st.2[i] is Sphere);
        lemma_close_sphere_keeps_spheres(st);
        if let Ok(c) = close_sphere(st) {
            let steps = scene_plan(text).1;
            assert forall|i: int| 0 <= i < c.2.len() implies #[trigger] steps[i] is Sphere by {
                assert(steps[i] == c.2[i]);
            }
        } else {
            let steps = scene_plan(text).1;
            assert forall|i: int| 0 <= i < st.2.len() implies #[trigger] steps[i] is Sphere by {
                assert(steps[i] == st.2[i]);
            }
        }
    }
}

/// The lines that an error names lie in `1..=last`, and a duplicate names
/// an earlier first line.
pub open spec fn error_lines_within(e: SpecError, last: int) -> bool {
    match e {
        SceneParseError::UnknownDirective { line, .. } => 1 <= line <= last,
        SceneParseError::GlobalFieldInsideSphere { line, .. } => 1 <= line <= last,
        SceneParseError::SphereDirectiveHasValues { line } => 1 <= line <= last,
        SceneParseError::SphereFieldBeforeSphere { line, .. } => 1 <= line <= last,
        SceneParseError::DuplicateField { line, first_defined_line, .. } => 1 <= first_defined_line < line <= last,
        SceneParseError::WrongValueCount { line, .. } => 1 <= line <= last,
        SceneParseError::InvalidNumber { line, .. } => 1 <= line <= last,
        SceneParseError::MissingRequiredField { line, .. } => 1 <= line <= last,
        SceneParseError::ValidationAtLine { line, .. } => 1 <= line <= last,
        SceneParseError::ValidationAcrossLines { left_line, right_line, .. } => 1 <= left_line <= last && 1 <= right_line <= last,
    }
}

pub open spec fn slot_within<T>(slot: Option<Located<T>>, last: int) -> bool {
    match slot {
        Some(v) => 1 <= v.line <= last,
        None => true,
    }
}

pub open spec fn globals_within(g: GlobalFields<Text>, last: int) -> bool {
    &&& slot_within(g.camera_look_at, last)
    &&& slot_within(g.camera_look_from, last)
    &&& slot_within(g.camera_look_up, last)
    &&& slot_within(g.field_of_view, last)
    &&& slot_within(g.direction_to_light, last)
    &&& slot_within(g.light_color, last)
    &&& slot_within(g.ambient_light, last)
    &&& slot_within(g.background_color, last)
}

pub open spec fn sphere_within(s: SphereFields<Text>, last: int) -> bool {
    &&& 1 <= s.start_line <= last
    &&& slot_within(s.center, last)
    &&& slot_within(s.radius, last)
    &&& slot_within(s.kd, last)
    &&& slot_within(s.ks, last)
    &&& slot_within(s.ka, last)
    &&& slot_within(s.od, last)
    &&& slot_within(s.os, last)
    &&& slot_within(s.kgls, last)
}

pub open spec fn state_within(st: ScanState, last: int) -> bool {
    &&& globals_within(st.0, last)
    &&& (st.1 matches Some(s) ==> sphere_within(s, last))
    &&& forall|i: int| 0 <= i < st.2.len() ==> (#[trigger] st.2[i] matches BuildStep::Fail(e) ==> error_lines_within(e, last))
}

proof fn lemma_within_grows(st: ScanState, last: int)
    requires
        state_within(st, last),
    ensures
        state_within(st, last + 1),
{
    assert forall|i: int| 0 <= i < st.2.len() implies (#[trigger] st.2[i] matches BuildStep::Fail(e) ==> error_lines_within(e, last + 1)) by {
        if let BuildStep::Fail(e) = st.2[i] {
            assert(error_lines_within(e, last));
        }
    }
}

proof fn lemma_set_slot_within<T>(slot: Option<Located<T>>, value: Result<T, SpecError>, line: usize, field: crate::fields::FieldName)
    requires
        slot_within(slot, line - 1),
        1 <= line,
        value matches Err(e) ==> error_lines_within(e, line as int),
    ensures
        match value {
            Err(e) => true,
            Ok(v) => match set_once_result(slot, v, line, field) {
                Ok(s) => slot_within(s, line as int),
                Err(e) => error_lines_within(e, line as int),
            },
        },
{
}

proof fn lemma_read_line_within(st: ScanState, line: usize, raw: Text)
    requires
        line >= 1,
        state_within(st, line - 1),
    ensures
        match read_line(st, line, raw) {
            Ok(next) => state_within(next, line as int),
            Err(e) => error_lines_within(e, line as int),
        },
{
    lemma_within_grows(st, line - 1);
    let tokens = tokens_of(normalized(raw));
    if tokens.len() > 0 {
        let directive = tokens[0];
        let values = tokens.drop_first();
        if directive == "Sphere"@ {
            if values.len() == 0 {
                lemma_close_sphere_within(st, line as int);
            }
        } else if GlobalDirective::spec_from_token(directive) is Some {
            let d = GlobalDirective::spec_from_token(directive).unwrap();
            let field = d.spec_field_name();
            lemma_set_slot_within(st.0.camera_look_at, vector3_value(field, values, line), line, field);
            lemma_set_slot_within(st.0.camera_look_from, vector3_value(field, values, line), line, field);
            lemma_set_slot_within(st.0.camera_look_up, vector3_value(field, values, line), line, field);
            lemma_set_slot_within(st.0.field_of_view, scalar_value(field, values, line), line, field);
            lemma_set_slot_within(st.0.direction_to_light, vector3_value(field, values, line), line, field);
            lemma_set_slot_within(st.0.light_color, vector3_value(field, values, line), line, field);
            lemma_set_slot_within(st.0.ambient_light, vector3_value(field, values, line), line, field);
            lemma_set_slot_within(st.0.background_color, vector3_value(field, values, line), line, field);
        } else if SphereDirective::spec_from_token(directive) is Some {
            let d = SphereDirective::spec_from_token(directive).unwrap();
            let field = d.spec_field_name();
            if let Some(s) = st.1 {
                lemma_set_slot_within(s.center, vector3_value(field, values, line), line, field);
                lemma_set_slot_within(s.radius, scalar_value(field, values, line), line, field);
                lemma_set_slot_within(s.kd, scalar_value(field, values, line), line, field);
                lemma_set_slot_within(s.ks, scalar_value(field, values, line), line, field);
                lemma_set_slot_within(s.ka, scalar_value(field, values, line), line, field);
                lemma_set_slot_within(s.od, vector3_value(field, values, line), line, field);
                lemma_set_slot_within(s.os, vector3_value(field, values, line), line, field);
                lemma_set_slot_within(s.kgls, scalar_value(field, values, line), line, field);
            }
        }
    }
}

proof fn lemma_close_sphere_within(st: ScanState, last: int)
    requires
        state_within(st, last),
    ensures
        match close_sphere(st) {
            Ok(next) => state_within(next, last),
            Err(e) => error_lines_within(e, last),
        },
{
    if let Some(s) = st.1 {
        if let Ok(next) = close_sphere(st) {
            assert forall|i: int| 0 <= i < next.2.len() implies (#[trigger] next.2[i] matches BuildStep::Fail(e) ==> error_lines_within(e, last)) by {
                if i < st.2.len() {
                    assert(next.2[i] == st.2[i]);
                }
            }
        }
    }
}

proof fn lemma_read_lines_within(lines: Seq<Text>)
    requires
        lines.len() <= usize::MAX,
    ensures
        state_within(read_lines(lines), lines.len() as int),
    decreases lines.len(),
{
    if lines.len() > 0 {
        lemma_read_lines_within(lines.drop_last());
        let st = read_lines(lines.drop_last());
        lemma_within_grows(st, lines.len() - 1);
        if !is_stopped(st.2) {
            lemma_read_line_within(st, lines.len() as usize, lines.last());
            if let Err(e) = read_line(st, lines.len() as usize, lines.last()) {
                let next = read_lines(lines);
                assert forall|i: int| 0 <= i < next.2.len() implies (#[trigger] next.2[i] matches BuildStep::Fail(e2) ==> error_lines_within(e2, lines.len() as int)) by {
                    if i < st.2.len() {
                        assert(next.2[i] == st.2[i]);
                    }
                }
            }
        }
    }
}

/// Every error of a scene file names lines of the file: between 1 and its
/// last line (line 1 for an empty file), a duplicate naming an earlier line
/// as the first definition.
pub proof fn lemma_error_lines_are_file_lines(text: Text)
    requires
        lines_of(text).len() <= usize::MAX,
    ensures
        forall|i: int| 0 <= i < scene_plan(text).1.len()
            ==> (#[trigger] scene_plan(text).1[i] matches BuildStep::Fail(e)
                ==> error_lines_within(e, if lines_of(text).len() >= 1 { lines_of(text).len() as int } else { 1 })),
{
    let lines = lines_of(text);
    let last: int = if lines.len() >= 1 { lines.len() as int } else { 1 };
    lemma_read_lines_within(lines);
    let st = read_lines(lines);
    if lines.len() == 0 {
        lemma_within_grows(st, 0);
    }
    assert(state_within(st, last));
    let steps = scene_plan(text).1;
    if is_stopped(st.2) {
    } else {
        lemma_close_sphere_within(st, last);
        assert forall|i: int| 0 <= i < steps.len() implies (#[trigger] steps[i] matches BuildStep::Fail(e) ==> error_lines_within(e, last)) by {
            match close_sphere(st) {
                Err(e) => {
                    if i < st.2.len() {
                        assert(steps[i] == st.2[i]);
                    }
                },
                Ok(closed) => {
                    if i < closed.2.len() {
                        assert(steps[i] == closed.2[i]);
                    }
                },
            }
        }
    }
}

pub open spec fn vector_is_numeric(v: Vector3<Text>) -> bool {
    is_number(v.x) && is_number(v.y) && is_number(v.z)
}

pub open spec fn scalar_slot_numeric(slot: Option<Located<Text>>) -> bool {
    slot matches Some(v) ==> is_number(v.value)
}

pub open spec fn vector_slot_numeric(slot: Option<Located<Vector3<Text>>>) -> bool {
    slot matches Some(v) ==> vector_is_numeric(v.value)
}

pub open spec fn globals_numeric(g: GlobalFields<Text>) -> bool {
    &&& vector_slot_numeric(g.camera_look_at)
    &&& vector_slot_numeric(g.camera_look_from)
    &&& vector_slot_numeric(g.camera_look_up)
    &&& scalar_slot_numeric(g.field_of_view)
    &&& vector_slot_numeric(g.direction_to_light)
    &&& vector_slot_numeric(g.light_color)
    &&& vector_slot_numeric(g.ambient_light)
    &&& vector_slot_numeric(g.background_color)
}

pub open spec fn sphere_numeric(s: SphereFields<Text>) -> bool {
    &&& vector_slot_numeric(s.center)
    &&& scalar_slot_numeric(s.radius)
    &&& scalar_slot_numeric(s.kd)
    &&& scalar_slot_numeric(s.ks)
    &&& scalar_slot_numeric(s.ka)
    &&& vector_slot_numeric(s.od)
    &&& vector_slot_numeric(s.os)
    &&& scalar_slot_numeric(s.kgls)
}

pub open spec fn sphere_values_numeric(v: SphereValues<Text>) -> bool {
    &&& vector_is_numeric(v.center.value)
    &&& is_number(v.radius.value)
    &&& is_number(v.kd.value)
    &&& is_number(v.ks.value)
    &&& is_number(v.ka.value)
    &&& vector_is_numeric(v.od.value)
    &&& vector_is_numeric(v.os.value)
    &&& is_number(v.kgls.value)
}

pub open spec fn camera_values_numeric(v: CameraValues<Text>) -> bool {
    &&& vector_is_numeric(v.look_at.value)
    &&& vector_is_numeric(v.look_from.value)
    &&& vector_is_numeric(v.look_up.value)
    &&& is_number(v.field_of_view.value)
}

pub open spec fn lighting_values_numeric(v: LightingValues<Text>) -> bool {
    &&& vector_is_numeric(v.direction_to_light.value)
    &&& vector_is_numeric(v.light_color.value)
    &&& vector_is_numeric(v.ambient_light.value)
    &&& vector_is_numeric(v.background_color.value)
}

/// The values that a step hands on are number tokens.
pub open spec fn step_numeric(step: BuildStep<Text>) -> bool {
    match step {
        BuildStep::Sphere(v) => sphere_values_numeric(v),
        BuildStep::Camera(v) => camera_values_numeric(v),
        BuildStep::Lighting(v) => lighting_values_numeric(v),
        BuildStep::Fail(_) => true,
    }
}

pub open spec fn state_numeric(st: ScanState) -> bool {
    &&& globals_numeric(st.0)
    &&& (st.1 matches Some(s) ==> sphere_numeric(s))
    &&& forall|i: int| 0 <= i < st.2.len() ==> step_numeric(#[trigger] st.2[i])
}

proof fn lemma_close_sphere_numeric(st: ScanState)
    requires
        state_numeric(st),
    ensures
        close_sphere(st) matches Ok(next) ==> state_numeric(next),
{
    if let Ok(next) = close_sphere(st) {
        assert forall|i: int| 0 <= i < next.2.len() implies step_numeric(#[trigger] next.2[i]) by {
            if i < st.2.len() {
                assert(next.2[i] == st.2[i]);
            }
        }
    }
}

proof fn lemma_read_line_numeric(st: ScanState, line: usize, raw: Text)
    requires
        state_numeric(st),
    ensures
        read_line(st, line, raw) matches Ok(next) ==> state_numeric(next),
{
    let tokens = tokens_of(normalized(raw));
    if tokens.len() > 0 && tokens[0] == "Sphere"@ {
        lemma_close_sphere_numeric(st);
    }
}

proof fn lemma_read_lines_numeric(lines: Seq<Text>)
    ensures
        state_numeric(read_lines(lines)),
    decreases lines.len(),
{
    if lines.len() > 0 {
        lemma_read_lines_numeric(lines.drop_last());
        let st = read_lines(lines.drop_last());
        if !is_stopped(st.2) {
            lemma_read_line_numeric(st, lines.len() as usize, lines.last());
            if let Err(e) = read_line(st, lines.len() as usize, lines.last()) {
                let next = read_lines(lines);
                assert forall|i: int| 0 <= i < next.2.len() implies step_numeric(#[trigger] next.2[i]) by {
                    if i < st.2.len() {
                        assert(next.2[i] == st.2[i]);
                    }
                }
            }
        }
    }
}

/// Every value that building a scene is handed is a number token: a step
/// never carries text that does not read as a number.
pub proof fn lemma_plan_values_are_numbers(text: Text)
    ensures
        forall|i: int| 0 <= i < scene_plan(text).1.len() ==> step_numeric(#[trigger] scene_plan(text).1[i]),
{
    let lines = lines_of(text);
    lemma_read_lines_numeric(lines);
    let st = read_lines(lines);
    let steps = scene_plan(text).1;
    if !is_stopped(st.2) {
        lemma_close_sphere_numeric(st);
        assert forall|i: int| 0 <= i < steps.len() implies step_numeric(#[trigger] steps[i]) by {
            match close_sphere(st) {
                Err(e) => {
                    if i < st.2.len() {
                        assert(steps[i] == st.2[i]);
                    }
                },
                Ok(closed) => {
                    if i < closed.2.len() {
                        assert(steps[i] == closed.2[i]);
                    }
                },
            }
        }
    }
}

/// Three values read in order: when a line's three value tokens read as a
/// vector, its x, y and z are the first, second and third token.
pub proof fn lemma_vector_values_in_order(field: crate::fields::FieldName, values: Seq<Text>, line: usize)
    ensures
        vector3_value(field, values, line) matches Ok(v) ==> {
            &&& values.len() == 3
            &&& v.x == values[0]
            &&& v.y == values[1]
            &&& v.z == values[2]
        },
        vector3_value(field, values, line) is Ok <==> values.len() == 3 && is_number(values[0]) && is_number(values[1])
            && is_number(values[2]),
{
}

/// A sphere's `Center` line sets its center to the line's three tokens, in
/// order, at that line: reading `Center a b c` inside a sphere block whose
/// center is not given yet, with `a`, `b`, `c` numbers, leaves the block's
/// center holding `a`, `b`, `c`.
pub proof fn lemma_center_line_sets_center_in_order(st: ScanState, line: usize, raw: Text)
    requires
        st.1 matches Some(s) && s.center is None,
        tokens_of(normalized(raw)).len() == 4,
        tokens_of(normalized(raw))[0] == "Center"@,
        is_number(tokens_of(normalized(raw))[1]),
        is_number(tokens_of(normalized(raw))[2]),
        is_number(tokens_of(normalized(raw))[3]),
    ensures
        read_line(st, line, raw) matches Ok(next) && next.1 matches Some(s2) && s2.center == Some(Located {
            value: Vector3 {
                x: tokens_of(normalized(raw))[1],
                y: tokens_of(normalized(raw))[2],
                z: tokens_of(normalized(raw))[3],
            },
            line,
        }),
{
    let tokens = tokens_of(normalized(raw));
    reveal_strlit("Center");
    reveal_strlit("Sphere");
    assert(tokens[0] != "Sphere"@) by {
        assert(tokens[0][0] == 'C');
    }
    assert(GlobalDirective::spec_from_token(tokens[0]) is None) by {
        reveal_strlit("CameraLookAt");
        reveal_strlit("CameraLookFrom");
        reveal_strlit("CameraLookUp");
        reveal_strlit("FieldOfView");
        reveal_strlit("DirectionToLight");
        reveal_strlit("LightColor");
        reveal_strlit("AmbientLight");
        reveal_strlit("BackgroundColor");
        assert(tokens[0].len() == 6);
    }
    let values = tokens.drop_first();
    assert(values[0] == tokens[1] && values[1] == tokens[2] && values[2] == tokens[3]);
}

} // verus!
