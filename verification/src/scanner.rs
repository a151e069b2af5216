use vstd::prelude::*;
use crate::fields::{FieldName, GlobalDirective, SphereDirective};
use crate::number::{is_number, is_number_token};
use crate::plan::{
    close_sphere, initial_state, is_stopped, read_line, read_lines, scene_plan, steps_view, ScanState,
    complete_camera, complete_lighting, complete_sphere, empty_globals, empty_sphere, line_of, option_view, placed_error,
    result_view, scalar_value, succeeds_with, fails_with, set_global, set_once_result, set_scalar_field, set_sphere, set_vector_field, vector3_value,
    BuildStep, CameraValues, GlobalFields, LightingValues, Located, SceneParseError, SphereFields, SphereValues, Text, Vector3,
};
use crate::text::{chars_of, lines_of, normalize_input_line, normalized, split_lines, split_tokens, string_from_chars, text_eq, tokens_of};
use crate::validation::SceneValidationError;

verus! {

/// The texts of a sequence of tokens.
pub open spec fn texts(tokens: Seq<Vec<char>>) -> Seq<Text> {
    tokens.map_values(|t: Vec<char>| t@)
}

/// What reading a scene file gives: its global fields, and the steps that
/// building its scene takes (see `scene_plan`).
pub struct ScenePlan {
    pub globals: GlobalFields<String>,
    pub steps: Vec<BuildStep<String>>,
}

fn text_string(chars: &Vec<char>) -> (s: String)
    ensures
        s@ == chars@,
{
    string_from_chars(chars.as_slice())
}

/// A number token, or the error for it.
fn parse_number_token(field: FieldName, token: &Vec<char>, line: usize) -> (result: Result<String, SceneParseError<String>>)
    ensures
        result_view(result) == if is_number(token@) {
            Ok(token@)
        } else {
            Err(SceneParseError::InvalidNumber { line, field, token: token@ })
        },
{
    if is_number_token(token.as_slice()) {
        Ok(text_string(token))
    } else {
        Err(SceneParseError::InvalidNumber { line, field, token: text_string(token) })
    }
}

/// The single number of a line whose first token is the directive.
fn parse_scalar(field: FieldName, tokens: &Vec<Vec<char>>, line: usize) -> (result: Result<String, SceneParseError<String>>)
    requires
        tokens@.len() >= 1,
    ensures
        result_view(result) == scalar_value(field, texts(tokens@).drop_first(), line),
{
    let ghost values = texts(tokens@).drop_first();
    if tokens.len() != 2 {
        return Err(SceneParseError::WrongValueCount { line, field, expected: 1, found: tokens.len() - 1 });
    }
    assert(values[0] == tokens@[1]@);
    parse_number_token(field, &tokens[1], line)
}

/// The three numbers of a line whose first token is the directive.
fn parse_vector3(field: FieldName, tokens: &Vec<Vec<char>>, line: usize) -> (result: Result<Vector3<String>, SceneParseError<String>>)
    requires
        tokens@.len() >= 1,
    ensures
        result_view(result) == vector3_value(field, texts(tokens@).drop_first(), line),
        result matches Ok(v) ==> tokens@.len() == 4 && v.x@ == tokens@[1]@ && v.y@ == tokens@[2]@ && v.z@ == tokens@[3]@,
{
    let ghost values = texts(tokens@).drop_first();
    if tokens.len() != 4 {
        return Err(SceneParseError::WrongValueCount { line, field, expected: 3, found: tokens.len() - 1 });
    }
    assert(values[0] == tokens@[1]@ && values[1] == tokens@[2]@ && values[2] == tokens@[3]@);
    let x = parse_number_token(field, &tokens[1], line)?;
    let y = parse_number_token(field, &tokens[2], line)?;
    let z = parse_number_token(field, &tokens[3], line)?;
    Ok(Vector3 { x, y, z })
}

/// A required field's value, or the error that it is missing, reported at `line`.
fn require_field<T>(value: Option<Located<T>>, field: FieldName, line: usize) -> (result: Result<Located<T>, SceneParseError<String>>)
    ensures
        match value {
            Some(v) => result == Ok::<Located<T>, SceneParseError<String>>(v),
            None => result matches Err(e) && e@ == SceneParseError::<Text>::MissingRequiredField { line, field },
        },
{
    match value {
        Some(v) => Ok(v),
        None => Err(SceneParseError::MissingRequiredField { line, field }),
    }
}

/// Stores a field's value unless the field was given before.
fn set_once<T: View>(slot: &mut Option<Located<T>>, value: T, line: usize, field: FieldName) -> (result: Result<(), SceneParseError<String>>)
    ensures
        match result {
            Ok(_) => succeeds_with(set_once_result(option_view(*old(slot)), value@, line, field), option_view(*final(slot))),
            Err(e) => fails_with(set_once_result(option_view(*old(slot)), value@, line, field), e@) && *final(slot) == *old(slot),
        },
{
    match slot {
        Some(existing) => Err(SceneParseError::DuplicateField { line, field, first_defined_line: existing.line }),
        None => {
            *slot = Some(Located { value, line });
            Ok(())
        }
    }
}

fn set_vector_slot(slot: &mut Option<Located<Vector3<String>>>, field: FieldName, tokens: &Vec<Vec<char>>, line: usize) -> (result: Result<(), SceneParseError<String>>)
    requires
        tokens@.len() >= 1,
    ensures
        match result {
            Ok(_) => succeeds_with(set_vector_field(option_view(*old(slot)), field, texts(tokens@).drop_first(), line), option_view(*final(slot))),
            Err(e) => fails_with(set_vector_field(option_view(*old(slot)), field, texts(tokens@).drop_first(), line), e@) && *final(slot) == *old(slot),
        },
{
    let value = parse_vector3(field, tokens, line)?;
    set_once(slot, value, line, field)
}

fn set_scalar_slot(slot: &mut Option<Located<String>>, field: FieldName, tokens: &Vec<Vec<char>>, line: usize) -> (result: Result<(), SceneParseError<String>>)
    requires
        tokens@.len() >= 1,
    ensures
        match result {
            Ok(_) => succeeds_with(set_scalar_field(option_view(*old(slot)), field, texts(tokens@).drop_first(), line), option_view(*final(slot))),
            Err(e) => fails_with(set_scalar_field(option_view(*old(slot)), field, texts(tokens@).drop_first(), line), e@) && *final(slot) == *old(slot),
        },
{
    let value = parse_scalar(field, tokens, line)?;
    set_once(slot, value, line, field)
}

fn copy_text(s: &String) -> (c: String)
    ensures
        c@ == s@,
{
    s.clone()
}

fn copy_scalar(v: &Located<String>) -> (c: Located<String>)
    ensures
        c@ == v@,
{
    Located { value: copy_text(&v.value), line: v.line }
}

fn copy_vector(v: &Located<Vector3<String>>) -> (c: Located<Vector3<String>>)
    ensures
        c@ == v@,
{
    Located {
        value: Vector3 { x: copy_text(&v.value.x), y: copy_text(&v.value.y), z: copy_text(&v.value.z) },
        line: v.line,
    }
}

impl GlobalFields<String> {
    /// No global field given yet.
    pub fn new() -> (g: Self)
        ensures
            g@ == empty_globals(),
    {
        GlobalFields {
            camera_look_at: None,
            camera_look_from: None,
            camera_look_up: None,
            field_of_view: None,
            direction_to_light: None,
            light_color: None,
            ambient_light: None,
            background_color: None,
        }
    }

    /// Reads the values of a global directive line into its field.
    pub fn set_field(&mut self, directive: GlobalDirective, tokens: &Vec<Vec<char>>, line: usize) -> (result: Result<(), SceneParseError<String>>)
        requires
            tokens@.len() >= 1,
        ensures
            match result {
                Ok(_) => succeeds_with(set_global(old(self)@, directive, texts(tokens@).drop_first(), line), final(self)@),
                Err(e) => fails_with(set_global(old(self)@, directive, texts(tokens@).drop_first(), line), e@) && final(self)@ == old(self)@,
            },
    {
        let field = directive.field_name();
        match directive {
            GlobalDirective::CameraLookAt => set_vector_slot(&mut self.camera_look_at, field, tokens, line),
            GlobalDirective::CameraLookFrom => set_vector_slot(&mut self.camera_look_from, field, tokens, line),
            GlobalDirective::CameraLookUp => set_vector_slot(&mut self.camera_look_up, field, tokens, line),
            GlobalDirective::FieldOfView => set_scalar_slot(&mut self.field_of_view, field, tokens, line),
            GlobalDirective::DirectionToLight => set_vector_slot(&mut self.direction_to_light, field, tokens, line),
            GlobalDirective::LightColor => set_vector_slot(&mut self.light_color, field, tokens, line),
            GlobalDirective::AmbientLight => set_vector_slot(&mut self.ambient_light, field, tokens, line),
            GlobalDirective::BackgroundColor => set_vector_slot(&mut self.background_color, field, tokens, line),
        }
    }

    /// The camera fields, or the first missing one, reported at `eof_line`.
    pub fn build_camera(&self, eof_line: usize) -> (result: Result<CameraValues<String>, SceneParseError<String>>)
        ensures
            result_view(result) == complete_camera(self@, eof_line),
    {
        let look_at = match &self.camera_look_at {
            Some(v) => copy_vector(v),
            None => return Err(SceneParseError::MissingRequiredField { line: eof_line, field: FieldName::CameraLookAt }),
        };
        let look_from = match &self.camera_look_from {
            Some(v) => copy_vector(v),
            None => return Err(SceneParseError::MissingRequiredField { line: eof_line, field: FieldName::CameraLookFrom }),
        };
        let look_up = match &self.camera_look_up {
            Some(v) => copy_vector(v),
            None => return Err(SceneParseError::MissingRequiredField { line: eof_line, field: FieldName::CameraLookUp }),
        };
        let field_of_view = match &self.field_of_view {
            Some(v) => copy_scalar(v),
            None => return Err(SceneParseError::MissingRequiredField { line: eof_line, field: FieldName::FieldOfView }),
        };
        Ok(CameraValues { look_at, look_from, look_up, field_of_view })
    }

    /// The lighting fields, or the first missing one, reported at `eof_line`.
    pub fn build_lighting(&self, eof_line: usize) -> (result: Result<LightingValues<String>, SceneParseError<String>>)
        ensures
            result_view(result) == complete_lighting(self@, eof_line),
    {
        let direction_to_light = match &self.direction_to_light {
            Some(v) => copy_vector(v),
            None => return Err(SceneParseError::MissingRequiredField { line: eof_line, field: FieldName::DirectionToLight }),
        };
        let light_color = match &self.light_color {
            Some(v) => copy_vector(v),
            None => return Err(SceneParseError::MissingRequiredField { line: eof_line, field: FieldName::LightColor }),
        };
        let ambient_light = match &self.ambient_light {
            Some(v) => copy_vector(v),
            None => return Err(SceneParseError::MissingRequiredField { line: eof_line, field: FieldName::AmbientLight }),
        };
        let background_color = match &self.background_color {
            Some(v) => copy_vector(v),
            None => return Err(SceneParseError::MissingRequiredField { line: eof_line, field: FieldName::BackgroundColor }),
        };
        Ok(LightingValues { direction_to_light, light_color, ambient_light, background_color })
    }

    /// The line that gave a global field, if it was given.
    pub fn line_for_field(&self, field: FieldName) -> (line: Option<usize>)
        ensures
            line == self@.spec_line_for_field(field),
    {
        let slot_line = |o: &Option<Located<Vector3<String>>>| -> (l: Option<usize>)
            ensures
                l == line_of(*o),
            {
                match o {
                    Some(v) => Some(v.line),
                    None => None,
                }
            };
        match field {
            FieldName::CameraLookAt => slot_line(&self.camera_look_at),
            FieldName::CameraLookFrom => slot_line(&self.camera_look_from),
            FieldName::CameraLookUp => slot_line(&self.camera_look_up),
            FieldName::FieldOfView => match &self.field_of_view {
                Some(v) => Some(v.line),
                None => None,
            },
            FieldName::DirectionToLight => slot_line(&self.direction_to_light),
            FieldName::LightColor => slot_line(&self.light_color),
            FieldName::AmbientLight => slot_line(&self.ambient_light),
            FieldName::BackgroundColor => slot_line(&self.background_color),
            _ => None,
        }
    }

    /// A validation error of the camera or the lighting, placed at the line(s)
    /// that gave the field(s) it is about (line 1 for a field not given).
    pub fn map_validation_error(&self, source: SceneValidationError) -> (error: SceneParseError<String>)
        ensures
            error@ == placed_error(source, |f: FieldName| self@.spec_line_for_field(f), 1),
    {
        match source {
            SceneValidationError::CoincidentPoints { left_field, right_field } => SceneParseError::ValidationAcrossLines {
                left_line: self.line_for_field(left_field).unwrap_or(1),
                right_line: self.line_for_field(right_field).unwrap_or(1),
                source,
            },
            SceneValidationError::NonFiniteScalar { field, .. } => SceneParseError::ValidationAtLine {
                line: self.line_for_field(field).unwrap_or(1),
                source,
            },
            SceneValidationError::ScalarOutOfRange { field, .. } => SceneParseError::ValidationAtLine {
                line: self.line_for_field(field).unwrap_or(1),
                source,
            },
            SceneValidationError::NonPositiveScalar { field, .. } => SceneParseError::ValidationAtLine {
                line: self.line_for_field(field).unwrap_or(1),
                source,
            },
            SceneValidationError::NonFiniteVector { field, .. } => SceneParseError::ValidationAtLine {
                line: self.line_for_field(field).unwrap_or(1),
                source,
            },
            SceneValidationError::ZeroLengthVector { field } => SceneParseError::ValidationAtLine {
                line: self.line_for_field(field).unwrap_or(1),
                source,
            },
        }
    }
}

impl SphereFields<String> {
    /// A sphere block opened at `start_line`, with no field given yet.
    pub fn new(start_line: usize) -> (s: Self)
        ensures
            s@ == empty_sphere(start_line),
    {
        SphereFields {
            start_line,
            center: None,
            radius: None,
            kd: None,
            ks: None,
            ka: None,
            od: None,
            os: None,
            kgls: None,
        }
    }

    /// Reads the values of a sphere directive line into its field.
    pub fn set_field(&mut self, directive: SphereDirective, tokens: &Vec<Vec<char>>, line: usize) -> (result: Result<(), SceneParseError<String>>)
        requires
            tokens@.len() >= 1,
        ensures
            match result {
                Ok(_) => succeeds_with(set_sphere(old(self)@, directive, texts(tokens@).drop_first(), line), final(self)@),
                Err(e) => fails_with(set_sphere(old(self)@, directive, texts(tokens@).drop_first(), line), e@) && final(self)@ == old(self)@,
            },
    {
        let field = directive.field_name();
        match directive {
            SphereDirective::Center => set_vector_slot(&mut self.center, field, tokens, line),
            SphereDirective::Radius => set_scalar_slot(&mut self.radius, field, tokens, line),
            SphereDirective::Kd => set_scalar_slot(&mut self.kd, field, tokens, line),
            SphereDirective::Ks => set_scalar_slot(&mut self.ks, field, tokens, line),
            SphereDirective::Ka => set_scalar_slot(&mut self.ka, field, tokens, line),
            SphereDirective::Od => set_vector_slot(&mut self.od, field, tokens, line),
            SphereDirective::Os => set_vector_slot(&mut self.os, field, tokens, line),
            SphereDirective::Kgls => set_scalar_slot(&mut self.kgls, field, tokens, line),
        }
    }

    /// The complete block, or the first missing field, reported at the line
    /// of its `Sphere` directive.
    pub fn build_sphere(self) -> (result: Result<SphereValues<String>, SceneParseError<String>>)
        ensures
            result_view(result) == complete_sphere(self@),
    {
        let SphereFields { start_line, center, radius, kd, ks, ka, od, os, kgls } = self;
        let center = require_field(center, FieldName::Center, start_line)?;
        let radius = require_field(radius, FieldName::Radius, start_line)?;
        let kd = require_field(kd, FieldName::Kd, start_line)?;
        let ks = require_field(ks, FieldName::Ks, start_line)?;
        let ka = require_field(ka, FieldName::Ka, start_line)?;
        let od = require_field(od, FieldName::Od, start_line)?;
        let os = require_field(os, FieldName::Os, start_line)?;
        let kgls = require_field(kgls, FieldName::Kgls, start_line)?;
        Ok(SphereValues { start_line, center, radius, kd, ks, ka, od, os, kgls })
    }
}

impl SphereValues<String> {
    /// The line that gave a field of the sphere block.
    pub fn line_for_field(&self, field: FieldName) -> (line: Option<usize>)
        ensures
            line == self@.spec_line_for_field(field),
    {
        match field {
            FieldName::Center => Some(self.center.line),
            FieldName::Radius => Some(self.radius.line),
            FieldName::Kd => Some(self.kd.line),
            FieldName::Ks => Some(self.ks.line),
            FieldName::Ka => Some(self.ka.line),
            FieldName::Od => Some(self.od.line),
            FieldName::Os => Some(self.os.line),
            FieldName::Kgls => Some(self.kgls.line),
            _ => None,
        }
    }

    /// A validation error of the sphere or its material, placed at the
    /// line(s) that gave the field(s) it is about (the `Sphere` line for any
    /// other field).
    pub fn map_validation_error(&self, source: SceneValidationError) -> (error: SceneParseError<String>)
        ensures
            error@ == placed_error(source, |f: FieldName| self@.spec_line_for_field(f), self.start_line),
    {
        let start = self.start_line;
        match source {
            SceneValidationError::CoincidentPoints { left_field, right_field } => SceneParseError::ValidationAcrossLines {
                left_line: self.line_for_field(left_field).unwrap_or(start),
                right_line: self.line_for_field(right_field).unwrap_or(start),
                source,
            },
            SceneValidationError::NonFiniteScalar { field, .. } => SceneParseError::ValidationAtLine {
                line: self.line_for_field(field).unwrap_or(start),
                source,
            },
            SceneValidationError::ScalarOutOfRange { field, .. } => SceneParseError::ValidationAtLine {
                line: self.line_for_field(field).unwrap_or(start),
                source,
            },
            SceneValidationError::NonPositiveScalar { field, .. } => SceneParseError::ValidationAtLine {
                line: self.line_for_field(field).unwrap_or(start),
                source,
            },
            SceneValidationError::NonFiniteVector { field, .. } => SceneParseError::ValidationAtLine {
                line: self.line_for_field(field).unwrap_or(start),
                source,
            },
            SceneValidationError::ZeroLengthVector { field } => SceneParseError::ValidationAtLine {
                line: self.line_for_field(field).unwrap_or(start),
                source,
            },
        }
    }
}

/// The state of reading a scene file line by line.
struct SceneTextParser {
    globals: GlobalFields<String>,
    current_sphere: Option<SphereFields<String>>,
    steps: Vec<BuildStep<String>>,
}

impl SceneTextParser {
    spec fn state(&self) -> ScanState {
        (self.globals@, option_view(self.current_sphere), steps_view(self.steps@))
    }

    fn new() -> (parser: Self)
        ensures
            parser.state() == initial_state(),
    {
        let parser = SceneTextParser { globals: GlobalFields::new(), current_sphere: None, steps: Vec::new() };
        assert(steps_view(parser.steps@) =~= Seq::empty());
        parser
    }

    /// Closes the open sphere block, if any.
    fn finish_current_sphere_if_any(&mut self) -> (result: Result<(), SceneParseError<String>>)
        ensures
            match result {
                Ok(_) => succeeds_with(close_sphere(old(self).state()), final(self).state()),
                Err(e) => fails_with(close_sphere(old(self).state()), e@)
                    && final(self).globals@ == old(self).globals@
                    && steps_view(final(self).steps@) == steps_view(old(self).steps@),
            },
    {
        if let Some(current) = self.current_sphere.take() {
            let sphere = current.build_sphere()?;
            let ghost before = self.steps@;
            self.steps.push(BuildStep::Sphere(sphere));
            assert(steps_view(self.steps@) =~= steps_view(before).push(BuildStep::Sphere(sphere)@));
        }
        Ok(())
    }

    /// Reads line number `line`, whose text is `raw`.
    fn parse_line(&mut self, line: usize, raw: &Vec<char>) -> (result: Result<(), SceneParseError<String>>)
        ensures
            match result {
                Ok(_) => succeeds_with(read_line(old(self).state(), line, raw@), final(self).state()),
                Err(e) => fails_with(read_line(old(self).state(), line, raw@), e@)
                    && final(self).globals@ == old(self).globals@
                    && steps_view(final(self).steps@) == steps_view(old(self).steps@),
            },
    {
        let normalized_line = normalize_input_line(raw.as_slice());
        let tokens = split_tokens(normalized_line.as_slice());
        let ghost spec_tokens = tokens_of(normalized(raw@));
        assert(texts(tokens@) =~= spec_tokens);
        if tokens.len() == 0 {
            return Ok(());
        }
        assert(tokens@[0]@ == spec_tokens[0]);
        let directive_token = &tokens[0];
        if text_eq(directive_token.as_slice(), "Sphere") {
            if tokens.len() > 1 {
                return Err(SceneParseError::SphereDirectiveHasValues { line });
            }
            self.finish_current_sphere_if_any()?;
            self.current_sphere = Some(SphereFields::new(line));
            return Ok(());
        }
        if let Some(directive) = GlobalDirective::from_token(directive_token.as_slice()) {
            if self.current_sphere.is_some() {
                return Err(SceneParseError::GlobalFieldInsideSphere { line, field: directive.field_name() });
            }
            return self.globals.set_field(directive, &tokens, line);
        }
        if let Some(directive) = SphereDirective::from_token(directive_token.as_slice()) {
            match &mut self.current_sphere {
                None => {
                    return Err(SceneParseError::SphereFieldBeforeSphere { line, field: directive.field_name() });
                },
                Some(current) => {
                    return current.set_field(directive, &tokens, line);
                },
            }
        }
        Err(SceneParseError::UnknownDirective { line, directive: text_string(directive_token) })
    }
}

/// Once reading has stopped, later lines change nothing.
proof fn lemma_stopped_reading_stays(lines: Seq<Text>, k: int)
    requires
        0 <= k <= lines.len(),
        is_stopped(read_lines(lines.take(k)).2),
    ensures
        read_lines(lines) == read_lines(lines.take(k)),
    decreases lines.len(),
{
    if lines.len() > k {
        assert(lines.drop_last().take(k) =~= lines.take(k));
        lemma_stopped_reading_stays(lines.drop_last(), k);
    } else {
        assert(lines.take(k) =~= lines);
    }
}

/// Reads a scene file: its global fields, and the steps that building its
/// scene takes, the spheres in file order, then the camera, then the
/// lighting, ending at the first error.
pub fn scan_scene_text(contents: &str) -> (plan: ScenePlan)
    ensures
        (plan.globals@, steps_view(plan.steps@)) == scene_plan(contents@),
{
    let chars = chars_of(contents);
    let lines = split_lines(chars.as_slice());
    let ghost spec_lines = lines_of(contents@);
    assert(texts(lines@) =~= spec_lines);
    let mut parser = SceneTextParser::new();
    let mut i: usize = 0;
    while i < lines.len()
        invariant
            i <= lines@.len(),
            texts(lines@) == spec_lines,
            spec_lines == lines_of(contents@),
            parser.state() == read_lines(spec_lines.take(i as int)),
            !is_stopped(parser.state().2),
        decreases lines@.len() - i,
    {
        assert(spec_lines.take(i + 1).drop_last() =~= spec_lines.take(i as int));
        assert(spec_lines.take(i + 1).last() == lines@[i as int]@);
        let ghost old_state = parser.state();
        let result = parser.parse_line(i + 1, &lines[i]);
        match result {
            Ok(_) => {
                proof {
                    if is_stopped(parser.state().2) {
                        // A line that reads without error never adds a failure.
                        lemma_read_line_success_not_stopped(read_lines(spec_lines.take(i as int)), (i + 1) as usize, lines@[i as int]@);
                    }
                }
            },
            Err(e) => {
                let ghost before = parser.steps@;
                parser.steps.push(BuildStep::Fail(e));
                proof {
                    assert(steps_view(parser.steps@) =~= steps_view(before).push(BuildStep::Fail(e)@));
                    let taken = spec_lines.take(i + 1);
                    assert(taken.len() == i + 1);
                    assert(read_lines(taken) == (old_state.0, old_state.1, old_state.2.push(BuildStep::Fail(e@))));
                    lemma_stopped_reading_stays(spec_lines, i + 1);
                }
                return ScenePlan { globals: parser.globals, steps: parser.steps };
            },
        }
        i = i + 1;
    }
    assert(spec_lines.take(i as int) =~= spec_lines);
    let eof_line: usize = if lines.len() >= 1 { lines.len() } else { 1 };
    let ghost at_end = parser.state();
    match parser.finish_current_sphere_if_any() {
        Ok(_) => {},
        Err(e) => {
            let ghost before = parser.steps@;
            parser.steps.push(BuildStep::Fail(e));
            assert(steps_view(parser.steps@) =~= steps_view(before).push(BuildStep::Fail(e)@));
            return ScenePlan { globals: parser.globals, steps: parser.steps };
        },
    }
    let mut steps = parser.steps;
    let globals = parser.globals;
    let ghost closed_steps = steps_view(steps@);
    match globals.build_camera(eof_line) {
        Err(e) => {
            steps.push(BuildStep::Fail(e));
            assert(steps_view(steps@) =~= closed_steps.push(BuildStep::Fail(e)@));
            ScenePlan { globals, steps }
        },
        Ok(camera) => {
            steps.push(BuildStep::Camera(camera));
            let ghost with_camera = steps_view(steps@);
            assert(with_camera =~= closed_steps.push(BuildStep::Camera(camera)@));
            match globals.build_lighting(eof_line) {
                Err(e) => {
                    steps.push(BuildStep::Fail(e));
                    assert(steps_view(steps@) =~= with_camera.push(BuildStep::Fail(e)@));
                    ScenePlan { globals, steps }
                },
                Ok(lighting) => {
                    steps.push(BuildStep::Lighting(lighting));
                    assert(steps_view(steps@) =~= with_camera.push(BuildStep::Lighting(lighting)@));
                    ScenePlan { globals, steps }
                },
            }
        },
    }
}

/// A line read without error adds no failure.
proof fn lemma_read_line_success_not_stopped(st: ScanState, line: usize, raw: Text)
    requires
        !is_stopped(st.2),
        read_line(st, line, raw) is Ok,
    ensures
        read_line(st, line, raw) matches Ok(next) && !is_stopped(next.2),
{
}

} // verus!
