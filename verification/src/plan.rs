use vstd::prelude::*;
use crate::fields::{FieldName, GlobalDirective, SphereDirective};
use crate::number::is_number;
use crate::text::{lines_of, normalized, tokens_of};
use crate::validation::SceneValidationError;

verus! {

// ---------------------------------------------------------------------------
// The values that a scene file gives, and where it gives them

/// A value of the scene file with the (1-based) line that gave it.
#[derive(Debug)]
pub struct Located<T> {
    pub value: T,
    pub line: usize,
}

/// Three values, one per axis.
#[derive(Debug)]
pub struct Vector3<T> {
    pub x: T,
    pub y: T,
    pub z: T,
}

impl<T: View> View for Located<T> {
    type V = Located<T::V>;

    open spec fn view(&self) -> Located<T::V> {
        Located { value: self.value@, line: self.line }
    }
}

impl<T: View> View for Vector3<T> {
    type V = Vector3<T::V>;

    open spec fn view(&self) -> Vector3<T::V> {
        Vector3 { x: self.x@, y: self.y@, z: self.z@ }
    }
}

/// The view of an optional value.
pub open spec fn option_view<T: View>(o: Option<T>) -> Option<T::V> {
    match o {
        Some(v) => Some(v@),
        None => None,
    }
}

/// The line of an optional located value.
pub open spec fn line_of<T>(o: Option<Located<T>>) -> Option<usize> {
    match o {
        Some(v) => Some(v.line),
        None => None,
    }
}

/// The global fields of a scene file, as far as it has given them. The
/// values are the number tokens of the file.
#[derive(Debug)]
pub struct GlobalFields<T> {
    pub camera_look_at: Option<Located<Vector3<T>>>,
    pub camera_look_from: Option<Located<Vector3<T>>>,
    pub camera_look_up: Option<Located<Vector3<T>>>,
    pub field_of_view: Option<Located<T>>,
    pub direction_to_light: Option<Located<Vector3<T>>>,
    pub light_color: Option<Located<Vector3<T>>>,
    pub ambient_light: Option<Located<Vector3<T>>>,
    pub background_color: Option<Located<Vector3<T>>>,
}

impl<T: View> View for GlobalFields<T> {
    type V = GlobalFields<T::V>;

    open spec fn view(&self) -> GlobalFields<T::V> {
        GlobalFields {
            camera_look_at: option_view(self.camera_look_at),
            camera_look_from: option_view(self.camera_look_from),
            camera_look_up: option_view(self.camera_look_up),
            field_of_view: option_view(self.field_of_view),
            direction_to_light: option_view(self.direction_to_light),
            light_color: option_view(self.light_color),
            ambient_light: option_view(self.ambient_light),
            background_color: option_view(self.background_color),
        }
    }
}

/// The fields of the sphere block being read, as far as it has given them.
#[derive(Debug)]
pub struct SphereFields<T> {
    pub start_line: usize,
    pub center: Option<Located<Vector3<T>>>,
    pub radius: Option<Located<T>>,
    pub kd: Option<Located<T>>,
    pub ks: Option<Located<T>>,
    pub ka: Option<Located<T>>,
    pub od: Option<Located<Vector3<T>>>,
    pub os: Option<Located<Vector3<T>>>,
    pub kgls: Option<Located<T>>,
}

impl<T: View> View for SphereFields<T> {
    type V = SphereFields<T::V>;

    open spec fn view(&self) -> SphereFields<T::V> {
        SphereFields {
            start_line: self.start_line,
            center: option_view(self.center),
            radius: option_view(self.radius),
            kd: option_view(self.kd),
            ks: option_view(self.ks),
            ka: option_view(self.ka),
            od: option_view(self.od),
            os: option_view(self.os),
            kgls: option_view(self.kgls),
        }
    }
}

/// A complete sphere block.
#[derive(Debug)]
pub struct SphereValues<T> {
    pub start_line: usize,
    pub center: Located<Vector3<T>>,
    pub radius: Located<T>,
    pub kd: Located<T>,
    pub ks: Located<T>,
    pub ka: Located<T>,
    pub od: Located<Vector3<T>>,
    pub os: Located<Vector3<T>>,
    pub kgls: Located<T>,
}

impl<T: View> View for SphereValues<T> {
    type V = SphereValues<T::V>;

    open spec fn view(&self) -> SphereValues<T::V> {
        SphereValues {
            start_line: self.start_line,
            center: self.center@,
            radius: self.radius@,
            kd: self.kd@,
            ks: self.ks@,
            ka: self.ka@,
            od: self.od@,
            os: self.os@,
            kgls: self.kgls@,
        }
    }
}

/// The complete camera fields.
#[derive(Debug)]
pub struct CameraValues<T> {
    pub look_at: Located<Vector3<T>>,
    pub look_from: Located<Vector3<T>>,
    pub look_up: Located<Vector3<T>>,
    pub field_of_view: Located<T>,
}

impl<T: View> View for CameraValues<T> {
    type V = CameraValues<T::V>;

    open spec fn view(&self) -> CameraValues<T::V> {
        CameraValues {
            look_at: self.look_at@,
            look_from: self.look_from@,
            look_up: self.look_up@,
            field_of_view: self.field_of_view@,
        }
    }
}

/// The complete lighting fields.
#[derive(Debug)]
pub struct LightingValues<T> {
    pub direction_to_light: Located<Vector3<T>>,
    pub light_color: Located<Vector3<T>>,
    pub ambient_light: Located<Vector3<T>>,
    pub background_color: Located<Vector3<T>>,
}

impl<T: View> View for LightingValues<T> {
    type V = LightingValues<T::V>;

    open spec fn view(&self) -> LightingValues<T::V> {
        LightingValues {
            direction_to_light: self.direction_to_light@,
            light_color: self.light_color@,
            ambient_light: self.ambient_light@,
            background_color: self.background_color@,
        }
    }
}

/// Why a scene file was refused; `T` is the type of the quoted text.
#[derive(Debug)]
pub enum SceneParseError<T> {
    UnknownDirective { line: usize, directive: T },
    GlobalFieldInsideSphere { line: usize, field: FieldName },
    SphereDirectiveHasValues { line: usize },
    SphereFieldBeforeSphere { line: usize, field: FieldName },
    DuplicateField { line: usize, field: FieldName, first_defined_line: usize },
    WrongValueCount { line: usize, field: FieldName, expected: usize, found: usize },
    InvalidNumber { line: usize, field: FieldName, token: T },
    MissingRequiredField { line: usize, field: FieldName },
    ValidationAtLine { line: usize, source: SceneValidationError },
    ValidationAcrossLines { left_line: usize, right_line: usize, source: SceneValidationError },
}

impl<T: View> View for SceneParseError<T> {
    type V = SceneParseError<T::V>;

    open spec fn view(&self) -> SceneParseError<T::V> {
        match *self {
            SceneParseError::UnknownDirective { line, directive } => SceneParseError::UnknownDirective { line, directive: directive@ },
            SceneParseError::GlobalFieldInsideSphere { line, field } => SceneParseError::GlobalFieldInsideSphere { line, field },
            SceneParseError::SphereDirectiveHasValues { line } => SceneParseError::SphereDirectiveHasValues { line },
            SceneParseError::SphereFieldBeforeSphere { line, field } => SceneParseError::SphereFieldBeforeSphere { line, field },
            SceneParseError::DuplicateField { line, field, first_defined_line } => SceneParseError::DuplicateField { line, field, first_defined_line },
            SceneParseError::WrongValueCount { line, field, expected, found } => SceneParseError::WrongValueCount { line, field, expected, found },
            SceneParseError::InvalidNumber { line, field, token } => SceneParseError::InvalidNumber { line, field, token: token@ },
            SceneParseError::MissingRequiredField { line, field } => SceneParseError::MissingRequiredField { line, field },
            SceneParseError::ValidationAtLine { line, source } => SceneParseError::ValidationAtLine { line, source },
            SceneParseError::ValidationAcrossLines { left_line, right_line, source } => SceneParseError::ValidationAcrossLines { left_line, right_line, source },
        }
    }
}

/// One thing that reading a scene file asks for, in the order it asks: build
/// a sphere, the camera or the lighting from these values (whose numbers and
/// ranges are still to be checked), or stop with this error.
#[derive(Debug)]
pub enum BuildStep<T> {
    Sphere(SphereValues<T>),
    Camera(CameraValues<T>),
    Lighting(LightingValues<T>),
    Fail(SceneParseError<T>),
}

impl<T: View> View for BuildStep<T> {
    type V = BuildStep<T::V>;

    open spec fn view(&self) -> BuildStep<T::V> {
        match *self {
            BuildStep::Sphere(s) => BuildStep::Sphere(s@),
            BuildStep::Camera(c) => BuildStep::Camera(c@),
            BuildStep::Lighting(l) => BuildStep::Lighting(l@),
            BuildStep::Fail(e) => BuildStep::Fail(e@),
        }
    }
}

/// The view of a result.
pub open spec fn result_view<T: View, E: View>(r: Result<T, E>) -> Result<T::V, E::V> {
    match r {
        Ok(v) => Ok(v@),
        Err(e) => Err(e@),
    }
}

/// The views of a sequence of steps.
pub open spec fn steps_view(steps: Seq<BuildStep<String>>) -> Seq<BuildStep<Seq<char>>> {
    steps.map_values(|s: BuildStep<String>| s@)
}

// ---------------------------------------------------------------------------
// The meaning of a scene file

pub type Text = Seq<char>;

pub type SpecError = SceneParseError<Text>;

/// `r` is the success `v`.
pub open spec fn succeeds_with<T>(r: Result<T, SpecError>, v: T) -> bool {
    r == Ok::<T, SpecError>(v)
}

/// `r` is the failure `e`.
pub open spec fn fails_with<T>(r: Result<T, SpecError>, e: SpecError) -> bool {
    r == Err::<T, SpecError>(e)
}

/// Reading state: the global fields so far, the open sphere block if any, and
/// the steps asked for so far.
pub type ScanState = (GlobalFields<Text>, Option<SphereFields<Text>>, Seq<BuildStep<Text>>);

pub open spec fn empty_globals() -> GlobalFields<Text> {
    GlobalFields {
        camera_look_at: None,
        camera_look_from: None,
        camera_look_up: None,
        field_of_view: None,
        direction_to_light: None,
        light_color: None,
        ambient_light: None,
        background_color: None,
    }
}

pub open spec fn empty_sphere(start_line: usize) -> SphereFields<Text> {
    SphereFields {
        start_line,
        center: None,
        radius: None,
        kd: None,
        ks: None,
        ka: None,
        od: None,
        os: None,
        kgls: None,
    }
}

pub open spec fn initial_state() -> ScanState {
    (empty_globals(), None, Seq::empty())
}

/// Reading has stopped: the last step is an error.
pub open spec fn is_stopped(steps: Seq<BuildStep<Text>>) -> bool {
    steps.len() > 0 && steps.last() is Fail
}

/// One number: exactly one value token, which must be a number.
pub open spec fn scalar_value(field: FieldName, values: Seq<Text>, line: usize) -> Result<Text, SpecError> {
    if values.len() != 1 {
        Err(SceneParseError::WrongValueCount { line, field, expected: 1, found: values.len() as usize })
    } else if !is_number(values[0]) {
        Err(SceneParseError::InvalidNumber { line, field, token: values[0] })
    } else {
        Ok(values[0])
    }
}

/// Three numbers: exactly three value tokens, the first that is not a number
/// refused.
pub open spec fn vector3_value(field: FieldName, values: Seq<Text>, line: usize) -> Result<Vector3<Text>, SpecError> {
    if values.len() != 3 {
        Err(SceneParseError::WrongValueCount { line, field, expected: 3, found: values.len() as usize })
    } else if !is_number(values[0]) {
        Err(SceneParseError::InvalidNumber { line, field, token: values[0] })
    } else if !is_number(values[1]) {
        Err(SceneParseError::InvalidNumber { line, field, token: values[1] })
    } else if !is_number(values[2]) {
        Err(SceneParseError::InvalidNumber { line, field, token: values[2] })
    } else {
        Ok(Vector3 { x: values[0], y: values[1], z: values[2] })
    }
}

/// A field is given at most once.
pub open spec fn set_once_result<T>(slot: Option<Located<T>>, value: T, line: usize, field: FieldName) -> Result<Option<Located<T>>, SpecError> {
    match slot {
        Some(existing) => Err(SceneParseError::DuplicateField { line, field, first_defined_line: existing.line }),
        None => Ok(Some(Located { value, line })),
    }
}

pub open spec fn set_vector_field(slot: Option<Located<Vector3<Text>>>, field: FieldName, values: Seq<Text>, line: usize) -> Result<Option<Located<Vector3<Text>>>, SpecError> {
    match vector3_value(field, values, line) {
        Err(e) => Err(e),
        Ok(v) => set_once_result(slot, v, line, field),
    }
}

pub open spec fn set_scalar_field(slot: Option<Located<Text>>, field: FieldName, values: Seq<Text>, line: usize) -> Result<Option<Located<Text>>, SpecError> {
    match scalar_value(field, values, line) {
        Err(e) => Err(e),
        Ok(v) => set_once_result(slot, v, line, field),
    }
}

/// The global fields after a global directive line.
pub open spec fn set_global(g: GlobalFields<Text>, d: GlobalDirective, values: Seq<Text>, line: usize) -> Result<GlobalFields<Text>, SpecError> {
    let field = d.spec_field_name();
    match d {
        GlobalDirective::CameraLookAt => match set_vector_field(g.camera_look_at, field, values, line) {
            Ok(s) => Ok(GlobalFields { camera_look_at: s, ..g }),
            Err(e) => Err(e),
        },
        GlobalDirective::CameraLookFrom => match set_vector_field(g.camera_look_from, field, values, line) {
            Ok(s) => Ok(GlobalFields { camera_look_from: s, ..g }),
            Err(e) => Err(e),
        },
        GlobalDirective::CameraLookUp => match set_vector_field(g.camera_look_up, field, values, line) {
            Ok(s) => Ok(GlobalFields { camera_look_up: s, ..g }),
            Err(e) => Err(e),
        },
        GlobalDirective::FieldOfView => match set_scalar_field(g.field_of_view, field, values, line) {
            Ok(s) => Ok(GlobalFields { field_of_view: s, ..g }),
            Err(e) => Err(e),
        },
        GlobalDirective::DirectionToLight => match set_vector_field(g.direction_to_light, field, values, line) {
            Ok(s) => Ok(GlobalFields { direction_to_light: s, ..g }),
            Err(e) => Err(e),
        },
        GlobalDirective::LightColor => match set_vector_field(g.light_color, field, values, line) {
            Ok(s) => Ok(GlobalFields { light_color: s, ..g }),
            Err(e) => Err(e),
        },
        GlobalDirective::AmbientLight => match set_vector_field(g.ambient_light, field, values, line) {
            Ok(s) => Ok(GlobalFields { ambient_light: s, ..g }),
            Err(e) => Err(e),
        },
        GlobalDirective::BackgroundColor => match set_vector_field(g.background_color, field, values, line) {
            Ok(s) => Ok(GlobalFields { background_color: s, ..g }),
            Err(e) => Err(e),
        },
    }
}

/// The sphere block after a sphere directive line.
pub open spec fn set_sphere(s: SphereFields<Text>, d: SphereDirective, values: Seq<Text>, line: usize) -> Result<SphereFields<Text>, SpecError> {
    let field = d.spec_field_name();
    match d {
        SphereDirective::Center => match set_vector_field(s.center, field, values, line) {
            Ok(v) => Ok(SphereFields { center: v, ..s }),
            Err(e) => Err(e),
        },
        SphereDirective::Radius => match set_scalar_field(s.radius, field, values, line) {
            Ok(v) => Ok(SphereFields { radius: v, ..s }),
            Err(e) => Err(e),
        },
        SphereDirective::Kd => match set_scalar_field(s.kd, field, values, line) {
            Ok(v) => Ok(SphereFields { kd: v, ..s }),
            Err(e) => Err(e),
        },
        SphereDirective::Ks => match set_scalar_field(s.ks, field, values, line) {
            Ok(v) => Ok(SphereFields { ks: v, ..s }),
            Err(e) => Err(e),
        },
        SphereDirective::Ka => match set_scalar_field(s.ka, field, values, line) {
            Ok(v) => Ok(SphereFields { ka: v, ..s }),
            Err(e) => Err(e),
        },
        SphereDirective::Od => match set_vector_field(s.od, field, values, line) {
            Ok(v) => Ok(SphereFields { od: v, ..s }),
            Err(e) => Err(e),
        },
        SphereDirective::Os => match set_vector_field(s.os, field, values, line) {
            Ok(v) => Ok(SphereFields { os: v, ..s }),
            Err(e) => Err(e),
        },
        SphereDirective::Kgls => match set_scalar_field(s.kgls, field, values, line) {
            Ok(v) => Ok(SphereFields { kgls: v, ..s }),
            Err(e) => Err(e),
        },
    }
}

pub open spec fn missing(line: usize, field: FieldName) -> SpecError {
    SceneParseError::MissingRequiredField { line, field }
}

/// A sphere block is complete when it gives all eight fields; the first
/// missing one (in the order center, radius, Kd, Ks, Ka, Od, Os, Kgls) is
/// reported at the line of the `Sphere` directive.
pub open spec fn complete_sphere(s: SphereFields<Text>) -> Result<SphereValues<Text>, SpecError> {
    let at = s.start_line;
    if s.center is None {
        Err(missing(at, FieldName::Center))
    } else if s.radius is None {
        Err(missing(at, FieldName::Radius))
    } else if s.kd is None {
        Err(missing(at, FieldName::Kd))
    } else if s.ks is None {
        Err(missing(at, FieldName::Ks))
    } else if s.ka is None {
        Err(missing(at, FieldName::Ka))
    } else if s.od is None {
        Err(missing(at, FieldName::Od))
    } else if s.os is None {
        Err(missing(at, FieldName::Os))
    } else if s.kgls is None {
        Err(missing(at, FieldName::Kgls))
    } else {
        Ok(SphereValues {
            start_line: at,
            center: s.center.unwrap(),
            radius: s.radius.unwrap(),
            kd: s.kd.unwrap(),
            ks: s.ks.unwrap(),
            ka: s.ka.unwrap(),
            od: s.od.unwrap(),
            os: s.os.unwrap(),
            kgls: s.kgls.unwrap(),
        })
    }
}

/// The camera needs all four camera fields; the first missing one (in the
/// order look-at, look-from, look-up, field of view) is reported at `eof_line`.
pub open spec fn complete_camera(g: GlobalFields<Text>, eof_line: usize) -> Result<CameraValues<Text>, SpecError> {
    if g.camera_look_at is None {
        Err(missing(eof_line, FieldName::CameraLookAt))
    } else if g.camera_look_from is None {
        Err(missing(eof_line, FieldName::CameraLookFrom))
    } else if g.camera_look_up is None {
        Err(missing(eof_line, FieldName::CameraLookUp))
    } else if g.field_of_view is None {
        Err(missing(eof_line, FieldName::FieldOfView))
    } else {
        Ok(CameraValues {
            look_at: g.camera_look_at.unwrap(),
            look_from: g.camera_look_from.unwrap(),
            look_up: g.camera_look_up.unwrap(),
            field_of_view: g.field_of_view.unwrap(),
        })
    }
}

/// The lighting needs all four lighting fields; the first missing one is
/// reported at `eof_line`.
pub open spec fn complete_lighting(g: GlobalFields<Text>, eof_line: usize) -> Result<LightingValues<Text>, SpecError> {
    if g.direction_to_light is None {
        Err(missing(eof_line, FieldName::DirectionToLight))
    } else if g.light_color is None {
        Err(missing(eof_line, FieldName::LightColor))
    } else if g.ambient_light is None {
        Err(missing(eof_line, FieldName::AmbientLight))
    } else if g.background_color is None {
        Err(missing(eof_line, FieldName::BackgroundColor))
    } else {
        Ok(LightingValues {
            direction_to_light: g.direction_to_light.unwrap(),
            light_color: g.light_color.unwrap(),
            ambient_light: g.ambient_light.unwrap(),
            background_color: g.background_color.unwrap(),
        })
    }
}

/// Closes the open sphere block, if any, asking for the sphere to be built.
pub open spec fn close_sphere(st: ScanState) -> Result<ScanState, SpecError> {
    match st.1 {
        None => Ok(st),
        Some(s) => match complete_sphere(s) {
            Err(e) => Err(e),
            Ok(values) => Ok((st.0, None, st.2.push(BuildStep::Sphere(values)))),
        },
    }
}

/// The effect of line number `line` (its text `raw`) on the reading state.
pub open spec fn read_line(st: ScanState, line: usize, raw: Text) -> Result<ScanState, SpecError> {
    let tokens = tokens_of(normalized(raw));
    if tokens.len() == 0 {
        Ok(st)
    } else {
        let directive = tokens[0];
        let values = tokens.drop_first();
        if directive == "Sphere"@ {
            if values.len() > 0 {
                Err(SceneParseError::SphereDirectiveHasValues { line })
            } else {
                match close_sphere(st) {
                    Err(e) => Err(e),
                    Ok(closed) => Ok((closed.0, Some(empty_sphere(line)), closed.2)),
                }
            }
        } else if GlobalDirective::spec_from_token(directive) is Some {
            let d = GlobalDirective::spec_from_token(directive).unwrap();
            if st.1 is Some {
                Err(SceneParseError::GlobalFieldInsideSphere { line, field: d.spec_field_name() })
            } else {
                match set_global(st.0, d, values, line) {
                    Err(e) => Err(e),
                    Ok(g) => Ok((g, st.1, st.2)),
                }
            }
        } else if SphereDirective::spec_from_token(directive) is Some {
            let d = SphereDirective::spec_from_token(directive).unwrap();
            match st.1 {
                None => Err(SceneParseError::SphereFieldBeforeSphere { line, field: d.spec_field_name() }),
                Some(s) => match set_sphere(s, d, values, line) {
                    Err(e) => Err(e),
                    Ok(s2) => Ok((st.0, Some(s2), st.2)),
                },
            }
        } else {
            Err(SceneParseError::UnknownDirective { line, directive })
        }
    }
}

/// The reading state after the given lines, numbered from 1; the first
/// refused line stops the reading.
pub open spec fn read_lines(lines: Seq<Text>) -> ScanState
    decreases lines.len(),
{
    if lines.len() == 0 {
        initial_state()
    } else {
        let st = read_lines(lines.drop_last());
        if is_stopped(st.2) {
            st
        } else {
            match read_line(st, lines.len() as usize, lines.last()) {
                Ok(next) => next,
                Err(e) => (st.0, st.1, st.2.push(BuildStep::Fail(e))),
            }
        }
    }
}

/// The global fields of a scene file and the steps that building its scene
/// takes: the spheres in file order, then the camera, then the lighting;
/// the steps end at the first error.
pub open spec fn scene_plan(text: Text) -> (GlobalFields<Text>, Seq<BuildStep<Text>>) {
    let lines = lines_of(text);
    let st = read_lines(lines);
    if is_stopped(st.2) {
        (st.0, st.2)
    } else {
        let eof_line: usize = if lines.len() >= 1 { lines.len() as usize } else { 1 };
        match close_sphere(st) {
            Err(e) => (st.0, st.2.push(BuildStep::Fail(e))),
            Ok(closed) => match complete_camera(closed.0, eof_line) {
                Err(e) => (closed.0, closed.2.push(BuildStep::Fail(e))),
                Ok(camera) => match complete_lighting(closed.0, eof_line) {
                    Err(e) => (closed.0, closed.2.push(BuildStep::Camera(camera)).push(BuildStep::Fail(e))),
                    Ok(lighting) => (closed.0, closed.2.push(BuildStep::Camera(camera)).push(BuildStep::Lighting(lighting))),
                },
            },
        }
    }
}

// ---------------------------------------------------------------------------
// Lines for validation errors

impl GlobalFields<Text> {
    /// The line that gave a global field, if it was given.
    pub open spec fn spec_line_for_field(self, field: FieldName) -> Option<usize> {
        match field {
            FieldName::CameraLookAt => line_of(self.camera_look_at),
            FieldName::CameraLookFrom => line_of(self.camera_look_from),
            FieldName::CameraLookUp => line_of(self.camera_look_up),
            FieldName::FieldOfView => line_of(self.field_of_view),
            FieldName::DirectionToLight => line_of(self.direction_to_light),
            FieldName::LightColor => line_of(self.light_color),
            FieldName::AmbientLight => line_of(self.ambient_light),
            FieldName::BackgroundColor => line_of(self.background_color),
            _ => None,
        }
    }
}

impl SphereValues<Text> {
    /// The line that gave a field of the sphere block.
    pub open spec fn spec_line_for_field(self, field: FieldName) -> Option<usize> {
        match field {
            FieldName::Center => Some(self.center.line),
            FieldName::Radius => Some(self.radius.line),
            FieldName::Kd => Some(self.kd.line),
            FieldName::Ks => Some(self.ks.line),
            FieldName::Ka => Some(self.ka.line),
            FieldName::Od => Some(self.od.line),
            FieldName::Os => Some(self.os.line),
            FieldName::Kgls => Some(self.kgls.line),
            _ => None,
        }
    }
}

/// `o`'s value, or `default`.
pub open spec fn or_default(o: Option<usize>, default: usize) -> usize {
    match o {
        Some(v) => v,
        None => default,
    }
}

/// A validation error, placed at the line(s) that gave the field(s) it is
/// about (`line_for` gives them; `default_line` where none did).
pub open spec fn placed_error(source: SceneValidationError, line_for: spec_fn(FieldName) -> Option<usize>, default_line: usize) -> SpecError {
    match source {
        SceneValidationError::CoincidentPoints { left_field, right_field } => SceneParseError::ValidationAcrossLines {
            left_line: or_default(line_for(left_field), default_line),
            right_line: or_default(line_for(right_field), default_line),
            source,
        },
        _ => SceneParseError::ValidationAtLine {
            line: or_default(line_for(source.spec_field()), default_line),
            source,
        },
    }
}

} // verus!
