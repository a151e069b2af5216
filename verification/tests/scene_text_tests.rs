use raytracer::{scan_scene_text, BuildStep, FieldName, SceneParseError, SceneValidationError, ScenePlan};

fn last_error(plan: &ScenePlan) -> &SceneParseError<String> {
    match plan.steps.last() {
        Some(BuildStep::Fail(error)) => error,
        other => panic!("expected the plan to end in an error, got {other:?}"),
    }
}

const GLOBALS: &str = "CameraLookAt 0 0 0\nCameraLookFrom 0 0 1\nCameraLookUp 0 1 0\nFieldOfView 90\n\
DirectionToLight 0 1 0\nLightColor 1 1 1\nAmbientLight 0 0 0\nBackgroundColor 0.2 0.2 0.2\n";

const SPHERE: &str = "Sphere\nCenter 0 0 0\nRadius 0.4\nKd 0.7\nKs 0.2\nKa 0.1\nOd 1 1 1\nOs 1 1 1\nKgls 16\n";

#[test]
fn unknown_directive_reports_line_number() {
    let source = "CameraLookAt 0 0 0\nNotARealDirective 1 2 3\n";
    let plan = scan_scene_text(source);
    assert!(matches!(last_error(&plan), SceneParseError::UnknownDirective { line: 2, .. }));
    assert_eq!(plan.steps.len(), 1);
}

#[test]
fn duplicate_field_reports_both_lines() {
    let source = "CameraLookAt 0 0 0\nCameraLookAt 1 2 3\n";
    let plan = scan_scene_text(source);
    assert!(matches!(last_error(&plan), SceneParseError::DuplicateField { line: 2, first_defined_line: 1, .. }));
}

#[test]
fn sphere_field_before_sphere_reports_line() {
    let source = "Center 0 0 0\n";
    let plan = scan_scene_text(source);
    assert!(matches!(last_error(&plan), SceneParseError::SphereFieldBeforeSphere { line: 1, .. }));
}

#[test]
fn global_field_inside_sphere_reports_line() {
    let source = "Sphere\nCenter 0 0 0\nCameraLookAt 0 0 0\n";
    let plan = scan_scene_text(source);
    assert!(matches!(last_error(&plan), SceneParseError::GlobalFieldInsideSphere { line: 3, .. }));
}

#[test]
fn complete_scene_plans_spheres_camera_lighting() {
    let source = format!("{GLOBALS}{SPHERE}{SPHERE}");
    let plan = scan_scene_text(&source);
    assert_eq!(plan.steps.len(), 4);
    match &plan.steps[0] {
        BuildStep::Sphere(sphere) => {
            assert_eq!(sphere.start_line, 9);
            assert_eq!(sphere.radius.value, "0.4");
            assert_eq!(sphere.radius.line, 11);
            assert_eq!(sphere.od.value.x, "1");
        },
        other => panic!("expected a sphere, got {other:?}"),
    }
    assert!(matches!(&plan.steps[1], BuildStep::Sphere(s) if s.start_line == 18));
    match &plan.steps[2] {
        BuildStep::Camera(camera) => {
            assert_eq!(camera.field_of_view.value, "90");
            assert_eq!(camera.field_of_view.line, 4);
            assert_eq!(camera.look_from.value.z, "1");
        },
        other => panic!("expected the camera, got {other:?}"),
    }
    match &plan.steps[3] {
        BuildStep::Lighting(lighting) => {
            assert_eq!(lighting.background_color.value.x, "0.2");
            assert_eq!(lighting.background_color.line, 8);
        },
        other => panic!("expected the lighting, got {other:?}"),
    }
}

#[test]
fn commas_and_comments() {
    let source = "# a scene\nCameraLookAt 0, 0, 0 # origin\nCameraLookFrom 0,0,1\nCameraLookUp 0 1 0\nFieldOfView 90\n\
DirectionToLight 0 1 0\nLightColor 1,1,1\nAmbientLight 0 0 0\nBackgroundColor 0.2, 0.2, 0.2\n\n  \n";
    let plan = scan_scene_text(source);
    assert_eq!(plan.steps.len(), 2);
    match &plan.steps[0] {
        BuildStep::Camera(camera) => {
            assert_eq!(camera.look_at.line, 2);
            assert_eq!(camera.look_from.value.z, "1");
        },
        other => panic!("expected the camera, got {other:?}"),
    }
    assert!(matches!(&plan.steps[1], BuildStep::Lighting(_)));
}

#[test]
fn missing_global_reported_at_last_line() {
    let source = "CameraLookAt 0 0 0\nCameraLookFrom 0 0 1\nCameraLookUp 0 1 0\n\n";
    let plan = scan_scene_text(source);
    assert_eq!(plan.steps.len(), 1);
    assert!(matches!(
        last_error(&plan),
        SceneParseError::MissingRequiredField { line: 4, field: FieldName::FieldOfView }
    ));
}

#[test]
fn missing_lighting_comes_after_the_camera() {
    let source = "CameraLookAt 0 0 0\nCameraLookFrom 0 0 1\nCameraLookUp 0 1 0\nFieldOfView 90\nLightColor 1 1 1\n";
    let plan = scan_scene_text(source);
    assert_eq!(plan.steps.len(), 2);
    assert!(matches!(&plan.steps[0], BuildStep::Camera(_)));
    assert!(matches!(
        last_error(&plan),
        SceneParseError::MissingRequiredField { line: 5, field: FieldName::DirectionToLight }
    ));
}

#[test]
fn empty_text_reports_line_one() {
    let plan = scan_scene_text("");
    assert!(matches!(
        last_error(&plan),
        SceneParseError::MissingRequiredField { line: 1, field: FieldName::CameraLookAt }
    ));
}

#[test]
fn incomplete_sphere_is_reported_at_its_first_line() {
    let source = format!("{GLOBALS}Sphere\nCenter 0 0 0\nSphere\n");
    let plan = scan_scene_text(&source);
    assert_eq!(plan.steps.len(), 1);
    assert!(matches!(
        last_error(&plan),
        SceneParseError::MissingRequiredField { line: 9, field: FieldName::Radius }
    ));
}

#[test]
fn completed_spheres_come_before_a_later_error() {
    let source = format!("{GLOBALS}{SPHERE}Bogus\n");
    let plan = scan_scene_text(&source);
    assert_eq!(plan.steps.len(), 1);
    assert!(matches!(last_error(&plan), SceneParseError::UnknownDirective { line: 18, .. }));
    let source = format!("{GLOBALS}{SPHERE}Sphere\nBogus\n");
    let plan = scan_scene_text(&source);
    assert_eq!(plan.steps.len(), 2);
    assert!(matches!(&plan.steps[0], BuildStep::Sphere(_)));
    match last_error(&plan) {
        SceneParseError::UnknownDirective { line, directive } => {
            assert_eq!(*line, 19);
            assert_eq!(directive, "Bogus");
        },
        other => panic!("unexpected error {other:?}"),
    }
}

#[test]
fn value_counts_and_numbers() {
    let plan = scan_scene_text("FieldOfView 90 91\n");
    assert!(matches!(
        last_error(&plan),
        SceneParseError::WrongValueCount { line: 1, field: FieldName::FieldOfView, expected: 1, found: 2 }
    ));
    let plan = scan_scene_text("LightColor 1 1\n");
    assert!(matches!(
        last_error(&plan),
        SceneParseError::WrongValueCount { line: 1, field: FieldName::LightColor, expected: 3, found: 2 }
    ));
    let plan = scan_scene_text("LightColor 1 x y\n");
    match last_error(&plan) {
        SceneParseError::InvalidNumber { line, field, token } => {
            assert_eq!(*line, 1);
            assert_eq!(*field, FieldName::LightColor);
            assert_eq!(token, "x");
        },
        other => panic!("unexpected error {other:?}"),
    }
    let plan = scan_scene_text("Sphere 1\n");
    assert!(matches!(last_error(&plan), SceneParseError::SphereDirectiveHasValues { line: 1 }));
}

#[test]
fn validation_errors_are_placed_at_their_lines() {
    let source = format!("{GLOBALS}{SPHERE}");
    let plan = scan_scene_text(&source);
    let radius_error = SceneValidationError::NonPositiveScalar { field: FieldName::Radius, value: 0 };
    match &plan.steps[0] {
        BuildStep::Sphere(sphere) => {
            assert!(matches!(
                sphere.map_validation_error(radius_error),
                SceneParseError::ValidationAtLine { line: 11, .. }
            ));
            let other = SceneValidationError::ZeroLengthVector { field: FieldName::Triangle };
            assert!(matches!(sphere.map_validation_error(other), SceneParseError::ValidationAtLine { line: 9, .. }));
        },
        other => panic!("expected a sphere, got {other:?}"),
    }
    let coincident = SceneValidationError::CoincidentPoints { left_field: FieldName::CameraLookFrom, right_field: FieldName::CameraLookAt };
    assert!(matches!(
        plan.globals.map_validation_error(coincident),
        SceneParseError::ValidationAcrossLines { left_line: 2, right_line: 1, .. }
    ));
    let not_given = SceneValidationError::ZeroLengthVector { field: FieldName::V0 };
    assert!(matches!(plan.globals.map_validation_error(not_given), SceneParseError::ValidationAtLine { line: 1, .. }));
}

#[test]
fn field_names_spell_their_directives() {
    assert_eq!(FieldName::CameraLookAt.as_str(), "CameraLookAt");
    assert_eq!(FieldName::Kgls.as_str(), "Kgls");
    assert_eq!(FieldName::Triangle.as_str(), "Triangle");
}

#[test]
fn planned_values_read_as_numbers() {
    let source = format!("{GLOBALS}Sphere\nCenter -1.5e0, +2, .5\nRadius 4.\nKd 0.7\nKs 0.2\nKa 0.1\nOd 1 1 1\nOs 1 1 1\nKgls inf\n");
    let plan = scan_scene_text(&source);
    assert_eq!(plan.steps.len(), 3);
    for step in &plan.steps {
        let tokens: Vec<&String> = match step {
            BuildStep::Sphere(s) => vec![
                &s.center.value.x, &s.center.value.y, &s.center.value.z, &s.radius.value, &s.kd.value, &s.ks.value,
                &s.ka.value, &s.od.value.x, &s.os.value.z, &s.kgls.value,
            ],
            BuildStep::Camera(c) => vec![&c.look_at.value.x, &c.field_of_view.value],
            BuildStep::Lighting(l) => vec![&l.light_color.value.y, &l.background_color.value.z],
            BuildStep::Fail(e) => panic!("unexpected error {e:?}"),
        };
        for token in tokens {
            assert!(token.parse::<f64>().is_ok(), "token {token:?}");
        }
    }
}

#[test]
fn sphere_field_given_twice() {
    let source = format!("{GLOBALS}Sphere\nKd 0.5\nKd 0.6\n");
    let plan = scan_scene_text(&source);
    assert!(matches!(
        last_error(&plan),
        SceneParseError::DuplicateField { line: 11, field: FieldName::Kd, first_defined_line: 10 }
    ));
}

#[test]
fn crlf_lines_and_trailing_comment_only_lines() {
    let source = GLOBALS.replace('\n', "\r\n") + "# done\r\n";
    let plan = scan_scene_text(&source);
    assert_eq!(plan.steps.len(), 2);
    assert!(matches!(&plan.steps[1], BuildStep::Lighting(_)));
}
