//! The verified core of a small ray tracer: the scene-file format (lines,
//! comments, directives, number tokens, duplicate and missing fields, error
//! lines), the validation rules for scene values, and the RGB8 frame buffer
//! that rendering fills.

pub mod fields;
pub mod image;
pub mod number;
pub mod plan;
pub mod plan_laws;
pub mod render;
pub mod scanner;
pub mod text;
pub mod validation;

pub use fields::{FieldName, GlobalDirective, SphereDirective};
pub use image::RenderImage;
pub use plan::{BuildStep, CameraValues, GlobalFields, LightingValues, Located, SceneParseError, SphereValues, Vector3};
pub use render::{HitObject, RenderConfig, Renderer};
pub use scanner::{scan_scene_text, ScenePlan};
pub use validation::{SceneValidationError, Vec3Bits};
