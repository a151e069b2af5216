use vstd::prelude::*;
use crate::text::text_eq;

verus! {

/// The name of a field of a scene: a directive of the scene file, or a part
/// of a shape that the scene validates.
#[derive(Clone, Copy, Debug, PartialEq, Eq, Structural)]
pub enum FieldName {
    CameraLookAt,
    CameraLookFrom,
    CameraLookUp,
    FieldOfView,
    DirectionToLight,
    LightColor,
    AmbientLight,
    BackgroundColor,
    Center,
    Radius,
    Kd,
    Ks,
    Ka,
    Od,
    Os,
    Kgls,
    Reflection,
    V0,
    V1,
    V2,
    Triangle,
}

impl FieldName {
    /// The field's name as the scene file and the error messages spell it.
    pub open spec fn spec_text(self) -> Seq<char> {
        match self {
            FieldName::CameraLookAt => "CameraLookAt"@,
            FieldName::CameraLookFrom => "CameraLookFrom"@,
            FieldName::CameraLookUp => "CameraLookUp"@,
            FieldName::FieldOfView => "FieldOfView"@,
            FieldName::DirectionToLight => "DirectionToLight"@,
            FieldName::LightColor => "LightColor"@,
            FieldName::AmbientLight => "AmbientLight"@,
            FieldName::BackgroundColor => "BackgroundColor"@,
            FieldName::Center => "Center"@,
            FieldName::Radius => "Radius"@,
            FieldName::Kd => "Kd"@,
            FieldName::Ks => "Ks"@,
            FieldName::Ka => "Ka"@,
            FieldName::Od => "Od"@,
            FieldName::Os => "Os"@,
            FieldName::Kgls => "Kgls"@,
            FieldName::Reflection => "Reflection"@,
            FieldName::V0 => "V0"@,
            FieldName::V1 => "V1"@,
            FieldName::V2 => "V2"@,
            FieldName::Triangle => "Triangle"@,
        }
    }

    /// The field's name as the scene file and the error messages spell it.
    pub fn as_str(self) -> (text: &'static str)
        ensures
            text@ == self.spec_text(),
    {
        match self {
            FieldName::CameraLookAt => "CameraLookAt",
            FieldName::CameraLookFrom => "CameraLookFrom",
            FieldName::CameraLookUp => "CameraLookUp",
            FieldName::FieldOfView => "FieldOfView",
            FieldName::DirectionToLight => "DirectionToLight",
            FieldName::LightColor => "LightColor",
            FieldName::AmbientLight => "AmbientLight",
            FieldName::BackgroundColor => "BackgroundColor",
            FieldName::Center => "Center",
            FieldName::Radius => "Radius",
            FieldName::Kd => "Kd",
            FieldName::Ks => "Ks",
            FieldName::Ka => "Ka",
            FieldName::Od => "Od",
            FieldName::Os => "Os",
            FieldName::Kgls => "Kgls",
            FieldName::Reflection => "Reflection",
            FieldName::V0 => "V0",
            FieldName::V1 => "V1",
            FieldName::V2 => "V2",
            FieldName::Triangle => "Triangle",
        }
    }
}

/// A directive that sets a global (camera or lighting) field.
#[derive(Clone, Copy, Debug, PartialEq, Eq, Structural)]
pub enum GlobalDirective {
    CameraLookAt,
    CameraLookFrom,
    CameraLookUp,
    FieldOfView,
    DirectionToLight,
    LightColor,
    AmbientLight,
    BackgroundColor,
}

impl GlobalDirective {
    /// The directive that `token` names, if it names a global one.
    pub open spec fn spec_from_token(token: Seq<char>) -> Option<GlobalDirective> {
        if token == "CameraLookAt"@ {
            Some(GlobalDirective::CameraLookAt)
        } else if token == "CameraLookFrom"@ {
            Some(GlobalDirective::CameraLookFrom)
        } else if token == "CameraLookUp"@ {
            Some(GlobalDirective::CameraLookUp)
        } else if token == "FieldOfView"@ {
            Some(GlobalDirective::FieldOfView)
        } else if token == "DirectionToLight"@ {
            Some(GlobalDirective::DirectionToLight)
        } else if token == "LightColor"@ {
            Some(GlobalDirective::LightColor)
        } else if token == "AmbientLight"@ {
            Some(GlobalDirective::AmbientLight)
        } else if token == "BackgroundColor"@ {
            Some(GlobalDirective::BackgroundColor)
        } else {
            None
        }
    }

    /// The directive that `token` names, if it names a global one.
    pub fn from_token(token: &[char]) -> (directive: Option<GlobalDirective>)
        ensures
            directive == Self::spec_from_token(token@),
    {
        if text_eq(token, "CameraLookAt") {
            Some(GlobalDirective::CameraLookAt)
        } else if text_eq(token, "CameraLookFrom") {
            Some(GlobalDirective::CameraLookFrom)
        } else if text_eq(token, "CameraLookUp") {
            Some(GlobalDirective::CameraLookUp)
        } else if text_eq(token, "FieldOfView") {
            Some(GlobalDirective::FieldOfView)
        } else if text_eq(token, "DirectionToLight") {
            Some(GlobalDirective::DirectionToLight)
        } else if text_eq(token, "LightColor") {
            Some(GlobalDirective::LightColor)
        } else if text_eq(token, "AmbientLight") {
            Some(GlobalDirective::AmbientLight)
        } else if text_eq(token, "BackgroundColor") {
            Some(GlobalDirective::BackgroundColor)
        } else {
            None
        }
    }

    /// The field that the directive sets.
    pub open spec fn spec_field_name(self) -> FieldName {
        match self {
            GlobalDirective::CameraLookAt => FieldName::CameraLookAt,
            GlobalDirective::CameraLookFrom => FieldName::CameraLookFrom,
            GlobalDirective::CameraLookUp => FieldName::CameraLookUp,
            GlobalDirective::FieldOfView => FieldName::FieldOfView,
            GlobalDirective::DirectionToLight => FieldName::DirectionToLight,
            GlobalDirective::LightColor => FieldName::LightColor,
            GlobalDirective::AmbientLight => FieldName::AmbientLight,
            GlobalDirective::BackgroundColor => FieldName::BackgroundColor,
        }
    }

    /// The field that the directive sets.
    pub fn field_name(self) -> (field: FieldName)
        ensures
            field == self.spec_field_name(),
    {
        match self {
            GlobalDirective::CameraLookAt => FieldName::CameraLookAt,
            GlobalDirective::CameraLookFrom => FieldName::CameraLookFrom,
            GlobalDirective::CameraLookUp => FieldName::CameraLookUp,
            GlobalDirective::FieldOfView => FieldName::FieldOfView,
            GlobalDirective::DirectionToLight => FieldName::DirectionToLight,
            GlobalDirective::LightColor => FieldName::LightColor,
            GlobalDirective::AmbientLight => FieldName::AmbientLight,
            GlobalDirective::BackgroundColor => FieldName::BackgroundColor,
        }
    }
}

/// A directive that sets a field of the sphere being described.
#[derive(Clone, Copy, Debug, PartialEq, Eq, Structural)]
pub enum SphereDirective {
    Center,
    Radius,
    Kd,
    Ks,
    Ka,
    Od,
    Os,
    Kgls,
}

impl SphereDirective {
    /// The directive that `token` names, if it names a sphere one.
    pub open spec fn spec_from_token(token: Seq<char>) -> Option<SphereDirective> {
        if token == "Center"@ {
            Some(SphereDirective::Center)
        } else if token == "Radius"@ {
            Some(SphereDirective::Radius)
        } else if token == "Kd"@ {
            Some(SphereDirective::Kd)
        } else if token == "Ks"@ {
            Some(SphereDirective::Ks)
        } else if token == "Ka"@ {
            Some(SphereDirective::Ka)
        } else if token == "Od"@ {
            Some(SphereDirective::Od)
        } else if token == "Os"@ {
            Some(SphereDirective::Os)
        } else if token == "Kgls"@ {
            Some(SphereDirective::Kgls)
        } else {
            None
        }
    }

    /// The directive that `token` names, if it names a sphere one.
    pub fn from_token(token: &[char]) -> (directive: Option<SphereDirective>)
        ensures
            directive == Self::spec_from_token(token@),
    {
        if text_eq(token, "Center") {
            Some(SphereDirective::Center)
        } else if text_eq(token, "Radius") {
            Some(SphereDirective::Radius)
        } else if text_eq(token, "Kd") {
            Some(SphereDirective::Kd)
        } else if text_eq(token, "Ks") {
            Some(SphereDirective::Ks)
        } else if text_eq(token, "Ka") {
            Some(SphereDirective::Ka)
        } else if text_eq(token, "Od") {
            Some(SphereDirective::Od)
        } else if text_eq(token, "Os") {
            Some(SphereDirective::Os)
        } else if text_eq(token, "Kgls") {
            Some(SphereDirective::Kgls)
        } else {
            None
        }
    }

    /// The field that the directive sets.
    pub open spec fn spec_field_name(self) -> FieldName {
        match self {
            SphereDirective::Center => FieldName::Center,
            SphereDirective::Radius => FieldName::Radius,
            SphereDirective::Kd => FieldName::Kd,
            SphereDirective::Ks => FieldName::Ks,
            SphereDirective::Ka => FieldName::Ka,
            SphereDirective::Od => FieldName::Od,
            SphereDirective::Os => FieldName::Os,
            SphereDirective::Kgls => FieldName::Kgls,
        }
    }

    /// The field that the directive sets.
    pub fn field_name(self) -> (field: FieldName)
        ensures
            field == self.spec_field_name(),
    {
        match self {
            SphereDirective::Center => FieldName::Center,
            SphereDirective::Radius => FieldName::Radius,
            SphereDirective::Kd => FieldName::Kd,
            SphereDirective::Ks => FieldName::Ks,
            SphereDirective::Ka => FieldName::Ka,
            SphereDirective::Od => FieldName::Od,
            SphereDirective::Os => FieldName::Os,
            SphereDirective::Kgls => FieldName::Kgls,
        }
    }
}

} // verus!
