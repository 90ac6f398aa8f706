//! The theme-toggle icons, as data.
//!
//! The shell renders these as inline vector markup; here each icon is a fixed
//! list of shapes whose exact geometry the constructors guarantee, so the
//! presentation layer only transcribes fields into markup attributes.

use vstd::prelude::*;

verus! {

/// One shape of an icon's vector drawing. Coordinates are kept as the
/// decimal text that goes into the markup attributes.
#[derive(Debug)]
pub enum IconShape {
    /// A filled path, by its drawing commands.
    FilledPath { commands: String },
    /// A filled circle, optionally carrying a rotation transform.
    FilledCircle {
        center_x: String,
        center_y: String,
        radius: String,
        rotation: Option<String>,
    },
}

/// A fixed icon: its view box and its shapes, in drawing order.
#[derive(Debug)]
pub struct Icon {
    pub view_box: String,
    pub shapes: Vec<IconShape>,
}

/// The moon of the dark-theme toggle: one filled path in a 50-unit view box.
#[allow(non_snake_case)]
pub fn MoonIcon() -> (r: Icon)
    ensures
        r.view_box@ == "0 0 50 50"@,
        r.shapes@.len() == 1,
        r.shapes@[0] matches IconShape::FilledPath { commands } && commands@
            == "M 43.81 29.354 C 43.688 28.958 43.413 28.626 43.046 28.432 C 42.679 28.238 42.251 28.198 41.854 28.321 C 36.161 29.886 30.067 28.272 25.894 24.096 C 21.722 19.92 20.113 13.824 21.683 8.133 C 21.848 7.582 21.697 6.985 21.29 6.578 C 20.884 6.172 20.287 6.022 19.736 6.187 C 10.659 8.728 4.691 17.389 5.55 26.776 C 6.408 36.163 13.847 43.598 23.235 44.451 C 32.622 45.304 41.28 39.332 43.816 30.253 C 43.902 29.96 43.9 29.647 43.81 29.354 Z"@,
{
    let mut shapes: Vec<IconShape> = Vec::new();
    shapes.push(IconShape::FilledPath {
        commands:
            "M 43.81 29.354 C 43.688 28.958 43.413 28.626 43.046 28.432 C 42.679 28.238 42.251 28.198 41.854 28.321 C 36.161 29.886 30.067 28.272 25.894 24.096 C 21.722 19.92 20.113 13.824 21.683 8.133 C 21.848 7.582 21.697 6.985 21.29 6.578 C 20.884 6.172 20.287 6.022 19.736 6.187 C 10.659 8.728 4.691 17.389 5.55 26.776 C 6.408 36.163 13.847 43.598 23.235 44.451 C 32.622 45.304 41.28 39.332 43.816 30.253 C 43.902 29.96 43.9 29.647 43.81 29.354 Z".to_owned(),
    });
    Icon { view_box: "0 0 50 50".to_owned(), shapes }
}

/// The sun of the light-theme toggle: a central disc and six rays, each a
/// filled circle, in a 24-unit view box.
#[allow(non_snake_case)]
pub fn SunIcon() -> (r: Icon)
    ensures
        r.view_box@ == "0 0 24 24"@,
        r.shapes@.len() == 7,
        r.shapes@[0] matches IconShape::FilledCircle { center_x, center_y, radius, rotation }
            && center_x@ == "11.9998"@ && center_y@ == "11.9998"@ && radius@ == "5.75375"@
            && rotation is None,
        r.shapes@[1] matches IconShape::FilledCircle { center_x, center_y, radius, rotation }
            && center_x@ == "3.08982"@ && center_y@ == "6.85502"@ && radius@ == "1.71143"@
            && (rotation matches Some(t) && t@ == "rotate(-60 3.08982 6.85502)"@),
        r.shapes@[2] matches IconShape::FilledCircle { center_x, center_y, radius, rotation }
            && center_x@ == "3.0903"@ && center_y@ == "17.1436"@ && radius@ == "1.71143"@
            && (rotation matches Some(t) && t@ == "rotate(-120 3.0903 17.1436)"@),
        r.shapes@[3] matches IconShape::FilledCircle { center_x, center_y, radius, rotation }
            && center_x@ == "12"@ && center_y@ == "22.2881"@ && radius@ == "1.71143"@
            && rotation is None,
        r.shapes@[4] matches IconShape::FilledCircle { center_x, center_y, radius, rotation }
            && center_x@ == "20.9101"@ && center_y@ == "17.1436"@ && radius@ == "1.71143"@
            && (rotation matches Some(t) && t@ == "rotate(-60 20.9101 17.1436)"@),
        r.shapes@[5] matches IconShape::FilledCircle { center_x, center_y, radius, rotation }
            && center_x@ == "20.9101"@ && center_y@ == "6.8555"@ && radius@ == "1.71143"@
            && (rotation matches Some(t) && t@ == "rotate(-120 20.9101 6.8555)"@),
        r.shapes@[6] matches IconShape::FilledCircle { center_x, center_y, radius, rotation }
            && center_x@ == "12"@ && center_y@ == "1.71143"@ && radius@ == "1.71143"@
            && rotation is None,
{
    let mut shapes: Vec<IconShape> = Vec::new();
    shapes.push(IconShape::FilledCircle {
        center_x: "11.9998".to_owned(),
        center_y: "11.9998".to_owned(),
        radius: "5.75375".to_owned(),
        rotation: Option::None,
    });
    shapes.push(IconShape::FilledCircle {
        center_x: "3.08982".to_owned(),
        center_y: "6.85502".to_owned(),
        radius: "1.71143".to_owned(),
        rotation: Option::Some("rotate(-60 3.08982 6.85502)".to_owned()),
    });
    shapes.push(IconShape::FilledCircle {
        center_x: "3.0903".to_owned(),
        center_y: "17.1436".to_owned(),
        radius: "1.71143".to_owned(),
        rotation: Option::Some("rotate(-120 3.0903 17.1436)".to_owned()),
    });
    shapes.push(IconShape::FilledCircle {
        center_x: "12".to_owned(),
        center_y: "22.2881".to_owned(),
        radius: "1.71143".to_owned(),
        rotation: Option::None,
    });
    shapes.push(IconShape::FilledCircle {
        center_x: "20.9101".to_owned(),
        center_y: "17.1436".to_owned(),
        radius: "1.71143".to_owned(),
        rotation: Option::Some("rotate(-60 20.9101 17.1436)".to_owned()),
    });
    shapes.push(IconShape::FilledCircle {
        center_x: "20.9101".to_owned(),
        center_y: "6.8555".to_owned(),
        radius: "1.71143".to_owned(),
        rotation: Option::Some("rotate(-120 20.9101 6.8555)".to_owned()),
    });
    shapes.push(IconShape::FilledCircle {
        center_x: "12".to_owned(),
        center_y: "1.71143".to_owned(),
        radius: "1.71143".to_owned(),
        rotation: Option::None,
    });
    Icon { view_box: "0 0 24 24".to_owned(), shapes }
}

} // verus!
