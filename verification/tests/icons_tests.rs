use carcount::icons::{IconShape, MoonIcon, SunIcon};

#[test]
fn moon_icon_is_one_path() {
    let icon = MoonIcon();
    assert_eq!(icon.view_box, "0 0 50 50");
    assert_eq!(icon.shapes.len(), 1);
    match &icon.shapes[0] {
        IconShape::FilledPath { commands } => {
            assert!(commands.starts_with("M 43.81 29.354"));
            assert!(commands.ends_with("Z"));
        },
        _ => panic!("the moon is a single path"),
    }
}

#[test]
fn sun_icon_is_a_disc_and_six_rays() {
    let icon = SunIcon();
    assert_eq!(icon.view_box, "0 0 24 24");
    assert_eq!(icon.shapes.len(), 7);
    match &icon.shapes[0] {
        IconShape::FilledCircle { center_x, center_y, radius, rotation } => {
            assert_eq!(center_x, "11.9998");
            assert_eq!(center_y, "11.9998");
            assert_eq!(radius, "5.75375");
            assert!(rotation.is_none());
        },
        _ => panic!("the sun's disc is a circle"),
    }
    for shape in &icon.shapes[1..] {
        match shape {
            IconShape::FilledCircle { radius, .. } => assert_eq!(radius, "1.71143"),
            _ => panic!("every ray is a circle"),
        }
    }
    match &icon.shapes[2] {
        IconShape::FilledCircle { center_x, rotation, .. } => {
            assert_eq!(center_x, "3.0903");
            assert_eq!(rotation.as_deref(), Some("rotate(-120 3.0903 17.1436)"));
        },
        _ => panic!("every ray is a circle"),
    }
}
