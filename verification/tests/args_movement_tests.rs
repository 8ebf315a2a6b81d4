use dungeon_maze::args::{has_arg, ArgName};
use dungeon_maze::movement::{movement_directions, CameraDirection};

#[test]
fn html_argument_text() {
    assert_eq!(ArgName::Html.to_arg_string(), "html");
}

#[test]
fn html_argument_found() {
    let args = vec!["game".to_string(), "html".to_string()];
    assert!(has_arg(&args, ArgName::Html));
    let args = vec!["game".to_string(), "--html".to_string(), "HTML".to_string()];
    assert!(!has_arg(&args, ArgName::Html));
    assert!(!has_arg(&Vec::new(), ArgName::Html));
}

#[test]
fn movement_keys() {
    assert_eq!(movement_directions(true, false, false, true), vec![CameraDirection::Forward, CameraDirection::Right]);
    assert_eq!(
        movement_directions(true, true, true, true),
        vec![CameraDirection::Forward, CameraDirection::Back, CameraDirection::Left, CameraDirection::Right]
    );
    assert!(movement_directions(false, false, false, false).is_empty());
}
