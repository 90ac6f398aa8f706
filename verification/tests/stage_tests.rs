use carcount::error::ErrorKind;
use carcount::paths::Slot;
use carcount::stage::stage_request;

#[test]
fn stage_request_admits_valid_selection() {
    let staged = stage_request("in/cars.png", Slot::First, "/data", true, false).unwrap();
    assert_eq!(staged.original_path, "in/cars.png");
    assert_eq!(staged.staged_path, "/data/old_img_1.png");
    assert_eq!(staged.extension, "png");
}

#[test]
fn stage_request_single_slot_destination() {
    let staged = stage_request("/pics/street.jpeg", Slot::Single, "/data", true, false).unwrap();
    assert_eq!(staged.staged_path, "/data/old_img.jpeg");
}

#[test]
fn stage_request_rejects_missing_path() {
    let err = stage_request("gone.png", Slot::First, "/data", false, false).unwrap_err();
    assert_eq!(err.kind, ErrorKind::Validation);
    assert_eq!(err.message, "selected path does not exist");
}

#[test]
fn stage_request_rejects_directory() {
    let err = stage_request("/pics", Slot::First, "/data", true, true).unwrap_err();
    assert_eq!(err.kind, ErrorKind::Validation);
    assert_eq!(err.message, "selected path is a directory");
}

#[test]
fn stage_request_rejects_missing_extension() {
    let err = stage_request("/pics/raw", Slot::First, "/data", true, false).unwrap_err();
    assert_eq!(err.kind, ErrorKind::Validation);
    assert_eq!(err.message, "selected path has no extension");
}

#[test]
fn restaging_a_slot_targets_the_same_destination() {
    let first_run = stage_request("a/one.jpg", Slot::First, "/data", true, false).unwrap();
    let second_run = stage_request("b/two.jpg", Slot::First, "/data", true, false).unwrap();
    assert_eq!(first_run.staged_path, second_run.staged_path);
}
