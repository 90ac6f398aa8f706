// These tests run the real embedded runtime: the modules below stand in for
// the counting algorithms and answer with the same `(count, path)` shape.

use carcount::bridge::{diff_n_conn, haar_cascade, plan_diff_call, plan_haar_call};
use carcount::error::ErrorKind;

const COUNTING_STUB: &str = "def calculare_diff(img1, img2, ext, save_in):\n    return (3, save_in + \"/diff_result.\" + ext)\n";

const SENTINEL_STUB: &str =
    "def calculare_diff(img1, img2, ext, save_in):\n    return (0, \"ERROR\")\n";

const HAAR_STUB: &str = "def haar_cascade(img, ext, save_in, cascade):\n    return (2, save_in + \"/\" + cascade + \".out.\" + ext)\n";

const WRONG_SHAPE_STUB: &str =
    "def calculare_diff(img1, img2, ext, save_in):\n    return \"nope\"\n";

#[test]
fn bridge_returns_the_capability_answer() {
    let res = diff_n_conn(COUNTING_STUB, "/data/old_img_1.jpg", "/data/old_img_2.jpg", "jpg", "/data")
        .unwrap();
    assert_eq!(res.vehicle_count, 3);
    assert_eq!(res.output_path, "/data/diff_result.jpg");
}

#[test]
fn bridge_decodes_the_sentinel_as_processing_error() {
    let err = diff_n_conn(SENTINEL_STUB, "a.jpg", "b.jpg", "jpg", "/data").unwrap_err();
    assert_eq!(err.kind, ErrorKind::Processing);
    assert_eq!(err.message, "There was a problem while saving the image");
}

#[test]
fn bridge_passes_haar_arguments_in_order() {
    let res = haar_cascade(HAAR_STUB, "/data/old_img.png", "png", "/data", "/data/cars.xml")
        .unwrap();
    assert_eq!(res.vehicle_count, 2);
    assert_eq!(res.output_path, "/data//data/cars.xml.out.png");
}

#[test]
fn missing_entry_point_is_a_bridge_error() {
    // The module defines no `calculare_diff`, so binding the entry fails.
    let err = diff_n_conn("x = 1\n", "a.jpg", "b.jpg", "jpg", "/data").unwrap_err();
    assert_eq!(err.kind, ErrorKind::Bridge);
}

#[test]
fn broken_module_is_a_bridge_error() {
    let err = diff_n_conn("def broken(:\n", "a.jpg", "b.jpg", "jpg", "/data").unwrap_err();
    assert_eq!(err.kind, ErrorKind::Bridge);
}

#[test]
fn wrong_result_shape_is_a_bridge_error() {
    let err = diff_n_conn(WRONG_SHAPE_STUB, "a.jpg", "b.jpg", "jpg", "/data").unwrap_err();
    assert_eq!(err.kind, ErrorKind::Bridge);
}

#[test]
fn planned_diff_call_is_fixed() {
    let call = plan_diff_call("/data/old_img_1.jpg", "/data/old_img_2.jpg", "jpg", "/data");
    assert_eq!(call.module_file, "diffcon.py");
    assert_eq!(call.module_name, "diffcon");
    assert_eq!(call.entry_point, "calculare_diff");
    assert_eq!(call.first_arg, "/data/old_img_1.jpg");
    assert_eq!(call.second_arg, "/data/old_img_2.jpg");
    assert_eq!(call.third_arg, "jpg");
    assert_eq!(call.fourth_arg, "/data");
}

#[test]
fn planned_haar_call_is_fixed() {
    let call = plan_haar_call("/data/old_img.png", "png", "/data", "/data/cars.xml");
    assert_eq!(call.module_file, "haar.py");
    assert_eq!(call.module_name, "haar");
    assert_eq!(call.entry_point, "haar_cascade");
    assert_eq!(call.first_arg, "/data/old_img.png");
    assert_eq!(call.second_arg, "png");
    assert_eq!(call.third_arg, "/data");
    assert_eq!(call.fourth_arg, "/data/cars.xml");
}
