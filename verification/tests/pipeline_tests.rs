use carcount::dispatch::Strategy;
use carcount::error::ErrorKind;
use carcount::pipeline::{step, Action, Event, PipelineState, Selection};

fn file(path: &str) -> Selection {
    Selection { path: path.to_owned(), exists_on_disk: true, is_directory: false }
}

fn diff_trigger() -> Event {
    Event::Trigger {
        strategy: Strategy::DiffConnect,
        first: file("before.jpg"),
        second: Some(file("after.jpg")),
        data_dir: "/data".to_owned(),
        directory_exists: true,
        asset_exists: true,
    }
}

#[test]
fn diff_connect_success_walk() {
    // Trigger: both selections admitted, staging work emitted.
    let (state, action) = step(PipelineState::Idle, diff_trigger());
    assert!(matches!(state, PipelineState::Staging { .. }));
    let copies = match &action {
        Action::PerformStaging { create_directory, copies, write_asset } => {
            assert!(!create_directory);
            assert!(write_asset.is_none());
            copies
        },
        _ => panic!("expected staging work"),
    };
    assert_eq!(copies.len(), 2);
    assert_eq!(copies[0].source, "before.jpg");
    assert_eq!(copies[0].destination, "/data/old_img_1.jpg");
    assert_eq!(copies[1].source, "after.jpg");
    assert_eq!(copies[1].destination, "/data/old_img_2.jpg");

    // Staging done: the planned capability call comes out.
    let (state, action) = step(
        state,
        Event::StagingDone { ok: true, message: String::new() },
    );
    assert!(matches!(state, PipelineState::Invoking { .. }));
    let call = match action {
        Action::Invoke { call } => call,
        _ => panic!("expected an invocation"),
    };
    assert_eq!(call.entry_point, "calculare_diff");
    assert_eq!(call.first_arg, "/data/old_img_1.jpg");
    assert_eq!(call.second_arg, "/data/old_img_2.jpg");
    assert_eq!(call.third_arg, "jpg");
    assert_eq!(call.fourth_arg, "/data");

    // The capability answers with a count and a real output path.
    let (state, action) = step(
        state,
        Event::Invoked { count: 3, output_path: "/data/diff_result.png".to_owned() },
    );
    match &state {
        PipelineState::Reading { result } => {
            assert_eq!(result.vehicle_count, 3);
            assert_eq!(result.output_path, "/data/diff_result.png");
        },
        _ => panic!("expected to be reading the output"),
    }
    match action {
        Action::ReadOutput { path } => assert_eq!(path, "/data/diff_result.png"),
        _ => panic!("expected a read request"),
    }

    // The output bytes come back: success, with a non-empty encoded image.
    let bytes = vec![137u8, 80, 78, 71];
    let (state, action) = step(state, Event::OutputRead { bytes: bytes.clone() });
    assert!(matches!(action, Action::Wait));
    match state {
        PipelineState::Succeeded { result, image } => {
            assert_eq!(result.vehicle_count, 3);
            assert_eq!(image.text, base64::encode(&bytes));
            assert!(!image.text.is_empty());
        },
        _ => panic!("expected success"),
    }
}

#[test]
fn diff_connect_sentinel_fails_without_a_zero_count_success() {
    let (state, _) = step(PipelineState::Idle, diff_trigger());
    let (state, _) = step(state, Event::StagingDone { ok: true, message: String::new() });
    let (state, action) = step(
        state,
        Event::Invoked { count: 0, output_path: "ERROR".to_owned() },
    );
    assert!(matches!(action, Action::Wait));
    match state {
        PipelineState::Failed { error } => {
            assert_eq!(error.kind, ErrorKind::Processing);
            assert_eq!(error.message, "There was a problem while saving the image");
        },
        _ => panic!("a sentinel answer must fail the request"),
    }
}

#[test]
fn haar_missing_asset_is_written_before_invocation() {
    let trigger = Event::Trigger {
        strategy: Strategy::HaarCascade,
        first: file("street.png"),
        second: None,
        data_dir: "/data".to_owned(),
        directory_exists: false,
        asset_exists: false,
    };
    let (state, action) = step(PipelineState::Idle, trigger);
    assert!(matches!(state, PipelineState::Staging { .. }));
    match &action {
        Action::PerformStaging { create_directory, copies, write_asset } => {
            assert!(*create_directory);
            assert_eq!(copies.len(), 1);
            assert_eq!(copies[0].destination, "/data/old_img.png");
            assert_eq!(write_asset.as_deref(), Some("/data/cars.xml"));
        },
        _ => panic!("expected staging work"),
    }

    // With the asset in place, the invocation proceeds normally.
    let (_, action) = step(state, Event::StagingDone { ok: true, message: String::new() });
    let call = match action {
        Action::Invoke { call } => call,
        _ => panic!("expected an invocation"),
    };
    assert_eq!(call.entry_point, "haar_cascade");
    assert_eq!(call.fourth_arg, "/data/cars.xml");
}

#[test]
fn haar_present_asset_is_not_rewritten() {
    let trigger = Event::Trigger {
        strategy: Strategy::HaarCascade,
        first: file("street.png"),
        second: None,
        data_dir: "/data".to_owned(),
        directory_exists: true,
        asset_exists: true,
    };
    let (_, action) = step(PipelineState::Idle, trigger);
    match action {
        Action::PerformStaging { create_directory, write_asset, .. } => {
            assert!(!create_directory);
            assert!(write_asset.is_none());
        },
        _ => panic!("expected staging work"),
    }
}

#[test]
fn directory_selection_never_reaches_staging() {
    let trigger = Event::Trigger {
        strategy: Strategy::DiffConnect,
        first: Selection {
            path: "/pics".to_owned(),
            exists_on_disk: true,
            is_directory: true,
        },
        second: Some(file("after.jpg")),
        data_dir: "/data".to_owned(),
        directory_exists: true,
        asset_exists: true,
    };
    let (state, action) = step(PipelineState::Idle, trigger);
    assert!(matches!(action, Action::Wait));
    match state {
        PipelineState::Failed { error } => {
            assert_eq!(error.kind, ErrorKind::Validation);
            assert_eq!(error.message, "selected path is a directory");
        },
        _ => panic!("expected an immediate validation failure"),
    }
}

#[test]
fn missing_second_selection_is_a_validation_error() {
    let trigger = Event::Trigger {
        strategy: Strategy::DiffConnect,
        first: file("before.jpg"),
        second: None,
        data_dir: "/data".to_owned(),
        directory_exists: true,
        asset_exists: true,
    };
    let (state, _) = step(PipelineState::Idle, trigger);
    match state {
        PipelineState::Failed { error } => assert_eq!(error.kind, ErrorKind::Validation),
        _ => panic!("expected a validation failure"),
    }
}

#[test]
fn io_failure_collapses_the_request() {
    let (state, _) = step(PipelineState::Idle, diff_trigger());
    let (state, action) = step(
        state,
        Event::StagingDone { ok: false, message: "disk full".to_owned() },
    );
    assert!(matches!(action, Action::Wait));
    match state {
        PipelineState::Failed { error } => {
            assert_eq!(error.kind, ErrorKind::Io);
            assert_eq!(error.message, "disk full");
        },
        _ => panic!("expected an input/output failure"),
    }
}

#[test]
fn bridge_failure_collapses_the_request() {
    let (state, _) = step(PipelineState::Idle, diff_trigger());
    let (state, _) = step(state, Event::StagingDone { ok: true, message: String::new() });
    let (state, _) = step(
        state,
        Event::InvokeFailed { message: "module would not load".to_owned() },
    );
    match state {
        PipelineState::Failed { error } => {
            assert_eq!(error.kind, ErrorKind::Bridge);
            assert_eq!(error.message, "module would not load");
        },
        _ => panic!("expected a bridge failure"),
    }
}

#[test]
fn read_back_failure_is_presentation_error() {
    let (state, _) = step(PipelineState::Idle, diff_trigger());
    let (state, _) = step(state, Event::StagingDone { ok: true, message: String::new() });
    let (state, _) = step(
        state,
        Event::Invoked { count: 2, output_path: "/data/diff_result.png".to_owned() },
    );
    let (state, _) = step(
        state,
        Event::OutputReadFailed { message: "file vanished".to_owned() },
    );
    match state {
        PipelineState::Failed { error } => assert_eq!(error.kind, ErrorKind::Presentation),
        _ => panic!("expected a presentation failure"),
    }
}

#[test]
fn back_to_back_triggers_serialize_in_order() {
    // First request reaches the invocation stage.
    let (state, _) = step(PipelineState::Idle, diff_trigger());
    let (state, _) = step(state, Event::StagingDone { ok: true, message: String::new() });
    assert!(matches!(state, PipelineState::Invoking { .. }));

    // A second trigger while the first is in flight is refused outright: no
    // new work starts, the first invocation keeps the machine.
    let (state, action) = step(state, diff_trigger());
    assert!(matches!(action, Action::Wait));
    assert!(matches!(state, PipelineState::Invoking { .. }));

    // Only after the first request completes is a new trigger accepted.
    let (state, _) = step(
        state,
        Event::Invoked { count: 1, output_path: "/data/diff_result.png".to_owned() },
    );
    let (state, _) = step(state, Event::OutputRead { bytes: vec![1u8] });
    assert!(matches!(state, PipelineState::Succeeded { .. }));
    let (state, action) = step(state, diff_trigger());
    assert!(matches!(state, PipelineState::Staging { .. }));
    assert!(matches!(action, Action::PerformStaging { .. }));
}

#[test]
fn mismatched_events_leave_the_machine_alone() {
    let (state, action) = step(
        PipelineState::Idle,
        Event::Invoked { count: 3, output_path: "/data/out.png".to_owned() },
    );
    assert!(matches!(state, PipelineState::Idle));
    assert!(matches!(action, Action::Wait));

    let (state, action) = step(
        PipelineState::Idle,
        Event::OutputRead { bytes: vec![1u8] },
    );
    assert!(matches!(state, PipelineState::Idle));
    assert!(matches!(action, Action::Wait));
}
