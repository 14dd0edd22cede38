use dng_batch::args::build_all;
use dng_batch::args::build_invocation;
use dng_batch::locator::Platform;
use dng_batch::locator::ProbeReport;
use dng_batch::locator::assess_availability;
use dng_batch::locator::version_probe;
use dng_batch::options::Compression;
use dng_batch::options::ConversionOptions;
use dng_batch::options::Crop;
use dng_batch::outcome::ConversionOutcome;
use dng_batch::outcome::LaunchReport;
use dng_batch::outcome::classify;
use dng_batch::runner::RunState;
use dng_batch::selection::PickEvent;
use dng_batch::selection::SelectionState;
use dng_batch::selection::check_and_enable_convert;

fn default_options() -> ConversionOptions {
    ConversionOptions {
        compression: Compression::Lossless,
        crop: Crop::Auto,
        embed_raw: true,
        overwrite: false,
        recursive: false,
    }
}

#[test]
fn ready_only_after_both_picks() {
    let mut state = SelectionState::new();
    assert!(!state.is_ready());
    state.apply_pick_event(PickEvent::Inputs(Some(vec!["/a/x.nef".to_string()])));
    assert!(!state.is_ready());
    state.apply_pick_event(PickEvent::Output(Some("/out".to_string())));
    assert!(state.is_ready());
    assert!(check_and_enable_convert(&state));
}

#[test]
fn output_pick_alone_is_not_ready() {
    let mut state = SelectionState::new();
    state.apply_pick_event(PickEvent::Output(Some("/out".to_string())));
    assert!(!state.is_ready());
    assert!(!check_and_enable_convert(&state));
}

#[test]
fn cancelled_picks_change_nothing() {
    let mut state = SelectionState::new();
    state.apply_pick_event(PickEvent::Inputs(Some(vec!["/a/x.nef".to_string()])));
    state.apply_pick_event(PickEvent::Output(Some("/out".to_string())));
    assert!(state.is_ready());

    state.apply_pick_event(PickEvent::Inputs(None));
    state.apply_pick_event(PickEvent::Output(None));
    assert!(state.is_ready());
    assert_eq!(state.input_files(), &vec!["/a/x.nef".to_string()]);
    assert_eq!(state.output_dir(), "/out");
}

#[test]
fn empty_input_pick_changes_nothing() {
    let mut state = SelectionState::new();
    state.apply_pick_event(PickEvent::Inputs(Some(vec!["/a/x.nef".to_string()])));
    state.apply_pick_event(PickEvent::Inputs(Some(Vec::new())));
    assert_eq!(state.input_files(), &vec!["/a/x.nef".to_string()]);
    assert_eq!(state.input_count(), 1);
}

#[test]
fn input_pick_replaces_wholesale() {
    let mut state = SelectionState::new();
    state.apply_pick_event(PickEvent::Inputs(Some(vec![
        "/a/x.nef".to_string(),
        "/a/y.nef".to_string(),
    ])));
    state.apply_pick_event(PickEvent::Inputs(Some(vec!["/b/z.cr2".to_string()])));
    assert_eq!(state.input_files(), &vec!["/b/z.cr2".to_string()]);
}

#[test]
fn invocation_has_fixed_flag_order() {
    let options = default_options();
    let args = build_invocation(&options, &"/a/x.nef".to_string(), &"/out".to_string());
    assert_eq!(
        args,
        vec![
            "convert".to_string(),
            "--embed-raw".to_string(),
            "true".to_string(),
            "--compression".to_string(),
            "lossless".to_string(),
            "--crop".to_string(),
            "auto".to_string(),
            "/a/x.nef".to_string(),
            "/out".to_string(),
        ]
    );
}

#[test]
fn invocation_includes_optional_flags_in_order() {
    let options = ConversionOptions {
        compression: Compression::Uncompressed,
        crop: Crop::NoCrop,
        embed_raw: false,
        overwrite: true,
        recursive: true,
    };
    let args = build_invocation(&options, &"/a/x.nef".to_string(), &"/out".to_string());
    assert_eq!(
        args,
        vec![
            "convert".to_string(),
            "--embed-raw".to_string(),
            "false".to_string(),
            "--compression".to_string(),
            "uncompressed".to_string(),
            "--crop".to_string(),
            "none".to_string(),
            "--override".to_string(),
            "--recursive".to_string(),
            "/a/x.nef".to_string(),
            "/out".to_string(),
        ]
    );
}

#[test]
fn one_argument_list_per_input_differing_only_in_input() {
    let options = default_options();
    let inputs = vec![
        "/a/x.nef".to_string(),
        "/a/y.cr2".to_string(),
        "/b/z.arw".to_string(),
    ];
    let lists = build_all(&options, &inputs, &"/out".to_string());
    assert_eq!(lists.len(), 3);
    let input_slot = lists[0].len() - 2;
    for (k, list) in lists.iter().enumerate() {
        assert_eq!(list.len(), lists[0].len());
        assert_eq!(list[input_slot], inputs[k]);
        for i in 0..list.len() {
            if i != input_slot {
                assert_eq!(list[i], lists[0][i]);
            }
        }
    }
}

#[test]
fn classification_covers_every_launch_report() {
    assert_eq!(
        classify(LaunchReport::Exited { status: 0, stderr: String::new() }),
        ConversionOutcome::Succeeded
    );
    assert!(classify(LaunchReport::Exited { status: 0, stderr: String::new() }).is_success());
    assert!(!classify(LaunchReport::NotFound).is_success());
    assert_eq!(
        classify(LaunchReport::Exited { status: 2, stderr: "bad input".to_string() }),
        ConversionOutcome::ToolReportedError { status: 2, stderr: "bad input".to_string() }
    );
    assert_eq!(classify(LaunchReport::NotFound), ConversionOutcome::ToolNotFound);
    assert_eq!(
        classify(LaunchReport::Failed { message: "permission denied".to_string() }),
        ConversionOutcome::LaunchFailed { message: "permission denied".to_string() }
    );
}

#[test]
fn failing_file_does_not_stop_the_run() {
    let options = default_options();
    let inputs = vec!["/a".to_string(), "/b".to_string(), "/c".to_string()];
    let mut run = RunState::start(true, &options, &inputs, &"/out".to_string());

    let reports = vec![
        LaunchReport::Exited { status: 0, stderr: String::new() },
        LaunchReport::Exited { status: 1, stderr: "failed on /b".to_string() },
        LaunchReport::Exited { status: 0, stderr: String::new() },
    ];
    for report in reports {
        assert!(!run.is_done());
        assert!(run.next_command().is_some());
        run.record(report);
    }
    assert!(run.is_done());
    let outcomes = run.into_outcomes();
    assert_eq!(
        outcomes,
        vec![
            ConversionOutcome::Succeeded,
            ConversionOutcome::ToolReportedError { status: 1, stderr: "failed on /b".to_string() },
            ConversionOutcome::Succeeded,
        ]
    );
}

#[test]
fn unavailable_tool_skips_the_whole_run() {
    let options = default_options();
    let inputs = vec!["/a".to_string(), "/b".to_string(), "/c".to_string()];
    let run = RunState::start(false, &options, &inputs, &"/out".to_string());
    assert!(run.is_done());
    assert_eq!(run.next_command(), None);
    assert_eq!(run.into_outcomes(), Vec::new());
}

#[test]
fn launch_errors_are_per_file_outcomes() {
    let options = default_options();
    let inputs = vec!["/a".to_string(), "/b".to_string()];
    let mut run = RunState::start(true, &options, &inputs, &"/out".to_string());
    run.record(LaunchReport::NotFound);
    run.record(LaunchReport::Failed { message: "fork failed".to_string() });
    assert_eq!(
        run.into_outcomes(),
        vec![
            ConversionOutcome::ToolNotFound,
            ConversionOutcome::LaunchFailed { message: "fork failed".to_string() },
        ]
    );
}

#[test]
fn probe_commands_follow_the_platform() {
    let macos = version_probe(Platform::MacOs).unwrap();
    assert_eq!(macos.program, "/usr/local/bin/dnglab");
    assert_eq!(macos.argument, "--version");

    let linux = version_probe(Platform::Linux).unwrap();
    assert_eq!(linux.program, "dnglab");
    assert_eq!(linux.argument, "--version");

    assert!(version_probe(Platform::Other).is_none());
}

#[test]
fn availability_follows_the_probe() {
    let unsupported = assess_availability(None);
    assert!(!unsupported.available);
    assert_eq!(
        unsupported.notice.as_deref(),
        Some("unsupported platform: cannot locate the converter")
    );

    let present = assess_availability(Some(ProbeReport::Launched));
    assert!(present.available);
    assert!(present.notice.is_none());

    let missing = assess_availability(Some(ProbeReport::Failed {
        message: "No such file or directory".to_string(),
    }));
    assert!(!missing.available);
    assert_eq!(missing.notice.as_deref(), Some("No such file or directory"));
}

#[test]
fn end_to_end_single_file_conversion() {
    let mut state = SelectionState::new();
    state.apply_pick_event(PickEvent::Inputs(Some(vec!["/a/x.nef".to_string()])));
    state.apply_pick_event(PickEvent::Output(Some("/out".to_string())));
    assert!(state.is_ready());

    let options = ConversionOptions {
        compression: Compression::Lossless,
        crop: Crop::Auto,
        embed_raw: true,
        overwrite: false,
        recursive: false,
    };
    let availability = assess_availability(Some(ProbeReport::Launched));
    let mut run = RunState::start(
        availability.available,
        &options,
        state.input_files(),
        state.output_dir(),
    );

    let command = run.next_command().unwrap().clone();
    assert_eq!(
        command,
        vec![
            "convert".to_string(),
            "--embed-raw".to_string(),
            "true".to_string(),
            "--compression".to_string(),
            "lossless".to_string(),
            "--crop".to_string(),
            "auto".to_string(),
            "/a/x.nef".to_string(),
            "/out".to_string(),
        ]
    );
    run.record(LaunchReport::Exited { status: 0, stderr: String::new() });
    assert!(run.is_done());
    assert_eq!(run.into_outcomes(), vec![ConversionOutcome::Succeeded]);
}
