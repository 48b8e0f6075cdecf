use upload_pipeline::boundary::Param;
use upload_pipeline::boundary::validate_boundary;
use upload_pipeline::convert::ConversionJob;
use upload_pipeline::convert::ConversionOutcome;
use upload_pipeline::convert::conversion_plan;
use upload_pipeline::convert::output_path_for;
use upload_pipeline::convert::record_outcome;
use upload_pipeline::errors::UploadError;
use upload_pipeline::greeting;
use upload_pipeline::parts::Part;
use upload_pipeline::parts::PartHeader;
use upload_pipeline::parts::SpoolOutcome;
use upload_pipeline::parts::SpoolPayload;
use upload_pipeline::registry::build_registry;
use upload_pipeline::registry::UploadRegistry;
use upload_pipeline::select::select_artifact;

fn file_part(name: &str, filename: Option<&str>, path: &str, size: u64) -> Part {
    Part {
        header: PartHeader {
            name: name.to_string(),
            filename: filename.map(|f| f.to_string()),
        },
        outcome: SpoolOutcome::Complete(SpoolPayload::FileRef {
            path: path.to_string(),
            size_bytes: size,
        }),
    }
}

#[test]
fn greeting_text() {
    assert_eq!(greeting(), "Hello world! ");
}

#[test]
fn boundary_accepted() {
    let media = "multipart/form-data".to_string();
    let params = vec![Param {
        key: "boundary".to_string(),
        value: "------abc123".to_string(),
    }];
    let r = validate_boundary(&media, &params);
    assert_eq!(r.unwrap(), "------abc123");
}

#[test]
fn boundary_first_of_several_wins() {
    let media = "multipart/form-data".to_string();
    let params = vec![
        Param {
            key: "charset".to_string(),
            value: "utf-8".to_string(),
        },
        Param {
            key: "boundary".to_string(),
            value: "first".to_string(),
        },
        Param {
            key: "boundary".to_string(),
            value: "second".to_string(),
        },
    ];
    let r = validate_boundary(&media, &params);
    assert_eq!(r.unwrap(), "first");
}

#[test]
fn json_content_type_rejected_with_400() {
    let media = "application/json".to_string();
    let params = vec![Param {
        key: "boundary".to_string(),
        value: "abc".to_string(),
    }];
    let e = validate_boundary(&media, &params).unwrap_err();
    assert_eq!(e, UploadError::UnsupportedMediaType);
    assert_eq!(e.status_code(), 400);
    assert_eq!(e.message(), "Content-Type not multipart/form-data");
}

#[test]
fn missing_boundary_rejected_with_400() {
    let media = "multipart/form-data".to_string();
    let params = vec![Param {
        key: "charset".to_string(),
        value: "utf-8".to_string(),
    }];
    let e = validate_boundary(&media, &params).unwrap_err();
    assert_eq!(e, UploadError::MissingBoundary);
    assert_eq!(e.status_code(), 400);
    assert_eq!(
        e.message(),
        "`Content-Type: multipart/form-data` boundary param not provided"
    );
}

#[test]
fn empty_boundary_value_rejected() {
    let media = "multipart/form-data".to_string();
    let params = vec![Param {
        key: "boundary".to_string(),
        value: String::new(),
    }];
    let e = validate_boundary(&media, &params).unwrap_err();
    assert_eq!(e, UploadError::MissingBoundary);
}

#[test]
fn no_params_at_all_rejected() {
    let media = "multipart/form-data".to_string();
    let e = validate_boundary(&media, &Vec::new()).unwrap_err();
    assert_eq!(e, UploadError::MissingBoundary);
}

#[test]
fn complete_file_part_is_registered() {
    let parts = vec![file_part("audio", Some("clip.wav"), "/tmp/spool0", 1024)];
    let reg = build_registry(&parts);
    assert_eq!(reg.len(), 1);
    let f = reg.get(0);
    assert_eq!(f.filename, "clip.wav");
    assert_eq!(f.temp_path, "/tmp/spool0");
    assert_eq!(f.size_bytes, 1024);
}

#[test]
fn part_at_exactly_the_limit_is_registered() {
    let parts = vec![file_part(
        "audio",
        Some("big.wav"),
        "/tmp/spool0",
        20 * 1024 * 1024,
    )];
    let reg = build_registry(&parts);
    assert_eq!(reg.len(), 1);
}

#[test]
fn oversize_part_is_never_registered() {
    let parts = vec![file_part(
        "audio",
        Some("huge.wav"),
        "/tmp/spool0",
        20 * 1024 * 1024 + 1,
    )];
    let reg = build_registry(&parts);
    assert_eq!(reg.len(), 0);
}

#[test]
fn partial_and_failed_parts_are_never_registered() {
    let parts = vec![
        Part {
            header: PartHeader {
                name: "audio".to_string(),
                filename: Some("cut.wav".to_string()),
            },
            outcome: SpoolOutcome::Partial {
                partial: None,
                reason: "size limit reached".to_string(),
            },
        },
        Part {
            header: PartHeader {
                name: "audio".to_string(),
                filename: Some("gone.wav".to_string()),
            },
            outcome: SpoolOutcome::Failed {
                cause: "client disconnected".to_string(),
            },
        },
    ];
    let reg = build_registry(&parts);
    assert_eq!(reg.len(), 0);
}

#[test]
fn none_filename_is_never_registered() {
    let parts = vec![file_part("audio", Some("None"), "/tmp/spool0", 64)];
    let reg = build_registry(&parts);
    assert_eq!(reg.len(), 0);
}

#[test]
fn missing_filename_is_never_registered() {
    let parts = vec![file_part("field", None, "/tmp/spool0", 64)];
    let reg = build_registry(&parts);
    assert_eq!(reg.len(), 0);
}

#[test]
fn inline_payloads_are_never_registered() {
    let parts = vec![
        Part {
            header: PartHeader {
                name: "comment".to_string(),
                filename: None,
            },
            outcome: SpoolOutcome::Complete(SpoolPayload::InlineText("hi".to_string())),
        },
        Part {
            header: PartHeader {
                name: "blob".to_string(),
                filename: Some("b.bin".to_string()),
            },
            outcome: SpoolOutcome::Complete(SpoolPayload::InlineBytes(vec![1, 2, 3])),
        },
    ];
    let reg = build_registry(&parts);
    assert_eq!(reg.len(), 0);
}

#[test]
fn duplicate_temp_path_is_registered_once() {
    let parts = vec![
        file_part("a", Some("one.wav"), "/tmp/spool0", 10),
        file_part("b", Some("two.wav"), "/tmp/spool0", 20),
    ];
    let reg = build_registry(&parts);
    assert_eq!(reg.len(), 1);
    assert_eq!(reg.get(0).filename, "one.wav");
}

#[test]
fn same_filename_different_paths_both_register() {
    let parts = vec![
        file_part("a", Some("clip.wav"), "/tmp/spool0", 10),
        file_part("b", Some("clip.wav"), "/tmp/spool1", 20),
    ];
    let reg = build_registry(&parts);
    assert_eq!(reg.len(), 2);
}

#[test]
fn output_path_appends_png_extension() {
    assert_eq!(output_path_for(&"clip.wav".to_string()), "/tmp/clip.wav.png");
    assert_eq!(output_path_for(&"song".to_string()), "/tmp/song.png");
}

#[test]
fn plan_follows_registry_order() {
    let parts = vec![
        file_part("a", Some("one.wav"), "/tmp/spool0", 10),
        file_part("b", Some("two.wav"), "/tmp/spool1", 20),
    ];
    let reg = build_registry(&parts);
    let plan = conversion_plan(&reg);
    assert_eq!(plan.len(), 2);
    assert_eq!(plan[0].source_path, "/tmp/spool0");
    assert_eq!(plan[0].output_path, "/tmp/one.wav.png");
    assert_eq!(plan[1].source_path, "/tmp/spool1");
    assert_eq!(plan[1].output_path, "/tmp/two.wav.png");
}

#[test]
fn recorded_outcomes_carry_path_or_cause() {
    let job = ConversionJob {
        source_path: "/tmp/spool0".to_string(),
        output_path: "/tmp/clip.wav.png".to_string(),
    };
    match record_outcome(&job, true, String::new()) {
        ConversionOutcome::Converted(p) => assert_eq!(p, "/tmp/clip.wav.png"),
        ConversionOutcome::Failed(_) => panic!("success must be recorded as Converted"),
    }
    match record_outcome(&job, false, "unreadable input".to_string()) {
        ConversionOutcome::Converted(_) => panic!("failure must be recorded as Failed"),
        ConversionOutcome::Failed(c) => assert_eq!(c, "unreadable input"),
    }
}

#[test]
fn first_success_wins_regardless_of_later_outcomes() {
    let results = vec![
        ConversionOutcome::Failed("corrupt".to_string()),
        ConversionOutcome::Converted("/tmp/clip.wav.png".to_string()),
        ConversionOutcome::Converted("/tmp/later.wav.png".to_string()),
        ConversionOutcome::Failed("also bad".to_string()),
    ];
    assert_eq!(select_artifact(&results).unwrap(), "/tmp/clip.wav.png");
}

#[test]
fn all_failures_yield_no_artifact_500() {
    let results = vec![
        ConversionOutcome::Failed("bad header".to_string()),
        ConversionOutcome::Failed("unsupported format".to_string()),
    ];
    let e = select_artifact(&results).unwrap_err();
    assert_eq!(e, UploadError::NoArtifact);
    assert_eq!(e.status_code(), 500);
    assert_eq!(e.message(), "No files were converted.");
}

#[test]
fn empty_results_yield_no_artifact() {
    let e = select_artifact(&Vec::new()).unwrap_err();
    assert_eq!(e, UploadError::NoArtifact);
}

#[test]
fn single_audio_upload_ends_in_its_artifact() {
    let media = "multipart/form-data".to_string();
    let params = vec![Param {
        key: "boundary".to_string(),
        value: "xyz".to_string(),
    }];
    let boundary = validate_boundary(&media, &params).unwrap();
    assert_eq!(boundary, "xyz");

    let parts = vec![file_part("audio", Some("clip.wav"), "/tmp/spool0", 44100)];
    let reg = build_registry(&parts);
    assert_eq!(reg.len(), 1);

    let plan = conversion_plan(&reg);
    let results = vec![record_outcome(&plan[0], true, String::new())];
    assert_eq!(select_artifact(&results).unwrap(), "/tmp/clip.wav.png");
}

#[test]
fn corrupt_first_file_falls_through_to_second() {
    let parts = vec![
        file_part("a", Some("corrupt.wav"), "/tmp/spool0", 100),
        file_part("b", Some("clip.wav"), "/tmp/spool1", 200),
    ];
    let reg = build_registry(&parts);
    assert_eq!(reg.len(), 2);

    let plan = conversion_plan(&reg);
    let results = vec![
        record_outcome(&plan[0], false, "decode error".to_string()),
        record_outcome(&plan[1], true, String::new()),
    ];
    assert_eq!(select_artifact(&results).unwrap(), "/tmp/clip.wav.png");
}

#[test]
fn identical_request_twice_selects_identical_artifact() {
    let run = || -> String {
        let parts = vec![file_part("audio", Some("clip.wav"), "/tmp/spool0", 321)];
        let reg = build_registry(&parts);
        let plan = conversion_plan(&reg);
        let results = vec![record_outcome(&plan[0], true, String::new())];
        select_artifact(&results).unwrap()
    };
    assert_eq!(run(), run());
}

#[test]
fn registry_empty_after_no_parts() {
    let reg: UploadRegistry = build_registry(&Vec::new());
    assert_eq!(reg.len(), 0);
}
