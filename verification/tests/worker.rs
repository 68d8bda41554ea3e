use typst_scan::config::ClipboardMode;
use typst_scan::config::ConfigSnapshot;
use typst_scan::config::ReplaceRule;
use typst_scan::convert::convert_or_empty;
use typst_scan::delivery::DeliveryAction;
use typst_scan::delivery::decide_delivery;
use typst_scan::request::bearer_header;
use typst_scan::request::options_payload;
use typst_scan::task::MathpixResult;
use typst_scan::task::SnipTask;
use typst_scan::task::Transcription;
use typst_scan::task::TranscriptionError;
use typst_scan::task::WorkerInput;
use typst_scan::task::run_task;

fn snapshot(key: &str, rules: Vec<ReplaceRule>, mode: ClipboardMode) -> ConfigSnapshot {
    ConfigSnapshot { mathpix_api_key: key.to_string(), replace_rules: rules, clipboard_mode: mode }
}

/// The converter as the application boundary runs it: the converted text,
/// or nothing on failure.
fn convert(text: &str) -> Option<String> {
    tex2typst_rs::text_and_tex2typst(text).ok()
}

fn response(text: &str) -> MathpixResult {
    MathpixResult {
        text: text.to_string(),
        latex: None,
        title: "a snip".to_string(),
        original_image_url: "https://example.invalid/o.png".to_string(),
        rendered_image_url: "https://example.invalid/r.png".to_string(),
        snip_count: 5,
        snip_limit: 60000,
    }
}

fn transcribed(text: &str) -> Transcription {
    let conversion = convert(text);
    Transcription { response: response(text), conversion }
}

#[test]
fn cancelled_capture_emits_nothing() {
    let snap = snapshot("k1", Vec::new(), ClipboardMode::CopyTypst);
    let out = run_task(1, WorkerInput::CaptureCancelled, &snap);
    assert!(out.is_none());
}

#[test]
fn network_error_emits_nothing() {
    let snap = snapshot("k1", Vec::new(), ClipboardMode::CopyTypst);
    let input = WorkerInput::Captured {
        path: "/tmp/shot.png".to_string(),
        transcription: Err(TranscriptionError::Network),
    };
    assert!(run_task(1, input, &snap).is_none());
}

#[test]
fn malformed_response_emits_nothing() {
    let snap = snapshot("k1", Vec::new(), ClipboardMode::CopyTypst);
    let input = WorkerInput::Captured {
        path: "/tmp/shot.png".to_string(),
        transcription: Err(TranscriptionError::Malformed),
    };
    assert!(run_task(1, input, &snap).is_none());
}

#[test]
fn completed_task_applies_rule_and_copies_converted() {
    let rules = vec![ReplaceRule { pattern: "x".to_string(), replacement: "y".to_string() }];
    let snap = snapshot("k1", rules, ClipboardMode::CopyTypst);
    let input = WorkerInput::Captured {
        path: "/tmp/shot.png".to_string(),
        transcription: Ok(transcribed("x^2")),
    };
    let (result, action) = run_task(9, input, &snap).expect("one result owed");
    assert_eq!(result.id, 9);
    assert_eq!(result.text.as_str(), "x^2");
    assert_eq!(result.typst.as_str(), "y^2");
    assert_eq!(result.title.as_str(), "a snip");
    assert_eq!(result.local_image.as_str(), "/tmp/shot.png");
    assert_eq!(result.snip_count, 5);
    assert_eq!(result.snip_limit, 60000);
    match action {
        DeliveryAction::Write(s) => assert_eq!(s.as_str(), "y^2"),
        DeliveryAction::NoWrite => panic!("CopyTypst owes a clipboard write"),
    }
}

#[test]
fn copy_tex_mode_writes_untransformed_source() {
    let rules = vec![ReplaceRule { pattern: "x".to_string(), replacement: "y".to_string() }];
    let snap = snapshot("k1", rules, ClipboardMode::CopyTeX);
    let input = WorkerInput::Captured {
        path: "/tmp/shot.png".to_string(),
        transcription: Ok(transcribed("x^2")),
    };
    let (result, action) = run_task(2, input, &snap).expect("one result owed");
    assert_eq!(result.text.as_str(), "x^2");
    assert_eq!(result.typst.as_str(), "y^2");
    match action {
        DeliveryAction::Write(s) => assert_eq!(s.as_str(), "x^2"),
        DeliveryAction::NoWrite => panic!("CopyTeX owes a clipboard write"),
    }
}

#[test]
fn continuous_mode_defers_delivery() {
    let snap = snapshot("k1", Vec::new(), ClipboardMode::Continuous);
    let input = WorkerInput::Captured {
        path: "/tmp/shot.png".to_string(),
        transcription: Ok(transcribed("plain")),
    };
    let (_, action) = run_task(3, input, &snap).expect("one result owed");
    assert!(matches!(action, DeliveryAction::NoWrite));
}

#[test]
fn emitted_results_equal_captures_minus_cancellations() {
    let snap = snapshot("k1", Vec::new(), ClipboardMode::Continuous);
    let inputs = vec![
        WorkerInput::Captured {
            path: "/tmp/a.png".to_string(),
            transcription: Ok(transcribed("one")),
        },
        WorkerInput::CaptureCancelled,
        WorkerInput::Captured {
            path: "/tmp/b.png".to_string(),
            transcription: Ok(transcribed("two")),
        },
        WorkerInput::CaptureCancelled,
        WorkerInput::Captured {
            path: "/tmp/c.png".to_string(),
            transcription: Ok(transcribed("three")),
        },
    ];
    let total = inputs.len();
    let mut cancelled = 0;
    let mut emitted = 0;
    for (i, input) in inputs.into_iter().enumerate() {
        if matches!(input, WorkerInput::CaptureCancelled) {
            cancelled += 1;
        }
        if run_task(i as u128, input, &snap).is_some() {
            emitted += 1;
        }
    }
    assert_eq!(emitted, total - cancelled);
}

#[test]
fn delivery_decision_per_mode() {
    let tex = "s".to_string();
    let typst = "t".to_string();
    assert!(matches!(
        decide_delivery(ClipboardMode::Continuous, &tex, &typst),
        DeliveryAction::NoWrite
    ));
    match decide_delivery(ClipboardMode::CopyTeX, &tex, &typst) {
        DeliveryAction::Write(s) => assert_eq!(s.as_str(), "s"),
        DeliveryAction::NoWrite => panic!("CopyTeX owes a write"),
    }
    match decide_delivery(ClipboardMode::CopyTypst, &tex, &typst) {
        DeliveryAction::Write(s) => assert_eq!(s.as_str(), "t"),
        DeliveryAction::NoWrite => panic!("CopyTypst owes a write"),
    }
}

#[test]
fn conversion_rewrites_inline_math() {
    let converted = convert_or_empty(convert("\\(\\alpha\\)"));
    assert_eq!(converted.as_str(), "$alpha$");
}

#[test]
fn conversion_failure_degrades_to_empty_text() {
    assert!(convert("\\(\\frac{\\)").is_none());
    let converted = convert_or_empty(convert("\\(\\frac{\\)"));
    assert_eq!(converted.as_str(), "");
}

#[test]
fn missing_conversion_degrades_to_empty_text() {
    let converted = convert_or_empty(None);
    assert_eq!(converted.as_str(), "");
}

#[test]
fn conversion_passes_plain_text_through() {
    let converted = convert_or_empty(convert("no math here"));
    assert_eq!(converted.as_str(), "no math here");
}

#[test]
fn bearer_header_prefixes_credential() {
    let h = bearer_header("k1");
    assert_eq!(h.as_str(), "Bearer k1");
}

#[test]
fn options_payload_is_fixed_valid_json() {
    let payload = options_payload();
    let value: serde_json::Value =
        serde_json::from_str(payload.as_str()).expect("the options part is well-formed JSON");
    assert_eq!(value["config"]["ocr_version"], serde_json::Value::from(2));
    assert_eq!(value["config"]["mmd_version"], serde_json::Value::from("1.3.0"));
    assert_eq!(value["metadata"]["input_type"], serde_json::Value::from("crop"));
    let delimiters = value["config"]["math_inline_delimiters"]
        .as_array()
        .expect("inline delimiters are a pair");
    assert_eq!(delimiters[0], serde_json::Value::from("\\("));
    assert_eq!(delimiters[1], serde_json::Value::from("\\)"));
}

#[test]
fn each_task_gets_its_own_identifier() {
    let a = SnipTask::new();
    let b = SnipTask::new();
    assert_ne!(a.id, b.id);
}
