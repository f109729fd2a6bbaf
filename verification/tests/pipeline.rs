use hurl_core::parser::parse_hurl_file;
use hurlfmt_pipeline::config::{
    Config, ConfigError, Destination, Input, InputFormat, OutputFormat,
};
use hurlfmt_pipeline::outcome::Outcome;
use hurlfmt_pipeline::pipeline::Pipeline;
use hurlfmt_pipeline::protocol::{Finding, Pos, Reply, Report, Request};

fn file(name: &str) -> Input {
    Input::File(name.to_string())
}

fn config(inputs: Vec<Input>) -> Config {
    Config {
        inputs,
        input_format: InputFormat::Hurl,
        check: false,
        output_format: OutputFormat::Hurl,
        standalone: false,
        destination: Destination::Combined(None),
        color: false,
    }
}

fn finding(line: usize, message: &str) -> Finding {
    Finding {
        start: Pos { line, column: 1 },
        end: Pos { line, column: 4 },
        message: message.to_string(),
    }
}

/// Runs the pipeline to its end with a driver that answers each request
/// through `respond`, and returns every request the driver saw.
fn drive(config: Config, mut respond: impl FnMut(&Request) -> Reply) -> Vec<Request> {
    let (mut pipeline, mut request) = Pipeline::start(config).unwrap();
    let mut seen = Vec::new();
    loop {
        if let Request::Finish { outcome, .. } = &request {
            assert_eq!(pipeline.outcome(), Some(*outcome));
            seen.push(request);
            return seen;
        }
        assert_eq!(pipeline.outcome(), None);
        let reply = respond(&request);
        seen.push(request);
        let (next, following) = pipeline.advance(reply);
        pipeline = next;
        request = following.expect("the reply answers the request");
    }
}

/// A driver for inputs that hold one request each: reading yields a GET of
/// the input's own name, parsing is that of `hurl_core`, rendering yields
/// the name in brackets.
fn respond_by_name(request: &Request) -> Reply {
    match request {
        Request::Read { input: Input::File(name) } => {
            Reply::Source(Ok(format!("GET http://{name}\n")))
        }
        Request::Read { input: Input::Stdin } => Reply::Source(Ok("GET http://stdin\n".to_string())),
        Request::Parse { text } => Reply::Parsed(parse_hurl_file(text)),
        Request::Canonicalize { document } => Reply::Canonical(document.clone()),
        Request::ToHurl { document, .. } | Request::ToJson { document } => {
            Reply::Rendered(format!("[{}]", document.entries[0].request.url.to_string()))
        }
        Request::Lint { .. } => Reply::Findings(vec![]),
        Request::Write { .. } => Reply::Written(Ok(())),
        other => panic!("unexpected request: {:?}", other),
    }
}

#[test]
fn second_input_is_never_read_after_a_parse_failure() {
    let inputs = vec![file("a.hurl"), file("b.hurl")];
    let (pipeline, request) = Pipeline::start(config(inputs)).unwrap();
    assert_eq!(request, Request::Read { input: file("a.hurl") });
    let (pipeline, request) = pipeline.advance(Reply::Source(Ok("GET\n".to_string())));
    assert_eq!(request, Some(Request::Parse { text: "GET\n".to_string() }));
    let (pipeline, request) = pipeline.advance(Reply::Parsed(parse_hurl_file("GET\n")));
    match request {
        Some(Request::Finish { outcome, report: Report::Syntax { input, text, .. } }) => {
            assert_eq!(outcome, Outcome::InvalidInput);
            assert_eq!(outcome.exit_code(), 2);
            assert_eq!(input, file("a.hurl"));
            assert_eq!(text, "GET\n");
        }
        other => panic!("unexpected request: {:?}", other),
    }
    assert_eq!(pipeline.outcome(), Some(Outcome::InvalidInput));
    assert_eq!(pipeline.position(), 0);
    let (pipeline, request) =
        pipeline.advance(Reply::Source(Ok("GET http://localhost\n".to_string())));
    assert_eq!(request, None);
    assert_eq!(pipeline.outcome(), Some(Outcome::InvalidInput));
}

#[test]
fn driver_sees_no_read_after_the_failing_input() {
    let inputs = vec![file("a.hurl"), file("b.hurl"), file("c.hurl")];
    let seen = drive(config(inputs), |request| match request {
        Request::Read { input } if *input == file("b.hurl") => {
            Reply::Source(Ok("this is no hurl file".to_string()))
        }
        other => respond_by_name(other),
    });
    let reads: Vec<&Request> =
        seen.iter().filter(|request| matches!(request, Request::Read { .. })).collect();
    assert_eq!(
        reads,
        vec![&Request::Read { input: file("a.hurl") }, &Request::Read { input: file("b.hurl") }]
    );
    assert!(!seen.iter().any(|request| matches!(request, Request::Write { .. })));
    match seen.last() {
        Some(Request::Finish { outcome: Outcome::InvalidInput, report: Report::Syntax { input, text, .. } }) => {
            assert_eq!(*input, file("b.hurl"));
            assert_eq!(text, "this is no hurl file");
        }
        other => panic!("unexpected end: {:?}", other),
    }
}

#[test]
fn check_never_asks_for_json_or_html() {
    for output_format in [OutputFormat::Json, OutputFormat::Html, OutputFormat::Hurl] {
        let mut settings = config(vec![file("a.hurl")]);
        settings.check = true;
        settings.output_format = output_format;
        settings.standalone = true;
        let seen = drive(settings, respond_by_name);
        assert_eq!(seen.len(), 4);
        assert_eq!(seen[0], Request::Read { input: file("a.hurl") });
        assert_eq!(seen[1], Request::Parse { text: "GET http://a.hurl\n".to_string() });
        assert!(matches!(seen[2], Request::Lint { .. }));
        assert_eq!(
            seen[3],
            Request::Finish {
                outcome: Outcome::AllOk,
                report: Report::Lint {
                    input: file("a.hurl"),
                    text: "GET http://a.hurl\n".to_string(),
                    findings: vec![],
                },
            }
        );
    }
}

#[test]
fn clean_check_exits_zero_without_warnings() {
    let mut settings = config(vec![file("a.hurl")]);
    settings.check = true;
    let seen = drive(settings, respond_by_name);
    match seen.last() {
        Some(Request::Finish { outcome, report: Report::Lint { findings, .. } }) => {
            assert_eq!(outcome.exit_code(), 0);
            assert!(findings.is_empty());
        }
        other => panic!("unexpected end: {:?}", other),
    }
}

#[test]
fn check_with_findings_exits_three_and_reports_each_once() {
    let mut settings = config(vec![file("a.hurl"), file("b.hurl")]);
    settings.check = true;
    let seen = drive(settings, |request| match request {
        Request::Lint { .. } => {
            Reply::Findings(vec![finding(1, "one space"), finding(3, "unnecessary space")])
        }
        other => respond_by_name(other),
    });
    assert_eq!(
        seen.last(),
        Some(&Request::Finish {
            outcome: Outcome::LintIssuesFound,
            report: Report::Lint {
                input: file("a.hurl"),
                text: "GET http://a.hurl\n".to_string(),
                findings: vec![finding(1, "one space"), finding(3, "unnecessary space")],
            },
        })
    );
    assert_eq!(Outcome::LintIssuesFound.exit_code(), 3);
}

#[test]
fn check_ends_with_the_first_input() {
    let mut settings = config(vec![file("a.hurl"), file("b.hurl")]);
    settings.check = true;
    let seen = drive(settings, respond_by_name);
    let reads = seen.iter().filter(|request| matches!(request, Request::Read { .. })).count();
    assert_eq!(reads, 1);
    assert!(!seen.iter().any(|request| matches!(request, Request::Write { .. })));
}

#[test]
fn combined_output_is_written_once_to_stdout_in_input_order() {
    let inputs = vec![file("a"), file("b"), file("c")];
    let seen = drive(config(inputs), respond_by_name);
    let writes: Vec<&Request> =
        seen.iter().filter(|request| matches!(request, Request::Write { .. })).collect();
    assert_eq!(
        writes,
        vec![&Request::Write { target: None, content: "[http://a][http://b][http://c]\n".to_string() }]
    );
    assert_eq!(
        seen.last(),
        Some(&Request::Finish { outcome: Outcome::AllOk, report: Report::Nothing })
    );
    assert_eq!(seen.len(), 3 * 4 + 1 + 1);
    assert!(matches!(seen[seen.len() - 2], Request::Write { .. }));
}

#[test]
fn combined_output_goes_to_the_configured_file() {
    let mut settings = config(vec![file("a"), file("b")]);
    settings.destination = Destination::Combined(Some("out.hurl".to_string()));
    let seen = drive(settings, |request| match request {
        Request::ToHurl { document, .. } => {
            Reply::Rendered(format!("{}\n", document.entries[0].request.url.to_string()))
        }
        other => respond_by_name(other),
    });
    let writes: Vec<&Request> =
        seen.iter().filter(|request| matches!(request, Request::Write { .. })).collect();
    assert_eq!(
        writes,
        vec![&Request::Write {
            target: Some("out.hurl".to_string()),
            content: "http://a\nhttp://b\n".to_string(),
        }]
    );
}

#[test]
fn in_place_writes_each_input_to_its_own_path() {
    let mut settings = config(vec![file("x/a.hurl"), file("b.hurl")]);
    settings.destination = Destination::InPlace;
    let seen = drive(settings, respond_by_name);
    assert_eq!(seen.len(), 11);
    assert_eq!(seen[0], Request::Read { input: file("x/a.hurl") });
    assert_eq!(seen[1], Request::Parse { text: "GET http://x/a.hurl\n".to_string() });
    assert!(matches!(seen[2], Request::Canonicalize { .. }));
    assert!(matches!(seen[3], Request::ToHurl { color: false, .. }));
    assert_eq!(
        seen[4],
        Request::Write {
            target: Some("x/a.hurl".to_string()),
            content: "[http://x/a.hurl]\n".to_string(),
        }
    );
    assert_eq!(seen[5], Request::Read { input: file("b.hurl") });
    assert_eq!(seen[6], Request::Parse { text: "GET http://b.hurl\n".to_string() });
    assert!(matches!(seen[7], Request::Canonicalize { .. }));
    assert!(matches!(seen[8], Request::ToHurl { color: false, .. }));
    assert_eq!(
        seen[9],
        Request::Write {
            target: Some("b.hurl".to_string()),
            content: "[http://b.hurl]\n".to_string(),
        }
    );
    assert_eq!(seen[10], Request::Finish { outcome: Outcome::AllOk, report: Report::Nothing });
}

#[test]
fn rendering_that_ends_with_a_terminator_is_written_as_it_is() {
    let mut settings = config(vec![file("a.hurl")]);
    settings.destination = Destination::InPlace;
    let seen = drive(settings, |request| match request {
        Request::ToHurl { .. } => Reply::Rendered("GET http://a.hurl\n".to_string()),
        other => respond_by_name(other),
    });
    assert_eq!(
        seen[4],
        Request::Write {
            target: Some("a.hurl".to_string()),
            content: "GET http://a.hurl\n".to_string(),
        }
    );
}

#[test]
fn no_inputs_write_a_single_terminator() {
    let seen = drive(config(vec![]), respond_by_name);
    assert_eq!(
        seen,
        vec![
            Request::Write { target: None, content: "\n".to_string() },
            Request::Finish { outcome: Outcome::AllOk, report: Report::Nothing },
        ]
    );
}

#[test]
fn no_inputs_in_place_end_at_once() {
    let mut settings = config(vec![]);
    settings.destination = Destination::InPlace;
    let (pipeline, request) = Pipeline::start(settings).unwrap();
    assert_eq!(request, Request::Finish { outcome: Outcome::AllOk, report: Report::Nothing });
    assert_eq!(pipeline.outcome(), Some(Outcome::AllOk));
}

#[test]
fn configuration_that_cannot_run_is_refused_at_start() {
    let mut settings = config(vec![Input::Stdin]);
    settings.destination = Destination::InPlace;
    assert_eq!(Pipeline::start(settings).err(), Some(ConfigError::InPlaceStdin));
    let mut settings = config(vec![file("a.hurl")]);
    settings.destination = Destination::InPlace;
    settings.check = true;
    assert_eq!(Pipeline::start(settings).err(), Some(ConfigError::InPlaceCheck));
    let mut settings = config(vec![file("a.hurl")]);
    settings.destination = Destination::InPlace;
    settings.output_format = OutputFormat::Html;
    assert_eq!(Pipeline::start(settings).err(), Some(ConfigError::InPlaceFormat));
}

#[test]
fn unreadable_input_ends_the_run_as_invalid_input() {
    let inputs = vec![file("a.hurl"), file("missing.hurl"), file("c.hurl")];
    let seen = drive(config(inputs), |request| match request {
        Request::Read { input } if *input == file("missing.hurl") => {
            Reply::Source(Err("No such file or directory".to_string()))
        }
        other => respond_by_name(other),
    });
    assert_eq!(
        seen.last(),
        Some(&Request::Finish {
            outcome: Outcome::InvalidInput,
            report: Report::Unreadable {
                input: file("missing.hurl"),
                reason: "No such file or directory".to_string(),
            },
        })
    );
    assert!(!seen.contains(&Request::Read { input: file("c.hurl") }));
    assert!(!seen.iter().any(|request| matches!(request, Request::Write { .. })));
}

#[test]
fn curl_input_is_adapted_before_parsing() {
    let mut settings = config(vec![Input::Stdin]);
    settings.input_format = InputFormat::Curl;
    let seen = drive(settings, |request| match request {
        Request::Read { .. } => Reply::Source(Ok("curl http://localhost:8000/hello".to_string())),
        Request::Adapt { text } => {
            assert_eq!(text, "curl http://localhost:8000/hello");
            Reply::Adapted(Ok("GET http://localhost:8000/hello\n".to_string()))
        }
        other => respond_by_name(other),
    });
    assert_eq!(seen.len(), 7);
    assert!(matches!(seen[1], Request::Adapt { .. }));
    assert_eq!(seen[2], Request::Parse { text: "GET http://localhost:8000/hello\n".to_string() });
    assert!(matches!(seen[3], Request::Canonicalize { .. }));
    assert!(matches!(seen[4], Request::ToHurl { .. }));
    assert_eq!(
        seen[5],
        Request::Write { target: None, content: "[http://localhost:8000/hello]\n".to_string() }
    );
}

#[test]
fn hurl_input_is_not_adapted() {
    let seen = drive(config(vec![file("a.hurl")]), respond_by_name);
    assert!(!seen.iter().any(|request| matches!(request, Request::Adapt { .. })));
}

#[test]
fn malformed_curl_ends_the_run_as_invalid_input() {
    let mut settings = config(vec![file("a.curl"), file("b.curl")]);
    settings.input_format = InputFormat::Curl;
    let seen = drive(settings, |request| match request {
        Request::Read { .. } => Reply::Source(Ok("curl --frobnicate".to_string())),
        Request::Adapt { .. } => Reply::Adapted(Err("unexpected argument".to_string())),
        other => respond_by_name(other),
    });
    assert_eq!(
        seen,
        vec![
            Request::Read { input: file("a.curl") },
            Request::Adapt { text: "curl --frobnicate".to_string() },
            Request::Finish {
                outcome: Outcome::InvalidInput,
                report: Report::Malformed { reason: "unexpected argument".to_string() },
            },
        ]
    );
}

#[test]
fn syntax_error_after_adapting_refers_to_the_adapted_text() {
    for check in [false, true] {
        let mut settings = config(vec![file("a.curl")]);
        settings.input_format = InputFormat::Curl;
        settings.check = check;
        let seen = drive(settings, |request| match request {
            Request::Read { .. } => Reply::Source(Ok("curl http://localhost".to_string())),
            Request::Adapt { .. } => Reply::Adapted(Ok("GET\n".to_string())),
            other => respond_by_name(other),
        });
        match seen.last() {
            Some(Request::Finish { outcome, report: Report::Syntax { input, text, .. } }) => {
                assert_eq!(outcome.exit_code(), 2);
                assert_eq!(*input, file("a.curl"));
                assert_eq!(text, "GET\n");
            }
            other => panic!("unexpected end: {:?}", other),
        }
    }
}

#[test]
fn syntax_error_exits_two_in_check_and_in_transform() {
    for check in [false, true] {
        for output_format in [OutputFormat::Hurl, OutputFormat::Json, OutputFormat::Html] {
            let mut settings = config(vec![file("a.hurl")]);
            settings.check = check;
            settings.output_format = output_format;
            let seen = drive(settings, |request| match request {
                Request::Read { .. } => Reply::Source(Ok("GET http://localhost\nHTTP 2xx\n".to_string())),
                other => respond_by_name(other),
            });
            assert_eq!(seen.len(), 3);
            assert!(matches!(seen[1], Request::Parse { .. }));
            match &seen[2] {
                Request::Finish { outcome, report: Report::Syntax { text, error, .. } } => {
                    assert_eq!(*outcome, Outcome::InvalidInput);
                    assert_eq!(outcome.exit_code(), 2);
                    assert_eq!(text, "GET http://localhost\nHTTP 2xx\n");
                    assert_eq!(error.pos.line, 2);
                }
                other => panic!("unexpected end: {:?}", other),
            }
        }
    }
}

#[test]
fn failed_write_in_place_ends_the_run_as_generic_error() {
    let mut settings = config(vec![file("a.hurl"), file("b.hurl")]);
    settings.destination = Destination::InPlace;
    let seen = drive(settings, |request| match request {
        Request::Write { .. } => Reply::Written(Err("Permission denied".to_string())),
        other => respond_by_name(other),
    });
    assert_eq!(seen.len(), 6);
    assert_eq!(
        seen[5],
        Request::Finish {
            outcome: Outcome::GenericError,
            report: Report::Unwritable {
                target: Some("a.hurl".to_string()),
                reason: "Permission denied".to_string(),
            },
        }
    );
    assert_eq!(Outcome::GenericError.exit_code(), 1);
}

#[test]
fn failed_combined_write_ends_the_run_as_generic_error() {
    let mut settings = config(vec![file("a.hurl")]);
    settings.destination = Destination::Combined(Some("/no/such/dir/out".to_string()));
    let seen = drive(settings, |request| match request {
        Request::Write { .. } => Reply::Written(Err("No such file or directory".to_string())),
        other => respond_by_name(other),
    });
    assert_eq!(
        seen.last(),
        Some(&Request::Finish {
            outcome: Outcome::GenericError,
            report: Report::Unwritable {
                target: Some("/no/such/dir/out".to_string()),
                reason: "No such file or directory".to_string(),
            },
        })
    );
}

#[test]
fn json_is_asked_for_the_document_as_parsed() {
    let mut settings = config(vec![file("a.hurl")]);
    settings.output_format = OutputFormat::Json;
    let seen = drive(settings, respond_by_name);
    match &seen[2] {
        Request::ToJson { document } => {
            assert_eq!(document.entries.len(), 1);
            assert_eq!(document.entries[0].request.url.to_string(), "http://a.hurl");
        }
        other => panic!("unexpected request: {:?}", other),
    }
}

#[test]
fn hurl_rendering_carries_the_color_preference() {
    for color in [false, true] {
        let mut settings = config(vec![file("a.hurl")]);
        settings.color = color;
        let seen = drive(settings, respond_by_name);
        match &seen[3] {
            Request::ToHurl { color: asked, .. } => assert_eq!(*asked, color),
            other => panic!("unexpected request: {:?}", other),
        }
    }
}

#[test]
fn hurl_text_is_rendered_from_the_canonical_document() {
    let canonical = parse_hurl_file("GET http://canonical\n").unwrap();
    let seen = drive(config(vec![file("a.hurl")]), |request| match request {
        Request::Canonicalize { .. } => Reply::Canonical(canonical.clone()),
        other => respond_by_name(other),
    });
    match &seen[2] {
        Request::Canonicalize { document } => {
            assert_eq!(document.entries[0].request.url.to_string(), "http://a.hurl");
        }
        other => panic!("unexpected request: {:?}", other),
    }
    assert_eq!(seen[3], Request::ToHurl { document: canonical.clone(), color: false });
    assert_eq!(
        seen[4],
        Request::Write { target: None, content: "[http://canonical]\n".to_string() }
    );
}

#[test]
fn json_and_html_are_rendered_without_canonicalizing() {
    for output_format in [OutputFormat::Json, OutputFormat::Html] {
        let mut settings = config(vec![file("a.hurl"), file("b.hurl")]);
        settings.output_format = output_format;
        let seen = drive(settings, respond_by_name);
        assert!(!seen.iter().any(|request| matches!(request, Request::Canonicalize { .. })));
        assert!(!seen.iter().any(|request| matches!(request, Request::ToHurl { .. })));
    }
}

#[test]
fn each_report_calls_for_its_outcome() {
    let error = parse_hurl_file("GET\n").unwrap_err();
    assert_eq!(Report::Nothing.outcome(), Outcome::AllOk);
    assert_eq!(
        Report::Unreadable { input: Input::Stdin, reason: "gone".to_string() }.outcome(),
        Outcome::InvalidInput
    );
    assert_eq!(
        Report::Malformed { reason: "no curl".to_string() }.outcome(),
        Outcome::InvalidInput
    );
    assert_eq!(
        Report::Syntax { input: Input::Stdin, text: "GET\n".to_string(), error }.outcome(),
        Outcome::InvalidInput
    );
    assert_eq!(
        Report::Lint { input: Input::Stdin, text: String::new(), findings: vec![] }.outcome(),
        Outcome::AllOk
    );
    assert_eq!(
        Report::Lint {
            input: Input::Stdin,
            text: String::new(),
            findings: vec![finding(1, "one space")],
        }
        .outcome(),
        Outcome::LintIssuesFound
    );
    assert_eq!(
        Report::Unwritable { target: None, reason: "closed".to_string() }.outcome(),
        Outcome::GenericError
    );
}

#[test]
fn finish_carries_the_outcome_of_its_report() {
    let mut settings = config(vec![file("a.hurl")]);
    settings.check = true;
    let seen = drive(settings, |request| match request {
        Request::Lint { .. } => Reply::Findings(vec![finding(2, "unnecessary space")]),
        other => respond_by_name(other),
    });
    match seen.last() {
        Some(Request::Finish { outcome, report }) => assert_eq!(*outcome, report.outcome()),
        other => panic!("unexpected end: {:?}", other),
    }
}

#[test]
fn reply_of_the_wrong_kind_is_passed_over() {
    let (pipeline, _) = Pipeline::start(config(vec![file("a.hurl")])).unwrap();
    let (pipeline, request) = pipeline.step(Reply::Rendered("x".to_string()));
    assert_eq!(request, None);
    let (pipeline, request) = pipeline.step(Reply::Written(Ok(())));
    assert_eq!(request, None);
    let (pipeline, request) = pipeline.step(Reply::Findings(vec![]));
    assert_eq!(request, None);
    let (pipeline, request) = pipeline.step(Reply::Adapted(Ok("GET http://a\n".to_string())));
    assert_eq!(request, None);
    assert_eq!(pipeline.position(), 0);
    assert_eq!(pipeline.outcome(), None);
    let (_, request) = pipeline.step(Reply::Source(Ok("GET http://a\n".to_string())));
    assert_eq!(request, Some(Request::Parse { text: "GET http://a\n".to_string() }));
}

#[test]
fn finished_run_takes_no_reply() {
    let (pipeline, _) = Pipeline::start(config(vec![file("a.hurl")])).unwrap();
    let (pipeline, request) = pipeline.step(Reply::Source(Err("gone".to_string())));
    assert!(matches!(request, Some(Request::Finish { outcome: Outcome::InvalidInput, .. })));
    let (pipeline, request) = pipeline.step(Reply::Source(Ok("GET http://a\n".to_string())));
    assert_eq!(request, None);
    let (pipeline, request) = pipeline.advance(Reply::Written(Ok(())));
    assert_eq!(request, None);
    assert_eq!(pipeline.outcome(), Some(Outcome::InvalidInput));
}

#[test]
fn position_counts_the_inputs_that_are_done() {
    let (pipeline, _) = Pipeline::start(config(vec![file("a"), file("b")])).unwrap();
    assert_eq!(pipeline.position(), 0);
    assert_eq!(pipeline.config().inputs.len(), 2);
    let document = parse_hurl_file("GET http://a\n").unwrap();
    let (pipeline, _) = pipeline.advance(Reply::Source(Ok("GET http://a\n".to_string())));
    assert_eq!(pipeline.position(), 0);
    let (pipeline, _) = pipeline.advance(Reply::Parsed(Ok(document.clone())));
    let (pipeline, _) = pipeline.advance(Reply::Canonical(document.clone()));
    let (pipeline, request) = pipeline.advance(Reply::Rendered("A".to_string()));
    assert_eq!(request, Some(Request::Read { input: file("b") }));
    assert_eq!(pipeline.position(), 1);
    let (pipeline, _) = pipeline.advance(Reply::Source(Ok("GET http://b\n".to_string())));
    let (pipeline, _) = pipeline.advance(Reply::Parsed(Ok(document.clone())));
    let (pipeline, _) = pipeline.advance(Reply::Canonical(document));
    let (pipeline, request) = pipeline.advance(Reply::Rendered("B\n".to_string()));
    assert_eq!(request, Some(Request::Write { target: None, content: "AB\n".to_string() }));
    assert_eq!(pipeline.position(), 2);
    let (pipeline, request) = pipeline.advance(Reply::Written(Ok(())));
    assert_eq!(request, Some(Request::Finish { outcome: Outcome::AllOk, report: Report::Nothing }));
    assert_eq!(pipeline.position(), 2);
}

#[test]
fn parsing_is_asked_of_the_driver_with_the_text_to_parse() {
    let (pipeline, _) = Pipeline::start(config(vec![file("a.hurl")])).unwrap();
    let (pipeline, request) =
        pipeline.advance(Reply::Source(Ok("GET http://a.hurl\n".to_string())));
    assert_eq!(request, Some(Request::Parse { text: "GET http://a.hurl\n".to_string() }));
    let document = parse_hurl_file("GET http://elsewhere\n").unwrap();
    let (_, request) = pipeline.advance(Reply::Parsed(Ok(document.clone())));
    assert_eq!(request, Some(Request::Canonicalize { document }));
}

#[test]
fn refused_configuration_is_a_generic_error() {
    for error in
        [ConfigError::InPlaceCheck, ConfigError::InPlaceFormat, ConfigError::InPlaceStdin]
    {
        assert_eq!(error.outcome(), Outcome::GenericError);
        assert_eq!(error.outcome().exit_code(), 1);
    }
}
