use pastewatch::config::{Config, Group, KeywordRule, Message, PasteSite, RegexRule};
use pastewatch::pipeline::{
    pipeline_image_reply, pipeline_ocr_reply, pipeline_paste_reply, BytesResponse, Handler,
    MessageError, Step, TextResponse,
};
use pastewatch::rules::RuleKind;

fn keyword_rule(keyword: &str, response: &str) -> KeywordRule {
    KeywordRule {
        keyword: keyword.to_string(),
        reaction: None,
        response: response.to_string(),
    }
}

fn test_config() -> Config {
    Config {
        groups: vec![
            Group {
                channels: vec!["general".to_string(), "support".to_string()],
                regex: vec![RegexRule {
                    pattern: "panic".to_string(),
                    reaction: None,
                    response: "saw a panic".to_string(),
                }],
                keywords: vec![keyword_rule("error", "saw an error")],
                paste_sites: vec![PasteSite {
                    domain: "paste.example".to_string(),
                    format: "https://paste.example/raw/&filename&".to_string(),
                }],
            },
            Group {
                channels: vec!["general".to_string()],
                regex: vec![],
                keywords: vec![keyword_rule("error", "second group answer")],
                paste_sites: vec![],
            },
        ],
    }
}

fn msg(channel: &str, content: &str, attachments: Vec<&str>) -> Message {
    Message {
        channel: channel.to_string(),
        content: content.to_string(),
        attachments: attachments.into_iter().map(|a| a.to_string()).collect(),
    }
}

#[test]
fn no_group_for_channel_is_terminal() {
    let h = Handler { cfg: test_config() };
    let m = msg("off-topic", "an error occurred", vec![]);
    assert_eq!(h.begin(&m), Err(MessageError::NoGroupForChannel));
}

#[test]
fn first_group_in_order_answers() {
    let h = Handler { cfg: test_config() };
    let m = msg("general", "an error occurred", vec![]);
    let (gi, step) = h.begin(&m).unwrap();
    assert_eq!(gi, 0);
    match step {
        Step::Done(Some(outcome)) => assert_eq!(outcome.response, "saw an error"),
        other => panic!("unexpected step: {:?}", other),
    }
}

#[test]
fn inline_text_without_match_finishes_empty() {
    let h = Handler { cfg: test_config() };
    let m = msg("support", "all quiet here", vec![]);
    let (_, step) = h.begin(&m).unwrap();
    assert_eq!(step, Step::Done(None));
}

#[test]
fn empty_message_finishes_empty() {
    let h = Handler { cfg: test_config() };
    let m = msg("support", "", vec![]);
    let (_, step) = h.begin(&m).unwrap();
    assert_eq!(step, Step::Done(None));
}

#[test]
fn paste_url_asks_for_text_fetch_with_rewritten_url() {
    let h = Handler { cfg: test_config() };
    let m = msg("support", "look https://paste.example/abc123", vec![]);
    let (_, step) = h.begin(&m).unwrap();
    assert_eq!(
        step,
        Step::FetchText {
            fetch_url: "https://paste.example/raw/abc123".to_string(),
            remote_url: "https://paste.example/abc123".to_string(),
        }
    );
}

#[test]
fn attachment_url_asks_for_image_fetch() {
    let h = Handler { cfg: test_config() };
    let m = msg("support", "words", vec!["https://cdn.example/shot.png"]);
    let (_, step) = h.begin(&m).unwrap();
    assert_eq!(
        step,
        Step::FetchImage { url: "https://cdn.example/shot.png".to_string() }
    );
}

#[test]
fn paste_body_with_text_type_is_matched_and_suppresses_image_fallback() {
    let cfg = test_config();
    let group = &cfg.groups[0];
    let remote = "https://paste.example/abc123".to_string();
    let reply = Some(TextResponse {
        content_type: Some("text/plain; charset=utf-8".to_string()),
        body: "a panic in the log".to_string(),
    });
    let step = pipeline_paste_reply(group, &remote, reply).unwrap();
    match step {
        Step::Done(Some(outcome)) => {
            assert_eq!(outcome.kind, RuleKind::Regex);
            assert_eq!(outcome.response, "saw a panic");
        },
        other => panic!("unexpected step: {:?}", other),
    }
}

#[test]
fn paste_body_without_match_still_finishes_without_image_fallback() {
    let cfg = test_config();
    let group = &cfg.groups[0];
    let remote = "https://paste.example/abc123".to_string();
    let reply = Some(TextResponse {
        content_type: Some("text/plain".to_string()),
        body: "nothing of note".to_string(),
    });
    assert_eq!(
        pipeline_paste_reply(group, &remote, reply).unwrap(),
        Step::Done(None)
    );
}

#[test]
fn paste_with_wrong_type_falls_through_to_image() {
    let cfg = test_config();
    let group = &cfg.groups[0];
    let remote = "https://paste.example/abc123".to_string();
    let reply = Some(TextResponse {
        content_type: Some("text/html".to_string()),
        body: "<html></html>".to_string(),
    });
    assert_eq!(
        pipeline_paste_reply(group, &remote, reply).unwrap(),
        Step::FetchImage { url: remote.clone() }
    );
}

#[test]
fn paste_transport_failure_falls_through_to_image() {
    let cfg = test_config();
    let group = &cfg.groups[0];
    let remote = "https://paste.example/abc123".to_string();
    assert_eq!(
        pipeline_paste_reply(group, &remote, None).unwrap(),
        Step::FetchImage { url: remote.clone() }
    );
}

#[test]
fn json_resource_yields_empty_outcome_not_an_error() {
    // A remote URL that is neither paste-matched nor an image degrades to
    // "no outcome" rather than a pipeline failure.
    let h = Handler { cfg: test_config() };
    let m = msg("support", "https://api.example/data", vec![]);
    let (_, step) = h.begin(&m).unwrap();
    assert_eq!(
        step,
        Step::FetchImage { url: "https://api.example/data".to_string() }
    );
    let reply = Some(BytesResponse {
        content_type: Some("application/json".to_string()),
        body: b"{}".to_vec(),
    });
    assert_eq!(pipeline_image_reply(reply), Step::Done(None));
}

#[test]
fn image_fetch_failure_finishes_empty() {
    assert_eq!(pipeline_image_reply(None), Step::Done(None));
}

#[test]
fn missing_content_type_on_image_fetch_finishes_empty() {
    let reply = Some(BytesResponse { content_type: None, body: vec![1, 2, 3] });
    assert_eq!(pipeline_image_reply(reply), Step::Done(None));
}

#[test]
fn undecodable_image_bytes_finish_empty() {
    let reply = Some(BytesResponse {
        content_type: Some("image/png".to_string()),
        body: vec![0, 1, 2, 3, 4],
    });
    assert_eq!(pipeline_image_reply(reply), Step::Done(None));
}

#[test]
fn png_bytes_are_reencoded_to_tiff_for_recognition() {
    // Encode a small PNG, feed it through the pipeline, and check that what
    // comes out is a real TIFF of the same dimensions, not the input bytes.
    let mut png_bytes: Vec<u8> = Vec::new();
    let img = image::RgbImage::from_fn(3, 2, |x, y| image::Rgb([x as u8, y as u8, 7]));
    image::DynamicImage::ImageRgb8(img)
        .write_to(
            &mut std::io::Cursor::new(&mut png_bytes),
            image::ImageFormat::Png,
        )
        .unwrap();
    let reply = Some(BytesResponse {
        content_type: Some("image/png".to_string()),
        body: png_bytes.clone(),
    });
    match pipeline_image_reply(reply) {
        Step::RunOcr { tiff } => {
            assert_ne!(tiff, png_bytes);
            let magic = &tiff[0..4];
            assert!(magic == b"II*\0" || magic == b"MM\0*");
            let decoded =
                image::load_from_memory_with_format(&tiff, image::ImageFormat::Tiff).unwrap();
            assert_eq!(decoded.width(), 3);
            assert_eq!(decoded.height(), 2);
        },
        other => panic!("unexpected step: {:?}", other),
    }
}

#[test]
fn recognized_text_is_matched() {
    let cfg = test_config();
    let group = &cfg.groups[0];
    let step = pipeline_ocr_reply(group, Some("an error was printed".to_string())).unwrap();
    match step {
        Step::Done(Some(outcome)) => assert_eq!(outcome.response, "saw an error"),
        other => panic!("unexpected step: {:?}", other),
    }
}

#[test]
fn recognition_failure_finishes_empty() {
    let cfg = test_config();
    let group = &cfg.groups[0];
    assert_eq!(
        pipeline_ocr_reply(group, None).unwrap(),
        Step::Done(None)
    );
}

#[test]
fn error_descriptions_name_each_case() {
    assert_eq!(
        MessageError::NoGroupForChannel.describe(),
        "no group is configured for this channel"
    );
    assert_eq!(
        MessageError::Configuration.describe(),
        "malformed regex pattern in configuration"
    );
    assert_eq!(
        MessageError::NotPaste.describe(),
        "the URL belongs to no configured paste site"
    );
    assert_eq!(
        MessageError::BadType.describe(),
        "the resource declared an unacceptable content type"
    );
    assert_eq!(MessageError::Transport.describe(), "the fetch failed");
    assert_eq!(
        MessageError::Decode.describe(),
        "the image bytes could not be decoded"
    );
}

#[test]
fn malformed_pattern_in_fetched_text_surfaces_configuration_error() {
    let cfg = Config {
        groups: vec![Group {
            channels: vec!["general".to_string()],
            regex: vec![RegexRule {
                pattern: "[".to_string(),
                reaction: None,
                response: "broken".to_string(),
            }],
            keywords: vec![],
            paste_sites: vec![],
        }],
    };
    let group = &cfg.groups[0];
    let remote = "https://paste.example/abc".to_string();
    let reply = Some(TextResponse {
        content_type: Some("text/plain".to_string()),
        body: "whatever".to_string(),
    });
    assert_eq!(
        pipeline_paste_reply(group, &remote, reply),
        Err(MessageError::Configuration)
    );
}
