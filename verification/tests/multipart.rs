use base64::Engine;
use pg_durable::activities::http_response::{response_body, RawBody};
use pg_durable::activities::request::{assemble_part, build_form, form_part, request_body};
use pg_durable::encoding::{decode_part_data, encode_lines, PartDataError};
use pg_durable::types::{MultipartPart, Payload, RequestBody};

/// Mirror of PostgreSQL's `encode(bytea, 'base64')`: line breaks after 76
/// characters.
fn pg_style_encode(data: &[u8]) -> String {
    let flat = base64::engine::general_purpose::STANDARD.encode(data);
    flat.as_bytes()
        .chunks(76)
        .map(|c| std::str::from_utf8(c).unwrap())
        .collect::<Vec<_>>()
        .join("\n")
}

#[test]
fn decodes_unwrapped_base64() {
    let encoded = base64::engine::general_purpose::STANDARD.encode(b"hello");
    assert_eq!(decode_part_data(&encoded).unwrap(), b"hello");
}

#[test]
fn decodes_pg_wrapped_base64() {
    // 200 bytes -> 268 base64 chars -> wrapped across 4 lines.
    let payload: Vec<u8> = (0u8..200).collect();
    let encoded = pg_style_encode(&payload);
    assert!(
        encoded.contains('\n'),
        "fixture must exercise line wrapping"
    );
    assert_eq!(decode_part_data(&encoded).unwrap(), payload);
}

#[test]
fn decodes_with_surrounding_whitespace() {
    let encoded = base64::engine::general_purpose::STANDARD.encode(b"hello");
    let padded = format!("  \n{encoded}\n  ");
    assert_eq!(decode_part_data(&padded).unwrap(), b"hello");
}

#[test]
fn decodes_with_crlf_line_endings() {
    let payload: Vec<u8> = (0u8..200).collect();
    let encoded = pg_style_encode(&payload).replace('\n', "\r\n");
    assert_eq!(decode_part_data(&encoded).unwrap(), payload);
}

#[test]
fn decodes_empty_payload() {
    assert_eq!(decode_part_data("").unwrap(), Vec::<u8>::new());
}

#[test]
fn rejects_malformed_base64() {
    assert!(decode_part_data("!!!!").is_err());
    // Whitespace stripping must not rescue genuinely invalid input.
    assert!(decode_part_data("!!\n!!").is_err());
}

#[test]
fn tells_the_decoding_errors_apart() {
    assert_eq!(
        decode_part_data("!!!!"),
        Err(PartDataError::InvalidByte(0, b'!'))
    );
    assert_eq!(
        decode_part_data("aGVs\nb"),
        Err(PartDataError::InvalidLength(5))
    );
    assert_eq!(
        decode_part_data("aGVsbG9="),
        Err(PartDataError::InvalidLastSymbol(6, b'9'))
    );
    assert_eq!(
        decode_part_data("aGVsbG8"),
        Err(PartDataError::InvalidPadding)
    );
}

#[test]
fn other_blanks_than_ascii_are_not_stripped() {
    assert!(decode_part_data("aGVs\u{a0}bG8=").is_err());
    assert!(decode_part_data("aGVs\u{b}bG8=").is_err());
    assert_eq!(decode_part_data("aGVs\u{c}bG8=").unwrap(), b"hello");
}

fn part(name: &str, data: &str, content_type: Option<&str>, filename: Option<&str>) -> MultipartPart {
    MultipartPart {
        name: name.to_string(),
        data_b64: data.to_string(),
        content_type: content_type.map(str::to_string),
        filename: filename.map(str::to_string),
    }
}

fn form_error(parts: Vec<MultipartPart>) -> String {
    match build_form(&parts) {
        Ok(_) => panic!("the form must be refused"),
        Err(e) => e,
    }
}

#[test]
fn forms_keep_the_parts_in_order() {
    let parts = vec![
        part("file", "aGVs\nbG8=", Some("application/pdf"), Some("report.pdf")),
        part("note", "", None, None),
    ];
    let form = match build_form(&parts) {
        Ok(form) => form,
        Err(e) => panic!("{e}"),
    };
    assert_eq!(form.len(), 2);
    assert_eq!(form[0].name, "file");
    assert_eq!(form[0].bytes, b"hello");
    assert_eq!(form[0].content_type.as_deref(), Some("application/pdf"));
    assert_eq!(form[0].filename.as_deref(), Some("report.pdf"));
    assert_eq!(form[1].name, "note");
    assert!(form[1].bytes.is_empty());
    assert!(form[1].content_type.is_none());
    assert!(form[1].filename.is_none());
}

#[test]
fn forms_blame_the_first_bad_part() {
    let good = || part("a", "aGVsbG8=", None, None);
    assert_eq!(
        form_error(vec![good(), part("b", "!!!!", None, None), part("c", "?", None, None)]),
        "Invalid base64 in part 'b': Invalid symbol 33, offset 0."
    );
    assert_eq!(
        form_error(vec![part("b", "aGVsbG8", None, None)]),
        "Invalid base64 in part 'b': Invalid padding"
    );
    assert_eq!(
        form_error(vec![part("b", "aGVsb", None, None)]),
        "Invalid base64 in part 'b': Invalid input length: 5"
    );
    assert_eq!(
        form_error(vec![part("b", "aGVsbG9=", None, None)]),
        "Invalid base64 in part 'b': Invalid last symbol 57, offset 6."
    );
    assert_eq!(
        form_error(vec![good(), part("b", "aGVsbG8=", Some("not a type"), None)]),
        "Invalid content_type for part 'b': builder error"
    );
    // The payload is judged before the content type.
    assert_eq!(
        form_error(vec![part("b", "!!!!", Some("not a type"), None)]),
        "Invalid base64 in part 'b': Invalid symbol 33, offset 0."
    );
}

#[test]
fn accepts_media_types_with_parameters() {
    assert!(form_part(&part("p", "", Some("text/plain; charset=utf-8"), None)).is_ok());
    assert!(form_part(&part("p", "", Some(""), None)).is_err());
}

#[test]
fn an_empty_form_is_a_form() {
    assert!(matches!(
        request_body(Payload::Parts(vec![])),
        Ok(RequestBody::Form(form)) if form.is_empty()
    ));
}

#[test]
fn text_bodies_are_sent_as_they_are() {
    assert!(matches!(
        request_body(Payload::Body(Some("{}".to_string()))),
        Ok(RequestBody::Text(text)) if text == "{}"
    ));
    assert!(matches!(request_body(Payload::Body(None)), Ok(RequestBody::Empty)));
}

#[test]
fn binary_responses_feed_uploads() {
    let bytes: Vec<u8> = (0u8..=255).collect();
    let body = response_body(RawBody::Binary(bytes.clone()), String::new());
    assert_eq!(body.encoding, "base64");
    assert_ne!(body.text.as_bytes(), &bytes[..]);
    assert_eq!(decode_part_data(&body.text).unwrap(), bytes);
    let hello = response_body(RawBody::Binary(b"hello".to_vec()), String::new());
    assert_eq!(hello.text, "aGVsbG8=");
}

#[test]
fn parts_are_assembled_from_what_was_found() {
    let described = part("p", "", Some("text/plain"), Some("f.txt"));
    match assemble_part(&described, Ok(vec![1, 2]), Ok(())) {
        Ok(made) => {
            assert_eq!(made.name, "p");
            assert_eq!(made.bytes, vec![1, 2]);
            assert_eq!(made.content_type.as_deref(), Some("text/plain"));
            assert_eq!(made.filename.as_deref(), Some("f.txt"));
        }
        Err(e) => panic!("{e}"),
    }
    match assemble_part(&described, Ok(vec![]), Err("no".to_string())) {
        Ok(_) => panic!("must be refused"),
        Err(e) => assert_eq!(e, "Invalid content_type for part 'p': no"),
    }
}

#[test]
fn encodes_lines_as_postgres_does() {
    for n in [0usize, 1, 56, 57, 58, 113, 114, 115, 200] {
        let data: Vec<u8> = (0..n).map(|i| i as u8).collect();
        let text = encode_lines(&data);
        assert_eq!(text, pg_style_encode(&data));
        assert_eq!(decode_part_data(&text).unwrap(), data);
    }
}

#[test]
fn whatever_decodes_is_the_encoding_of_it() {
    let encoded = base64::engine::general_purpose::STANDARD.encode(b"hello");
    for text in [" aGVs bG8= ", "aGVsbG8=", "aGVsbG9=", "aGVsbG8", "aGVsbG8==", "aGVs=bG8"] {
        let stripped = text.replace(' ', "");
        match decode_part_data(text) {
            Ok(bytes) => {
                assert_eq!(bytes, b"hello");
                assert_eq!(stripped, encoded);
            }
            Err(_) => assert_ne!(stripped, encoded),
        }
    }
}
