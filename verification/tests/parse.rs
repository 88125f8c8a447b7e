use multipart_form::heap::{Block, Heap, NULL};
use multipart_form::host::RuntimeManager;
use multipart_form::part::{FilePart, Form, ParseError, TextField};
use multipart_form::record::FormData;
use multipart_form::reader::read_record;
use multipart_form::{free_multipart_form_data, parse_multipart_form_data, shutdown_runtime};

fn ready_host() -> RuntimeManager {
    let mut host = RuntimeManager::new();
    assert!(host.init());
    host
}

fn form_record(heap: &Heap, root: usize) -> FormData {
    match heap.get(root) {
        Some(Block::Form(fd)) => *fd,
        other => panic!("no form record at {}: {:?}", root, other),
    }
}

fn parse(heap: &mut Heap, body: &[u8]) -> Result<usize, ParseError> {
    let mut host = RuntimeManager::new();
    parse_multipart_form_data(&mut host, heap, Some(body))
}

#[test]
fn single_value_field() {
    let body = b"--B\r\nContent-Disposition: form-data; name=\"a\"\r\n\r\nhello\r\n--B--";
    let mut heap = Heap::new();
    let root = parse(&mut heap, body).unwrap();
    let form = read_record(&heap, root).unwrap();
    assert_eq!(
        form,
        Form {
            fields: vec![TextField { name: b"a".to_vec(), value: b"hello".to_vec() }],
            files: vec![],
        }
    );
    let fd = form_record(&heap, root);
    assert_eq!(fd.field_count, 1);
    assert_eq!(fd.file_count, 0);
}

#[test]
fn single_file_with_default_media_type() {
    let body =
        b"--B\r\nContent-Disposition: form-data; name=\"f\"; filename=\"x.txt\"\r\n\r\nab\r\n--B--";
    let mut heap = Heap::new();
    let root = parse(&mut heap, body).unwrap();
    let form = read_record(&heap, root).unwrap();
    assert_eq!(form.fields, vec![]);
    assert_eq!(
        form.files,
        vec![FilePart {
            field_name: b"f".to_vec(),
            filename: b"x.txt".to_vec(),
            content_type: b"application/octet-stream".to_vec(),
            content: vec![0x61, 0x62],
        }]
    );
    let fd = form_record(&heap, root);
    assert_eq!(fd.field_count, 0);
    assert_eq!(fd.file_count, 1);
    match heap.get(fd.files) {
        Some(Block::Files(files)) => {
            assert_eq!(files.len(), 1);
            assert_eq!(files[0].content_length, 2);
            assert_eq!(heap.get(files[0].content), Some(&Block::Bytes(vec![0x61, 0x62])));
            assert_eq!(heap.get(files[0].filename), Some(&Block::Text(b"x.txt\0".to_vec())));
            assert_eq!(
                heap.get(files[0].content_type),
                Some(&Block::Text(b"application/octet-stream\0".to_vec()))
            );
            assert_eq!(heap.get(files[0].field_name), Some(&Block::Text(b"f\0".to_vec())));
        }
        other => panic!("no array of files: {:?}", other),
    }
}

#[test]
fn declared_media_type_is_kept() {
    let body = b"--B\r\nContent-Disposition: form-data; name=\"f\"; filename=\"x.txt\"\r\nContent-Type: text/plain\r\n\r\nab\r\n--B--";
    let mut heap = Heap::new();
    let root = parse(&mut heap, body).unwrap();
    let form = read_record(&heap, root).unwrap();
    assert_eq!(form.files.len(), 1);
    assert_eq!(form.files[0].content_type, b"text/plain".to_vec());
}

#[test]
fn file_content_keeps_zero_bytes() {
    let mut body =
        b"--B\r\nContent-Disposition: form-data; name=\"f\"; filename=\"bin\"\r\n\r\n".to_vec();
    body.extend_from_slice(&[1, 0, 2, 0, 0, 3]);
    body.extend_from_slice(b"\r\n--B--");
    let mut heap = Heap::new();
    let root = parse(&mut heap, &body).unwrap();
    let form = read_record(&heap, root).unwrap();
    assert_eq!(form.files.len(), 1);
    assert_eq!(form.files[0].content, vec![1, 0, 2, 0, 0, 3]);
    let fd = form_record(&heap, root);
    match heap.get(fd.files) {
        Some(Block::Files(files)) => assert_eq!(files[0].content_length, 6),
        other => panic!("no array of files: {:?}", other),
    }
}

#[test]
fn every_part_is_counted_and_classified() {
    let body = b"--XyZ\r\n\
Content-Disposition: form-data; name=\"first\"\r\n\r\none\r\n\
--XyZ\r\n\
Content-Disposition: form-data; name=\"upload\"; filename=\"a.bin\"\r\n\
Content-Type: image/png\r\n\r\nDATA\r\n\
--XyZ\r\n\
Content-Disposition: form-data; name=\"second\"\r\n\r\ntwo\r\n\
--XyZ\r\n\
Content-Disposition: form-data; name=\"other\"; filename=\"b.bin\"\r\n\r\n\r\n\
--XyZ--\r\n";
    let mut heap = Heap::new();
    let root = parse(&mut heap, body).unwrap();
    let fd = form_record(&heap, root);
    assert_eq!(fd.field_count + fd.file_count, 4);
    let form = read_record(&heap, root).unwrap();
    assert_eq!(
        form.fields,
        vec![
            TextField { name: b"first".to_vec(), value: b"one".to_vec() },
            TextField { name: b"second".to_vec(), value: b"two".to_vec() },
        ]
    );
    assert_eq!(
        form.files,
        vec![
            FilePart {
                field_name: b"upload".to_vec(),
                filename: b"a.bin".to_vec(),
                content_type: b"image/png".to_vec(),
                content: b"DATA".to_vec(),
            },
            FilePart {
                field_name: b"other".to_vec(),
                filename: b"b.bin".to_vec(),
                content_type: b"application/octet-stream".to_vec(),
                content: vec![],
            },
        ]
    );
    // 2 fields * 2 + 2 files * 4 + two arrays + the record
    assert_eq!(root, 15);
}

#[test]
fn boundary_line_without_a_part_fails_the_parse() {
    let body = b"--B\r\n--B--\r\n";
    let mut heap = Heap::new();
    assert_eq!(parse(&mut heap, body), Err(ParseError::BrokenStream));
    assert!(heap.is_empty());
}

fn assert_empty_record(heap: &Heap, root: usize) {
    assert_ne!(root, NULL);
    assert_eq!(
        form_record(heap, root),
        FormData { fields: NULL, field_count: 0, files: NULL, file_count: 0 }
    );
    assert_eq!(read_record(heap, root), Some(Form { fields: vec![], files: vec![] }));
}

#[test]
fn absent_body_gives_empty_form() {
    let mut host = ready_host();
    let mut heap = Heap::new();
    let root = parse_multipart_form_data(&mut host, &mut heap, None).unwrap();
    assert_empty_record(&heap, root);
    free_multipart_form_data(&mut heap, root);
    assert!(heap.is_empty());
}

#[test]
fn empty_body_gives_empty_form() {
    let mut heap = Heap::new();
    let root = parse(&mut heap, b"").unwrap();
    assert_empty_record(&heap, root);
}

#[test]
fn body_without_line_end_gives_empty_form() {
    let mut heap = Heap::new();
    let root = parse(&mut heap, b"--B no end of line here").unwrap();
    assert_empty_record(&heap, root);
}

#[test]
fn body_with_empty_token_gives_empty_form() {
    let mut heap = Heap::new();
    let root = parse(&mut heap, b"--\r\nContent-Disposition: form-data; name=\"a\"\r\n\r\nx\r\n----").unwrap();
    assert_empty_record(&heap, root);
}

#[test]
fn body_with_line_end_inside_prefix_gives_empty_form() {
    let mut heap = Heap::new();
    let root = parse(&mut heap, b"\r\n--B\r\n").unwrap();
    assert_empty_record(&heap, root);
    let root = parse(&mut heap, b"-\r\n").unwrap();
    assert_empty_record(&heap, root);
}

#[test]
fn body_with_malformed_token_gives_empty_form() {
    let mut heap = Heap::new();
    let root = parse(&mut heap, &[b'-', b'-', 0xff, 0xfe, b'\r', b'\n']).unwrap();
    assert_empty_record(&heap, root);
}

#[test]
fn part_without_name_fails_the_parse() {
    let body = b"--B\r\nContent-Disposition: form-data\r\n\r\nx\r\n--B--";
    let mut heap = Heap::new();
    assert_eq!(parse(&mut heap, body), Err(ParseError::MissingName));
    assert!(heap.is_empty());
}

#[test]
fn part_without_name_fails_even_after_good_parts() {
    let body = b"--B\r\nContent-Disposition: form-data; name=\"a\"\r\n\r\n1\r\n--B\r\nContent-Type: text/plain\r\n\r\nx\r\n--B--";
    let mut heap = Heap::new();
    assert_eq!(parse(&mut heap, body), Err(ParseError::MissingName));
    assert!(heap.is_empty());
}

#[test]
fn truncated_headers_fail_the_parse() {
    let body = b"--B\r\nContent-Disposition: form-data; name=\"a\"";
    let mut heap = Heap::new();
    assert_eq!(parse(&mut heap, body), Err(ParseError::BrokenStream));
    assert!(heap.is_empty());
}

#[test]
fn wrong_first_line_fails_the_parse() {
    let body = b"xxB\r\nContent-Disposition: form-data; name=\"a\"\r\n\r\nhello\r\n";
    let mut heap = Heap::new();
    assert_eq!(parse(&mut heap, body), Err(ParseError::BrokenStream));
    assert!(heap.is_empty());
}

#[test]
fn truncated_file_content_fails_the_parse() {
    let body = b"--B\r\nContent-Disposition: form-data; name=\"f\"; filename=\"x\"\r\n\r\nabc";
    let mut heap = Heap::new();
    assert_eq!(parse(&mut heap, body), Err(ParseError::BrokenChunk));
    assert!(heap.is_empty());
}

#[test]
fn truncated_value_fails_the_parse() {
    let body = b"--B\r\nContent-Disposition: form-data; name=\"a\"\r\n\r\nabc";
    let mut heap = Heap::new();
    assert_eq!(parse(&mut heap, body), Err(ParseError::BrokenChunk));
    assert!(heap.is_empty());
}

#[test]
fn missing_closing_delimiter_fails_the_parse() {
    let body = b"--B\r\nContent-Disposition: form-data; name=\"a\"\r\n\r\nabc\r\n--B";
    let mut heap = Heap::new();
    assert_eq!(parse(&mut heap, body), Err(ParseError::BrokenStream));
    assert!(heap.is_empty());
}

#[test]
fn value_that_is_no_text_is_empty_and_the_parse_goes_on() {
    let mut body = b"--B\r\nContent-Disposition: form-data; name=\"a\"\r\n\r\n".to_vec();
    body.push(0xff);
    body.extend_from_slice(
        b"\r\n--B\r\nContent-Disposition: form-data; name=\"b\"\r\n\r\nfine\r\n--B--",
    );
    let mut heap = Heap::new();
    let root = parse(&mut heap, &body).unwrap();
    let fd = form_record(&heap, root);
    assert_eq!(fd.field_count + fd.file_count, 2);
    assert_eq!(
        read_record(&heap, root).unwrap().fields,
        vec![
            TextField { name: b"a".to_vec(), value: vec![] },
            TextField { name: b"b".to_vec(), value: b"fine".to_vec() },
        ]
    );
}

#[test]
fn value_of_several_bytes_per_character_is_kept() {
    let mut body = b"--B\r\nContent-Disposition: form-data; name=\"a\"\r\n\r\n".to_vec();
    body.extend_from_slice("gr\u{00fc}n \u{20ac}".as_bytes());
    body.extend_from_slice(b"\r\n--B--");
    let mut heap = Heap::new();
    let root = parse(&mut heap, &body).unwrap();
    assert_eq!(
        read_record(&heap, root).unwrap().fields,
        vec![TextField { name: b"a".to_vec(), value: "gr\u{00fc}n \u{20ac}".as_bytes().to_vec() }]
    );
}

#[test]
fn declared_media_type_is_kept_byte_for_byte() {
    let body = b"--B\r\nContent-Disposition: form-data; name=\"f\"; filename=\"x\"\r\nContent-Type: Text/PLAIN; Charset=UTF-8\r\n\r\nab\r\n--B--";
    let mut heap = Heap::new();
    let root = parse(&mut heap, body).unwrap();
    let form = read_record(&heap, root).unwrap();
    assert_eq!(form.files[0].content_type, b"Text/PLAIN; Charset=UTF-8".to_vec());
}

#[test]
fn media_type_that_is_no_media_type_is_kept_all_the_same() {
    let body = b"--B\r\nContent-Disposition: form-data; name=\"f\"; filename=\"x\"\r\nContent-Type: whatever\r\n\r\nab\r\n--B--";
    let mut heap = Heap::new();
    let root = parse(&mut heap, body).unwrap();
    let form = read_record(&heap, root).unwrap();
    assert_eq!(form.files[0].content_type, b"whatever".to_vec());
}

#[test]
fn parse_makes_the_runtime_on_demand() {
    let mut host = RuntimeManager::new();
    let mut heap = Heap::new();
    let root = parse_multipart_form_data(&mut host, &mut heap, None).unwrap();
    assert!(!host.initialized());
    free_multipart_form_data(&mut heap, root);
    let body = b"--B\r\nContent-Disposition: form-data; name=\"a\"\r\n\r\nhello\r\n--B--";
    let root = parse_multipart_form_data(&mut host, &mut heap, Some(body)).unwrap();
    assert!(host.initialized());
    free_multipart_form_data(&mut heap, root);
    assert!(heap.is_empty());
}

#[test]
fn parse_after_shutdown_works_again() {
    let mut host = ready_host();
    let mut heap = Heap::new();
    let body = b"--B\r\nContent-Disposition: form-data; name=\"a\"\r\n\r\nhello\r\n--B--";
    let root = parse_multipart_form_data(&mut host, &mut heap, Some(body)).unwrap();
    free_multipart_form_data(&mut heap, root);
    shutdown_runtime(&mut host);
    assert!(!host.initialized());
    let root = parse_multipart_form_data(&mut host, &mut heap, Some(body)).unwrap();
    assert!(host.initialized());
    assert_eq!(
        read_record(&heap, root).unwrap().fields,
        vec![TextField { name: b"a".to_vec(), value: b"hello".to_vec() }]
    );
    free_multipart_form_data(&mut heap, root);
    assert!(heap.is_empty());
}

#[test]
fn zero_byte_in_value_fails_the_parse() {
    let body = b"--B\r\nContent-Disposition: form-data; name=\"a\"\r\n\r\nhe\0llo\r\n--B--";
    let mut heap = Heap::new();
    assert_eq!(parse(&mut heap, body), Err(ParseError::InteriorNul));
    assert!(heap.is_empty());
}

#[test]
fn reclaiming_a_parsed_record_leaves_nothing() {
    let body = b"--B\r\nContent-Disposition: form-data; name=\"a\"\r\n\r\nhello\r\n--B\r\nContent-Disposition: form-data; name=\"f\"; filename=\"x.txt\"\r\n\r\nab\r\n--B--";
    let mut heap = Heap::new();
    let root = parse(&mut heap, body).unwrap();
    assert!(!heap.is_empty());
    free_multipart_form_data(&mut heap, root);
    assert!(heap.is_empty());
    assert!(!heap.is_live(root));
    assert_eq!(read_record(&heap, root), None);
}

#[test]
fn reclaiming_null_does_nothing() {
    let mut heap = Heap::new();
    let root = parse(&mut heap, b"--B\r\nContent-Disposition: form-data; name=\"a\"\r\n\r\n1\r\n--B--").unwrap();
    let before = read_record(&heap, root);
    free_multipart_form_data(&mut heap, NULL);
    assert_eq!(read_record(&heap, root), before);
    assert!(heap.is_live(root));
    let mut empty = Heap::new();
    free_multipart_form_data(&mut empty, NULL);
    assert!(empty.is_empty());
}

#[test]
fn two_rounds_on_one_host_do_not_touch_each_other() {
    let mut host = ready_host();
    let mut heap = Heap::new();
    let first = b"--B\r\nContent-Disposition: form-data; name=\"a\"\r\n\r\nhello\r\n--B--";
    let second =
        b"--C\r\nContent-Disposition: form-data; name=\"f\"; filename=\"x.txt\"\r\n\r\nab\r\n--C--";
    let root1 = parse_multipart_form_data(&mut host, &mut heap, Some(first)).unwrap();
    let form1 = read_record(&heap, root1).unwrap();
    free_multipart_form_data(&mut heap, root1);
    assert!(heap.is_empty());
    let root2 = parse_multipart_form_data(&mut host, &mut heap, Some(second)).unwrap();
    let form2 = read_record(&heap, root2).unwrap();
    free_multipart_form_data(&mut heap, root2);
    assert!(heap.is_empty());
    assert_ne!(root1, root2);
    assert_eq!(form1.fields, vec![TextField { name: b"a".to_vec(), value: b"hello".to_vec() }]);
    assert_eq!(form1.files, vec![]);
    assert_eq!(form2.fields, vec![]);
    assert_eq!(form2.files.len(), 1);
    assert_eq!(form2.files[0].content, b"ab".to_vec());
}

#[test]
fn two_records_live_side_by_side() {
    let mut host = ready_host();
    let mut heap = Heap::new();
    let first = b"--B\r\nContent-Disposition: form-data; name=\"a\"\r\n\r\nhello\r\n--B--";
    let second = b"--B\r\nContent-Disposition: form-data; name=\"b\"\r\n\r\nworld\r\n--B--";
    let root1 = parse_multipart_form_data(&mut host, &mut heap, Some(first)).unwrap();
    let root2 = parse_multipart_form_data(&mut host, &mut heap, Some(second)).unwrap();
    free_multipart_form_data(&mut heap, root1);
    assert_eq!(
        read_record(&heap, root2).unwrap().fields,
        vec![TextField { name: b"b".to_vec(), value: b"world".to_vec() }]
    );
    free_multipart_form_data(&mut heap, root2);
    assert!(heap.is_empty());
}

#[test]
fn shutdown_is_idempotent() {
    let mut host = RuntimeManager::new();
    assert!(!host.initialized());
    shutdown_runtime(&mut host);
    assert!(!host.initialized());
    assert!(host.init());
    assert!(host.init());
    assert!(host.initialized());
    shutdown_runtime(&mut host);
    assert!(!host.initialized());
    shutdown_runtime(&mut host);
    assert!(!host.initialized());
    assert!(host.init());
    let mut heap = Heap::new();
    let root = parse_multipart_form_data(&mut host, &mut heap, None).unwrap();
    free_multipart_form_data(&mut heap, root);
    assert!(heap.is_empty());
}

#[test]
fn declared_charset_of_a_value_is_not_honoured() {
    let mut body = b"--B\r\nContent-Disposition: form-data; name=\"a\"\r\nContent-Type: text/plain; charset=iso-8859-1\r\n\r\ncaf".to_vec();
    body.push(0xe9);
    body.extend_from_slice(b"\r\n--B--");
    let mut heap = Heap::new();
    let root = parse(&mut heap, &body).unwrap();
    assert_eq!(
        read_record(&heap, root).unwrap().fields,
        vec![TextField { name: b"a".to_vec(), value: vec![] }]
    );
}

#[test]
fn byte_order_mark_of_a_value_is_kept() {
    let mut body = b"--B\r\nContent-Disposition: form-data; name=\"a\"\r\n\r\n".to_vec();
    body.extend_from_slice(&[0xef, 0xbb, 0xbf, b'x']);
    body.extend_from_slice(b"\r\n--B--");
    let mut heap = Heap::new();
    let root = parse(&mut heap, &body).unwrap();
    assert_eq!(
        read_record(&heap, root).unwrap().fields,
        vec![TextField { name: b"a".to_vec(), value: vec![0xef, 0xbb, 0xbf, b'x'] }]
    );
}
