use encode_base::catalog::EncodingSelector;
use encode_base::pipeline::{
    begin, build_request, on_read, on_write, Command, ConversionError, ConversionRequest,
    SelectionError,
};
use encode_base::resolver::DestinationSpec;

fn request(source: &str, destination: DestinationSpec, target: EncodingSelector) -> ConversionRequest {
    ConversionRequest { source_path: source.to_string(), destination, target }
}

#[test]
fn begin_commands_a_full_read_of_the_source() {
    let req = request("in.txt", DestinationSpec::Overwrite, EncodingSelector::Utf8);
    assert_eq!(begin(&req), Command::ReadSource("in.txt".to_string()));
}

#[test]
fn missing_source_reports_read_error() {
    let req = request(
        "does_not_exist.txt",
        DestinationSpec::Directory("/out".to_string()),
        EncodingSelector::Latin1,
    );
    let command = on_read(&req, None);
    assert_eq!(command, Command::Report(Err(ConversionError::ReadError)));
}

#[test]
fn write_failure_reports_write_error() {
    let command = on_write("/missing_dir/encoded_file.txt".to_string(), false);
    assert_eq!(command, Command::Report(Err(ConversionError::WriteError)));
}

#[test]
fn write_success_reports_the_written_path() {
    let command = on_write("/out/encoded_file.txt".to_string(), true);
    assert_eq!(command, Command::Report(Ok("/out/encoded_file.txt".to_string())));
}

#[test]
fn conversion_into_directory_writes_latin1_bytes_under_fixed_name() {
    let req = request(
        "in.txt",
        DestinationSpec::Directory("/out".to_string()),
        EncodingSelector::Latin1,
    );
    let content = "héllo".as_bytes().to_vec();

    let first = begin(&req);
    assert_eq!(first, Command::ReadSource("in.txt".to_string()));

    let second = on_read(&req, Some(content));
    assert_eq!(
        second,
        Command::WriteOutput(
            "/out/encoded_file.txt".to_string(),
            vec![0x68, 0xE9, 0x6C, 0x6C, 0x6F],
        )
    );

    let last = on_write("/out/encoded_file.txt".to_string(), true);
    assert_eq!(last, Command::Report(Ok("/out/encoded_file.txt".to_string())));
}

#[test]
fn overwrite_buffers_the_read_before_any_write() {
    // A test double for the filesystem: one file, and a log of I/O events.
    let source = "file.txt";
    let mut file_content: Vec<u8> = "héllo".as_bytes().to_vec();
    let mut events: Vec<String> = Vec::new();

    let req = request(source, DestinationSpec::Overwrite, EncodingSelector::Utf8);

    let mut command = begin(&req);
    loop {
        match command {
            Command::ReadSource(path) => {
                assert_eq!(path, source);
                let content = file_content.clone();
                events.push("read completed".to_string());
                command = on_read(&req, Some(content));
            }
            Command::WriteOutput(path, bytes) => {
                assert_eq!(path, source);
                events.push("write started".to_string());
                file_content = bytes;
                command = on_write(path, true);
            }
            Command::Report(outcome) => {
                assert_eq!(outcome, Ok(source.to_string()));
                break;
            }
        }
    }

    assert_eq!(events, vec!["read completed".to_string(), "write started".to_string()]);
    assert_eq!(file_content, "héllo".as_bytes().to_vec());
}

#[test]
fn build_request_requires_a_source() {
    let built = build_request(None, Some("/out".to_string()), false, EncodingSelector::Utf8);
    assert_eq!(built, Err(SelectionError::MissingSource));

    let built = build_request(None, None, true, EncodingSelector::Utf8);
    assert_eq!(built, Err(SelectionError::MissingSource));
}

#[test]
fn build_request_requires_a_directory_unless_overwriting() {
    let built = build_request(Some("in.txt".to_string()), None, false, EncodingSelector::EucKr);
    assert_eq!(built, Err(SelectionError::MissingDirectory));

    let built = build_request(Some("in.txt".to_string()), None, true, EncodingSelector::EucKr);
    let req = built.expect("overwrite needs no directory");
    assert_eq!(req.destination, DestinationSpec::Overwrite);
    assert_eq!(req.source_path, "in.txt");
    assert_eq!(req.target, EncodingSelector::EucKr);
}

#[test]
fn build_request_overwrite_wins_over_a_chosen_directory() {
    let built = build_request(
        Some("in.txt".to_string()),
        Some("/out".to_string()),
        true,
        EncodingSelector::ShiftJis,
    );
    assert_eq!(built.expect("valid selections").destination, DestinationSpec::Overwrite);
}

#[test]
fn build_request_into_directory() {
    let built = build_request(
        Some("in.txt".to_string()),
        Some("/out".to_string()),
        false,
        EncodingSelector::Latin1,
    );
    let req = built.expect("valid selections");
    assert_eq!(req.destination, DestinationSpec::Directory("/out".to_string()));
}

#[test]
fn request_new_rejects_destination_colliding_with_source() {
    let rejected = ConversionRequest::new(
        "/out/encoded_file.txt".to_string(),
        DestinationSpec::Directory("/out".to_string()),
        EncodingSelector::Utf8,
    );
    assert!(rejected.is_none());

    let accepted = ConversionRequest::new(
        "/elsewhere/in.txt".to_string(),
        DestinationSpec::Directory("/out".to_string()),
        EncodingSelector::Utf8,
    );
    assert!(accepted.is_some());

    let overwrite = ConversionRequest::new(
        "/out/encoded_file.txt".to_string(),
        DestinationSpec::Overwrite,
        EncodingSelector::Utf8,
    );
    assert!(overwrite.is_some());
}
