use channel_videos::records::VideoRecord;
use channel_videos::session::{Action, Session};
use channel_videos::writer::{document_string, output_file_name, render_document};

const HEADER: &str = "Video ID,Title,Description,Published At\n";

fn rec(video_id: &str, title: &str, description: &str, published_at: &str) -> VideoRecord {
    VideoRecord {
        video_id: video_id.to_string(),
        title: title.to_string(),
        description: description.to_string(),
        published_at: published_at.to_string(),
    }
}

fn reference_document(records: &[VideoRecord]) -> String {
    let mut w = csv::Writer::from_writer(Vec::new());
    w.write_record(["Video ID", "Title", "Description", "Published At"]).unwrap();
    for r in records {
        w.write_record([
            r.video_id.as_str(),
            r.title.as_str(),
            r.description.as_str(),
            r.published_at.as_str(),
        ])
        .unwrap();
    }
    String::from_utf8(w.into_inner().unwrap()).unwrap()
}

#[test]
fn zero_videos_yield_header_only() {
    let out = document_string(&Vec::new());
    assert_eq!(out, HEADER);
    let chars = render_document(&Vec::new());
    assert_eq!(chars.iter().collect::<String>(), HEADER);
}

#[test]
fn plain_fields_stand_verbatim() {
    let records = vec![rec("abc", "A Title", "plain words", "2024-01-01T00:00:00Z")];
    let out = document_string(&records);
    assert_eq!(out, format!("{HEADER}abc,A Title,plain words,2024-01-01T00:00:00Z\n"));
}

#[test]
fn special_fields_are_quoted_and_doubled() {
    let records = vec![rec("a,b", "say \"hi\"", "line\nbreak", "cr\rhere")];
    let out = document_string(&records);
    assert_eq!(
        out,
        format!("{HEADER}\"a,b\",\"say \"\"hi\"\"\",\"line\nbreak\",\"cr\rhere\"\n")
    );
}

#[test]
fn encoder_matches_reference_writer() {
    let records = vec![
        rec("", "", "", ""),
        rec("abc", "A Title", "plain words", "2024-01-01T00:00:00Z"),
        rec("a,b", "say \"hi\"", "line\nbreak", "cr\rhere"),
        rec("üñïçödé", "tabs\tstay", " leading and trailing ", "\"q\""),
    ];
    assert_eq!(document_string(&records), reference_document(&records));
    assert_eq!(document_string(&Vec::new()), reference_document(&[]));
}

#[test]
fn fixture_fields_round_trip_into_cells() {
    let body = r#"{"items":[
        {"id":{"videoId":"vid1"},"snippet":{"title":"First, a comma","description":"plain","publishedAt":"2020-05-05T12:00:00Z"}},
        {"id":{},"snippet":{"description":"only description"}}
    ]}"#;
    let mut s = Session::new("@fixture".to_string());
    s.feed_lookup(200, r#"{"items":[{"id":"UCfix"}]}"#);
    s.feed_page(200, body);
    assert!(matches!(s.next_action(), Action::Publish));
    let out = document_string(&s.videos);
    let expected = format!(
        "{HEADER}vid1,\"First, a comma\",plain,2020-05-05T12:00:00Z\n,,only description,\n"
    );
    assert_eq!(out, expected);
}

#[test]
fn leading_at_is_stripped_from_the_file_name() {
    assert_eq!(output_file_name("@rustlang"), "rustlang.csv");
}

#[test]
fn handle_without_at_is_used_unchanged() {
    assert_eq!(output_file_name("rustlang"), "rustlang.csv");
}

#[test]
fn only_the_leading_at_is_removed() {
    assert_eq!(output_file_name("@a@b"), "a@b.csv");
    assert_eq!(output_file_name("a@b"), "a@b.csv");
}

#[test]
fn multi_byte_handles_keep_their_characters() {
    assert_eq!(output_file_name("@日本語"), "日本語.csv");
    assert_eq!(output_file_name("çédille"), "çédille.csv");
}

#[test]
fn degenerate_handles_still_name_a_file() {
    assert_eq!(output_file_name(""), ".csv");
    assert_eq!(output_file_name("@"), ".csv");
}
