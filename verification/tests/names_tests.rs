use vad_recorder::names::{fresh_segment_name, output_names, segment_filename};

#[test]
fn segment_filename_appends_raw() {
    assert_eq!(segment_filename("20240131_235959"), "20240131_235959.raw");
    assert_eq!(segment_filename(""), ".raw");
}

#[test]
fn output_names_share_the_base() {
    let names = output_names("20240131_235959.raw");
    assert_eq!(names.wav, "20240131_235959.wav");
    assert_eq!(names.txt, "20240131_235959.txt");
    assert_eq!(names.log, "20240131_235959.log");
}

#[test]
fn output_names_of_short_names() {
    for raw in ["", "a", "ab", "abc", ".raw"] {
        let names = output_names(raw);
        assert_eq!(names.wav, ".wav");
        assert_eq!(names.txt, ".txt");
        assert_eq!(names.log, ".log");
    }
    assert_eq!(output_names("x.raw").wav, "x.wav");
}

#[test]
fn output_names_count_characters_not_bytes() {
    let names = output_names("séance.raw");
    assert_eq!(names.wav, "séance.wav");
    let names = output_names("aéééé");
    assert_eq!(names.txt, "a.txt");
}

#[test]
fn output_names_round_trip_through_segment_filename() {
    let raw = segment_filename("stamp");
    let names = output_names(&raw);
    assert_eq!(names.wav, "stamp.wav");
    assert_eq!(names.txt, "stamp.txt");
    assert_eq!(names.log, "stamp.log");
}

#[test]
fn fresh_name_is_a_stamp_with_the_raw_extension() {
    let name = fresh_segment_name();
    assert!(name.ends_with(".raw"));
    let stamp = &name[..name.len() - 4];
    assert_eq!(stamp.len(), 15);
    assert_eq!(stamp.as_bytes()[8], b'_');
    assert!(stamp.bytes().enumerate().all(|(i, b)| i == 8 || b.is_ascii_digit()));
}
