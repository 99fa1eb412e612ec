use media_sorter::date::{
    apply_date_choice, extract_date_time, extract_media_creation_time_from_file_metadata,
    extract_media_creation_time_from_filename, resolve_date, DateChoice, DateOutcome, DateStep,
};
use media_sorter::metadata::EmbeddedMetadata;
use media_sorter::pattern::date_pattern;
use media_sorter::timestamp::CaptureTimestamp;

fn stamp(year: i32, month: u32, day: u32, hour: u32, minute: u32, second: u32) -> CaptureTimestamp {
    CaptureTimestamp { year, month, day, hour, minute, second }
}

#[test]
fn filename_date_looks_at_the_name_only() {
    assert_eq!(
        extract_media_creation_time_from_filename(date_pattern(), "/photos/20200101/IMG_20230715_120000.jpg"),
        Some(stamp(2023, 7, 1, 0, 0, 0))
    );
    assert_eq!(extract_media_creation_time_from_filename(date_pattern(), "/photos/20200101/holiday.jpg"), None);
}

#[test]
fn filename_date_is_skipped_for_two_dates() {
    assert_eq!(
        extract_media_creation_time_from_filename(date_pattern(), "dir/20230715_20230716.jpg"),
        None
    );
}

#[test]
fn embedded_date_wins_over_the_name() {
    let video = EmbeddedMetadata::Video("2021-03-04T05:06:07Z".to_string());
    assert_eq!(
        extract_date_time(&video, date_pattern(), "clips/VID_20230715_120000.mp4"),
        DateStep::Done(DateOutcome::Resolved(stamp(2021, 3, 4, 5, 6, 7)))
    );
    assert_eq!(
        extract_date_time(&video, date_pattern(), "clips/nameless.mp4"),
        DateStep::Done(DateOutcome::Resolved(stamp(2021, 3, 4, 5, 6, 7)))
    );
}

#[test]
fn name_dates_a_file_without_embedded_date() {
    assert_eq!(
        extract_date_time(&EmbeddedMetadata::Unavailable, date_pattern(), "IMG_20230715_120000.jpg"),
        DateStep::Done(DateOutcome::Resolved(stamp(2023, 7, 1, 0, 0, 0)))
    );
    let broken = EmbeddedMetadata::Image(b"no image at all".to_vec());
    assert_eq!(
        extract_date_time(&broken, date_pattern(), "IMG_20230715_120000.jpg"),
        DateStep::Done(DateOutcome::Resolved(stamp(2023, 7, 1, 0, 0, 0)))
    );
    let unreadable = EmbeddedMetadata::Video("not a time".to_string());
    assert_eq!(
        extract_date_time(&unreadable, date_pattern(), "VID_20191231.mp4"),
        DateStep::Done(DateOutcome::Resolved(stamp(2019, 12, 1, 0, 0, 0)))
    );
}

#[test]
fn file_time_is_asked_for_when_file_and_name_say_nothing() {
    assert_eq!(
        extract_date_time(&EmbeddedMetadata::Unavailable, date_pattern(), "holiday.jpg"),
        DateStep::ReadFileTime
    );
    assert_eq!(
        extract_date_time(&EmbeddedMetadata::Unavailable, date_pattern(), "20230715_20230716.jpg"),
        DateStep::ReadFileTime
    );
}

#[test]
fn file_time_is_taken_unasked_with_the_fallback() {
    assert_eq!(
        extract_media_creation_time_from_file_metadata(Some(1689422400), true),
        DateStep::Done(DateOutcome::Resolved(stamp(2023, 7, 15, 12, 0, 0)))
    );
}

#[test]
fn file_time_is_put_before_the_operator_without_the_fallback() {
    assert_eq!(
        extract_media_creation_time_from_file_metadata(Some(1689422400), false),
        DateStep::AskOperator(stamp(2023, 7, 15, 12, 0, 0))
    );
}

#[test]
fn no_file_time_leaves_the_date_undeterminable() {
    assert_eq!(extract_media_creation_time_from_file_metadata(None, true), DateStep::Done(DateOutcome::Undeterminable));
    assert_eq!(extract_media_creation_time_from_file_metadata(None, false), DateStep::Done(DateOutcome::Undeterminable));
    assert_eq!(extract_media_creation_time_from_file_metadata(Some(i64::MAX), true), DateStep::Done(DateOutcome::Undeterminable));
}

#[test]
fn operator_accepts_the_file_time() {
    let file_time = stamp(2023, 7, 15, 12, 0, 0);
    assert_eq!(apply_date_choice(file_time, DateChoice::UseFileTime), DateStep::Done(DateOutcome::Resolved(file_time)));
}

#[test]
fn operator_enters_year_and_month() {
    let file_time = stamp(2023, 7, 15, 12, 0, 0);
    assert_eq!(
        apply_date_choice(file_time, DateChoice::Manual { year: 2022, month: 12 }),
        DateStep::Done(DateOutcome::Resolved(stamp(2022, 12, 1, 0, 0, 0)))
    );
}

#[test]
fn operator_is_asked_again_after_a_month_that_is_none() {
    let file_time = stamp(2023, 7, 15, 12, 0, 0);
    assert_eq!(
        apply_date_choice(file_time, DateChoice::Manual { year: 2022, month: 13 }),
        DateStep::AskOperator(file_time)
    );
    assert_eq!(
        apply_date_choice(file_time, DateChoice::Manual { year: 2022, month: 0 }),
        DateStep::AskOperator(file_time)
    );
}

#[test]
fn operator_skips_the_file() {
    let file_time = stamp(2023, 7, 15, 12, 0, 0);
    assert_eq!(apply_date_choice(file_time, DateChoice::Skip), DateStep::Done(DateOutcome::Skipped));
}

#[test]
fn resolve_date_takes_the_embedded_date_whatever_else_is_there() {
    let video = EmbeddedMetadata::Video("2021-03-04T05:06:07Z".to_string());
    let expected = DateStep::Done(DateOutcome::Resolved(stamp(2021, 3, 4, 5, 6, 7)));
    for path in ["VID_20230715.mp4", "nameless.mp4", "20230715_20230716.mp4"] {
        for file_seconds in [None, Some(0), Some(1689422400)] {
            for fallback in [false, true] {
                for answers in [vec![], vec![DateChoice::Skip], vec![DateChoice::UseFileTime]] {
                    assert_eq!(
                        resolve_date(&video, date_pattern(), path, file_seconds, fallback, &answers),
                        expected
                    );
                }
            }
        }
    }
}

#[test]
fn resolve_date_takes_the_name_before_the_file_time() {
    let expected = DateStep::Done(DateOutcome::Resolved(stamp(2023, 7, 1, 0, 0, 0)));
    for file_seconds in [None, Some(0)] {
        for fallback in [false, true] {
            assert_eq!(
                resolve_date(
                    &EmbeddedMetadata::Unavailable,
                    date_pattern(),
                    "IMG_20230715_120000.jpg",
                    file_seconds,
                    fallback,
                    &vec![DateChoice::Skip]
                ),
                expected
            );
        }
    }
}

#[test]
fn resolve_date_falls_through_a_name_with_two_dates() {
    let none = EmbeddedMetadata::Unavailable;
    assert_eq!(
        resolve_date(&none, date_pattern(), "20230715_20230716.jpg", Some(0), true, &vec![]),
        DateStep::Done(DateOutcome::Resolved(stamp(1970, 1, 1, 0, 0, 0)))
    );
    assert_eq!(
        resolve_date(&none, date_pattern(), "20230715_20230716.jpg", None, true, &vec![]),
        DateStep::Done(DateOutcome::Undeterminable)
    );
}

#[test]
fn resolve_date_asks_until_an_answer_can_be_taken() {
    let none = EmbeddedMetadata::Unavailable;
    let file_time = stamp(1970, 1, 1, 0, 0, 0);
    let resolve = |answers: Vec<DateChoice>| resolve_date(&none, date_pattern(), "x.jpg", Some(0), false, &answers);
    assert_eq!(resolve(vec![]), DateStep::AskOperator(file_time));
    assert_eq!(resolve(vec![DateChoice::UseFileTime]), DateStep::Done(DateOutcome::Resolved(file_time)));
    assert_eq!(resolve(vec![DateChoice::Skip]), DateStep::Done(DateOutcome::Skipped));
    assert_eq!(
        resolve(vec![DateChoice::Manual { year: 2001, month: 2 }, DateChoice::Skip]),
        DateStep::Done(DateOutcome::Resolved(stamp(2001, 2, 1, 0, 0, 0)))
    );
    assert_eq!(resolve(vec![DateChoice::Manual { year: 2001, month: 13 }]), DateStep::AskOperator(file_time));
    assert_eq!(
        resolve(vec![DateChoice::Manual { year: 2001, month: 13 }, DateChoice::Manual { year: 2001, month: 12 }]),
        DateStep::Done(DateOutcome::Resolved(stamp(2001, 12, 1, 0, 0, 0)))
    );
}

#[test]
fn resolve_date_fails_without_any_source() {
    assert_eq!(
        resolve_date(&EmbeddedMetadata::Unavailable, date_pattern(), "x.jpg", None, false, &vec![DateChoice::UseFileTime]),
        DateStep::Done(DateOutcome::Undeterminable)
    );
}
