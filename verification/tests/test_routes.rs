use dilbert_viewer::constants::{FIRST_COMIC, LAST_COMIC, SRC_DATE_FMT};
use dilbert_viewer::datetime::{str_to_date, Date};
use dilbert_viewer::handlers::{comic_date_at, comic_location, random_comic_date};

/// Number of times to run the random comic test
const RAND_TEST_ITER: usize = 100;

#[test]
fn test_random_comic_date_is_in_range() {
    let first = str_to_date(FIRST_COMIC, SRC_DATE_FMT).unwrap();
    let last = str_to_date(LAST_COMIC, SRC_DATE_FMT).unwrap();
    let mut seen = std::collections::HashSet::new();
    for _ in 0..RAND_TEST_ITER {
        let date = random_comic_date(&first, &last).expect("there are dates to choose from");
        assert!(first <= date && date < last, "Redirected to invalid date");
        seen.insert(date);
    }
    // The dates are not all the same one.
    assert!(seen.len() > 1);
}

#[test]
fn test_random_comic_date_of_one_day() {
    let first = Date::from_ymd_opt(2020, 1, 1).unwrap();
    let next = Date::from_ymd_opt(2020, 1, 2).unwrap();
    for _ in 0..10 {
        assert_eq!(random_comic_date(&first, &next), Some(first));
    }
}

#[test]
fn test_random_comic_date_without_dates() {
    let first = Date::from_ymd_opt(2020, 1, 1).unwrap();
    let earlier = Date::from_ymd_opt(2019, 12, 31).unwrap();
    assert_eq!(random_comic_date(&first, &first), None);
    assert_eq!(random_comic_date(&first, &earlier), None);
}

#[test]
fn test_comic_date_at() {
    let first = Date::from_ymd_opt(1989, 4, 16).unwrap();
    let last = Date::from_ymd_opt(2023, 3, 9).unwrap();
    assert_eq!(comic_date_at(&first, &last, 0), Some(first));
    assert_eq!(comic_date_at(&first, &last, 1), Date::from_ymd_opt(1989, 4, 17));
    assert_eq!(comic_date_at(&first, &last, 12_379), Date::from_ymd_opt(2023, 3, 8));
    assert_eq!(comic_date_at(&first, &last, 12_380), None);
    assert_eq!(comic_date_at(&first, &last, -1), None);
    assert_eq!(comic_date_at(&first, &last, i64::MAX), None);
    assert_eq!(comic_date_at(&first, &last, i64::MIN), None);
    assert_eq!(comic_date_at(&last, &first, 0), None);
    assert_eq!(comic_date_at(&first, &first, 0), None);
}

#[test]
fn test_comic_location() {
    assert_eq!(comic_location(&Date::from_ymd_opt(2000, 1, 1).unwrap()), "/2000-01-01");
    assert_eq!(comic_location(&Date::from_ymd_opt(1989, 4, 16).unwrap()), "/1989-04-16");
}
