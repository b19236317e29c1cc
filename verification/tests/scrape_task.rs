use navigatum::date::Date;
use navigatum::scraping::ScrapeRoomTask;

fn ymd(year: i32, month: u32, day: u32) -> Date {
    Date::from_ymd_opt(year, month, day).unwrap()
}

#[test]
fn test_split() {
    let task = ScrapeRoomTask::new(("".to_string(), 0), 2020, 1);
    let (o1, o2) = task.split();
    assert_eq!(task.from, ymd(2020, 1, 1));
    assert_eq!(task.to, ymd(2020, 12, 31));
    assert_eq!(o1.from, task.from);
    assert_eq!(o2.to, task.to);
    assert_eq!(o1.to.checked_add_days(1).unwrap(), o2.from);
}

#[test]
fn test_split_small() {
    let task = ScrapeRoomTask {
        key: "".to_string(),
        room_id: 0,
        from: ymd(2020, 1, 1),
        to: ymd(2020, 1, 2),
    };
    let (t1, t2) = task.split();
    assert_eq!(t1.to.checked_add_days(1).unwrap(), t2.from);
    assert_eq!(task.num_days(), 2);
    assert_eq!(task.from, t1.from);
    assert_eq!(task.to, t2.to);
    assert_eq!(t1.num_days(), 1);
    assert_eq!(t2.num_days(), 1);
    assert_eq!(task.from, t1.to);
    assert_eq!(task.to, t2.from);
}

#[test]
fn test_num_days() {
    let mut task = ScrapeRoomTask {
        key: "".to_string(),
        room_id: 0,
        from: ymd(2020, 1, 1),
        to: ymd(2020, 1, 1),
    };
    assert_eq!(task.num_days(), 1);
    task.to = ymd(2020, 1, 2);
    assert_eq!(task.num_days(), 2);
    task.to = ymd(2020, 12, 31);
    assert_eq!(task.num_days(), 366);
}

#[test]
fn test_same_day() {
    let task = ScrapeRoomTask::new(("".to_string(), 0), 2020, 0);
    assert_eq!(task.from, ymd(2020, 1, 1));
    assert_eq!(task.to, ymd(2019, 12, 31));
    assert_eq!(task.num_days(), 0);
}

use navigatum::date::{MAX_DAY, MAX_YEAR, MIN_YEAR};
use navigatum::scraping::{follow_up, FollowUp, ScrapeResult, Strategy};

#[test]
fn year_tasks_cover_the_days_of_their_year() {
    assert_eq!(ScrapeRoomTask::new(("a".to_string(), 1), 2021, 1).num_days(), 365);
    assert_eq!(ScrapeRoomTask::new(("a".to_string(), 1), 2000, 1).num_days(), 366);
    assert_eq!(ScrapeRoomTask::new(("a".to_string(), 1), 1900, 1).num_days(), 365);
    assert_eq!(ScrapeRoomTask::new(("a".to_string(), 1), 2020, 4).num_days(), 4 * 365 + 1);
}

#[test]
fn new_task_keeps_room() {
    let task = ScrapeRoomTask::new(("mw 1801".to_string(), 42), 2023, 2);
    assert_eq!(task.key, "mw 1801");
    assert_eq!(task.room_id, 42);
    assert_eq!(task.from, ymd(2023, 1, 1));
    assert_eq!(task.to, ymd(2024, 12, 31));
}

#[test]
fn split_of_odd_number_of_days_gives_smaller_half_first() {
    let task = ScrapeRoomTask {
        key: "k".to_string(),
        room_id: 7,
        from: ymd(2020, 3, 1),
        to: ymd(2020, 3, 5),
    };
    assert_eq!(task.num_days(), 5);
    let (first, second) = task.split();
    assert_eq!(first.num_days(), 2);
    assert_eq!(second.num_days(), 3);
    assert_eq!(first.to, ymd(2020, 3, 2));
    assert_eq!(second.from, ymd(2020, 3, 3));
    assert_eq!(first.key, "k");
    assert_eq!(second.room_id, 7);
}

#[test]
fn split_of_year_splits_at_mid_year() {
    let task = ScrapeRoomTask::new(("".to_string(), 0), 2020, 1);
    let (o1, o2) = task.split();
    assert_eq!(o1.to, ymd(2020, 7, 1));
    assert_eq!(o1.num_days(), 183);
    assert_eq!(o2.num_days(), 183);
}

#[test]
fn dates_follow_the_gregorian_calendar() {
    assert!(Date::from_ymd_opt(2015, 2, 29).is_none());
    assert!(Date::from_ymd_opt(2016, 2, 29).is_some());
    assert!(Date::from_ymd_opt(2015, 0, 14).is_none());
    assert!(Date::from_ymd_opt(2015, 4, 31).is_none());
    assert!(Date::from_ymd_opt(-4, 2, 29).is_some());
    assert!(Date::from_ymd_opt(400000, 1, 1).is_none());
    assert!(Date::from_ymd_opt(-400000, 1, 1).is_none());
    assert!(Date::from_ymd_opt(MAX_YEAR, 12, 31).is_some());
    assert!(Date::from_ymd_opt(MIN_YEAR, 1, 1).is_some());
    assert!(Date::from_ymd_opt(MAX_YEAR + 1, 1, 1).is_none());
    assert_eq!(ymd(2020, 2, 28).checked_add_days(2).unwrap(), ymd(2020, 3, 1));
    assert_eq!(ymd(2020, 3, 1).days_since(ymd(2019, 3, 1)), 366);
    assert_eq!(ymd(2019, 3, 1).days_since(ymd(2020, 3, 1)), -366);
    assert_eq!(ymd(2020, 1, 1).checked_sub_days(1).unwrap(), ymd(2019, 12, 31));
}

#[test]
fn dates_stop_at_the_range_of_chrono() {
    let last = ymd(MAX_YEAR, 12, 31);
    assert!(last.checked_add_days(1).is_none());
    assert!(last.checked_add_days(0).is_some());
    let first = ymd(MIN_YEAR, 1, 1);
    assert!(first.checked_sub_days(1).is_none());
    assert_eq!(last.days_since(first), (MAX_DAY as i64) + 95746129);
}

#[test]
fn dates_give_back_their_calendar_day() {
    assert_eq!(ymd(1999, 9, 3).ymd(), (1999, 9, 3));
    assert_eq!(ymd(2024, 2, 29).ymd(), (2024, 2, 29));
    assert_eq!(ymd(1, 1, 1).ymd(), (1, 1, 1));
    assert_eq!(ymd(0, 12, 31).ymd(), (0, 12, 31));
    assert_eq!(ymd(MAX_YEAR, 12, 31).ymd(), (MAX_YEAR, 12, 31));
    assert_eq!(ymd(MIN_YEAR, 1, 1).ymd(), (MIN_YEAR, 1, 1));
    assert_eq!(ymd(2023, 12, 31).checked_add_days(1).unwrap().ymd(), (2024, 1, 1));
}

#[test]
fn answered_request_counts_entries() {
    let task = ScrapeRoomTask::new(("".to_string(), 0), 2020, 1);
    let mut progress = ScrapeResult::new();
    let next = follow_up(&task, Ok(12), &mut progress);
    assert!(matches!(next, FollowUp::Done));
    assert_eq!(progress.success_cnt, 12);
    assert!(!progress.retry_smaller_happened);
}

#[test]
fn refused_request_is_given_up() {
    let task = ScrapeRoomTask::new(("".to_string(), 0), 2020, 1);
    let mut progress = ScrapeResult { retry_smaller_happened: false, success_cnt: 3 };
    let next = follow_up(&task, Err(Strategy::NoRetry), &mut progress);
    assert!(matches!(next, FollowUp::Done));
    assert_eq!(progress, ScrapeResult { retry_smaller_happened: false, success_cnt: 3 });
}

#[test]
fn request_for_fewer_days_splits_the_task() {
    let task = ScrapeRoomTask::new(("x".to_string(), 5), 2021, 1);
    let mut progress = ScrapeResult::new();
    match follow_up(&task, Err(Strategy::RetrySmaller), &mut progress) {
        FollowUp::Retry(first, second) => {
            assert_eq!(first.from, task.from);
            assert_eq!(second.to, task.to);
            assert_eq!(first.num_days() + second.num_days(), 365);
            assert_eq!(first.num_days(), 182);
        }
        other => panic!("unexpected follow-up {:?}", other),
    }
    assert!(progress.retry_smaller_happened);
}

#[test]
fn single_day_cannot_be_split() {
    let task = ScrapeRoomTask {
        key: "".to_string(),
        room_id: 0,
        from: ymd(2020, 1, 1),
        to: ymd(2020, 1, 1),
    };
    let mut progress = ScrapeResult::new();
    let next = follow_up(&task, Err(Strategy::RetrySmaller), &mut progress);
    assert!(matches!(next, FollowUp::Unfulfillable));
    assert!(progress.retry_smaller_happened);
    assert_eq!(progress.success_cnt, 0);
}
