use navigatum::date::Date;
use navigatum::scraping::{FollowUp, ScrapeQueue, ScrapeRoomTask, Strategy};

fn ymd(year: i32, month: u32, day: u32) -> Date {
    Date::from_ymd_opt(year, month, day).unwrap()
}

fn task(from: Date, to: Date) -> ScrapeRoomTask {
    ScrapeRoomTask { key: "mi".to_string(), room_id: 7, from, to }
}

#[test]
fn queue_hands_out_its_task_once() {
    let mut queue = ScrapeQueue::new(task(ymd(2024, 3, 1), ymd(2024, 3, 4)));
    assert!(!queue.is_done());
    let first = queue.next_task().unwrap();
    assert_eq!(first.from, ymd(2024, 3, 1));
    assert_eq!(first.to, ymd(2024, 3, 4));
    assert!(queue.is_done());
    assert!(queue.next_task().is_none());
    assert_eq!(queue.record(&first, Ok(12)).kind(), "done");
    assert_eq!(queue.result().success_cnt, 12);
    assert!(!queue.result().retry_smaller_happened);
}

trait Kind {
    fn kind(&self) -> &'static str;
}

impl Kind for FollowUp {
    fn kind(&self) -> &'static str {
        match self {
            FollowUp::Done => "done",
            FollowUp::Retry(_, _) => "retry",
            FollowUp::Unfulfillable => "unfulfillable",
        }
    }
}

#[test]
fn retried_halves_join_the_end_of_the_queue() {
    let mut queue = ScrapeQueue::new(task(ymd(2024, 3, 1), ymd(2024, 3, 4)));
    let whole = queue.next_task().unwrap();
    assert_eq!(queue.record(&whole, Err(Strategy::RetrySmaller)).kind(), "retry");
    assert!(queue.result().retry_smaller_happened);

    let lower = queue.next_task().unwrap();
    assert_eq!((lower.from, lower.to), (ymd(2024, 3, 1), ymd(2024, 3, 2)));
    assert_eq!(queue.record(&lower, Err(Strategy::RetrySmaller)).kind(), "retry");

    // the upper half was queued before the halves of the lower half
    let upper = queue.next_task().unwrap();
    assert_eq!((upper.from, upper.to), (ymd(2024, 3, 3), ymd(2024, 3, 4)));
    assert_eq!(queue.record(&upper, Ok(5)).kind(), "done");

    let first_day = queue.next_task().unwrap();
    assert_eq!((first_day.from, first_day.to), (ymd(2024, 3, 1), ymd(2024, 3, 1)));
    assert_eq!(
        queue.record(&first_day, Err(Strategy::RetrySmaller)).kind(),
        "unfulfillable"
    );
    let second_day = queue.next_task().unwrap();
    assert_eq!((second_day.from, second_day.to), (ymd(2024, 3, 2), ymd(2024, 3, 2)));
    assert_eq!(queue.record(&second_day, Err(Strategy::NoRetry)).kind(), "done");

    assert!(queue.is_done());
    assert_eq!(queue.result().success_cnt, 5);
    assert!(queue.result().retry_smaller_happened);
}

#[test]
fn retrying_a_year_ends() {
    let mut queue = ScrapeQueue::new(ScrapeRoomTask::new(("mi".to_string(), 7), 2023, 1));
    let mut requests = 0;
    while let Some(next) = queue.next_task() {
        requests += 1;
        queue.record(&next, Err(Strategy::RetrySmaller));
    }
    // every split of n days into halves, down to single days: 2 * 365 - 1
    assert_eq!(requests, 729);
}

#[test]
fn task_for_a_number_of_days() {
    let task = ScrapeRoomTask::starting_at(("mi".to_string(), 7), ymd(2024, 2, 28), 3).unwrap();
    assert_eq!(task.key, "mi");
    assert_eq!(task.room_id, 7);
    assert_eq!(task.from, ymd(2024, 2, 28));
    assert_eq!(task.to, ymd(2024, 3, 1));
    assert_eq!(task.num_days(), 3);

    let empty = ScrapeRoomTask::starting_at(("mi".to_string(), 7), ymd(2024, 1, 1), 0).unwrap();
    assert_eq!(empty.to, ymd(2023, 12, 31));
    assert_eq!(empty.num_days(), 0);
}

#[test]
fn task_past_the_last_date_is_refused() {
    let last = ymd(262142, 12, 31);
    assert!(ScrapeRoomTask::starting_at(("mi".to_string(), 7), last, 1).is_none());
    let before_last = ymd(262142, 12, 30);
    assert!(ScrapeRoomTask::starting_at(("mi".to_string(), 7), before_last, 1).is_some());
    assert!(ScrapeRoomTask::starting_at(("mi".to_string(), 7), before_last, 2).is_none());
    let first = ymd(-262143, 1, 1);
    assert!(ScrapeRoomTask::starting_at(("mi".to_string(), 7), first, 0).is_none());
}
