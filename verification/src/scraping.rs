//! Tasks that scrape the room calendars, and how a failed scrape is retried.

use crate::date::{
    days_before_year, is_leap_year, lemma_days_before_year_grows, lemma_year_length,
    new_year_day, Date, MAX_DAY, MAX_YEAR, MIN_DAY, MIN_YEAR,
};
use vstd::prelude::*;

verus! {

/// The calendar of one room, to be scraped for the days `from..=to`.
#[derive(Clone, Debug)]
pub struct ScrapeRoomTask {
    pub key: String,
    pub room_id: i32,
    pub from: Date,
    pub to: Date,
}

impl ScrapeRoomTask {
    /// Number of days from the morning of `from` to the evening of `to`
    /// (negative where `to` lies more than a day before `from`).
    pub open spec fn day_count(&self) -> int {
        self.to@ + 1 - self.from@
    }

    /// The task for the years `from_year .. from_year + year_duration`:
    /// from January 1 of `from_year` to the day before January 1 of
    /// `from_year + year_duration`.
    pub fn new(id: (String, i32), from_year: i32, year_duration: i32) -> (r: Self)
        requires
            MIN_YEAR <= from_year <= MAX_YEAR,
            MIN_YEAR < from_year + year_duration <= MAX_YEAR,
        ensures
            r.key == id.0,
            r.room_id == id.1,
            r.from@ == new_year_day(from_year as int),
            r.to@ == new_year_day(from_year + year_duration) - 1,
            year_duration >= 0 ==> r.day_count() >= 0,
    {
        let (key, room_id) = id;
        let until_year = from_year + year_duration;
        let from = Date::from_ymd_opt(from_year, 1, 1).unwrap();
        let next_start = Date::from_ymd_opt(until_year, 1, 1).unwrap();
        proof {
            lemma_year_length(MIN_YEAR as int);
            lemma_days_before_year_grows(MIN_YEAR + 1, until_year as int);
            assert(MIN_DAY == days_before_year(MIN_YEAR as int) + 1);
            if year_duration >= 0 {
                lemma_days_before_year_grows(from_year as int, until_year as int);
            }
        }
        let to = next_start.checked_sub_days(1).unwrap();
        ScrapeRoomTask { key, room_id, from, to }
    }

    /// An equal task.
    fn duplicate(&self) -> (r: Self)
        ensures
            r == *self,
    {
        ScrapeRoomTask { key: self.key.clone(), room_id: self.room_id, from: self.from, to: self.to }
    }

    /// The task for the `days` days from `from` on, or `None` where the day
    /// after the last of them cannot be represented (or, for no days, the day
    /// before `from`).
    pub fn starting_at(id: (String, i32), from: Date, days: u64) -> (r: Option<Self>)
        ensures
            r is Some <==> MIN_DAY <= from@ + days - 1 < MAX_DAY,
            r matches Some(task) ==> {
                &&& task.key == id.0
                &&& task.room_id == id.1
                &&& task.from == from
                &&& task.day_count() == days
                &&& scrapable(task)
            },
    {
        let (key, room_id) = id;
        let last = if days == 0 {
            from.checked_sub_days(1)
        } else {
            from.checked_add_days(days - 1)
        };
        match last {
            Some(to) => {
                if to.checked_add_days(1).is_some() {
                    Some(ScrapeRoomTask { key, room_id, from, to })
                } else {
                    None
                }
            },
            None => None,
        }
    }

    /// Number of days that the task covers, counted from the morning of
    /// `from` to the evening of `to`, as an unsigned number (a negative
    /// count wraps around).
    pub fn num_days(&self) -> (r: u64)
        requires
            self.to@ < MAX_DAY,
        ensures
            r == self.day_count() as u64,
            self.day_count() >= 0 ==> r == self.day_count(),
    {
        let next = self.to.checked_add_days(1).unwrap();
        next.days_since(self.from) as u64
    }

    /// Splits the task into two tasks that together cover its days: the
    /// first takes the lower half (rounded down), the second the rest.
    pub fn split(&self) -> (r: (Self, Self))
        requires
            self.from@ < self.to@ < MAX_DAY,
        ensures
            splits(*self, r.0, r.1),
    {
        let mid_offset = self.num_days() / 2 - 1;
        let lower_middle = self.from.checked_add_days(mid_offset).unwrap();
        let upper_start = lower_middle.checked_add_days(1).unwrap();
        (
            ScrapeRoomTask {
                key: self.key.clone(),
                room_id: self.room_id,
                from: self.from,
                to: lower_middle,
            },
            ScrapeRoomTask {
                key: self.key.clone(),
                room_id: self.room_id,
                from: upper_start,
                to: self.to,
            },
        )
    }
}

/// `first` and `second` are the halves of `task`: the same room, the lower
/// half of the days (rounded down) and the rest, one after the other.
pub open spec fn splits(task: ScrapeRoomTask, first: ScrapeRoomTask, second: ScrapeRoomTask) -> bool {
    &&& first.key == task.key
    &&& second.key == task.key
    &&& first.room_id == task.room_id
    &&& second.room_id == task.room_id
    &&& first.from == task.from
    &&& second.to == task.to
    &&& first.to@ == task.from@ + task.day_count() / 2 - 1
    &&& second.from@ == first.to@ + 1
    &&& first.day_count() == task.day_count() / 2
    &&& first.day_count() + second.day_count() == task.day_count()
    &&& 1 <= first.day_count() <= second.day_count()
}

/// How the calendar source asks that a failed request be handled.
#[derive(Clone, Copy, Debug, PartialEq, Eq)]
pub enum Strategy {
    /// Give the days up.
    NoRetry,
    /// Ask again for fewer days at a time.
    RetrySmaller,
}

/// What scraping the calendar of one room gave.
#[derive(Clone, Copy, Debug, PartialEq, Eq)]
pub struct ScrapeResult {
    /// Some request had to be retried in smaller pieces.
    pub retry_smaller_happened: bool,
    /// Number of calendar entries stored.
    pub success_cnt: usize,
}

impl ScrapeResult {
    /// Nothing scraped yet.
    pub open spec fn new_spec() -> Self {
        ScrapeResult { retry_smaller_happened: false, success_cnt: 0 }
    }

    /// Nothing scraped yet.
    pub fn new() -> (r: Self)
        ensures
            r == Self::new_spec(),
    {
        ScrapeResult { retry_smaller_happened: false, success_cnt: 0 }
    }
}

/// What follows one request for a task.
#[derive(Clone, Debug)]
pub enum FollowUp {
    /// Nothing more to ask for these days.
    Done,
    /// Ask again for the two halves of the days.
    Retry(ScrapeRoomTask, ScrapeRoomTask),
    /// The source asked for fewer days, but the task covers a single day
    /// (or none): it cannot be fulfilled.
    Unfulfillable,
}

/// Decides what follows the answer to a request for `task` and counts it
/// in `progress`: `Ok(n)` when the source sent `n` entries (which have been
/// stored), `Err(strategy)` when it refused.
pub fn follow_up(
    task: &ScrapeRoomTask,
    answer: Result<usize, Strategy>,
    progress: &mut ScrapeResult,
) -> (r: FollowUp)
    requires
        0 <= task.day_count(),
        task.to@ < MAX_DAY,
        answer matches Ok(n) ==> old(progress).success_cnt + n <= usize::MAX,
    ensures
        match answer {
            Ok(n) => {
                &&& r is Done
                &&& final(progress).success_cnt == old(progress).success_cnt + n
                &&& final(progress).retry_smaller_happened == old(progress).retry_smaller_happened
            },
            Err(Strategy::NoRetry) => r is Done && *final(progress) == *old(progress),
            Err(Strategy::RetrySmaller) => {
                &&& final(progress).success_cnt == old(progress).success_cnt
                &&& final(progress).retry_smaller_happened
                &&& task.day_count() > 1 ==> (r matches FollowUp::Retry(a, b) && splits(*task, a, b))
                &&& task.day_count() <= 1 ==> r is Unfulfillable
            },
        },
{
    match answer {
        Ok(n) => {
            progress.success_cnt = progress.success_cnt + n;
            FollowUp::Done
        },
        Err(Strategy::NoRetry) => FollowUp::Done,
        Err(Strategy::RetrySmaller) => {
            progress.retry_smaller_happened = true;
            if task.num_days() > 1 {
                let (first, second) = task.split();
                FollowUp::Retry(first, second)
            } else {
                FollowUp::Unfulfillable
            }
        },
    }
}

/// Retrying in smaller pieces makes progress: each piece covers fewer days
/// than the task it came from, the pieces together cover exactly its days,
/// and each piece can be counted and split again.
pub proof fn law_retry_shrinks(task: ScrapeRoomTask, first: ScrapeRoomTask, second: ScrapeRoomTask)
    requires
        task.to@ < MAX_DAY,
        splits(task, first, second),
    ensures
        0 < first.day_count() < task.day_count(),
        0 < second.day_count() < task.day_count(),
        first.day_count() + second.day_count() == task.day_count(),
        first.to@ < MAX_DAY,
        second.to@ < MAX_DAY,
{
}

/// A task for one whole year covers the days of that year: 366 in a leap
/// year, 365 otherwise.
pub proof fn law_year_task_covers_year(task: ScrapeRoomTask, year: int)
    requires
        task.from@ == new_year_day(year),
        task.to@ == new_year_day(year + 1) - 1,
    ensures
        task.day_count() == if is_leap_year(year) { 366int } else { 365int },
{
    lemma_year_length(year);
}

/// A task for zero years covers no day.
pub proof fn law_empty_task_covers_nothing(task: ScrapeRoomTask, year: int)
    requires
        task.from@ == new_year_day(year),
        task.to@ == new_year_day(year + 0) - 1,
    ensures
        task.day_count() == 0,
{
}

/// A task that can be counted and split: it covers no negative number of
/// days, and the day after its last one can still be represented.
pub open spec fn scrapable(task: ScrapeRoomTask) -> bool {
    0 <= task.day_count() && task.to@ < MAX_DAY
}

/// Weight of a task in the queue: the number of requests that it can cause
/// at most, were every answer a request to retry smaller.
pub open spec fn task_weight(task: ScrapeRoomTask) -> nat {
    if task.day_count() <= 1 {
        1
    } else {
        (2 * task.day_count() - 1) as nat
    }
}

/// Total weight of the tasks in `tasks`.
pub open spec fn pending_weight(tasks: Seq<ScrapeRoomTask>) -> nat
    decreases tasks.len(),
{
    if tasks.len() == 0 {
        0
    } else {
        task_weight(tasks.last()) + pending_weight(tasks.drop_last())
    }
}

/// The requests still to be made while scraping the calendar of one room,
/// in the order in which they are made, and what the answers so far gave.
///
/// Tasks come out in the order they went in: the halves of a task that has
/// to be retried are asked for after every task already waiting.
pub struct ScrapeQueue {
    tasks: Vec<ScrapeRoomTask>,
    result: ScrapeResult,
}

impl ScrapeQueue {
    #[verifier::type_invariant]
    spec fn every_task_scrapable(self) -> bool {
        forall|i: int| 0 <= i < self.tasks.len() ==> #[trigger] scrapable(self.tasks@[i])
    }

    /// The tasks still to be asked for, the next one first.
    pub closed spec fn pending(&self) -> Seq<ScrapeRoomTask> {
        self.tasks@
    }

    /// What the answers recorded so far gave.
    pub closed spec fn progress(&self) -> ScrapeResult {
        self.result
    }

    /// The queue for scraping `task`, with nothing scraped yet.
    pub fn new(task: ScrapeRoomTask) -> (r: Self)
        requires
            scrapable(task),
        ensures
            r.pending() == seq![task],
            r.progress() == ScrapeResult::new_spec(),
    {
        let mut tasks: Vec<ScrapeRoomTask> = Vec::new();
        tasks.push(task);
        ScrapeQueue { tasks, result: ScrapeResult::new() }
    }

    /// No request is left to be made.
    pub fn is_done(&self) -> (r: bool)
        ensures
            r == (self.pending().len() == 0),
    {
        self.tasks.len() == 0
    }

    /// What the answers recorded so far gave.
    pub fn result(&self) -> (r: ScrapeResult)
        ensures
            r == self.progress(),
    {
        self.result
    }

    /// Takes the next task to ask for out of the queue.
    pub fn next_task(&mut self) -> (r: Option<ScrapeRoomTask>)
        ensures
            final(self).progress() == old(self).progress(),
            old(self).pending().len() == 0 ==> r is None && final(self).pending() == old(self).pending(),
            old(self).pending().len() > 0 ==> {
                &&& r == Some(old(self).pending()[0])
                &&& scrapable(old(self).pending()[0])
                &&& final(self).pending() == old(self).pending().drop_first()
            },
    {
        proof {
            use_type_invariant(&*self);
        }
        if self.tasks.len() == 0 {
            None
        } else {
            let mut tasks: Vec<ScrapeRoomTask> = Vec::new();
            std::mem::swap(&mut tasks, &mut self.tasks);
            let task = tasks.remove(0);
            assert(scrapable(task)) by {
                assert(scrapable(old(self).tasks@[0]));
            }
            assert forall|i: int| 0 <= i < tasks.len() implies #[trigger] scrapable(tasks@[i]) by {
                assert(scrapable(old(self).tasks@[i + 1]));
            }
            std::mem::swap(&mut tasks, &mut self.tasks);
            Some(task)
        }
    }

    /// Records the answer to the request for `task` (see [`follow_up`]); the
    /// halves of a task that is to be retried smaller join the end of the
    /// queue.
    pub fn record(&mut self, task: &ScrapeRoomTask, answer: Result<usize, Strategy>) -> (r: FollowUp)
        requires
            scrapable(*task),
            answer matches Ok(n) ==> old(self).progress().success_cnt + n <= usize::MAX,
        ensures
            match answer {
                Ok(n) => {
                    &&& r is Done
                    &&& final(self).progress().success_cnt == old(self).progress().success_cnt + n
                    &&& final(self).progress().retry_smaller_happened == old(self).progress().retry_smaller_happened
                },
                Err(Strategy::NoRetry) => r is Done && final(self).progress() == old(self).progress(),
                Err(Strategy::RetrySmaller) => {
                    &&& final(self).progress().success_cnt == old(self).progress().success_cnt
                    &&& final(self).progress().retry_smaller_happened
                    &&& task.day_count() > 1 ==> (r matches FollowUp::Retry(a, b) && splits(*task, a, b))
                    &&& task.day_count() <= 1 ==> r is Unfulfillable
                },
            },
            match r {
                FollowUp::Retry(a, b) => final(self).pending() == old(self).pending().push(a).push(b),
                _ => final(self).pending() == old(self).pending(),
            },
    {
        proof {
            use_type_invariant(&*self);
        }
        let mut result = self.result;
        let next = follow_up(task, answer, &mut result);
        self.result = result;
        match &next {
            FollowUp::Retry(first, second) => {
                proof {
                    law_retry_shrinks(*task, *first, *second);
                }
                let mut tasks: Vec<ScrapeRoomTask> = Vec::new();
                std::mem::swap(&mut tasks, &mut self.tasks);
                tasks.push(first.duplicate());
                tasks.push(second.duplicate());
                assert forall|i: int| 0 <= i < tasks.len() implies #[trigger] scrapable(tasks@[i]) by {
                    if i < old(self).tasks.len() {
                        assert(scrapable(old(self).tasks@[i]));
                    }
                }
                std::mem::swap(&mut tasks, &mut self.tasks);
            },
            _ => {},
        }
        next
    }
}

/// Adding a task to the queue adds its weight.
pub proof fn lemma_pending_weight_push(tasks: Seq<ScrapeRoomTask>, task: ScrapeRoomTask)
    ensures
        pending_weight(tasks.push(task)) == pending_weight(tasks) + task_weight(task),
{
    assert(tasks.push(task).drop_last() == tasks);
}

/// Taking the first task out of the queue removes its weight.
pub proof fn lemma_pending_weight_drop_first(tasks: Seq<ScrapeRoomTask>)
    requires
        tasks.len() > 0,
    ensures
        pending_weight(tasks) == task_weight(tasks[0]) + pending_weight(tasks.drop_first()),
    decreases tasks.len(),
{
    if tasks.len() > 1 {
        let rest = tasks.drop_last();
        let tail = tasks.drop_first();
        lemma_pending_weight_drop_first(rest);
        assert(rest.drop_first() =~= tail.drop_last());
        assert(rest[0] == tasks[0]);
        assert(tail.last() == tasks.last());
        assert(pending_weight(tail) == task_weight(tail.last()) + pending_weight(tail.drop_last()));
        assert(pending_weight(tasks) == task_weight(tasks.last()) + pending_weight(rest));
    } else {
        assert(pending_weight(tasks.drop_first()) == 0);
        assert(pending_weight(tasks.drop_last()) == 0);
        assert(tasks.last() == tasks[0]);
    }
}

/// Scraping a room ends whatever the source answers: taking the next task
/// and recording its answer always leaves the queue lighter, whether the
/// task is finished, given up or split into halves that join the queue.
pub proof fn law_scrape_queue_shrinks(tasks: Seq<ScrapeRoomTask>, first: ScrapeRoomTask, second: ScrapeRoomTask)
    requires
        tasks.len() > 0,
        scrapable(tasks[0]),
        splits(tasks[0], first, second),
    ensures
        pending_weight(tasks.drop_first()) < pending_weight(tasks),
        pending_weight(tasks.drop_first().push(first).push(second)) < pending_weight(tasks),
{
    lemma_pending_weight_drop_first(tasks);
    lemma_pending_weight_push(tasks.drop_first(), first);
    lemma_pending_weight_push(tasks.drop_first().push(first), second);
    law_retry_shrinks(tasks[0], first, second);
}

/// The halves of a split task: both are for the same room; the first runs
/// from the task's first day for half of its days (rounded down), the second
/// from the next day to the task's last day. A task covers the days from its
/// first to its last, both included.
pub proof fn law_split_halves(task: ScrapeRoomTask, first: ScrapeRoomTask, second: ScrapeRoomTask)
    requires
        splits(task, first, second),
    ensures
        task.day_count() == task.to@ - task.from@ + 1,
        first.key == task.key && second.key == task.key,
        first.room_id == task.room_id && second.room_id == task.room_id,
        first.from == task.from,
        first.to@ == task.from@ + (task.to@ - task.from@ + 1) / 2 - 1,
        second.from@ == first.to@ + 1,
        second.to == task.to,
{
}

} // verus!
