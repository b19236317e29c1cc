//! Calendar entries of rooms, as the calendar service hands them out.

use crate::text::{concat, owned, str_eq};
use vstd::prelude::*;

verus! {

#[verifier::external_type_specification]
#[verifier::external_body]
pub struct ExNaiveDateTime(chrono::NaiveDateTime);

/// One calendar entry of a room, as the scraper stored it.
#[derive(Debug)]
pub struct XMLEvent {
    pub dtstart: chrono::NaiveDateTime,
    pub dtend: chrono::NaiveDateTime,
    pub event_title: String,
    pub single_event_type_id: String,
    pub single_event_type_name: String,
    pub event_type_id: String,
    pub event_type_name: Option<String>,
    pub course_type_name: Option<String>,
}

/// The kind of a calendar entry.
#[derive(Clone, Debug)]
pub enum EventType {
    /// A lecture, with the name of its course type.
    Lecture(String),
    Exercise,
    Exam,
    /// The room is not available.
    Barred,
    /// Anything else, with a description.
    Other(String),
}

/// Name of the course type of an entry, with a placeholder where the entry
/// has none.
pub open spec fn course_type_label(event: XMLEvent) -> Seq<char> {
    match event.course_type_name {
        Some(name) => name@,
        None => "Course type is unknown"@,
    }
}

/// `kind` is the kind of `event`: the single event type decides first
/// (`SPERRE`, `PT`, `P`), then the event type (`LV`, `PT`, `EX`); anything
/// else is described by the single event type name and the event type name.
pub open spec fn is_event_type_of(event: XMLEvent, kind: EventType) -> bool {
    let single = event.single_event_type_id@;
    let general = event.event_type_id@;
    if single == "SPERRE"@ {
        kind is Barred
    } else if single == "PT"@ {
        kind is Exam
    } else if single == "P"@ {
        kind matches EventType::Lecture(s) && s@ == course_type_label(event)
    } else if general == "LV"@ {
        kind matches EventType::Lecture(s) && s@ == course_type_label(event)
    } else if general == "PT"@ {
        kind is Exam
    } else if general == "EX"@ {
        kind is Exercise
    } else {
        match event.event_type_name {
            Some(name) => kind matches EventType::Other(s) && s@
                == event.single_event_type_name@ + ": "@ + name@,
            None => kind matches EventType::Other(s) && s@ == event.single_event_type_name@,
        }
    }
}

/// How a stored entry is classified, for every entry: a blocked room
/// (`SPERRE`) is barred; an exam (`PT`, as single or general event type) is an
/// exam; a planned exam (`P`) and a course (`LV`) are lectures that carry the
/// entry's course type name, or "Course type is unknown" where it has none;
/// an exercise (`EX`) is an exercise; anything else is described by its
/// single event type name, followed by ": " and its event type name where it
/// has one.
pub proof fn law_event_classification(event: XMLEvent, kind: EventType)
    requires
        is_event_type_of(event, kind),
    ensures
        event.single_event_type_id@ == "SPERRE"@ ==> kind == EventType::Barred,
        event.single_event_type_id@ == "PT"@ ==> kind == EventType::Exam,
        event.single_event_type_id@ == "P"@ || (event.single_event_type_id@ != "SPERRE"@
            && event.single_event_type_id@ != "PT"@ && event.event_type_id@ == "LV"@) ==> {
            &&& kind is Lecture
            &&& event.course_type_name matches Some(c) ==> kind->Lecture_0@ == c@
            &&& event.course_type_name is None ==> kind->Lecture_0@ == "Course type is unknown"@
        },
        event.single_event_type_id@ != "SPERRE"@ && event.single_event_type_id@ != "PT"@
            && event.single_event_type_id@ != "P"@ ==> {
            &&& event.event_type_id@ == "PT"@ ==> kind == EventType::Exam
            &&& event.event_type_id@ == "EX"@ ==> kind == EventType::Exercise
            &&& event.event_type_id@ != "LV"@ && event.event_type_id@ != "PT"@
                && event.event_type_id@ != "EX"@ ==> {
                &&& kind is Other
                &&& event.event_type_name matches Some(n) ==> kind->Other_0@
                    == event.single_event_type_name@ + ": "@ + n@
                &&& event.event_type_name is None ==> kind->Other_0@
                    == event.single_event_type_name@
            }
        },
{
    broadcast use vstd::string::group_string_axioms;

    reveal_strlit("SPERRE");
    reveal_strlit("PT");
    reveal_strlit("P");
    reveal_strlit("LV");
    reveal_strlit("EX");
    assert("PT"@.len() != "SPERRE"@.len());
    assert("P"@.len() != "SPERRE"@.len());
    assert("P"@.len() != "PT"@.len());
    assert("LV"@[0] != "PT"@[0]);
    assert("LV"@[0] != "EX"@[0]);
    assert("PT"@[0] != "EX"@[0]);
}

impl EventType {
    /// The kind of a calendar entry.
    pub fn from(xml_event: &XMLEvent) -> (r: Self)
        ensures
            is_event_type_of(*xml_event, r),
    {
        // only used for the lecture type
        let course_type_name = match &xml_event.course_type_name {
            Some(name) => name.clone(),
            None => owned("Course type is unknown"),
        };
        let single = xml_event.single_event_type_id.as_str();
        if str_eq(single, "SPERRE") {
            return EventType::Barred;
        }
        if str_eq(single, "PT") {
            return EventType::Exam;
        }
        // "Prüfung (geplant)" is sometimes used for lectures
        if str_eq(single, "P") {
            return EventType::Lecture(course_type_name);
        }
        let general = xml_event.event_type_id.as_str();
        if str_eq(general, "LV") {
            EventType::Lecture(course_type_name)
        } else if str_eq(general, "PT") {
            EventType::Exam
        } else if str_eq(general, "EX") {
            EventType::Exercise
        } else {
            match &xml_event.event_type_name {
                Some(event_type_name) => {
                    let mut description = concat(
                        xml_event.single_event_type_name.as_str(),
                        ": ",
                    );
                    description.append(event_type_name.as_str());
                    EventType::Other(description)
                },
                None => EventType::Other(xml_event.single_event_type_name.clone()),
            }
        }
    }
}

/// A calendar entry as the calendar service hands it out.
#[derive(Debug)]
pub struct Event {
    pub title: String,
    pub start: chrono::NaiveDateTime,
    pub end: chrono::NaiveDateTime,
    pub entry_type: EventType,
}

impl Event {
    /// The entry that the calendar service hands out for a stored entry.
    pub fn from_xml_event(xml_event: XMLEvent) -> (r: Event)
        ensures
            r.title == xml_event.event_title,
            r.start == xml_event.dtstart,
            r.end == xml_event.dtend,
            is_event_type_of(xml_event, r.entry_type),
    {
        let entry_type = EventType::from(&xml_event);
        Event {
            title: xml_event.event_title,
            start: xml_event.dtstart,
            end: xml_event.dtend,
            entry_type,
        }
    }
}

/// `event` is what the calendar service hands out for the stored entry
/// `xml_event`.
pub open spec fn is_event_of(xml_event: XMLEvent, event: Event) -> bool {
    &&& event.title == xml_event.event_title
    &&& event.start == xml_event.dtstart
    &&& event.end == xml_event.dtend
    &&& is_event_type_of(xml_event, event.entry_type)
}

/// The entries of a room calendar, with the time of the last completed sync
/// with the source.
#[derive(Debug)]
pub struct Events {
    pub events: Vec<Event>,
    pub last_sync: chrono::NaiveDateTime,
}

/// The answer of the calendar service: one handed-out entry for each stored
/// entry, in the same order.
pub fn collect_events(xml_events: Vec<XMLEvent>, last_sync: chrono::NaiveDateTime) -> (r: Events)
    ensures
        r.last_sync == last_sync,
        r.events.len() == xml_events.len(),
        forall|i: int| 0 <= i < xml_events.len() ==> #[trigger] is_event_of(xml_events[i], r.events[i]),
{
    let ghost all = xml_events@;
    let mut rest = xml_events;
    let mut events: Vec<Event> = Vec::new();
    while rest.len() > 0
        invariant
            events.len() + rest.len() == all.len(),
            rest@ == all.subrange(events.len() as int, all.len() as int),
            forall|i: int| 0 <= i < events.len() ==> #[trigger] is_event_of(all[i], events[i]),
        decreases rest.len(),
    {
        let ghost done = events.len();
        let xml_event = rest.remove(0);
        assert(xml_event == all[done as int]);
        events.push(Event::from_xml_event(xml_event));
    }
    Events { events, last_sync }
}

/// Link to the source code that the service runs: the tree of the given
/// commit where one is known, otherwise the repository.
pub fn source_code_link(commit_hash: Option<&str>) -> (r: String)
    ensures
        match commit_hash {
            Some(hash) => r@ == "https://github.com/TUM-Dev/navigatum"@ + "/tree/"@ + hash@,
            None => r@ == "https://github.com/TUM-Dev/navigatum"@,
        },
{
    let gh_base = owned("https://github.com/TUM-Dev/navigatum");
    match commit_hash {
        Some(hash) => {
            let mut link = gh_base;
            link.append("/tree/");
            link.append(hash);
            link
        },
        None => gh_base,
    }
}

/// A handed-out entry keeps the title, the start and the end of the stored
/// entry, and carries its kind.
pub proof fn law_event_keeps_entry(xml_event: XMLEvent, event: Event)
    requires
        is_event_of(xml_event, event),
    ensures
        event.title == xml_event.event_title,
        event.start == xml_event.dtstart,
        event.end == xml_event.dtend,
        is_event_type_of(xml_event, event.entry_type),
{
}

} // verus!
