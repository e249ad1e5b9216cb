//! Smoke Signal: events and RSVPs (`events.smokesignal.calendar.event`).
use vstd::prelude::*;
use vstd::string::StringExecFns;

use crate::helper::utils::{stamped, str_to_secs, time_text, time_text_fits};
use crate::resources::atpage::AtRecord;
use crate::resources::record::{uri_parts, uri_parts_of};
use crate::text::{blank, is_blank};

verus! {

pub struct SmokeSignalListResp {
    pub records: Vec<SmokeSignalResp>,
    pub cursor: Option<String>,
}

pub struct SmokeSignalResp {
    pub uri: String,
    pub cid: String,
    pub value: SmokeSignalValue,
}

#[allow(non_snake_case)]
pub struct SmokeSignalValue {
    pub kind: String,
    pub name: String,
    pub text: Option<String>,
    pub startsAt: Option<String>,
    pub endsAt: Option<String>,
    pub createdAt: String,
}

/// The collection of events.
pub const SMOKESIGNAL_COLLECTION: &'static str = "events.smokesignal.calendar.event";

/// A time that is given and not blank.
pub open spec fn given(t: Option<String>) -> bool {
    t matches Some(s) && !blank(s@)
}

/// `sch` is the schedule of an event: empty without a start; the start's
/// time; or, with an end as well, `<start> - <end> UTC`.
pub open spec fn schedule_fits(sch: Seq<char>, starts: Option<String>, ends: Option<String>) -> bool {
    if !given(starts) {
        sch.len() == 0
    } else if !given(ends) {
        time_text_fits(sch, starts->0@)
    } else {
        exists|a: Seq<char>, b: Seq<char>|
            #![trigger time_text_fits(a, starts->0@), time_text_fits(b, ends->0@)]
            sch == a + " - "@ + b + " UTC"@ && time_text_fits(a, starts->0@) && time_text_fits(
                b,
                ends->0@,
            )
    }
}

/// The schedule of an event, as its record shows it.
pub fn schedule(starts: &Option<String>, ends: &Option<String>) -> (r: String)
    ensures
        schedule_fits(r@, *starts, *ends),
{
    let mut schedule = String::new();
    match starts {
        Some(starts_at) => {
            if !is_blank(starts_at.as_str()) {
                schedule = time_text(starts_at.as_str());
                let ghost a = schedule@;
                match ends {
                    Some(ends_at) => {
                        if !is_blank(ends_at.as_str()) {
                            let end = time_text(ends_at.as_str());
                            schedule.append(" - ");
                            schedule.append(end.as_str());
                            schedule.append(" UTC");
                            assert(time_text_fits(a, starts_at@));
                            assert(time_text_fits(end@, ends_at@));
                            assert(schedule@ == a + " - "@ + end@ + " UTC"@);
                        }
                    },
                    None => {},
                }
            }
        },
        None => {},
    }
    schedule
}

/// `r` shows the event `e`: its schedule, then its text (or its name where it
/// has none).
pub open spec fn is_smokesignal_record(e: SmokeSignalResp, r: AtRecord) -> bool {
    let (did, _col, rkey) = uri_parts_of(e.uri@);
    let text = match e.value.text {
        Some(t) => t@,
        None => e.value.name@,
    };
    &&& r.kind@ == "smokesignal"@
    &&& r.title@ == "Event - "@ + e.value.name@
    &&& r.link@ == "https://smokesignal.events/"@ + did + "/"@ + rkey
    &&& exists|sch: Seq<char>|
        #![trigger schedule_fits(sch, e.value.startsAt, e.value.endsAt)]
        schedule_fits(sch, e.value.startsAt, e.value.endsAt) && r.content@ == sch + " \n\n "@ + text
    &&& r.images@.len() == 0
    &&& stamped(r.timestamp, e.value.createdAt@)
}

/// The record an event shows as.
pub fn smokesignal_record(entry: &SmokeSignalResp) -> (r: AtRecord)
    ensures
        is_smokesignal_record(*entry, r),
{
    let (did, _col, rkey) = uri_parts(entry.uri.as_str());
    let mut link = String::from_str("https://smokesignal.events/");
    link.append(did.as_str());
    link.append("/");
    link.append(rkey.as_str());
    let value = &entry.value;
    let sch = schedule(&value.startsAt, &value.endsAt);
    let mut content = sch.clone();
    content.append(" \n\n ");
    match &value.text {
        Some(t) => content.append(t.as_str()),
        None => content.append(value.name.as_str()),
    }
    let mut title = String::from_str("Event - ");
    title.append(value.name.as_str());
    let r = AtRecord {
        kind: String::from_str("smokesignal"),
        title,
        link,
        content,
        images: Vec::new(),
        timestamp: str_to_secs(value.createdAt.as_str()),
    };
    assert(schedule_fits(sch@, entry.value.startsAt, entry.value.endsAt));
    r
}

/// The records of a listed page of events, in the order listed, and the
/// cursor of the listing.
pub fn smokesignal_records(list: SmokeSignalListResp) -> (r: (Vec<AtRecord>, Option<String>))
    ensures
        r.0@.len() == list.records@.len(),
        forall|i: int|
            0 <= i < r.0@.len() ==> is_smokesignal_record(list.records@[i], #[trigger] r.0@[i]),
        r.1 == list.cursor,
{
    let mut recs: Vec<AtRecord> = Vec::new();
    let mut i: usize = 0;
    while i < list.records.len()
        invariant
            i <= list.records@.len(),
            recs@.len() == i,
            forall|k: int|
                0 <= k < i ==> is_smokesignal_record(list.records@[k], #[trigger] recs@[k]),
        decreases list.records@.len() - i,
    {
        let rec = smokesignal_record(&list.records[i]);
        recs.push(rec);
        i = i + 1;
    }
    (recs, list.cursor)
}


/// The record of an event ends with the event's text, after the schedule and
/// " \n\n "; the event's name takes the text's place only where it has none.
/// Without a start time the schedule is empty.
pub proof fn law_event_record_shows_text(e: SmokeSignalResp, r: AtRecord)
    requires
        is_smokesignal_record(e, r),
    ensures
        ({
            let text = if e.value.text is Some {
                e.value.text->0@
            } else {
                e.value.name@
            };
            &&& r.content@.len() >= text.len() + 4
            &&& r.content@.subrange(r.content@.len() - text.len(), r.content@.len() as int) == text
            &&& r.content@.subrange(
                r.content@.len() - text.len() - 4,
                r.content@.len() - text.len(),
            ) == " \n\n "@
            &&& !given(e.value.startsAt) ==> r.content@ == " \n\n "@ + text
        }),
{
    reveal_strlit(" \n\n ");
    let text = if e.value.text is Some {
        e.value.text->0@
    } else {
        e.value.name@
    };
    let sch = choose|sch: Seq<char>|
        schedule_fits(sch, e.value.startsAt, e.value.endsAt) && r.content@ == sch + " \n\n "@ + text;
    let c = r.content@;
    assert(c.subrange(c.len() - text.len(), c.len() as int) =~= text);
    assert(c.subrange(c.len() - text.len() - 4, c.len() - text.len()) =~= " \n\n "@);
    if !given(e.value.startsAt) {
        assert(sch.len() == 0);
        assert(sch + " \n\n "@ =~= " \n\n "@);
    }
}
} // verus!
