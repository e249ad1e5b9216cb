//! A test page, `/t/:did`, that gathers the records of every service.
use vstd::prelude::*;

use crate::resources::atpage::{all_of, merge_records, sorted_newest_first, AtRecord, RecordSource, RecordsRes};

verus! {

/// The sources the test page gathers, in the order it reads them.
pub open spec fn test_sources() -> Seq<RecordSource> {
    seq![
        RecordSource::Frontpage,
        RecordSource::Whitewind,
        RecordSource::Pinksea,
        RecordSource::Ruthub,
        RecordSource::Smokesignal,
        RecordSource::Grain,
        RecordSource::Recipe,
        RecordSource::Leaflet,
    ]
}

/// The sources the test page gathers.
pub fn all_sources() -> (r: Vec<RecordSource>)
    ensures
        r@ == test_sources(),
{
    let mut r: Vec<RecordSource> = Vec::new();
    r.push(RecordSource::Frontpage);
    r.push(RecordSource::Whitewind);
    r.push(RecordSource::Pinksea);
    r.push(RecordSource::Ruthub);
    r.push(RecordSource::Smokesignal);
    r.push(RecordSource::Grain);
    r.push(RecordSource::Recipe);
    r.push(RecordSource::Leaflet);
    assert(r@ =~= test_sources());
    r
}

/// for test only: the records of all sources, newest first.
pub fn all_records(batches: Vec<Vec<AtRecord>>) -> (r: RecordsRes)
    ensures
        sorted_newest_first(all_of(batches@.map_values(|b: Vec<AtRecord>| b@)), r.records@),
        r.cursor is None,
{
    merge_records(batches)
}

} // verus!
