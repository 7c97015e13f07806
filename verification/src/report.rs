//! Reports: a title, an author, a timestamp, data points and a summary.

use crate::clock::{current_timestamp, has_timestamp_layout};
use crate::record::{DataPoint, Record};
use crate::summary::{Entries, Summary};
use vstd::prelude::*;
use vstd::string::*;

verus! {

/// The author named in every report.
pub const AUTHOR: &'static str = "Gabriel Demetrios Lafis";

/// A report.
#[derive(Debug)]
pub struct Report {
    pub title: String,
    pub author: String,
    pub timestamp: String,
    pub data: Vec<DataPoint>,
    pub summary: Summary,
}

/// The uppercase form of a text, as `str::to_uppercase` gives it.
pub uninterp spec fn uppercase(text: Seq<char>) -> Seq<char>;

/// Nothing is proved here of `str::to_uppercase` of the standard library:
/// what it returns has the name `uppercase`.
pub assume_specification[ str::to_uppercase ](text: &str) -> (upper: String)
    ensures
        upper@ == uppercase(text@),
;

/// The title of a report on the uppercase label `upper`.
pub open spec fn title_text(upper: Seq<char>) -> Seq<char> {
    upper + " Report"@
}

/// The data points that every report holds.
pub open spec fn report_records() -> Seq<Record> {
    seq![
        Record { id: 1, value: 10000, category: "Performance"@ },
        Record { id: 2, value: 9550, category: "Quality"@ },
    ]
}

/// The summary that every report holds: two items, with a mean value of 97.75.
pub open spec fn report_summary() -> Entries {
    seq![("total_items"@, 200int), ("avg_value"@, 9775int)]
}

/// What a report on the uppercase label `upper` holds, but for its timestamp.
pub open spec fn is_report_on(report: Report, upper: Seq<char>) -> bool {
    &&& report.title@ == title_text(upper)
    &&& report.author@ == AUTHOR@
    &&& report.data.len() == 2
    &&& report.data.deep_view() == report_records()
    &&& report.summary.entries() == report_summary()
    &&& report.summary@ == Map::<Seq<char>, int>::empty().insert("total_items"@, 200).insert(
        "avg_value"@,
        9775,
    )
}

/// The title of a report on the uppercase label `upper`.
pub fn report_title(upper: &str) -> (title: String)
    ensures
        title@ == title_text(upper@),
{
    let mut title = upper.to_owned();
    title.append(" Report");
    title
}

/// Assembles the report on the uppercase label `upper`, stamped `timestamp`.
pub fn assemble_report(upper: &str, timestamp: String) -> (report: Report)
    ensures
        is_report_on(report, upper@),
        report.timestamp@ == timestamp@,
{
    let mut data: Vec<DataPoint> = Vec::new();
    data.push(DataPoint::new(1, 10000, "Performance"));
    data.push(DataPoint::new(2, 9550, "Quality"));
    let mut summary = Summary::new();
    summary.insert("total_items".to_owned(), 200);
    summary.insert("avg_value".to_owned(), 9775);
    proof {
        reveal_strlit("total_items");
        reveal_strlit("avg_value");
        assert("total_items"@.len() != "avg_value"@.len());
        assert(data.deep_view() =~= report_records());
        assert(summary.entries() =~= report_summary());
        assert(summary@ =~= Map::<Seq<char>, int>::empty().insert("total_items"@, 200).insert(
            "avg_value"@,
            9775,
        ));
    }
    Report { title: report_title(upper), author: AUTHOR.to_owned(), timestamp, data, summary }
}

/// Generates the report of the kind `report_type`: the title is the kind in
/// uppercase followed by " Report", the timestamp is the current time, and
/// the author, the data and the summary are always the same.
pub fn generate_report(report_type: &str) -> (report: Report)
    ensures
        is_report_on(report, uppercase(report_type@)),
        has_timestamp_layout(report.timestamp@),
{
    let upper = report_type.to_uppercase();
    assemble_report(upper.as_str(), current_timestamp())
}

} // verus!
