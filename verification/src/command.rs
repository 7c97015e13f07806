//! The three commands of the tool and the lines that each of them prints.

use crate::aggregate::{aggregate, categories, category_total, grouped};
use crate::clock::has_timestamp_layout;
use crate::decimal::{amount_text, decimal_text, format_amount};
use crate::record::{DataPoint, Record};
use crate::report::{generate_report, is_report_on, uppercase, Report};
use crate::summary::{entries_in, Entries, Summary};
use vstd::prelude::*;
use vstd::string::*;

verus! {

/// The kind of report that is generated where none is asked for.
pub const DEFAULT_REPORT_TYPE: &'static str = "summary";

/// A command of the tool.
#[derive(Debug)]
pub enum Command {
    /// Analyze data from a file.
    Analyze { file: String },
    /// Generate a report of a kind.
    Report { type_: String },
    /// Show information on the tool and the system.
    Info,
}

/// What the tool is told about the system it runs on and about its package.
#[derive(Debug)]
pub struct Runtime {
    pub os: String,
    pub arch: String,
    pub package_version: String,
    pub rust_version: String,
}

/// The failure to write a report as structured text, with the encoder's
/// message.
#[derive(Debug)]
pub struct SerializationError {
    pub message: String,
}

/// What is left to do for a command.
#[derive(Debug)]
pub enum Action {
    /// Print the lines.
    Print { lines: Vec<String> },
    /// Print the lines, write the report as structured text, and print what
    /// `report_lines` gives for the outcome.
    Render { lines: Vec<String>, report: Report },
}

/// The lines that open every run.
pub open spec fn banner_text() -> Seq<Seq<char>> {
    seq!["🦀 Rust CLI Tool"@, "👨‍💻 Created by Gabriel Demetrios Lafis"@, ""@]
}

/// The data that the analysis works on.
pub open spec fn sample_records() -> Seq<Record> {
    seq![
        Record { id: 1, value: 10050, category: "A"@ },
        Record { id: 2, value: 20030, category: "B"@ },
        Record { id: 3, value: 15070, category: "A"@ },
    ]
}

/// The line for one entry of a summary: two spaces, the key, a colon and a
/// space, and the amount with two decimals.
pub open spec fn summary_line(entry: (Seq<char>, int)) -> Seq<char> {
    "  "@ + entry.0 + ": "@ + amount_text(entry.1)
}

/// One line for each entry, in order.
pub open spec fn summary_text(entries: Entries) -> Seq<Seq<char>> {
    Seq::new(entries.len(), |i: int| summary_line(entries[i]))
}

/// The lines that the analysis of the file at `file_path` prints.
pub open spec fn analysis_text(file_path: Seq<char>) -> Seq<Seq<char>> {
    seq!["📊 Analyzing file: "@ + file_path, "✅ Analysis complete!"@, "📈 Summary:"@]
        + summary_text(grouped(sample_records()))
}

/// The line that announces a report of the kind `report_type`.
pub open spec fn heading_text(report_type: Seq<char>) -> Seq<char> {
    "📄 Generating "@ + report_type + " report..."@
}

/// The lines for the outcome of writing a report as structured text.
pub open spec fn outcome_text(outcome: Result<Seq<char>, Seq<char>>) -> Seq<Seq<char>> {
    match outcome {
        Ok(text) => seq!["✅ Report generated successfully!"@, text],
        Err(message) => seq!["❌ Error generating report: "@ + message],
    }
}

/// The lines of information on the tool and the system.
pub open spec fn info_text(
    os: Seq<char>,
    arch: Seq<char>,
    package_version: Seq<char>,
    rust_version: Seq<char>,
) -> Seq<Seq<char>> {
    seq![
        "ℹ️  System Information"@,
        "🦀 Rust CLI Tool v1.0.0"@,
        "👨‍💻 Author: Gabriel Demetrios Lafis"@,
        "🏗️  Built with Rust and Clap"@,
        "📅 Build Date: "@ + package_version,
        ""@,
        "💻 Runtime Information:"@,
        "  OS: "@ + os,
        "  Architecture: "@ + arch,
        "  Rust Version: "@ + rust_version,
    ]
}

/// `action` is what is left to do for `command` on the system `runtime`.
pub open spec fn is_action_for(action: Action, command: Command, runtime: Runtime) -> bool {
    match command {
        Command::Analyze { file } => {
            &&& action matches Action::Print { lines }
            &&& lines.deep_view() == analysis_text(file@)
        },
        Command::Report { type_ } => {
            &&& action matches Action::Render { lines, report }
            &&& lines.deep_view() == seq![heading_text(type_@)]
            &&& is_report_on(report, uppercase(type_@))
            &&& has_timestamp_layout(report.timestamp@)
        },
        Command::Info => {
            &&& action matches Action::Print { lines }
            &&& lines.deep_view() == info_text(
                runtime.os@,
                runtime.arch@,
                runtime.package_version@,
                runtime.rust_version@,
            )
        },
    }
}

/// The sample data hold 251.20 in category A and 200.30 in category B.
pub proof fn lemma_sample_totals()
    ensures
        grouped(sample_records()) == seq![("A"@, 25120int), ("B"@, 20030int)],
{
    let r3 = sample_records();
    let r2 = r3.drop_last();
    let r1 = r2.drop_last();
    let r0 = r1.drop_last();
    reveal_strlit("A");
    reveal_strlit("B");
    assert("A"@[0] != "B"@[0]);
    assert(r3.last() == r3[2] && r2.last() == r3[1] && r1.last() == r3[0] && r0.len() == 0);
    assert(categories(r0) =~= Seq::<Seq<char>>::empty());
    assert(categories(r1) =~= seq!["A"@]);
    assert(categories(r1)[0] == "A"@);
    assert(categories(r2) =~= seq!["A"@, "B"@]);
    assert(categories(r2)[0] == "A"@);
    assert(categories(r3) =~= seq!["A"@, "B"@]);
    assert(category_total(r0, "A"@) == 0 && category_total(r0, "B"@) == 0);
    assert(category_total(r1, "A"@) == 10050 && category_total(r1, "B"@) == 0);
    assert(category_total(r2, "A"@) == 10050 && category_total(r2, "B"@) == 20030);
    assert(category_total(r3, "A"@) == 25120 && category_total(r3, "B"@) == 20030);
    assert(grouped(r3) =~= seq![("A"@, 25120int), ("B"@, 20030int)]);
}

/// The lines of the analysis, written out.
pub proof fn lemma_analysis_text(file_path: Seq<char>)
    ensures
        analysis_text(file_path) == seq![
            "📊 Analyzing file: "@ + file_path,
            "✅ Analysis complete!"@,
            "📈 Summary:"@,
            "  A: 251.20"@,
            "  B: 200.30"@,
        ],
{
    lemma_sample_totals();
    reveal_strlit("A");
    reveal_strlit("B");
    reveal_strlit("  ");
    reveal_strlit(": ");
    reveal_strlit("  A: 251.20");
    reveal_strlit("  B: 200.30");
    reveal_with_fuel(decimal_text, 3);
    assert(amount_text(25120) =~= seq!['2', '5', '1', '.', '2', '0']);
    assert(amount_text(20030) =~= seq!['2', '0', '0', '.', '3', '0']);
    assert(summary_line(("A"@, 25120int)) =~= "  A: 251.20"@);
    assert(summary_line(("B"@, 20030int)) =~= "  B: 200.30"@);
    assert(summary_text(grouped(sample_records())) =~= seq!["  A: 251.20"@, "  B: 200.30"@]);
    assert(analysis_text(file_path) =~= seq![
        "📊 Analyzing file: "@ + file_path,
        "✅ Analysis complete!"@,
        "📈 Summary:"@,
        "  A: 251.20"@,
        "  B: 200.30"@,
    ]);
}

/// `prefix` followed by `rest`.
fn joined(prefix: &str, rest: &str) -> (text: String)
    ensures
        text@ == prefix@ + rest@,
{
    let mut text = prefix.to_owned();
    text.append(rest);
    text
}

/// The lines that open every run.
pub fn banner() -> (lines: Vec<String>)
    ensures
        lines.deep_view() == banner_text(),
{
    let mut lines: Vec<String> = Vec::new();
    lines.push("🦀 Rust CLI Tool".to_owned());
    lines.push("👨‍💻 Created by Gabriel Demetrios Lafis".to_owned());
    lines.push("".to_owned());
    assert(lines.deep_view() =~= banner_text());
    lines
}

/// The data that the analysis works on.
pub fn sample_data() -> (records: Vec<DataPoint>)
    ensures
        records.deep_view() == sample_records(),
{
    let mut records: Vec<DataPoint> = Vec::new();
    records.push(DataPoint::new(1, 10050, "A"));
    records.push(DataPoint::new(2, 20030, "B"));
    records.push(DataPoint::new(3, 15070, "A"));
    assert(records.deep_view() =~= sample_records());
    records
}

/// One line for each entry of `summary`, in order.
pub fn summary_lines(summary: &Summary) -> (lines: Vec<String>)
    ensures
        lines.deep_view() == summary_text(summary.entries()),
{
    let pairs = summary.pairs();
    let ghost entries = summary.entries();
    let mut lines: Vec<String> = Vec::new();
    let mut i: usize = 0;
    while i < pairs.len()
        invariant
            i <= pairs.len(),
            entries == entries_in(pairs@),
            lines@.len() == i,
            forall|j: int| 0 <= j < i ==> (#[trigger] lines@[j])@ == summary_line(entries[j]),
        decreases pairs.len() - i,
    {
        let mut line = joined("  ", pairs[i].0.as_str());
        line.append(": ");
        line.append(format_amount(pairs[i].1).as_str());
        assert(line@ =~= summary_line(entries[i as int]));
        lines.push(line);
        i += 1;
    }
    assert(lines.deep_view() =~= summary_text(entries));
    lines
}

/// The lines that the analysis of the file at `file_path` prints. The file
/// is not read: the analysis works on the sample data.
pub fn analyze_file(file_path: &str) -> (lines: Vec<String>)
    ensures
        lines.deep_view() == analysis_text(file_path@),
        lines.deep_view() == seq![
            "📊 Analyzing file: "@ + file_path@,
            "✅ Analysis complete!"@,
            "📈 Summary:"@,
            "  A: 251.20"@,
            "  B: 200.30"@,
        ],
{
    proof {
        lemma_analysis_text(file_path@);
    }
    let records = sample_data();
    let summary = aggregate(&records);
    let mut lines: Vec<String> = Vec::new();
    lines.push(joined("📊 Analyzing file: ", file_path));
    lines.push("✅ Analysis complete!".to_owned());
    lines.push("📈 Summary:".to_owned());
    let ghost head = lines.deep_view();
    let mut totals = summary_lines(&summary);
    let ghost tail = totals.deep_view();
    lines.append(&mut totals);
    assert(lines.deep_view() =~= head + tail);
    assert(lines.deep_view() =~= analysis_text(file_path@));
    lines
}

/// The line that announces a report of the kind `report_type`.
pub fn report_heading(report_type: &str) -> (line: String)
    ensures
        line@ == heading_text(report_type@),
{
    let mut line = joined("📄 Generating ", report_type);
    line.append(" report...");
    line
}

/// The lines for the outcome of writing a report as structured text: the
/// text after a line that tells of the success, or one line with the
/// failure's message.
pub fn report_lines(outcome: Result<String, SerializationError>) -> (lines: Vec<String>)
    ensures
        lines.deep_view() == outcome_text(
            match outcome {
                Ok(text) => Ok(text@),
                Err(error) => Err(error.message@),
            },
        ),
{
    let mut lines: Vec<String> = Vec::new();
    match outcome {
        Ok(text) => {
            lines.push("✅ Report generated successfully!".to_owned());
            lines.push(text);
            assert(lines.deep_view() =~= outcome_text(Ok(text@)));
        },
        Err(error) => {
            lines.push(joined("❌ Error generating report: ", error.message.as_str()));
            assert(lines.deep_view() =~= outcome_text(Err(error.message@)));
        },
    }
    lines
}

/// The lines of information on the tool and on the system `runtime`.
pub fn show_info(runtime: &Runtime) -> (lines: Vec<String>)
    ensures
        lines.deep_view() == info_text(
            runtime.os@,
            runtime.arch@,
            runtime.package_version@,
            runtime.rust_version@,
        ),
{
    let mut lines: Vec<String> = Vec::new();
    lines.push("ℹ️  System Information".to_owned());
    lines.push("🦀 Rust CLI Tool v1.0.0".to_owned());
    lines.push("👨‍💻 Author: Gabriel Demetrios Lafis".to_owned());
    lines.push("🏗️  Built with Rust and Clap".to_owned());
    lines.push(joined("📅 Build Date: ", runtime.package_version.as_str()));
    lines.push("".to_owned());
    lines.push("💻 Runtime Information:".to_owned());
    lines.push(joined("  OS: ", runtime.os.as_str()));
    lines.push(joined("  Architecture: ", runtime.arch.as_str()));
    lines.push(joined("  Rust Version: ", runtime.rust_version.as_str()));
    assert(lines.deep_view() =~= info_text(
        runtime.os@,
        runtime.arch@,
        runtime.package_version@,
        runtime.rust_version@,
    ));
    lines
}

/// Does the work of `command` up to what only the caller can do, and says
/// what is left: lines to print, and for a report the report to write as
/// structured text.
pub fn dispatch(command: &Command, runtime: &Runtime) -> (action: Action)
    ensures
        is_action_for(action, *command, *runtime),
{
    match command {
        Command::Analyze { file } => Action::Print { lines: analyze_file(file.as_str()) },
        Command::Report { type_ } => {
            let mut lines: Vec<String> = Vec::new();
            lines.push(report_heading(type_.as_str()));
            assert(lines.deep_view() =~= seq![heading_text(type_@)]);
            Action::Render { lines, report: generate_report(type_.as_str()) }
        },
        Command::Info => Action::Print { lines: show_info(runtime) },
    }
}

} // verus!
