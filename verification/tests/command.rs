use rust_cli_tool::aggregate::aggregate;
use rust_cli_tool::command::{
    analyze_file, banner, dispatch, report_heading, report_lines, sample_data, show_info,
    summary_lines, Action, Command, Runtime, SerializationError, DEFAULT_REPORT_TYPE,
};
use rust_cli_tool::summary::Summary;

fn runtime() -> Runtime {
    Runtime {
        os: "linux".to_string(),
        arch: "x86_64".to_string(),
        package_version: "1.0.0".to_string(),
        rust_version: "1.70".to_string(),
    }
}

#[test]
fn banner_names_the_tool_and_its_author() {
    assert_eq!(
        banner(),
        vec![
            "🦀 Rust CLI Tool".to_string(),
            "👨‍💻 Created by Gabriel Demetrios Lafis".to_string(),
            "".to_string(),
        ]
    );
}

#[test]
fn analyze_prints_the_sample_totals() {
    assert_eq!(
        analyze_file("anything.csv"),
        vec![
            "📊 Analyzing file: anything.csv".to_string(),
            "✅ Analysis complete!".to_string(),
            "📈 Summary:".to_string(),
            "  A: 251.20".to_string(),
            "  B: 200.30".to_string(),
        ]
    );
}

#[test]
fn analyze_does_not_look_at_the_file() {
    let missing = analyze_file("/no/such/dir/none.csv");
    let empty = analyze_file("");
    assert_eq!(missing[0], "📊 Analyzing file: /no/such/dir/none.csv");
    assert_eq!(empty[0], "📊 Analyzing file: ");
    assert_eq!(missing[1..], empty[1..]);
    assert_eq!(missing[3], "  A: 251.20");
    assert_eq!(missing[4], "  B: 200.30");
}

#[test]
fn summary_lines_follow_the_entries() {
    let mut summary = Summary::new();
    assert!(summary_lines(&summary).is_empty());
    summary.add("net".to_string(), -5);
    summary.add("gross".to_string(), 123456);
    summary.add("".to_string(), 0);
    assert_eq!(
        summary_lines(&summary),
        vec!["  net: -0.05".to_string(), "  gross: 1234.56".to_string(), "  : 0.00".to_string()]
    );
    assert_eq!(
        summary_lines(&aggregate(&sample_data())),
        vec!["  A: 251.20".to_string(), "  B: 200.30".to_string()]
    );
}

#[test]
fn heading_names_the_kind_as_given() {
    assert_eq!(report_heading("performance"), "📄 Generating performance report...");
    assert_eq!(report_heading(""), "📄 Generating  report...");
}

#[test]
fn written_report_follows_the_success_line() {
    let lines = report_lines(Ok("{\n  \"title\": \"X Report\"\n}".to_string()));
    assert_eq!(
        lines,
        vec![
            "✅ Report generated successfully!".to_string(),
            "{\n  \"title\": \"X Report\"\n}".to_string(),
        ]
    );
}

#[test]
fn serialization_error_is_reported_in_one_line() {
    let error = SerializationError { message: "key must be a string".to_string() };
    assert_eq!(
        report_lines(Err(error)),
        vec!["❌ Error generating report: key must be a string".to_string()]
    );
}

#[test]
fn info_shows_version_and_system() {
    let lines = show_info(&runtime());
    assert_eq!(
        lines,
        vec![
            "ℹ️  System Information".to_string(),
            "🦀 Rust CLI Tool v1.0.0".to_string(),
            "👨‍💻 Author: Gabriel Demetrios Lafis".to_string(),
            "🏗️  Built with Rust and Clap".to_string(),
            "📅 Build Date: 1.0.0".to_string(),
            "".to_string(),
            "💻 Runtime Information:".to_string(),
            "  OS: linux".to_string(),
            "  Architecture: x86_64".to_string(),
            "  Rust Version: 1.70".to_string(),
        ]
    );
}

#[test]
fn info_shows_the_system_it_is_given() {
    let there = Runtime {
        os: "macos".to_string(),
        arch: "aarch64".to_string(),
        package_version: "0.3.1".to_string(),
        rust_version: "".to_string(),
    };
    let lines = show_info(&there);
    assert!(lines.contains(&"🦀 Rust CLI Tool v1.0.0".to_string()));
    assert!(lines.contains(&"📅 Build Date: 0.3.1".to_string()));
    assert!(lines.contains(&"  OS: macos".to_string()));
    assert!(lines.contains(&"  Architecture: aarch64".to_string()));
    assert!(lines.contains(&"  Rust Version: ".to_string()));
    for line in &lines {
        assert!(!line.contains("251.20"));
        assert!(!line.contains("Report"));
    }
}

#[test]
fn dispatch_analyze_prints_the_analysis() {
    let command = Command::Analyze { file: "anything.csv".to_string() };
    match dispatch(&command, &runtime()) {
        Action::Print { lines } => assert_eq!(lines, analyze_file("anything.csv")),
        Action::Render { .. } => panic!("analyze renders nothing"),
    }
}

#[test]
fn dispatch_report_hands_out_the_report() {
    let command = Command::Report { type_: "performance".to_string() };
    match dispatch(&command, &runtime()) {
        Action::Render { lines, report } => {
            assert_eq!(lines, vec!["📄 Generating performance report...".to_string()]);
            assert_eq!(report.title, "PERFORMANCE Report");
            assert_eq!(report.author, "Gabriel Demetrios Lafis");
            assert_eq!(report.data.len(), 2);
            assert_eq!(report.summary.get("total_items"), Some(200));
            assert_eq!(report.summary.get("avg_value"), Some(9775));
        }
        Action::Print { .. } => panic!("a report is rendered"),
    }
}

#[test]
fn dispatch_report_of_the_default_kind() {
    assert_eq!(DEFAULT_REPORT_TYPE, "summary");
    let command = Command::Report { type_: DEFAULT_REPORT_TYPE.to_string() };
    match dispatch(&command, &runtime()) {
        Action::Render { lines, report } => {
            assert_eq!(lines, vec!["📄 Generating summary report...".to_string()]);
            assert_eq!(report.title, "SUMMARY Report");
            assert!(report.timestamp.ends_with("+00:00"));
        }
        Action::Print { .. } => panic!("a report is rendered"),
    }
}

#[test]
fn dispatch_info_prints_the_information() {
    match dispatch(&Command::Info, &runtime()) {
        Action::Print { lines } => assert_eq!(lines, show_info(&runtime())),
        Action::Render { .. } => panic!("info renders nothing"),
    }
}
