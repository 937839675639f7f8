use resume_pipeline::projects::default_cap;
use resume_pipeline::projects::format_of;
use resume_pipeline::projects::project_from_row;
use resume_pipeline::projects::projects_from_rows;
use resume_pipeline::projects::Cell;
use resume_pipeline::projects::SpreadsheetFormat;

fn text(value: &str) -> Cell {
    Cell { text: value.to_string(), number: None }
}

fn number(value: i64) -> Cell {
    Cell { text: value.to_string(), number: Some(value) }
}

fn headers(names: &[&str]) -> Vec<String> {
    names.iter().map(|n| n.to_string()).collect()
}

#[test]
fn default_capacity_is_one() {
    assert_eq!(default_cap(), 1);
}

#[test]
fn format_follows_the_extension() {
    assert_eq!(format_of("projects.csv"), Some(SpreadsheetFormat::Csv));
    assert_eq!(format_of("projects.xlsx"), Some(SpreadsheetFormat::Excel));
    assert_eq!(format_of("projects.xls"), Some(SpreadsheetFormat::Excel));
    assert_eq!(format_of("projects.ods"), None);
    assert_eq!(format_of("projects.CSV"), None);
    assert_eq!(format_of("csv"), None);
    assert_eq!(format_of(""), None);
    assert_eq!(format_of("archive.csv.zip"), None);
    assert_eq!(format_of(".csv"), Some(SpreadsheetFormat::Csv));
}

#[test]
fn row_is_read_under_its_headers() {
    let names = headers(&[
        "title",
        "description",
        "requirements",
        "manager",
        "deadline",
        "priority",
        "intern_cap",
    ]);
    let row = vec![
        text("Compiler"),
        text("Build one"),
        text("Rust"),
        text("Ada"),
        text("2025-01-01"),
        number(3),
        number(4),
    ];
    let project = project_from_row(&names, &row).unwrap();
    assert_eq!(project.title, "Compiler");
    assert_eq!(project.description, "Build one");
    assert_eq!(project.requirements, "Rust");
    assert_eq!(project.manager, "Ada");
    assert_eq!(project.deadline, "2025-01-01");
    assert_eq!(project.priority, 3);
    assert_eq!(project.intern_cap, 4);
}

#[test]
fn aliases_name_the_same_fields() {
    let names =
        headers(&["project name", "about", "skills", "lead", "due date", "priority", "capacity"]);
    let row = vec![
        text("Parser"),
        text("A"),
        text("B"),
        text("C"),
        text("D"),
        number(-2),
        number(7),
    ];
    let project = project_from_row(&names, &row).unwrap();
    assert_eq!(project.title, "Parser");
    assert_eq!(project.description, "A");
    assert_eq!(project.requirements, "B");
    assert_eq!(project.manager, "C");
    assert_eq!(project.deadline, "D");
    assert_eq!(project.priority, -2);
    assert_eq!(project.intern_cap, 7);
    let project = project_from_row(&headers(&["title", "interns"]), &vec![text("X"), number(9)]);
    assert_eq!(project.unwrap().intern_cap, 9);
}

#[test]
fn missing_columns_take_their_defaults() {
    let project = project_from_row(&headers(&["title"]), &vec![text("Solo")]).unwrap();
    assert_eq!(project.title, "Solo");
    assert_eq!(project.description, "");
    assert_eq!(project.priority, 0);
    assert_eq!(project.intern_cap, 1);
}

#[test]
fn cells_without_a_number_take_the_default() {
    let names = headers(&["title", "priority", "capacity"]);
    let row = vec![text("T"), text("high"), text("many")];
    let project = project_from_row(&names, &row).unwrap();
    assert_eq!(project.priority, 0);
    assert_eq!(project.intern_cap, 1);
}

#[test]
fn numbers_are_cut_to_sixteen_bits() {
    let names = headers(&["title", "priority", "capacity"]);
    let row = vec![text("T"), number(70000), number(-32769)];
    let project = project_from_row(&names, &row).unwrap();
    assert_eq!(project.priority, 4464);
    assert_eq!(project.intern_cap, 32767);
    let row = vec![text("T"), number(32767), number(65536)];
    let project = project_from_row(&names, &row).unwrap();
    assert_eq!(project.priority, 32767);
    assert_eq!(project.intern_cap, 0);
}

#[test]
fn row_without_title_is_no_project() {
    let names = headers(&["title", "manager"]);
    assert!(project_from_row(&names, &vec![text(""), text("Ada")]).is_none());
    assert!(project_from_row(&headers(&["manager"]), &vec![text("Ada")]).is_none());
    assert!(project_from_row(&names, &Vec::new()).is_none());
}

#[test]
fn unknown_and_surplus_columns_are_passed_over() {
    let names = headers(&["title", "budget"]);
    let row = vec![text("T"), text("100"), text("beyond the headers")];
    let project = project_from_row(&names, &row).unwrap();
    assert_eq!(project.title, "T");
    assert_eq!(project.description, "");
}

#[test]
fn later_column_of_the_same_field_stands() {
    let names = headers(&["title", "project name"]);
    let project = project_from_row(&names, &vec![text("first"), text("second")]).unwrap();
    assert_eq!(project.title, "second");
    assert!(project_from_row(&names, &vec![text("first"), text("")]).is_none());
}

#[test]
fn header_names_are_matched_exactly() {
    let names = headers(&["Title", " title"]);
    assert!(project_from_row(&names, &vec![text("a"), text("b")]).is_none());
}

#[test]
fn sheet_headers_are_read_in_any_case() {
    let rows = vec![
        vec![text("Project Name"), text("MANAGER"), text("Priority"), text("Interns")],
        vec![text("Compiler"), text("Ada"), number(1), number(2)],
        vec![text(""), text("nobody"), number(5), number(5)],
        vec![text("Linker"), text("Grace"), text("n/a")],
    ];
    let projects = projects_from_rows(&rows);
    assert_eq!(projects.len(), 2);
    assert_eq!(projects[0].title, "Compiler");
    assert_eq!(projects[0].manager, "Ada");
    assert_eq!(projects[0].priority, 1);
    assert_eq!(projects[0].intern_cap, 2);
    assert_eq!(projects[1].title, "Linker");
    assert_eq!(projects[1].manager, "Grace");
    assert_eq!(projects[1].priority, 0);
    assert_eq!(projects[1].intern_cap, 1);
}

#[test]
fn sheet_without_rows_or_body_has_no_projects() {
    assert_eq!(projects_from_rows(&Vec::new()).len(), 0);
    assert_eq!(projects_from_rows(&vec![vec![text("title")]]).len(), 0);
}

#[test]
fn header_row_is_not_a_project() {
    let rows = vec![vec![text("title")], vec![text("title")]];
    let projects = projects_from_rows(&rows);
    assert_eq!(projects.len(), 1);
    assert_eq!(projects[0].title, "title");
}
