//! Project rows imported from an uploaded spreadsheet.

use crate::text::ends_with;
use crate::text::has_suffix;
use crate::text::same_text;
use vstd::prelude::*;

verus! {

/// One project, as a spreadsheet row describes it.
pub struct ProjectData {
    pub title: String,
    pub description: String,
    pub requirements: String,
    pub manager: String,
    pub deadline: String,
    pub priority: i16,
    pub intern_cap: i16,
}

pub struct ProjectDataView {
    pub title: Seq<char>,
    pub description: Seq<char>,
    pub requirements: Seq<char>,
    pub manager: Seq<char>,
    pub deadline: Seq<char>,
    pub priority: i16,
    pub intern_cap: i16,
}

impl View for ProjectData {
    type V = ProjectDataView;

    open spec fn view(&self) -> ProjectDataView {
        ProjectDataView {
            title: self.title@,
            description: self.description@,
            requirements: self.requirements@,
            manager: self.manager@,
            deadline: self.deadline@,
            priority: self.priority,
            intern_cap: self.intern_cap,
        }
    }
}

/// The views of `projects`, in order.
pub open spec fn project_views(projects: Seq<ProjectData>) -> Seq<ProjectDataView> {
    projects.map_values(|p: ProjectData| p@)
}

/// The number of interns a project takes when its row does not say.
pub fn default_cap() -> (cap: i16)
    ensures
        cap == 1,
{
    1
}

/// The spreadsheet formats that can be imported.
#[derive(Clone, Copy, Debug, PartialEq, Eq, Structural)]
pub enum SpreadsheetFormat {
    Csv,
    Excel,
}

/// The format that a file name announces: `.csv` is CSV, `.xlsx` and `.xls`
/// are Excel, and anything else is not imported.
pub open spec fn announced_format(filename: Seq<char>) -> Option<SpreadsheetFormat> {
    if has_suffix(filename, ".csv"@) {
        Some(SpreadsheetFormat::Csv)
    } else if has_suffix(filename, ".xlsx"@) || has_suffix(filename, ".xls"@) {
        Some(SpreadsheetFormat::Excel)
    } else {
        None
    }
}

pub fn format_of(filename: &str) -> (format: Option<SpreadsheetFormat>)
    ensures
        format == announced_format(filename@),
{
    if ends_with(filename, ".csv") {
        Some(SpreadsheetFormat::Csv)
    } else if ends_with(filename, ".xlsx") || ends_with(filename, ".xls") {
        Some(SpreadsheetFormat::Excel)
    } else {
        None
    }
}

/// One cell of a sheet: its text, and its value as an integer where it has
/// one.
pub struct Cell {
    pub text: String,
    pub number: Option<i64>,
}

pub struct CellView {
    pub text: Seq<char>,
    pub number: Option<i64>,
}

impl View for Cell {
    type V = CellView;

    open spec fn view(&self) -> CellView {
        CellView { text: self.text@, number: self.number }
    }
}

/// The views of the cells of a row, in order.
pub open spec fn cell_views(row: Seq<Cell>) -> Seq<CellView> {
    row.map_values(|c: Cell| c@)
}

/// The views of the rows of a sheet, in order.
pub open spec fn row_views(rows: Seq<Vec<Cell>>) -> Seq<Seq<CellView>> {
    rows.map_values(|r: Vec<Cell>| cell_views(r@))
}

/// The lower-case form of a text, as `str::to_lowercase` gives it.
pub uninterp spec fn lowercased(text: Seq<char>) -> Seq<char>;

/// `str::to_lowercase`: the text with each character replaced by its
/// lower-case form.
#[verifier::external_body]
fn to_lowercase(text: &str) -> (lower: String)
    ensures
        lower@ == lowercased(text@),
{
    text.to_lowercase()
}

/// The number in `cell` cut down to 16 bits, or `missing` where the cell
/// holds no integer.
pub open spec fn small_number(cell: CellView, missing: i16) -> i16 {
    match cell.number {
        Some(n) => n as i16,
        None => missing,
    }
}

impl ProjectDataView {
    /// A row before any of its cells has been read.
    pub open spec fn blank() -> ProjectDataView {
        ProjectDataView {
            title: Seq::empty(),
            description: Seq::empty(),
            requirements: Seq::empty(),
            manager: Seq::empty(),
            deadline: Seq::empty(),
            priority: 0,
            intern_cap: 1,
        }
    }

    /// The row after the cell under the column `header` has been read. A
    /// column whose header is none of the known names is passed over.
    pub open spec fn with_cell(self, header: Seq<char>, cell: CellView) -> ProjectDataView {
        if header == "title"@ || header == "project name"@ {
            ProjectDataView { title: cell.text, ..self }
        } else if header == "description"@ || header == "about"@ {
            ProjectDataView { description: cell.text, ..self }
        } else if header == "requirements"@ || header == "skills"@ {
            ProjectDataView { requirements: cell.text, ..self }
        } else if header == "manager"@ || header == "lead"@ {
            ProjectDataView { manager: cell.text, ..self }
        } else if header == "deadline"@ || header == "due date"@ {
            ProjectDataView { deadline: cell.text, ..self }
        } else if header == "priority"@ {
            ProjectDataView { priority: small_number(cell, 0), ..self }
        } else if header == "intern_cap"@ || header == "capacity"@ || header == "interns"@ {
            ProjectDataView { intern_cap: small_number(cell, 1), ..self }
        } else {
            self
        }
    }
}

/// The header of column `column`; a column beyond the header row has the
/// empty header.
pub open spec fn header_at(headers: Seq<Seq<char>>, column: int) -> Seq<char> {
    if 0 <= column < headers.len() {
        headers[column]
    } else {
        Seq::empty()
    }
}

/// The row after its first `upto` cells have been read, left to right; where
/// two columns name the same field, the later one stands.
pub open spec fn row_fields(headers: Seq<Seq<char>>, row: Seq<CellView>, upto: int) -> ProjectDataView
    decreases upto,
{
    if upto <= 0 {
        ProjectDataView::blank()
    } else {
        row_fields(headers, row, upto - 1).with_cell(
            header_at(headers, upto - 1),
            row[upto - 1],
        )
    }
}

/// The project that a row describes; a row without a title describes none.
pub open spec fn project_of_row(headers: Seq<Seq<char>>, row: Seq<CellView>) -> Option<
    ProjectDataView,
> {
    let fields = row_fields(headers, row, row.len() as int);
    if fields.title.len() > 0 {
        Some(fields)
    } else {
        None
    }
}

/// The headers of a sheet: the texts of its first row, in lower case.
pub open spec fn sheet_headers(first_row: Seq<CellView>) -> Seq<Seq<char>> {
    first_row.map_values(|c: CellView| lowercased(c.text))
}

/// The projects of a sheet: its first row names the columns, and each later
/// row that has a title is one project, in order. A sheet without rows holds
/// none.
pub open spec fn projects_of_sheet(rows: Seq<Seq<CellView>>) -> Seq<ProjectDataView> {
    if rows.len() == 0 {
        Seq::empty()
    } else {
        let headers = sheet_headers(rows[0]);
        rows.subrange(1, rows.len() as int).filter_map(
            |row: Seq<CellView>| project_of_row(headers, row),
        )
    }
}

fn read_cell(fields: ProjectData, header: &str, cell: &Cell) -> (r: ProjectData)
    ensures
        r@ == fields@.with_cell(header@, cell@),
{
    let mut fields = fields;
    if same_text(header, "title") || same_text(header, "project name") {
        fields.title = cell.text.clone();
    } else if same_text(header, "description") || same_text(header, "about") {
        fields.description = cell.text.clone();
    } else if same_text(header, "requirements") || same_text(header, "skills") {
        fields.requirements = cell.text.clone();
    } else if same_text(header, "manager") || same_text(header, "lead") {
        fields.manager = cell.text.clone();
    } else if same_text(header, "deadline") || same_text(header, "due date") {
        fields.deadline = cell.text.clone();
    } else if same_text(header, "priority") {
        fields.priority = match cell.number {
            Some(n) => #[verifier::truncate]
            (n as i16),
            None => 0,
        };
    } else if same_text(header, "intern_cap") || same_text(header, "capacity") || same_text(
        header,
        "interns",
    ) {
        fields.intern_cap = match cell.number {
            Some(n) => #[verifier::truncate]
            (n as i16),
            None => default_cap(),
        };
    }
    fields
}

/// Reads one row under `headers`. Yields the project it describes, or
/// nothing where the row has no title.
pub fn project_from_row(headers: &Vec<String>, row: &Vec<Cell>) -> (r: Option<ProjectData>)
    ensures
        match r {
            Some(project) => project_of_row(headers@.map_values(|h: String| h@), cell_views(row@))
                == Some(project@),
            None => project_of_row(headers@.map_values(|h: String| h@), cell_views(row@))
                is None,
        },
{
    let ghost names = headers@.map_values(|h: String| h@);
    let ghost cells = cell_views(row@);
    let mut fields = ProjectData {
        title: String::new(),
        description: String::new(),
        requirements: String::new(),
        manager: String::new(),
        deadline: String::new(),
        priority: 0,
        intern_cap: default_cap(),
    };
    let mut column: usize = 0;
    while column < row.len()
        invariant
            column <= row.len(),
            names == headers@.map_values(|h: String| h@),
            cells == cell_views(row@),
            fields@ == row_fields(names, cells, column as int),
        decreases row.len() - column,
    {
        proof {
            reveal_strlit("");
            assert(""@ =~= Seq::<char>::empty());
        }
        let header = if column < headers.len() {
            headers[column].as_str()
        } else {
            ""
        };
        fields = read_cell(fields, header, &row[column]);
        column = column + 1;
    }
    if fields.title.as_str().is_empty() {
        None
    } else {
        Some(fields)
    }
}

/// Reads a sheet: the first row names the columns, whatever the case of its
/// letters, and every later row that has a title becomes a project.
pub fn projects_from_rows(rows: &Vec<Vec<Cell>>) -> (projects: Vec<ProjectData>)
    ensures
        project_views(projects@) == projects_of_sheet(row_views(rows@)),
{
    let mut projects: Vec<ProjectData> = Vec::new();
    if rows.len() == 0 {
        assert(project_views(projects@) =~= Seq::<ProjectDataView>::empty());
        return projects;
    }
    let ghost sheet = row_views(rows@);
    let ghost names = sheet_headers(sheet[0]);
    let mut headers: Vec<String> = Vec::new();
    let mut column: usize = 0;
    while column < rows[0].len()
        invariant
            rows@.len() > 0,
            column <= rows@[0]@.len(),
            sheet == row_views(rows@),
            names == sheet_headers(sheet[0]),
            headers@.len() == column,
            forall|j: int| 0 <= j < column ==> (#[trigger] headers@[j])@ == names[j],
        decreases rows@[0]@.len() - column,
    {
        headers.push(to_lowercase(rows[0][column].text.as_str()));
        column = column + 1;
    }
    assert(headers@.map_values(|h: String| h@) =~= names);
    let ghost body = sheet.subrange(1, sheet.len() as int);
    let ghost read = |row: Seq<CellView>| project_of_row(names, row);
    let mut index: usize = 1;
    assert(body.take(0).filter_map(read) =~= Seq::<ProjectDataView>::empty());
    while index < rows.len()
        invariant
            1 <= index <= rows@.len(),
            sheet == row_views(rows@),
            body == sheet.subrange(1, sheet.len() as int),
            read == |row: Seq<CellView>| project_of_row(names, row),
            headers@.map_values(|h: String| h@) == names,
            project_views(projects@) == body.take(index - 1).filter_map(read),
        decreases rows@.len() - index,
    {
        proof {
            body.lemma_filter_map_take_succ(read, index - 1);
            assert(body[index - 1] == cell_views(rows@[index as int]@));
        }
        match project_from_row(&headers, &rows[index]) {
            Some(project) => {
                projects.push(project);
            },
            None => {},
        }
        index = index + 1;
    }
    proof {
        assert(body.take(body.len() as int) =~= body);
    }
    projects
}

} // verus!
