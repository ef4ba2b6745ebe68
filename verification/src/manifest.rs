//! Manifest loading: parsing the delimited table, checking its header and
//! rows, and screening each row into a sync rule.
//!
//! The manifest is comma-separated text with a fixed header row. A row with
//! the wrong number of fields is fatal for the whole run; a row whose
//! overwrite flag is not recognized is merely dropped. Directory existence
//! is checked afterwards, rule by rule, through `crate::dircache`.

use crate::text::str_eq;
use vstd::prelude::*;
use vstd::string::StrSliceExecFns;
use vstd::string::StringExecFns;

verus! {

/// One validated manifest row: copy `filename` from the local directory to
/// the sync directory, overwriting an existing destination only when
/// `overwrite_allowed` holds.
#[derive(Clone, Debug, PartialEq, Eq)]
pub struct SyncRule {
    pub filename: String,
    pub local_directory: String,
    pub sync_directory: String,
    pub overwrite_allowed: bool,
}

/// The mathematical content of a sync rule.
pub struct SyncRuleV {
    pub filename: Seq<char>,
    pub local_directory: Seq<char>,
    pub sync_directory: Seq<char>,
    pub overwrite_allowed: bool,
}

impl View for SyncRule {
    type V = SyncRuleV;

    open spec fn view(&self) -> SyncRuleV {
        SyncRuleV {
            filename: self.filename@,
            local_directory: self.local_directory@,
            sync_directory: self.sync_directory@,
            overwrite_allowed: self.overwrite_allowed,
        }
    }
}

/// A fatal fault of the manifest as a whole: the run stops, and no rule at
/// all comes out of the loader.
#[derive(Clone, Copy, Debug, PartialEq, Eq, Structural)]
pub enum LoadError {
    /// The bytes could not be split into rows of text fields.
    ParseFailure,
    /// The first row is not the required header.
    HeaderMismatch,
    /// Some data row does not have exactly four fields.
    WrongColumnCount,
}

/// The required header row, in order.
pub open spec fn expected_header() -> Seq<Seq<char>> {
    seq!["filename"@, "local_directory"@, "sync_directory"@, "overwrite_allowed"@]
}

/// The overwrite flag a field carries: `y`/`Y` allow, `n`/`N` deny, and any
/// other value marks the row as unusable.
pub open spec fn spec_flag(s: Seq<char>) -> Option<bool> {
    if s == "y"@ || s == "Y"@ {
        Some(true)
    } else if s == "n"@ || s == "N"@ {
        Some(false)
    } else {
        None
    }
}

/// The rule a four-field row with a recognized overwrite flag stands for.
pub open spec fn row_rule(row: Seq<Seq<char>>) -> SyncRuleV
    recommends
        row.len() == 4,
        spec_flag(row[3]) is Some,
{
    SyncRuleV {
        filename: row[0],
        local_directory: row[1],
        sync_directory: row[2],
        overwrite_allowed: spec_flag(row[3])->Some_0,
    }
}

/// The rules of a sequence of four-field data rows, in manifest order; a
/// row with an unrecognized overwrite flag contributes nothing.
pub open spec fn rules_of_rows(rows: Seq<Seq<Seq<char>>>) -> Seq<SyncRuleV>
    decreases rows.len(),
{
    if rows.len() == 0 {
        Seq::empty()
    } else if spec_flag(rows.last()[3]) is Some {
        rules_of_rows(rows.drop_last()).push(row_rule(rows.last()))
    } else {
        rules_of_rows(rows.drop_last())
    }
}

/// What screening a whole manifest yields: the header must be exact, every
/// data row must have four fields, and the surviving rows' rules come out
/// in manifest order.
pub open spec fn spec_screen(records: Seq<Seq<Seq<char>>>) -> Result<Seq<SyncRuleV>, LoadError> {
    if records.len() == 0 || records[0] != expected_header() {
        Err(LoadError::HeaderMismatch)
    } else if exists|i: int| 1 <= i < records.len() && records[i].len() != 4 {
        Err(LoadError::WrongColumnCount)
    } else {
        Ok(rules_of_rows(records.skip(1)))
    }
}

/// The views of a sequence of rules.
pub open spec fn rules_view(rules: Seq<SyncRule>) -> Seq<SyncRuleV> {
    rules.map_values(|r: SyncRule| r@)
}

/// Whether `path` ends in the recognized manifest extension `.csv`.
pub open spec fn spec_has_csv_extension(path: Seq<char>) -> bool {
    path.len() >= 4 && path.skip(path.len() - 4) == ".csv"@
}

/// Checks that the manifest path carries the `.csv` extension.
pub fn has_csv_extension(path: &str) -> (r: bool)
    ensures
        r == spec_has_csv_extension(path@),
{
    let n = path.unicode_len();
    if n < 4 {
        return false;
    }
    let tail = path.substring_char(n - 4, n);
    proof {
        assert(path@.subrange(n - 4, n as int) =~= path@.skip(n - 4));
    }
    str_eq(tail, ".csv")
}

/// Reads the overwrite flag of a row: `y`/`Y` allow, `n`/`N` deny, and any
/// other value is unrecognized.
pub fn parse_overwrite_flag(s: &str) -> (r: Option<bool>)
    ensures
        r == spec_flag(s@),
{
    if str_eq(s, "y") || str_eq(s, "Y") {
        Some(true)
    } else if str_eq(s, "n") || str_eq(s, "N") {
        Some(false)
    } else {
        None
    }
}

/// Checks that `record` is exactly the required header row.
pub fn header_matches(record: &Vec<String>) -> (r: bool)
    ensures
        r == (record.deep_view() == expected_header()),
{
    if record.len() != 4 {
        proof {
            assert(record.deep_view().len() == record@.len());
        }
        return false;
    }
    let r = str_eq(record[0].as_str(), "filename") && str_eq(record[1].as_str(), "local_directory")
        && str_eq(record[2].as_str(), "sync_directory") && str_eq(
        record[3].as_str(),
        "overwrite_allowed",
    );
    proof {
        if r {
            assert(record.deep_view() =~= expected_header());
        } else {
            assert(record.deep_view() != expected_header());
        }
    }
    r
}

/// What screening one data row decides.
pub enum RowVerdict {
    /// The row does not have exactly four fields: fatal for the whole run.
    WrongColumns,
    /// The overwrite flag is unrecognized: the row is dropped.
    InvalidFlag,
    /// The row is usable and stands for this rule.
    Accept(SyncRule),
}

/// Screens one data row: four fields are required, the overwrite flag must
/// be recognized, and a usable row becomes its rule.
pub fn screen_row(row: &Vec<String>) -> (r: RowVerdict)
    ensures
        (r is WrongColumns) == (row.deep_view().len() != 4),
        (r is InvalidFlag) == (row.deep_view().len() == 4 && spec_flag(row.deep_view()[3])
            is None),
        (r is Accept) == (row.deep_view().len() == 4 && spec_flag(row.deep_view()[3]) is Some),
        r matches RowVerdict::Accept(rule) ==> rule@ == row_rule(row.deep_view()),
{
    if row.len() != 4 {
        return RowVerdict::WrongColumns;
    }
    match parse_overwrite_flag(row[3].as_str()) {
        None => RowVerdict::InvalidFlag,
        Some(overwrite_allowed) => RowVerdict::Accept(
            SyncRule {
                filename: row[0].clone(),
                local_directory: row[1].clone(),
                sync_directory: row[2].clone(),
                overwrite_allowed,
            },
        ),
    }
}

/// Screens a whole manifest, header row included, into its rules.
pub fn screen_rows(records: &Vec<Vec<String>>) -> (r: Result<Vec<SyncRule>, LoadError>)
    ensures
        (match r {
            Ok(rules) => spec_screen(records.deep_view()) == Ok::<Seq<SyncRuleV>, LoadError>(
                rules_view(rules@),
            ),
            Err(e) => spec_screen(records.deep_view()) == Err::<Seq<SyncRuleV>, LoadError>(e),
        }),
{
    let ghost recs = records.deep_view();
    if records.len() == 0 {
        return Err(LoadError::HeaderMismatch);
    }
    if !header_matches(&records[0]) {
        return Err(LoadError::HeaderMismatch);
    }
    let n = records.len();
    let mut rules: Vec<SyncRule> = Vec::new();
    let mut i: usize = 1;
    while i < n
        invariant
            1 <= i <= n,
            n == records.len(),
            recs == records.deep_view(),
            recs.len() == n,
            recs[0] == expected_header(),
            forall|j: int| 1 <= j < i ==> recs[j].len() == 4,
            rules_view(rules@) == rules_of_rows(recs.subrange(1, i as int)),
        decreases n - i,
    {
        let ghost prefix = recs.subrange(1, i as int);
        let ghost grown = recs.subrange(1, i + 1);
        proof {
            assert(grown.drop_last() =~= prefix);
            assert(grown.last() == recs[i as int]);
        }
        match screen_row(&records[i]) {
            RowVerdict::WrongColumns => {
                return Err(LoadError::WrongColumnCount);
            },
            RowVerdict::InvalidFlag => {},
            RowVerdict::Accept(rule) => {
                let ghost before = rules@;
                rules.push(rule);
                proof {
                    assert(rules_view(rules@) =~= rules_view(before).push(rule@));
                }
            },
        }
        i = i + 1;
    }
    proof {
        assert(recs.skip(1) =~= recs.subrange(1, n as int));
    }
    Ok(rules)
}

/// The rows that the `csv` crate reads out of these bytes, as text fields,
/// or nothing where it refuses a record.
pub uninterp spec fn csv_records_of(data: Seq<u8>) -> Option<Seq<Seq<Seq<char>>>>;

/// Relies on `csv::ReaderBuilder` and `csv::Reader::records`: the bytes are
/// split on commas and newlines with standard quoting, no row treated as a
/// header and no field-count enforced, a function of the bytes alone;
/// `None` stands for a record the reader refuses (such as invalid UTF-8).
#[verifier::external_body]
fn parse_csv_records(data: &[u8]) -> (r: Option<Vec<Vec<String>>>)
    ensures
        (match r {
            Some(records) => csv_records_of(data@) == Some(records.deep_view()),
            None => csv_records_of(data@) is None,
        }),
{
    let mut reader = csv::ReaderBuilder::new().has_headers(false).flexible(true).from_reader(data);
    let mut records: Vec<Vec<String>> = Vec::new();
    for record in reader.records() {
        match record {
            Ok(rec) => records.push(rec.iter().map(|field| field.to_string()).collect()),
            Err(_) => return None,
        }
    }
    Some(records)
}

/// Loads a manifest from its bytes: the rows are read by the `csv` crate,
/// then screened into rules.
pub fn load_manifest(data: &[u8]) -> (r: Result<Vec<SyncRule>, LoadError>)
    ensures
        (match csv_records_of(data@) {
            None => r matches Err(e) && e == LoadError::ParseFailure,
            Some(records) => (match r {
                Ok(rules) => spec_screen(records) == Ok::<Seq<SyncRuleV>, LoadError>(
                    rules_view(rules@),
                ),
                Err(e) => spec_screen(records) == Err::<Seq<SyncRuleV>, LoadError>(e),
            }),
        }),
{
    match parse_csv_records(data) {
        None => Err(LoadError::ParseFailure),
        Some(records) => screen_rows(&records),
    }
}

/// A manifest whose header is exact and whose data rows all have four
/// fields is never fatal: screening it yields a rule sequence.
pub proof fn lemma_well_formed_manifest_loads(records: Seq<Seq<Seq<char>>>)
    requires
        records.len() >= 1,
        records[0] == expected_header(),
        forall|i: int| 1 <= i < records.len() ==> records[i].len() == 4,
    ensures
        spec_screen(records) is Ok,
{
}

/// Any data row without exactly four fields is fatal for the whole run:
/// screening yields no rule sequence at all, not even for the rows before
/// it.
pub proof fn lemma_column_count_violation_fatal(records: Seq<Seq<Seq<char>>>, i: int)
    requires
        records.len() >= 1,
        records[0] == expected_header(),
        1 <= i < records.len(),
        records[i].len() != 4,
    ensures
        spec_screen(records) == Err::<Seq<SyncRuleV>, LoadError>(LoadError::WrongColumnCount),
{
    assert(1 <= i < records.len() && records[i].len() != 4);
}

proof fn lemma_rules_of_rows_skips_invalid(rows: Seq<Seq<Seq<char>>>, j: int)
    requires
        0 <= j < rows.len(),
        spec_flag(rows[j][3]) is None,
    ensures
        rules_of_rows(rows) == rules_of_rows(rows.remove(j)),
    decreases rows.len(),
{
    let short = rows.drop_last();
    if j == rows.len() - 1 {
        assert(rows.remove(j) =~= short);
    } else {
        lemma_rules_of_rows_skips_invalid(short, j);
        assert(rows.remove(j).drop_last() =~= short.remove(j));
        assert(rows.remove(j).last() == rows.last());
    }
}

/// A data row whose overwrite flag is unrecognized is dropped and nothing
/// more: it yields no rule, and screening the manifest is screening the
/// manifest without that row.
pub proof fn lemma_invalid_flag_row_dropped(records: Seq<Seq<Seq<char>>>, i: int)
    requires
        records.len() >= 1,
        records[0] == expected_header(),
        forall|j: int| 1 <= j < records.len() ==> records[j].len() == 4,
        1 <= i < records.len(),
        spec_flag(records[i][3]) is None,
    ensures
        spec_screen(records) is Ok,
        spec_screen(records) == spec_screen(records.remove(i)),
{
    let removed = records.remove(i);
    assert(removed[0] == records[0]);
    assert forall|j: int| 1 <= j < removed.len() implies #[trigger] removed[j].len() == 4 by {
        if j < i {
            assert(removed[j] == records[j]);
        } else {
            assert(removed[j] == records[j + 1]);
        }
    }
    assert(records.skip(1)[i - 1] == records[i]);
    lemma_rules_of_rows_skips_invalid(records.skip(1), i - 1);
    assert(removed.skip(1) =~= records.skip(1).remove(i - 1));
}

/// The report line for a fatal manifest fault.
pub open spec fn spec_load_error_message(e: LoadError) -> Seq<char> {
    match e {
        LoadError::ParseFailure => "Error: Unable to parse the CSV file."@,
        LoadError::HeaderMismatch => "Error: CSV headers must be [filename, local_directory, sync_directory, overwrite_allowed]"@,
        LoadError::WrongColumnCount => "Error: Invalid number of columns in CSV file."@,
    }
}

/// Builds the report line for a fatal manifest fault.
pub fn load_error_message(e: LoadError) -> (m: String)
    ensures
        m@ == spec_load_error_message(e),
{
    match e {
        LoadError::ParseFailure => String::from_str("Error: Unable to parse the CSV file."),
        LoadError::HeaderMismatch => String::from_str(
            "Error: CSV headers must be [filename, local_directory, sync_directory, overwrite_allowed]",
        ),
        LoadError::WrongColumnCount => String::from_str(
            "Error: Invalid number of columns in CSV file.",
        ),
    }
}

/// The warning printed for a dropped row with an unrecognized flag.
pub fn invalid_flag_warning() -> (m: String)
    ensures
        m@ == "Warning: Skipping row with invalid overwrite_allowed value"@,
{
    String::from_str("Warning: Skipping row with invalid overwrite_allowed value")
}

/// The report line for a rule whose local directory is missing.
pub fn missing_local_dir_message(path: &str) -> (m: String)
    ensures
        m@ == "Error: Local directory does not exist: "@ + path@,
{
    String::from_str("Error: Local directory does not exist: ").concat(path)
}

/// The report line for a rule whose sync directory is missing.
pub fn missing_sync_dir_message(path: &str) -> (m: String)
    ensures
        m@ == "Error: Sync directory does not exist: "@ + path@,
{
    String::from_str("Error: Sync directory does not exist: ").concat(path)
}

} // verus!
