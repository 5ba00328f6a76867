//! CSV encoding and the framing of an export.

use vstd::prelude::*;
use crate::form::model::{SubmissionStatus, submission_status_name};
use crate::form::validation::FieldDefinition;
use crate::json::{
    JsonValue, instant_text, json_quoted, json_text, map_find, map_get, push_member, quote_json,
    rfc3339_instant, write_json,
};
use crate::auth::uuid_text::{uuid_hyphenated, uuid_text};
use crate::text::{chars_of, concat, has_char, owned, push_char, push_str, views};

verus! {

/// A cell that holds a comma, a quote, or a line break must be quoted.
pub open spec fn needs_quoting(s: Seq<char>) -> bool {
    s.contains(',') || s.contains('"') || s.contains('\n') || s.contains('\r')
}

/// The text with every quote doubled.
pub open spec fn double_quotes(s: Seq<char>) -> Seq<char>
    decreases s.len(),
{
    if s.len() == 0 {
        seq![]
    } else {
        double_quotes(s.drop_last()) + (if s.last() == '"' {
            seq!['"', '"']
        } else {
            seq![s.last()]
        })
    }
}

/// RFC 4180 quoting: a cell containing a comma, a quote, or a line break is wrapped in quotes,
/// and its quotes are doubled. Any other cell is left as it is.
pub open spec fn escaped(s: Seq<char>) -> Seq<char> {
    if needs_quoting(s) {
        seq!['"'] + double_quotes(s) + seq!['"']
    } else {
        s
    }
}

/// Whether a character is not a quote.
pub open spec fn not_quote(c: char) -> bool {
    c != '"'
}

/// Whether a character is a quote.
pub open spec fn is_quote(c: char) -> bool {
    c == '"'
}

proof fn lemma_doubling(s: Seq<char>)
    ensures
        double_quotes(s).filter(|c: char| not_quote(c)) == s.filter(|c: char| not_quote(c)),
        double_quotes(s).filter(|c: char| is_quote(c)).len() == 2 * s.filter(|c: char| is_quote(c)).len(),
    decreases s.len(),
{
    let nq = |c: char| not_quote(c);
    let q = |c: char| is_quote(c);
    if s.len() == 0 {
        assert(double_quotes(s) =~= Seq::<char>::empty());
        assert(s.filter(nq) =~= Seq::<char>::empty());
        assert(s.filter(q) =~= Seq::<char>::empty());
        assert(double_quotes(s).filter(nq) =~= Seq::<char>::empty());
        assert(double_quotes(s).filter(q) =~= Seq::<char>::empty());
    } else {
        let init = s.drop_last();
        let c = s.last();
        lemma_doubling(init);
        let tail = if c == '"' { seq!['"', '"'] } else { seq![c] };
        assert(s =~= init + seq![c]);
        Seq::filter_distributes_over_add(init, seq![c], nq);
        Seq::filter_distributes_over_add(init, seq![c], q);
        Seq::filter_distributes_over_add(double_quotes(init), tail, nq);
        Seq::filter_distributes_over_add(double_quotes(init), tail, q);
        reveal_with_fuel(Seq::filter, 3);
        if c == '"' {
            assert(tail.filter(nq) =~= Seq::<char>::empty());
            assert(seq![c].filter(nq) =~= Seq::<char>::empty());
            assert(tail.filter(q) =~= tail);
            assert(seq![c].filter(q) =~= seq![c]);
        } else {
            assert(tail.filter(nq) =~= tail);
            assert(seq![c].filter(nq) =~= seq![c]);
            assert(tail.filter(q) =~= Seq::<char>::empty());
            assert(seq![c].filter(q) =~= Seq::<char>::empty());
        }
    }
}

/// CSV quoting, as RFC 4180 has it: a cell without a comma, a quote, or a line break is left as
/// it is; any other cell is wrapped in quotes, keeps every character that is not a quote in
/// order, and has each of its quotes doubled.
pub proof fn law_how_a_cell_is_quoted(s: Seq<char>)
    ensures
        !(s.contains(',') || s.contains('"') || s.contains('\n') || s.contains('\r')) ==> escaped(s)
            == s,
        (s.contains(',') || s.contains('"') || s.contains('\n') || s.contains('\r')) ==> {
            let e = escaped(s);
            let inner = e.subrange(1, e.len() - 1);
            &&& e.len() >= 2 && e[0] == '"' && e.last() == '"'
            &&& inner.filter(|c: char| not_quote(c)) == s.filter(|c: char| not_quote(c))
            &&& inner.filter(|c: char| is_quote(c)).len() == 2 * s.filter(|c: char| is_quote(c)).len()
        },
{
    if needs_quoting(s) {
        lemma_doubling(s);
        let e = escaped(s);
        assert(e.subrange(1, e.len() - 1) =~= double_quotes(s));
    }
}

/// Quotes a cell when it needs to be.
pub fn escape(value: &str) -> (r: String)
    ensures
        r@ == escaped(value@),
{
    let v = chars_of(value);
    let quote = has_char(&v, ',') || has_char(&v, '"') || has_char(&v, '\n') || has_char(&v, '\r');
    if !quote {
        return owned(value);
    }
    let mut r = String::new();
    push_char(&mut r, '"');
    let mut i: usize = 0;
    while i < v.len()
        invariant
            v@ == value@,
            i <= v@.len(),
            r@ == seq!['"'] + double_quotes(v@.take(i as int)),
        decreases v@.len() - i,
    {
        let ghost before = v@.take(i as int);
        if v[i] == '"' {
            push_char(&mut r, '"');
            push_char(&mut r, '"');
        } else {
            push_char(&mut r, v[i]);
        }
        i = i + 1;
        proof {
            assert(v@.take(i as int).drop_last() =~= before);
            assert(r@ =~= seq!['"'] + double_quotes(v@.take(i as int)));
        }
    }
    push_char(&mut r, '"');
    proof {
        assert(v@.take(v@.len() as int) =~= v@);
    }
    r
}

/// How an answer is shown in a cell. Structured answers keep their JSON form rather than being
/// flattened, so nothing is silently lost.
pub open spec fn cell_text(value: JsonValue) -> Seq<char> {
    match value {
        JsonValue::Null => seq![],
        JsonValue::String(text) => text@,
        JsonValue::Bool(flag) => if flag {
            "true"@
        } else {
            "false"@
        },
        JsonValue::Number(number) => number.text@,
        JsonValue::Array(_, text) => text@,
        JsonValue::Object(_, text) => text@,
    }
}

/// Renders one answer as a cell.
pub fn render(value: &JsonValue) -> (r: String)
    ensures
        r@ == cell_text(*value),
{
    match value {
        JsonValue::Null => String::new(),
        JsonValue::String(text) => text.clone(),
        JsonValue::Bool(flag) => if *flag {
            owned("true")
        } else {
            owned("false")
        },
        JsonValue::Number(number) => number.text.clone(),
        JsonValue::Array(_, text) => text.clone(),
        JsonValue::Object(_, text) => text.clone(),
    }
}

/// The header cells after the fixed ones: a comma and the escaped column name each.
pub open spec fn header_cells(columns: Seq<Seq<char>>) -> Seq<char>
    decreases columns.len(),
{
    if columns.len() == 0 {
        seq![]
    } else {
        header_cells(columns.drop_last()) + seq![','] + escaped(columns.last())
    }
}

/// The header line: the fixed columns, then one per answer column, terminated.
pub open spec fn header_line(columns: Seq<Seq<char>>) -> Seq<char> {
    "id,created_at,status"@ + header_cells(columns) + seq!['\n']
}

/// The header line of a CSV export.
pub fn csv_header(columns: &Vec<String>) -> (r: String)
    ensures
        r@ == header_line(views(columns@)),
{
    let mut header = owned("id,created_at,status");
    let mut i: usize = 0;
    while i < columns.len()
        invariant
            i <= columns@.len(),
            header@ == "id,created_at,status"@ + header_cells(views(columns@).take(i as int)),
        decreases columns@.len() - i,
    {
        let ghost before = views(columns@).take(i as int);
        push_char(&mut header, ',');
        let cell = escape(columns[i].as_str());
        push_str(&mut header, cell.as_str());
        i = i + 1;
        proof {
            assert(views(columns@).take(i as int).drop_last() =~= before);
            assert(views(columns@).take(i as int).last() == columns@[i - 1]@);
        }
    }
    push_char(&mut header, '\n');
    proof {
        assert(views(columns@).take(columns@.len() as int) =~= views(columns@));
    }
    header
}

/// The cell an answer column holds for a submission's data: the rendered answer, or nothing
/// when the submission has none for that column.
pub open spec fn answer_cell(data: JsonValue, column: Seq<char>) -> Seq<char> {
    match data {
        JsonValue::Object(entries, _) => match map_get(entries@, column) {
            Some(value) => cell_text(value),
            None => seq![],
        },
        _ => seq![],
    }
}

/// The answer cells of a row: a comma and the escaped cell each, in column order.
pub open spec fn row_cells(data: JsonValue, columns: Seq<Seq<char>>) -> Seq<char>
    decreases columns.len(),
{
    if columns.len() == 0 {
        seq![]
    } else {
        row_cells(data, columns.drop_last()) + seq![','] + escaped(
            answer_cell(data, columns.last()),
        )
    }
}

/// A whole row: identifier, creation time, status, then the answers, terminated.
pub open spec fn row_line(
    id: Seq<char>,
    created_at: Seq<char>,
    status: SubmissionStatus,
    data: JsonValue,
    columns: Seq<Seq<char>>,
) -> Seq<char> {
    escaped(id) + seq![','] + escaped(created_at) + seq![','] + escaped(
        submission_status_name(status),
    ) + row_cells(data, columns) + seq!['\n']
}

/// What an answer column shows for each kind of answer: a ticked checkbox `true` and an
/// unticked one `false`, a text answer its text, a number its JSON text, a list or object its
/// compact JSON, and a null, a missing answer, or data that is not an object nothing. The
/// checkbox cells are written as they are, with no quoting.
pub proof fn law_what_a_cell_shows(data: JsonValue, column: Seq<char>)
    ensures
        !(data is Object) ==> answer_cell(data, column) == Seq::<char>::empty(),
        data matches JsonValue::Object(entries, _) ==> match map_get(entries@, column) {
            None => answer_cell(data, column) == Seq::<char>::empty(),
            Some(JsonValue::Null) => answer_cell(data, column) == Seq::<char>::empty(),
            Some(JsonValue::Bool(flag)) => answer_cell(data, column) == (if flag {
                "true"@
            } else {
                "false"@
            }) && escaped(answer_cell(data, column)) == answer_cell(data, column),
            Some(JsonValue::String(text)) => answer_cell(data, column) == text@,
            Some(JsonValue::Number(number)) => answer_cell(data, column) == number.text@,
            Some(JsonValue::Array(_, compact)) => answer_cell(data, column) == compact@,
            Some(JsonValue::Object(_, compact)) => answer_cell(data, column) == compact@,
        },
{
    reveal_strlit("true");
    reveal_strlit("false");
    let t = "true"@;
    let f = "false"@;
    assert(!t.contains(',') && !t.contains('"') && !t.contains('\n') && !t.contains('\r')) by {
        assert forall|c: char| #[trigger] t.contains(c) implies c != ',' && c != '"' && c != '\n'
            && c != '\r' by {
            let j = choose|j: int| 0 <= j < t.len() && t[j] == c;
        }
    }
    assert(!f.contains(',') && !f.contains('"') && !f.contains('\n') && !f.contains('\r')) by {
        assert forall|c: char| #[trigger] f.contains(c) implies c != ',' && c != '"' && c != '\n'
            && c != '\r' by {
            let j = choose|j: int| 0 <= j < f.len() && f[j] == c;
        }
    }
}

/// Adding a column to an export adds exactly one cell at the end of every row: a comma and
/// that column's escaped cell, with everything before it unchanged.
pub proof fn law_a_column_adds_one_cell(
    id: Seq<char>,
    created_at: Seq<char>,
    status: SubmissionStatus,
    data: JsonValue,
    columns: Seq<Seq<char>>,
    column: Seq<char>,
)
    ensures
        row_line(id, created_at, status, data, columns.push(column)) == row_line(
            id,
            created_at,
            status,
            data,
            columns,
        ).drop_last() + seq![','] + escaped(answer_cell(data, column)) + seq!['\n'],
{
    assert(columns.push(column).drop_last() =~= columns);
    let before = row_line(id, created_at, status, data, columns);
    assert(before.drop_last() =~= escaped(id) + seq![','] + escaped(created_at) + seq![','] + escaped(
        submission_status_name(status),
    ) + row_cells(data, columns));
    assert(row_line(id, created_at, status, data, columns.push(column)) =~= before.drop_last()
        + seq![','] + escaped(answer_cell(data, column)) + seq!['\n']);
}

fn answer(data: &JsonValue, column: &str) -> (r: String)
    ensures
        r@ == answer_cell(*data, column@),
{
    match data {
        JsonValue::Object(entries, _) => match map_find(entries, column) {
            Some(i) => render(&entries[i].1),
            None => String::new(),
        },
        _ => String::new(),
    }
}

/// One line of CSV for a submission, terminated so rows can be concatenated. `id` and
/// `created_at` are the submission's identifier and its RFC 3339 creation time.
pub fn csv_row(
    columns: &Vec<String>,
    id: &str,
    created_at: &str,
    status: SubmissionStatus,
    data: &JsonValue,
) -> (r: String)
    ensures
        r@ == row_line(id@, created_at@, status, *data, views(columns@)),
{
    let mut line = escape(id);
    push_char(&mut line, ',');
    let created = escape(created_at);
    push_str(&mut line, created.as_str());
    push_char(&mut line, ',');
    let state = escape(status.as_str());
    push_str(&mut line, state.as_str());
    let ghost head = line@;
    let mut i: usize = 0;
    while i < columns.len()
        invariant
            i <= columns@.len(),
            line@ == head + row_cells(*data, views(columns@).take(i as int)),
        decreases columns@.len() - i,
    {
        let ghost before = views(columns@).take(i as int);
        let value = answer(data, columns[i].as_str());
        let cell = escape(value.as_str());
        push_char(&mut line, ',');
        push_str(&mut line, cell.as_str());
        i = i + 1;
        proof {
            assert(views(columns@).take(i as int).drop_last() =~= before);
            assert(views(columns@).take(i as int).last() == columns@[i - 1]@);
        }
    }
    push_char(&mut line, '\n');
    proof {
        assert(views(columns@).take(columns@.len() as int) =~= views(columns@));
    }
    line
}

/// The columns after adding each stored key that is not already one, in order.
pub open spec fn extend_columns(columns: Seq<Seq<char>>, stored: Seq<Seq<char>>) -> Seq<Seq<char>>
    decreases stored.len(),
{
    if stored.len() == 0 {
        columns
    } else {
        let earlier = extend_columns(columns, stored.drop_last());
        if earlier.contains(stored.last()) {
            earlier
        } else {
            earlier.push(stored.last())
        }
    }
}

/// The keys of the fields, in declaration order.
pub open spec fn field_keys(fields: Seq<FieldDefinition>) -> Seq<Seq<char>> {
    fields.map_values(|f: FieldDefinition| f.key@)
}

fn contains_text(columns: &Vec<String>, key: &String) -> (b: bool)
    ensures
        b == views(columns@).contains(key@),
{
    let mut i: usize = 0;
    while i < columns.len()
        invariant
            i <= columns@.len(),
            forall|j: int| 0 <= j < i ==> (#[trigger] views(columns@)[j]) != key@,
        decreases columns@.len() - i,
    {
        if columns[i].eq(key) {
            assert(views(columns@)[i as int] == key@);
            return true;
        }
        i = i + 1;
    }
    false
}

/// The columns of an export: the form's current fields, then every other key ever stored, so an
/// export written after the definition changed still carries the answers that no longer have
/// a field.
pub fn export_columns(fields: &Vec<FieldDefinition>, stored: &Vec<String>) -> (r: Vec<String>)
    ensures
        views(r@) == extend_columns(field_keys(fields@), views(stored@)),
{
    let mut columns: Vec<String> = Vec::new();
    let mut i: usize = 0;
    while i < fields.len()
        invariant
            i <= fields@.len(),
            columns@.len() == i,
            forall|j: int| 0 <= j < i ==> (#[trigger] columns@[j])@ == fields@[j].key@,
        decreases fields@.len() - i,
    {
        columns.push(fields[i].key.clone());
        i = i + 1;
    }
    proof {
        assert(views(columns@) =~= field_keys(fields@));
    }
    let mut k: usize = 0;
    while k < stored.len()
        invariant
            k <= stored@.len(),
            views(columns@) == extend_columns(field_keys(fields@), views(stored@).take(k as int)),
        decreases stored@.len() - k,
    {
        let ghost before = views(stored@).take(k as int);
        if !contains_text(&columns, &stored[k]) {
            columns.push(stored[k].clone());
        }
        k = k + 1;
        proof {
            assert(views(stored@).take(k as int).drop_last() =~= before);
            assert(views(stored@).take(k as int).last() == stored@[k - 1]@);
            assert(views(columns@) =~= extend_columns(
                field_keys(fields@),
                views(stored@).take(k as int),
            ));
        }
    }
    proof {
        assert(views(stored@).take(stored@.len() as int) =~= views(stored@));
    }
    columns
}

/// The two export encodings.
#[derive(Debug, Clone, Copy, PartialEq, Eq, Structural)]
pub enum ExportFormat {
    Csv,
    Json,
}

/// What an export opens with, sent before any row is read: the CSV header, or the opening
/// bracket of a JSON array. An export of an empty form is therefore still well formed.
pub fn export_opening(format: ExportFormat, columns: &Vec<String>) -> (r: String)
    ensures
        format == ExportFormat::Csv ==> r@ == header_line(views(columns@)),
        format == ExportFormat::Json ==> r@ == "["@,
{
    match format {
        ExportFormat::Csv => csv_header(columns),
        ExportFormat::Json => owned("["),
    }
}

/// What an export closes with, after the last row: the closing bracket of a JSON array, and
/// nothing for CSV.
pub fn export_closing(format: ExportFormat) -> (r: Option<String>)
    ensures
        format == ExportFormat::Csv ==> r is None,
        format == ExportFormat::Json ==> (r matches Some(s) && s@ == "]"@),
{
    match format {
        ExportFormat::Csv => None,
        ExportFormat::Json => Some(owned("]")),
    }
}

/// What precedes a JSON row: nothing for the first, a comma for every later one.
pub fn json_separator(first_row: bool) -> (r: &'static str)
    ensures
        first_row ==> r@ == ""@,
        !first_row ==> r@ == ","@,
{
    if first_row {
        ""
    } else {
        ","
    }
}

/// The media type an export is served with.
pub fn export_content_type(format: ExportFormat) -> (r: &'static str)
    ensures
        format == ExportFormat::Csv ==> r@ == "text/csv; charset=utf-8"@,
        format == ExportFormat::Json ==> r@ == "application/json; charset=utf-8"@,
{
    match format {
        ExportFormat::Csv => "text/csv; charset=utf-8",
        ExportFormat::Json => "application/json; charset=utf-8",
    }
}

/// The file an export is offered as: `{form name}-submissions.{csv|json}`.
pub fn export_filename(form_name: &str, format: ExportFormat) -> (r: String)
    ensures
        format == ExportFormat::Csv ==> r@ == form_name@ + "-submissions.csv"@,
        format == ExportFormat::Json ==> r@ == form_name@ + "-submissions.json"@,
{
    match format {
        ExportFormat::Csv => concat(form_name, "-submissions.csv"),
        ExportFormat::Json => concat(form_name, "-submissions.json"),
    }
}

/// The JSON object a stored submission becomes in an export, after `separator`: its members in
/// the order `serde_json` keeps them (by name), the identifier and instant written as strings.
pub open spec fn json_row_text(
    id: u128,
    created_at: i64,
    status: SubmissionStatus,
    data: JsonValue,
    separator: Seq<char>,
) -> Seq<char> {
    separator + "{\"created_at\":"@ + json_quoted(rfc3339_instant(created_at)) + ",\"data\":"@
        + json_text(data) + ",\"id\":"@ + json_quoted(uuid_hyphenated(id)) + ",\"status\":"@
        + json_quoted(submission_status_name(status)) + "}"@
}

/// One JSON object per line, which streams as easily as CSV and is still a valid array once
/// wrapped in brackets.
pub fn json_row(
    id: u128,
    created_at: i64,
    status: SubmissionStatus,
    data: &JsonValue,
    separator: &str,
) -> (r: String)
    ensures
        r@ == json_row_text(id, created_at, status, *data, separator@),
{
    let mut out = owned(separator);
    let instant = quote_json(instant_text(created_at).as_str());
    push_member(&mut out, "{\"created_at\":", instant.as_str());
    let answers = write_json(data);
    push_member(&mut out, ",\"data\":", answers.as_str());
    let key = quote_json(uuid_text(id).as_str());
    push_member(&mut out, ",\"id\":", key.as_str());
    let name = quote_json(status.as_str());
    push_member(&mut out, ",\"status\":", name.as_str());
    push_str(&mut out, "}");
    proof {
        assert(out@ =~= json_row_text(id, created_at, status, *data, separator@));
    }
    out
}

} // verus!
