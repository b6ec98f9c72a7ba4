use vstd::prelude::*;
use vstd::string::StringExecFns;
use crate::record::{Record, RecordView, ProvisionError, records_view};
use crate::role::{Role, RoleEncoding, decode_role, role_text};

verus! {

/// A table of text: rows of fields.
pub type Table = Seq<Seq<Seq<char>>>;

/// The index of the first field of `header` equal to `name`.
pub open spec fn find_column(header: Seq<Seq<char>>, name: Seq<char>) -> Option<int>
    decreases header.len(),
{
    if header.len() == 0 {
        None
    } else {
        match find_column(header.drop_last(), name) {
            Some(i) => Some(i),
            None => if header.last() == name {
                Some(header.len() - 1)
            } else {
                None
            },
        }
    }
}

/// The text of the column `col` of `row`, empty where there is no such column.
pub open spec fn field_at(row: Seq<Seq<char>>, col: Option<int>) -> Seq<char> {
    match col {
        Some(c) => row[c],
        None => Seq::empty(),
    }
}

/// An optional text: absent when empty.
pub open spec fn optional(s: Seq<char>) -> Option<Seq<char>> {
    if s.len() == 0 {
        None
    } else {
        Some(s)
    }
}

/// Row number `number` (1-based, the header being row 1) read as a record.
pub open spec fn decode_row(header: Seq<Seq<char>>, row: Seq<Seq<char>>, number: int, enc: RoleEncoding) -> Result<RecordView, ProvisionError> {
    if row.len() != header.len() {
        Err(ProvisionError::FieldCount { row: number as usize })
    } else {
        match decode_role(field_at(row, find_column(header, "role"@)), enc) {
            Err(_) => Err(ProvisionError::InvalidRole { row: number as usize }),
            Ok(role) => Ok(RecordView {
                email: field_at(row, find_column(header, "email"@)),
                username: field_at(row, find_column(header, "username"@)),
                password: optional(field_at(row, find_column(header, "password"@))),
                displayed_name: optional(field_at(row, find_column(header, "displayedName"@))),
                role,
            }),
        }
    }
}

/// The records of the first `n` rows of `rows` (the header, row 0, gives none),
/// or the error of the first row that cannot be read.
pub open spec fn decode_rows(rows: Table, n: int, enc: RoleEncoding) -> Result<Seq<RecordView>, ProvisionError>
    decreases n,
{
    if n <= 1 {
        Ok(Seq::empty())
    } else {
        match decode_rows(rows, n - 1, enc) {
            Err(e) => Err(e),
            Ok(prefix) => match decode_row(rows[0], rows[n - 1], n, enc) {
                Err(e) => Err(e),
                Ok(r) => Ok(prefix.push(r)),
            },
        }
    }
}

/// The records of a table whose first row is the header. An empty table
/// holds no records; a header without `email` or `username` is refused.
pub open spec fn decode_table(rows: Table, enc: RoleEncoding) -> Result<Seq<RecordView>, ProvisionError> {
    if rows.len() == 0 {
        Ok(Seq::empty())
    } else if find_column(rows[0], "email"@) is None {
        Err(ProvisionError::MissingEmailColumn)
    } else if find_column(rows[0], "username"@) is None {
        Err(ProvisionError::MissingUsernameColumn)
    } else {
        decode_rows(rows, rows.len() as int, enc)
    }
}

pub open spec fn records_result(r: Result<Vec<Record>, ProvisionError>) -> Result<Seq<RecordView>, ProvisionError> {
    match r {
        Ok(v) => Ok(records_view(v@)),
        Err(e) => Err(e),
    }
}

proof fn lemma_find_column_prefix(header: Seq<Seq<char>>, name: Seq<char>, i: int)
    requires
        0 <= i < header.len(),
    ensures
        header.subrange(0, i + 1).drop_last() == header.subrange(0, i),
        header.subrange(0, i + 1).last() == header[i],
{
    assert(header.subrange(0, i + 1).drop_last() =~= header.subrange(0, i));
}

/// The index of the first field of `header` equal to `name`.
fn column_index(header: &Vec<String>, name: &str) -> (r: Option<usize>)
    ensures
        match r {
            Some(i) => i < header.len() && find_column(header.deep_view(), name@) == Some(i as int),
            None => find_column(header.deep_view(), name@) is None,
        },
{
    let ghost h = header.deep_view();
    let target = String::from_str(name);
    let mut i: usize = 0;
    while i < header.len()
        invariant
            i <= header.len(),
            h == header.deep_view(),
            h.len() == header.len(),
            target@ == name@,
            find_column(h.subrange(0, i as int), name@) is None,
        decreases header.len() - i,
    {
        proof {
            lemma_find_column_prefix(h, name@, i as int);
        }
        if header[i] == target {
            assert(h.subrange(0, h.len() as int) == h);
            proof {
                lemma_find_column_prefix_found(h, name@, i as int);
            }
            return Some(i);
        }
        i += 1;
    }
    assert(h.subrange(0, i as int) =~= h);
    None
}

proof fn lemma_find_column_prefix_found(header: Seq<Seq<char>>, name: Seq<char>, i: int)
    requires
        0 <= i < header.len(),
        header[i] == name,
        find_column(header.subrange(0, i), name) is None,
    ensures
        find_column(header, name) == Some(i),
    decreases header.len(),
{
    lemma_find_column_prefix(header, name, i);
    if i + 1 == header.len() {
        assert(header.subrange(0, i) =~= header.drop_last());
    } else {
        assert(header.drop_last().subrange(0, i) =~= header.subrange(0, i));
        lemma_find_column_prefix_found(header.drop_last(), name, i);
    }
}

/// The text of column `col` of `row`, empty where there is no such column.
fn text_at(row: &Vec<String>, col: Option<usize>) -> (s: String)
    requires
        col matches Some(c) ==> c < row.len(),
    ensures
        s@ == field_at(row.deep_view(), match col { Some(c) => Some(c as int), None => None }),
{
    match col {
        Some(c) => row[c].clone(),
        None => String::new(),
    }
}

/// The text of column `col` of `row`, absent where empty or where there is no such column.
fn optional_at(row: &Vec<String>, col: Option<usize>) -> (s: Option<String>)
    requires
        col matches Some(c) ==> c < row.len(),
    ensures
        crate::record::opt_text(s) == optional(field_at(row.deep_view(), match col { Some(c) => Some(c as int), None => None })),
{
    let t = text_at(row, col);
    if t.as_str().unicode_len() == 0 {
        None
    } else {
        Some(t)
    }
}

/// Once a row cannot be read, no longer prefix of the table can be.
proof fn lemma_decode_error_stays(rows: Table, k: int, n: int, enc: RoleEncoding)
    requires
        k <= n,
        decode_rows(rows, k, enc) is Err,
    ensures
        decode_rows(rows, n, enc) == decode_rows(rows, k, enc),
    decreases n - k,
{
    if k < n {
        lemma_decode_error_stays(rows, k, n - 1, enc);
    }
}

spec fn col_int(c: Option<usize>) -> Option<int> {
    match c {
        Some(i) => Some(i as int),
        None => None,
    }
}

/// Reads the records of a table whose first row is the header. Columns are
/// found by exact name; `email` and `username` must be present, the others
/// may be missing. Every row must have as many fields as the header, and a
/// `role` field must be empty or the text of a role. The first row that
/// breaks a rule gives the error.
pub fn records_from_rows(rows: &Vec<Vec<String>>, enc: RoleEncoding) -> (r: Result<Vec<Record>, ProvisionError>)
    ensures
        records_result(r) == decode_table(rows.deep_view(), enc),
{
    let ghost t = rows.deep_view();
    if rows.len() == 0 {
        let out: Vec<Record> = Vec::new();
        assert(records_view(out@) =~= Seq::<RecordView>::empty());
        return Ok(out);
    }
    let header = &rows[0];
    let email_col = column_index(header, "email");
    let username_col = column_index(header, "username");
    let password_col = column_index(header, "password");
    let displayed_col = column_index(header, "displayedName");
    let role_col = column_index(header, "role");
    let email_col = match email_col {
        Some(c) => c,
        None => return Err(ProvisionError::MissingEmailColumn),
    };
    let username_col = match username_col {
        Some(c) => c,
        None => return Err(ProvisionError::MissingUsernameColumn),
    };
    let mut out: Vec<Record> = Vec::new();
    assert(records_view(out@) =~= Seq::<RecordView>::empty());
    let mut i: usize = 1;
    while i < rows.len()
        invariant
            1 <= i <= rows.len(),
            t == rows.deep_view(),
            t[0] == header.deep_view(),
            header.len() == t[0].len(),
            find_column(t[0], "email"@) == Some(email_col as int),
            find_column(t[0], "username"@) == Some(username_col as int),
            find_column(t[0], "password"@) == col_int(password_col),
            find_column(t[0], "displayedName"@) == col_int(displayed_col),
            find_column(t[0], "role"@) == col_int(role_col),
            email_col < header.len(),
            username_col < header.len(),
            password_col matches Some(c) ==> c < header.len(),
            displayed_col matches Some(c) ==> c < header.len(),
            role_col matches Some(c) ==> c < header.len(),
            decode_rows(t, i as int, enc) == Ok::<Seq<RecordView>, ProvisionError>(records_view(out@)),
        decreases rows.len() - i,
    {
        let row = &rows[i];
        assert(t[i as int] == row.deep_view());
        if row.len() != header.len() {
            proof {
                lemma_decode_error_stays(t, i + 1, t.len() as int, enc);
            }
            return Err(ProvisionError::FieldCount { row: i + 1 });
        }
        let role_text = text_at(row, role_col);
        let role = match Role::from_field(&role_text, enc) {
            Ok(role) => role,
            Err(_) => {
                proof {
                    lemma_decode_error_stays(t, i + 1, t.len() as int, enc);
                }
                return Err(ProvisionError::InvalidRole { row: i + 1 });
            },
        };
        let email = text_at(row, Some(email_col));
        let username = text_at(row, Some(username_col));
        let password = optional_at(row, password_col);
        let displayed_name = optional_at(row, displayed_col);
        let rec = Record { email, username, password, displayed_name, role };
        let ghost prev = out@;
        out.push(rec);
        assert(records_view(out@) =~= records_view(prev).push(rec@));
        i += 1;
    }
    Ok(out)
}

/// The header row that the table is written with.
pub open spec fn header_row() -> Seq<Seq<char>> {
    seq!["email"@, "username"@, "password"@, "displayedName"@, "role"@]
}

/// An optional text written as a field: empty when absent.
pub open spec fn or_empty(s: Option<Seq<char>>) -> Seq<char> {
    match s {
        Some(t) => t,
        None => Seq::empty(),
    }
}

/// The row that a record is written as, in the order of [`header_row`].
pub open spec fn encode_record(r: RecordView, enc: RoleEncoding) -> Seq<Seq<char>> {
    seq![
        r.email,
        r.username,
        or_empty(r.password),
        or_empty(r.displayed_name),
        match r.role {
            Some(x) => role_text(x, enc),
            None => Seq::empty(),
        },
    ]
}

/// The table that records are written as: the header, then one row per
/// record, in order.
pub open spec fn encode_table(recs: Seq<RecordView>, enc: RoleEncoding) -> Table {
    seq![header_row()] + recs.map_values(|r: RecordView| encode_record(r, enc))
}

fn opt_to_field(s: &Option<String>) -> (r: String)
    ensures
        r@ == or_empty(crate::record::opt_text(*s)),
{
    match s {
        Some(t) => t.clone(),
        None => String::new(),
    }
}

/// The row that a record is written as.
pub fn row_of_record(rec: &Record, enc: RoleEncoding) -> (row: Vec<String>)
    ensures
        row.deep_view() == encode_record(rec@, enc),
{
    let role = match rec.role {
        Some(x) => x.to_text(enc),
        None => String::new(),
    };
    let row = vec![
        rec.email.clone(),
        rec.username.clone(),
        opt_to_field(&rec.password),
        opt_to_field(&rec.displayed_name),
        role,
    ];
    assert(row.deep_view() =~= encode_record(rec@, enc));
    row
}

/// Writes records as a table: the header row, then one row per record in
/// the same order. Absent optional fields are written empty, so every row
/// has the header's five fields.
pub fn rows_from_records(records: &Vec<Record>, enc: RoleEncoding) -> (rows: Vec<Vec<String>>)
    ensures
        rows.deep_view() == encode_table(records_view(records@), enc),
{
    let header = vec![
        String::from_str("email"),
        String::from_str("username"),
        String::from_str("password"),
        String::from_str("displayedName"),
        String::from_str("role"),
    ];
    assert(header.deep_view() =~= header_row());
    let mut rows: Vec<Vec<String>> = vec![header];
    let ghost recs = records_view(records@);
    let mut i: usize = 0;
    while i < records.len()
        invariant
            i <= records.len(),
            recs == records_view(records@),
            rows.deep_view() =~= encode_table(recs.subrange(0, i as int), enc),
        decreases records.len() - i,
    {
        let row = row_of_record(&records[i], enc);
        rows.push(row);
        assert(recs.subrange(0, i + 1) =~= recs.subrange(0, i as int).push(recs[i as int]));
        assert(encode_table(recs.subrange(0, i + 1), enc) =~= encode_table(recs.subrange(0, i as int), enc).push(encode_record(recs[i as int], enc)));
        i += 1;
    }
    assert(recs.subrange(0, i as int) =~= recs);
    rows
}

} // verus!
