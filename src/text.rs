use vstd::prelude::*;
use crate::password::{all_filled, get_default};
use crate::record::{ProvisionError, Record, RecordView, records_view};
use crate::role::RoleEncoding;
use crate::table::{Table, decode_table, encode_record, encode_table, records_from_rows, records_result, rows_from_records};

verus! {

#[verifier::external_type_specification]
#[verifier::external_body]
pub struct ExCsvError(csv::Error);

/// The rows that the csv crate reads from the given bytes, or `None` where
/// it rejects them.
pub uninterp spec fn csv_parse(data: Seq<u8>) -> Option<Table>;

/// The bytes that the csv crate writes for the given rows.
pub uninterp spec fn csv_render(rows: Table) -> Seq<u8>;

/// Relies on csv's `ReaderBuilder` (header row read as a plain row, rows of
/// any width) and `Reader::records`: reading a byte slice is a function of
/// its bytes, and fails where a field is not UTF-8.
#[verifier::external_body]
fn read_csv(data: &[u8]) -> (r: Result<Vec<Vec<String>>, csv::Error>)
    ensures
        match r {
            Ok(rows) => csv_parse(data@) == Some(rows.deep_view()),
            Err(_) => csv_parse(data@) is None,
        },
{
    let mut rdr = csv::ReaderBuilder::new().has_headers(false).flexible(true).from_reader(data);
    rdr.records().map(|rec| rec.map(|row| row.iter().map(String::from).collect())).collect()
}

/// Relies on csv's `Writer::write_record` into a `Vec<u8>` and
/// `Writer::into_inner`: what is written is a function of the rows. The
/// writer fails only on rows of unequal widths (`check_field_count`), as
/// writing to and flushing a `Vec<u8>` cannot fail.
#[verifier::external_body]
fn write_csv(rows: &Vec<Vec<String>>) -> (r: Result<Vec<u8>, csv::Error>)
    ensures
        r matches Ok(b) ==> b@ == csv_render(rows.deep_view()),
        (forall|i: int| 0 <= i < rows@.len() ==> #[trigger] rows@[i]@.len() == rows@[0]@.len()) ==> r is Ok,
{
    let mut wtr = csv::Writer::from_writer(Vec::new());
    for row in rows {
        wtr.write_record(row)?;
    }
    wtr.into_inner().map_err(|e| csv::Error::from(e.into_error()))
}

/// What reading `data` as an account table gives.
/// Every row of a written table has the header's five fields.
proof fn lemma_encoded_rows_same_width(recs: Seq<RecordView>, enc: RoleEncoding)
    ensures
        forall|i: int| 0 <= i < encode_table(recs, enc).len() ==> #[trigger] encode_table(recs, enc)[i].len() == 5,
{
    let t = encode_table(recs, enc);
    assert forall|i: int| 0 <= i < t.len() implies #[trigger] t[i].len() == 5 by {
        if i > 0 {
            assert(t[i] == encode_record(recs[i - 1], enc));
        }
    }
}

pub open spec fn parsed(data: Seq<u8>, enc: RoleEncoding) -> Result<Seq<RecordView>, ProvisionError> {
    match csv_parse(data) {
        None => Err(ProvisionError::Malformed),
        Some(t) => decode_table(t, enc),
    }
}

/// Reads the records of a CSV account table whose first row is the header.
pub fn parse_records(data: &[u8], enc: RoleEncoding) -> (r: Result<Vec<Record>, ProvisionError>)
    ensures
        records_result(r) == parsed(data@, enc),
{
    match read_csv(data) {
        Ok(rows) => records_from_rows(&rows, enc),
        Err(_) => Err(ProvisionError::Malformed),
    }
}

/// Writes records as CSV text: the header row, then one row per record.
/// Every row has the header's width, so writing always succeeds.
pub fn render_records(records: &Vec<Record>, enc: RoleEncoding) -> (r: Result<Vec<u8>, ProvisionError>)
    ensures
        r is Ok,
        r matches Ok(b) ==> b@ == csv_render(encode_table(records_view(records@), enc)),
{
    let rows = rows_from_records(records, enc);
    proof {
        lemma_encoded_rows_same_width(records_view(records@), enc);
        assert forall|i: int| 0 <= i < rows@.len() implies #[trigger] rows@[i]@.len() == rows@[0]@.len() by {
            assert(rows.deep_view()[i].len() == rows@[i]@.len());
            assert(rows.deep_view()[0].len() == rows@[0]@.len());
        }
    }
    match write_csv(&rows) {
        Ok(b) => Ok(b),
        Err(_) => Err(ProvisionError::Serialization),
    }
}

/// `r` is a result of provisioning `data`: the error of reading it where
/// reading fails, else the text of its records with their defaults filled in.
pub open spec fn provisioned(data: Seq<u8>, enc: RoleEncoding, r: Result<Vec<u8>, ProvisionError>) -> bool {
    match parsed(data, enc) {
        Err(e) => r == Err::<Vec<u8>, ProvisionError>(e),
        Ok(recs) => match r {
            Ok(b) => exists|filled: Seq<RecordView>|
                all_filled(recs, filled) && b@ == #[trigger] csv_render(encode_table(filled, enc)),
            Err(_) => false,
        },
    }
}

/// Provisions an account table: reads its records, gives each the default
/// role and a fresh password, and writes them back in the same order. When
/// reading fails nothing is written.
pub fn provision(data: &[u8], enc: RoleEncoding) -> (r: Result<Vec<u8>, ProvisionError>)
    ensures
        provisioned(data@, enc, r),
{
    let mut records = parse_records(data, enc)?;
    let ghost recs = records_view(records@);
    get_default(&mut records);
    let r = render_records(&records, enc);
    assert(all_filled(recs, records_view(records@)));
    r
}

} // verus!
