use vstd::prelude::*;
use crate::password::{all_filled, is_filled, is_valid_password};
use crate::record::RecordView;
use crate::role::{RoleEncoding, decode_role, default_role, lemma_role_text_decodes, role_text};
use crate::table::{
    Table, decode_row, decode_rows, decode_table, encode_record, encode_table, field_at,
    find_column, header_row, optional, or_empty,
};

verus! {

/// A record as it reads back once written: an empty password or displayed
/// name reads back as absent, everything else as it was.
pub open spec fn reread(r: RecordView) -> RecordView {
    RecordView {
        password: optional(or_empty(r.password)),
        displayed_name: optional(or_empty(r.displayed_name)),
        ..r
    }
}

proof fn lemma_header_columns()
    ensures
        find_column(header_row(), "email"@) == Some(0int),
        find_column(header_row(), "username"@) == Some(1int),
        find_column(header_row(), "password"@) == Some(2int),
        find_column(header_row(), "displayedName"@) == Some(3int),
        find_column(header_row(), "role"@) == Some(4int),
{
    reveal_strlit("email");
    reveal_strlit("username");
    reveal_strlit("password");
    reveal_strlit("displayedName");
    reveal_strlit("role");
    let h = header_row();
    let h4 = h.drop_last();
    let h3 = h4.drop_last();
    let h2 = h3.drop_last();
    let h1 = h2.drop_last();
    let h0 = h1.drop_last();
    assert(h4 =~= seq!["email"@, "username"@, "password"@, "displayedName"@]);
    assert(h3 =~= seq!["email"@, "username"@, "password"@]);
    assert(h2 =~= seq!["email"@, "username"@]);
    assert(h1 =~= seq!["email"@]);
    assert(h0 =~= Seq::<Seq<char>>::empty());
    let names = seq!["email"@, "username"@, "password"@, "displayedName"@, "role"@];
    assert(h == names);
    assert forall|i: int, j: int| 0 <= i < j < 5 implies names[i] != names[j] by {
        assert(names[i][0] != names[j][0]);
    }
    reveal_with_fuel(find_column, 6);
}

proof fn lemma_reads_back_prefix(recs: Seq<RecordView>, enc: RoleEncoding, n: int)
    requires
        1 <= n <= recs.len() + 1,
    ensures
        decode_rows(encode_table(recs, enc), n, enc) == Ok::<Seq<RecordView>, crate::record::ProvisionError>(
            recs.subrange(0, n - 1).map_values(|r: RecordView| reread(r)),
        ),
    decreases n,
{
    let t = encode_table(recs, enc);
    if n == 1 {
        assert(recs.subrange(0, 0).map_values(|r: RecordView| reread(r)) =~= Seq::<RecordView>::empty());
    } else {
        lemma_reads_back_prefix(recs, enc, n - 1);
        lemma_header_columns();
        let r = recs[n - 2];
        let row = t[n - 1];
        assert(t[0] == header_row());
        assert(row == encode_record(r, enc));
        match r.role {
            Some(x) => lemma_role_text_decodes(x, enc),
            None => {},
        }
        assert(decode_role(field_at(row, Some(4int)), enc) == Ok::<Option<crate::role::Role>, ()>(r.role));
        assert(decode_row(t[0], row, n, enc) == Ok::<RecordView, crate::record::ProvisionError>(reread(r)));
        assert(recs.subrange(0, n - 1).map_values(|r: RecordView| reread(r)) =~= recs.subrange(
            0,
            n - 2,
        ).map_values(|r: RecordView| reread(r)).push(reread(r)));
    }
}

/// Written records read back without error: writing a sequence of records
/// as a table and reading that table gives the same records in the same
/// order, where an empty password or displayed name reads back as absent.
pub proof fn lemma_written_table_reads_back(recs: Seq<RecordView>, enc: RoleEncoding)
    ensures
        decode_table(encode_table(recs, enc), enc) == Ok::<Seq<RecordView>, crate::record::ProvisionError>(
            recs.map_values(|r: RecordView| reread(r)),
        ),
{
    let t = encode_table(recs, enc);
    lemma_header_columns();
    assert(t[0] == header_row());
    lemma_reads_back_prefix(recs, enc, recs.len() + 1 as int);
    assert(recs.subrange(0, recs.len() as int) =~= recs);
}

proof fn lemma_decoded_rows(rows: Table, n: int, enc: RoleEncoding, p: Seq<RecordView>)
    requires
        decode_rows(rows, n, enc) == Ok::<Seq<RecordView>, crate::record::ProvisionError>(p),
    ensures
        p.len() == if n <= 1 { 0 } else { n - 1 },
        forall|k: int| 0 <= k < p.len() ==>
            decode_row(rows[0], #[trigger] rows[k + 1], k + 2, enc) == Ok::<RecordView, crate::record::ProvisionError>(p[k]),
    decreases n,
{
    if n > 1 {
        let prefix = decode_rows(rows, n - 1, enc)->Ok_0;
        lemma_decoded_rows(rows, n - 1, enc, prefix);
        assert(p == prefix.push(decode_row(rows[0], rows[n - 1], n, enc)->Ok_0));
        assert forall|k: int| 0 <= k < p.len() implies
            decode_row(rows[0], #[trigger] rows[k + 1], k + 2, enc) == Ok::<RecordView, crate::record::ProvisionError>(p[k]) by {
            if k < prefix.len() {
                assert(p[k] == prefix[k]);
            }
        }
    }
}

/// Provisioning keeps the table's shape and content: the output has one
/// row per input row, in the same order; each output record holds the
/// email, username and displayed name of the input row at the same
/// position, a valid generated password and the default role.
pub proof fn lemma_output_rows(rows: Table, enc: RoleEncoding, recs: Seq<RecordView>, filled: Seq<RecordView>)
    requires
        decode_table(rows, enc) == Ok::<Seq<RecordView>, crate::record::ProvisionError>(recs),
        all_filled(recs, filled),
    ensures
        encode_table(filled, enc).len() == recs.len() + 1,
        rows.len() > 0 ==> encode_table(filled, enc).len() == rows.len(),
        encode_table(filled, enc)[0] == header_row(),
        forall|i: int| 1 <= i < rows.len() ==> {
            let out = #[trigger] encode_table(filled, enc)[i];
            &&& out[0] == field_at(rows[i], find_column(rows[0], "email"@))
            &&& out[1] == field_at(rows[i], find_column(rows[0], "username"@))
            &&& is_valid_password(out[2])
            &&& out[3] == field_at(rows[i], find_column(rows[0], "displayedName"@))
            &&& out[4] == role_text(default_role(), enc)
        },
{
    let out = encode_table(filled, enc);
    if rows.len() > 0 {
        lemma_decoded_rows(rows, rows.len() as int, enc, recs);
        assert forall|i: int| 1 <= i < rows.len() implies {
            let o = #[trigger] encode_table(filled, enc)[i];
            &&& o[0] == field_at(rows[i], find_column(rows[0], "email"@))
            &&& o[1] == field_at(rows[i], find_column(rows[0], "username"@))
            &&& is_valid_password(o[2])
            &&& o[3] == field_at(rows[i], find_column(rows[0], "displayedName"@))
            &&& o[4] == role_text(default_role(), enc)
        } by {
            let k = i - 1;
            assert(rows[k + 1] == rows[i]);
            assert(decode_row(rows[0], rows[k + 1], k + 2, enc) == Ok::<RecordView, crate::record::ProvisionError>(recs[k]));
            assert(is_filled(recs[k], filled[k]));
            assert(out[i] == encode_record(filled[k], enc));
            let d = field_at(rows[i], find_column(rows[0], "displayedName"@));
            assert(or_empty(optional(d)) == d);
        }
    }
}

/// A table whose header has no `role` column reads as records without a
/// role, one per data row.
pub proof fn lemma_absent_role_column(rows: Table, enc: RoleEncoding, recs: Seq<RecordView>)
    requires
        decode_table(rows, enc) == Ok::<Seq<RecordView>, crate::record::ProvisionError>(recs),
        rows.len() > 0,
        find_column(rows[0], "role"@) is None,
    ensures
        recs.len() == rows.len() - 1,
        forall|i: int| 0 <= i < recs.len() ==> (#[trigger] recs[i]).role is None,
{
    lemma_decoded_rows(rows, rows.len() as int, enc, recs);
    assert forall|i: int| 0 <= i < recs.len() implies (#[trigger] recs[i]).role is None by {
        assert(decode_row(rows[0], rows[i + 1], i + 2, enc) == Ok::<RecordView, crate::record::ProvisionError>(recs[i]));
        assert(field_at(rows[i + 1], find_column(rows[0], "role"@)) == Seq::<char>::empty());
    }
}

} // verus!
