use vstd::prelude::*;
use rand::Rng;
use crate::record::{Record, RecordView, records_view};
use crate::role::{Role, default_role};

verus! {

/// The number of characters of a generated password.
pub const PASSWORD_LEN: usize = 10;

/// A character of `[A-Za-z0-9]`.
pub open spec fn is_alphanumeric(c: char) -> bool {
    ('A' <= c && c <= 'Z') || ('a' <= c && c <= 'z') || ('0' <= c && c <= '9')
}

/// A password as the library generates it: `PASSWORD_LEN` characters of `[A-Za-z0-9]`.
pub open spec fn is_valid_password(p: Seq<char>) -> bool {
    &&& p.len() == PASSWORD_LEN
    &&& forall|i: int| 0 <= i < p.len() ==> is_alphanumeric(#[trigger] p[i])
}

/// `after` is `before` with its defaults filled in: the default role, a
/// generated password, every other field unchanged.
pub open spec fn is_filled(before: RecordView, after: RecordView) -> bool {
    &&& after.email == before.email
    &&& after.username == before.username
    &&& after.displayed_name == before.displayed_name
    &&& after.role == Some(default_role())
    &&& after.password matches Some(p) && is_valid_password(p)
}

/// Each record of `after` is the record of `before` at the same position
/// with its defaults filled in.
pub open spec fn all_filled(before: Seq<RecordView>, after: Seq<RecordView>) -> bool {
    &&& after.len() == before.len()
    &&& forall|i: int| 0 <= i < before.len() ==> is_filled(#[trigger] before[i], after[i])
}

/// Relies on rand's `thread_rng` sampled through `distributions::Alphanumeric`,
/// which draws each character uniformly from `A-Z`, `a-z` and `0-9`: the
/// result has `len` such characters. (`thread_rng` panics only where the
/// operating system cannot seed it.)
#[verifier::external_body]
fn random_alphanumeric(len: usize) -> (s: String)
    ensures
        s@.len() == len,
        forall|i: int| 0 <= i < s@.len() ==> is_alphanumeric(#[trigger] s@[i]),
{
    rand::thread_rng().sample_iter(&rand::distributions::Alphanumeric).take(len).map(char::from).collect()
}

/// A freshly drawn password of `PASSWORD_LEN` alphanumeric characters.
pub fn random_password() -> (p: String)
    ensures
        is_valid_password(p@),
{
    random_alphanumeric(PASSWORD_LEN)
}

/// Fills in the defaults of every record: sets its role to the default
/// role and its password to a fresh random password, whatever they held.
/// Nothing else changes, and the records keep their order.
pub fn get_default(records: &mut Vec<Record>)
    ensures
        all_filled(records_view(old(records)@), records_view(final(records)@)),
{
    let ghost before = records_view(records@);
    let mut i: usize = 0;
    while i < records.len()
        invariant
            i <= records.len(),
            before.len() == records.len(),
            forall|j: int| 0 <= j < i ==> is_filled(#[trigger] before[j], records@[j]@),
            forall|j: int| i <= j < records.len() ==> before[j] == #[trigger] records@[j]@,
        decreases records.len() - i,
    {
        let rec = Record {
            email: records[i].email.clone(),
            username: records[i].username.clone(),
            password: Some(random_password()),
            displayed_name: match &records[i].displayed_name {
                Some(d) => Some(d.clone()),
                None => None,
            },
            role: Some(Role::default()),
        };
        assert(before[i as int] == records@[i as int]@);
        assert(is_filled(before[i as int], rec@));
        records.set(i, rec);
        assert(records@[i as int]@ == rec@);
        i += 1;
    }
    assert(records_view(records@).len() == before.len());
}

} // verus!
