use vstd::prelude::*;
use vstd::string::StringExecFns;

verus! {

/// The role of an account.
#[derive(Debug, Clone, Copy, PartialEq, Eq, Structural)]
pub enum Role {
    Admin,
    Teacher,
    Student,
}

/// How a role is written in the `role` column: by its name (`Student`)
/// or by its integer code (`2`).
#[derive(Debug, Clone, Copy, PartialEq, Eq, Structural)]
pub enum RoleEncoding {
    Name,
    Code,
}

/// The role that every provisioned account receives.
pub open spec fn default_role() -> Role {
    Role::Student
}

impl Default for Role {
    fn default() -> (r: Role)
        ensures
            r == default_role(),
    {
        Role::Student
    }
}

/// The text of a role in the `role` column under the given encoding.
pub open spec fn role_text(r: Role, enc: RoleEncoding) -> Seq<char> {
    match enc {
        RoleEncoding::Name => match r {
            Role::Admin => "Admin"@,
            Role::Teacher => "Teacher"@,
            Role::Student => "Student"@,
        },
        RoleEncoding::Code => match r {
            Role::Admin => "0"@,
            Role::Teacher => "1"@,
            Role::Student => "2"@,
        },
    }
}

/// The role written as `s` under the given encoding, if any.
pub open spec fn role_of_text(s: Seq<char>, enc: RoleEncoding) -> Option<Role> {
    if s == role_text(Role::Admin, enc) {
        Some(Role::Admin)
    } else if s == role_text(Role::Teacher, enc) {
        Some(Role::Teacher)
    } else if s == role_text(Role::Student, enc) {
        Some(Role::Student)
    } else {
        None
    }
}

/// What a `role` field holds: an empty field is an absent role, any other
/// text must be the text of a role.
pub open spec fn decode_role(s: Seq<char>, enc: RoleEncoding) -> Result<Option<Role>, ()> {
    if s.len() == 0 {
        Ok(None)
    } else {
        match role_of_text(s, enc) {
            Some(r) => Ok(Some(r)),
            None => Err(()),
        }
    }
}

/// Distinct roles have distinct, non-empty texts.
pub proof fn lemma_role_text_decodes(r: Role, enc: RoleEncoding)
    ensures
        role_text(r, enc).len() > 0,
        role_of_text(role_text(r, enc), enc) == Some(r),
        decode_role(role_text(r, enc), enc) == Ok::<Option<Role>, ()>(Some(r)),
{
    reveal_strlit("Admin");
    reveal_strlit("Teacher");
    reveal_strlit("Student");
    reveal_strlit("0");
    reveal_strlit("1");
    reveal_strlit("2");
    assert("Admin"@[0] != "Teacher"@[0]);
    assert("Admin"@[0] != "Student"@[0]);
    assert("Teacher"@[0] != "Student"@[0]);
    assert("0"@[0] != "1"@[0]);
    assert("0"@[0] != "2"@[0]);
    assert("1"@[0] != "2"@[0]);
}

impl Role {
    /// The text of this role under the given encoding.
    pub fn to_text(&self, enc: RoleEncoding) -> (s: String)
        ensures
            s@ == role_text(*self, enc),
    {
        match enc {
            RoleEncoding::Name => match self {
                Role::Admin => String::from_str("Admin"),
                Role::Teacher => String::from_str("Teacher"),
                Role::Student => String::from_str("Student"),
            },
            RoleEncoding::Code => match self {
                Role::Admin => String::from_str("0"),
                Role::Teacher => String::from_str("1"),
                Role::Student => String::from_str("2"),
            },
        }
    }

    /// Reads a `role` field: `Ok(None)` for an empty field, `Ok(Some(r))`
    /// for the text of `r`, `Err(())` for anything else.
    pub fn from_field(field: &String, enc: RoleEncoding) -> (r: Result<Option<Role>, ()>)
        ensures
            r == decode_role(field@, enc),
    {
        if field.as_str().unicode_len() == 0 {
            return Ok(None);
        }
        let admin = Role::Admin.to_text(enc);
        let teacher = Role::Teacher.to_text(enc);
        let student = Role::Student.to_text(enc);
        if *field == admin {
            Ok(Some(Role::Admin))
        } else if *field == teacher {
            Ok(Some(Role::Teacher))
        } else if *field == student {
            Ok(Some(Role::Student))
        } else {
            Err(())
        }
    }
}

} // verus!
