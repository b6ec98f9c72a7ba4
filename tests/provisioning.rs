use user_seed::{
    get_default, parse_records, provision, random_password, records_from_rows, render_records,
    row_of_record, rows_from_records, ProvisionError, Record, Role, RoleEncoding, PASSWORD_LEN,
};

const HEADER: &str = "email,username,password,displayedName,role\n";

fn is_alnum(s: &str) -> bool {
    s.chars().all(|c| c.is_ascii_alphanumeric())
}

fn row(fields: &[&str]) -> Vec<String> {
    fields.iter().map(|f| f.to_string()).collect()
}

fn record(email: &str, username: &str, displayed: Option<&str>, role: Option<Role>) -> Record {
    Record {
        email: email.to_string(),
        username: username.to_string(),
        password: None,
        displayed_name: displayed.map(|d| d.to_string()),
        role,
    }
}

fn assert_filled(r: &Record) {
    let p = r.password.as_ref().expect("password is set");
    assert_eq!(p.chars().count(), 10);
    assert!(is_alnum(p));
    assert_eq!(r.role, Some(Role::Student));
}

#[test]
fn example_rows_get_defaults() {
    let input = format!("{}alice@x.com,alice,,Alice A,2\nbob@x.com,bob,,,\n", HEADER);
    let out = provision(input.as_bytes(), RoleEncoding::Code).unwrap();
    let recs = parse_records(&out, RoleEncoding::Code).unwrap();
    assert_eq!(recs.len(), 2);
    assert_eq!(recs[0].email, "alice@x.com");
    assert_eq!(recs[0].username, "alice");
    assert_eq!(recs[0].displayed_name, Some("Alice A".to_string()));
    assert_filled(&recs[0]);
    assert_eq!(recs[1].email, "bob@x.com");
    assert_eq!(recs[1].username, "bob");
    assert_eq!(recs[1].displayed_name, None);
    assert_filled(&recs[1]);
    let text = String::from_utf8(out).unwrap();
    assert!(text.starts_with(HEADER));
    let lines: Vec<&str> = text.lines().collect();
    assert_eq!(lines.len(), 3);
    assert!(lines[1].starts_with("alice@x.com,alice,"));
    assert!(lines[1].ends_with(",Alice A,2"));
    assert!(lines[2].starts_with("bob@x.com,bob,"));
    assert!(lines[2].ends_with(",,2"));
}

#[test]
fn output_is_valid_input() {
    for enc in [RoleEncoding::Code, RoleEncoding::Name] {
        let input = format!("{}a@x.com,a,old,A,\nb@x.com,b,,,\n", HEADER);
        let once = provision(input.as_bytes(), enc).unwrap();
        let twice = provision(&once, enc).unwrap();
        let recs = parse_records(&twice, enc).unwrap();
        assert_eq!(recs.len(), 2);
        assert_eq!(recs[0].displayed_name, Some("A".to_string()));
        assert_filled(&recs[0]);
        assert_filled(&recs[1]);
    }
}

#[test]
fn row_count_and_order_kept() {
    let mut input = HEADER.to_string();
    for i in 0..20 {
        input.push_str(&format!("u{}@x.com,u{},,,\n", i, i));
    }
    let out = provision(input.as_bytes(), RoleEncoding::Code).unwrap();
    let recs = parse_records(&out, RoleEncoding::Code).unwrap();
    assert_eq!(recs.len(), 20);
    for (i, r) in recs.iter().enumerate() {
        assert_eq!(r.email, format!("u{}@x.com", i));
        assert_eq!(r.username, format!("u{}", i));
    }
}

#[test]
fn role_replaced_whatever_it_was() {
    let input = "email,username,role\na@x.com,a,0\nb@x.com,b,1\nc@x.com,c,\n";
    let out = provision(input.as_bytes(), RoleEncoding::Code).unwrap();
    let recs = parse_records(&out, RoleEncoding::Code).unwrap();
    assert_eq!(recs.len(), 3);
    for r in &recs {
        assert_filled(r);
    }
}

#[test]
fn role_column_absent() {
    let input = "email,username\na@x.com,a\n";
    let out = provision(input.as_bytes(), RoleEncoding::Name).unwrap();
    let text = String::from_utf8(out.clone()).unwrap();
    assert!(text.starts_with(HEADER));
    assert!(text.ends_with(",,Student\n"));
    let recs = parse_records(&out, RoleEncoding::Name).unwrap();
    assert_filled(&recs[0]);
}

#[test]
fn fields_byte_identical() {
    let input = format!("{}\"x, y\"@z.com,  spaced  ,,\"Quote \"\"Q\"\"\",2\n", HEADER);
    let out = provision(input.as_bytes(), RoleEncoding::Code).unwrap();
    let recs = parse_records(&out, RoleEncoding::Code).unwrap();
    assert_eq!(recs[0].email, "x, y@z.com");
    assert_eq!(recs[0].username, "  spaced  ");
    assert_eq!(recs[0].displayed_name, Some("Quote \"Q\"".to_string()));
}

#[test]
fn out_of_range_role_code_is_refused() {
    let input = format!("{}a@x.com,a,,,2\nb@x.com,b,,,7\n", HEADER);
    assert_eq!(
        provision(input.as_bytes(), RoleEncoding::Code),
        Err(ProvisionError::InvalidRole { row: 3 })
    );
}

#[test]
fn role_name_refused_under_codes_and_code_under_names() {
    let by_name = format!("{}a@x.com,a,,,Student\n", HEADER);
    assert_eq!(
        parse_records(by_name.as_bytes(), RoleEncoding::Code).unwrap_err(),
        ProvisionError::InvalidRole { row: 2 }
    );
    let by_code = format!("{}a@x.com,a,,,2\n", HEADER);
    assert_eq!(
        parse_records(by_code.as_bytes(), RoleEncoding::Name).unwrap_err(),
        ProvisionError::InvalidRole { row: 2 }
    );
    let ok = parse_records(by_name.as_bytes(), RoleEncoding::Name).unwrap();
    assert_eq!(ok[0].role, Some(Role::Student));
}

#[test]
fn wrong_field_count_is_refused() {
    let input = format!("{}a@x.com,a,,\n", HEADER);
    assert_eq!(
        provision(input.as_bytes(), RoleEncoding::Code),
        Err(ProvisionError::FieldCount { row: 2 })
    );
}

#[test]
fn missing_required_columns_are_refused() {
    assert_eq!(
        provision(b"username,role\na,2\n", RoleEncoding::Code),
        Err(ProvisionError::MissingEmailColumn)
    );
    assert_eq!(
        provision(b"email,role\na@x.com,2\n", RoleEncoding::Code),
        Err(ProvisionError::MissingUsernameColumn)
    );
    assert_eq!(
        provision(b"Email,Username\na@x.com,a\n", RoleEncoding::Code),
        Err(ProvisionError::MissingEmailColumn)
    );
}

#[test]
fn invalid_utf8_is_malformed() {
    let mut input = HEADER.as_bytes().to_vec();
    input.extend_from_slice(b"a@x.com,\xff\xfe,,,2\n");
    assert_eq!(provision(&input, RoleEncoding::Code), Err(ProvisionError::Malformed));
}

#[test]
fn empty_input_gives_header_only() {
    let out = provision(b"", RoleEncoding::Code).unwrap();
    assert_eq!(String::from_utf8(out).unwrap(), HEADER);
    let out = provision(HEADER.as_bytes(), RoleEncoding::Code).unwrap();
    assert_eq!(String::from_utf8(out).unwrap(), HEADER);
}

#[test]
fn columns_found_by_name_in_any_order() {
    let rows = vec![
        row(&["role", "extra", "username", "email"]),
        row(&["1", "ignored", "carol", "c@x.com"]),
    ];
    let recs = records_from_rows(&rows, RoleEncoding::Code).unwrap();
    assert_eq!(recs.len(), 1);
    assert_eq!(recs[0].email, "c@x.com");
    assert_eq!(recs[0].username, "carol");
    assert_eq!(recs[0].password, None);
    assert_eq!(recs[0].displayed_name, None);
    assert_eq!(recs[0].role, Some(Role::Teacher));
}

#[test]
fn records_from_empty_rows() {
    let rows: Vec<Vec<String>> = vec![];
    assert_eq!(records_from_rows(&rows, RoleEncoding::Code).unwrap().len(), 0);
}

#[test]
fn records_written_as_rows() {
    let recs = vec![
        record("a@x.com", "a", Some("A"), Some(Role::Admin)),
        record("b@x.com", "b", None, None),
    ];
    let rows = rows_from_records(&recs, RoleEncoding::Code);
    assert_eq!(
        rows,
        vec![
            row(&["email", "username", "password", "displayedName", "role"]),
            row(&["a@x.com", "a", "", "A", "0"]),
            row(&["b@x.com", "b", "", "", ""]),
        ]
    );
    let one = row_of_record(&recs[0], RoleEncoding::Name);
    assert_eq!(one, row(&["a@x.com", "a", "", "A", "Admin"]));
}

#[test]
fn render_writes_csv_text() {
    let mut r = record("a@x.com", "a, b", None, Some(Role::Teacher));
    r.password = Some("pw".to_string());
    let out = render_records(&vec![r], RoleEncoding::Name).unwrap();
    assert_eq!(
        String::from_utf8(out).unwrap(),
        format!("{}a@x.com,\"a, b\",pw,,Teacher\n", HEADER)
    );
}

#[test]
fn parse_reads_csv_text() {
    let input = format!("{}a@x.com,\"a, b\",pw,D,0\n", HEADER);
    let recs = parse_records(input.as_bytes(), RoleEncoding::Code).unwrap();
    assert_eq!(recs.len(), 1);
    assert_eq!(recs[0].username, "a, b");
    assert_eq!(recs[0].password, Some("pw".to_string()));
    assert_eq!(recs[0].displayed_name, Some("D".to_string()));
    assert_eq!(recs[0].role, Some(Role::Admin));
}

#[test]
fn get_default_fills_every_record() {
    let mut recs = vec![
        record("a@x.com", "a", Some("A"), Some(Role::Admin)),
        record("b@x.com", "b", None, None),
    ];
    recs[0].password = Some("1".to_string());
    get_default(&mut recs);
    assert_eq!(recs.len(), 2);
    assert_eq!(recs[0].email, "a@x.com");
    assert_eq!(recs[0].displayed_name, Some("A".to_string()));
    assert_eq!(recs[1].username, "b");
    assert_eq!(recs[1].displayed_name, None);
    assert_filled(&recs[0]);
    assert_filled(&recs[1]);
}

#[test]
fn get_default_on_no_records() {
    let mut recs: Vec<Record> = vec![];
    get_default(&mut recs);
    assert!(recs.is_empty());
}

#[test]
fn random_password_shape() {
    assert_eq!(PASSWORD_LEN, 10);
    for _ in 0..50 {
        let p = random_password();
        assert_eq!(p.len(), 10);
        assert!(is_alnum(&p));
    }
}

#[test]
fn default_role_is_student() {
    assert_eq!(Role::default(), Role::Student);
}

#[test]
fn role_texts() {
    assert_eq!(Role::Admin.to_text(RoleEncoding::Name), "Admin");
    assert_eq!(Role::Teacher.to_text(RoleEncoding::Name), "Teacher");
    assert_eq!(Role::Student.to_text(RoleEncoding::Name), "Student");
    assert_eq!(Role::Admin.to_text(RoleEncoding::Code), "0");
    assert_eq!(Role::Teacher.to_text(RoleEncoding::Code), "1");
    assert_eq!(Role::Student.to_text(RoleEncoding::Code), "2");
}

#[test]
fn role_fields() {
    let f = |s: &str, e| Role::from_field(&s.to_string(), e);
    assert_eq!(f("", RoleEncoding::Code), Ok(None));
    assert_eq!(f("1", RoleEncoding::Code), Ok(Some(Role::Teacher)));
    assert_eq!(f("3", RoleEncoding::Code), Err(()));
    assert_eq!(f("02", RoleEncoding::Code), Err(()));
    assert_eq!(f("Admin", RoleEncoding::Name), Ok(Some(Role::Admin)));
    assert_eq!(f("admin", RoleEncoding::Name), Err(()));
}

#[test]
fn example_table_writes_exactly() {
    let mut alice = record("alice@x.com", "alice", Some("Alice A"), Some(Role::Student));
    alice.password = Some("Ab3dEf7hIj".to_string());
    let mut bob = record("bob@x.com", "bob", None, Some(Role::Student));
    bob.password = Some("k9LmN0pQ2r".to_string());
    let out = render_records(&vec![alice, bob], RoleEncoding::Code).unwrap();
    assert_eq!(
        String::from_utf8(out).unwrap(),
        format!("{}alice@x.com,alice,Ab3dEf7hIj,Alice A,2\nbob@x.com,bob,k9LmN0pQ2r,,2\n", HEADER)
    );
}

#[test]
fn writing_no_records_gives_header() {
    let out = render_records(&vec![], RoleEncoding::Name).unwrap();
    assert_eq!(String::from_utf8(out).unwrap(), HEADER);
}

#[test]
fn mixed_optional_fields_write() {
    let mut a = record("a@x.com", "a", None, None);
    a.password = Some("p".to_string());
    let b = record("b@x.com", "b", Some("B"), Some(Role::Admin));
    let out = render_records(&vec![a, b], RoleEncoding::Name).unwrap();
    assert_eq!(
        String::from_utf8(out).unwrap(),
        format!("{}a@x.com,a,p,,\nb@x.com,b,,B,Admin\n", HEADER)
    );
}
