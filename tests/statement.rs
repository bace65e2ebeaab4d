use std::collections::hash_map::DefaultHasher;
use std::hash::{Hash, Hasher};

use pg_stmt::{
    accept_reply, decimal_text, sql_fingerprint, BackendReply, CText, ParamPointer, Statement,
    StatementError, BINARY_FORMAT,
};

const INT4_OID: u32 = 23;
const TEXT_OID: u32 = 25;

fn prepared(sql: &str, name: Option<&str>, types: &[u32]) -> Statement {
    Statement::prepare(sql, name, types)
        .unwrap()
        .finish(BackendReply::Accepted(()))
        .unwrap()
}

#[test]
fn c_text_appends_terminator() {
    let t = CText::new("ab").unwrap();
    assert_eq!(t.as_bytes(), &[b'a', b'b', 0]);
    let e = CText::new("").unwrap();
    assert_eq!(e.as_bytes(), &[0]);
}

#[test]
fn c_text_rejects_embedded_null() {
    assert!(CText::new("a\0b").is_none());
    assert!(CText::new("\0").is_none());
}

#[test]
fn decimal_text_exact_values() {
    assert_eq!(decimal_text(0), "0");
    assert_eq!(decimal_text(7), "7");
    assert_eq!(decimal_text(10), "10");
    assert_eq!(decimal_text(1234567890), "1234567890");
    assert_eq!(decimal_text(u64::MAX), "18446744073709551615");
}

#[test]
fn fingerprint_is_deterministic() {
    let a = sql_fingerprint("SELECT 1");
    let b = sql_fingerprint("SELECT 1");
    assert_eq!(a, b);
    assert!(!a.is_empty());
    assert!(a.chars().all(|c| c.is_ascii_digit()));
}

#[test]
fn fingerprint_matches_hashing_the_str() {
    let sql = "SELECT * FROM users WHERE id = $1";
    let mut hasher = DefaultHasher::new();
    sql.hash(&mut hasher);
    assert_eq!(sql_fingerprint(sql), format!("{:?}", hasher.finish()));
}

#[test]
fn prepare_builds_call_arguments() {
    let req = Statement::prepare("SELECT $1::int4, $2::text", Some("stmt_1"), &[INT4_OID, TEXT_OID])
        .unwrap();
    assert_eq!(req.name().as_bytes(), b"stmt_1\0");
    assert_eq!(req.sql().as_bytes(), b"SELECT $1::int4, $2::text\0");
    assert_eq!(req.param_count(), 2);
    assert_eq!(req.param_type_ids(), Some(&[INT4_OID, TEXT_OID][..]));
    assert_eq!(req.fingerprint(), sql_fingerprint("SELECT $1::int4, $2::text"));
}

#[test]
fn prepare_absent_name_is_unnamed() {
    let req = Statement::prepare("SELECT 1", None, &[]).unwrap();
    assert_eq!(req.name().as_bytes(), &[0]);
}

#[test]
fn prepare_rejects_null_in_sql() {
    let r = Statement::prepare("SELECT 1\0; DROP TABLE t", Some("s"), &[]);
    assert_eq!(r.err(), Some(StatementError::InvalidIdentifier));
}

#[test]
fn prepare_rejects_null_in_name() {
    let r = Statement::prepare("SELECT 1", Some("bad\0name"), &[INT4_OID]);
    assert_eq!(r.err(), Some(StatementError::InvalidIdentifier));
}

#[test]
fn format_count_equals_declared_types() {
    let s = prepared("SELECT $1, $2, $3", Some("three"), &[INT4_OID, TEXT_OID, INT4_OID]);
    assert_eq!(s.parameter_formats(), &[BINARY_FORMAT; 3]);
    assert_eq!(BINARY_FORMAT, 1);
}

#[test]
fn zero_types_give_null_type_ids_and_no_formats() {
    let req = Statement::prepare("SELECT now()", Some("now"), &[]).unwrap();
    assert_eq!(req.param_count(), 0);
    assert!(req.param_type_ids().is_none());
    let s = req.finish(BackendReply::Accepted(())).unwrap();
    assert!(s.parameter_formats().is_empty());
}

#[test]
fn finish_missing_reply_is_connection_invalid() {
    let req = Statement::prepare("SELECT 1", None, &[]).unwrap();
    let r = req.finish(BackendReply::<()>::Missing);
    assert_eq!(r.err(), Some(StatementError::ConnectionInvalid));
}

#[test]
fn finish_rejected_reply_is_backend_rejected() {
    let req = Statement::prepare("SELEC 1", Some("typo"), &[]).unwrap();
    let r = req.finish(BackendReply::<()>::Rejected { message: "syntax error".to_string() });
    assert_eq!(
        r.err(),
        Some(StatementError::BackendRejected { message: "syntax error".to_string() })
    );
}

#[test]
fn finish_keeps_name_and_fingerprint() {
    let s = prepared("SELECT 2", Some("two"), &[]);
    assert_eq!(s.name().as_bytes(), b"two\0");
    assert_eq!(s.sql_hash(), sql_fingerprint("SELECT 2"));
}

#[test]
fn accept_reply_each_variant() {
    assert_eq!(accept_reply(BackendReply::Accepted(5u8)), Ok(5u8));
    assert_eq!(accept_reply(BackendReply::<u8>::Missing), Err(StatementError::ConnectionInvalid));
    assert_eq!(
        accept_reply(BackendReply::<u8>::Rejected { message: "boom".to_string() }),
        Err(StatementError::BackendRejected { message: "boom".to_string() })
    );
}

#[test]
fn execute_absent_differs_from_empty() {
    let s = prepared("SELECT $1, $2, $3", Some("mix"), &[INT4_OID, TEXT_OID, TEXT_OID]);
    let data: Vec<Option<Vec<u8>>> = vec![None, Some(vec![]), Some(vec![1, 2, 3])];
    let req = s.execute(&data);
    assert_eq!(req.param_count(), 3);
    assert_eq!(
        req.pointers(),
        &[ParamPointer::Null, ParamPointer::BufferStart(1), ParamPointer::BufferStart(2)]
    );
    assert_eq!(req.lengths(), &[0, 0, 3]);
    assert_eq!(req.result_format(), BINARY_FORMAT);
    assert_eq!(req.statement().name().as_bytes(), b"mix\0");
    assert_eq!(req.statement().parameter_formats(), &[1, 1, 1]);
}

#[test]
fn execute_does_not_check_count() {
    let s = prepared("SELECT $1", Some("one"), &[INT4_OID]);
    let data: Vec<Option<Vec<u8>>> = vec![Some(vec![0; 4]), None];
    let req = s.execute(&data);
    assert_eq!(req.param_count(), 2);
    assert_eq!(req.lengths(), &[4, 0]);
}

#[test]
fn execute_twice_without_reprepare() {
    let s = prepared("SELECT $1::int", Some("int_stmt"), &[INT4_OID]);
    let first: Vec<Option<Vec<u8>>> = vec![Some(vec![1, 0, 0, 0])];
    let second: Vec<Option<Vec<u8>>> = vec![Some(vec![2, 0, 0, 0])];
    let a = s.execute(&first);
    assert_eq!(a.param_count(), 1);
    assert_eq!(a.pointers(), &[ParamPointer::BufferStart(0)]);
    assert_eq!(a.lengths(), &[4]);
    assert_eq!(accept_reply(BackendReply::Accepted("first")), Ok("first"));
    let b = s.execute(&second);
    assert_eq!(b.param_count(), 1);
    assert_eq!(b.lengths(), &[4]);
    assert_eq!(accept_reply(BackendReply::Accepted("second")), Ok("second"));
    assert_eq!(s.parameter_formats(), &[BINARY_FORMAT]);
    assert_eq!(s.name().as_bytes(), b"int_stmt\0");
}

#[test]
fn same_sql_two_names() {
    let a = prepared("SELECT $1::int", Some("a"), &[INT4_OID]);
    let b = prepared("SELECT $1::int", Some("b"), &[INT4_OID]);
    assert_eq!(a.sql_hash(), b.sql_hash());
    assert_ne!(a.name().as_bytes(), b.name().as_bytes());
}

#[test]
fn prepare_then_execute_with_matching_count() {
    let s = prepared("SELECT $1::text", None, &[TEXT_OID]);
    let data: Vec<Option<Vec<u8>>> = vec![Some(b"hi".to_vec())];
    let req = s.execute(&data);
    assert_eq!(req.param_count() as usize, req.statement().parameter_formats().len());
    assert_eq!(accept_reply(BackendReply::Accepted(42u32)), Ok(42u32));
}
