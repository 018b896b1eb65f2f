use snmpv3::error::SnmpError;
use snmpv3::oids::{oid_from_strings, OidMap};
use snmpv3::params::{ObjectIdentifier, SnmpValue};
use snmpv3::request::{
    get_request_oids, get_results, next_sibling, parse_oid_string, var_bind_to_snmp_result,
    VarBind, Walk,
};

fn oid(s: &str) -> ObjectIdentifier {
    parse_oid_string(s).unwrap()
}

fn vb(s: &str, value: SnmpValue) -> VarBind {
    VarBind { name: oid(s), value }
}

/// Runs a walk against a list of canned GETNEXT answers, one per request.
fn walk_with(start: &str, dir: &OidMap, answers: Vec<Option<VarBind>>) -> (Walk, Result<usize, SnmpError>) {
    let mut w = Walk::new(&oid_from_strings(start.to_string(), "start".to_string()), "agent:161".to_string());
    let mut sent = 0;
    for answer in answers {
        sent += 1;
        match w.on_response(dir, answer) {
            Ok(true) => continue,
            Ok(false) => return (w, Ok(sent)),
            Err(e) => return (w, Err(e)),
        }
    }
    (w, Ok(sent))
}

#[test]
fn walk_stops_at_subtree_boundary() {
    let dir = OidMap { oids: vec![] };
    let answers = vec![
        Some(vb("1.3.6.2.0", SnmpValue::Int(1))),
        Some(vb("1.3.6.2.1", SnmpValue::Int(2))),
        Some(vb("1.3.7.0", SnmpValue::Int(3))),
    ];
    let (w, sent) = walk_with("1.3.6", &dir, answers);
    assert_eq!(sent, Ok(3));
    assert_eq!(w.end.components(), &vec![1, 3, 7]);
    assert_eq!(w.results.len(), 2);
    assert_eq!(w.results[0].oid, "1.3.6.2.0");
    assert_eq!(w.results[1].oid, "1.3.6.2.1");
    assert_eq!(w.results[1].result, Some(SnmpValue::Int(2)));
    assert_eq!(w.results[0].host, "agent:161");
}

#[test]
fn walk_on_immediate_end_of_mib_view_is_empty() {
    let dir = OidMap { oids: vec![] };
    let answers = vec![Some(vb("1.3.6.1.2.1.1.1.0", SnmpValue::EndOfMibView))];
    let (w, sent) = walk_with("1.3.6.1.2.1", &dir, answers);
    assert_eq!(sent, Ok(1));
    assert!(w.results.is_empty());
}

#[test]
fn walk_ends_on_empty_answer() {
    let dir = OidMap { oids: vec![] };
    let (w, sent) = walk_with("1.3.6", &dir, vec![Some(vb("1.3.6.1", SnmpValue::Counter(5))), None]);
    assert_eq!(sent, Ok(2));
    assert_eq!(w.results.len(), 1);
}

#[test]
fn walk_names_results_from_directory() {
    let dir = OidMap { oids: vec![oid_from_strings("1.3.6.1.2.1.1.5".to_string(), "sysName".to_string())] };
    let answers = vec![
        Some(vb("1.3.6.1.2.1.1.5.0", SnmpValue::String("core-sw".to_string()))),
        Some(vb("1.3.6.1.2.1.1.6.0", SnmpValue::String("lab".to_string()))),
        Some(vb("1.3.6.1.2.1.2.1.0", SnmpValue::Int(4))),
    ];
    let (w, _) = walk_with("1.3.6.1.2.1.1", &dir, answers);
    assert_eq!(w.results.len(), 2);
    assert_eq!(w.results[0].oid, "sysName.0");
    assert_eq!(w.results[1].oid, "1.3.6.1.2.1.1.6.0");
}

#[test]
fn walk_rejects_non_increasing_answer() {
    let dir = OidMap { oids: vec![] };
    let answers = vec![
        Some(vb("1.3.6.5", SnmpValue::Int(1))),
        Some(vb("1.3.6.5", SnmpValue::Int(1))),
    ];
    let (w, sent) = walk_with("1.3.6", &dir, answers);
    assert_eq!(sent, Err(SnmpError::ProtocolError));
    assert_eq!(w.results.len(), 1);
}

#[test]
fn walk_of_invalid_identifier_uses_mib2() {
    let w = Walk::new(&oid_from_strings("not-an-oid".to_string(), "x".to_string()), "h".to_string());
    assert!(w.used_default);
    assert_eq!(w.current.components(), &vec![1, 3, 6, 1, 2, 1]);
    assert_eq!(w.end.components(), &vec![1, 3, 6, 1, 2, 2]);
}

#[test]
fn next_sibling_wraps_last_component() {
    let s = next_sibling(&ObjectIdentifier::new(vec![1, 3, u64::MAX]));
    assert_eq!(s.components(), &vec![1, 3, 0]);
    let t = next_sibling(&ObjectIdentifier::new(vec![1, 3, 6]));
    assert_eq!(t.components(), &vec![1, 3, 7]);
}

#[test]
fn get_with_no_valid_identifier_is_invalid_input() {
    let oids = vec![
        oid_from_strings("bogus".to_string(), "a".to_string()),
        oid_from_strings("1".to_string(), "b".to_string()),
        oid_from_strings("1..3".to_string(), "c".to_string()),
    ];
    assert_eq!(get_request_oids(&oids).unwrap_err(), SnmpError::InvalidInput);
    assert_eq!(get_request_oids(&vec![]).unwrap_err(), SnmpError::InvalidInput);
}

#[test]
fn get_keeps_the_identifiers_that_parse() {
    let oids = vec![
        oid_from_strings("1.3.6.1.2.1.1.1.0".to_string(), "sysDescr".to_string()),
        oid_from_strings("junk".to_string(), "junk".to_string()),
        oid_from_strings("1.3.6.1.2.1.1.3.0".to_string(), "sysUpTime".to_string()),
    ];
    let v = get_request_oids(&oids).unwrap();
    assert_eq!(v.len(), 2);
    assert_eq!(v[0].to_dotted(), "1.3.6.1.2.1.1.1.0");
    assert_eq!(v[1].to_dotted(), "1.3.6.1.2.1.1.3.0");
}

#[test]
fn get_results_use_requested_names() {
    let oids = vec![
        oid_from_strings("1.3.6.1.2.1.1.1.0".to_string(), "sysDescr".to_string()),
        oid_from_strings("1.3.6.1.2.1.1.3.0".to_string(), "sysUpTime".to_string()),
    ];
    let response = vec![
        vb("1.3.6.1.2.1.1.3.0", SnmpValue::TimeTicks(12)),
        vb("1.3.6.1.2.1.1.1.0", SnmpValue::String("box".to_string())),
    ];
    let r = get_results(&oids, &"10.1.1.1:161".to_string(), response).unwrap();
    assert_eq!(r.len(), 2);
    assert_eq!(r[0].oid, "sysUpTime");
    assert_eq!(r[0].result, Some(SnmpValue::TimeTicks(12)));
    assert_eq!(r[1].oid, "sysDescr");
    assert_eq!(r[1].host, "10.1.1.1:161");
}

#[test]
fn get_results_reject_unrequested_identifier() {
    let oids = vec![oid_from_strings("1.3.6.1.2.1.1.1.0".to_string(), "sysDescr".to_string())];
    let response = vec![vb("1.3.6.1.2.1.1.2.0", SnmpValue::Int(0))];
    let r = get_results(&oids, &"h".to_string(), response);
    assert_eq!(r.unwrap_err(), SnmpError::ProtocolError);
}

#[test]
fn parse_follows_unsigned_integer_rules() {
    assert_eq!(oid("1.3.6").components(), &vec![1, 3, 6]);
    assert_eq!(oid("+1.3").components(), &vec![1, 3]);
    assert_eq!(oid("0.18446744073709551615").components(), &vec![0, u64::MAX]);
    assert!(parse_oid_string("1").is_none());
    assert!(parse_oid_string("").is_none());
    assert!(parse_oid_string("1.3.").is_none());
    assert!(parse_oid_string("1.-3").is_none());
    assert!(parse_oid_string("1.18446744073709551616").is_none());
    assert!(parse_oid_string(".1.3").is_none());
}

#[test]
fn result_from_binding() {
    let r = var_bind_to_snmp_result(&"h:1".to_string(), "n".to_string(), vb("1.3", SnmpValue::Counter(9)));
    assert_eq!(r.host, "h:1");
    assert_eq!(r.oid, "n");
    assert_eq!(r.result, Some(SnmpValue::Counter(9)));
}
