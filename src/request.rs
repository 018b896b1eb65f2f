//! The request engine: identifiers of a GET request and the matching of its
//! response, and the GETNEXT walk over a subtree as a state machine that a
//! transport drives.
use vstd::prelude::*;
use crate::error::SnmpError;
use crate::oids::{lookup, lookup_in, opt_text, resolve, OidMap, OID};
use crate::params::{dotted, oid_le, ObjectIdentifier, SnmpResult, SnmpValue};

verus! {

/// The standard MIB-2 subtree, walked when no valid identifier is given.
pub const MIB2_BASE_OID: [u64; 6] = [1, 3, 6, 1, 2, 1];

/// A decimal digit.
pub open spec fn is_digit(c: char) -> bool {
    '0' <= c <= '9'
}

/// The number that a run of decimal digits stands for.
pub open spec fn digits_value(s: Seq<char>) -> nat
    decreases s.len(),
{
    if s.len() == 0 {
        0
    } else {
        digits_value(s.drop_last()) * 10 + ((s.last() as int) - ('0' as int)) as nat
    }
}

/// One component as an unsigned 64-bit integer reads it: an optional plus sign
/// and at least one decimal digit, of a value that fits in 64 bits.
pub open spec fn parse_component(s: Seq<char>) -> Option<u64> {
    let d = if s.len() > 0 && s[0] == '+' { s.drop_first() } else { s };
    if d.len() > 0 && (forall|i: int| 0 <= i < d.len() ==> is_digit(#[trigger] d[i]))
        && digits_value(d) <= u64::MAX {
        Some(digits_value(d) as u64)
    } else {
        None
    }
}

/// The pieces of `s` between dots; a string without dots is one piece.
pub open spec fn split_dots(s: Seq<char>) -> Seq<Seq<char>>
    decreases s.len(),
{
    if s.len() == 0 {
        seq![Seq::empty()]
    } else {
        let init = split_dots(s.drop_last());
        if s.last() == '.' {
            init.push(Seq::empty())
        } else {
            init.update(init.len() - 1, init.last().push(s.last()))
        }
    }
}

/// The components of every piece, where each piece parses.
pub open spec fn parse_pieces(p: Seq<Seq<char>>) -> Option<Seq<u64>>
    decreases p.len(),
{
    if p.len() == 0 {
        Some(Seq::empty())
    } else {
        match (parse_pieces(p.drop_last()), parse_component(p.last())) {
            (Some(init), Some(c)) => Some(init.push(c)),
            _ => None,
        }
    }
}

/// A dotted-decimal identifier of at least two components.
pub open spec fn parse_oid(s: Seq<char>) -> Option<Seq<u64>> {
    match parse_pieces(split_dots(s)) {
        Some(c) => if c.len() >= 2 {
            Some(c)
        } else {
            None
        },
        None => None,
    }
}

/// Relies on snmp_mp's `ObjectIdent::from_str`: the string is split at every dot,
/// each piece is read by `u64::from_str`, and fewer than two components are refused.
#[verifier::external_body]
fn parse_object_ident(s: &str) -> (r: Option<Vec<u64>>)
    ensures
        match r {
            Some(v) => parse_oid(s@) == Some(v@),
            None => parse_oid(s@) is None,
        },
{
    s.parse::<snmp_mp::ObjectIdent>().ok().map(|o| o.components().to_vec())
}

/// Parses a dotted-decimal identifier of at least two components.
pub fn parse_oid_string(s: &str) -> (r: Option<ObjectIdentifier>)
    ensures
        match r {
            Some(o) => parse_oid(s@) == Some(o@),
            None => parse_oid(s@) is None,
        },
{
    match parse_object_ident(s) {
        Some(v) => Some(ObjectIdentifier::new(v)),
        None => None,
    }
}

/// The components of those entries whose identifiers parse, in order.
pub open spec fn parsed_oids(oids: Seq<(Seq<char>, Seq<char>)>) -> Seq<Seq<u64>>
    decreases oids.len(),
{
    if oids.len() == 0 {
        Seq::empty()
    } else {
        let init = parsed_oids(oids.drop_last());
        match parse_oid(oids.last().0) {
            Some(c) => init.push(c),
            None => init,
        }
    }
}

/// The views of a list of identifiers.
pub open spec fn oid_views(v: Seq<ObjectIdentifier>) -> Seq<Seq<u64>> {
    v.map_values(|o: ObjectIdentifier| o@)
}

/// The identifiers that a GET request carries: those of `oids` that parse, in order.
/// Fails with `InvalidInput` when none does (an empty list included).
pub fn get_request_oids(oids: &Vec<OID>) -> (r: Result<Vec<ObjectIdentifier>, SnmpError>)
    ensures
        match r {
            Ok(v) => oid_views(v@) == parsed_oids(oids@.map_values(|o: OID| o@)) && v@.len() > 0,
            Err(e) => e == SnmpError::InvalidInput && parsed_oids(
                oids@.map_values(|o: OID| o@),
            ).len() == 0,
        },
{
    let ghost all = oids@.map_values(|o: OID| o@);
    let mut out: Vec<ObjectIdentifier> = Vec::new();
    let mut i: usize = 0;
    while i < oids.len()
        invariant
            i <= oids@.len(),
            all == oids@.map_values(|o: OID| o@),
            oid_views(out@) == parsed_oids(all.subrange(0, i as int)),
        decreases oids@.len() - i,
    {
        let ghost next = all.subrange(0, i + 1);
        assert(next.drop_last() =~= all.subrange(0, i as int));
        assert(next.last() == oids@[i as int]@);
        if let Some(o) = parse_oid_string(oids[i].oid.as_str()) {
            out.push(o);
        }
        i = i + 1;
        assert(oid_views(out@) =~= parsed_oids(next));
    }
    assert(all.subrange(0, oids@.len() as int) =~= all);
    if out.len() == 0 {
        Err(SnmpError::InvalidInput)
    } else {
        Ok(out)
    }
}

/// A variable binding of a response: an identifier and its value.
#[derive(Clone, Debug)]
pub struct VarBind {
    pub name: ObjectIdentifier,
    pub value: SnmpValue,
}

/// A result for `host` under the display name `oid`, holding the binding's value.
pub fn var_bind_to_snmp_result(req_host: &String, req_oid: String, req_var_bind: VarBind) -> (r:
    SnmpResult)
    ensures
        r.host@ == req_host@,
        r.oid@ == req_oid@,
        r.result == Some(req_var_bind.value),
{
    SnmpResult { host: req_host.clone(), oid: req_oid, result: Some(req_var_bind.value) }
}

/// The directory that a list of requested identifiers forms.
pub open spec fn request_dir(oids: Seq<OID>) -> Seq<(Seq<char>, Seq<char>)> {
    oids.map_values(|o: OID| o@)
}

/// Every identifier of the response was requested.
pub open spec fn all_requested(dir: Seq<(Seq<char>, Seq<char>)>, response: Seq<VarBind>) -> bool {
    forall|i: int| 0 <= i < response.len() ==> lookup(dir, dotted(#[trigger] response[i].name@)) is Some
}

/// The results of a GET response, one per binding in response order, each under the
/// name of the requested entry whose identifier is the binding's dotted identifier
/// (the last such entry). Fails with `ProtocolError` exactly when a binding's
/// identifier was not requested.
pub fn get_results(oids: &Vec<OID>, host: &String, response: Vec<VarBind>) -> (r: Result<
    Vec<SnmpResult>,
    SnmpError,
>)
    ensures
        r is Ok <==> all_requested(request_dir(oids@), response@),
        r matches Ok(v) ==> v@.len() == response@.len() && forall|i: int|
            0 <= i < v@.len() ==> {
                &&& (#[trigger] v@[i]).host@ == host@
                &&& v@[i].oid@ == lookup(request_dir(oids@), dotted(response@[i].name@))->0
                &&& v@[i].result == Some(response@[i].value)
            },
        r matches Err(e) ==> e == SnmpError::ProtocolError,
{
    let ghost dir = request_dir(oids@);
    let ghost all = response@;
    let mut rest = response;
    let n = rest.len();
    let mut out: Vec<SnmpResult> = Vec::new();
    let mut i: usize = 0;
    while rest.len() > 0
        invariant
            n == all.len(),
            all == response@,
            i <= all.len(),
            i + rest@.len() == all.len(),
            rest@ == all.subrange(i as int, all.len() as int),
            dir == request_dir(oids@),
            out@.len() == i,
            forall|j: int| 0 <= j < i ==> lookup(dir, dotted(#[trigger] all[j].name@)) is Some,
            forall|j: int|
                0 <= j < i ==> {
                    &&& (#[trigger] out@[j]).host@ == host@
                    &&& out@[j].oid@ == lookup(dir, dotted(all[j].name@))->0
                    &&& out@[j].result == Some(all[j].value)
                },
        decreases rest@.len(),
    {
        let vb = rest.remove(0);
        assert(vb == all[i as int]);
        let key = vb.name.to_dotted();
        match lookup_in(oids, &key) {
            Some(name) => {
                out.push(var_bind_to_snmp_result(host, name, vb));
            },
            None => {
                assert(lookup(dir, dotted(all[i as int].name@)) is None);
                assert(!all_requested(dir, all));
                return Err(SnmpError::ProtocolError);
            },
        }
        i = i + 1;
        assert(rest@ =~= all.subrange(i as int, all.len() as int));
    }
    Ok(out)
}

/// `a` comes strictly before `b` in lexicographic order.
pub open spec fn oid_lt(a: Seq<u64>, b: Seq<u64>) -> bool {
    !oid_le(b, a)
}

/// The identifier with its last component increased by one, wrapping to zero.
pub open spec fn sibling(c: Seq<u64>) -> Seq<u64> {
    c.update(c.len() - 1, if c.last() == u64::MAX { 0 } else { (c.last() + 1) as u64 })
}

/// The next sibling of an identifier: its last component increased by one,
/// wrapping on overflow.
pub fn next_sibling(oid: &ObjectIdentifier) -> (r: ObjectIdentifier)
    requires
        oid@.len() > 0,
    ensures
        r@ == sibling(oid@),
{
    let mut components = oid.components().clone();
    let len = components.len();
    let last = components[len - 1];
    components.set(len - 1, last.wrapping_add(1));
    assert(components@ =~= sibling(oid@));
    ObjectIdentifier::new(components)
}

/// The display name of a returned identifier: its resolution in the directory, or
/// its dotted form where the directory names no prefix of it.
pub open spec fn display_name(dir: Seq<(Seq<char>, Seq<char>)>, c: Seq<u64>) -> Seq<char> {
    match resolve(dir, dotted(c)) {
        Some(n) => n,
        None => dotted(c),
    }
}

/// A GETNEXT traversal of the subtree under one identifier. The transport sends a
/// GETNEXT for `current`, hands the first binding of the answer to `on_response`, and
/// goes on while that returns `Ok(true)`.
#[derive(Debug)]
pub struct Walk {
    /// The agent's address, recorded in each result.
    pub host: String,
    /// The first identifier past the subtree.
    pub end: ObjectIdentifier,
    /// The identifier that the next GETNEXT carries.
    pub current: ObjectIdentifier,
    /// The results so far, in traversal order.
    pub results: Vec<SnmpResult>,
    /// The requested identifier did not parse and the MIB-2 subtree is walked instead.
    pub used_default: bool,
}

/// Where a walk of `oid` starts: the identifier itself, or the MIB-2 base where it
/// does not parse.
pub open spec fn walk_start(oid: Seq<char>) -> Seq<u64> {
    match parse_oid(oid) {
        Some(c) => c,
        None => MIB2_BASE_OID@,
    }
}

impl Walk {
    /// Begins a walk of the subtree under `oid`; where `oid` does not parse, of the
    /// MIB-2 subtree.
    pub fn new(oid: &OID, host: String) -> (w: Walk)
        ensures
            w.host@ == host@,
            w.current@ == walk_start(oid.oid@),
            w.end@ == sibling(w.current@),
            w.results@.len() == 0,
            w.used_default == (parse_oid(oid.oid@) is None),
    {
        let parsed = parse_oid_string(oid.oid.as_str());
        let used_default = parsed.is_none();
        let start = match parsed {
            Some(o) => o,
            None => {
                let mut c: Vec<u64> = Vec::new();
                let mut i: usize = 0;
                while i < 6
                    invariant
                        i <= 6,
                        c@ == MIB2_BASE_OID@.subrange(0, i as int),
                    decreases 6 - i,
                {
                    c.push(MIB2_BASE_OID[i]);
                    i = i + 1;
                    assert(c@ =~= MIB2_BASE_OID@.subrange(0, i as int));
                }
                assert(c@ =~= MIB2_BASE_OID@);
                ObjectIdentifier::new(c)
            },
        };
        let end = next_sibling(&start);
        Walk { host, end, current: start, results: Vec::new(), used_default }
    }

    /// Takes the first binding of a GETNEXT answer (`None` where it held none).
    /// The walk ends, with `Ok(false)` and nothing recorded, where there is no binding,
    /// where its value is `EndOfMibView`, or where its identifier is at or past `end`.
    /// A binding that does not advance past `current` fails with `ProtocolError`.
    /// Otherwise the binding is recorded under its display name, becomes `current`,
    /// and the result is `Ok(true)`.
    pub fn on_response(&mut self, dir: &OidMap, response: Option<VarBind>) -> (r: Result<
        bool,
        SnmpError,
    >)
        ensures
            r == Ok::<bool, SnmpError>(true) ==> oid_lt(old(self).current@, final(self).current@)
                && oid_lt(final(self).current@, final(self).end@),
            match response {
                None => r == Ok::<bool, SnmpError>(false) && *final(self) == *old(self),
                Some(vb) => if !oid_lt(vb.name@, old(self).end@) || vb.value is EndOfMibView {
                    r == Ok::<bool, SnmpError>(false) && *final(self) == *old(self)
                } else if !oid_lt(old(self).current@, vb.name@) {
                    r == Err::<bool, SnmpError>(SnmpError::ProtocolError) && *final(self)
                        == *old(self)
                } else {
                    &&& r == Ok::<bool, SnmpError>(true)
                    &&& final(self).host == old(self).host
                    &&& final(self).end == old(self).end
                    &&& final(self).used_default == old(self).used_default
                    &&& final(self).current@ == vb.name@
                    &&& final(self).results@.len() == old(self).results@.len() + 1
                    &&& final(self).results@.subrange(0, old(self).results@.len() as int)
                        == old(self).results@
                    &&& final(self).results@.last().host@ == old(self).host@
                    &&& final(self).results@.last().oid@ == display_name(dir@, vb.name@)
                    &&& final(self).results@.last().result == Some(vb.value)
                },
            },
    {
        match response {
            None => Ok(false),
            Some(vb) => {
                if self.end.le(&vb.name) || matches!(vb.value, SnmpValue::EndOfMibView) {
                    return Ok(false);
                }
                if vb.name.le(&self.current) {
                    return Err(SnmpError::ProtocolError);
                }
                let raw = vb.name.to_dotted();
                let name = match dir.resolve(raw.as_str()) {
                    Some(n) => n,
                    None => raw,
                };
                self.current = vb.name.duplicate();
                let res = var_bind_to_snmp_result(&self.host, name, vb);
                self.results.push(res);
                assert(self.results@.subrange(0, old(self).results@.len() as int) =~= old(self).results@);
                Ok(true)
            },
        }
    }
}

} // verus!
