//! The value model: typed SNMP values, results, and the parameters of a command.
use vstd::prelude::*;
use vstd::string::*;
use crate::error::SnmpError;
use crate::oids::OID;
use crate::text::{dec, dec2, hex, signed_dec, push_dec, push_dec2, push_hex, push_signed};

verus! {

/// The components of an object identifier.
#[derive(Clone, Debug, PartialEq, Eq, PartialOrd, Ord, Hash)]
pub struct ObjectIdentifier {
    components: Vec<u64>,
}

impl View for ObjectIdentifier {
    type V = Seq<u64>;

    closed spec fn view(&self) -> Seq<u64> {
        self.components@
    }
}

/// The components joined by dots, each in decimal.
pub open spec fn dotted(c: Seq<u64>) -> Seq<char>
    decreases c.len(),
{
    if c.len() == 0 {
        Seq::empty()
    } else if c.len() == 1 {
        dec(c[0] as nat)
    } else {
        dotted(c.drop_last()) + seq!['.'] + dec(c.last() as nat)
    }
}

/// Lexicographic order on component sequences; a proper prefix comes first.
pub open spec fn oid_le(a: Seq<u64>, b: Seq<u64>) -> bool
    decreases a.len(),
{
    if a.len() == 0 {
        true
    } else if b.len() == 0 {
        false
    } else if a[0] != b[0] {
        a[0] < b[0]
    } else {
        oid_le(a.drop_first(), b.drop_first())
    }
}

impl ObjectIdentifier {
    pub fn new(components: Vec<u64>) -> (r: ObjectIdentifier)
        ensures
            r@ == components@,
    {
        ObjectIdentifier { components }
    }

    pub fn components(&self) -> (r: &Vec<u64>)
        ensures
            r@ == self@,
    {
        &self.components
    }

    /// A copy with the same components.
    pub fn duplicate(&self) -> (r: ObjectIdentifier)
        ensures
            r@ == self@,
    {
        ObjectIdentifier { components: self.components.clone() }
    }

    /// The dotted-decimal form.
    pub fn to_dotted(&self) -> (r: String)
        ensures
            r@ == dotted(self@),
    {
        let mut r = String::new();
        let mut i: usize = 0;
        while i < self.components.len()
            invariant
                i <= self@.len(),
                r@ == dotted(self@.subrange(0, i as int)),
            decreases self@.len() - i,
        {
            let ghost pre = self@.subrange(0, i as int);
            let ghost next = self@.subrange(0, i + 1);
            assert(next.drop_last() =~= pre);
            if i > 0 {
                proof {
                    reveal_strlit(".");
                }
                r.append(".");
            }
            push_dec(&mut r, self.components[i]);
            i = i + 1;
            assert(r@ =~= dotted(next));
        }
        assert(self@.subrange(0, self@.len() as int) =~= self@);
        r
    }

    /// Whether `self` comes no later than `other` in lexicographic order.
    pub fn le(&self, other: &ObjectIdentifier) -> (r: bool)
        ensures
            r == oid_le(self@, other@),
    {
        let a = &self.components;
        let b = &other.components;
        let mut i: usize = 0;
        assert(a@.subrange(0, a@.len() as int) =~= a@);
        assert(b@.subrange(0, b@.len() as int) =~= b@);
        while i < a.len() && i < b.len() && a[i] == b[i]
            invariant
                i <= a@.len(),
                i <= b@.len(),
                oid_le(a@, b@) == oid_le(a@.subrange(i as int, a@.len() as int), b@.subrange(i as int, b@.len() as int)),
            decreases a@.len() - i,
        {
            let ghost sa = a@.subrange(i as int, a@.len() as int);
            let ghost sb = b@.subrange(i as int, b@.len() as int);
            assert(sa.drop_first() =~= a@.subrange(i + 1, a@.len() as int));
            assert(sb.drop_first() =~= b@.subrange(i + 1, b@.len() as int));
            i = i + 1;
        }
        if i == a.len() {
            true
        } else if i == b.len() {
            false
        } else {
            a[i] < b[i]
        }
    }
}

/// A typed SNMP value.
#[derive(Clone, Debug, PartialEq, Eq)]
pub enum SnmpValue {
    Int(i32),
    String(String),
    ObjectId(ObjectIdentifier),
    IpAddress([u8; 4]),
    Counter(u32),
    UnsignedInt(u32),
    TimeTicks(u32),
    Opaque(Vec<u8>),
    BigCounter(u64),
    Unspecified,
    NoSuchObject,
    NoSuchInstance,
    EndOfMibView,
}

/// Byte values in upper-case hexadecimal, separated by a comma and a space.
pub open spec fn hex_items(b: Seq<u8>) -> Seq<char>
    decreases b.len(),
{
    if b.len() == 0 {
        Seq::empty()
    } else if b.len() == 1 {
        hex(b[0] as nat)
    } else {
        hex_items(b.drop_last()) + seq![',', ' '] + hex(b.last() as nat)
    }
}

/// How a time in hundredths of a second reads:
/// `(<raw>) <days> day(s) <hours>:<MM>:<SS>.<hh>`.
pub open spec fn time_ticks_text(x: nat) -> Seq<char> {
    let hundredths = x % 100;
    let total = x / 100;
    let days = total / 86400;
    let hours = (total % 86400) / 3600;
    let minutes = (total % 3600) / 60;
    let seconds = total % 60;
    seq!['('] + dec(x) + ") "@ + dec(days) + " day(s) "@ + dec(hours) + seq![':'] + dec2(minutes)
        + seq![':'] + dec2(seconds) + seq!['.'] + dec2(hundredths)
}

/// How a value reads.
pub open spec fn value_text(v: SnmpValue) -> Seq<char> {
    match v {
        SnmpValue::Int(x) => signed_dec(x as int),
        SnmpValue::String(x) => x@,
        SnmpValue::ObjectId(x) => dotted(x@),
        SnmpValue::IpAddress(x) => dec(x[0] as nat) + seq!['.'] + dec(x[1] as nat) + seq!['.']
            + dec(x[2] as nat) + seq!['.'] + dec(x[3] as nat),
        SnmpValue::Counter(x) => dec(x as nat),
        SnmpValue::UnsignedInt(x) => dec(x as nat),
        SnmpValue::TimeTicks(x) => time_ticks_text(x as nat),
        SnmpValue::Opaque(x) => seq!['['] + hex_items(x@) + seq![']'],
        SnmpValue::BigCounter(x) => dec(x as nat),
        SnmpValue::Unspecified => "Unspecified"@,
        SnmpValue::NoSuchObject => "No such object"@,
        SnmpValue::NoSuchInstance => "No such instance"@,
        SnmpValue::EndOfMibView => "End of MIB view"@,
    }
}

/// Appends the text of a time in hundredths of a second.
pub fn push_time_ticks(s: &mut String, x: u32)
    ensures
        final(s)@ == old(s)@ + time_ticks_text(x as nat),
{
    let hundredths = x % 100;
    let total = x / 100;
    let days = total / 86400;
    let hours = (total % 86400) / 3600;
    let minutes = (total % 3600) / 60;
    let seconds = total % 60;
    proof {
        reveal_strlit("(");
        reveal_strlit(":");
        reveal_strlit(".");
    }
    s.append("(");
    push_dec(s, x as u64);
    s.append(") ");
    push_dec(s, days as u64);
    s.append(" day(s) ");
    push_dec(s, hours as u64);
    s.append(":");
    push_dec2(s, minutes as u64);
    s.append(":");
    push_dec2(s, seconds as u64);
    s.append(".");
    push_dec2(s, hundredths as u64);
    assert(final(s)@ =~= old(s)@ + time_ticks_text(x as nat));
}

fn push_hex_items(s: &mut String, b: &Vec<u8>)
    ensures
        final(s)@ == old(s)@ + hex_items(b@),
{
    let ghost start = s@;
    let mut i: usize = 0;
    while i < b.len()
        invariant
            i <= b@.len(),
            s@ == start + hex_items(b@.subrange(0, i as int)),
        decreases b@.len() - i,
    {
        let ghost pre = b@.subrange(0, i as int);
        let ghost next = b@.subrange(0, i + 1);
        assert(next.drop_last() =~= pre);
        if i > 0 {
            proof {
                reveal_strlit(", ");
            }
            s.append(", ");
        }
        push_hex(s, b[i] as u64);
        i = i + 1;
        assert(s@ =~= start + hex_items(next));
    }
    assert(b@.subrange(0, b@.len() as int) =~= b@);
}

impl SnmpValue {
    /// The display text of the value.
    pub fn to_string(&self) -> (r: String)
        ensures
            r@ == value_text(*self),
    {
        let mut r = String::new();
        proof {
            reveal_strlit(".");
            reveal_strlit("[");
            reveal_strlit("]");
        }
        match self {
            SnmpValue::Int(x) => push_signed(&mut r, *x as i64),
            SnmpValue::String(x) => r.append(x.as_str()),
            SnmpValue::ObjectId(x) => {
                r = x.to_dotted();
            },
            SnmpValue::IpAddress(x) => {
                push_dec(&mut r, x[0] as u64);
                r.append(".");
                push_dec(&mut r, x[1] as u64);
                r.append(".");
                push_dec(&mut r, x[2] as u64);
                r.append(".");
                push_dec(&mut r, x[3] as u64);
            },
            SnmpValue::Counter(x) => push_dec(&mut r, *x as u64),
            SnmpValue::UnsignedInt(x) => push_dec(&mut r, *x as u64),
            SnmpValue::TimeTicks(x) => push_time_ticks(&mut r, *x),
            SnmpValue::Opaque(x) => {
                r.append("[");
                push_hex_items(&mut r, x);
                r.append("]");
            },
            SnmpValue::BigCounter(x) => push_dec(&mut r, *x),
            SnmpValue::Unspecified => r.append("Unspecified"),
            SnmpValue::NoSuchObject => r.append("No such object"),
            SnmpValue::NoSuchInstance => r.append("No such instance"),
            SnmpValue::EndOfMibView => r.append("End of MIB view"),
        }
        assert(r@ =~= value_text(*self));
        r
    }
}

/// One returned variable binding: the host that answered, the identifier's display
/// name, and the value.
#[derive(Clone, Debug)]
pub struct SnmpResult {
    pub host: String,
    pub oid: String,
    pub result: Option<SnmpValue>,
}

/// How a result reads: its identifier on one line, its value on the next.
pub open spec fn result_text(r: SnmpResult) -> Seq<char> {
    "OID: "@ + r.oid@ + seq!['\n'] + match r.result {
        Some(v) => "Value: "@ + value_text(v) + seq!['\n'],
        None => "Value <none>\n"@,
    }
}

impl SnmpResult {
    /// The display text of the result.
    pub fn to_string(&self) -> (r: String)
        ensures
            r@ == result_text(*self),
    {
        proof {
            reveal_strlit("\n");
        }
        let mut r = String::from_str("OID: ");
        r.append(self.oid.as_str());
        r.append("\n");
        match &self.result {
            Some(v) => {
                r.append("Value: ");
                let t = v.to_string();
                r.append(t.as_str());
                r.append("\n");
            },
            None => r.append("Value <none>\n"),
        }
        assert(r@ =~= result_text(*self));
        r
    }
}

/// The kind of a value, without its contents.
#[derive(Clone, Copy, Debug, PartialEq, Eq, Structural)]
pub enum SnmpType {
    Int,
    String,
    ObjectId,
    IpAddress,
    Counter,
    UnsignedInt,
    TimeTicks,
    Opaque,
    BigCounter,
    Unspecified,
    NoSuchObject,
    NoSuchInstance,
    EndOfMibView,
}

impl SnmpValue {
    /// The kind of the value.
    pub fn snmp_type(&self) -> (r: SnmpType)
        ensures
            r == match *self {
                SnmpValue::Int(_) => SnmpType::Int,
                SnmpValue::String(_) => SnmpType::String,
                SnmpValue::ObjectId(_) => SnmpType::ObjectId,
                SnmpValue::IpAddress(_) => SnmpType::IpAddress,
                SnmpValue::Counter(_) => SnmpType::Counter,
                SnmpValue::UnsignedInt(_) => SnmpType::UnsignedInt,
                SnmpValue::TimeTicks(_) => SnmpType::TimeTicks,
                SnmpValue::Opaque(_) => SnmpType::Opaque,
                SnmpValue::BigCounter(_) => SnmpType::BigCounter,
                SnmpValue::Unspecified => SnmpType::Unspecified,
                SnmpValue::NoSuchObject => SnmpType::NoSuchObject,
                SnmpValue::NoSuchInstance => SnmpType::NoSuchInstance,
                SnmpValue::EndOfMibView => SnmpType::EndOfMibView,
            },
    {
        match self {
            SnmpValue::Int(_) => SnmpType::Int,
            SnmpValue::String(_) => SnmpType::String,
            SnmpValue::ObjectId(_) => SnmpType::ObjectId,
            SnmpValue::IpAddress(_) => SnmpType::IpAddress,
            SnmpValue::Counter(_) => SnmpType::Counter,
            SnmpValue::UnsignedInt(_) => SnmpType::UnsignedInt,
            SnmpValue::TimeTicks(_) => SnmpType::TimeTicks,
            SnmpValue::Opaque(_) => SnmpType::Opaque,
            SnmpValue::BigCounter(_) => SnmpType::BigCounter,
            SnmpValue::Unspecified => SnmpType::Unspecified,
            SnmpValue::NoSuchObject => SnmpType::NoSuchObject,
            SnmpValue::NoSuchInstance => SnmpType::NoSuchInstance,
            SnmpValue::EndOfMibView => SnmpType::EndOfMibView,
        }
    }
}

/// The message digest that authenticates requests.
#[derive(Clone, Copy, Debug, PartialEq, Eq, PartialOrd, Ord, Structural)]
pub enum AuthTypeArgs {
    Md5Digest,
    Sha1Digest,
    NoAuth,
}

impl AuthTypeArgs {
    /// The protocol name that selects this digest, where one does.
    pub fn protocol_name(&self) -> (r: Option<&'static str>)
        ensures
            name_text(r) == auth_name(*self),
    {
        match self {
            AuthTypeArgs::Md5Digest => Some(Params::MD5_DIGEST),
            AuthTypeArgs::Sha1Digest => Some(Params::SHA1_DIGEST),
            AuthTypeArgs::NoAuth => None,
        }
    }
}

impl PrivTypeArgs {
    /// The protocol name that selects this cipher, where one does.
    pub fn protocol_name(&self) -> (r: Option<&'static str>)
        ensures
            name_text(r) == priv_name(*self),
    {
        match self {
            PrivTypeArgs::Des => Some(Params::DES_ENCRYPTION),
            PrivTypeArgs::Aes128 => Some(Params::AES128_ENCRYPTION),
            PrivTypeArgs::NoPriv => None,
        }
    }
}

/// The view of an optional name.
pub open spec fn name_text(o: Option<&str>) -> Option<Seq<char>> {
    match o {
        Some(s) => Some(s@),
        None => None,
    }
}

/// The name of a digest, as `protocol_name` gives it.
pub open spec fn auth_name(a: AuthTypeArgs) -> Option<Seq<char>> {
    match a {
        AuthTypeArgs::Md5Digest => Some("MD5"@),
        AuthTypeArgs::Sha1Digest => Some("SHA1"@),
        AuthTypeArgs::NoAuth => None,
    }
}

/// The name of a cipher, as `protocol_name` gives it.
pub open spec fn priv_name(p: PrivTypeArgs) -> Option<Seq<char>> {
    match p {
        PrivTypeArgs::Des => Some("DES"@),
        PrivTypeArgs::Aes128 => Some("AES128"@),
        PrivTypeArgs::NoPriv => None,
    }
}

/// Naming a digest and selecting by that name gives the digest back; likewise for
/// a cipher.
pub proof fn lemma_protocol_names_round_trip(a: AuthTypeArgs, p: PrivTypeArgs)
    ensures
        auth_type_of(auth_name(a)) == a,
        priv_type_of(priv_name(p)) == p,
{
    reveal_strlit("MD5");
    reveal_strlit("SHA1");
    reveal_strlit("DES");
    reveal_strlit("AES128");
    assert("MD5"@ != "SHA1"@) by {
        assert("MD5"@[0] != "SHA1"@[0]);
    }
    assert("DES"@ != "AES128"@) by {
        assert("DES"@[0] != "AES128"@[0]);
    }
}

/// The cipher that encrypts requests.
#[derive(Clone, Copy, Debug, PartialEq, Eq, PartialOrd, Ord, Structural)]
pub enum PrivTypeArgs {
    Des,
    Aes128,
    NoPriv,
}

/// What to request: named identifiers to get, or the subtree under one identifier to walk.
#[derive(Clone, Debug)]
pub enum Command {
    Get { oids: Vec<OID> },
    GetNext { oids: Vec<OID> },
    Walk { oid: OID },
}

/// The user, the agent, the credentials and the command of one request.
#[derive(Clone, Debug)]
pub struct Params {
    pub user: String,
    pub host: String,
    pub auth: Option<String>,
    pub auth_protocol: Option<String>,
    pub privacy: Option<String>,
    pub privacy_protocol: Option<String>,
    pub cmd: Command,
}

/// The port of the SNMP agent when the host names none.
pub const SNMP_PORT_NUM: u32 = 161;

/// The host with `:161` appended where it holds no colon.
pub open spec fn host_port_text(host: Seq<char>) -> Seq<char> {
    if host.contains(':') {
        host
    } else {
        host + ":161"@
    }
}

/// The address to send to: the host itself where it names a port, else the host on
/// the SNMP port.
pub fn host_with_port(host: &String) -> (r: String)
    ensures
        r@ == host_port_text(host@),
{
    let h = host.as_str();
    let n = h.unicode_len();
    let mut i: usize = 0;
    while i < n
        invariant
            i <= n,
            n == host@.len(),
            h@ == host@,
            forall|j: int| 0 <= j < i ==> host@[j] != ':',
        decreases n - i,
    {
        if h.get_char(i) == ':' {
            return host.clone();
        }
        i = i + 1;
    }
    let mut r = host.clone();
    r.append(":");
    push_dec(&mut r, SNMP_PORT_NUM as u64);
    proof {
        reveal_strlit(":");
        reveal_strlit(":161");
        reveal_strlit("1");
        reveal_strlit("6");
    }
    assert(dec(161) =~= seq!['1', '6', '1']) by {
        assert(dec(16) =~= seq!['1', '6']) by {
            assert(dec(1) =~= seq!['1']);
        }
    }
    assert(r@ =~= host_port_text(host@));
    r
}

/// The credentials of a `Params` form a legal combination: a secret and its protocol
/// are given together, a secret is not empty, and privacy comes only with
/// authentication.
pub open spec fn credentials_legal(
    auth: Option<Seq<char>>,
    auth_protocol: bool,
    privacy: Option<Seq<char>>,
    privacy_protocol: bool,
) -> bool {
    &&& (auth is Some) == auth_protocol
    &&& (privacy is Some) == privacy_protocol
    &&& (privacy is Some ==> auth is Some)
    &&& (auth matches Some(a) ==> a.len() > 0)
    &&& (privacy matches Some(p) ==> p.len() > 0)
}

/// The digest that a protocol name selects: none where no name is given, SHA-1 for
/// `SHA1`, and MD5 for any other name.
pub open spec fn auth_type_of(protocol: Option<Seq<char>>) -> AuthTypeArgs {
    match protocol {
        None => AuthTypeArgs::NoAuth,
        Some(p) => if p == "SHA1"@ {
            AuthTypeArgs::Sha1Digest
        } else {
            AuthTypeArgs::Md5Digest
        },
    }
}

/// The cipher that a protocol name selects: none where no name is given, AES-128 for
/// `AES128`, and DES for any other name.
pub open spec fn priv_type_of(protocol: Option<Seq<char>>) -> PrivTypeArgs {
    match protocol {
        None => PrivTypeArgs::NoPriv,
        Some(p) => if p == "AES128"@ {
            PrivTypeArgs::Aes128
        } else {
            PrivTypeArgs::Des
        },
    }
}

fn opt_len_positive(o: &Option<String>) -> (r: bool)
    ensures
        r == (o matches Some(s) && s@.len() > 0),
{
    match o {
        Some(s) => s.as_str().unicode_len() > 0,
        None => false,
    }
}

impl Params {
    pub const MD5_DIGEST: &'static str = "MD5";

    pub const SHA1_DIGEST: &'static str = "SHA1";

    pub const DES_ENCRYPTION: &'static str = "DES";

    pub const AES128_ENCRYPTION: &'static str = "AES128";

    /// Checks the combination of credentials before any network exchange; fails with
    /// `InvalidInput` exactly where it is not legal.
    pub fn check_credentials(&self) -> (r: Result<(), SnmpError>)
        ensures
            r is Ok <==> credentials_legal(
                crate::oids::opt_text(self.auth),
                self.auth_protocol is Some,
                crate::oids::opt_text(self.privacy),
                self.privacy_protocol is Some,
            ),
            r matches Err(e) ==> e == SnmpError::InvalidInput,
    {
        let has_auth = self.auth.is_some();
        let has_priv = self.privacy.is_some();
        if has_auth != self.auth_protocol.is_some() || has_priv != self.privacy_protocol.is_some() {
            return Err(SnmpError::InvalidInput);
        }
        if has_priv && !has_auth {
            return Err(SnmpError::InvalidInput);
        }
        if has_auth && !opt_len_positive(&self.auth) {
            return Err(SnmpError::InvalidInput);
        }
        if has_priv && !opt_len_positive(&self.privacy) {
            return Err(SnmpError::InvalidInput);
        }
        Ok(())
    }

    /// The digest that `auth_protocol` selects.
    pub fn auth_type(&self) -> (r: AuthTypeArgs)
        ensures
            r == auth_type_of(crate::oids::opt_text(self.auth_protocol)),
    {
        match &self.auth_protocol {
            None => AuthTypeArgs::NoAuth,
            Some(p) => {
                let sha1 = String::from_str(Self::SHA1_DIGEST);
                if *p == sha1 {
                    AuthTypeArgs::Sha1Digest
                } else {
                    AuthTypeArgs::Md5Digest
                }
            },
        }
    }

    /// The cipher that `privacy_protocol` selects.
    pub fn priv_type(&self) -> (r: PrivTypeArgs)
        ensures
            r == priv_type_of(crate::oids::opt_text(self.privacy_protocol)),
    {
        match &self.privacy_protocol {
            None => PrivTypeArgs::NoPriv,
            Some(p) => {
                let aes = String::from_str(Self::AES128_ENCRYPTION);
                if *p == aes {
                    PrivTypeArgs::Aes128
                } else {
                    PrivTypeArgs::Des
                }
            },
        }
    }
}

} // verus!
