//! The OID directory: numeric object identifiers mapped to readable names by
//! longest-prefix match.
use vstd::prelude::*;
use vstd::string::*;

verus! {

/// An object identifier in dotted-decimal form, with a readable name.
#[derive(Clone, Debug)]
pub struct OID {
    pub oid: String,
    pub name: String,
}

impl View for OID {
    type V = (Seq<char>, Seq<char>);

    open spec fn view(&self) -> (Seq<char>, Seq<char>) {
        (self.oid@, self.name@)
    }
}

/// Builds an entry from its dotted-decimal form and its name.
pub fn oid_from_strings(oid_str: String, oid_name: String) -> (r: OID)
    ensures
        r@ == (oid_str@, oid_name@),
{
    OID { oid: oid_str, name: oid_name }
}

/// An ordered list of named object identifiers.
#[derive(Clone, Debug)]
pub struct OidMap {
    pub oids: Vec<OID>,
}

impl View for OidMap {
    type V = Seq<(Seq<char>, Seq<char>)>;

    open spec fn view(&self) -> Seq<(Seq<char>, Seq<char>)> {
        self.oids@.map_values(|o: OID| o@)
    }
}

/// The view of an optional string.
pub open spec fn opt_text(o: Option<String>) -> Option<Seq<char>> {
    match o {
        Some(s) => Some(s@),
        None => None,
    }
}

/// The name stored for `key`; where several entries hold `key`, the last one counts.
pub open spec fn lookup(dir: Seq<(Seq<char>, Seq<char>)>, key: Seq<char>) -> Option<Seq<char>>
    decreases dir.len(),
{
    if dir.len() == 0 {
        None
    } else if dir.last().0 == key {
        Some(dir.last().1)
    } else {
        lookup(dir.drop_last(), key)
    }
}

/// `p` ends a run of whole components of `s`: it is the end of `s` or the place of a dot.
pub open spec fn is_cut(s: Seq<char>, p: int) -> bool {
    p == s.len() || (0 <= p < s.len() && s[p] == '.')
}

/// The components after the cut at `p`, without the separating dot.
pub open spec fn rest_after(s: Seq<char>, p: int) -> Seq<char> {
    if p < 0 {
        s
    } else if p >= s.len() {
        Seq::empty()
    } else {
        s.subrange(p + 1, s.len() as int)
    }
}

/// The components before the cut at `p` (none for a negative `p`).
pub open spec fn prefix_before(s: Seq<char>, p: int) -> Seq<char> {
    if p < 0 {
        Seq::empty()
    } else {
        s.subrange(0, p)
    }
}

/// A name followed by the unmatched components, joined by a dot where there are any.
pub open spec fn compose(name: Seq<char>, rest: Seq<char>) -> Seq<char> {
    if rest.len() == 0 {
        name
    } else {
        name + seq!['.'] + rest
    }
}

/// `p` is a place at which `s` may be split: a cut, or `-1`, before every component.
pub open spec fn is_split(s: Seq<char>, p: int) -> bool {
    p == -1 || is_cut(s, p)
}

/// Resolution of `s` trying the splits at `p` and below, longest prefix first.
pub open spec fn resolve_from(dir: Seq<(Seq<char>, Seq<char>)>, s: Seq<char>, p: int) -> Option<
    Seq<char>,
>
    decreases p + 1,
{
    if p < -1 {
        None
    } else if is_split(s, p) && lookup(dir, prefix_before(s, p)) is Some {
        Some(compose(lookup(dir, prefix_before(s, p))->0, rest_after(s, p)))
    } else if p == -1 {
        None
    } else {
        resolve_from(dir, s, p - 1)
    }
}

/// The display name of `s`: the longest run of leading components that the directory
/// names, replaced by that name, followed by the remaining components unchanged.
pub open spec fn resolve(dir: Seq<(Seq<char>, Seq<char>)>, s: Seq<char>) -> Option<Seq<char>> {
    resolve_from(dir, s, s.len() as int)
}

/// No split of `s` at `-1..=p` has a prefix that the directory names.
pub open spec fn none_named_upto(dir: Seq<(Seq<char>, Seq<char>)>, s: Seq<char>, p: int) -> bool {
    forall|q: int| -1 <= q <= p && #[trigger] is_split(s, q) ==> lookup(dir, prefix_before(s, q)) is None
}

/// Resolution with the split at `p`: the name of its prefix, then its remaining components.
pub open spec fn resolved_at(dir: Seq<(Seq<char>, Seq<char>)>, s: Seq<char>, p: int) -> Option<
    Seq<char>,
> {
    Some(compose(lookup(dir, prefix_before(s, p))->0, rest_after(s, p)))
}

proof fn lemma_resolve_from_longest(dir: Seq<(Seq<char>, Seq<char>)>, s: Seq<char>, p: int)
    requires
        -1 <= p <= s.len(),
    ensures
        resolve_from(dir, s, p) is None <==> none_named_upto(dir, s, p),
        resolve_from(dir, s, p) is Some ==> exists|m: int|
            -1 <= m <= p && is_split(s, m) && lookup(dir, prefix_before(s, m)) is Some
                && resolve_from(dir, s, p) == resolved_at(dir, s, m) && forall|q: int|
                m < q <= p && #[trigger] is_split(s, q) ==> lookup(dir, prefix_before(s, q)) is None,
    decreases p + 1,
{
    if is_split(s, p) && lookup(dir, prefix_before(s, p)) is Some {
        assert(!none_named_upto(dir, s, p));
    } else if p == -1 {
    } else {
        lemma_resolve_from_longest(dir, s, p - 1);
        if resolve_from(dir, s, p - 1) is Some {
            let m = choose|m: int|
                -1 <= m <= p - 1 && is_split(s, m) && lookup(dir, prefix_before(s, m)) is Some
                    && resolve_from(dir, s, p - 1) == resolved_at(dir, s, m) && forall|q: int|
                    m < q <= p - 1 && #[trigger] is_split(s, q) ==> lookup(
                        dir,
                        prefix_before(s, q),
                    ) is None;
            assert(forall|q: int|
                m < q <= p && #[trigger] is_split(s, q) ==> lookup(dir, prefix_before(s, q)) is None);
            assert(!none_named_upto(dir, s, p)) by {
                assert(is_split(s, m));
            }
        }
    }
}

/// Resolution is longest-prefix match. It fails exactly when no leading run of
/// components (the empty run included) is named in the directory. Where it succeeds,
/// it used a split whose prefix is named, no longer split has a named prefix, and the
/// result is that name followed by the remaining components unchanged. As `resolve`
/// is a function of the directory and the input alone, resolving again gives the
/// same result.
pub proof fn lemma_resolve_longest_match(dir: Seq<(Seq<char>, Seq<char>)>, s: Seq<char>)
    ensures
        resolve(dir, s) is None <==> none_named_upto(dir, s, s.len() as int),
        resolve(dir, s) is Some ==> exists|m: int|
            -1 <= m <= s.len() && is_split(s, m) && lookup(dir, prefix_before(s, m)) is Some
                && resolve(dir, s) == resolved_at(dir, s, m) && forall|q: int|
                m < q <= s.len() && #[trigger] is_split(s, q) ==> lookup(
                    dir,
                    prefix_before(s, q),
                ) is None,
{
    lemma_resolve_from_longest(dir, s, s.len() as int);
}

/// An identifier that the directory names exactly resolves to that name alone.
pub proof fn lemma_resolve_exact(dir: Seq<(Seq<char>, Seq<char>)>, s: Seq<char>)
    requires
        lookup(dir, s) is Some,
    ensures
        resolve(dir, s) == Some(lookup(dir, s)->0),
{
    assert(prefix_before(s, s.len() as int) =~= s);
}

/// An identifier that extends a named one by further components, none of whose
/// longer prefixes is named, resolves to that name followed by those components.
pub proof fn lemma_resolve_suffix(
    dir: Seq<(Seq<char>, Seq<char>)>,
    base: Seq<char>,
    suffix: Seq<char>,
)
    requires
        lookup(dir, base) is Some,
        suffix.len() > 0,
        none_named_above(dir, base + seq!['.'] + suffix, base.len() as int),
    ensures
        resolve(dir, base + seq!['.'] + suffix) == Some(lookup(dir, base)->0 + seq!['.'] + suffix),
{
    let s = base + seq!['.'] + suffix;
    let b = base.len() as int;
    lemma_resolve_longest_match(dir, s);
    assert(prefix_before(s, b) =~= base);
    assert(rest_after(s, b) =~= suffix);
    assert(is_split(s, b));
    if resolve(dir, s) is None {
        assert(lookup(dir, prefix_before(s, b)) is Some);
    } else {
        let m = choose|m: int|
            -1 <= m <= s.len() && is_split(s, m) && lookup(dir, prefix_before(s, m)) is Some
                && resolve(dir, s) == resolved_at(dir, s, m) && forall|q: int|
                m < q <= s.len() && #[trigger] is_split(s, q) ==> lookup(
                    dir,
                    prefix_before(s, q),
                ) is None;
        if m < b {
            assert(is_split(s, b));
        } else if m > b {
            assert(is_split(s, m));
        }
    }
}

/// No split of `s` beyond `p` has a prefix that the directory names.
pub open spec fn none_named_above(dir: Seq<(Seq<char>, Seq<char>)>, s: Seq<char>, p: int) -> bool {
    forall|q: int| p < q <= s.len() && #[trigger] is_split(s, q) ==> lookup(dir, prefix_before(s, q)) is None
}

/// Lookup of a name by numeric object identifier.
pub trait FindOidName {
    /// What the lookup of `input` yields.
    spec fn find_oid_name_spec(&self, input: Seq<char>) -> Option<Seq<char>>;

    fn find_oid_name(self, input: String) -> (r: Option<String>)
        ensures
            opt_text(r) == self.find_oid_name_spec(input@),
    ;
}

/// The name of the last entry of `oids` whose identifier is `key`.
pub fn lookup_in(oids: &Vec<OID>, key: &String) -> (r: Option<String>)
    ensures
        opt_text(r) == lookup(oids@.map_values(|o: OID| o@), key@),
{
    let ghost dir = oids@.map_values(|o: OID| o@);
    let mut i: usize = oids.len();
    assert(dir.subrange(0, i as int) =~= dir);
    while i > 0
        invariant
            i <= oids.len(),
            dir == oids@.map_values(|o: OID| o@),
            lookup(dir, key@) == lookup(dir.subrange(0, i as int), key@),
        decreases i,
    {
        let ghost sub = dir.subrange(0, i as int);
        assert(sub.drop_last() =~= dir.subrange(0, i - 1));
        assert(sub.last() == oids@[i - 1]@);
        if oids[i - 1].oid == *key {
            return Some(oids[i - 1].name.clone());
        }
        i = i - 1;
    }
    assert(dir.subrange(0, 0).len() == 0);
    None
}

impl OidMap {
    /// The name of the last entry whose identifier is `key`.
    pub fn lookup_name(&self, key: &String) -> (r: Option<String>)
        ensures
            opt_text(r) == lookup(self@, key@),
    {
        lookup_in(&self.oids, key)
    }

    /// The display name of a dotted-decimal identifier, by longest-prefix match;
    /// `None` where no leading run of components is named.
    pub fn resolve(&self, input: &str) -> (r: Option<String>)
        ensures
            opt_text(r) == resolve(self@, input@),
    {
        let n = input.unicode_len();
        let mut k: usize = n;
        loop
            invariant
                k <= n,
                n == input@.len(),
                resolve(self@, input@) == resolve_from(self@, input@, k as int),
            ensures
                resolve(self@, input@) == resolve_from(self@, input@, -1),
            decreases k,
        {
            let at_cut = k == n || input.get_char(k) == '.';
            assert(at_cut == is_split(input@, k as int));
            if at_cut {
                let key = String::from_str(input.substring_char(0, k));
                assert(key@ == prefix_before(input@, k as int));
                if let Some(name) = self.lookup_name(&key) {
                    return Some(Self::join_rest(name, input, k));
                }
            }
            if k == 0 {
                assert(resolve_from(self@, input@, 0) == resolve_from(self@, input@, -1));
                break;
            }
            k = k - 1;
        }
        let empty = String::new();
        assert(prefix_before(input@, -1) == empty@);
        match self.lookup_name(&empty) {
            Some(name) => {
                let mut r = name;
                if n > 0 {
                    proof {
                        reveal_strlit(".");
                    }
                    r.append(".");
                    r.append(input);
                }
                assert(r@ =~= compose(name@, rest_after(input@, -1)));
                Some(r)
            },
            None => None,
        }
    }

    fn join_rest(name: String, input: &str, k: usize) -> (r: String)
        requires
            k <= input@.len(),
            is_cut(input@, k as int),
        ensures
            r@ == compose(name@, rest_after(input@, k as int)),
    {
        let n = input.unicode_len();
        let mut r = name;
        if k < n && k + 1 < n {
            let rest = input.substring_char(k + 1, n);
            proof {
                reveal_strlit(".");
            }
            r.append(".");
            r.append(rest);
        }
        assert(r@ =~= compose(name@, rest_after(input@, k as int)));
        r
    }
}

impl FindOidName for OidMap {
    open spec fn find_oid_name_spec(&self, input: Seq<char>) -> Option<Seq<char>> {
        resolve(self@, input)
    }

    fn find_oid_name(self, input: String) -> (r: Option<String>) {
        self.resolve(input.as_str())
    }
}

} // verus!
