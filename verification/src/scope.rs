//! The closed set of permission scopes and their canonical wire names.
use crate::codec::{bytes_eq, SPACE};
use crate::Error;
use vstd::prelude::*;
use vstd::string::{StrSliceExecFns, StringSliceAdditionalSpecFns};

verus! {

/// A permission scope of the account API.
#[derive(Debug, Copy, Clone, PartialEq, Eq, Structural)]
pub enum PoEApiAccountScope {
    Profile,
    Leagues,
    Stashes,
    Characters,
    LeagueAccounts,
    ItemFilter,
}

/// A permission scope of any API family; only account scopes exist today.
#[derive(Debug, Copy, Clone, PartialEq, Eq, Structural)]
pub enum PoEApiScope {
    Account(PoEApiAccountScope),
}

impl PoEApiAccountScope {
    /// The canonical wire name of this scope.
    pub fn name(&self) -> (r: &'static str)
        ensures
            r@ == self.wire_name(),
            r.spec_bytes() == self.wire_bytes(),
    {
        match self {
            Self::Profile => "account:profile",
            Self::Leagues => "account:leagues",
            Self::Stashes => "account:stashes",
            Self::Characters => "account:characters",
            Self::LeagueAccounts => "account:league_accounts",
            Self::ItemFilter => "account:item_filter",
        }
    }

    /// The canonical wire name, as characters.
    pub open spec fn wire_name(self) -> Seq<char> {
        match self {
            Self::Profile => "account:profile"@,
            Self::Leagues => "account:leagues"@,
            Self::Stashes => "account:stashes"@,
            Self::Characters => "account:characters"@,
            Self::LeagueAccounts => "account:league_accounts"@,
            Self::ItemFilter => "account:item_filter"@,
        }
    }

    /// The canonical wire name, as its bytes.
    pub open spec fn wire_bytes(self) -> Seq<u8> {
        match self {
            Self::Profile => "account:profile".spec_bytes(),
            Self::Leagues => "account:leagues".spec_bytes(),
            Self::Stashes => "account:stashes".spec_bytes(),
            Self::Characters => "account:characters".spec_bytes(),
            Self::LeagueAccounts => "account:league_accounts".spec_bytes(),
            Self::ItemFilter => "account:item_filter".spec_bytes(),
        }
    }

    /// The canonical wire name, as an owned string.
    pub fn to_string(&self) -> (r: String)
        ensures
            r@ == self.wire_name(),
    {
        self.name().to_owned()
    }

    /// Parses a scope from its short name, after dropping every leading
    /// `account::` prefix; anything else is rejected.
    pub fn from_str(s: &str) -> (r: Result<Self, Error>)
        ensures
            match scope_of_bytes(s.spec_bytes()) {
                Some(sc) => r == Ok::<Self, Error>(sc),
                None => r matches Err(e) && e matches Error::Custom(m) && m@
                    == "Failed to parse account scope"@,
            },
    {
        let b = s.as_bytes_vec();
        let prefix = ("account::").as_bytes_vec();
        let mut start: usize = 0;
        proof {
            assert(b@.skip(0) =~= b@);
        }
        let mut done = false;
        while !done
            invariant
                start <= b@.len(),
                b@ == s.spec_bytes(),
                prefix@ == "account::".spec_bytes(),
                trim_scope_prefix(s.spec_bytes()) == trim_scope_prefix(b@.skip(start as int)),
                done ==> trim_scope_prefix(b@.skip(start as int)) == b@.skip(start as int),
            decreases b@.len() - start + (if done {
                0int
            } else {
                1int
            }),
        {
            let ghost suffix = b@.skip(start as int);
            if prefix.len() > 0 && b.len() - start >= prefix.len() {
                let head = vstd::slice::slice_subrange(b.as_slice(), start, start + prefix.len());
                proof {
                    assert(head@ =~= suffix.take(prefix@.len() as int));
                }
                if bytes_eq(head, prefix.as_slice()) {
                    proof {
                        assert(suffix.skip(prefix@.len() as int) =~= b@.skip(
                            start + prefix@.len(),
                        ));
                    }
                    start = start + prefix.len();
                } else {
                    proof {
                        assert(suffix.take(prefix@.len() as int) != prefix@);
                    }
                    done = true;
                }
            } else {
                done = true;
            }
        }
        let ghost trimmed = trim_scope_prefix(s.spec_bytes());
        let rest = vstd::slice::slice_subrange(b.as_slice(), start, b.len());
        proof {
            assert(rest@ =~= b@.skip(start as int));
        }
        if bytes_eq(rest, ("profile").as_bytes_vec().as_slice()) {
            Ok(Self::Profile)
        } else if bytes_eq(rest, ("leagues").as_bytes_vec().as_slice()) {
            Ok(Self::Leagues)
        } else if bytes_eq(rest, ("stashes").as_bytes_vec().as_slice()) {
            Ok(Self::Stashes)
        } else if bytes_eq(rest, ("characters").as_bytes_vec().as_slice()) {
            Ok(Self::Characters)
        } else if bytes_eq(rest, ("league_accounts").as_bytes_vec().as_slice()) {
            Ok(Self::LeagueAccounts)
        } else if bytes_eq(rest, ("item_filter").as_bytes_vec().as_slice()) {
            Ok(Self::ItemFilter)
        } else {
            Err(Error::Custom("Failed to parse account scope".to_owned()))
        }
    }
}

/// `s` with every leading `account::` prefix removed.
pub open spec fn trim_scope_prefix(s: Seq<u8>) -> Seq<u8>
    decreases s.len(),
{
    let p = "account::".spec_bytes();
    if p.len() > 0 && s.len() >= p.len() && s.take(p.len() as int) == p {
        trim_scope_prefix(s.skip(p.len() as int))
    } else {
        s
    }
}

/// The scope whose short name stands in `s` once every `account::` prefix
/// is dropped, if any.
pub open spec fn scope_of_bytes(s: Seq<u8>) -> Option<PoEApiAccountScope> {
    let t = trim_scope_prefix(s);
    if t == "profile".spec_bytes() {
        Some(PoEApiAccountScope::Profile)
    } else if t == "leagues".spec_bytes() {
        Some(PoEApiAccountScope::Leagues)
    } else if t == "stashes".spec_bytes() {
        Some(PoEApiAccountScope::Stashes)
    } else if t == "characters".spec_bytes() {
        Some(PoEApiAccountScope::Characters)
    } else if t == "league_accounts".spec_bytes() {
        Some(PoEApiAccountScope::LeagueAccounts)
    } else if t == "item_filter".spec_bytes() {
        Some(PoEApiAccountScope::ItemFilter)
    } else {
        None
    }
}

impl PoEApiScope {
    /// The canonical wire name of the scope, as its bytes.
    pub open spec fn wire_bytes(self) -> Seq<u8> {
        match self {
            PoEApiScope::Account(sc) => sc.wire_bytes(),
        }
    }

    /// The canonical wire name of the scope, as characters.
    pub open spec fn wire_name(self) -> Seq<char> {
        match self {
            PoEApiScope::Account(sc) => sc.wire_name(),
        }
    }

    /// The canonical wire name of this scope.
    pub fn name(&self) -> (r: &'static str)
        ensures
            r.spec_bytes() == self.wire_bytes(),
    {
        match self {
            PoEApiScope::Account(sc) => sc.name(),
        }
    }

    /// The canonical wire name, as an owned string.
    pub fn to_string(&self) -> (r: String)
        ensures
            r@ == self.wire_name(),
    {
        match self {
            PoEApiScope::Account(sc) => sc.to_string(),
        }
    }

    /// Parses a scope from its short name, as `PoEApiAccountScope::from_str`.
    pub fn from_str(s: &str) -> (r: Result<Self, Error>)
        ensures
            match scope_of_bytes(s.spec_bytes()) {
                Some(sc) => r == Ok::<Self, Error>(PoEApiScope::Account(sc)),
                None => r matches Err(e) && e matches Error::Custom(m) && m@
                    == "Failed to parse account scope"@,
            },
    {
        match PoEApiAccountScope::from_str(s) {
            Ok(sc) => Ok(PoEApiScope::Account(sc)),
            Err(e) => Err(e),
        }
    }
}

impl From<PoEApiAccountScope> for PoEApiScope {
    fn from(sc: PoEApiAccountScope) -> (r: PoEApiScope) {
        PoEApiScope::Account(sc)
    }
}

impl vstd::std_specs::convert::FromSpecImpl<PoEApiAccountScope> for PoEApiScope {
    open spec fn obeys_from_spec() -> bool {
        true
    }

    open spec fn from_spec(sc: PoEApiAccountScope) -> PoEApiScope {
        PoEApiScope::Account(sc)
    }
}

/// The wire rendering of a set of scopes: their canonical names joined by
/// single spaces, in the order given, duplicates kept.
pub open spec fn scopes_wire(scopes: Seq<PoEApiScope>) -> Seq<u8>
    decreases scopes.len(),
{
    if scopes.len() == 0 {
        Seq::empty()
    } else if scopes.len() == 1 {
        scopes[0].wire_bytes()
    } else {
        scopes[0].wire_bytes() + seq![SPACE] + scopes_wire(scopes.drop_first())
    }
}

/// Joining grows scope by scope: appending a scope appends its name, after
/// a space when the rendering was not empty.
proof fn lemma_scopes_wire_push(scopes: Seq<PoEApiScope>, sc: PoEApiScope)
    ensures
        scopes_wire(scopes.push(sc)) == if scopes.len() == 0 {
            sc.wire_bytes()
        } else {
            scopes_wire(scopes) + seq![SPACE] + sc.wire_bytes()
        },
    decreases scopes.len(),
{
    let q = scopes.push(sc);
    if scopes.len() == 0 {
        assert(q.len() == 1 && q[0] == sc);
    } else {
        assert(q.drop_first() =~= scopes.drop_first().push(sc));
        lemma_scopes_wire_push(scopes.drop_first(), sc);
        assert(scopes_wire(q) =~= scopes_wire(scopes) + seq![SPACE] + sc.wire_bytes());
    }
}

/// Renders a set of scopes to the wire string the provider expects:
/// the space-joined canonical names, order kept, duplicates kept.
pub fn render_scopes(scopes: &Vec<PoEApiScope>) -> (r: Vec<u8>)
    ensures
        r@ == scopes_wire(scopes@),
{
    let mut out: Vec<u8> = Vec::new();
    let mut i: usize = 0;
    proof {
        assert(scopes@.take(0) =~= Seq::<PoEApiScope>::empty());
    }
    while i < scopes.len()
        invariant
            i <= scopes@.len(),
            out@ == scopes_wire(scopes@.take(i as int)),
        decreases scopes@.len() - i,
    {
        proof {
            assert(scopes@.take(i + 1) =~= scopes@.take(i as int).push(scopes@[i as int]));
            lemma_scopes_wire_push(scopes@.take(i as int), scopes@[i as int]);
        }
        if i > 0 {
            out.push(SPACE);
        }
        let mut name = scopes[i].name().as_bytes_vec();
        out.append(&mut name);
        proof {
            assert(out@ =~= scopes_wire(scopes@.take(i + 1)));
        }
        i = i + 1;
    }
    proof {
        assert(scopes@.take(scopes@.len() as int) =~= scopes@);
    }
    out
}

} // verus!
