//! The registry of known collectors: a caller-owned table built once per
//! run, with lookup by identifier (ASCII case-insensitive) and the sentinel
//! `"all"` selecting every registered collector. Unresolved names are
//! reported back, never silently dropped and never fatal.

use vstd::prelude::*;
use crate::collector::EcstasyCollector;
use crate::collectors::konachan::KonachanCollector;
use crate::collectors::reddit::RedditCollector;
use crate::item::strings_view;
use crate::strutil::{eq_ignore_case, str_eq_ignore_case};

verus! {

/// One registered adapter kind: the closed set of known collectors.
#[derive(Clone, Copy, Debug, PartialEq, Eq, Structural)]
pub enum SourceKind {
    Konachan,
    Reddit,
}

/// The identifier a kind is registered under; lowercase and stable.
pub open spec fn kind_id(k: SourceKind) -> Seq<char> {
    match k {
        SourceKind::Konachan => "konachan"@,
        SourceKind::Reddit => "reddit"@,
    }
}

impl SourceKind {
    /// The identifier this kind is registered under.
    pub fn id(&self) -> (r: &'static str)
        ensures
            r@ == kind_id(*self),
    {
        match self {
            SourceKind::Konachan => "konachan",
            SourceKind::Reddit => "reddit",
        }
    }
}

/// Whether a requested name is the select-everything sentinel, up to ASCII
/// case.
pub open spec fn is_all(name: Seq<char>) -> bool {
    eq_ignore_case(name, "all"@)
}

/// The first registered kind whose identifier matches the name up to ASCII
/// case, front of the table first.
pub open spec fn lookup_spec(reg: Seq<SourceKind>, name: Seq<char>) -> Option<SourceKind>
    decreases reg.len(),
{
    if reg.len() == 0 {
        None
    } else if eq_ignore_case(name, kind_id(reg.first())) {
        Some(reg.first())
    } else {
        lookup_spec(reg.drop_first(), name)
    }
}

/// What a list of requested names resolves to against a table: the selected
/// kinds in request order — the sentinel expanding to the whole table in
/// table order — and the names that matched nothing, in request order.
pub open spec fn resolve_spec(reg: Seq<SourceKind>, names: Seq<Seq<char>>) -> (Seq<SourceKind>,
    Seq<Seq<char>>)
    decreases names.len(),
{
    if names.len() == 0 {
        (Seq::empty(), Seq::empty())
    } else {
        let prev = resolve_spec(reg, names.drop_last());
        let n = names.last();
        if is_all(n) {
            (prev.0 + reg, prev.1)
        } else if lookup_spec(reg, n) is Some {
            (prev.0.push(lookup_spec(reg, n)->Some_0), prev.1)
        } else {
            (prev.0, prev.1.push(n))
        }
    }
}

/// The caller-owned table of known collectors.
pub struct Registry {
    pub kinds: Vec<SourceKind>,
}

impl Registry {
    /// The fixed table of this build: every known adapter kind, once each.
    pub fn new() -> (r: Registry)
        ensures
            r.kinds@ =~= seq![SourceKind::Konachan, SourceKind::Reddit],
    {
        let mut kinds: Vec<SourceKind> = Vec::new();
        kinds.push(SourceKind::Konachan);
        kinds.push(SourceKind::Reddit);
        Registry { kinds }
    }

    /// The first registered kind whose identifier matches the name up to
    /// ASCII case.
    pub fn lookup(&self, name: &str) -> (r: Option<SourceKind>)
        ensures
            r == lookup_spec(self.kinds@, name@),
    {
        let mut j: usize = 0;
        proof {
            assert(self.kinds@.skip(0) =~= self.kinds@);
        }
        while j < self.kinds.len()
            invariant
                j <= self.kinds@.len(),
                lookup_spec(self.kinds@, name@) == lookup_spec(self.kinds@.skip(j as int), name@),
            decreases self.kinds@.len() - j,
        {
            let k = self.kinds[j];
            proof {
                assert(self.kinds@.skip(j as int).first() == self.kinds@[j as int]);
            }
            if str_eq_ignore_case(name, k.id()) {
                return Some(k);
            }
            proof {
                assert(self.kinds@.skip(j as int).drop_first() =~= self.kinds@.skip(j + 1));
            }
            j += 1;
        }
        proof {
            assert(self.kinds@.skip(self.kinds@.len() as int) =~= Seq::<SourceKind>::empty());
        }
        None
    }

    /// Resolves the requested source names: the selected collector kinds in
    /// request order — `"all"` expanding to the whole table — and the names
    /// that matched no registered collector, reported back as warnings.
    pub fn resolve(&self, requested: &Vec<String>) -> (r: (Vec<SourceKind>, Vec<String>))
        ensures
            r.0@ == resolve_spec(self.kinds@, strings_view(requested@)).0,
            strings_view(r.1@) == resolve_spec(self.kinds@, strings_view(requested@)).1,
    {
        let ghost names = strings_view(requested@);
        let mut sel: Vec<SourceKind> = Vec::new();
        let mut unk: Vec<String> = Vec::new();
        let mut i: usize = 0;
        while i < requested.len()
            invariant
                i <= requested@.len(),
                names == strings_view(requested@),
                sel@ == resolve_spec(self.kinds@, names.take(i as int)).0,
                strings_view(unk@) == resolve_spec(self.kinds@, names.take(i as int)).1,
            decreases requested@.len() - i,
        {
            let name = &requested[i];
            proof {
                assert(names.take(i + 1).drop_last() =~= names.take(i as int));
                assert(names.take(i + 1).last() == name@);
            }
            if str_eq_ignore_case(name.as_str(), "all") {
                let ghost prev = sel@;
                let mut j: usize = 0;
                while j < self.kinds.len()
                    invariant
                        j <= self.kinds@.len(),
                        sel@ =~= prev + self.kinds@.take(j as int),
                    decreases self.kinds@.len() - j,
                {
                    sel.push(self.kinds[j]);
                    proof {
                        assert(self.kinds@.take(j + 1) =~= self.kinds@.take(j as int).push(
                            self.kinds@[j as int],
                        ));
                    }
                    j += 1;
                }
                proof {
                    assert(self.kinds@.take(self.kinds@.len() as int) =~= self.kinds@);
                    assert(sel@ =~= resolve_spec(self.kinds@, names.take(i + 1)).0);
                }
            } else {
                match self.lookup(name.as_str()) {
                    Some(k) => {
                        sel.push(k);
                    },
                    None => {
                        let ghost prev_unk = strings_view(unk@);
                        unk.push(name.clone());
                        proof {
                            assert(strings_view(unk@) =~= prev_unk.push(name@));
                        }
                    },
                }
            }
            i += 1;
        }
        proof {
            assert(names.take(requested@.len() as int) =~= names);
        }
        (sel, unk)
    }
}

/// Law: requesting the sentinel `"all"` alone selects every registered
/// collector exactly once, in the stable table order, and reports nothing
/// unknown.
pub proof fn lemma_resolve_all(reg: Seq<SourceKind>, name: Seq<char>)
    requires
        is_all(name),
    ensures
        resolve_spec(reg, seq![name]).0 =~= reg,
        resolve_spec(reg, seq![name]).1 =~= Seq::<Seq<char>>::empty(),
{
    let names = seq![name];
    assert(names.drop_last() =~= Seq::<Seq<char>>::empty());
    assert(resolve_spec(reg, names.drop_last()) == (Seq::<SourceKind>::empty(), Seq::<
        Seq<char>,
    >::empty()));
    assert(names.last() == name);
    assert(Seq::<SourceKind>::empty() + reg =~= reg);
}

/// Law: each kind is registered under exactly the identifier its adapter
/// answers to, so resolution and item tagging agree.
pub proof fn lemma_kind_ids_match_adapters()
    ensures
        kind_id(SourceKind::Konachan) == (KonachanCollector).spec_id(),
        kind_id(SourceKind::Reddit) == (RedditCollector).spec_id(),
{
}

/// Law: a requested name that is not the sentinel and matches no registered
/// collector selects nothing — it only adds itself to the reported warnings.
pub proof fn lemma_resolve_unknown(reg: Seq<SourceKind>, names: Seq<Seq<char>>, name: Seq<char>)
    requires
        !is_all(name),
        lookup_spec(reg, name) is None,
    ensures
        resolve_spec(reg, names.push(name)).0 == resolve_spec(reg, names).0,
        resolve_spec(reg, names.push(name)).1 == resolve_spec(reg, names).1.push(name),
{
    assert(names.push(name).drop_last() =~= names);
    assert(names.push(name).last() == name);
}

} // verus!
