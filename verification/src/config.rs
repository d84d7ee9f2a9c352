use vstd::prelude::*;

use crate::attr::AttrModel;
use crate::attr::DynamicEnvVar;

verus! {

/// The configuration object: a table of named, environment-bound attributes,
/// modelled as the sequence of registrations in order.
pub struct Config {
    entries: Vec<(String, DynamicEnvVar)>,
}

impl View for Config {
    type V = Seq<(Seq<char>, AttrModel)>;

    closed spec fn view(&self) -> Seq<(Seq<char>, AttrModel)> {
        Seq::new(
            self.entries@.len(),
            |i: int| (self.entries@[i].0@, self.entries@[i].1@),
        )
    }
}

/// The attribute registered under `name` among the first `n` registrations,
/// scanning from the newest back: the last registration wins.
pub open spec fn spec_lookup_upto(
    t: Seq<(Seq<char>, AttrModel)>,
    n: int,
    name: Seq<char>,
) -> Option<AttrModel>
    decreases n,
{
    if n <= 0 {
        None
    } else if t[n - 1].0 == name {
        Some(t[n - 1].1)
    } else {
        spec_lookup_upto(t, n - 1, name)
    }
}

/// The attribute registered under `name`: the newest registration under that
/// name, or `None` when the name was never registered.
pub open spec fn spec_lookup(t: Seq<(Seq<char>, AttrModel)>, name: Seq<char>) -> Option<AttrModel> {
    spec_lookup_upto(t, t.len() as int, name)
}

/// The registrations every deployed configuration carries: `builder_token`
/// reads `BUILDER_TOKEN` with no default, `agent_type` reads `CODEGEN_AGENT`
/// defaulting to `"trpc_agent"`, and `snapshot_bucket` reads
/// `SNAPSHOT_BUCKET` with no default.
pub open spec fn standard_table() -> Seq<(Seq<char>, AttrModel)> {
    seq![
        ("builder_token"@, AttrModel { env_name: "BUILDER_TOKEN"@, default: None }),
        ("agent_type"@, AttrModel { env_name: "CODEGEN_AGENT"@, default: Some("trpc_agent"@) }),
        ("snapshot_bucket"@, AttrModel { env_name: "SNAPSHOT_BUCKET"@, default: None }),
    ]
}

impl Config {
    /// An empty configuration: no attribute is registered yet.
    pub fn new() -> (r: Config)
        ensures
            r@ == Seq::<(Seq<char>, AttrModel)>::empty(),
    {
        let r = Config { entries: Vec::new() };
        proof {
            assert(r@ =~= Seq::<(Seq<char>, AttrModel)>::empty());
        }
        r
    }

    /// Registers `attribute` under `name`. Re-registering an existing name is
    /// allowed; lookups then see the newest registration (last write wins).
    pub fn register(&mut self, name: String, attribute: DynamicEnvVar)
        ensures
            final(self)@ == old(self)@.push((name@, attribute@)),
    {
        let ghost n: Seq<char> = name@;
        let ghost a: AttrModel = attribute@;
        self.entries.push((name, attribute));
        proof {
            assert(self@ =~= old(self)@.push((n, a)));
        }
    }

    /// Looks `name` up in the attribute table. `None` means the name was
    /// never registered; resolving the found attribute is the caller's next
    /// step, against a fresh environment lookup.
    pub fn get_attribute(&self, name: &str) -> (r: Option<&DynamicEnvVar>)
        ensures
            match r {
                Some(a) => spec_lookup(self@, name@) == Some(a@),
                None => spec_lookup(self@, name@) is None,
            },
    {
        let key: String = name.to_owned();
        let mut i: usize = self.entries.len();
        while i > 0
            invariant
                i <= self.entries@.len(),
                self@.len() == self.entries@.len(),
                key@ == name@,
                spec_lookup(self@, name@) == spec_lookup_upto(self@, i as int, name@),
            decreases i,
        {
            i = i - 1;
            let entry = &self.entries[i];
            if entry.0 == key {
                return Some(&entry.1);
            }
        }
        None
    }

    /// A configuration with the standard attribute set registered.
    pub fn standard() -> (r: Config)
        ensures
            r@ == standard_table(),
    {
        let mut c = Config::new();
        c.register(
            "builder_token".to_owned(),
            DynamicEnvVar::new("BUILDER_TOKEN".to_owned(), None),
        );
        c.register(
            "agent_type".to_owned(),
            DynamicEnvVar::new("CODEGEN_AGENT".to_owned(), Some("trpc_agent".to_owned())),
        );
        c.register(
            "snapshot_bucket".to_owned(),
            DynamicEnvVar::new("SNAPSHOT_BUCKET".to_owned(), None),
        );
        proof {
            assert(c@ =~= standard_table());
        }
        c
    }

    /// The number of registrations made so far.
    pub fn len(&self) -> (r: usize)
        ensures
            r == self@.len(),
    {
        self.entries.len()
    }
}

impl Clone for Config {
    /// The clone carries the same registration sequence.
    fn clone(&self) -> (r: Self)
        ensures
            r@ == self@,
    {
        let mut entries: Vec<(String, DynamicEnvVar)> = Vec::new();
        let mut i: usize = 0;
        while i < self.entries.len()
            invariant
                i <= self.entries@.len(),
                entries@.len() == i,
                forall|j: int| 0 <= j < i ==> (entries@[j].0@, entries@[j].1@)
                    == (self.entries@[j].0@, self.entries@[j].1@),
            decreases self.entries@.len() - i,
        {
            let entry = &self.entries[i];
            entries.push((entry.0.clone(), entry.1.clone()));
            i = i + 1;
        }
        let r = Config { entries };
        proof {
            assert(r@ =~= self@);
        }
        r
    }
}

/// Law: the last registration wins. After registering `a` under `name`, the
/// lookup of `name` finds exactly `a`, and the lookup of every other name is
/// unchanged.
pub proof fn lemma_last_registration_wins(
    t: Seq<(Seq<char>, AttrModel)>,
    name: Seq<char>,
    a: AttrModel,
)
    ensures
        spec_lookup(t.push((name, a)), name) == Some(a),
        forall|m: Seq<char>|
            m != name ==> spec_lookup(t.push((name, a)), m) == spec_lookup(t, m),
{
    assert forall|m: Seq<char>| m != name implies spec_lookup(t.push((name, a)), m)
        == spec_lookup(t, m) by {
        lemma_lookup_upto_push_agrees(t, (name, a), t.len() as int, m);
    }
}

/// Pushing a new registration does not change what the older prefix resolves.
proof fn lemma_lookup_upto_push_agrees(
    t: Seq<(Seq<char>, AttrModel)>,
    e: (Seq<char>, AttrModel),
    n: int,
    name: Seq<char>,
)
    requires
        0 <= n <= t.len(),
    ensures
        spec_lookup_upto(t.push(e), n, name) == spec_lookup_upto(t, n, name),
    decreases n,
{
    if n > 0 {
        lemma_lookup_upto_push_agrees(t, e, n - 1, name);
    }
}

} // verus!
