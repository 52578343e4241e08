//! The service registry: a mapping of service name to socket path.
//!
//! The registry is populated once, before any activation watcher starts, and
//! is only read afterwards; nothing here mutates an entry after population.
//! An unknown name on lookup is a configuration error, which the caller
//! treats as fatal.

use vstd::prelude::*;
use vstd::string::StringExecFns;

verus! {

/// One registered service: its name and the filesystem path of its
/// listening unix socket.
pub struct ServiceEntry {
    pub name: String,
    pub path: String,
}

/// What a sequence of registrations maps a name to: the path of the most
/// recently registered entry with that name, if any.
pub open spec fn spec_lookup(entries: Seq<ServiceEntry>, name: Seq<char>) -> Option<Seq<char>>
    decreases entries.len(),
{
    if entries.len() == 0 {
        None
    } else if entries.last().name@ == name {
        Some(entries.last().path@)
    } else {
        spec_lookup(entries.drop_last(), name)
    }
}

/// A mapping of service name to socket path, populated once at startup.
pub struct ServiceRegistry {
    entries: Vec<ServiceEntry>,
}

impl ServiceRegistry {
    pub closed spec fn view(&self) -> Seq<ServiceEntry> {
        self.entries@
    }

    /// An empty registry: no name resolves.
    pub fn new() -> (r: ServiceRegistry)
        ensures
            r@ =~= Seq::<ServiceEntry>::empty(),
            forall|n: Seq<char>| spec_lookup(r@, n) is None,
    {
        ServiceRegistry { entries: Vec::new() }
    }

    /// Registers a service. Valid only during the population phase, before
    /// any lookup occurs; afterwards the resolved path of `name` is `path`
    /// and every other name resolves exactly as before.
    pub fn register(&mut self, name: String, path: String)
        ensures
            final(self)@ == old(self)@.push((ServiceEntry { name, path })),
            spec_lookup(final(self)@, name@) == Some(path@),
            forall|n: Seq<char>| n != name@ ==> spec_lookup(final(self)@, n) == spec_lookup(old(self)@, n),
    {
        let ghost pre = self.entries@;
        self.entries.push(ServiceEntry { name, path });
        proof {
            assert forall|n: Seq<char>| true implies spec_lookup(self.entries@, n) == (if n == self.entries@.last().name@ {
                Some(self.entries@.last().path@)
            } else {
                spec_lookup(pre, n)
            }) by {
                lemma_register_then_lookup(pre, self.entries@.last(), n);
                assert(pre.push(self.entries@.last()) =~= self.entries@);
            }
        }
    }

    /// The registered entries, for the population loop that hands each
    /// service's socket to a watcher.
    pub fn entries(&self) -> (r: &Vec<ServiceEntry>)
        ensures
            r@ == self@,
    {
        &self.entries
    }

    /// Resolves a service name to its registered socket path. Returns
    /// `None` exactly when the name was never registered; the caller treats
    /// that as a fatal configuration error.
    pub fn lookup(&self, name: &String) -> (r: Option<&String>)
        ensures
            match r {
                Some(p) => spec_lookup(self@, name@) == Some(p@),
                None => spec_lookup(self@, name@) is None,
            },
    {
        let mut i: usize = self.entries.len();
        assert(self.entries@.take(i as int) =~= self.entries@);
        while i > 0
            invariant
                i <= self.entries.len(),
                spec_lookup(self@, name@) == spec_lookup(self.entries@.take(i as int), name@),
            decreases i,
        {
            i = i - 1;
            let entry = &self.entries[i];
            proof {
                assert(self.entries@.take(i as int + 1).last() == self.entries@[i as int]);
                assert(self.entries@.take(i as int + 1).drop_last() =~= self.entries@.take(i as int));
            }
            if entry.name.eq(name) {
                return Some(&entry.path);
            }
        }
        assert(self.entries@.take(0) =~= Seq::<ServiceEntry>::empty());
        None
    }
}

/// Populates the registry with the fixed, compiled-in service table: each
/// of the three services resolves to its well-known socket path and no
/// other name resolves. In practice a configuration file would be parsed
/// here; its loader would keep this contract.
pub fn parse() -> (r: ServiceRegistry)
    ensures
        spec_lookup(r@, "serviceA"@) == Some("service_a_socket"@),
        spec_lookup(r@, "serviceB"@) == Some("service_b_socket"@),
        spec_lookup(r@, "serviceC"@) == Some("service_c_socket"@),
        forall|n: Seq<char>|
            n != "serviceA"@ && n != "serviceB"@ && n != "serviceC"@ ==> spec_lookup(r@, n) is None,
{
    proof {
        reveal_strlit("serviceA");
        reveal_strlit("serviceB");
        reveal_strlit("serviceC");
        assert("serviceA"@[7] == 'A' && "serviceB"@[7] == 'B' && "serviceC"@[7] == 'C');
        assert("serviceA"@ != "serviceB"@ && "serviceA"@ != "serviceC"@ && "serviceB"@ != "serviceC"@);
    }
    let mut r = ServiceRegistry::new();
    r.register(String::from_str("serviceA"), String::from_str("service_a_socket"));
    r.register(String::from_str("serviceB"), String::from_str("service_b_socket"));
    r.register(String::from_str("serviceC"), String::from_str("service_c_socket"));
    r
}

/// Registering one more service resolves that service's name to the new
/// path and leaves every other name resolving as before: population of one
/// entry cannot disturb another, so a lookup after population returns the
/// path that was registered, for the lifetime of the registry.
pub proof fn lemma_register_then_lookup(entries: Seq<ServiceEntry>, e: ServiceEntry, n: Seq<char>)
    ensures
        spec_lookup(entries.push(e), n) == if n == e.name@ {
            Some(e.path@)
        } else {
            spec_lookup(entries, n)
        },
{
    assert(entries.push(e).last() == e);
    assert(entries.push(e).drop_last() =~= entries);
}

} // verus!
