//! The deployment configuration model: hosts, repository plans, step sets,
//! steps and actions.
//!
//! A configuration is loaded once at process start and read-only thereafter;
//! every function here is a pure reader of it.

use crate::environment::{EnvVar, unique_layer};
use crate::text::str_eq;
use vstd::prelude::*;

verus! {

/// A remote host reachable over a secure shell, keyed by name in the host
/// table.  Authentication is key-based only; there is no password field.
#[derive(Debug)]
pub struct Host {
    pub description: Option<String>,
    pub hostname: String,
    pub port: Option<u16>,
    pub user: String,
}

impl Host {
    /// The port to connect to; 22 when none is configured.
    pub fn port_or_default(&self) -> (p: u16)
        ensures
            p == match self.port {
                Some(q) => q,
                None => 22u16,
            },
    {
        match self.port {
            Some(q) => q,
            None => 22,
        }
    }
}

/// One entry of the host table.
#[derive(Debug)]
pub struct NamedHost {
    pub name: String,
    pub host: Host,
}

/// A configured notification channel.
#[derive(Debug)]
pub enum Notifier {
    Dingtalk { access_token: String, secret: String },
}

/// A program to run: either a bare name, or a name followed by its
/// arguments.
#[derive(Debug)]
pub enum Command {
    Single(String),
    WithArgs(Vec<String>),
}

impl Command {
    /// A `WithArgs` command must carry at least the program name.
    pub open spec fn wf(&self) -> bool {
        match self {
            Command::Single(_) => true,
            Command::WithArgs(w) => w.len() >= 1,
        }
    }

    /// The program (or script) name.
    pub open spec fn spec_name(&self) -> Seq<char> {
        match self {
            Command::Single(s) => s@,
            Command::WithArgs(w) => w@[0]@,
        }
    }

    /// The argument strings, if the command carries an argument list.
    pub open spec fn spec_args(&self) -> Option<Seq<String>> {
        match self {
            Command::Single(_) => None,
            Command::WithArgs(w) => Some(w@.skip(1)),
        }
    }

    pub fn get_name(&self) -> (r: &str)
        requires
            self.wf(),
        ensures
            r@ == self.spec_name(),
    {
        match self {
            Command::Single(s) => s.as_str(),
            Command::WithArgs(w) => {
                let first = &w[0];
                first.as_str()
            },
        }
    }

    pub fn get_args(&self) -> (r: Option<Vec<String>>)
        requires
            self.wf(),
        ensures
            match r {
                Some(v) => self.spec_args() matches Some(a) && v@ == a,
                None => self.spec_args() is None,
            },
    {
        match self {
            Command::Single(_) => None,
            Command::WithArgs(w) => {
                let mut v: Vec<String> = Vec::new();
                let mut i: usize = 1;
                while i < w.len()
                    invariant
                        1 <= i <= w@.len(),
                        v@ == w@.subrange(1, i as int),
                    decreases w@.len() - i,
                {
                    v.push(w[i].clone());
                    i = i + 1;
                    proof {
                        assert(v@ =~= w@.subrange(1, i as int));
                    }
                }
                proof {
                    assert(w@.subrange(1, w@.len() as int) =~= w@.skip(1));
                }
                Some(v)
            },
        }
    }
}

/// What a step does: run a program, or run a named script from the scripts
/// directory under the work directory.
#[derive(Debug)]
pub enum Action {
    Command { command: Command },
    Script { name: Command },
}

/// One ordered element of a step set.  An absent `host` means the step runs
/// locally.
#[derive(Debug)]
pub struct Step {
    pub description: Option<String>,
    pub host: Option<String>,
    pub current_dir: Option<String>,
    pub environment: Option<Vec<EnvVar>>,
    pub action: Action,
}

/// Relies on `core::slice::from_ref`, which the standard library documents
/// as returning a slice of length one containing the referenced value.
pub assume_specification<T>[ core::slice::from_ref ](s: &T) -> (r: &[T])
    ensures
        r@ == seq![*s],
;

/// An ordered step list, written in configuration either as one step or as a
/// list of steps.
#[derive(Debug)]
pub enum Steps {
    Multiple(Vec<Step>),
    Single(Step),
}

impl Steps {
    /// The ordered steps this set holds.
    pub open spec fn spec_list(&self) -> Seq<Step> {
        match self {
            Steps::Multiple(m) => m@,
            Steps::Single(s) => seq![*s],
        }
    }

    /// Every step's own environment layer carries unique names.
    pub open spec fn wf(&self) -> bool {
        forall|i: int|
            0 <= i < self.spec_list().len() ==> unique_layer(
                &(#[trigger] self.spec_list()[i]).environment,
            )
    }

    pub fn get(&self) -> (r: Option<&[Step]>)
        ensures
            r matches Some(v) && v@ == self.spec_list(),
    {
        Some(
            match self {
                Steps::Multiple(m) => m.as_slice(),
                Steps::Single(s) => core::slice::from_ref(s),
            },
        )
    }
}

/// One named step set of a plan.
#[derive(Debug)]
pub struct NamedSteps {
    pub name: String,
    pub steps: Steps,
}

/// A plan's step sets: either several named sets, or a single unnamed set
/// (equivalent to one set named `default`).
#[derive(Debug)]
pub enum CompositeSteps {
    Multiple(Vec<NamedSteps>),
    Single(Steps),
}

/// One set per name: what a plan's named step sets, read from a map,
/// already guarantee (`lemma_find_named_unique`).
pub open spec fn unique_set_names(sets: Seq<NamedSteps>) -> bool {
    forall|i: int, j: int|
        0 <= i < j < sets.len() ==> (#[trigger] sets[i]).name@ != (#[trigger] sets[j]).name@
}

impl CompositeSteps {
    /// Named sets bear distinct names, and every step's environment layer
    /// carries unique names.
    pub open spec fn wf(&self) -> bool {
        match self {
            CompositeSteps::Multiple(m) => unique_set_names(m@) && forall|i: int|
                0 <= i < m@.len() ==> (#[trigger] m@[i]).steps.wf(),
            CompositeSteps::Single(s) => s.wf(),
        }
    }
}

/// The first step set with the given name.
pub open spec fn find_named(sets: Seq<NamedSteps>, name: Seq<char>) -> Option<Steps>
    decreases sets.len(),
{
    if sets.len() == 0 {
        None
    } else if sets.first().name@ == name {
        Some(sets.first().steps)
    } else {
        find_named(sets.drop_first(), name)
    }
}

/// The step-set name a trigger selects: the named one, or `default`.
pub open spec fn spec_steps_name(o: Option<&str>) -> Seq<char> {
    match o {
        Some(n) => n@,
        None => "default"@,
    }
}

/// A per-repository deployment plan.
#[derive(Debug)]
pub struct Repository {
    pub name: String,
    pub description: Option<String>,
    pub environment: Option<Vec<EnvVar>>,
    pub branch: Option<String>,
    pub tag: Option<String>,
    pub steps: CompositeSteps,
}

impl Repository {
    /// What the loader establishes of a plan: its environment layer and its
    /// step sets come from maps, so names within each are unique.
    pub open spec fn wf(&self) -> bool {
        unique_layer(&self.environment) && self.steps.wf()
    }

    /// The steps selected by `name`: for named sets, the first set with that
    /// name; a single unnamed set is exactly one set named `default`, so it
    /// answers that name and no other.
    pub open spec fn spec_get_steps(&self, name: Seq<char>) -> Option<Seq<Step>> {
        match self.steps {
            CompositeSteps::Multiple(m) => match find_named(m@, name) {
                Some(s) => Some(s.spec_list()),
                None => None,
            },
            CompositeSteps::Single(s) => if name == "default"@ {
                Some(s.spec_list())
            } else {
                None
            },
        }
    }

    /// The step set a trigger with the given step-set name selects, or
    /// `None` when the plan has no set of that name.
    pub fn get_steps(&self, steps_name: Option<&str>) -> (r: Option<&[Step]>)
        ensures
            match r {
                Some(v) => self.spec_get_steps(spec_steps_name(steps_name)) matches Some(l) && v@
                    == l,
                None => self.spec_get_steps(spec_steps_name(steps_name)) is None,
            },
    {
        match &self.steps {
            CompositeSteps::Multiple(m) => {
                let name: &str = match steps_name {
                    Some(n) => n,
                    None => "default",
                };
                proof {
                    reveal_strlit("default");
                    assert(name@ == spec_steps_name(steps_name));
                }
                let mut i: usize = 0;
                proof {
                    assert(m@.skip(0) =~= m@);
                }
                while i < m.len()
                    invariant
                        i <= m@.len(),
                        self.steps matches CompositeSteps::Multiple(mm) && mm@ == m@,
                        name@ == spec_steps_name(steps_name),
                        find_named(m@, name@) == find_named(m@.skip(i as int), name@),
                    decreases m@.len() - i,
                {
                    let entry = &m[i];
                    if str_eq(entry.name.as_str(), name) {
                        proof {
                            assert(m@.skip(i as int).first() == m@[i as int]);
                            assert(find_named(m@.skip(i as int), name@) == Some(
                                m@[i as int].steps,
                            ));
                        }
                        return entry.steps.get();
                    }
                    proof {
                        assert(m@.skip(i as int).drop_first() =~= m@.skip(i as int + 1));
                    }
                    i = i + 1;
                }
                None
            },
            CompositeSteps::Single(s) => {
                let name: &str = match steps_name {
                    Some(n) => n,
                    None => "default",
                };
                proof {
                    assert(name@ == spec_steps_name(steps_name));
                }
                if str_eq(name, "default") {
                    s.get()
                } else {
                    None
                }
            },
        }
    }
}

/// One entry per name: what the host table, read from a map, already
/// guarantees.  The lookups below take the first match, so order never
/// matters under this invariant (`lemma_find_host_unique`).
pub open spec fn unique_host_names(hosts: Seq<NamedHost>) -> bool {
    forall|i: int, j: int|
        0 <= i < j < hosts.len() ==> (#[trigger] hosts[i]).name@ != (#[trigger] hosts[j]).name@
}

/// The first host-table entry with the given name.
pub open spec fn find_host(hosts: Seq<NamedHost>, name: Seq<char>) -> Option<Host>
    decreases hosts.len(),
{
    if hosts.len() == 0 {
        None
    } else if hosts.first().name@ == name {
        Some(hosts.first().host)
    } else {
        find_host(hosts.drop_first(), name)
    }
}

/// The whole deployment configuration, loaded once at process start.
#[derive(Debug)]
pub struct Config {
    pub listen_address: String,
    pub host: Vec<NamedHost>,
    pub repository: Vec<Repository>,
    pub notifier: Option<Vec<Notifier>>,
    pub environment: Option<Vec<EnvVar>>,
    pub work_dir: String,
    pub base_url: String,
}

impl Config {
    /// What the loader establishes of a configuration: the host table, the
    /// global environment layer and every plan come from maps, so names
    /// within each are unique.  The contracts here do not lean on this —
    /// every lookup takes the first match — but the invariant is what the
    /// lists are trusted to carry.
    pub open spec fn wf(&self) -> bool {
        &&& unique_host_names(self.host@)
        &&& unique_layer(&self.environment)
        &&& forall|i: int| 0 <= i < self.repository@.len() ==> (#[trigger] self.repository@[i]).wf()
    }

    /// Resolves a step's target host name against the host table.
    pub fn get_host(&self, name: &str) -> (r: Option<&Host>)
        ensures
            match r {
                Some(h) => find_host(self.host@, name@) == Some(*h),
                None => find_host(self.host@, name@) is None,
            },
    {
        let mut i: usize = 0;
        proof {
            assert(self.host@.skip(0) =~= self.host@);
        }
        while i < self.host.len()
            invariant
                i <= self.host@.len(),
                find_host(self.host@, name@) == find_host(self.host@.skip(i as int), name@),
            decreases self.host@.len() - i,
        {
            let entry = &self.host[i];
            if str_eq(entry.name.as_str(), name) {
                proof {
                    assert(self.host@.skip(i as int).first() == self.host@[i as int]);
                }
                return Some(&entry.host);
            }
            proof {
                assert(self.host@.skip(i as int).drop_first() =~= self.host@.skip(i as int + 1));
            }
            i = i + 1;
        }
        None
    }
}


/// With unique names the table's order is immaterial: whichever entry
/// bears the name, the lookup answers with exactly its host.
pub proof fn lemma_find_host_unique(hosts: Seq<NamedHost>, name: Seq<char>, i: int)
    requires
        unique_host_names(hosts),
        0 <= i < hosts.len(),
        hosts[i].name@ == name,
    ensures
        find_host(hosts, name) == Some(hosts[i].host),
    decreases hosts.len(),
{
    if i > 0 {
        assert(hosts[0].name@ != hosts[i].name@);
        assert forall|a: int, b: int|
            0 <= a < b < hosts.drop_first().len() implies (hosts.drop_first()[a]).name@ != (
        hosts.drop_first()[b]).name@ by {
            assert(hosts.drop_first()[a] == hosts[a + 1]);
            assert(hosts.drop_first()[b] == hosts[b + 1]);
            assert(hosts[a + 1].name@ != hosts[b + 1].name@);
        };
        assert(hosts.drop_first()[i - 1] == hosts[i]);
        lemma_find_host_unique(hosts.drop_first(), name, i - 1);
    }
}

/// With unique set names the plan's order is immaterial: whichever entry
/// bears the name, the lookup answers with exactly its set.
pub proof fn lemma_find_named_unique(sets: Seq<NamedSteps>, name: Seq<char>, i: int)
    requires
        unique_set_names(sets),
        0 <= i < sets.len(),
        sets[i].name@ == name,
    ensures
        find_named(sets, name) == Some(sets[i].steps),
    decreases sets.len(),
{
    if i > 0 {
        assert(sets[0].name@ != sets[i].name@);
        assert forall|a: int, b: int|
            0 <= a < b < sets.drop_first().len() implies (sets.drop_first()[a]).name@ != (
        sets.drop_first()[b]).name@ by {
            assert(sets.drop_first()[a] == sets[a + 1]);
            assert(sets.drop_first()[b] == sets[b + 1]);
            assert(sets[a + 1].name@ != sets[b + 1].name@);
        };
        assert(sets.drop_first()[i - 1] == sets[i]);
        lemma_find_named_unique(sets.drop_first(), name, i - 1);
    }
}

} // verus!
