//! Step environment composition.
//!
//! Each step runs under one flat environment composed from four layers:
//! process-wide configuration, repository overrides, step overrides, and
//! variables derived from the trigger event.  The layers are concatenated in
//! that order and a later entry wins any name collision, so the precedence,
//! lowest to highest, is global < repository < step < trigger.

use crate::config::{Config, Repository, Step};
use crate::trigger::TriggeredInfo;
use vstd::prelude::*;

verus! {

/// One environment variable.
#[derive(Debug)]
pub struct EnvVar {
    pub name: String,
    pub value: String,
}

/// One name, one entry: what an environment layer read from a map already
/// guarantees, and the loader preserves when it hands the layer over as a
/// list.
pub open spec fn unique_env_names(s: Seq<EnvVar>) -> bool {
    forall|i: int, j: int|
        0 <= i < j < s.len() ==> (#[trigger] s[i]).name@ != (#[trigger] s[j]).name@
}

/// Whether an optional layer carries unique names.
pub open spec fn unique_layer(o: &Option<Vec<EnvVar>>) -> bool {
    match o {
        Some(v) => unique_env_names(v@),
        None => true,
    }
}

/// The (name, value) views of a list of environment variables.
pub open spec fn env_pairs(s: Seq<EnvVar>) -> Seq<(Seq<char>, Seq<char>)> {
    s.map_values(|v: EnvVar| (v.name@, v.value@))
}

/// The value an environment list gives to name `k`: the value of the last
/// entry named `k`, or `None` when no entry is.
pub open spec fn env_value(s: Seq<(Seq<char>, Seq<char>)>, k: Seq<char>) -> Option<Seq<char>>
    decreases s.len(),
{
    if s.len() == 0 {
        None
    } else if s.last().0 == k {
        Some(s.last().1)
    } else {
        env_value(s.drop_last(), k)
    }
}

/// The entries of an optional layer; an absent layer contributes nothing.
pub open spec fn spec_layer(o: Option<&Vec<EnvVar>>) -> Seq<EnvVar> {
    match o {
        Some(v) => v@,
        None => Seq::empty(),
    }
}

/// The trigger-derived variables, in the order they are injected: the
/// repository name always, then branch, tag and step-set name when the
/// trigger carries them.
pub open spec fn triggered_pairs(ti: &TriggeredInfo) -> Seq<(Seq<char>, Seq<char>)> {
    seq![("TRIGGERED_INFO_REPOSITORY"@, ti.repository@)] + (match ti.branch {
        Some(b) => seq![("TRIGGERED_INFO_BRANCH"@, b@)],
        None => Seq::empty(),
    }) + (match ti.tag {
        Some(t) => seq![("TRIGGERED_INFO_TAG"@, t@)],
        None => Seq::empty(),
    }) + (match ti.steps_name {
        Some(s) => seq![("TRIGGERED_INFO_STEPS_NAME"@, s@)],
        None => Seq::empty(),
    })
}

/// The four environment layers of one step execution, lowest precedence
/// first.
pub struct Environment<'a> {
    pub global: Option<&'a Vec<EnvVar>>,
    pub repository: Option<&'a Vec<EnvVar>>,
    pub step: Option<&'a Vec<EnvVar>>,
    pub triggered_info: Vec<EnvVar>,
}

impl<'a> Environment<'a> {
    /// All entries, concatenated in precedence order (lowest first).
    pub open spec fn spec_entries(&self) -> Seq<EnvVar> {
        spec_layer(self.global) + spec_layer(self.repository) + spec_layer(self.step)
            + self.triggered_info@
    }

    /// Flattens the four layers into one list; a later entry overrides an
    /// earlier one of the same name when the list is applied to a process.
    pub fn compose(&self) -> (r: Vec<EnvVar>)
        ensures
            r@ == self.spec_entries(),
    {
        let mut r: Vec<EnvVar> = Vec::new();
        append_opt_layer(&mut r, self.global);
        append_opt_layer(&mut r, self.repository);
        append_opt_layer(&mut r, self.step);
        append_layer(&mut r, &self.triggered_info);
        proof {
            assert(r@ =~= self.spec_entries());
        }
        r
    }
}

fn clone_env_var(v: &EnvVar) -> (r: EnvVar)
    ensures
        r == *v,
{
    EnvVar { name: v.name.clone(), value: v.value.clone() }
}

fn append_layer(out: &mut Vec<EnvVar>, layer: &Vec<EnvVar>)
    ensures
        final(out)@ == old(out)@ + layer@,
{
    let mut i: usize = 0;
    while i < layer.len()
        invariant
            i <= layer@.len(),
            out@ == old(out)@ + layer@.take(i as int),
        decreases layer@.len() - i,
    {
        out.push(clone_env_var(&layer[i]));
        i = i + 1;
        proof {
            assert(out@ =~= old(out)@ + layer@.take(i as int));
        }
    }
    proof {
        assert(old(out)@ + layer@.take(layer@.len() as int) =~= old(out)@ + layer@);
    }
}

fn append_opt_layer(out: &mut Vec<EnvVar>, layer: Option<&Vec<EnvVar>>)
    ensures
        final(out)@ == old(out)@ + spec_layer(layer),
{
    match layer {
        Some(v) => append_layer(out, v),
        None => {
            proof {
                assert(old(out)@ + spec_layer(layer) =~= old(out)@);
            }
        },
    }
}

impl Step {
    /// The environment of one execution of this step: the process-wide
    /// configuration layer, the repository's overrides, the step's own
    /// overrides, and the trigger-derived variables, in that order.
    pub fn environment<'a>(
        &'a self,
        config: &'a Config,
        repository: &'a Repository,
        ti: &'a TriggeredInfo,
    ) -> (e: Environment<'a>)
        ensures
            spec_layer(e.global) == spec_layer_of(&config.environment),
            spec_layer(e.repository) == spec_layer_of(&repository.environment),
            spec_layer(e.step) == spec_layer_of(&self.environment),
            env_pairs(e.triggered_info@) == triggered_pairs(ti),
    {
        let mut triggered_info: Vec<EnvVar> = Vec::new();
        triggered_info.push(
            EnvVar {
                name: "TRIGGERED_INFO_REPOSITORY".to_owned(),
                value: ti.repository.clone(),
            },
        );
        if let Some(b) = &ti.branch {
            triggered_info.push(EnvVar { name: "TRIGGERED_INFO_BRANCH".to_owned(), value: b.clone() });
        }
        if let Some(t) = &ti.tag {
            triggered_info.push(EnvVar { name: "TRIGGERED_INFO_TAG".to_owned(), value: t.clone() });
        }
        if let Some(s) = &ti.steps_name {
            triggered_info.push(
                EnvVar { name: "TRIGGERED_INFO_STEPS_NAME".to_owned(), value: s.clone() },
            );
        }
        proof {
            assert(env_pairs(triggered_info@) =~= triggered_pairs(ti));
        }
        Environment {
            global: config.environment.as_ref(),
            repository: repository.environment.as_ref(),
            step: self.environment.as_ref(),
            triggered_info,
        }
    }
}

/// The entries of an optional owned layer.
pub open spec fn spec_layer_of(o: &Option<Vec<EnvVar>>) -> Seq<EnvVar> {
    match o {
        Some(v) => v@,
        None => Seq::empty(),
    }
}

/// Looking a name up in a concatenation: the later list wins when it defines
/// the name at all.
pub proof fn lemma_env_value_concat(
    a: Seq<(Seq<char>, Seq<char>)>,
    b: Seq<(Seq<char>, Seq<char>)>,
    k: Seq<char>,
)
    ensures
        env_value(a + b, k) == if env_value(b, k) is Some {
            env_value(b, k)
        } else {
            env_value(a, k)
        },
    decreases b.len(),
{
    if b.len() == 0 {
        assert(a + b =~= a);
    } else {
        assert((a + b).drop_last() =~= a + b.drop_last());
        lemma_env_value_concat(a, b.drop_last(), k);
    }
}

/// Environment composition precedence: for any name, the composed
/// environment's value is the one of the highest-precedence layer that
/// defines the name — trigger over step over repository over global.
pub proof fn lemma_env_precedence<'a>(e: Environment<'a>, k: Seq<char>)
    ensures
        env_value(env_pairs(e.spec_entries()), k) == {
            let g = env_value(env_pairs(spec_layer(e.global)), k);
            let rp = env_value(env_pairs(spec_layer(e.repository)), k);
            let st = env_value(env_pairs(spec_layer(e.step)), k);
            let tr = env_value(env_pairs(e.triggered_info@), k);
            if tr is Some {
                tr
            } else if st is Some {
                st
            } else if rp is Some {
                rp
            } else {
                g
            }
        },
{
    let g = env_pairs(spec_layer(e.global));
    let rp = env_pairs(spec_layer(e.repository));
    let st = env_pairs(spec_layer(e.step));
    let tr = env_pairs(e.triggered_info@);
    assert(env_pairs(e.spec_entries()) =~= g + rp + st + tr);
    lemma_env_value_concat(g + rp + st, tr, k);
    lemma_env_value_concat(g + rp, st, k);
    lemma_env_value_concat(g, rp, k);
}

} // verus!
