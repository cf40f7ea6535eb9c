//! Environments: named sets of variables that are substituted into requests
//! as `{{name}}`.
use vstd::prelude::*;
use crate::models::pairs_view;
use crate::text::{
    concat3, lemma_lex_lt_irreflexive, lemma_lex_lt_transitive, lemma_lex_lt_trichotomy, lex_lt,
    replace, replace_all, str_eq, str_lt,
};

verus! {

broadcast use vstd::string::group_string_axioms;

/// The text that stands for variable `key`: `{{key}}`.
pub open spec fn var_pattern(key: Seq<char>) -> Seq<char> {
    "{{"@ + key + "}}"@
}

/// Substitutes the variables in order: each `{{key}}` of the text is replaced
/// by its value, one variable after the other.
pub open spec fn substitute_seq(text: Seq<char>, vars: Seq<(Seq<char>, Seq<char>)>) -> Seq<char>
    decreases vars.len(),
{
    if vars.len() == 0 {
        text
    } else {
        substitute_seq(
            replace_all(text, var_pattern(vars[0].0), vars[0].1),
            vars.drop_first(),
        )
    }
}

/// The value of the first variable named `k`, if any.
pub open spec fn lookup(vars: Seq<(Seq<char>, Seq<char>)>, k: Seq<char>) -> Option<Seq<char>>
    decreases vars.len(),
{
    if vars.len() == 0 {
        None
    } else if vars[0].0 == k {
        Some(vars[0].1)
    } else {
        lookup(vars.drop_first(), k)
    }
}

/// The variable names are strictly increasing (hence distinct).
pub open spec fn keys_sorted(vars: Seq<(Seq<char>, Seq<char>)>) -> bool {
    forall|i: int, j: int| 0 <= i < j < vars.len() ==> lex_lt(#[trigger] vars[i].0, #[trigger] vars[j].0)
}

pub proof fn lemma_lookup_at(vars: Seq<(Seq<char>, Seq<char>)>, i: int)
    requires
        keys_sorted(vars),
        0 <= i < vars.len(),
    ensures
        lookup(vars, vars[i].0) == Some(vars[i].1),
    decreases vars.len(),
{
    if i > 0 {
        lemma_lex_lt_irreflexive(vars[i].0);
        assert(lex_lt(vars[0].0, vars[i].0));
        let rest = vars.drop_first();
        assert forall|a: int, b: int| 0 <= a < b < rest.len() implies lex_lt(
            #[trigger] rest[a].0,
            #[trigger] rest[b].0,
        ) by {
            assert(rest[a] == vars[a + 1]);
            assert(rest[b] == vars[b + 1]);
        }
        lemma_lookup_at(rest, i - 1);
    }
}

pub proof fn lemma_lookup_absent(vars: Seq<(Seq<char>, Seq<char>)>, k: Seq<char>)
    requires
        forall|i: int| 0 <= i < vars.len() ==> vars[i].0 != k,
    ensures
        lookup(vars, k) is None,
    decreases vars.len(),
{
    if vars.len() > 0 {
        let rest = vars.drop_first();
        assert forall|i: int| 0 <= i < rest.len() implies rest[i].0 != k by {
            assert(rest[i] == vars[i + 1]);
        }
        lemma_lookup_absent(rest, k);
    }
}

/// In a sorted list the lookup of any name is determined by the entries.
pub proof fn lemma_lookup_sorted(vars: Seq<(Seq<char>, Seq<char>)>, k: Seq<char>)
    requires
        keys_sorted(vars),
    ensures
        (exists|i: int| 0 <= i < vars.len() && vars[i].0 == k) ==> (lookup(vars, k) matches Some(
            v,
        ) && exists|i: int| 0 <= i < vars.len() && vars[i].0 == k && vars[i].1 == v),
        (forall|i: int| 0 <= i < vars.len() ==> vars[i].0 != k) ==> lookup(vars, k) is None,
{
    if exists|i: int| 0 <= i < vars.len() && vars[i].0 == k {
        let i = choose|i: int| 0 <= i < vars.len() && vars[i].0 == k;
        lemma_lookup_at(vars, i);
    } else {
        lemma_lookup_absent(vars, k);
    }
}

/// A named set of variables. The variables are kept sorted by name, so that
/// each name occurs once and listing them is stable.
#[derive(Debug)]
pub struct Environment {
    pub name: String,
    pub variables: Vec<(String, String)>,
}

impl Environment {
    /// The variables as (name, value) character sequences.
    pub open spec fn vars(&self) -> Seq<(Seq<char>, Seq<char>)> {
        pairs_view(self.variables@)
    }

    /// The variables are sorted by name, each name once.
    pub open spec fn wf(&self) -> bool {
        keys_sorted(self.vars())
    }

    /// An environment without variables.
    pub fn new(name: String) -> (e: Environment)
        ensures
            e.name@ == name@,
            e.vars() == Seq::<(Seq<char>, Seq<char>)>::empty(),
            e.wf(),
    {
        let e = Environment { name, variables: Vec::new() };
        assert(e.vars() =~= Seq::<(Seq<char>, Seq<char>)>::empty());
        e
    }

    /// Sets variable `key` to `value`, replacing an earlier value.
    pub fn set_variable(&mut self, key: String, value: String)
        requires
            old(self).wf(),
        ensures
            final(self).wf(),
            final(self).name == old(self).name,
            forall|k: Seq<char>| #[trigger]
                lookup(final(self).vars(), k) == if k == key@ {
                    Some(value@)
                } else {
                    lookup(old(self).vars(), k)
                },
    {
        let ghost old_vars = self.vars();
        let n = self.variables.len();
        let mut i: usize = 0;
        while i < n && str_lt(self.variables[i].0.as_str(), key.as_str())
            invariant
                n == self.variables@.len(),
                self.vars() == old_vars,
                i <= n,
                forall|j: int| 0 <= j < i ==> lex_lt(#[trigger] old_vars[j].0, key@),
            decreases n - i,
        {
            i += 1;
        }
        proof {
            assert(keys_sorted(old_vars));
        }
        if i < n && str_eq(self.variables[i].0.as_str(), key.as_str()) {
            let ghost old_key = old_vars[i as int].0;
            let name = self.variables[i].0.clone();
            self.variables.set(i, (name, value));
            proof {
                let nv = self.vars();
                assert(nv =~= old_vars.update(i as int, (key@, value@)));
                assert(keys_sorted(nv)) by {
                    assert forall|a: int, b: int| 0 <= a < b < nv.len() implies lex_lt(
                        #[trigger] nv[a].0,
                        #[trigger] nv[b].0,
                    ) by {
                        assert(nv[a].0 == old_vars[a].0);
                        assert(nv[b].0 == old_vars[b].0);
                    }
                }
                assert forall|k: Seq<char>| #[trigger]
                    lookup(nv, k) == if k == key@ {
                        Some(value@)
                    } else {
                        lookup(old_vars, k)
                    } by {
                    lemma_lookup_sorted(nv, k);
                    lemma_lookup_sorted(old_vars, k);
                    if k == key@ {
                        lemma_lookup_at(nv, i as int);
                    } else {
                        if exists|j: int| 0 <= j < old_vars.len() && old_vars[j].0 == k {
                            let j = choose|j: int| 0 <= j < old_vars.len() && old_vars[j].0 == k;
                            lemma_lookup_at(old_vars, j);
                            lemma_lookup_at(nv, j);
                        } else {
                            assert forall|j: int| 0 <= j < nv.len() implies nv[j].0 != k by {}
                        }
                    }
                }
            }
        } else {
            proof {
                if i < n {
                    lemma_lex_lt_trichotomy(old_vars[i as int].0, key@);
                }
            }
            self.variables.insert(i, (key, value));
            proof {
                let nv = self.vars();
                assert(nv =~= old_vars.insert(i as int, (key@, value@)));
                assert(keys_sorted(nv)) by {
                    assert forall|a: int, b: int| 0 <= a < b < nv.len() implies lex_lt(
                        #[trigger] nv[a].0,
                        #[trigger] nv[b].0,
                    ) by {
                        if b < i {
                            assert(nv[a] == old_vars[a]);
                            assert(nv[b] == old_vars[b]);
                        } else if b == i {
                            assert(nv[a] == old_vars[a]);
                        } else if a == i {
                            assert(nv[b] == old_vars[b - 1]);
                            if b - 1 > i {
                                lemma_lex_lt_transitive(key@, old_vars[i as int].0, old_vars[b - 1].0);
                            }
                        } else if a < i {
                            assert(nv[a] == old_vars[a]);
                            assert(nv[b] == old_vars[b - 1]);
                        } else {
                            assert(nv[a] == old_vars[a - 1]);
                            assert(nv[b] == old_vars[b - 1]);
                        }
                    }
                }
                assert forall|k: Seq<char>| #[trigger]
                    lookup(nv, k) == if k == key@ {
                        Some(value@)
                    } else {
                        lookup(old_vars, k)
                    } by {
                    lemma_lookup_sorted(nv, k);
                    lemma_lookup_sorted(old_vars, k);
                    if k == key@ {
                        lemma_lookup_at(nv, i as int);
                    } else {
                        if exists|j: int| 0 <= j < old_vars.len() && old_vars[j].0 == k {
                            let j = choose|j: int| 0 <= j < old_vars.len() && old_vars[j].0 == k;
                            lemma_lookup_at(old_vars, j);
                            if j < i {
                                assert(nv[j] == old_vars[j]);
                                lemma_lookup_at(nv, j);
                            } else {
                                assert(nv[j + 1] == old_vars[j]);
                                lemma_lookup_at(nv, j + 1);
                            }
                        } else {
                            assert forall|j: int| 0 <= j < nv.len() implies nv[j].0 != k by {
                                if j < i {
                                    assert(nv[j] == old_vars[j]);
                                } else if j > i {
                                    assert(nv[j] == old_vars[j - 1]);
                                }
                            }
                        }
                    }
                }
            }
        }
    }

    /// Removes variable `key`, if present.
    pub fn remove_variable(&mut self, key: &str)
        requires
            old(self).wf(),
        ensures
            final(self).wf(),
            final(self).name == old(self).name,
            forall|k: Seq<char>| #[trigger]
                lookup(final(self).vars(), k) == if k == key@ {
                    None
                } else {
                    lookup(old(self).vars(), k)
                },
    {
        let ghost old_vars = self.vars();
        let n = self.variables.len();
        let mut i: usize = 0;
        while i < n && !str_eq(self.variables[i].0.as_str(), key)
            invariant
                n == self.variables@.len(),
                self.vars() == old_vars,
                i <= n,
                forall|j: int| 0 <= j < i ==> (#[trigger] old_vars[j]).0 != key@,
            decreases n - i,
        {
            i += 1;
        }
        if i < n {
            proof {
                assert(old_vars[i as int].0 == key@);
                assert(keys_sorted(old_vars));
            }
            self.variables.remove(i);
            proof {
                let nv = self.vars();
                assert(nv =~= old_vars.remove(i as int));
                assert(keys_sorted(nv)) by {
                    assert forall|a: int, b: int| 0 <= a < b < nv.len() implies lex_lt(
                        #[trigger] nv[a].0,
                        #[trigger] nv[b].0,
                    ) by {
                        if b < i {
                            assert(nv[a] == old_vars[a]);
                            assert(nv[b] == old_vars[b]);
                        } else if a < i {
                            assert(nv[a] == old_vars[a]);
                            assert(nv[b] == old_vars[b + 1]);
                        } else {
                            assert(nv[a] == old_vars[a + 1]);
                            assert(nv[b] == old_vars[b + 1]);
                        }
                    }
                }
                assert forall|k: Seq<char>| #[trigger]
                    lookup(nv, k) == if k == key@ {
                        None
                    } else {
                        lookup(old_vars, k)
                    } by {
                    lemma_lookup_sorted(nv, k);
                    lemma_lookup_sorted(old_vars, k);
                    if k == key@ {
                        assert forall|j: int| 0 <= j < nv.len() implies nv[j].0 != k by {
                            lemma_lex_lt_irreflexive(k);
                            if j < i {
                                assert(nv[j] == old_vars[j]);
                                assert(lex_lt(old_vars[j].0, old_vars[i as int].0));
                            } else {
                                assert(nv[j] == old_vars[j + 1]);
                                assert(lex_lt(old_vars[i as int].0, old_vars[j + 1].0));
                            }
                        }
                    } else {
                        if exists|j: int| 0 <= j < old_vars.len() && old_vars[j].0 == k {
                            let j = choose|j: int| 0 <= j < old_vars.len() && old_vars[j].0 == k;
                            lemma_lookup_at(old_vars, j);
                            if j < i {
                                assert(nv[j] == old_vars[j]);
                                lemma_lookup_at(nv, j);
                            } else {
                                assert(nv[j - 1] == old_vars[j]);
                                lemma_lookup_at(nv, j - 1);
                            }
                        } else {
                            assert forall|j: int| 0 <= j < nv.len() implies nv[j].0 != k by {
                                if j < i {
                                    assert(nv[j] == old_vars[j]);
                                } else {
                                    assert(nv[j] == old_vars[j + 1]);
                                }
                            }
                        }
                    }
                }
            }
        } else {
            proof {
                assert forall|k: Seq<char>| #[trigger]
                    lookup(old_vars, k) == if k == key@ {
                        None
                    } else {
                        lookup(old_vars, k)
                    } by {
                    if k == key@ {
                        lemma_lookup_absent(old_vars, k);
                    }
                }
            }
        }
    }

    /// The value of variable `key`, if set.
    pub fn get_variable(&self, key: &str) -> (r: Option<String>)
        requires
            self.wf(),
        ensures
            match r {
                Some(v) => lookup(self.vars(), key@) == Some(v@),
                None => lookup(self.vars(), key@) is None,
            },
    {
        let n = self.variables.len();
        let mut i: usize = 0;
        while i < n
            invariant
                n == self.variables@.len(),
                self.wf(),
                i <= n,
                forall|j: int| 0 <= j < i ==> (#[trigger] self.vars()[j]).0 != key@,
            decreases n - i,
        {
            if str_eq(self.variables[i].0.as_str(), key) {
                proof {
                    lemma_lookup_at(self.vars(), i as int);
                }
                return Some(self.variables[i].1.clone());
            }
            i += 1;
        }
        proof {
            lemma_lookup_absent(self.vars(), key@);
        }
        None
    }

    /// Whether the variables are sorted by name, each name once.
    pub fn check_sorted(&self) -> (b: bool)
        ensures
            b == self.wf(),
    {
        let n = self.variables.len();
        if n == 0 {
            return true;
        }
        let ghost vs = self.vars();
        let mut k: usize = 0;
        while k + 1 < n
            invariant
                n == self.variables@.len(),
                vs == self.vars(),
                k < n,
                keys_sorted(vs.take(k + 1)),
            decreases n - k,
        {
            if !str_lt(self.variables[k].0.as_str(), self.variables[k + 1].0.as_str()) {
                assert(!keys_sorted(vs)) by {
                    if keys_sorted(vs) {
                        assert(lex_lt(vs[k as int].0, vs[k + 1].0));
                    }
                }
                return false;
            }
            proof {
                let t = vs.take(k + 2);
                assert forall|i: int, j: int| 0 <= i < j < t.len() implies lex_lt(#[trigger] t[i].0, #[trigger] t[j].0) by {
                    if j < k + 1 {
                        assert(t[i] == vs.take(k + 1)[i] && t[j] == vs.take(k + 1)[j]);
                    } else if i < k {
                        assert(t[i] == vs.take(k + 1)[i] && vs.take(k + 1)[k as int] == vs[k as int]);
                        lemma_lex_lt_transitive(t[i].0, vs[k as int].0, vs[k + 1].0);
                    }
                }
            }
            k += 1;
        }
        assert(vs.take(n as int) =~= vs);
        true
    }

    /// The variable names, sorted.
    pub fn sorted_keys(&self) -> (keys: Vec<String>)
        requires
            self.wf(),
        ensures
            keys@.len() == self.vars().len(),
            forall|i: int| 0 <= i < keys@.len() ==> (#[trigger] keys@[i])@ == self.vars()[i].0,
            forall|i: int, j: int|
                0 <= i < j < keys@.len() ==> lex_lt(#[trigger] keys@[i]@, #[trigger] keys@[j]@),
    {
        let mut keys: Vec<String> = Vec::new();
        let n = self.variables.len();
        let mut i: usize = 0;
        while i < n
            invariant
                n == self.variables@.len(),
                i <= n,
                keys@.len() == i,
                forall|j: int| 0 <= j < i ==> (#[trigger] keys@[j])@ == self.vars()[j].0,
            decreases n - i,
        {
            keys.push(self.variables[i].0.clone());
            i += 1;
        }
        keys
    }

    /// An environment holding the given pairs; where a name occurs twice the
    /// later value wins.
    pub fn from_pairs(name: String, pairs: Vec<(String, String)>) -> (e: Environment)
        ensures
            e.wf(),
            e.name@ == name@,
            forall|k: Seq<char>| #[trigger]
                lookup(e.vars(), k) == lookup(pairs_view(pairs@).reverse(), k),
    {
        let mut e = Environment::new(name);
        let ghost pv = pairs_view(pairs@);
        let mut pairs = pairs;
        let mut i: usize = 0;
        let n = pairs.len();
        assert(pv.take(0).reverse() =~= Seq::<(Seq<char>, Seq<char>)>::empty());
        while i < n
            invariant
                n == pairs@.len(),
                pv == pairs_view(pairs@),
                i <= n,
                e.wf(),
                e.name@ == name@,
                forall|k: Seq<char>| #[trigger]
                    lookup(e.vars(), k) == lookup(pv.take(i as int).reverse(), k),
            decreases n - i,
        {
            let k = pairs[i].0.clone();
            let v = pairs[i].1.clone();
            let ghost before = e.vars();
            e.set_variable(k, v);
            proof {
                let t = pv.take(i + 1).reverse();
                assert(t =~= seq![pv[i as int]] + pv.take(i as int).reverse());
                assert(t.drop_first() =~= pv.take(i as int).reverse());
                assert forall|key: Seq<char>| #[trigger]
                    lookup(e.vars(), key) == lookup(pv.take(i + 1).reverse(), key) by {
                    assert(lookup(before, key) == lookup(pv.take(i as int).reverse(), key));
                }
            }
            i += 1;
        }
        assert(pv.take(n as int) =~= pv);
        e
    }
}

/// The list of environments.
#[derive(Debug)]
pub struct Environments {
    pub items: Vec<Environment>,
}

impl Default for Environments {
    fn default() -> (r: Self)
        ensures
            r.items@.len() == 0,
    {
        Environments { items: Vec::new() }
    }
}

impl Environments {
    /// Every environment keeps its variables sorted by name.
    pub open spec fn all_wf(&self) -> bool {
        forall|i: int| 0 <= i < self.items@.len() ==> (#[trigger] self.items@[i]).wf()
    }

    /// Whether every environment keeps its variables sorted by name.
    pub fn check_wf(&self) -> (b: bool)
        ensures
            b == self.all_wf(),
    {
        let mut i: usize = 0;
        while i < self.items.len()
            invariant
                i <= self.items@.len(),
                forall|j: int| 0 <= j < i ==> (#[trigger] self.items@[j]).wf(),
            decreases self.items.len() - i,
        {
            if !self.items[i].check_sorted() {
                assert(!self.items@[i as int].wf());
                return false;
            }
            i += 1;
        }
        true
    }

    /// Appends a new, empty environment.
    pub fn add_environment(&mut self, name: String)
        ensures
            final(self).items@.len() == old(self).items@.len() + 1,
            final(self).items@.subrange(0, old(self).items@.len() as int) == old(self).items@,
            final(self).items@.last().name@ == name@,
            final(self).items@.last().vars().len() == 0,
            final(self).items@.last().wf(),
    {
        self.items.push(Environment::new(name));
        assert(self.items@.subrange(0, old(self).items@.len() as int) =~= old(self).items@);
    }

    /// Removes the environment at `index`; does nothing when out of range.
    pub fn remove_environment(&mut self, index: usize)
        ensures
            final(self).items@ == if index < old(self).items@.len() {
                old(self).items@.remove(index as int)
            } else {
                old(self).items@
            },
    {
        if index < self.items.len() {
            self.items.remove(index);
        }
    }
}

/// Replaces every `{{key}}` in `text` by the variable's value; names that the
/// environment does not hold stay as they are.
pub fn substitute_variables(text: &str, env: &Environment) -> (r: String)
    ensures
        r@ == substitute_seq(text@, env.vars()),
{
    let mut result = text.to_string();
    let n = env.variables.len();
    let mut i: usize = 0;
    assert(env.vars().skip(0) =~= env.vars());
    while i < n
        invariant
            n == env.variables@.len(),
            i <= n,
            substitute_seq(text@, env.vars()) == substitute_seq(result@, env.vars().skip(i as int)),
        decreases n - i,
    {
        let pattern = concat3("{{", env.variables[i].0.as_str(), "}}");
        proof {
            reveal_strlit("{{");
            reveal_strlit("}}");
        }
        let ghost rest = env.vars().skip(i as int);
        assert(rest.drop_first() =~= env.vars().skip(i + 1));
        assert(rest[0] == env.vars()[i as int]);
        result = replace(result.as_str(), pattern.as_str(), env.variables[i].1.as_str());
        i += 1;
    }
    assert(env.vars().skip(n as int) =~= Seq::<(Seq<char>, Seq<char>)>::empty());
    result
}

} // verus!
