use vstd::prelude::*;
use vstd::string::StringExecFns;

verus! {

/// A define table: (name, value) pairs, each name at most once, in insertion order.
pub open spec fn distinct_names(d: Seq<(Seq<char>, Seq<char>)>) -> bool {
    forall|i: int, j: int| 0 <= i < j < d.len() ==> #[trigger] d[i].0 != #[trigger] d[j].0
}

/// The position of `name` in the table, or -1.
pub open spec fn name_index(d: Seq<(Seq<char>, Seq<char>)>, name: Seq<char>) -> int {
    if exists|i: int| 0 <= i < d.len() && #[trigger] d[i].0 == name {
        choose|i: int| 0 <= i < d.len() && #[trigger] d[i].0 == name
    } else {
        -1
    }
}

/// The value defined for `name`.
pub open spec fn lookup(d: Seq<(Seq<char>, Seq<char>)>, name: Seq<char>) -> Option<Seq<char>> {
    let i = name_index(d, name);
    if i >= 0 {
        Some(d[i].1)
    } else {
        None
    }
}

/// The table after defining `name` as `v` (`None`: undefining it). A new name goes last; a
/// redefined one keeps its place.
pub open spec fn apply_define(
    d: Seq<(Seq<char>, Seq<char>)>,
    name: Seq<char>,
    v: Option<Seq<char>>,
) -> Seq<(Seq<char>, Seq<char>)> {
    let i = name_index(d, name);
    match v {
        Some(val) => if i < 0 {
            d.push((name, val))
        } else if d[i].1 == val {
            d
        } else {
            d.update(i, (name, val))
        },
        None => if i < 0 {
            d
        } else {
            d.remove(i)
        },
    }
}

pub open spec fn bool_value(v: bool) -> Option<Seq<char>> {
    if v {
        Some("1"@)
    } else {
        None
    }
}

pub open spec fn opt_view(v: Option<String>) -> Option<Seq<char>> {
    match v {
        Some(s) => Some(s@),
        None => None,
    }
}

/// The table after a run of boolean defines, applied in order.
pub open spec fn apply_all(d: Seq<(Seq<char>, Seq<char>)>, steps: Seq<(Seq<char>, bool)>) -> Seq<
    (Seq<char>, Seq<char>),
>
    decreases steps.len(),
{
    if steps.len() == 0 {
        d
    } else {
        let prev = apply_all(d, steps.drop_last());
        apply_define(prev, steps.last().0, bool_value(steps.last().1))
    }
}

/// Whether any of the run's defines changed the table when applied.
pub open spec fn any_change(d: Seq<(Seq<char>, Seq<char>)>, steps: Seq<(Seq<char>, bool)>) -> bool
    decreases steps.len(),
{
    if steps.len() == 0 {
        false
    } else {
        let prev = apply_all(d, steps.drop_last());
        any_change(d, steps.drop_last()) || lookup(prev, steps.last().0) != bool_value(
            steps.last().1,
        )
    }
}

/// The text the defines contribute to a preprocessed shader: `#define NAME VALUE` lines in table
/// order.
pub open spec fn defines_text(d: Seq<(Seq<char>, Seq<char>)>) -> Seq<char>
    decreases d.len(),
{
    if d.len() == 0 {
        Seq::empty()
    } else {
        defines_text(d.drop_last()) + "#define "@ + d.last().0 + " "@ + d.last().1 + "\n"@
    }
}

/// The define-table facts the methods rely on: where a name sits, and what a lookup gives after a
/// define.
proof fn lemma_index_is(d: Seq<(Seq<char>, Seq<char>)>, name: Seq<char>, i: int)
    requires
        distinct_names(d),
        0 <= i < d.len(),
        d[i].0 == name,
    ensures
        name_index(d, name) == i,
{
    let j = name_index(d, name);
    assert(0 <= j < d.len() && d[j].0 == name);
    if j != i {
        if j < i {
            assert(d[j].0 != d[i].0);
        } else {
            assert(d[i].0 != d[j].0);
        }
    }
}

proof fn lemma_index_absent(d: Seq<(Seq<char>, Seq<char>)>, name: Seq<char>)
    requires
        forall|i: int| 0 <= i < d.len() ==> #[trigger] d[i].0 != name,
    ensures
        name_index(d, name) == -1,
{
}

proof fn lemma_index_range(d: Seq<(Seq<char>, Seq<char>)>, name: Seq<char>)
    ensures
        name_index(d, name) == -1 || (0 <= name_index(d, name) < d.len() && d[name_index(
            d,
            name,
        )].0 == name),
        name_index(d, name) == -1 ==> forall|i: int| 0 <= i < d.len() ==> #[trigger] d[i].0 != name,
{
}

/// Defining a name changes what that name reads and nothing else, and keeps names distinct.
pub proof fn law_define_read_after_write(
    d: Seq<(Seq<char>, Seq<char>)>,
    name: Seq<char>,
    v: Option<Seq<char>>,
    other: Seq<char>,
)
    requires
        distinct_names(d),
    ensures
        distinct_names(apply_define(d, name, v)),
        lookup(apply_define(d, name, v), name) == v,
        other != name ==> lookup(apply_define(d, name, v), other) == lookup(d, other),
{
    let i = name_index(d, name);
    lemma_index_range(d, name);
    lemma_index_range(d, other);
    let n = apply_define(d, name, v);
    let o = name_index(d, other);
    match v {
        Some(val) => {
            if i < 0 {
                assert(n == d.push((name, val)));
                lemma_index_is(n, name, d.len() as int);
                if other != name {
                    if o >= 0 {
                        lemma_index_is(n, other, o);
                    } else {
                        assert forall|k: int| 0 <= k < n.len() implies #[trigger] n[k].0 != other by {
                            if k < d.len() {
                                assert(n[k] == d[k]);
                            }
                        }
                        lemma_index_absent(n, other);
                    }
                }
            } else if d[i].1 == val {
            } else {
                lemma_index_is(n, name, i);
                if other != name {
                    if o >= 0 {
                        lemma_index_is(n, other, o);
                    } else {
                        assert forall|k: int| 0 <= k < n.len() implies #[trigger] n[k].0 != other by {
                            if k != i {
                                assert(n[k] == d[k]);
                            }
                        }
                        lemma_index_absent(n, other);
                    }
                }
            }
        },
        None => {
            if i < 0 {
            } else {
                assert(n == d.remove(i));
                assert forall|k: int| 0 <= k < n.len() implies #[trigger] n[k].0 != name by {
                    if k < i {
                        assert(n[k] == d[k]);
                        assert(d[k].0 != d[i].0);
                    } else {
                        assert(n[k] == d[k + 1]);
                        assert(d[i].0 != d[k + 1].0);
                    }
                }
                lemma_index_absent(n, name);
                if other != name {
                    if o >= 0 {
                        if o < i {
                            assert(n[o] == d[o]);
                            lemma_index_is(n, other, o);
                        } else {
                            assert(o != i);
                            assert(n[o - 1] == d[o]);
                            lemma_index_is(n, other, o - 1);
                        }
                    } else {
                        assert forall|k: int| 0 <= k < n.len() implies #[trigger] n[k].0 != other by {
                            if k < i {
                                assert(n[k] == d[k]);
                            } else {
                                assert(n[k] == d[k + 1]);
                            }
                        }
                        lemma_index_absent(n, other);
                    }
                }
            }
        },
    }
}

/// No name is defined twice in a run.
pub open spec fn step_names_distinct(steps: Seq<(Seq<char>, bool)>) -> bool {
    forall|i: int, j: int| 0 <= i < j < steps.len() ==> #[trigger] steps[i].0 != #[trigger] steps[j].0
}

/// After a run of defines with distinct names, each name reads what the run set it to.
pub proof fn law_defines_read_back(d: Seq<(Seq<char>, Seq<char>)>, steps: Seq<(Seq<char>, bool)>, j: int)
    requires
        distinct_names(d),
        step_names_distinct(steps),
        0 <= j < steps.len(),
    ensures
        distinct_names(apply_all(d, steps)),
        lookup(apply_all(d, steps), steps[j].0) == bool_value(steps[j].1),
    decreases steps.len(),
{
    let prev = apply_all(d, steps.drop_last());
    lemma_apply_all_distinct(d, steps.drop_last());
    law_define_read_after_write(prev, steps.last().0, bool_value(steps.last().1), steps[j].0);
    if j < steps.len() - 1 {
        assert(steps[j].0 != steps[steps.len() - 1].0);
        law_defines_read_back(d, steps.drop_last(), j);
    }
}

proof fn lemma_apply_all_distinct(d: Seq<(Seq<char>, Seq<char>)>, steps: Seq<(Seq<char>, bool)>)
    requires
        distinct_names(d),
    ensures
        distinct_names(apply_all(d, steps)),
    decreases steps.len(),
{
    if steps.len() > 0 {
        lemma_apply_all_distinct(d, steps.drop_last());
        law_define_read_after_write(
            apply_all(d, steps.drop_last()),
            steps.last().0,
            bool_value(steps.last().1),
            steps.last().0,
        );
    }
}

/// Whether `name` is defined at all.
pub open spec fn defined(d: Seq<(Seq<char>, Seq<char>)>, name: Seq<char>) -> bool {
    lookup(d, name) is Some
}

/// `name` is a boolean define: undefined, or defined as "1".
pub open spec fn bool_defined(d: Seq<(Seq<char>, Seq<char>)>, name: Seq<char>) -> bool {
    lookup(d, name) is Some ==> lookup(d, name) == Some("1"@)
}

/// A shader program's define table: (name, value) pairs, each name at most once, in the order
/// the names were first defined.
pub struct DefineTable {
    entries: Vec<(String, String)>,
}

impl View for DefineTable {
    type V = Seq<(Seq<char>, Seq<char>)>;

    closed spec fn view(&self) -> Seq<(Seq<char>, Seq<char>)> {
        self.entries@.map_values(|p: (String, String)| (p.0@, p.1@))
    }
}

impl DefineTable {
    pub open spec fn wf(&self) -> bool {
        distinct_names(self@)
    }

    pub fn new() -> (t: DefineTable)
        ensures
            t.wf(),
            t@ == Seq::<(Seq<char>, Seq<char>)>::empty(),
    {
        let t = DefineTable { entries: Vec::new() };
        assert(t@ =~= Seq::<(Seq<char>, Seq<char>)>::empty());
        t
    }

    fn find(&self, name: &String) -> (r: Option<usize>)
        requires
            self.wf(),
        ensures
            match r {
                Some(i) => i == name_index(self@, name@),
                None => name_index(self@, name@) == -1,
            },
    {
        let ghost d = self@;
        let mut i: usize = 0;
        while i < self.entries.len()
            invariant
                i <= self.entries@.len(),
                d == self@,
                distinct_names(d),
                forall|j: int| 0 <= j < i ==> #[trigger] d[j].0 != name@,
            decreases self.entries@.len() - i,
        {
            if self.entries[i].0 == *name {
                proof {
                    lemma_index_is(d, name@, i as int);
                }
                return Some(i);
            }
            i = i + 1;
        }
        proof {
            lemma_index_absent(d, name@);
        }
        None
    }

    /// Define `name` as `v`, or undefine it for `None`; true when that changed the table.
    pub fn set(&mut self, name: String, v: Option<String>) -> (changed: bool)
        requires
            old(self).wf(),
        ensures
            final(self).wf(),
            final(self)@ == apply_define(old(self)@, name@, opt_view(v)),
            changed == (lookup(old(self)@, name@) != opt_view(v)),
    {
        let ghost d = self@;
        proof {
            law_define_read_after_write(d, name@, opt_view(v), name@);
            lemma_index_range(d, name@);
        }
        let found = self.find(&name);
        match v {
            Some(val) => {
                match found {
                    Some(i) => {
                        if self.entries[i].1 == val {
                            return false;
                        }
                        self.entries.set(i, (name, val));
                        assert(self@ =~= d.update(i as int, (self.entries@[i as int].0@, self.entries@[i as int].1@)));
                    },
                    None => {
                        self.entries.push((name, val));
                        assert(self@ =~= d.push((self.entries@.last().0@, self.entries@.last().1@)));
                    },
                }
            },
            None => {
                match found {
                    Some(i) => {
                        self.entries.remove(i);
                        assert(self@ =~= d.remove(i as int));
                    },
                    None => {
                        return false;
                    },
                }
            },
        }
        true
    }

    /// The value defined for `name`, if any.
    pub fn get(&self, name: &str) -> (r: Option<&String>)
        requires
            self.wf(),
        ensures
            match r {
                Some(s) => lookup(self@, name@) == Some(s@),
                None => lookup(self@, name@) is None,
            },
    {
        let key = name.to_owned();
        match self.find(&key) {
            Some(i) => Some(&self.entries[i].1),
            None => None,
        }
    }

    /// The (name, value) pairs, in order.
    pub fn entries(&self) -> (r: &Vec<(String, String)>)
        ensures
            r@.map_values(|p: (String, String)| (p.0@, p.1@)) == self@,
    {
        &self.entries
    }

    /// The `#define NAME VALUE` lines, in table order.
    pub fn text(&self) -> (r: String)
        ensures
            r@ == defines_text(self@),
    {
        let ghost d = self@;
        let mut out = String::new();
        let mut i: usize = 0;
        assert(d.take(0) =~= Seq::<(Seq<char>, Seq<char>)>::empty());
        while i < self.entries.len()
            invariant
                i <= self.entries@.len(),
                d == self@,
                out@ == defines_text(d.take(i as int)),
            decreases self.entries@.len() - i,
        {
            let ghost before = out@;
            out.append("#define ");
            out.append(self.entries[i].0.as_str());
            out.append(" ");
            out.append(self.entries[i].1.as_str());
            out.append("\n");
            proof {
                assert(d.take(i + 1).drop_last() =~= d.take(i as int));
                assert(d.take(i + 1).last() == d[i as int]);
                assert(out@ =~= before + "#define "@ + d[i as int].0 + " "@ + d[i as int].1 + "\n"@);
            }
            i = i + 1;
        }
        assert(d.take(i as int) =~= d);
        out
    }
}

} // verus!
