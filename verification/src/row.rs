//! One fetched row: its values, found by column name.
use crate::order::{
    lemma_precedes_asymmetric, lemma_precedes_irreflexive, lemma_precedes_transitive, place,
    precedes, Place,
};
use crate::text::chars_of;
use crate::value::{Value, ValueView};
use vstd::prelude::*;
use vstd::string::*;

verus! {

/// A column of a row: its name and its value.
#[derive(Clone, Debug, PartialEq)]
pub struct Column {
    pub name: String,
    pub value: Value,
}

/// Whether each column stands before all that follow it, by name. Then no name
/// occurs twice.
pub open spec fn sorted(columns: Seq<Column>) -> bool {
    forall|i: int, j: int|
        0 <= i < j < columns.len() ==> precedes(
            (#[trigger] columns[i]).name@,
            (#[trigger] columns[j]).name@,
        )
}

/// Whether a column of that name is among `columns`.
pub open spec fn holds(columns: Seq<Column>, name: Seq<char>) -> bool {
    exists|i: int| 0 <= i < columns.len() && (#[trigger] columns[i]).name@ == name
}

/// The mapping from names to values that `columns` stand for.
pub open spec fn map_of(columns: Seq<Column>) -> Map<Seq<char>, ValueView> {
    Map::new(
        |name: Seq<char>| holds(columns, name),
        |name: Seq<char>|
            columns[choose|i: int|
                0 <= i < columns.len() && (#[trigger] columns[i]).name@ == name].value@,
    )
}

/// In sorted columns each name leads to the value that stands beside it.
pub proof fn lemma_map_of_at(columns: Seq<Column>, i: int)
    requires
        sorted(columns),
        0 <= i < columns.len(),
    ensures
        map_of(columns).contains_key(columns[i].name@),
        map_of(columns)[columns[i].name@] == columns[i].value@,
{
    let name = columns[i].name@;
    let k = choose|k: int| 0 <= k < columns.len() && (#[trigger] columns[k]).name@ == name;
    lemma_precedes_irreflexive(name);
    if k < i {
        assert(precedes(columns[k].name@, columns[i].name@));
    } else if i < k {
        assert(precedes(columns[i].name@, columns[k].name@));
    }
}

/// A row: a mapping from column names to values, kept in the order of the names.
#[derive(Clone, Debug, PartialEq)]
pub struct Row {
    columns: Vec<Column>,
}

impl View for Row {
    type V = Map<Seq<char>, ValueView>;

    open spec fn view(&self) -> Map<Seq<char>, ValueView> {
        map_of(self.cols())
    }
}

impl Row {
    /// The columns, in the order in which the row keeps them.
    pub closed spec fn cols(&self) -> Seq<Column> {
        self.columns@
    }

    /// Whether the columns stand in the order of their names.
    pub open spec fn wf(&self) -> bool {
        sorted(self.cols())
    }

    /// The row without columns.
    pub fn new() -> (r: Row)
        ensures
            r.wf(),
            r.cols().len() == 0,
            r@ == Map::<Seq<char>, ValueView>::empty(),
    {
        let r = Row { columns: Vec::new() };
        assert(r@ =~= Map::<Seq<char>, ValueView>::empty());
        r
    }

    /// The columns, in the order of their names.
    pub fn columns(&self) -> (r: &Vec<Column>)
        ensures
            r@ == self.cols(),
    {
        &self.columns
    }

    /// How many columns the row has.
    pub fn len(&self) -> (n: usize)
        ensures
            n == self.cols().len(),
    {
        self.columns.len()
    }

    /// The value of the column `name`, if the row has such a column.
    pub fn get(&self, name: &str) -> (r: Option<&Value>)
        requires
            self.wf(),
        ensures
            match r {
                Some(value) => self@.contains_key(name@) && value@ == self@[name@],
                None => !self@.contains_key(name@),
            },
    {
        let key = chars_of(name);
        let mut at: usize = 0;
        while at < self.columns.len()
            invariant
                at <= self.columns.len(),
                key@ == name@,
                sorted(self.columns@),
                forall|i: int| 0 <= i < at ==> (#[trigger] self.columns@[i]).name@ != name@,
            decreases self.columns.len() - at,
        {
            let here = chars_of(self.columns[at].name.as_str());
            match place(&key, &here) {
                Place::Same => {
                    proof {
                        lemma_map_of_at(self.columns@, at as int);
                    }
                    return Some(&self.columns[at].value);
                },
                Place::Before => {
                    proof {
                        lemma_precedes_irreflexive(name@);
                        assert forall|i: int| 0 <= i < self.columns@.len() implies (
                        #[trigger] self.columns@[i]).name@ != name@ by {
                            if i > at {
                                assert(precedes(
                                    self.columns@[at as int].name@,
                                    self.columns@[i].name@,
                                ));
                                lemma_precedes_transitive(
                                    name@,
                                    self.columns@[at as int].name@,
                                    self.columns@[i].name@,
                                );
                            }
                        }
                    }
                    return None;
                },
                Place::After => {
                    proof {
                        lemma_precedes_irreflexive(name@);
                    }
                },
            }
            at += 1;
        }
        None
    }

    /// Gives the column `name` the value `value`. A column of that name that is
    /// there already loses its value to the new one: the last write wins.
    pub fn insert(&mut self, name: String, value: Value)
        requires
            old(self).wf(),
        ensures
            final(self).wf(),
            final(self)@ == old(self)@.insert(name@, value@),
            final(self).cols().len() == if old(self)@.contains_key(name@) {
                old(self).cols().len()
            } else {
                old(self).cols().len() + 1
            },
    {
        let ghost before = self.columns@;
        let key = chars_of(name.as_str());
        let mut at: usize = 0;
        let mut found = false;
        while at < self.columns.len()
            invariant_except_break
                !found,
            invariant
                at <= self.columns.len(),
                self.columns@ == before,
                key@ == name@,
                forall|i: int| 0 <= i < at ==> precedes((#[trigger] before[i]).name@, name@),
            ensures
                at <= self.columns.len(),
                found ==> at < before.len() && before[at as int].name@ == name@,
                !found && at < before.len() ==> precedes(name@, before[at as int].name@),
            decreases self.columns.len() - at,
        {
            let here = chars_of(self.columns[at].name.as_str());
            match place(&key, &here) {
                Place::Same => {
                    found = true;
                    break ;
                },
                Place::Before => {
                    break ;
                },
                Place::After => {},
            }
            at += 1;
        }
        let column = Column { name, value };
        if found {
            proof {
                assert(before[at as int].name@ == name@);
                assert(holds(before, name@));
                let after = before.update(at as int, column);
                assert forall|i: int, j: int| 0 <= i < j < after.len() implies precedes(
                    (#[trigger] after[i]).name@,
                    (#[trigger] after[j]).name@,
                ) by {
                    assert(precedes(before[i].name@, before[j].name@));
                }
                assert forall|k: Seq<char>| holds(after, k) <==> (k == name@ || holds(before, k)) by {
                    if holds(after, k) {
                        let i = choose|i: int| 0 <= i < after.len() && (#[trigger] after[i]).name@ == k;
                        assert(before[i].name@ == k);
                    }
                    if holds(before, k) {
                        let i = choose|i: int|
                            0 <= i < before.len() && (#[trigger] before[i]).name@ == k;
                        assert(after[i].name@ == k);
                    }
                    if k == name@ {
                        assert(after[at as int].name@ == k);
                    }
                }
                assert forall|k: Seq<char>| holds(after, k) implies map_of(after)[k] == map_of(
                    before,
                ).insert(name@, value@)[k] by {
                    let i = choose|i: int| 0 <= i < after.len() && (#[trigger] after[i]).name@ == k;
                    lemma_map_of_at(after, i);
                    if i != at {
                        lemma_map_of_at(before, i);
                        lemma_precedes_irreflexive(name@);
                        if i < at {
                            assert(precedes(before[i].name@, before[at as int].name@));
                        } else {
                            assert(precedes(before[at as int].name@, before[i].name@));
                        }
                    }
                }
                assert(map_of(after) =~= map_of(before).insert(name@, value@));
            }
            self.columns.set(at, column);
        } else {
            proof {
                lemma_precedes_irreflexive(name@);
                assert forall|i: int| 0 <= i < before.len() implies (#[trigger] before[i]).name@
                    != name@ by {
                    if i > at {
                        assert(precedes(before[at as int].name@, before[i].name@));
                        lemma_precedes_transitive(name@, before[at as int].name@, before[i].name@);
                    }
                }
                assert(!holds(before, name@));
                let after = before.insert(at as int, column);
                assert forall|i: int, j: int| 0 <= i < j < after.len() implies precedes(
                    (#[trigger] after[i]).name@,
                    (#[trigger] after[j]).name@,
                ) by {
                    if j == at {
                        assert(precedes(before[i].name@, name@));
                    } else if i == at {
                        if j - 1 > at {
                            assert(precedes(before[at as int].name@, before[j - 1].name@));
                            lemma_precedes_transitive(
                                name@,
                                before[at as int].name@,
                                before[j - 1].name@,
                            );
                        }
                    } else if i < at && at < j {
                        assert(precedes(before[i].name@, before[j - 1].name@));
                    } else if j < at {
                        assert(precedes(before[i].name@, before[j].name@));
                    } else {
                        assert(precedes(before[i - 1].name@, before[j - 1].name@));
                    }
                }
                assert forall|k: Seq<char>| holds(after, k) <==> (k == name@ || holds(before, k)) by {
                    if holds(after, k) {
                        let i = choose|i: int| 0 <= i < after.len() && (#[trigger] after[i]).name@ == k;
                        if i < at {
                            assert(before[i].name@ == k);
                        } else if i > at {
                            assert(before[i - 1].name@ == k);
                        }
                    }
                    if holds(before, k) {
                        let i = choose|i: int|
                            0 <= i < before.len() && (#[trigger] before[i]).name@ == k;
                        if i < at {
                            assert(after[i].name@ == k);
                        } else {
                            assert(after[i + 1].name@ == k);
                        }
                    }
                    if k == name@ {
                        assert(after[at as int].name@ == k);
                    }
                }
                assert forall|k: Seq<char>| holds(after, k) implies map_of(after)[k] == map_of(
                    before,
                ).insert(name@, value@)[k] by {
                    let i = choose|i: int| 0 <= i < after.len() && (#[trigger] after[i]).name@ == k;
                    lemma_map_of_at(after, i);
                    lemma_precedes_irreflexive(name@);
                    if i < at {
                        lemma_map_of_at(before, i);
                        assert(precedes(before[i].name@, name@));
                    } else if i > at {
                        lemma_map_of_at(before, i - 1);
                        assert(precedes(name@, after[i].name@));
                    }
                }
                assert(map_of(after) =~= map_of(before).insert(name@, value@));
            }
            self.columns.insert(at, column);
        }
    }
}

} // verus!
