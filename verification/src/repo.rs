//! In-process record stores for students and grades.  The embedding
//! program loads them from persistent storage and writes changes back;
//! the logic here is what the commands are verified against.

use vstd::prelude::*;

use crate::error::{AppError, ErrorKind};
use crate::store::{
    lemma_slookup_absent, lemma_slookup_found, lemma_slookup_push, lemma_slookup_remove,
    lemma_unique_remove, slookup, unique_keys,
};

verus! {

/// Mathematical image of [`StudentRecord`].
pub ghost struct StudentRecordView {
    pub name: Seq<char>,
    pub qq_number: i64,
    pub group_id: i64,
}

/// What is stored under one student id.
#[derive(Clone, Debug)]
pub struct StudentRecord {
    pub name: String,
    pub qq_number: i64,
    pub group_id: i64,
}

impl View for StudentRecord {
    type V = StudentRecordView;

    open spec fn view(&self) -> StudentRecordView {
        StudentRecordView { name: self.name@, qq_number: self.qq_number, group_id: self.group_id }
    }
}

impl DeepView for StudentRecord {
    type V = StudentRecordView;

    open spec fn deep_view(&self) -> StudentRecordView {
        self.view()
    }
}

impl StudentRecord {
    pub fn duplicate(&self) -> (r: Self)
        ensures
            r@ == self@,
    {
        StudentRecord {
            name: self.name.clone(),
            qq_number: self.qq_number,
            group_id: self.group_id,
        }
    }
}

/// First pair whose record carries this messenger account.
pub open spec fn find_qq(
    es: Seq<(i64, StudentRecordView)>,
    qq: i64,
) -> Option<(i64, StudentRecordView)>
    decreases es.len(),
{
    if es.len() == 0 {
        None
    } else if es.first().1.qq_number == qq {
        Some(es.first())
    } else {
        find_qq(es.drop_first(), qq)
    }
}

proof fn lemma_find_qq_at(es: Seq<(i64, StudentRecordView)>, qq: i64, j: int)
    requires
        0 <= j < es.len(),
        es[j].1.qq_number == qq,
        forall|k: int| 0 <= k < j ==> es[k].1.qq_number != qq,
    ensures
        find_qq(es, qq) == Some(es[j]),
    decreases j,
{
    if j == 0 {
    } else {
        let t = es.drop_first();
        assert(forall|k: int| 0 <= k < j - 1 ==> t[k] == es[k + 1]);
        lemma_find_qq_at(t, qq, j - 1);
    }
}

proof fn lemma_find_qq_none(es: Seq<(i64, StudentRecordView)>, qq: i64)
    requires
        forall|k: int| 0 <= k < es.len() ==> es[k].1.qq_number != qq,
    ensures
        find_qq(es, qq) is None,
    decreases es.len(),
{
    if es.len() > 0 {
        let t = es.drop_first();
        assert(forall|k: int| 0 <= k < t.len() ==> t[k] == es[k + 1]);
        lemma_find_qq_none(t, qq);
    }
}

/// A messenger account that `find_qq` locates is bound to a key that is
/// present in the store.
pub proof fn lemma_find_qq_in_store(es: Seq<(i64, StudentRecordView)>, qq: i64)
    requires
        unique_keys(es),
        find_qq(es, qq) is Some,
    ensures
        slookup(es, (find_qq(es, qq)->0).0) == Some((find_qq(es, qq)->0).1),
{
    lemma_find_qq_position(es, qq);
    let j = choose|j: int| 0 <= j < es.len() && #[trigger] es[j] == find_qq(es, qq)->0;
    lemma_slookup_found(es, es[j].0, j);
}

proof fn lemma_find_qq_position(es: Seq<(i64, StudentRecordView)>, qq: i64)
    requires
        find_qq(es, qq) is Some,
    ensures
        exists|j: int| 0 <= j < es.len() && #[trigger] es[j] == find_qq(es, qq)->0,
    decreases es.len(),
{
    if es.first().1.qq_number == qq {
        assert(es[0] == find_qq(es, qq)->0);
    } else {
        let t = es.drop_first();
        lemma_find_qq_position(t, qq);
        let j = choose|j: int| 0 <= j < t.len() && #[trigger] t[j] == find_qq(t, qq)->0;
        assert(es[j + 1] == find_qq(es, qq)->0);
    }
}

/// All student records, keyed by student id.
pub struct StudentStore {
    pub entries: Vec<(i64, StudentRecord)>,
}

impl StudentStore {
    pub open spec fn model(&self) -> Seq<(i64, StudentRecordView)> {
        self.entries.deep_view()
    }

    pub open spec fn inv(&self) -> bool {
        unique_keys(self.model())
    }

    pub open spec fn spec_get(&self, id: i64) -> Option<StudentRecordView> {
        slookup(self.model(), id)
    }

    pub open spec fn spec_find_qq(&self, qq: i64) -> Option<(i64, StudentRecordView)> {
        find_qq(self.model(), qq)
    }

    pub fn new() -> (r: Self)
        ensures
            r.inv(),
            r.model() == Seq::<(i64, StudentRecordView)>::empty(),
    {
        let r = StudentStore { entries: Vec::new() };
        proof {
            assert(r.model() =~= Seq::<(i64, StudentRecordView)>::empty());
        }
        r
    }

    fn find_index(&self, id: i64) -> (r: Option<usize>)
        ensures
            match r {
                Some(j) => j < self.model().len() && self.model()[j as int].0 == id,
                None => forall|i: int| 0 <= i < self.model().len() ==> self.model()[i].0 != id,
            },
    {
        let mut i: usize = 0;
        while i < self.entries.len()
            invariant
                i <= self.entries.len(),
                self.model().len() == self.entries.len(),
                forall|k: int| 0 <= k < i ==> self.model()[k].0 != id,
            decreases self.entries.len() - i,
        {
            if self.entries[i].0 == id {
                proof {
                    assert(self.model()[i as int].0 == id);
                }
                return Some(i);
            }
            i += 1;
        }
        None
    }

    /// The record under this student id.
    pub fn find_by_id(&self, id: i64) -> (r: Option<StudentRecord>)
        requires
            self.inv(),
        ensures
            match self.spec_get(id) {
                Some(v) => r is Some && r->0@ == v,
                None => r is None,
            },
    {
        match self.find_index(id) {
            Some(j) => {
                proof {
                    lemma_slookup_found(self.model(), id, j as int);
                }
                Some(self.entries[j].1.duplicate())
            },
            None => {
                proof {
                    lemma_slookup_absent(self.model(), id);
                }
                None
            },
        }
    }

    /// The first student record bound to this messenger account, with its
    /// student id.
    pub fn find_by_qq(&self, qq: i64) -> (r: Option<(i64, StudentRecord)>)
        ensures
            match self.spec_find_qq(qq) {
                Some(p) => r is Some && (r->0).0 == p.0 && (r->0).1@ == p.1,
                None => r is None,
            },
    {
        let mut i: usize = 0;
        while i < self.entries.len()
            invariant
                i <= self.entries.len(),
                self.model().len() == self.entries.len(),
                forall|k: int| 0 <= k < i ==> self.model()[k].1.qq_number != qq,
            decreases self.entries.len() - i,
        {
            if self.entries[i].1.qq_number == qq {
                proof {
                    assert(self.model()[i as int].1.qq_number == qq);
                    lemma_find_qq_at(self.model(), qq, i as int);
                }
                return Some((self.entries[i].0, self.entries[i].1.duplicate()));
            }
            i += 1;
        }
        proof {
            lemma_find_qq_none(self.model(), qq);
        }
        None
    }

    /// Inserts or replaces the record under `id`.
    pub fn upsert(&mut self, id: i64, record: StudentRecord)
        requires
            old(self).inv(),
        ensures
            final(self).inv(),
            final(self).spec_get(id) == Some(record@),
            forall|k: i64| k != id ==> final(self).spec_get(k) == old(self).spec_get(k),
    {
        let ghost oldm = self.model();
        match self.find_index(id) {
            Some(j) => {
                proof {
                    lemma_slookup_found(oldm, id, j as int);
                }
                self.entries.remove(j);
                proof {
                    assert(self.model() =~= oldm.remove(j as int));
                    lemma_unique_remove(oldm, j as int);
                    assert forall|k: i64| true implies #[trigger] slookup(self.model(), k) == (
                    if oldm[j as int].0 == k {
                        None::<StudentRecordView>
                    } else {
                        slookup(oldm, k)
                    }) by {
                        lemma_slookup_remove(oldm, j as int, k);
                    }
                }
            },
            None => {
                proof {
                    lemma_slookup_absent(oldm, id);
                }
            },
        }
        let ghost mid = self.model();
        let ghost rv = record@;
        self.entries.push((id, record));
        proof {
            assert(self.model() =~= mid.push((id, rv)));
            assert forall|k: i64| true implies #[trigger] slookup(self.model(), k) == (if k == id {
                Some(rv)
            } else {
                slookup(mid, k)
            }) by {
                lemma_slookup_push(mid, (id, rv), k);
            }
            assert forall|a: int, b: int|
                0 <= a < b < self.model().len() implies self.model()[a].0
                != self.model()[b].0 by {
                if b == self.model().len() - 1 {
                    if mid[a].0 == id {
                        lemma_slookup_found(mid, id, a);
                    }
                }
            }
        }
    }

    /// Repoints the record under `id` at another messenger account, or
    /// reports that no such student exists.
    pub fn update_qq(&mut self, id: i64, qq: i64) -> (r: Result<(), AppError>)
        requires
            old(self).inv(),
        ensures
            final(self).inv(),
            match old(self).spec_get(id) {
                Some(v) => r is Ok && final(self).spec_get(id) == Some(
                    StudentRecordView { name: v.name, qq_number: qq, group_id: v.group_id },
                ),
                None => r is Err && r->Err_0@.kind == ErrorKind::NotFound && final(self).model()
                    == old(self).model(),
            },
            forall|k: i64| k != id ==> final(self).spec_get(k) == old(self).spec_get(k),
    {
        match self.find_index(id) {
            Some(j) => {
                proof {
                    lemma_slookup_found(self.model(), id, j as int);
                }
                let current = self.entries[j].1.duplicate();
                let updated = StudentRecord {
                    name: current.name,
                    qq_number: qq,
                    group_id: current.group_id,
                };
                self.upsert(id, updated);
                Ok(())
            },
            None => {
                proof {
                    lemma_slookup_absent(self.model(), id);
                }
                Err(AppError::not_found(String::from_str("no student under this id")))
            },
        }
    }

    pub fn entry_count(&self) -> (r: usize)
        ensures
            r == self.model().len(),
    {
        self.entries.len()
    }
}

/// Mathematical image of [`GradeRecord`].
pub ghost struct GradeRecordView {
    pub student_name: Seq<char>,
    pub exam_name: Seq<char>,
    pub course_id: i32,
    pub student_id: i64,
    pub score: i8,
}

/// One graded exam result.
#[derive(Clone, Debug)]
pub struct GradeRecord {
    pub student_name: String,
    pub exam_name: String,
    pub course_id: i32,
    pub student_id: i64,
    pub score: i8,
}

impl View for GradeRecord {
    type V = GradeRecordView;

    open spec fn view(&self) -> GradeRecordView {
        GradeRecordView {
            student_name: self.student_name@,
            exam_name: self.exam_name@,
            course_id: self.course_id,
            student_id: self.student_id,
            score: self.score,
        }
    }
}

impl DeepView for GradeRecord {
    type V = GradeRecordView;

    open spec fn deep_view(&self) -> GradeRecordView {
        self.view()
    }
}

impl GradeRecord {
    pub fn duplicate(&self) -> (r: Self)
        ensures
            r@ == self@,
    {
        GradeRecord {
            student_name: self.student_name.clone(),
            exam_name: self.exam_name.clone(),
            course_id: self.course_id,
            student_id: self.student_id,
            score: self.score,
        }
    }
}

/// The grades of one student, in storage order.
pub open spec fn grades_of(gs: Seq<GradeRecordView>, student_id: i64) -> Seq<GradeRecordView>
    decreases gs.len(),
{
    if gs.len() == 0 {
        Seq::empty()
    } else {
        grades_of(gs.drop_last(), student_id) + (if gs.last().student_id == student_id {
            seq![gs.last()]
        } else {
            Seq::empty()
        })
    }
}

/// All grade records, in insertion order.
pub struct GradeStore {
    pub entries: Vec<GradeRecord>,
}

impl GradeStore {
    pub open spec fn model(&self) -> Seq<GradeRecordView> {
        self.entries.deep_view()
    }

    pub fn new() -> (r: Self)
        ensures
            r.model() == Seq::<GradeRecordView>::empty(),
    {
        let r = GradeStore { entries: Vec::new() };
        proof {
            assert(r.model() =~= Seq::<GradeRecordView>::empty());
        }
        r
    }

    pub fn add_grade(&mut self, grade: GradeRecord)
        ensures
            final(self).model() == old(self).model().push(grade@),
    {
        let ghost gv = grade@;
        let ghost prior = self.model();
        self.entries.push(grade);
        proof {
            assert(self.model() =~= prior.push(gv));
        }
    }

    /// Every grade of this student, in storage order.
    pub fn query_grades(&self, student_id: i64) -> (r: Vec<GradeRecord>)
        ensures
            r.deep_view() == grades_of(self.model(), student_id),
    {
        let ghost gs = self.model();
        let mut out: Vec<GradeRecord> = Vec::new();
        let mut i: usize = 0;
        proof {
            assert(gs.take(0) =~= Seq::<GradeRecordView>::empty());
            assert(out.deep_view() =~~= grades_of(gs.take(0), student_id));
        }
        while i < self.entries.len()
            invariant
                i <= self.entries.len(),
                gs == self.model(),
                gs.len() == self.entries.len(),
                out.deep_view() =~~= grades_of(gs.take(i as int), student_id),
            decreases self.entries.len() - i,
        {
            let ghost prior = out.deep_view();
            proof {
                assert(gs.take(i + 1).drop_last() =~= gs.take(i as int));
                assert(gs.take(i + 1).last() == gs[i as int]);
            }
            if self.entries[i].student_id == student_id {
                out.push(self.entries[i].duplicate());
                proof {
                    assert(out.deep_view() =~~= prior.push(gs[i as int]));
                }
            }
            proof {
                assert(out.deep_view() =~~= grades_of(gs.take(i + 1), student_id));
            }
            i += 1;
        }
        proof {
            assert(gs.take(gs.len() as int) =~= gs);
        }
        out
    }
}

} // verus!
