use vstd::prelude::*;

use crate::class::models::{Class, ClassStudent};
use crate::exam::models::{Exam, ExamQuestion, StudentAnswer};
use crate::question::models::{Answer, Question};
use crate::role::model::UsersRole;

verus! {

/// One stored user row. Unlike `User`, it carries the password hash, which
/// lookups never hand out.
#[derive(Debug)]
pub struct UserRow {
    pub id: i32,
    pub name: String,
    pub email: String,
    pub password: String,
    pub created_at: i64,
}

/// The in-memory relational state that the services operate on: one field
/// per table, plus the next value of each serial id column.
///
/// `wf` is the schema's integrity contract: primary keys are unique, serial
/// counters dominate every assigned id, and emails are unique. Every
/// repository and service function preserves it.
#[derive(Debug)]
pub struct Store {
    pub users: Vec<UserRow>,
    pub users_roles: Vec<UsersRole>,
    pub classes: Vec<Class>,
    pub classes_students: Vec<ClassStudent>,
    pub questions: Vec<Question>,
    pub answers: Vec<Answer>,
    pub exams: Vec<Exam>,
    pub exam_questions: Vec<ExamQuestion>,
    pub student_answers: Vec<StudentAnswer>,
    pub next_user_id: i32,
    pub next_class_id: i32,
    pub next_question_id: i32,
    pub next_answer_id: i32,
    pub next_exam_id: i32,
    pub next_student_answer_id: i32,
}

impl Store {
    pub open spec fn users_wf(self) -> bool {
        &&& forall|i: int, j: int|
            0 <= i < j < self.users@.len() ==> self.users@[i].id != self.users@[j].id
        &&& forall|i: int, j: int|
            0 <= i < j < self.users@.len() ==> self.users@[i].email@ != self.users@[j].email@
        &&& forall|i: int| 0 <= i < self.users@.len() ==> self.users@[i].id < self.next_user_id
        &&& self.next_user_id >= 1
    }

    pub open spec fn classes_wf(self) -> bool {
        &&& forall|i: int, j: int|
            0 <= i < j < self.classes@.len() ==> self.classes@[i].id != self.classes@[j].id
        &&& forall|i: int|
            0 <= i < self.classes@.len() ==> self.classes@[i].id < self.next_class_id
        &&& self.next_class_id >= 1
    }

    pub open spec fn enrollments_wf(self) -> bool {
        forall|i: int, j: int|
            0 <= i < j < self.classes_students@.len() ==> self.classes_students@[i]
                != self.classes_students@[j]
    }

    pub open spec fn questions_wf(self) -> bool {
        &&& forall|i: int, j: int|
            0 <= i < j < self.questions@.len() ==> self.questions@[i].id != self.questions@[j].id
        &&& forall|i: int|
            0 <= i < self.questions@.len() ==> self.questions@[i].id < self.next_question_id
        &&& self.next_question_id >= 1
    }

    pub open spec fn answers_wf(self) -> bool {
        &&& forall|i: int, j: int|
            0 <= i < j < self.answers@.len() ==> self.answers@[i].id != self.answers@[j].id
        &&& forall|i: int|
            0 <= i < self.answers@.len() ==> self.answers@[i].id < self.next_answer_id
        &&& self.next_answer_id >= 1
    }

    pub open spec fn exams_wf(self) -> bool {
        &&& forall|i: int, j: int|
            0 <= i < j < self.exams@.len() ==> self.exams@[i].id != self.exams@[j].id
        &&& forall|i: int| 0 <= i < self.exams@.len() ==> self.exams@[i].id < self.next_exam_id
        &&& self.next_exam_id >= 1
    }

    pub open spec fn exam_questions_wf(self) -> bool {
        forall|i: int, j: int|
            0 <= i < j < self.exam_questions@.len() ==> self.exam_questions@[i]
                != self.exam_questions@[j]
    }

    pub open spec fn student_answers_wf(self) -> bool {
        &&& forall|i: int, j: int|
            0 <= i < j < self.student_answers@.len() ==> self.student_answers@[i].id
                != self.student_answers@[j].id
        &&& forall|i: int, j: int|
            0 <= i < j < self.student_answers@.len() ==> !(self.student_answers@[i].user_id
                == self.student_answers@[j].user_id && self.student_answers@[i].exam_id
                == self.student_answers@[j].exam_id && self.student_answers@[i].question_id
                == self.student_answers@[j].question_id)
        &&& forall|i: int|
            0 <= i < self.student_answers@.len() ==> self.student_answers@[i].id
                < self.next_student_answer_id
        &&& self.next_student_answer_id >= 1
    }

    /// The integrity contract of the whole store.
    pub open spec fn wf(self) -> bool {
        &&& self.users_wf()
        &&& self.classes_wf()
        &&& self.enrollments_wf()
        &&& self.questions_wf()
        &&& self.answers_wf()
        &&& self.exams_wf()
        &&& self.exam_questions_wf()
        &&& self.student_answers_wf()
    }

    // ----- exams -----

    pub open spec fn has_exam(self, exam_id: i32) -> bool {
        exists|i: int| 0 <= i < self.exams@.len() && self.exams@[i].id == exam_id
    }

    pub open spec fn exam_index(self, exam_id: i32) -> int {
        choose|i: int| 0 <= i < self.exams@.len() && self.exams@[i].id == exam_id
    }

    /// The exam with this id; meaningful only when `has_exam` holds.
    pub open spec fn exam(self, exam_id: i32) -> Exam {
        self.exams@[self.exam_index(exam_id)]
    }

    pub proof fn lemma_exam_index(self, exam_id: i32, i: int)
        requires
            self.wf(),
            0 <= i < self.exams@.len(),
            self.exams@[i].id == exam_id,
        ensures
            self.has_exam(exam_id),
            self.exam_index(exam_id) == i,
            self.exam(exam_id) == self.exams@[i],
    {
        assert(self.has_exam(exam_id));
        let j = self.exam_index(exam_id);
        assert(0 <= j < self.exams@.len() && self.exams@[j].id == exam_id);
    }

    /// Locate an exam row by id.
    #[verifier::loop_isolation(false)]
    pub fn find_exam(&self, exam_id: i32) -> (r: Option<usize>)
        requires
            self.wf(),
        ensures
            match r {
                Some(i) => self.has_exam(exam_id) && self.exam_index(exam_id) == i && i
                    < self.exams@.len(),
                None => !self.has_exam(exam_id),
            },
    {
        let n = self.exams.len();
        let mut i: usize = 0;
        while i < n
            invariant
                i <= n,
                forall|j: int| 0 <= j < i ==> self.exams@[j].id != exam_id,
            decreases n - i,
        {
            if self.exams[i].id == exam_id {
                proof {
                    self.lemma_exam_index(exam_id, i as int);
                }
                return Some(i);
            }
            i += 1;
        }
        None
    }

    // ----- questions -----

    pub open spec fn has_question(self, question_id: i32) -> bool {
        exists|i: int| 0 <= i < self.questions@.len() && self.questions@[i].id == question_id
    }

    pub open spec fn question_index(self, question_id: i32) -> int {
        choose|i: int| 0 <= i < self.questions@.len() && self.questions@[i].id == question_id
    }

    /// The question with this id; meaningful only when `has_question` holds.
    pub open spec fn question(self, question_id: i32) -> Question {
        self.questions@[self.question_index(question_id)]
    }

    pub proof fn lemma_question_index(self, question_id: i32, i: int)
        requires
            self.wf(),
            0 <= i < self.questions@.len(),
            self.questions@[i].id == question_id,
        ensures
            self.has_question(question_id),
            self.question_index(question_id) == i,
            self.question(question_id) == self.questions@[i],
    {
        assert(self.has_question(question_id));
        let j = self.question_index(question_id);
        assert(0 <= j < self.questions@.len() && self.questions@[j].id == question_id);
    }

    /// Locate a question row by id.
    #[verifier::loop_isolation(false)]
    pub fn find_question(&self, question_id: i32) -> (r: Option<usize>)
        requires
            self.wf(),
        ensures
            match r {
                Some(i) => self.has_question(question_id) && self.question_index(question_id) == i
                    && i < self.questions@.len(),
                None => !self.has_question(question_id),
            },
    {
        let n = self.questions.len();
        let mut i: usize = 0;
        while i < n
            invariant
                i <= n,
                forall|j: int| 0 <= j < i ==> self.questions@[j].id != question_id,
            decreases n - i,
        {
            if self.questions[i].id == question_id {
                proof {
                    self.lemma_question_index(question_id, i as int);
                }
                return Some(i);
            }
            i += 1;
        }
        None
    }

    // ----- answers -----

    pub open spec fn has_answer(self, answer_id: i32) -> bool {
        exists|i: int| 0 <= i < self.answers@.len() && self.answers@[i].id == answer_id
    }

    pub open spec fn answer_index(self, answer_id: i32) -> int {
        choose|i: int| 0 <= i < self.answers@.len() && self.answers@[i].id == answer_id
    }

    /// The answer with this id; meaningful only when `has_answer` holds.
    pub open spec fn answer(self, answer_id: i32) -> Answer {
        self.answers@[self.answer_index(answer_id)]
    }

    pub proof fn lemma_answer_index(self, answer_id: i32, i: int)
        requires
            self.wf(),
            0 <= i < self.answers@.len(),
            self.answers@[i].id == answer_id,
        ensures
            self.has_answer(answer_id),
            self.answer_index(answer_id) == i,
            self.answer(answer_id) == self.answers@[i],
    {
        assert(self.has_answer(answer_id));
        let j = self.answer_index(answer_id);
        assert(0 <= j < self.answers@.len() && self.answers@[j].id == answer_id);
    }

    /// Locate an answer row by id.
    #[verifier::loop_isolation(false)]
    pub fn find_answer(&self, answer_id: i32) -> (r: Option<usize>)
        requires
            self.wf(),
        ensures
            match r {
                Some(i) => self.has_answer(answer_id) && self.answer_index(answer_id) == i && i
                    < self.answers@.len(),
                None => !self.has_answer(answer_id),
            },
    {
        let n = self.answers.len();
        let mut i: usize = 0;
        while i < n
            invariant
                i <= n,
                forall|j: int| 0 <= j < i ==> self.answers@[j].id != answer_id,
            decreases n - i,
        {
            if self.answers[i].id == answer_id {
                proof {
                    self.lemma_answer_index(answer_id, i as int);
                }
                return Some(i);
            }
            i += 1;
        }
        None
    }

    // ----- classes -----

    pub open spec fn has_class(self, class_id: i32) -> bool {
        exists|i: int| 0 <= i < self.classes@.len() && self.classes@[i].id == class_id
    }

    pub open spec fn class_index(self, class_id: i32) -> int {
        choose|i: int| 0 <= i < self.classes@.len() && self.classes@[i].id == class_id
    }

    /// The class with this id; meaningful only when `has_class` holds.
    pub open spec fn class(self, class_id: i32) -> Class {
        self.classes@[self.class_index(class_id)]
    }

    pub proof fn lemma_class_index(self, class_id: i32, i: int)
        requires
            self.wf(),
            0 <= i < self.classes@.len(),
            self.classes@[i].id == class_id,
        ensures
            self.has_class(class_id),
            self.class_index(class_id) == i,
            self.class(class_id) == self.classes@[i],
    {
        assert(self.has_class(class_id));
        let j = self.class_index(class_id);
        assert(0 <= j < self.classes@.len() && self.classes@[j].id == class_id);
    }

    /// Locate a class row by id.
    #[verifier::loop_isolation(false)]
    pub fn find_class(&self, class_id: i32) -> (r: Option<usize>)
        requires
            self.wf(),
        ensures
            match r {
                Some(i) => self.has_class(class_id) && self.class_index(class_id) == i && i
                    < self.classes@.len(),
                None => !self.has_class(class_id),
            },
    {
        let n = self.classes.len();
        let mut i: usize = 0;
        while i < n
            invariant
                i <= n,
                forall|j: int| 0 <= j < i ==> self.classes@[j].id != class_id,
            decreases n - i,
        {
            if self.classes[i].id == class_id {
                proof {
                    self.lemma_class_index(class_id, i as int);
                }
                return Some(i);
            }
            i += 1;
        }
        None
    }

    /// Is this student enrolled in this class?
    pub open spec fn is_enrolled(self, class_id: i32, student_id: i32) -> bool {
        exists|i: int|
            0 <= i < self.classes_students@.len() && self.classes_students@[i].class_id == class_id
                && self.classes_students@[i].student_id == student_id
    }

    /// Decide enrollment of a student in a class.
    #[verifier::loop_isolation(false)]
    pub fn check_enrolled(&self, class_id: i32, student_id: i32) -> (r: bool)
        ensures
            r == self.is_enrolled(class_id, student_id),
    {
        let n = self.classes_students.len();
        let mut i: usize = 0;
        while i < n
            invariant
                i <= n,
                forall|j: int|
                    0 <= j < i ==> !(self.classes_students@[j].class_id == class_id
                        && self.classes_students@[j].student_id == student_id),
            decreases n - i,
        {
            if self.classes_students[i].class_id == class_id && self.classes_students[i].student_id
                == student_id {
                return true;
            }
            i += 1;
        }
        false
    }

    // ----- users -----

    pub open spec fn has_user(self, user_id: i32) -> bool {
        exists|i: int| 0 <= i < self.users@.len() && self.users@[i].id == user_id
    }

    pub open spec fn user_index(self, user_id: i32) -> int {
        choose|i: int| 0 <= i < self.users@.len() && self.users@[i].id == user_id
    }

    /// The user row with this id; meaningful only when `has_user` holds.
    pub open spec fn user(self, user_id: i32) -> UserRow {
        self.users@[self.user_index(user_id)]
    }

    pub proof fn lemma_user_index(self, user_id: i32, i: int)
        requires
            self.wf(),
            0 <= i < self.users@.len(),
            self.users@[i].id == user_id,
        ensures
            self.has_user(user_id),
            self.user_index(user_id) == i,
            self.user(user_id) == self.users@[i],
    {
        assert(self.has_user(user_id));
        let j = self.user_index(user_id);
        assert(0 <= j < self.users@.len() && self.users@[j].id == user_id);
    }

    /// Locate a user row by id.
    #[verifier::loop_isolation(false)]
    pub fn find_user(&self, user_id: i32) -> (r: Option<usize>)
        requires
            self.wf(),
        ensures
            match r {
                Some(i) => self.has_user(user_id) && self.user_index(user_id) == i && i
                    < self.users@.len(),
                None => !self.has_user(user_id),
            },
    {
        let n = self.users.len();
        let mut i: usize = 0;
        while i < n
            invariant
                i <= n,
                forall|j: int| 0 <= j < i ==> self.users@[j].id != user_id,
            decreases n - i,
        {
            if self.users[i].id == user_id {
                proof {
                    self.lemma_user_index(user_id, i as int);
                }
                return Some(i);
            }
            i += 1;
        }
        None
    }

    pub open spec fn has_user_email(self, email: Seq<char>) -> bool {
        exists|i: int| 0 <= i < self.users@.len() && self.users@[i].email@ == email
    }

    pub open spec fn user_email_index(self, email: Seq<char>) -> int {
        choose|i: int| 0 <= i < self.users@.len() && self.users@[i].email@ == email
    }

    pub proof fn lemma_user_email_index(self, email: Seq<char>, i: int)
        requires
            self.wf(),
            0 <= i < self.users@.len(),
            self.users@[i].email@ == email,
        ensures
            self.has_user_email(email),
            self.user_email_index(email) == i,
    {
        assert(self.has_user_email(email));
        let j = self.user_email_index(email);
        assert(0 <= j < self.users@.len() && self.users@[j].email@ == email);
    }

    /// Locate a user row by email.
    #[verifier::loop_isolation(false)]
    pub fn find_user_by_email(&self, email: &String) -> (r: Option<usize>)
        requires
            self.wf(),
        ensures
            match r {
                Some(i) => self.has_user_email(email@) && self.user_email_index(email@) == i && i
                    < self.users@.len(),
                None => !self.has_user_email(email@),
            },
    {
        let n = self.users.len();
        let mut i: usize = 0;
        while i < n
            invariant
                i <= n,
                forall|j: int| 0 <= j < i ==> self.users@[j].email@ != email@,
            decreases n - i,
        {
            if self.users[i].email == *email {
                proof {
                    self.lemma_user_email_index(email@, i as int);
                }
                return Some(i);
            }
            i += 1;
        }
        None
    }

    // ----- student answers -----

    pub open spec fn has_student_answer(self, user_id: i32, exam_id: i32, question_id: i32) -> bool {
        exists|i: int|
            0 <= i < self.student_answers@.len() && self.student_answers@[i].user_id == user_id
                && self.student_answers@[i].exam_id == exam_id
                && self.student_answers@[i].question_id == question_id
    }

    pub open spec fn student_answer_index(self, user_id: i32, exam_id: i32, question_id: i32) -> int {
        choose|i: int|
            0 <= i < self.student_answers@.len() && self.student_answers@[i].user_id == user_id
                && self.student_answers@[i].exam_id == exam_id
                && self.student_answers@[i].question_id == question_id
    }

    /// The student answer keyed by `(user, exam, question)`; meaningful only
    /// when `has_student_answer` holds.
    pub open spec fn student_answer(self, user_id: i32, exam_id: i32, question_id: i32) -> StudentAnswer {
        self.student_answers@[self.student_answer_index(user_id, exam_id, question_id)]
    }

    pub proof fn lemma_student_answer_index(self, user_id: i32, exam_id: i32, question_id: i32, i: int)
        requires
            self.wf(),
            0 <= i < self.student_answers@.len(),
            self.student_answers@[i].user_id == user_id,
            self.student_answers@[i].exam_id == exam_id,
            self.student_answers@[i].question_id == question_id,
        ensures
            self.has_student_answer(user_id, exam_id, question_id),
            self.student_answer_index(user_id, exam_id, question_id) == i,
            self.student_answer(user_id, exam_id, question_id) == self.student_answers@[i],
    {
        assert(self.has_student_answer(user_id, exam_id, question_id));
        let j = self.student_answer_index(user_id, exam_id, question_id);
        assert(0 <= j < self.student_answers@.len() && self.student_answers@[j].user_id == user_id
            && self.student_answers@[j].exam_id == exam_id && self.student_answers@[j].question_id
            == question_id);
    }

    /// Locate a student answer row by its natural key.
    #[verifier::loop_isolation(false)]
    pub fn find_student_answer(&self, user_id: i32, exam_id: i32, question_id: i32) -> (r: Option<
        usize,
    >)
        requires
            self.wf(),
        ensures
            match r {
                Some(i) => self.has_student_answer(user_id, exam_id, question_id)
                    && self.student_answer_index(user_id, exam_id, question_id) == i && i
                    < self.student_answers@.len(),
                None => !self.has_student_answer(user_id, exam_id, question_id),
            },
    {
        let n = self.student_answers.len();
        let mut i: usize = 0;
        while i < n
            invariant
                i <= n,
                forall|j: int|
                    0 <= j < i ==> !(self.student_answers@[j].user_id == user_id
                        && self.student_answers@[j].exam_id == exam_id
                        && self.student_answers@[j].question_id == question_id),
            decreases n - i,
        {
            let row = &self.student_answers[i];
            if row.user_id == user_id && row.exam_id == exam_id && row.question_id == question_id {
                proof {
                    self.lemma_student_answer_index(user_id, exam_id, question_id, i as int);
                }
                return Some(i);
            }
            i += 1;
        }
        None
    }

    /// An empty store, with every serial counter at 1.
    pub fn new() -> (s: Store)
        ensures
            s.wf(),
            s.users@ == Seq::<UserRow>::empty(),
            s.users_roles@ == Seq::<UsersRole>::empty(),
            s.classes@ == Seq::<Class>::empty(),
            s.classes_students@ == Seq::<ClassStudent>::empty(),
            s.questions@ == Seq::<Question>::empty(),
            s.answers@ == Seq::<Answer>::empty(),
            s.exams@ == Seq::<Exam>::empty(),
            s.exam_questions@ == Seq::<ExamQuestion>::empty(),
            s.student_answers@ == Seq::<StudentAnswer>::empty(),
            s.next_user_id == 1,
            s.next_class_id == 1,
            s.next_question_id == 1,
            s.next_answer_id == 1,
            s.next_exam_id == 1,
            s.next_student_answer_id == 1,
    {
        Store {
            users: Vec::new(),
            users_roles: Vec::new(),
            classes: Vec::new(),
            classes_students: Vec::new(),
            questions: Vec::new(),
            answers: Vec::new(),
            exams: Vec::new(),
            exam_questions: Vec::new(),
            student_answers: Vec::new(),
            next_user_id: 1,
            next_class_id: 1,
            next_question_id: 1,
            next_answer_id: 1,
            next_exam_id: 1,
            next_student_answer_id: 1,
        }
    }
}

} // verus!
