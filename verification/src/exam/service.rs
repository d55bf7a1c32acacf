use vstd::prelude::*;
use vstd::string::{StrSliceExecFns, StringExecFns};

use crate::class::service::{get_class_by_id, is_class_teacher, is_class_teacher_spec,
    is_student_enrolled};
use crate::clock::current_timestamp;
use crate::decimal::{dec_str, i32_to_dec_string};
use crate::errors::ServiceError;
use crate::exam::dto::{CreateExamInputDto, StudentExamResultDto};
use crate::exam::models::{Exam, NewExam, StudentAnswer, UpdateExam};
use crate::exam::repository;
use crate::exam::repository::{answer_belongs, distinct_ids, exams_of_class,
    lemma_answers_for_complete, pairs_for, question_dto_matches, questions_output_matches,
    result_dto_matches, student_result_available, student_results_error,
    teacher_results_error, teacher_results_output_matches, unchanged_except_exam_cascade,
    unchanged_except_exam_questions, unchanged_except_exams, unchanged_except_student_answers,
    without_exam_pairs, without_exam_student_answers};
use crate::question::dto::{AnswerDto, QuestionWithAnswersDto};
use crate::question::service::{get_question_by_id, list_answers_by_question_id};
use crate::store::Store;

verus! {

/// What the message naming a missing question id reads: the id rendered in
/// decimal between two fixed pieces of text.
pub open spec fn question_not_found_msg(question_id: i32) -> Seq<char> {
    "Question "@ + dec_str(question_id as int) + " not found"@
}

/// Render the rejection message naming a missing question id.
fn question_not_found_message(question_id: i32) -> (r: String)
    ensures
        r@ == question_not_found_msg(question_id),
{
    let mut s = String::from_str("Question ");
    let rendered = i32_to_dec_string(question_id);
    s.append(rendered.as_str());
    s.append(" not found");
    proof {
        assert(s@ =~= question_not_found_msg(question_id));
    }
    s
}

// ----- creating an exam -----

/// Everything `create_exam` does at time `now`: the caller must own the
/// class, the name must be non-empty, the window must satisfy
/// `start_date < end_date`, and the start must lie strictly in the future;
/// then exactly one exam row is inserted and returned, with the input's
/// fields. Each rejected input is mapped to its error, and a rejected call
/// leaves the store untouched.
pub open spec fn create_exam_post(
    pre: Store,
    post: Store,
    now: i64,
    user_id: i32,
    new_exam: CreateExamInputDto,
    r: Result<Exam, ServiceError>,
) -> bool {
    match r {
        Ok(e) => {
            &&& is_class_teacher_spec(pre, user_id, new_exam.class_id)
            &&& new_exam.name@.len() > 0
            &&& new_exam.start_date < new_exam.end_date
            &&& now < new_exam.start_date
            &&& pre.next_exam_id < i32::MAX
            &&& e == (Exam {
                id: pre.next_exam_id,
                name: new_exam.name,
                start_date: new_exam.start_date,
                end_date: new_exam.end_date,
                class_id: new_exam.class_id,
                created_at: now,
            })
            &&& post.exams@ == pre.exams@.push(e)
            &&& post.next_exam_id == pre.next_exam_id + 1
            &&& unchanged_except_exams(pre, post)
        },
        Err(e) => {
            &&& post == pre
            &&& if !is_class_teacher_spec(pre, user_id, new_exam.class_id) {
                e == ServiceError::Forbidden
            } else if new_exam.name@.len() == 0 {
                e matches ServiceError::BadRequest(m) && m@ == "Name is required"@
            } else if new_exam.start_date >= new_exam.end_date {
                e matches ServiceError::BadRequest(m) && m@ == "End date must be after start date"@
            } else if new_exam.start_date <= now {
                e matches ServiceError::BadRequest(m) && m@ == "Start date must be in the future"@
            } else {
                e == ServiceError::InternalServerError && pre.next_exam_id == i32::MAX
            }
        },
    }
}

/// Create an exam, taking the current time as an argument.
pub fn create_exam_at(store: &mut Store, now: i64, user_id: i32, new_exam: CreateExamInputDto) -> (r:
    Result<Exam, ServiceError>)
    requires
        old(store).wf(),
    ensures
        final(store).wf(),
        create_exam_post(*old(store), *final(store), now, user_id, new_exam, r),
{
    let is_teacher = match is_class_teacher(store, user_id, new_exam.class_id) {
        Ok(b) => b,
        Err(e) => {
            return Err(e);
        },
    };
    if !is_teacher {
        return Err(ServiceError::Forbidden);
    }
    if new_exam.name.as_str().unicode_len() == 0 {
        return Err(ServiceError::BadRequest(String::from_str("Name is required")));
    }
    if new_exam.start_date >= new_exam.end_date {
        return Err(
            ServiceError::BadRequest(String::from_str("End date must be after start date")),
        );
    }
    if new_exam.start_date <= now {
        return Err(ServiceError::BadRequest(String::from_str("Start date must be in the future")));
    }
    repository::create_exam(
        store,
        now,
        NewExam {
            name: new_exam.name,
            start_date: new_exam.start_date,
            end_date: new_exam.end_date,
            class_id: new_exam.class_id,
        },
    )
}

/// Create an exam as of the current clock time.
pub fn create_exam(store: &mut Store, user_id: i32, new_exam: CreateExamInputDto) -> (r: Result<
    Exam,
    ServiceError,
>)
    requires
        old(store).wf(),
    ensures
        final(store).wf(),
        exists|now: i64| create_exam_post(*old(store), *final(store), now, user_id, new_exam, r),
{
    let now = current_timestamp();
    create_exam_at(store, now, user_id, new_exam)
}

// ----- reading exams -----

/// Look up an exam by id; reading is open to any caller.
pub fn get_exam_by_id(store: &Store, exam_id: i32) -> (r: Result<Option<Exam>, ServiceError>)
    requires
        store.wf(),
    ensures
        match r {
            Ok(Some(e)) => store.has_exam(exam_id) && e == store.exam(exam_id),
            Ok(None) => !store.has_exam(exam_id),
            Err(_) => false,
        },
{
    repository::get_exam_by_id(store, exam_id)
}

/// Everything `get_exams_by_class_id` does: the class must exist, and then
/// its exams come back in row order.
pub open spec fn list_exams_post(s: Store, class_id: i32, r: Result<Vec<Exam>, ServiceError>) -> bool {
    match r {
        Ok(v) => s.has_class(class_id) && v@ == exams_of_class(s.exams@, class_id),
        Err(e) => {
            &&& !s.has_class(class_id)
            &&& e matches ServiceError::BadRequest(m) && m@ == "Class not found"@
        },
    }
}

/// List the exams of one class.
pub fn get_exams_by_class_id(store: &Store, class_id: i32) -> (r: Result<Vec<Exam>, ServiceError>)
    requires
        store.wf(),
    ensures
        list_exams_post(*store, class_id, r),
{
    let class = match get_class_by_id(store, class_id) {
        Ok(c) => c,
        Err(e) => {
            return Err(e);
        },
    };
    match class {
        Some(_) => repository::get_exams_by_class_id(store, class_id),
        None => Err(ServiceError::BadRequest(String::from_str("Class not found"))),
    }
}

// ----- updating an exam -----

/// Everything `update_exam` does at time `now`: the exam must exist and the
/// caller must be the owning class's teacher; when both new dates are given
/// they must satisfy `start_date < end_date`, and a new start date must lie
/// strictly in the future. Only the supplied fields change; the updated row
/// is returned.
pub open spec fn update_exam_post(
    pre: Store,
    post: Store,
    now: i64,
    user_id: i32,
    exam_id: i32,
    changes: UpdateExam,
    r: Result<Exam, ServiceError>,
) -> bool {
    match r {
        Ok(e) => {
            &&& pre.has_exam(exam_id)
            &&& is_class_teacher_spec(pre, user_id, pre.exam(exam_id).class_id)
            &&& (match (changes.start_date, changes.end_date) {
                (Some(sd), Some(ed)) => sd < ed,
                _ => true,
            })
            &&& (changes.start_date matches Some(sd) ==> sd > now)
            &&& e == (Exam {
                id: pre.exam(exam_id).id,
                name: match changes.name {
                    Some(n) => n,
                    None => pre.exam(exam_id).name,
                },
                start_date: match changes.start_date {
                    Some(d) => d,
                    None => pre.exam(exam_id).start_date,
                },
                end_date: match changes.end_date {
                    Some(d) => d,
                    None => pre.exam(exam_id).end_date,
                },
                class_id: pre.exam(exam_id).class_id,
                created_at: pre.exam(exam_id).created_at,
            })
            &&& post.exams@ == pre.exams@.update(pre.exam_index(exam_id), e)
            &&& post.next_exam_id == pre.next_exam_id
            &&& unchanged_except_exams(pre, post)
        },
        Err(e) => {
            &&& post == pre
            &&& if !pre.has_exam(exam_id) {
                e matches ServiceError::BadRequest(m) && m@ == "Exam not found"@
            } else if !is_class_teacher_spec(pre, user_id, pre.exam(exam_id).class_id) {
                e == ServiceError::Forbidden
            } else if (match (changes.start_date, changes.end_date) {
                (Some(sd), Some(ed)) => sd >= ed,
                _ => false,
            }) {
                e matches ServiceError::BadRequest(m) && m@ == "End date must be after start date"@
            } else {
                &&& changes.start_date matches Some(sd) && sd <= now
                &&& e matches ServiceError::BadRequest(m) && m@
                    == "Start date must be in the future"@
            }
        },
    }
}

/// Apply a partial update to an exam, taking the current time as an
/// argument.
pub fn update_exam_at(
    store: &mut Store,
    now: i64,
    user_id: i32,
    exam_id: i32,
    new_exam: UpdateExam,
) -> (r: Result<Exam, ServiceError>)
    requires
        old(store).wf(),
    ensures
        final(store).wf(),
        update_exam_post(*old(store), *final(store), now, user_id, exam_id, new_exam, r),
{
    let existing = match repository::get_exam_by_id(store, exam_id) {
        Ok(o) => o,
        Err(e) => {
            return Err(e);
        },
    };
    let existing = match existing {
        Some(e) => e,
        None => {
            return Err(ServiceError::BadRequest(String::from_str("Exam not found")));
        },
    };
    let is_teacher = match is_class_teacher(store, user_id, existing.class_id) {
        Ok(b) => b,
        Err(e) => {
            return Err(e);
        },
    };
    if !is_teacher {
        return Err(ServiceError::Forbidden);
    }
    match (new_exam.start_date, new_exam.end_date) {
        (Some(sd), Some(ed)) => {
            if sd >= ed {
                return Err(
                    ServiceError::BadRequest(String::from_str("End date must be after start date")),
                );
            }
        },
        _ => {},
    }
    match new_exam.start_date {
        Some(sd) => {
            if sd <= now {
                return Err(
                    ServiceError::BadRequest(String::from_str("Start date must be in the future")),
                );
            }
        },
        None => {},
    }
    match repository::update_exam(store, exam_id, new_exam) {
        Ok(e) => Ok(e),
        Err(e) => {
            proof {
                assert(false);
            }
            Err(e)
        },
    }
}

/// Apply a partial update to an exam as of the current clock time.
pub fn update_exam(store: &mut Store, user_id: i32, exam_id: i32, new_exam: UpdateExam) -> (r:
    Result<Exam, ServiceError>)
    requires
        old(store).wf(),
    ensures
        final(store).wf(),
        exists|now: i64|
            update_exam_post(*old(store), *final(store), now, user_id, exam_id, new_exam, r),
{
    let now = current_timestamp();
    update_exam_at(store, now, user_id, exam_id, new_exam)
}

// ----- deleting an exam -----

/// Everything `delete_exam` does: the exam must exist and the caller must be
/// the owning class's teacher; then the exam row goes, and its question
/// associations and submitted answers go with it.
pub open spec fn delete_exam_post(
    pre: Store,
    post: Store,
    user_id: i32,
    exam_id: i32,
    r: Result<(), ServiceError>,
) -> bool {
    match r {
        Ok(_) => {
            &&& pre.has_exam(exam_id)
            &&& is_class_teacher_spec(pre, user_id, pre.exam(exam_id).class_id)
            &&& post.exams@ == pre.exams@.remove(pre.exam_index(exam_id))
            &&& post.exam_questions@ == without_exam_pairs(pre.exam_questions@, exam_id)
            &&& post.student_answers@ == without_exam_student_answers(
                pre.student_answers@,
                exam_id,
            )
            &&& unchanged_except_exam_cascade(pre, post)
        },
        Err(e) => {
            &&& post == pre
            &&& if !pre.has_exam(exam_id) {
                e matches ServiceError::BadRequest(m) && m@ == "Exam not found"@
            } else {
                !is_class_teacher_spec(pre, user_id, pre.exam(exam_id).class_id) && e
                    == ServiceError::Forbidden
            }
        },
    }
}

/// Delete an exam.
pub fn delete_exam(store: &mut Store, user_id: i32, exam_id: i32) -> (r: Result<(), ServiceError>)
    requires
        old(store).wf(),
    ensures
        final(store).wf(),
        delete_exam_post(*old(store), *final(store), user_id, exam_id, r),
{
    let existing = match repository::get_exam_by_id(store, exam_id) {
        Ok(o) => o,
        Err(e) => {
            return Err(e);
        },
    };
    let existing = match existing {
        Some(e) => e,
        None => {
            return Err(ServiceError::BadRequest(String::from_str("Exam not found")));
        },
    };
    let is_teacher = match is_class_teacher(store, user_id, existing.class_id) {
        Ok(b) => b,
        Err(e) => {
            return Err(e);
        },
    };
    if !is_teacher {
        return Err(ServiceError::Forbidden);
    }
    repository::delete_exam(store, exam_id)
}

// ----- assigning questions to an exam -----

/// Everything `update_questions_in_exam` does at time `now`: the exam must
/// exist, the caller must be the owning teacher, and the exam must not have
/// started; every given question id must resolve, the first missing one
/// winning; then the exam's question set is atomically replaced. A rejected
/// call leaves the store — and so the previous question set — untouched.
pub open spec fn update_questions_post(
    pre: Store,
    post: Store,
    now: i64,
    user_id: i32,
    exam_id: i32,
    question_ids: Seq<i32>,
    r: Result<(), ServiceError>,
) -> bool {
    match r {
        Ok(_) => {
            &&& pre.has_exam(exam_id)
            &&& is_class_teacher_spec(pre, user_id, pre.exam(exam_id).class_id)
            &&& pre.exam(exam_id).start_date >= now
            &&& (forall|k: int|
                0 <= k < question_ids.len() ==> pre.has_question(#[trigger] question_ids[k]))
            &&& distinct_ids(question_ids)
            &&& post.exam_questions@ == without_exam_pairs(pre.exam_questions@, exam_id)
                + pairs_for(exam_id, question_ids)
            &&& unchanged_except_exam_questions(pre, post)
        },
        Err(e) => {
            &&& post == pre
            &&& if !pre.has_exam(exam_id) {
                e matches ServiceError::BadRequest(m) && m@ == "Exam not found"@
            } else if !is_class_teacher_spec(pre, user_id, pre.exam(exam_id).class_id) {
                e == ServiceError::Forbidden
            } else if pre.exam(exam_id).start_date < now {
                e matches ServiceError::BadRequest(m) && m@ == "Exam already started"@
            } else if !(forall|k: int|
                0 <= k < question_ids.len() ==> pre.has_question(#[trigger] question_ids[k])) {
                exists|k: int|
                    {
                        &&& 0 <= k < question_ids.len()
                        &&& !pre.has_question(question_ids[k])
                        &&& (forall|m: int|
                            0 <= m < k ==> pre.has_question(#[trigger] question_ids[m]))
                        &&& e matches ServiceError::BadRequest(msg) && msg@
                            == question_not_found_msg(question_ids[k])
                    }
            } else {
                !distinct_ids(question_ids) && e == ServiceError::InternalServerError
            }
        },
    }
}

/// Replace the question set of an exam, taking the current time as an
/// argument.
#[verifier::loop_isolation(false)]
pub fn update_questions_in_exam_at(
    store: &mut Store,
    now: i64,
    user_id: i32,
    exam_id: i32,
    question_ids: Vec<i32>,
) -> (r: Result<(), ServiceError>)
    requires
        old(store).wf(),
    ensures
        final(store).wf(),
        update_questions_post(
            *old(store),
            *final(store),
            now,
            user_id,
            exam_id,
            question_ids@,
            r,
        ),
{
    let existing = match repository::get_exam_by_id(store, exam_id) {
        Ok(o) => o,
        Err(e) => {
            return Err(e);
        },
    };
    let existing = match existing {
        Some(e) => e,
        None => {
            return Err(ServiceError::BadRequest(String::from_str("Exam not found")));
        },
    };
    let is_teacher = match is_class_teacher(store, user_id, existing.class_id) {
        Ok(b) => b,
        Err(e) => {
            return Err(e);
        },
    };
    if !is_teacher {
        return Err(ServiceError::Forbidden);
    }
    if existing.start_date < now {
        return Err(ServiceError::BadRequest(String::from_str("Exam already started")));
    }
    let n = question_ids.len();
    let mut i: usize = 0;
    while i < n
        invariant
            i <= n,
            n == question_ids@.len(),
            forall|k: int| 0 <= k < i ==> store.has_question(#[trigger] question_ids@[k]),
        decreases n - i,
    {
        match get_question_by_id(store, question_ids[i]) {
            Ok(Some(_)) => {},
            Ok(None) => {
                proof {
                    assert(!store.has_question(question_ids@[i as int]));
                }
                return Err(ServiceError::BadRequest(question_not_found_message(question_ids[i])));
            },
            Err(e) => {
                return Err(e);
            },
        }
        i += 1;
    }
    repository::update_questions_in_exam(store, exam_id, question_ids)
}

/// Replace the question set of an exam as of the current clock time.
pub fn update_questions_in_exam(
    store: &mut Store,
    user_id: i32,
    exam_id: i32,
    question_ids: Vec<i32>,
) -> (r: Result<(), ServiceError>)
    requires
        old(store).wf(),
    ensures
        final(store).wf(),
        exists|now: i64|
            update_questions_post(
                *old(store),
                *final(store),
                now,
                user_id,
                exam_id,
                question_ids@,
                r,
            ),
{
    let now = current_timestamp();
    update_questions_in_exam_at(store, now, user_id, exam_id, question_ids)
}

// ----- reading an exam's questions -----

/// How a question handed to a student relates to the one the teacher sees:
/// the same question and answer data, with every correctness flag redacted.
pub open spec fn redacted_question(q0: QuestionWithAnswersDto, q1: QuestionWithAnswersDto) -> bool {
    &&& q1.id == q0.id
    &&& q1.question@ == q0.question@
    &&& q1.answers@.len() == q0.answers@.len()
    &&& forall|j: int|
        0 <= j < q1.answers@.len() ==> ((#[trigger] q1.answers@[j]).id == q0.answers@[j].id
            && q1.answers@[j].answer@ == q0.answers@[j].answer@ && q1.answers@[j].is_correct
            is None)
}

/// Redact the correctness flag of every answer, in place.
#[verifier::loop_isolation(false)]
pub fn redact_answers(questions: &mut Vec<QuestionWithAnswersDto>)
    ensures
        final(questions)@.len() == old(questions)@.len(),
        forall|i: int|
            0 <= i < old(questions)@.len() ==> redacted_question(
                old(questions)@[i],
                #[trigger] final(questions)@[i],
            ),
{
    let n = questions.len();
    let mut i: usize = 0;
    while i < n
        invariant
            i <= n,
            n == questions@.len(),
            questions@.len() == old(questions)@.len(),
            forall|k: int| i <= k < n ==> questions@[k] == old(questions)@[k],
            forall|k: int|
                0 <= k < i ==> redacted_question(old(questions)@[k], #[trigger] questions@[k]),
        decreases n - i,
    {
        let m = questions[i].answers.len();
        let mut new_answers: Vec<AnswerDto> = Vec::new();
        let mut j: usize = 0;
        while j < m
            invariant
                j <= m,
                i < n,
                n == questions@.len(),
                m == questions@[i as int].answers@.len(),
                questions@[i as int] == old(questions)@[i as int],
                new_answers@.len() == j,
                forall|t: int|
                    0 <= t < j ==> ((#[trigger] new_answers@[t]).id == questions@[
                        i as int
                    ].answers@[t].id && new_answers@[t].answer@ == questions@[
                        i as int
                    ].answers@[t].answer@ && new_answers@[t].is_correct is None),
            decreases m - j,
        {
            let a_id = questions[i].answers[j].id;
            let a_text = questions[i].answers[j].answer.clone();
            new_answers.push(AnswerDto { id: a_id, answer: a_text, is_correct: None });
            j += 1;
        }
        let q_id = questions[i].id;
        let q_text = questions[i].question.clone();
        questions[i] = QuestionWithAnswersDto { id: q_id, question: q_text, answers: new_answers };
        i += 1;
    }
}

/// A redacted copy of a question the teacher would see is exactly the
/// student view of it.
proof fn lemma_redacted_matches(
    s: Store,
    question_id: i32,
    q0: QuestionWithAnswersDto,
    q1: QuestionWithAnswersDto,
)
    requires
        question_dto_matches(s, question_id, q0, false),
        redacted_question(q0, q1),
    ensures
        question_dto_matches(s, question_id, q1, true),
{
    assert forall|j: int|
        0 <= j < q1.answers@.len() implies repository::answer_dto_matches(
        repository::answers_for(s.answers@, question_id)[j],
        q1.answers@[j],
        true,
    ) by {
        assert(repository::answer_dto_matches(
            repository::answers_for(s.answers@, question_id)[j],
            q0.answers@[j],
            false,
        ));
    }
}

/// Everything `get_questions_in_exam_as_student` does at time `now`: the
/// exam must exist, the student must be enrolled in its class, and the exam
/// must have started; the exam's questions come back with their answers, the
/// correctness flags redacted for as long as the exam has not ended.
pub open spec fn questions_as_student_post(
    s: Store,
    now: i64,
    student_id: i32,
    exam_id: i32,
    r: Result<Vec<QuestionWithAnswersDto>, ServiceError>,
) -> bool {
    match r {
        Ok(v) => {
            &&& s.has_exam(exam_id)
            &&& s.is_enrolled(s.exam(exam_id).class_id, student_id)
            &&& s.exam(exam_id).start_date <= now
            &&& questions_output_matches(s, exam_id, v@, s.exam(exam_id).end_date > now)
        },
        Err(e) => {
            if !s.has_exam(exam_id) {
                e matches ServiceError::BadRequest(m) && m@ == "Exam not found"@
            } else if !s.is_enrolled(s.exam(exam_id).class_id, student_id) {
                e == ServiceError::Forbidden
            } else {
                &&& s.exam(exam_id).start_date > now
                &&& e matches ServiceError::BadRequest(m) && m@ == "Exam not started yet"@
            }
        },
    }
}

/// Hand an exam's questions to an enrolled student, taking the current time
/// as an argument.
pub fn get_questions_in_exam_as_student_at(
    store: &Store,
    now: i64,
    student_id: i32,
    exam_id: i32,
) -> (r: Result<Vec<QuestionWithAnswersDto>, ServiceError>)
    requires
        store.wf(),
    ensures
        questions_as_student_post(*store, now, student_id, exam_id, r),
{
    let exam = match repository::get_exam_by_id(store, exam_id) {
        Ok(o) => o,
        Err(e) => {
            return Err(e);
        },
    };
    let exam = match exam {
        Some(e) => e,
        None => {
            return Err(ServiceError::BadRequest(String::from_str("Exam not found")));
        },
    };
    let is_student = match is_student_enrolled(store, exam.class_id, student_id) {
        Ok(b) => b,
        Err(e) => {
            return Err(e);
        },
    };
    if !is_student {
        return Err(ServiceError::Forbidden);
    }
    if exam.start_date > now {
        return Err(ServiceError::BadRequest(String::from_str("Exam not started yet")));
    }
    let mut questions = match repository::get_questions_in_exam(store, exam_id) {
        Ok(v) => v,
        Err(e) => {
            return Err(e);
        },
    };
    if exam.end_date > now {
        let ghost visible = questions@;
        redact_answers(&mut questions);
        proof {
            assert forall|i: int|
                0 <= i < questions@.len() implies question_dto_matches(
                *store,
                repository::exam_question_ids(*store, exam_id)[i],
                #[trigger] questions@[i],
                true,
            ) by {
                lemma_redacted_matches(
                    *store,
                    repository::exam_question_ids(*store, exam_id)[i],
                    visible[i],
                    questions@[i],
                );
            }
        }
    }
    Ok(questions)
}

/// Hand an exam's questions to an enrolled student as of the current clock
/// time.
pub fn get_questions_in_exam_as_student(store: &Store, student_id: i32, exam_id: i32) -> (r: Result<
    Vec<QuestionWithAnswersDto>,
    ServiceError,
>)
    requires
        store.wf(),
    ensures
        exists|now: i64| questions_as_student_post(*store, now, student_id, exam_id, r),
{
    let now = current_timestamp();
    get_questions_in_exam_as_student_at(store, now, student_id, exam_id)
}

/// Everything `get_questions_in_exam_as_teacher` does: the exam must exist;
/// its questions come back with every correctness flag visible.
pub open spec fn questions_as_teacher_post(
    s: Store,
    exam_id: i32,
    r: Result<Vec<QuestionWithAnswersDto>, ServiceError>,
) -> bool {
    match r {
        Ok(v) => s.has_exam(exam_id) && questions_output_matches(s, exam_id, v@, false),
        Err(e) => {
            &&& !s.has_exam(exam_id)
            &&& e matches ServiceError::BadRequest(m) && m@ == "Exam not found"@
        },
    }
}

/// Hand an exam's questions to a teacher, correctness visible.
pub fn get_questions_in_exam_as_teacher(store: &Store, exam_id: i32) -> (r: Result<
    Vec<QuestionWithAnswersDto>,
    ServiceError,
>)
    requires
        store.wf(),
    ensures
        questions_as_teacher_post(*store, exam_id, r),
{
    let exam = match repository::get_exam_by_id(store, exam_id) {
        Ok(o) => o,
        Err(e) => {
            return Err(e);
        },
    };
    match exam {
        Some(_) => repository::get_questions_in_exam(store, exam_id),
        None => Err(ServiceError::BadRequest(String::from_str("Exam not found"))),
    }
}

// ----- submitting an answer -----

/// Everything `submit_answer_to_question_in_exam` does at time `now`, in
/// check order: the exam must exist, the caller must be enrolled, `now` must
/// lie within the inclusive exam window, the question must exist, and the
/// chosen answer must be an answer of exactly that question; then the
/// student's answer is upserted under its `(user, exam, question)` key. A
/// rejected call writes nothing.
pub open spec fn submit_answer_post(
    pre: Store,
    post: Store,
    now: i64,
    user_id: i32,
    exam_id: i32,
    question_id: i32,
    answer_id: i32,
    r: Result<(), ServiceError>,
) -> bool {
    match r {
        Ok(_) => {
            &&& pre.has_exam(exam_id)
            &&& pre.is_enrolled(pre.exam(exam_id).class_id, user_id)
            &&& pre.exam(exam_id).start_date <= now <= pre.exam(exam_id).end_date
            &&& pre.has_question(question_id)
            &&& answer_belongs(pre, answer_id, question_id)
            &&& unchanged_except_student_answers(pre, post)
            &&& if pre.has_student_answer(user_id, exam_id, question_id) {
                &&& post.student_answers@ == pre.student_answers@.update(
                    pre.student_answer_index(user_id, exam_id, question_id),
                    (StudentAnswer {
                        id: pre.student_answer(user_id, exam_id, question_id).id,
                        user_id: user_id,
                        exam_id: exam_id,
                        question_id: question_id,
                        answer_id: answer_id,
                        created_at: pre.student_answer(user_id, exam_id, question_id).created_at,
                    }),
                )
                &&& post.next_student_answer_id == pre.next_student_answer_id
            } else {
                &&& post.student_answers@ == pre.student_answers@.push(
                    StudentAnswer {
                        id: pre.next_student_answer_id,
                        user_id: user_id,
                        exam_id: exam_id,
                        question_id: question_id,
                        answer_id: answer_id,
                        created_at: now,
                    },
                )
                &&& post.next_student_answer_id == pre.next_student_answer_id + 1
            }
        },
        Err(e) => {
            &&& post == pre
            &&& if !pre.has_exam(exam_id) {
                e matches ServiceError::BadRequest(m) && m@ == "Exam not found"@
            } else if !pre.is_enrolled(pre.exam(exam_id).class_id, user_id) {
                e == ServiceError::Forbidden
            } else if pre.exam(exam_id).start_date > now {
                e matches ServiceError::BadRequest(m) && m@ == "Exam not started yet"@
            } else if pre.exam(exam_id).end_date < now {
                e matches ServiceError::BadRequest(m) && m@ == "Exam already ended"@
            } else if !pre.has_question(question_id) {
                e matches ServiceError::BadRequest(m) && m@ == "Question not found"@
            } else if !answer_belongs(pre, answer_id, question_id) {
                e matches ServiceError::BadRequest(m) && m@ == "Answer not found"@
            } else {
                &&& e == ServiceError::InternalServerError
                &&& !pre.has_student_answer(user_id, exam_id, question_id)
                &&& pre.next_student_answer_id == i32::MAX
            }
        },
    }
}

/// Submit a student's answer, taking the current time as an argument.
#[verifier::loop_isolation(false)]
pub fn submit_answer_to_question_in_exam_at(
    store: &mut Store,
    now: i64,
    user_id: i32,
    exam_id: i32,
    question_id: i32,
    answer_id: i32,
) -> (r: Result<(), ServiceError>)
    requires
        old(store).wf(),
    ensures
        final(store).wf(),
        submit_answer_post(
            *old(store),
            *final(store),
            now,
            user_id,
            exam_id,
            question_id,
            answer_id,
            r,
        ),
{
    let exam = match repository::get_exam_by_id(store, exam_id) {
        Ok(o) => o,
        Err(e) => {
            return Err(e);
        },
    };
    let exam = match exam {
        Some(e) => e,
        None => {
            return Err(ServiceError::BadRequest(String::from_str("Exam not found")));
        },
    };
    let is_enrolled = match is_student_enrolled(store, exam.class_id, user_id) {
        Ok(b) => b,
        Err(e) => {
            return Err(e);
        },
    };
    if !is_enrolled {
        return Err(ServiceError::Forbidden);
    }
    if exam.start_date > now {
        return Err(ServiceError::BadRequest(String::from_str("Exam not started yet")));
    }
    if exam.end_date < now {
        return Err(ServiceError::BadRequest(String::from_str("Exam already ended")));
    }
    let question = match get_question_by_id(store, question_id) {
        Ok(o) => o,
        Err(e) => {
            return Err(e);
        },
    };
    if question.is_none() {
        return Err(ServiceError::BadRequest(String::from_str("Question not found")));
    }
    let answers = match list_answers_by_question_id(store, question_id) {
        Ok(v) => v,
        Err(e) => {
            return Err(e);
        },
    };
    proof {
        lemma_answers_for_complete(store.answers@, question_id, answer_id);
    }
    let n = answers.len();
    let mut i: usize = 0;
    let mut found: Option<usize> = None;
    while i < n
        invariant
            i <= n,
            n == answers@.len(),
            match found {
                Some(t) => t < n && answers@[t as int].id == answer_id,
                None => forall|t: int| 0 <= t < i ==> answers@[t].id != answer_id,
            },
        decreases n - i,
    {
        if answers[i].id == answer_id {
            found = Some(i);
            break ;
        }
        i += 1;
    }
    let found = match found {
        Some(t) => t,
        None => {
            return Err(ServiceError::BadRequest(String::from_str("Answer not found")));
        },
    };
    if answers[found].question_id != question_id {
        return Err(ServiceError::BadRequest(String::from_str("Answer not found")));
    }
    repository::submit_answer_to_question_in_exam(
        store,
        now,
        exam_id,
        question_id,
        user_id,
        answer_id,
    )
}

/// Submit a student's answer as of the current clock time.
pub fn submit_answer_to_question_in_exam(
    store: &mut Store,
    user_id: i32,
    exam_id: i32,
    question_id: i32,
    answer_id: i32,
) -> (r: Result<(), ServiceError>)
    requires
        old(store).wf(),
    ensures
        final(store).wf(),
        exists|now: i64|
            submit_answer_post(
                *old(store),
                *final(store),
                now,
                user_id,
                exam_id,
                question_id,
                answer_id,
                r,
            ),
{
    let now = current_timestamp();
    submit_answer_to_question_in_exam_at(store, now, user_id, exam_id, question_id, answer_id)
}

// ----- results -----

/// Everything `get_exam_results_as_student` does at time `now`: the exam
/// must exist and must have both started and ended; then the caller's own
/// result is computed.
pub open spec fn results_as_student_post(
    s: Store,
    now: i64,
    user_id: i32,
    exam_id: i32,
    r: Result<StudentExamResultDto, ServiceError>,
) -> bool {
    match r {
        Ok(d) => {
            &&& s.has_exam(exam_id)
            &&& s.exam(exam_id).start_date <= now
            &&& s.exam(exam_id).end_date <= now
            &&& student_result_available(s, user_id, exam_id)
            &&& result_dto_matches(s, user_id, exam_id, d)
        },
        Err(e) => {
            if !s.has_exam(exam_id) {
                e matches ServiceError::BadRequest(m) && m@ == "Exam not found"@
            } else if s.exam(exam_id).start_date > now {
                e matches ServiceError::BadRequest(m) && m@ == "Exam not started yet"@
            } else if s.exam(exam_id).end_date > now {
                e matches ServiceError::BadRequest(m) && m@ == "Exam not ended yet"@
            } else {
                student_results_error(s, user_id, exam_id, e)
            }
        },
    }
}

/// Compute the caller's result for a closed exam, taking the current time as
/// an argument.
pub fn get_exam_results_as_student_at(store: &Store, now: i64, user_id: i32, exam_id: i32) -> (r:
    Result<StudentExamResultDto, ServiceError>)
    requires
        store.wf(),
    ensures
        results_as_student_post(*store, now, user_id, exam_id, r),
{
    let exam = match repository::get_exam_by_id(store, exam_id) {
        Ok(o) => o,
        Err(e) => {
            return Err(e);
        },
    };
    let exam = match exam {
        Some(e) => e,
        None => {
            return Err(ServiceError::BadRequest(String::from_str("Exam not found")));
        },
    };
    if exam.start_date > now {
        return Err(ServiceError::BadRequest(String::from_str("Exam not started yet")));
    }
    if exam.end_date > now {
        return Err(ServiceError::BadRequest(String::from_str("Exam not ended yet")));
    }
    repository::get_exam_results_as_student(store, exam_id, user_id)
}

/// Compute the caller's result for a closed exam as of the current clock
/// time.
pub fn get_exam_results_as_student(store: &Store, user_id: i32, exam_id: i32) -> (r: Result<
    StudentExamResultDto,
    ServiceError,
>)
    requires
        store.wf(),
    ensures
        exists|now: i64| results_as_student_post(*store, now, user_id, exam_id, r),
{
    let now = current_timestamp();
    get_exam_results_as_student_at(store, now, user_id, exam_id)
}

/// Everything `get_exam_results_as_teacher` does: the exam must exist and
/// the caller must be the owning teacher; then one result is computed per
/// distinct student who submitted at least one answer, in order of first
/// submission — a student who never submitted does not appear.
pub open spec fn results_as_teacher_post(
    s: Store,
    user_id: i32,
    exam_id: i32,
    r: Result<Vec<StudentExamResultDto>, ServiceError>,
) -> bool {
    match r {
        Ok(v) => {
            &&& s.has_exam(exam_id)
            &&& is_class_teacher_spec(s, user_id, s.exam(exam_id).class_id)
            &&& teacher_results_output_matches(s, exam_id, v@)
        },
        Err(e) => {
            if !s.has_exam(exam_id) {
                e matches ServiceError::BadRequest(m) && m@ == "Exam not found"@
            } else if !is_class_teacher_spec(s, user_id, s.exam(exam_id).class_id) {
                e == ServiceError::Forbidden
            } else {
                teacher_results_error(s, exam_id, e)
            }
        },
    }
}

/// Compute the result of every submitting student of an exam, for its
/// owning teacher.
pub fn get_exam_results_as_teacher(store: &Store, user_id: i32, exam_id: i32) -> (r: Result<
    Vec<StudentExamResultDto>,
    ServiceError,
>)
    requires
        store.wf(),
    ensures
        results_as_teacher_post(*store, user_id, exam_id, r),
{
    let exam = match repository::get_exam_by_id(store, exam_id) {
        Ok(o) => o,
        Err(e) => {
            return Err(e);
        },
    };
    let exam = match exam {
        Some(e) => e,
        None => {
            return Err(ServiceError::BadRequest(String::from_str("Exam not found")));
        },
    };
    let is_teacher = match is_class_teacher(store, user_id, exam.class_id) {
        Ok(b) => b,
        Err(e) => {
            return Err(e);
        },
    };
    if !is_teacher {
        return Err(ServiceError::Forbidden);
    }
    repository::get_exam_results_as_teacher(store, exam_id)
}

} // verus!
