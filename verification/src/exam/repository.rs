use vstd::prelude::*;

use crate::errors::ServiceError;
use crate::exam::dto::{StudentExamAnswerResultDto, StudentExamResultDto};
use crate::exam::models::{Exam, ExamQuestion, NewExam, StudentAnswer, UpdateExam};
use crate::question::dto::{AnswerDto, QuestionWithAnswersDto};
use crate::question::models::Answer;
use crate::store::Store;
use vstd::string::StringExecFns;

verus! {

// ----- spec-level descriptions of what the store's tables yield -----

/// The exams of one class, in row order.
pub open spec fn exams_of_class(exams: Seq<Exam>, class_id: i32) -> Seq<Exam>
    decreases exams.len(),
{
    if exams.len() == 0 {
        Seq::empty()
    } else {
        let init = exams_of_class(exams.drop_last(), class_id);
        if exams.last().class_id == class_id {
            init.push(exams.last())
        } else {
            init
        }
    }
}

/// The association rows that do not belong to this exam, in row order.
pub open spec fn without_exam_pairs(rows: Seq<ExamQuestion>, exam_id: i32) -> Seq<ExamQuestion>
    decreases rows.len(),
{
    if rows.len() == 0 {
        Seq::empty()
    } else {
        let init = without_exam_pairs(rows.drop_last(), exam_id);
        if rows.last().exam_id != exam_id {
            init.push(rows.last())
        } else {
            init
        }
    }
}

/// The student-answer rows that do not belong to this exam, in row order.
pub open spec fn without_exam_student_answers(rows: Seq<StudentAnswer>, exam_id: i32) -> Seq<
    StudentAnswer,
>
    decreases rows.len(),
{
    if rows.len() == 0 {
        Seq::empty()
    } else {
        let init = without_exam_student_answers(rows.drop_last(), exam_id);
        if rows.last().exam_id != exam_id {
            init.push(rows.last())
        } else {
            init
        }
    }
}

/// The association rows of assigning exactly these questions to this exam.
pub open spec fn pairs_for(exam_id: i32, question_ids: Seq<i32>) -> Seq<ExamQuestion> {
    Seq::new(
        question_ids.len(),
        |i: int| ExamQuestion { exam_id, question_id: question_ids[i] },
    )
}

/// No id occurs twice.
pub open spec fn distinct_ids(ids: Seq<i32>) -> bool {
    forall|i: int, j: int| 0 <= i < j < ids.len() ==> ids[i] != ids[j]
}

/// The question ids assigned to this exam whose question still exists, in
/// association-row order: what the join of the association table with the
/// question bank yields.
pub open spec fn joined_qids_rec(rows: Seq<ExamQuestion>, s: Store, exam_id: i32) -> Seq<i32>
    decreases rows.len(),
{
    if rows.len() == 0 {
        Seq::empty()
    } else {
        let init = joined_qids_rec(rows.drop_last(), s, exam_id);
        if rows.last().exam_id == exam_id && s.has_question(rows.last().question_id) {
            init.push(rows.last().question_id)
        } else {
            init
        }
    }
}

/// The question ids of this exam, as its reads resolve them.
pub open spec fn exam_question_ids(s: Store, exam_id: i32) -> Seq<i32> {
    joined_qids_rec(s.exam_questions@, s, exam_id)
}

/// The answers of one question, in row order.
pub open spec fn answers_for(answers: Seq<Answer>, question_id: i32) -> Seq<Answer>
    decreases answers.len(),
{
    if answers.len() == 0 {
        Seq::empty()
    } else {
        let init = answers_for(answers.drop_last(), question_id);
        if answers.last().question_id == question_id {
            init.push(answers.last())
        } else {
            init
        }
    }
}

/// How one outgoing answer relates to the stored one: same id and text, and
/// its correctness either visible or redacted to unknown.
pub open spec fn answer_dto_matches(a: Answer, d: AnswerDto, redacted: bool) -> bool {
    &&& d.id == a.id
    &&& d.answer@ == a.answer@
    &&& d.is_correct == (if redacted {
        Option::<bool>::None
    } else {
        Option::Some(a.is_correct)
    })
}

/// How one outgoing question relates to the store: the stored text and all
/// the stored answers of the question, in row order.
pub open spec fn question_dto_matches(
    s: Store,
    question_id: i32,
    d: QuestionWithAnswersDto,
    redacted: bool,
) -> bool {
    &&& d.id == question_id
    &&& d.question@ == s.question(question_id).question@
    &&& d.answers@.len() == answers_for(s.answers@, question_id).len()
    &&& forall|j: int|
        0 <= j < d.answers@.len() ==> answer_dto_matches(
            answers_for(s.answers@, question_id)[j],
            d.answers@[j],
            redacted,
        )
}

/// How the whole question listing of an exam relates to the store: one entry
/// per resolved question id, in association order.
pub open spec fn questions_output_matches(
    s: Store,
    exam_id: i32,
    out: Seq<QuestionWithAnswersDto>,
    redacted: bool,
) -> bool {
    &&& out.len() == exam_question_ids(s, exam_id).len()
    &&& forall|i: int|
        0 <= i < out.len() ==> question_dto_matches(
            s,
            exam_question_ids(s, exam_id)[i],
            out[i],
            redacted,
        )
}

// ----- spec-level grading -----

/// The graded entry of one question for one student: the submitted answer
/// with its stored correctness, or the no-answer sentinel 0 counted as
/// incorrect.
pub open spec fn graded_row(s: Store, user_id: i32, exam_id: i32, question_id: i32) -> StudentExamAnswerResultDto {
    if s.has_student_answer(user_id, exam_id, question_id) {
        let sa = s.student_answer(user_id, exam_id, question_id);
        StudentExamAnswerResultDto {
            question_id: question_id,
            answer_id: sa.answer_id,
            is_correct: s.answer(sa.answer_id).is_correct,
        }
    } else {
        StudentExamAnswerResultDto { question_id: question_id, answer_id: 0, is_correct: false }
    }
}

/// The graded entries of one student for one exam, one per resolved
/// question, in association order.
pub open spec fn graded_rows(s: Store, user_id: i32, exam_id: i32) -> Seq<
    StudentExamAnswerResultDto,
> {
    Seq::new(
        exam_question_ids(s, exam_id).len(),
        |i: int| graded_row(s, user_id, exam_id, exam_question_ids(s, exam_id)[i]),
    )
}

/// How many graded entries are correct.
pub open spec fn count_correct(rows: Seq<StudentExamAnswerResultDto>) -> int
    decreases rows.len(),
{
    if rows.len() == 0 {
        0
    } else {
        count_correct(rows.drop_last()) + (if rows.last().is_correct {
            1int
        } else {
            0int
        })
    }
}

/// Grading resolves when every submitted answer of the student for this
/// exam's questions still exists in the answer table.
pub open spec fn grading_resolvable(s: Store, user_id: i32, exam_id: i32) -> bool {
    forall|i: int|
        0 <= i < exam_question_ids(s, exam_id).len() ==> (s.has_student_answer(
            user_id,
            exam_id,
            #[trigger] exam_question_ids(s, exam_id)[i],
        ) ==> s.has_answer(
            s.student_answer(user_id, exam_id, exam_question_ids(s, exam_id)[i]).answer_id,
        ))
}

/// How one student's result relates to the store: the stored user, the
/// graded entries and the score fraction over all of the exam's questions.
pub open spec fn result_dto_matches(
    s: Store,
    user_id: i32,
    exam_id: i32,
    d: StudentExamResultDto,
) -> bool {
    &&& d.id == user_id
    &&& d.name@ == s.user(user_id).name@
    &&& d.student_answer_results@ == graded_rows(s, user_id, exam_id)
    &&& d.correct_count == count_correct(graded_rows(s, user_id, exam_id))
    &&& d.total_questions == graded_rows(s, user_id, exam_id).len()
}

/// A student's result can be computed: grading resolves and the user exists.
pub open spec fn student_result_available(s: Store, user_id: i32, exam_id: i32) -> bool {
    grading_resolvable(s, user_id, exam_id) && s.has_user(user_id)
}

/// Which failure computing one student's result reports: the generic
/// persistence failure when a submitted answer no longer resolves, else the
/// unknown student.
pub open spec fn student_results_error(s: Store, user_id: i32, exam_id: i32, e: ServiceError) -> bool {
    if !grading_resolvable(s, user_id, exam_id) {
        e == ServiceError::InternalServerError
    } else {
        &&& !s.has_user(user_id)
        &&& e matches ServiceError::BadRequest(m) && m@ == "Student not found"@
    }
}

/// An answer of this question with this id exists.
pub open spec fn answer_belongs(s: Store, answer_id: i32, question_id: i32) -> bool {
    exists|i: int|
        0 <= i < s.answers@.len() && s.answers@[i].id == answer_id && s.answers@[i].question_id
            == question_id
}

/// The answers of a question are exactly the rows of that question, and an
/// id occurs among them exactly when such a row exists.
pub proof fn lemma_answers_for_complete(answers: Seq<Answer>, question_id: i32, answer_id: i32)
    ensures
        forall|t: int|
            0 <= t < answers_for(answers, question_id).len() ==> (#[trigger] answers_for(
                answers,
                question_id,
            )[t]).question_id == question_id,
        (exists|t: int|
            0 <= t < answers_for(answers, question_id).len() && answers_for(
                answers,
                question_id,
            )[t].id == answer_id) <==> (exists|i: int|
            0 <= i < answers.len() && answers[i].id == answer_id && answers[i].question_id
                == question_id),
    decreases answers.len(),
{
    if answers.len() > 0 {
        let init = answers.drop_last();
        lemma_answers_for_complete(init, question_id, answer_id);
        let f_init = answers_for(init, question_id);
        let f_all = answers_for(answers, question_id);
        if answers.last().question_id == question_id {
            assert(f_all == f_init.push(answers.last()));
            assert forall|t: int|
                0 <= t < f_all.len() implies (#[trigger] f_all[t]).question_id == question_id by {
                if t < f_init.len() {
                    assert(f_all[t] == f_init[t]);
                } else {
                    assert(f_all[t] == answers.last());
                }
            }
            if exists|t: int| 0 <= t < f_all.len() && f_all[t].id == answer_id {
                let t = choose|t: int| 0 <= t < f_all.len() && f_all[t].id == answer_id;
                if t < f_init.len() {
                    assert(f_init[t].id == answer_id);
                    let w = choose|i: int|
                        0 <= i < init.len() && init[i].id == answer_id && init[i].question_id
                            == question_id;
                    assert(answers[w].id == answer_id && answers[w].question_id == question_id);
                } else {
                    assert(answers[answers.len() - 1].id == answer_id);
                }
            }
            if exists|i: int|
                0 <= i < answers.len() && answers[i].id == answer_id && answers[i].question_id
                    == question_id {
                let i = choose|i: int|
                    0 <= i < answers.len() && answers[i].id == answer_id && answers[i].question_id
                        == question_id;
                if i < init.len() {
                    assert(init[i].id == answer_id && init[i].question_id == question_id);
                    let t = choose|t: int| 0 <= t < f_init.len() && f_init[t].id == answer_id;
                    assert(f_all[t] == f_init[t]);
                } else {
                    assert(f_all[f_all.len() - 1] == answers.last());
                }
            }
        } else {
            assert(f_all == f_init);
            if exists|i: int|
                0 <= i < answers.len() && answers[i].id == answer_id && answers[i].question_id
                    == question_id {
                let i = choose|i: int|
                    0 <= i < answers.len() && answers[i].id == answer_id && answers[i].question_id
                        == question_id;
                assert(i < init.len());
                assert(init[i].id == answer_id && init[i].question_id == question_id);
            }
            if exists|t: int| 0 <= t < f_init.len() && f_init[t].id == answer_id {
                let t = choose|t: int| 0 <= t < f_init.len() && f_init[t].id == answer_id;
                let w = choose|i: int|
                    0 <= i < init.len() && init[i].id == answer_id && init[i].question_id
                        == question_id;
                assert(answers[w].id == answer_id && answers[w].question_id == question_id);
            }
        }
    }
}

/// How the teacher's result listing relates to the store: one computable
/// result per distinct submitter, in order of first submission.
pub open spec fn teacher_results_output_matches(
    s: Store,
    exam_id: i32,
    out: Seq<StudentExamResultDto>,
) -> bool {
    &&& out.len() == submitters(s, exam_id).len()
    &&& forall|i: int|
        0 <= i < out.len() ==> result_dto_matches(
            s,
            submitters(s, exam_id)[i],
            exam_id,
            #[trigger] out[i],
        )
    &&& forall|i: int|
        0 <= i < out.len() ==> student_result_available(
            s,
            #[trigger] submitters(s, exam_id)[i],
            exam_id,
        )
}

/// Which failure the teacher's result listing reports: that of the first
/// submitter whose result cannot be computed.
pub open spec fn teacher_results_error(s: Store, exam_id: i32, e: ServiceError) -> bool {
    exists|k: int|
        {
            &&& 0 <= k < submitters(s, exam_id).len()
            &&& (forall|m: int|
                0 <= m < k ==> student_result_available(
                    s,
                    #[trigger] submitters(s, exam_id)[m],
                    exam_id,
                ))
            &&& student_results_error(s, submitters(s, exam_id)[k], exam_id, e)
        }
}

/// The distinct users who submitted at least one answer to this exam, in
/// order of their first submission row.
pub open spec fn submitters_rec(rows: Seq<StudentAnswer>, exam_id: i32) -> Seq<i32>
    decreases rows.len(),
{
    if rows.len() == 0 {
        Seq::empty()
    } else {
        let init = submitters_rec(rows.drop_last(), exam_id);
        if rows.last().exam_id == exam_id && !init.contains(rows.last().user_id) {
            init.push(rows.last().user_id)
        } else {
            init
        }
    }
}

/// The submitters of an exam in the store.
pub open spec fn submitters(s: Store, exam_id: i32) -> Seq<i32> {
    submitters_rec(s.student_answers@, exam_id)
}

/// No submitter is listed twice.
pub proof fn lemma_submitters_distinct(rows: Seq<StudentAnswer>, exam_id: i32)
    ensures
        distinct_ids(submitters_rec(rows, exam_id)),
    decreases rows.len(),
{
    if rows.len() > 0 {
        let init = rows.drop_last();
        lemma_submitters_distinct(init, exam_id);
        let s_init = submitters_rec(init, exam_id);
        let s_all = submitters_rec(rows, exam_id);
        if rows.last().exam_id == exam_id && !s_init.contains(rows.last().user_id) {
            assert(s_all == s_init.push(rows.last().user_id));
            assert forall|a: int, b: int| 0 <= a < b < s_all.len() implies s_all[a] != s_all[b] by {
                if b < s_init.len() {
                    assert(s_all[a] == s_init[a] && s_all[b] == s_init[b]);
                } else {
                    assert(s_all[a] == s_init[a] && s_all[b] == rows.last().user_id);
                    assert(!s_init.contains(rows.last().user_id));
                }
            }
        } else {
            assert(s_all == s_init);
        }
    }
}

/// A user is listed exactly when some row of this exam is theirs.
pub proof fn lemma_submitters_complete(rows: Seq<StudentAnswer>, exam_id: i32, user_id: i32)
    ensures
        submitters_rec(rows, exam_id).contains(user_id) <==> exists|i: int|
            0 <= i < rows.len() && rows[i].exam_id == exam_id && rows[i].user_id == user_id,
    decreases rows.len(),
{
    if rows.len() > 0 {
        let init = rows.drop_last();
        lemma_submitters_complete(init, exam_id, user_id);
        let s_init = submitters_rec(init, exam_id);
        let s_all = submitters_rec(rows, exam_id);
        if s_init.contains(user_id) {
            let k = choose|k: int| 0 <= k < s_init.len() && s_init[k] == user_id;
            if s_all == s_init.push(rows.last().user_id) {
                assert(s_all[k] == user_id);
            } else {
                assert(s_all[k] == user_id);
            }
            assert(s_all.contains(user_id));
            let w = choose|i: int|
                0 <= i < init.len() && init[i].exam_id == exam_id && init[i].user_id == user_id;
            assert(rows[w].exam_id == exam_id && rows[w].user_id == user_id);
        } else {
            if rows.last().exam_id == exam_id && rows.last().user_id == user_id {
                // the last row itself witnesses membership
                if !s_init.contains(rows.last().user_id) {
                    assert(s_all == s_init.push(user_id));
                    assert(s_all[s_all.len() - 1] == user_id);
                    assert(s_all.contains(user_id));
                }
                assert(rows[rows.len() - 1].exam_id == exam_id && rows[rows.len() - 1].user_id
                    == user_id);
            } else {
                // neither the earlier rows nor the last row list this user
                if s_all.contains(user_id) {
                    let k = choose|k: int| 0 <= k < s_all.len() && s_all[k] == user_id;
                    if rows.last().exam_id == exam_id && !s_init.contains(rows.last().user_id) {
                        assert(s_all == s_init.push(rows.last().user_id));
                        if k < s_init.len() {
                            assert(s_init[k] == user_id);
                            assert(s_init.contains(user_id));
                        }
                    } else {
                        assert(s_all == s_init);
                        assert(s_init.contains(user_id));
                    }
                }
                if exists|i: int|
                    0 <= i < rows.len() && rows[i].exam_id == exam_id && rows[i].user_id
                        == user_id {
                    let i = choose|i: int|
                        0 <= i < rows.len() && rows[i].exam_id == exam_id && rows[i].user_id
                            == user_id;
                    assert(i < init.len());
                    assert(init[i].exam_id == exam_id && init[i].user_id == user_id);
                }
            }
        }
    }
}

/// Every resolved question id references an existing question.
pub proof fn lemma_joined_qids_have_questions(rows: Seq<ExamQuestion>, s: Store, exam_id: i32)
    ensures
        forall|i: int|
            0 <= i < joined_qids_rec(rows, s, exam_id).len() ==> s.has_question(
                joined_qids_rec(rows, s, exam_id)[i],
            ),
    decreases rows.len(),
{
    if rows.len() > 0 {
        lemma_joined_qids_have_questions(rows.drop_last(), s, exam_id);
        let init = joined_qids_rec(rows.drop_last(), s, exam_id);
        let all = joined_qids_rec(rows, s, exam_id);
        if rows.last().exam_id == exam_id && s.has_question(rows.last().question_id) {
            assert(all == init.push(rows.last().question_id));
            assert forall|i: int| 0 <= i < all.len() implies s.has_question(all[i]) by {
                if i < init.len() {
                    assert(all[i] == init[i]);
                } else {
                    assert(all[i] == rows.last().question_id);
                }
            }
        } else {
            assert(all == init);
        }
    }
}

/// What `without_exam_pairs` keeps: rows of the original, none of this exam,
/// and no row twice when the original had no row twice.
pub proof fn lemma_without_pairs_wf(rows: Seq<ExamQuestion>, exam_id: i32)
    requires
        forall|i: int, j: int| 0 <= i < j < rows.len() ==> rows[i] != rows[j],
    ensures
        forall|k: int|
            0 <= k < without_exam_pairs(rows, exam_id).len() ==> rows.contains(
                #[trigger] without_exam_pairs(rows, exam_id)[k],
            ) && without_exam_pairs(rows, exam_id)[k].exam_id != exam_id,
        forall|i: int, j: int|
            0 <= i < j < without_exam_pairs(rows, exam_id).len() ==> without_exam_pairs(
                rows,
                exam_id,
            )[i] != without_exam_pairs(rows, exam_id)[j],
    decreases rows.len(),
{
    if rows.len() > 0 {
        let init = rows.drop_last();
        lemma_without_pairs_wf(init, exam_id);
        let w_init = without_exam_pairs(init, exam_id);
        let w_all = without_exam_pairs(rows, exam_id);
        assert forall|k: int| 0 <= k < w_init.len() implies rows.contains(w_init[k]) by {
            let a = choose|a: int| 0 <= a < init.len() && init[a] == w_init[k];
            assert(rows[a] == w_init[k]);
        }
        if rows.last().exam_id != exam_id {
            assert(w_all == w_init.push(rows.last()));
            assert forall|k: int| 0 <= k < w_init.len() implies w_init[k] != rows.last() by {
                let a = choose|a: int| 0 <= a < init.len() && init[a] == w_init[k];
                assert(rows[a] == w_init[k]);
                assert(rows[a] != rows[rows.len() - 1]);
            }
            assert(rows.contains(rows.last())) by {
                assert(rows[rows.len() - 1] == rows.last());
            }
        } else {
            assert(w_all == w_init);
        }
    }
}

/// What `without_exam_student_answers` keeps: rows of the original, none of
/// this exam, with the original's key and id uniqueness intact.
pub proof fn lemma_without_student_answers_wf(rows: Seq<StudentAnswer>, exam_id: i32)
    requires
        forall|i: int, j: int| 0 <= i < j < rows.len() ==> rows[i].id != rows[j].id,
        forall|i: int, j: int|
            0 <= i < j < rows.len() ==> !(rows[i].user_id == rows[j].user_id && rows[i].exam_id
                == rows[j].exam_id && rows[i].question_id == rows[j].question_id),
    ensures
        forall|k: int|
            0 <= k < without_exam_student_answers(rows, exam_id).len() ==> rows.contains(
                #[trigger] without_exam_student_answers(rows, exam_id)[k],
            ) && without_exam_student_answers(rows, exam_id)[k].exam_id != exam_id,
        forall|i: int, j: int|
            0 <= i < j < without_exam_student_answers(rows, exam_id).len()
                ==> without_exam_student_answers(rows, exam_id)[i].id
                != without_exam_student_answers(rows, exam_id)[j].id,
        forall|i: int, j: int|
            0 <= i < j < without_exam_student_answers(rows, exam_id).len() ==> !(
            without_exam_student_answers(rows, exam_id)[i].user_id == without_exam_student_answers(
                rows,
                exam_id,
            )[j].user_id && without_exam_student_answers(rows, exam_id)[i].exam_id
                == without_exam_student_answers(rows, exam_id)[j].exam_id
                && without_exam_student_answers(rows, exam_id)[i].question_id
                == without_exam_student_answers(rows, exam_id)[j].question_id),
    decreases rows.len(),
{
    if rows.len() > 0 {
        let init = rows.drop_last();
        lemma_without_student_answers_wf(init, exam_id);
        let w_init = without_exam_student_answers(init, exam_id);
        let w_all = without_exam_student_answers(rows, exam_id);
        assert forall|k: int| 0 <= k < w_init.len() implies rows.contains(w_init[k]) by {
            let a = choose|a: int| 0 <= a < init.len() && init[a] == w_init[k];
            assert(rows[a] == w_init[k]);
        }
        if rows.last().exam_id != exam_id {
            assert(w_all == w_init.push(rows.last()));
            assert forall|k: int| 0 <= k < w_init.len() implies w_init[k].id != rows.last().id && !(
            w_init[k].user_id == rows.last().user_id && w_init[k].exam_id == rows.last().exam_id
                && w_init[k].question_id == rows.last().question_id) by {
                let a = choose|a: int| 0 <= a < init.len() && init[a] == w_init[k];
                assert(rows[a] == w_init[k]);
                assert(rows.last() == rows[rows.len() - 1]);
            }
            assert(rows.contains(rows.last())) by {
                assert(rows[rows.len() - 1] == rows.last());
            }
        } else {
            assert(w_all == w_init);
        }
    }
}

// ----- frame conditions: which tables an operation may touch -----

/// Everything but the exam table and its counter is unchanged.
pub open spec fn unchanged_except_exams(pre: Store, post: Store) -> bool {
    &&& post.users == pre.users
    &&& post.users_roles == pre.users_roles
    &&& post.classes == pre.classes
    &&& post.classes_students == pre.classes_students
    &&& post.questions == pre.questions
    &&& post.answers == pre.answers
    &&& post.exam_questions == pre.exam_questions
    &&& post.student_answers == pre.student_answers
    &&& post.next_user_id == pre.next_user_id
    &&& post.next_class_id == pre.next_class_id
    &&& post.next_question_id == pre.next_question_id
    &&& post.next_answer_id == pre.next_answer_id
    &&& post.next_student_answer_id == pre.next_student_answer_id
}

/// Everything but the exam, association and student-answer tables is
/// unchanged; the counters are untouched too.
pub open spec fn unchanged_except_exam_cascade(pre: Store, post: Store) -> bool {
    &&& post.users == pre.users
    &&& post.users_roles == pre.users_roles
    &&& post.classes == pre.classes
    &&& post.classes_students == pre.classes_students
    &&& post.questions == pre.questions
    &&& post.answers == pre.answers
    &&& post.next_user_id == pre.next_user_id
    &&& post.next_class_id == pre.next_class_id
    &&& post.next_question_id == pre.next_question_id
    &&& post.next_answer_id == pre.next_answer_id
    &&& post.next_exam_id == pre.next_exam_id
    &&& post.next_student_answer_id == pre.next_student_answer_id
}

/// Everything but the exam-question association table is unchanged.
pub open spec fn unchanged_except_exam_questions(pre: Store, post: Store) -> bool {
    &&& post.users == pre.users
    &&& post.users_roles == pre.users_roles
    &&& post.classes == pre.classes
    &&& post.classes_students == pre.classes_students
    &&& post.questions == pre.questions
    &&& post.answers == pre.answers
    &&& post.exams == pre.exams
    &&& post.student_answers == pre.student_answers
    &&& post.next_user_id == pre.next_user_id
    &&& post.next_class_id == pre.next_class_id
    &&& post.next_question_id == pre.next_question_id
    &&& post.next_answer_id == pre.next_answer_id
    &&& post.next_exam_id == pre.next_exam_id
    &&& post.next_student_answer_id == pre.next_student_answer_id
}

/// Everything but the student-answer table and its counter is unchanged.
pub open spec fn unchanged_except_student_answers(pre: Store, post: Store) -> bool {
    &&& post.users == pre.users
    &&& post.users_roles == pre.users_roles
    &&& post.classes == pre.classes
    &&& post.classes_students == pre.classes_students
    &&& post.questions == pre.questions
    &&& post.answers == pre.answers
    &&& post.exams == pre.exams
    &&& post.exam_questions == pre.exam_questions
    &&& post.next_user_id == pre.next_user_id
    &&& post.next_class_id == pre.next_class_id
    &&& post.next_question_id == pre.next_question_id
    &&& post.next_answer_id == pre.next_answer_id
    &&& post.next_exam_id == pre.next_exam_id
}

// ----- exam rows -----

/// Insert a new exam row; the store assigns its id and creation time.
pub fn create_exam(store: &mut Store, now: i64, new_exam: NewExam) -> (r: Result<
    Exam,
    ServiceError,
>)
    requires
        old(store).wf(),
    ensures
        final(store).wf(),
        match r {
            Ok(e) => {
                &&& old(store).next_exam_id < i32::MAX
                &&& e == (Exam {
                    id: old(store).next_exam_id,
                    name: new_exam.name,
                    start_date: new_exam.start_date,
                    end_date: new_exam.end_date,
                    class_id: new_exam.class_id,
                    created_at: now,
                })
                &&& final(store).exams@ == old(store).exams@.push(e)
                &&& final(store).next_exam_id == old(store).next_exam_id + 1
                &&& unchanged_except_exams(*old(store), *final(store))
            },
            Err(e) => {
                &&& e == ServiceError::InternalServerError
                &&& old(store).next_exam_id == i32::MAX
                &&& *final(store) == *old(store)
            },
        },
{
    if store.next_exam_id == i32::MAX {
        // The id space of the serial column is exhausted: the insert fails.
        return Err(ServiceError::InternalServerError);
    }
    let exam = Exam {
        id: store.next_exam_id,
        name: new_exam.name,
        start_date: new_exam.start_date,
        end_date: new_exam.end_date,
        class_id: new_exam.class_id,
        created_at: now,
    };
    let result = exam.clone();
    store.exams.push(exam);
    store.next_exam_id = store.next_exam_id + 1;
    Ok(result)
}

/// Look up an exam row by id.
pub fn get_exam_by_id(store: &Store, exam_id: i32) -> (r: Result<Option<Exam>, ServiceError>)
    requires
        store.wf(),
    ensures
        match r {
            Ok(Some(e)) => store.has_exam(exam_id) && e == store.exam(exam_id),
            Ok(None) => !store.has_exam(exam_id),
            Err(_) => false,
        },
{
    match store.find_exam(exam_id) {
        Some(i) => Ok(Some(store.exams[i].clone())),
        None => Ok(None),
    }
}

/// List the exams of one class, in row order.
#[verifier::loop_isolation(false)]
pub fn get_exams_by_class_id(store: &Store, class_id: i32) -> (r: Result<Vec<Exam>, ServiceError>)
    requires
        store.wf(),
    ensures
        match r {
            Ok(v) => v@ == exams_of_class(store.exams@, class_id),
            Err(_) => false,
        },
{
    let n = store.exams.len();
    let mut out: Vec<Exam> = Vec::new();
    let mut i: usize = 0;
    while i < n
        invariant
            i <= n,
            out@ == exams_of_class(store.exams@.subrange(0, i as int), class_id),
        decreases n - i,
    {
        proof {
            assert(store.exams@.subrange(0, i + 1).drop_last() =~= store.exams@.subrange(
                0,
                i as int,
            ));
            assert(store.exams@.subrange(0, i + 1).last() == store.exams@[i as int]);
        }
        if store.exams[i].class_id == class_id {
            out.push(store.exams[i].clone());
        }
        i += 1;
    }
    proof {
        assert(store.exams@.subrange(0, n as int) =~= store.exams@);
    }
    Ok(out)
}

/// Apply a partial update to an exam row and return the updated row. A
/// missing row maps to the generic persistence failure, as any failed
/// `UPDATE ... RETURNING` does.
pub fn update_exam(store: &mut Store, exam_id: i32, changes: UpdateExam) -> (r: Result<
    Exam,
    ServiceError,
>)
    requires
        old(store).wf(),
    ensures
        final(store).wf(),
        match r {
            Ok(e) => {
                &&& old(store).has_exam(exam_id)
                &&& e == (Exam {
                    id: old(store).exam(exam_id).id,
                    name: match changes.name {
                        Some(n) => n,
                        None => old(store).exam(exam_id).name,
                    },
                    start_date: match changes.start_date {
                        Some(d) => d,
                        None => old(store).exam(exam_id).start_date,
                    },
                    end_date: match changes.end_date {
                        Some(d) => d,
                        None => old(store).exam(exam_id).end_date,
                    },
                    class_id: old(store).exam(exam_id).class_id,
                    created_at: old(store).exam(exam_id).created_at,
                })
                &&& final(store).exams@ == old(store).exams@.update(
                    old(store).exam_index(exam_id),
                    e,
                )
                &&& final(store).next_exam_id == old(store).next_exam_id
                &&& unchanged_except_exams(*old(store), *final(store))
            },
            Err(e) => {
                &&& e == ServiceError::InternalServerError
                &&& !old(store).has_exam(exam_id)
                &&& *final(store) == *old(store)
            },
        },
{
    let idx = match store.find_exam(exam_id) {
        Some(i) => i,
        None => {
            return Err(ServiceError::InternalServerError);
        },
    };
    let merged = Exam {
        id: store.exams[idx].id,
        name: match changes.name {
            Some(n) => n,
            None => store.exams[idx].name.clone(),
        },
        start_date: match changes.start_date {
            Some(d) => d,
            None => store.exams[idx].start_date,
        },
        end_date: match changes.end_date {
            Some(d) => d,
            None => store.exams[idx].end_date,
        },
        class_id: store.exams[idx].class_id,
        created_at: store.exams[idx].created_at,
    };
    let result = merged.clone();
    store.exams[idx] = merged;
    Ok(result)
}

/// Delete an exam row, cascading to its question associations and its
/// submitted answers, as the schema's foreign keys do. Deleting an absent
/// exam deletes nothing and still succeeds, as `DELETE` does.
#[verifier::loop_isolation(false)]
pub fn delete_exam(store: &mut Store, exam_id: i32) -> (r: Result<(), ServiceError>)
    requires
        old(store).wf(),
    ensures
        final(store).wf(),
        r is Ok,
        final(store).exams@ == (if old(store).has_exam(exam_id) {
            old(store).exams@.remove(old(store).exam_index(exam_id))
        } else {
            old(store).exams@
        }),
        final(store).exam_questions@ == without_exam_pairs(old(store).exam_questions@, exam_id),
        final(store).student_answers@ == without_exam_student_answers(
            old(store).student_answers@,
            exam_id,
        ),
        unchanged_except_exam_cascade(*old(store), *final(store)),
{
    let ghost pre = *store;
    match store.find_exam(exam_id) {
        Some(i) => {
            proof {
                pre.exams@.remove_ensures(i as int);
            }
            store.exams.remove(i);
            proof {
                let idx = i as int;
                assert forall|a: int, b: int|
                    0 <= a < b < store.exams@.len() implies store.exams@[a].id
                    != store.exams@[b].id by {
                    let pa: int = if a < idx {
                        a
                    } else {
                        a + 1
                    };
                    let pb: int = if b < idx {
                        b
                    } else {
                        b + 1
                    };
                    assert(store.exams@[a] == pre.exams@[pa]);
                    assert(store.exams@[b] == pre.exams@[pb]);
                }
                assert forall|a: int|
                    0 <= a < store.exams@.len() implies store.exams@[a].id
                    < store.next_exam_id by {
                    let pa: int = if a < idx {
                        a
                    } else {
                        a + 1
                    };
                    assert(store.exams@[a] == pre.exams@[pa]);
                }
            }
        },
        None => {},
    }
    let n = store.exam_questions.len();
    let mut kept_pairs: Vec<ExamQuestion> = Vec::new();
    let mut i: usize = 0;
    proof {
        assert(kept_pairs@ =~= without_exam_pairs(store.exam_questions@.subrange(0, 0), exam_id));
    }
    while i < n
        invariant
            i <= n,
            n == store.exam_questions@.len(),
            kept_pairs@ == without_exam_pairs(store.exam_questions@.subrange(0, i as int), exam_id),
        decreases n - i,
    {
        proof {
            assert(store.exam_questions@.subrange(0, i + 1).drop_last()
                =~= store.exam_questions@.subrange(0, i as int));
            assert(store.exam_questions@.subrange(0, i + 1).last() == store.exam_questions@[
                i as int
            ]);
        }
        if store.exam_questions[i].exam_id != exam_id {
            kept_pairs.push(store.exam_questions[i]);
        }
        i += 1;
    }
    proof {
        assert(store.exam_questions@.subrange(0, n as int) =~= store.exam_questions@);
    }
    let m = store.student_answers.len();
    let mut kept_answers: Vec<StudentAnswer> = Vec::new();
    let mut j: usize = 0;
    proof {
        assert(kept_answers@ =~= without_exam_student_answers(
            store.student_answers@.subrange(0, 0),
            exam_id,
        ));
    }
    while j < m
        invariant
            j <= m,
            m == store.student_answers@.len(),
            kept_answers@ == without_exam_student_answers(
                store.student_answers@.subrange(0, j as int),
                exam_id,
            ),
        decreases m - j,
    {
        proof {
            assert(store.student_answers@.subrange(0, j + 1).drop_last()
                =~= store.student_answers@.subrange(0, j as int));
            assert(store.student_answers@.subrange(0, j + 1).last() == store.student_answers@[
                j as int
            ]);
        }
        if store.student_answers[j].exam_id != exam_id {
            kept_answers.push(store.student_answers[j]);
        }
        j += 1;
    }
    proof {
        assert(store.student_answers@.subrange(0, m as int) =~= store.student_answers@);
    }
    store.exam_questions = kept_pairs;
    store.student_answers = kept_answers;
    proof {
        lemma_without_pairs_wf(pre.exam_questions@, exam_id);
        lemma_without_student_answers_wf(pre.student_answers@, exam_id);
        assert forall|k: int|
            0 <= k < store.student_answers@.len() implies store.student_answers@[k].id
            < store.next_student_answer_id by {
            assert(pre.student_answers@.contains(store.student_answers@[k]));
            let a = choose|a: int|
                0 <= a < pre.student_answers@.len() && pre.student_answers@[a]
                    == store.student_answers@[k];
            assert(pre.student_answers@[a].id < pre.next_student_answer_id);
        }
    }
    Ok(())
}

/// Atomically replace the question set of one exam: the old association rows
/// of the exam go, one row per given question id comes. Duplicate ids in the
/// input violate the association table's primary key: the transaction rolls
/// back and nothing changes.
#[verifier::loop_isolation(false)]
pub fn update_questions_in_exam(store: &mut Store, exam_id: i32, question_ids: Vec<i32>) -> (r:
    Result<(), ServiceError>)
    requires
        old(store).wf(),
    ensures
        final(store).wf(),
        match r {
            Ok(_) => {
                &&& distinct_ids(question_ids@)
                &&& final(store).exam_questions@ == without_exam_pairs(
                    old(store).exam_questions@,
                    exam_id,
                ) + pairs_for(exam_id, question_ids@)
                &&& unchanged_except_exam_questions(*old(store), *final(store))
            },
            Err(e) => {
                &&& e == ServiceError::InternalServerError
                &&& !distinct_ids(question_ids@)
                &&& *final(store) == *old(store)
            },
        },
{
    let ghost pre = *store;
    let n = question_ids.len();
    let mut i: usize = 0;
    while i < n
        invariant
            i <= n,
            n == question_ids@.len(),
            forall|a: int, b: int|
                0 <= a < b < n && a < i ==> question_ids@[a] != question_ids@[b],
        decreases n - i,
    {
        let mut j: usize = i + 1;
        while j < n
            invariant
                i < n,
                i + 1 <= j <= n,
                n == question_ids@.len(),
                forall|b: int| i < b < j ==> question_ids@[i as int] != question_ids@[b],
            decreases n - j,
        {
            if question_ids[i] == question_ids[j] {
                proof {
                    assert(!distinct_ids(question_ids@)) by {
                        assert(question_ids@[i as int] == question_ids@[j as int]);
                    }
                }
                return Err(ServiceError::InternalServerError);
            }
            j += 1;
        }
        i += 1;
    }
    let m = store.exam_questions.len();
    let mut rows: Vec<ExamQuestion> = Vec::new();
    let mut k: usize = 0;
    proof {
        assert(rows@ =~= without_exam_pairs(store.exam_questions@.subrange(0, 0), exam_id));
    }
    while k < m
        invariant
            k <= m,
            m == store.exam_questions@.len(),
            rows@ == without_exam_pairs(store.exam_questions@.subrange(0, k as int), exam_id),
        decreases m - k,
    {
        proof {
            assert(store.exam_questions@.subrange(0, k + 1).drop_last()
                =~= store.exam_questions@.subrange(0, k as int));
            assert(store.exam_questions@.subrange(0, k + 1).last() == store.exam_questions@[
                k as int
            ]);
        }
        if store.exam_questions[k].exam_id != exam_id {
            rows.push(store.exam_questions[k]);
        }
        k += 1;
    }
    proof {
        assert(store.exam_questions@.subrange(0, m as int) =~= store.exam_questions@);
    }
    let ghost kept = rows@;
    let mut t: usize = 0;
    proof {
        assert(rows@ =~= kept + pairs_for(exam_id, question_ids@.subrange(0, 0)));
    }
    while t < n
        invariant
            t <= n,
            n == question_ids@.len(),
            rows@ == kept + pairs_for(exam_id, question_ids@.subrange(0, t as int)),
        decreases n - t,
    {
        rows.push(ExamQuestion { exam_id, question_id: question_ids[t] });
        proof {
            assert(rows@ =~= kept + pairs_for(exam_id, question_ids@.subrange(0, t + 1)));
        }
        t += 1;
    }
    proof {
        assert(question_ids@.subrange(0, n as int) =~= question_ids@);
    }
    store.exam_questions = rows;
    proof {
        lemma_without_pairs_wf(pre.exam_questions@, exam_id);
        let w = without_exam_pairs(pre.exam_questions@, exam_id);
        let p = pairs_for(exam_id, question_ids@);
        assert forall|a: int, b: int|
            0 <= a < b < store.exam_questions@.len() implies store.exam_questions@[a]
            != store.exam_questions@[b] by {
            if a < w.len() && b < w.len() {
                assert(store.exam_questions@[a] == w[a]);
                assert(store.exam_questions@[b] == w[b]);
            } else if a < w.len() {
                assert(store.exam_questions@[a] == w[a]);
                assert(store.exam_questions@[b] == p[b - w.len()]);
                assert(w[a].exam_id != exam_id);
            } else {
                assert(store.exam_questions@[a] == p[a - w.len()]);
                assert(store.exam_questions@[b] == p[b - w.len()]);
                assert(question_ids@[a - w.len()] != question_ids@[b - w.len()]);
            }
        }
    }
    Ok(())
}

/// The ids of an exam's questions, as the join with the question bank
/// resolves them.
#[verifier::loop_isolation(false)]
pub fn collect_exam_question_ids(store: &Store, exam_id: i32) -> (v: Vec<i32>)
    requires
        store.wf(),
    ensures
        v@ == exam_question_ids(*store, exam_id),
{
    let n = store.exam_questions.len();
    let mut out: Vec<i32> = Vec::new();
    let mut i: usize = 0;
    proof {
        assert(out@ =~= joined_qids_rec(store.exam_questions@.subrange(0, 0), *store, exam_id));
    }
    while i < n
        invariant
            i <= n,
            n == store.exam_questions@.len(),
            out@ == joined_qids_rec(store.exam_questions@.subrange(0, i as int), *store, exam_id),
        decreases n - i,
    {
        proof {
            assert(store.exam_questions@.subrange(0, i + 1).drop_last()
                =~= store.exam_questions@.subrange(0, i as int));
            assert(store.exam_questions@.subrange(0, i + 1).last() == store.exam_questions@[
                i as int
            ]);
        }
        if store.exam_questions[i].exam_id == exam_id {
            match store.find_question(store.exam_questions[i].question_id) {
                Some(_) => {
                    out.push(store.exam_questions[i].question_id);
                },
                None => {},
            }
        }
        i += 1;
    }
    proof {
        assert(store.exam_questions@.subrange(0, n as int) =~= store.exam_questions@);
    }
    out
}

/// Build the outgoing answer list of one question, correctness visible.
#[verifier::loop_isolation(false)]
fn collect_answers(store: &Store, question_id: i32) -> (v: Vec<AnswerDto>)
    requires
        store.wf(),
    ensures
        v@.len() == answers_for(store.answers@, question_id).len(),
        forall|j: int|
            0 <= j < v@.len() ==> answer_dto_matches(
                answers_for(store.answers@, question_id)[j],
                v@[j],
                false,
            ),
{
    let n = store.answers.len();
    let mut out: Vec<AnswerDto> = Vec::new();
    let mut i: usize = 0;
    proof {
        assert(answers_for(store.answers@.subrange(0, 0), question_id) =~= Seq::<Answer>::empty());
    }
    while i < n
        invariant
            i <= n,
            n == store.answers@.len(),
            out@.len() == answers_for(store.answers@.subrange(0, i as int), question_id).len(),
            forall|j: int|
                0 <= j < out@.len() ==> answer_dto_matches(
                    answers_for(store.answers@.subrange(0, i as int), question_id)[j],
                    out@[j],
                    false,
                ),
        decreases n - i,
    {
        proof {
            assert(store.answers@.subrange(0, i + 1).drop_last() =~= store.answers@.subrange(
                0,
                i as int,
            ));
            assert(store.answers@.subrange(0, i + 1).last() == store.answers@[i as int]);
        }
        let ghost before = answers_for(store.answers@.subrange(0, i as int), question_id);
        let ghost after = answers_for(store.answers@.subrange(0, i + 1), question_id);
        if store.answers[i].question_id == question_id {
            out.push(
                AnswerDto {
                    id: store.answers[i].id,
                    answer: store.answers[i].answer.clone(),
                    is_correct: Some(store.answers[i].is_correct),
                },
            );
            proof {
                assert(after == before.push(store.answers@[i as int]));
                assert forall|j: int|
                    0 <= j < out@.len() implies answer_dto_matches(
                    after[j],
                    out@[j],
                    false,
                ) by {
                    if j < before.len() {
                        assert(after[j] == before[j]);
                    }
                }
            }
        } else {
            proof {
                assert(after == before);
            }
        }
        i += 1;
    }
    proof {
        assert(store.answers@.subrange(0, n as int) =~= store.answers@);
    }
    out
}

/// Fetch an exam's questions joined with their answers, in association
/// order, correctness visible.
#[verifier::loop_isolation(false)]
pub fn get_questions_in_exam(store: &Store, exam_id: i32) -> (r: Result<
    Vec<QuestionWithAnswersDto>,
    ServiceError,
>)
    requires
        store.wf(),
    ensures
        match r {
            Ok(v) => questions_output_matches(*store, exam_id, v@, false),
            Err(_) => false,
        },
{
    let qids = collect_exam_question_ids(store, exam_id);
    proof {
        lemma_joined_qids_have_questions(store.exam_questions@, *store, exam_id);
    }
    let n = qids.len();
    let mut out: Vec<QuestionWithAnswersDto> = Vec::new();
    let mut i: usize = 0;
    while i < n
        invariant
            i <= n,
            n == qids@.len(),
            qids@ == exam_question_ids(*store, exam_id),
            out@.len() == i,
            forall|k: int|
                0 <= k < i ==> question_dto_matches(*store, qids@[k], #[trigger] out@[k], false),
        decreases n - i,
    {
        let qid = qids[i];
        match store.find_question(qid) {
            Some(qi) => {
                let answers = collect_answers(store, qid);
                out.push(
                    QuestionWithAnswersDto {
                        id: qid,
                        question: store.questions[qi].question.clone(),
                        answers,
                    },
                );
            },
            None => {
                proof {
                    assert(false);
                }
            },
        }
        i += 1;
    }
    Ok(out)
}

/// Upsert a student's answer to one question of one exam, keyed by
/// `(user, exam, question)`: a first submission inserts a fresh row, a
/// resubmission overwrites only the chosen answer.
pub fn submit_answer_to_question_in_exam(
    store: &mut Store,
    now: i64,
    exam_id: i32,
    question_id: i32,
    student_id: i32,
    answer_id: i32,
) -> (r: Result<(), ServiceError>)
    requires
        old(store).wf(),
    ensures
        final(store).wf(),
        unchanged_except_student_answers(*old(store), *final(store)),
        if old(store).has_student_answer(student_id, exam_id, question_id) {
            &&& r is Ok
            &&& final(store).student_answers@ == old(store).student_answers@.update(
                old(store).student_answer_index(student_id, exam_id, question_id),
                (StudentAnswer {
                    id: old(store).student_answer(student_id, exam_id, question_id).id,
                    user_id: student_id,
                    exam_id: exam_id,
                    question_id: question_id,
                    answer_id: answer_id,
                    created_at: old(store).student_answer(
                        student_id,
                        exam_id,
                        question_id,
                    ).created_at,
                }),
            )
            &&& final(store).next_student_answer_id == old(store).next_student_answer_id
        } else if old(store).next_student_answer_id < i32::MAX {
            &&& r is Ok
            &&& final(store).student_answers@ == old(store).student_answers@.push(
                StudentAnswer {
                    id: old(store).next_student_answer_id,
                    user_id: student_id,
                    exam_id: exam_id,
                    question_id: question_id,
                    answer_id: answer_id,
                    created_at: now,
                },
            )
            &&& final(store).next_student_answer_id == old(store).next_student_answer_id + 1
        } else {
            &&& r == Result::<(), ServiceError>::Err(ServiceError::InternalServerError)
            &&& *final(store) == *old(store)
        },
{
    let ghost pre = *store;
    match store.find_student_answer(student_id, exam_id, question_id) {
        Some(i) => {
            let prior = store.student_answers[i];
            store.student_answers[i] = StudentAnswer {
                id: prior.id,
                user_id: student_id,
                exam_id: exam_id,
                question_id: question_id,
                answer_id: answer_id,
                created_at: prior.created_at,
            };
            proof {
                let idx = i as int;
                assert(prior.user_id == student_id && prior.exam_id == exam_id
                    && prior.question_id == question_id);
                assert forall|a: int, b: int|
                    0 <= a < b < store.student_answers@.len() implies store.student_answers@[a].id
                    != store.student_answers@[b].id && !(store.student_answers@[a].user_id
                    == store.student_answers@[b].user_id && store.student_answers@[a].exam_id
                    == store.student_answers@[b].exam_id && store.student_answers@[a].question_id
                    == store.student_answers@[b].question_id) by {
                    assert(pre.student_answers@[a].id != pre.student_answers@[b].id);
                    if a != idx {
                        assert(store.student_answers@[a] == pre.student_answers@[a]);
                    }
                    if b != idx {
                        assert(store.student_answers@[b] == pre.student_answers@[b]);
                    }
                }
            }
            Ok(())
        },
        None => {
            if store.next_student_answer_id == i32::MAX {
                // The id space of the serial column is exhausted: the insert
                // fails.
                return Err(ServiceError::InternalServerError);
            }
            store.student_answers.push(
                StudentAnswer {
                    id: store.next_student_answer_id,
                    user_id: student_id,
                    exam_id: exam_id,
                    question_id: question_id,
                    answer_id: answer_id,
                    created_at: now,
                },
            );
            store.next_student_answer_id = store.next_student_answer_id + 1;
            Ok(())
        },
    }
}

/// Compute one student's result for one exam: one graded entry per resolved
/// question, the correct count, and the total. A submitted answer that no
/// longer resolves in the answer table is the generic persistence failure;
/// an unknown student is reported as such.
#[verifier::loop_isolation(false)]
pub fn get_exam_results_as_student(store: &Store, exam_id: i32, student_id: i32) -> (r: Result<
    StudentExamResultDto,
    ServiceError,
>)
    requires
        store.wf(),
    ensures
        match r {
            Ok(d) => student_result_available(*store, student_id, exam_id) && result_dto_matches(
                *store,
                student_id,
                exam_id,
                d,
            ),
            Err(e) => student_results_error(*store, student_id, exam_id, e),
        },
{
    let qids = collect_exam_question_ids(store, exam_id);
    let n = qids.len();
    let mut rows_out: Vec<StudentExamAnswerResultDto> = Vec::new();
    let mut correct: usize = 0;
    let mut i: usize = 0;
    while i < n
        invariant
            i <= n,
            n == qids@.len(),
            qids@ == exam_question_ids(*store, exam_id),
            rows_out@.len() == i,
            forall|k: int|
                0 <= k < i ==> #[trigger] rows_out@[k] == graded_row(
                    *store,
                    student_id,
                    exam_id,
                    qids@[k],
                ),
            forall|k: int|
                0 <= k < i ==> (store.has_student_answer(
                    student_id,
                    exam_id,
                    #[trigger] qids@[k],
                ) ==> store.has_answer(
                    store.student_answer(student_id, exam_id, qids@[k]).answer_id,
                )),
            correct <= i,
            correct as int == count_correct(rows_out@),
        decreases n - i,
    {
        let qid = qids[i];
        let ghost rows_before = rows_out@;
        match store.find_student_answer(student_id, exam_id, qid) {
            Some(si) => {
                let aid = store.student_answers[si].answer_id;
                match store.find_answer(aid) {
                    Some(ai) => {
                        let row = StudentExamAnswerResultDto {
                            question_id: qid,
                            answer_id: aid,
                            is_correct: store.answers[ai].is_correct,
                        };
                        rows_out.push(row);
                        proof {
                            assert(rows_out@.drop_last() =~= rows_before);
                        }
                        if store.answers[ai].is_correct {
                            correct += 1;
                        }
                    },
                    None => {
                        proof {
                            assert(!grading_resolvable(*store, student_id, exam_id)) by {
                                assert(store.has_student_answer(
                                    student_id,
                                    exam_id,
                                    exam_question_ids(*store, exam_id)[i as int],
                                ) && !store.has_answer(
                                    store.student_answer(
                                        student_id,
                                        exam_id,
                                        exam_question_ids(*store, exam_id)[i as int],
                                    ).answer_id,
                                ));
                            }
                        }
                        return Err(ServiceError::InternalServerError);
                    },
                }
            },
            None => {
                let row = StudentExamAnswerResultDto {
                    question_id: qid,
                    answer_id: 0,
                    is_correct: false,
                };
                rows_out.push(row);
                proof {
                    assert(rows_out@.drop_last() =~= rows_before);
                }
            },
        }
        i += 1;
    }
    proof {
        assert(rows_out@ =~= graded_rows(*store, student_id, exam_id));
    }
    match store.find_user(student_id) {
        Some(ui) => {
            let total = rows_out.len();
            Ok(
                StudentExamResultDto {
                    id: student_id,
                    name: store.users[ui].name.clone(),
                    correct_count: correct,
                    total_questions: total,
                    student_answer_results: rows_out,
                },
            )
        },
        None => Err(ServiceError::BadRequest(String::from_str("Student not found"))),
    }
}

/// Does this id occur in the list?
#[verifier::loop_isolation(false)]
fn contains_id(ids: &Vec<i32>, x: i32) -> (r: bool)
    ensures
        r == ids@.contains(x),
{
    let n = ids.len();
    let mut i: usize = 0;
    while i < n
        invariant
            i <= n,
            forall|j: int| 0 <= j < i ==> ids@[j] != x,
        decreases n - i,
    {
        if ids[i] == x {
            return true;
        }
        i += 1;
    }
    false
}

/// Compute the result of every distinct student who submitted at least one
/// answer to this exam, in order of first submission; a student who never
/// submitted does not appear.
#[verifier::loop_isolation(false)]
pub fn get_exam_results_as_teacher(store: &Store, exam_id: i32) -> (r: Result<
    Vec<StudentExamResultDto>,
    ServiceError,
>)
    requires
        store.wf(),
    ensures
        match r {
            Ok(v) => teacher_results_output_matches(*store, exam_id, v@),
            Err(e) => teacher_results_error(*store, exam_id, e),
        },
{
    let n = store.student_answers.len();
    let mut subs: Vec<i32> = Vec::new();
    let mut i: usize = 0;
    proof {
        assert(subs@ =~= submitters_rec(store.student_answers@.subrange(0, 0), exam_id));
    }
    while i < n
        invariant
            i <= n,
            n == store.student_answers@.len(),
            subs@ == submitters_rec(store.student_answers@.subrange(0, i as int), exam_id),
        decreases n - i,
    {
        proof {
            assert(store.student_answers@.subrange(0, i + 1).drop_last()
                =~= store.student_answers@.subrange(0, i as int));
            assert(store.student_answers@.subrange(0, i + 1).last() == store.student_answers@[
                i as int
            ]);
        }
        if store.student_answers[i].exam_id == exam_id {
            if !contains_id(&subs, store.student_answers[i].user_id) {
                subs.push(store.student_answers[i].user_id);
            }
        }
        i += 1;
    }
    proof {
        assert(store.student_answers@.subrange(0, n as int) =~= store.student_answers@);
    }
    let m = subs.len();
    let mut out: Vec<StudentExamResultDto> = Vec::new();
    let mut k: usize = 0;
    while k < m
        invariant
            k <= m,
            m == subs@.len(),
            subs@ == submitters(*store, exam_id),
            out@.len() == k,
            forall|t: int|
                0 <= t < k ==> result_dto_matches(
                    *store,
                    submitters(*store, exam_id)[t],
                    exam_id,
                    #[trigger] out@[t],
                ),
            forall|t: int|
                0 <= t < k ==> student_result_available(
                    *store,
                    #[trigger] submitters(*store, exam_id)[t],
                    exam_id,
                ),
        decreases m - k,
    {
        match get_exam_results_as_student(store, exam_id, subs[k]) {
            Ok(d) => {
                out.push(d);
            },
            Err(e) => {
                return Err(e);
            },
        }
        k += 1;
    }
    Ok(out)
}

} // verus!
