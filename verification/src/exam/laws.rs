use vstd::prelude::*;

use crate::class::service::is_class_teacher_spec;
use crate::errors::ServiceError;
use crate::exam::dto::CreateExamInputDto;
use crate::exam::models::{Exam, StudentAnswer};
use crate::exam::repository::{answer_belongs, answers_for, exam_question_ids,
    lemma_submitters_complete, lemma_submitters_distinct, result_dto_matches, submitters,
    teacher_results_output_matches};
use crate::exam::service::{create_exam_post, questions_as_student_post, submit_answer_post,
    update_questions_post};
use crate::question::dto::QuestionWithAnswersDto;
use crate::store::Store;

verus! {

/// A teacher's exam creation with a non-empty name and a valid window lying
/// strictly in the future succeeds, and the created exam round-trips the
/// input's fields: the same name, dates and class come back, both in the
/// returned value and under the new id in the store.
pub proof fn lemma_create_exam_valid_succeeds(
    pre: Store,
    post: Store,
    now: i64,
    user_id: i32,
    input: CreateExamInputDto,
    r: Result<Exam, ServiceError>,
)
    requires
        pre.wf(),
        post.wf(),
        is_class_teacher_spec(pre, user_id, input.class_id),
        input.name@.len() > 0,
        now < input.start_date,
        input.start_date < input.end_date,
        pre.next_exam_id < i32::MAX,
        create_exam_post(pre, post, now, user_id, input, r),
    ensures
        r is Ok,
        r matches Ok(e) ==> e.name@ == input.name@ && e.start_date == input.start_date
            && e.end_date == input.end_date && e.class_id == input.class_id,
        r matches Ok(e) ==> post.has_exam(e.id) && post.exam(e.id) == e,
{
    match r {
        Ok(e) => {
            post.lemma_exam_index(e.id, post.exams@.len() - 1);
        },
        Err(_) => {},
    }
}

/// Exam creation by a caller who is not the teacher of the target class is
/// always `Forbidden`, whatever the rest of the input, and writes nothing.
pub proof fn lemma_create_exam_forbidden(
    pre: Store,
    post: Store,
    now: i64,
    user_id: i32,
    input: CreateExamInputDto,
    r: Result<Exam, ServiceError>,
)
    requires
        !is_class_teacher_spec(pre, user_id, input.class_id),
        create_exam_post(pre, post, now, user_id, input, r),
    ensures
        r == Result::<Exam, ServiceError>::Err(ServiceError::Forbidden),
        post == pre,
{
}

/// Replacing the question set of an exam whose start has already elapsed
/// always fails with `BadRequest`, even for the owning teacher, and the
/// store — and with it the previous question set — is unchanged.
pub proof fn lemma_update_questions_after_start_rejected(
    pre: Store,
    post: Store,
    now: i64,
    user_id: i32,
    exam_id: i32,
    question_ids: Seq<i32>,
    r: Result<(), ServiceError>,
)
    requires
        pre.has_exam(exam_id),
        is_class_teacher_spec(pre, user_id, pre.exam(exam_id).class_id),
        pre.exam(exam_id).start_date < now,
        update_questions_post(pre, post, now, user_id, exam_id, question_ids, r),
    ensures
        r matches Err(e) && e matches ServiceError::BadRequest(m) && m@
            == "Exam already started"@,
        post == pre,
        post.exam_questions@ == pre.exam_questions@,
{
}

/// How many rows of a student-answer table hold this `(user, exam,
/// question)` key.
pub open spec fn count_rows_for_key(
    rows: Seq<StudentAnswer>,
    user_id: i32,
    exam_id: i32,
    question_id: i32,
) -> int
    decreases rows.len(),
{
    if rows.len() == 0 {
        0
    } else {
        count_rows_for_key(rows.drop_last(), user_id, exam_id, question_id) + (if rows.last().user_id
            == user_id && rows.last().exam_id == exam_id && rows.last().question_id
            == question_id {
            1int
        } else {
            0int
        })
    }
}

/// In a table whose `(user, exam, question)` key is unique, the count for a
/// key is one when some row holds it and zero otherwise.
pub proof fn lemma_count_rows_unique(
    rows: Seq<StudentAnswer>,
    user_id: i32,
    exam_id: i32,
    question_id: i32,
)
    requires
        forall|i: int, j: int|
            0 <= i < j < rows.len() ==> !(rows[i].user_id == rows[j].user_id && rows[i].exam_id
                == rows[j].exam_id && rows[i].question_id == rows[j].question_id),
    ensures
        count_rows_for_key(rows, user_id, exam_id, question_id) == (if exists|i: int|
            0 <= i < rows.len() && (#[trigger] rows[i]).user_id == user_id && rows[i].exam_id
                == exam_id && rows[i].question_id == question_id {
            1int
        } else {
            0int
        }),
    decreases rows.len(),
{
    if rows.len() > 0 {
        let init = rows.drop_last();
        lemma_count_rows_unique(init, user_id, exam_id, question_id);
        let last = rows.last();
        if last.user_id == user_id && last.exam_id == exam_id && last.question_id == question_id {
            assert(rows[rows.len() - 1] == last);
            if exists|i: int|
                0 <= i < init.len() && (#[trigger] init[i]).user_id == user_id && init[i].exam_id
                    == exam_id && init[i].question_id == question_id {
                let k = choose|i: int|
                    0 <= i < init.len() && (#[trigger] init[i]).user_id == user_id
                        && init[i].exam_id == exam_id && init[i].question_id == question_id;
                assert(rows[k] == init[k]);
                assert(false);
            }
        } else {
            if exists|i: int|
                0 <= i < rows.len() && (#[trigger] rows[i]).user_id == user_id && rows[i].exam_id
                    == exam_id && rows[i].question_id == question_id {
                let k = choose|i: int|
                    0 <= i < rows.len() && (#[trigger] rows[i]).user_id == user_id
                        && rows[i].exam_id == exam_id && rows[i].question_id == question_id;
                assert(k < init.len());
                assert(init[k] == rows[k]);
            }
            if exists|i: int|
                0 <= i < init.len() && (#[trigger] init[i]).user_id == user_id && init[i].exam_id
                    == exam_id && init[i].question_id == question_id {
                let k = choose|i: int|
                    0 <= i < init.len() && (#[trigger] init[i]).user_id == user_id
                        && init[i].exam_id == exam_id && init[i].question_id == question_id;
                assert(rows[k] == init[k]);
            }
        }
    }
}

/// Submitting twice for the same `(user, exam, question)` with two answers
/// leaves exactly one row for that key, and it holds the second answer:
/// resubmission overwrites, it never duplicates.
pub proof fn lemma_submit_twice_upserts(
    s0: Store,
    s1: Store,
    s2: Store,
    now1: i64,
    now2: i64,
    user_id: i32,
    exam_id: i32,
    question_id: i32,
    answer_id1: i32,
    answer_id2: i32,
)
    requires
        s0.wf(),
        s1.wf(),
        s2.wf(),
        submit_answer_post(
            s0,
            s1,
            now1,
            user_id,
            exam_id,
            question_id,
            answer_id1,
            Result::<(), ServiceError>::Ok(()),
        ),
        submit_answer_post(
            s1,
            s2,
            now2,
            user_id,
            exam_id,
            question_id,
            answer_id2,
            Result::<(), ServiceError>::Ok(()),
        ),
    ensures
        s2.has_student_answer(user_id, exam_id, question_id),
        s2.student_answer(user_id, exam_id, question_id).answer_id == answer_id2,
        count_rows_for_key(s2.student_answers@, user_id, exam_id, question_id) == 1,
{
    if s1.has_student_answer(user_id, exam_id, question_id) {
        let idx = s1.student_answer_index(user_id, exam_id, question_id);
        assert(0 <= idx < s1.student_answers@.len() && s1.student_answers@[idx].user_id == user_id
            && s1.student_answers@[idx].exam_id == exam_id && s1.student_answers@[idx].question_id
            == question_id);
        s2.lemma_student_answer_index(user_id, exam_id, question_id, idx);
    } else {
        s2.lemma_student_answer_index(
            user_id,
            exam_id,
            question_id,
            s2.student_answers@.len() - 1,
        );
    }
    lemma_count_rows_unique(s2.student_answers@, user_id, exam_id, question_id);
}

/// Submitting an answer that is not an answer of the targeted question
/// always fails with `BadRequest` and writes nothing, however valid the
/// rest of the call is.
pub proof fn lemma_submit_wrong_question_rejected(
    pre: Store,
    post: Store,
    now: i64,
    user_id: i32,
    exam_id: i32,
    question_id: i32,
    answer_id: i32,
    r: Result<(), ServiceError>,
)
    requires
        pre.has_exam(exam_id),
        pre.is_enrolled(pre.exam(exam_id).class_id, user_id),
        pre.exam(exam_id).start_date <= now <= pre.exam(exam_id).end_date,
        pre.has_question(question_id),
        !answer_belongs(pre, answer_id, question_id),
        submit_answer_post(pre, post, now, user_id, exam_id, question_id, answer_id, r),
    ensures
        r matches Err(e) && e matches ServiceError::BadRequest(m) && m@ == "Answer not found"@,
        post == pre,
        post.student_answers@ == pre.student_answers@,
{
}

/// While an exam is open a student sees the same question and answer data
/// as after it closes, except that every correctness flag is redacted to
/// unknown; after the end date the stored truth is visible.
pub proof fn lemma_student_view_redaction(
    s: Store,
    t_open: i64,
    t_closed: i64,
    student_id: i32,
    exam_id: i32,
    v_open: Vec<QuestionWithAnswersDto>,
    v_closed: Vec<QuestionWithAnswersDto>,
)
    requires
        s.has_exam(exam_id),
        t_open < s.exam(exam_id).end_date,
        s.exam(exam_id).end_date <= t_closed,
        questions_as_student_post(
            s,
            t_open,
            student_id,
            exam_id,
            Result::<Vec<QuestionWithAnswersDto>, ServiceError>::Ok(v_open),
        ),
        questions_as_student_post(
            s,
            t_closed,
            student_id,
            exam_id,
            Result::<Vec<QuestionWithAnswersDto>, ServiceError>::Ok(v_closed),
        ),
    ensures
        v_open@.len() == v_closed@.len(),
        forall|i: int|
            0 <= i < v_open@.len() ==> (#[trigger] v_open@[i]).id == v_closed@[i].id
                && v_open@[i].question@ == v_closed@[i].question@ && v_open@[i].answers@.len()
                == v_closed@[i].answers@.len(),
        forall|i: int, j: int|
            0 <= i < v_open@.len() && 0 <= j < v_open@[i].answers@.len() ==> {
                let a_open = #[trigger] v_open@[i].answers@[j];
                let a_closed = v_closed@[i].answers@[j];
                let stored = answers_for(s.answers@, exam_question_ids(s, exam_id)[i])[j];
                &&& a_open.id == a_closed.id
                &&& a_open.answer@ == a_closed.answer@
                &&& a_open.is_correct is None
                &&& a_closed.is_correct == Some(stored.is_correct)
            },
{
    assert forall|i: int, j: int|
        0 <= i < v_open@.len() && 0 <= j < v_open@[i].answers@.len() implies {
        let a_open = #[trigger] v_open@[i].answers@[j];
        let a_closed = v_closed@[i].answers@[j];
        let stored = answers_for(s.answers@, exam_question_ids(s, exam_id)[i])[j];
        &&& a_open.id == a_closed.id
        &&& a_open.answer@ == a_closed.answer@
        &&& a_open.is_correct is None
        &&& a_closed.is_correct == Some(stored.is_correct)
    } by {
        let qid = exam_question_ids(s, exam_id)[i];
        assert(crate::exam::repository::question_dto_matches(s, qid, v_open@[i], true));
        assert(crate::exam::repository::question_dto_matches(s, qid, v_closed@[i], false));
        assert(crate::exam::repository::answer_dto_matches(
            answers_for(s.answers@, qid)[j],
            v_open@[i].answers@[j],
            true,
        ));
        assert(crate::exam::repository::answer_dto_matches(
            answers_for(s.answers@, qid)[j],
            v_closed@[i].answers@[j],
            false,
        ));
    }
}

/// The teacher's result listing has exactly one entry per distinct student
/// who submitted at least one answer to the exam, in order of first
/// submission; a student who never submitted does not appear.
pub proof fn lemma_teacher_results_cover_submitters(
    s: Store,
    exam_id: i32,
    out: Seq<crate::exam::dto::StudentExamResultDto>,
)
    requires
        s.wf(),
        teacher_results_output_matches(s, exam_id, out),
    ensures
        out.len() == submitters(s, exam_id).len(),
        forall|i: int| 0 <= i < out.len() ==> (#[trigger] out[i]).id == submitters(s, exam_id)[i],
        forall|i: int, j: int| 0 <= i < j < out.len() ==> out[i].id != out[j].id,
        // every student with a submission appears among the results
        forall|k: int|
            0 <= k < s.student_answers@.len() && (#[trigger] s.student_answers@[k]).exam_id
                == exam_id ==> exists|i: int|
                0 <= i < out.len() && (#[trigger] out[i]).id == s.student_answers@[k].user_id,
        // and only such students appear
        forall|i: int|
            #![trigger out[i]]
            0 <= i < out.len() ==> exists|k: int|
                #![trigger s.student_answers@[k]]
                0 <= k < s.student_answers@.len() && s.student_answers@[k].exam_id == exam_id
                    && s.student_answers@[k].user_id == out[i].id,
{
    lemma_submitters_distinct(s.student_answers@, exam_id);
    assert forall|i: int| 0 <= i < out.len() implies (#[trigger] out[i]).id == submitters(
        s,
        exam_id,
    )[i] by {
        assert(result_dto_matches(s, submitters(s, exam_id)[i], exam_id, out[i]));
    }
    assert forall|k: int|
        0 <= k < s.student_answers@.len() && (#[trigger] s.student_answers@[k]).exam_id
            == exam_id implies exists|i: int|
        0 <= i < out.len() && (#[trigger] out[i]).id == s.student_answers@[k].user_id by {
        let u = s.student_answers@[k].user_id;
        lemma_submitters_complete(s.student_answers@, exam_id, u);
        assert(submitters(s, exam_id).contains(u));
        let i = choose|i: int|
            0 <= i < submitters(s, exam_id).len() && submitters(s, exam_id)[i] == u;
        assert(out[i].id == u);
    }
    assert forall|i: int| #![trigger out[i]] 0 <= i < out.len() implies exists|k: int|
        #![trigger s.student_answers@[k]]
        0 <= k < s.student_answers@.len() && s.student_answers@[k].exam_id == exam_id
            && s.student_answers@[k].user_id == out[i].id by {
        let u = out[i].id;
        assert(submitters(s, exam_id)[i] == u);
        assert(submitters(s, exam_id).contains(u));
        lemma_submitters_complete(s.student_answers@, exam_id, u);
    }
}

} // verus!
