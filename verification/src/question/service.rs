use vstd::prelude::*;

use crate::errors::ServiceError;
use crate::exam::repository::answers_for;
use crate::question::dto::CreateQuestionInputDto;
use crate::question::models::{Answer, Question};
use crate::store::Store;

verus! {

/// Everything but the question and answer tables and their counters is
/// unchanged.
pub open spec fn unchanged_except_question_bank(pre: Store, post: Store) -> bool {
    &&& post.users == pre.users
    &&& post.users_roles == pre.users_roles
    &&& post.classes == pre.classes
    &&& post.classes_students == pre.classes_students
    &&& post.exams == pre.exams
    &&& post.exam_questions == pre.exam_questions
    &&& post.student_answers == pre.student_answers
    &&& post.next_user_id == pre.next_user_id
    &&& post.next_class_id == pre.next_class_id
    &&& post.next_exam_id == pre.next_exam_id
    &&& post.next_student_answer_id == pre.next_student_answer_id
}

/// Create a question together with its answers, in one transaction: one
/// question row and one answer row per given answer, in the given order.
#[verifier::loop_isolation(false)]
pub fn create_question(store: &mut Store, now: i64, input: CreateQuestionInputDto) -> (r: Result<
    Question,
    ServiceError,
>)
    requires
        old(store).wf(),
    ensures
        final(store).wf(),
        ({
            let pre = *old(store);
            let post = *final(store);
            let base = pre.answers@.len() as int;
            match r {
                Ok(q) => {
                    &&& pre.next_question_id < i32::MAX
                    &&& pre.next_answer_id + input.answers@.len() <= i32::MAX
                    &&& q == (Question {
                        id: pre.next_question_id,
                        question: input.question,
                        created_at: now,
                    })
                    &&& post.questions@ == pre.questions@.push(q)
                    &&& post.next_question_id == pre.next_question_id + 1
                    &&& post.answers@.len() == base + input.answers@.len()
                    &&& (forall|t: int| 0 <= t < base ==> post.answers@[t] == pre.answers@[t])
                    &&& (forall|t: int|
                        base <= t < post.answers@.len() ==> ((#[trigger] post.answers@[t]).id
                            == pre.next_answer_id + (t - base) && post.answers@[t].question_id
                            == pre.next_question_id && post.answers@[t].answer@ == input.answers@[t
                            - base].answer@ && post.answers@[t].is_correct == input.answers@[t
                            - base].is_correct && post.answers@[t].created_at == now))
                    &&& post.next_answer_id == pre.next_answer_id + input.answers@.len()
                    &&& unchanged_except_question_bank(pre, post)
                },
                Err(e) => {
                    &&& e == ServiceError::InternalServerError
                    &&& (pre.next_question_id == i32::MAX || pre.next_answer_id
                        + input.answers@.len() > i32::MAX)
                    &&& post == pre
                },
            }
        }),
{
    if store.next_question_id == i32::MAX {
        // The id space of the serial column is exhausted: the insert fails.
        return Err(ServiceError::InternalServerError);
    }
    let n = input.answers.len();
    if n > (i32::MAX - store.next_answer_id) as usize {
        // Not enough id space for all the answer rows: the transaction
        // rolls back.
        return Err(ServiceError::InternalServerError);
    }
    let qid = store.next_question_id;
    let question = Question { id: qid, question: input.question, created_at: now };
    let result = question.clone();
    store.questions.push(question);
    store.next_question_id = qid + 1;
    let ghost mid = *store;
    let ghost base = store.answers@;
    let aid0 = store.next_answer_id;
    let mut k: usize = 0;
    while k < n
        invariant
            k <= n,
            n == input.answers@.len(),
            aid0 + n <= i32::MAX,
            store.questions == mid.questions,
            store.next_question_id == mid.next_question_id,
            store.next_answer_id == aid0,
            unchanged_except_question_bank(mid, *store),
            store.answers@.len() == base.len() + k,
            forall|t: int| 0 <= t < base.len() ==> store.answers@[t] == base[t],
            forall|t: int|
                base.len() <= t < store.answers@.len() ==> ((#[trigger] store.answers@[t]).id
                    == aid0 + (t - base.len()) && store.answers@[t].question_id == qid
                    && store.answers@[t].answer@ == input.answers@[t - base.len()].answer@
                    && store.answers@[t].is_correct == input.answers@[t - base.len()].is_correct
                    && store.answers@[t].created_at == now),
        decreases n - k,
    {
        let row = Answer {
            id: aid0 + (k as i32),
            answer: input.answers[k].answer.clone(),
            is_correct: input.answers[k].is_correct,
            question_id: qid,
            created_at: now,
        };
        store.answers.push(row);
        k += 1;
    }
    store.next_answer_id = aid0 + (n as i32);
    proof {
        assert forall|a: int, b: int|
            0 <= a < b < store.answers@.len() implies store.answers@[a].id
            != store.answers@[b].id by {
            if a < base.len() && b < base.len() {
                assert(store.answers@[a] == base[a] && store.answers@[b] == base[b]);
            } else if a < base.len() {
                assert(store.answers@[a] == base[a]);
                assert(base == old(store).answers@);
                assert(base[a].id < aid0);
                assert(store.answers@[b].id >= aid0);
            }
        }
        assert forall|t: int|
            0 <= t < store.answers@.len() implies store.answers@[t].id
            < store.next_answer_id by {
            if t < base.len() {
                assert(store.answers@[t] == base[t]);
                assert(base == old(store).answers@);
            }
        }
    }
    Ok(result)
}

/// Look up a question by id.
pub fn get_question_by_id(store: &Store, question_id: i32) -> (r: Result<
    Option<Question>,
    ServiceError,
>)
    requires
        store.wf(),
    ensures
        match r {
            Ok(Some(q)) => store.has_question(question_id) && q == store.question(question_id),
            Ok(None) => !store.has_question(question_id),
            Err(_) => false,
        },
{
    match store.find_question(question_id) {
        Some(i) => Ok(Some(store.questions[i].clone())),
        None => Ok(None),
    }
}

/// List the answers of one question, in row order.
#[verifier::loop_isolation(false)]
pub fn list_answers_by_question_id(store: &Store, question_id: i32) -> (r: Result<
    Vec<Answer>,
    ServiceError,
>)
    requires
        store.wf(),
    ensures
        match r {
            Ok(v) => v@ == answers_for(store.answers@, question_id),
            Err(_) => false,
        },
{
    let n = store.answers.len();
    let mut out: Vec<Answer> = Vec::new();
    let mut i: usize = 0;
    proof {
        assert(out@ =~= answers_for(store.answers@.subrange(0, 0), question_id));
    }
    while i < n
        invariant
            i <= n,
            n == store.answers@.len(),
            out@ == answers_for(store.answers@.subrange(0, i as int), question_id),
        decreases n - i,
    {
        proof {
            assert(store.answers@.subrange(0, i + 1).drop_last() =~= store.answers@.subrange(
                0,
                i as int,
            ));
            assert(store.answers@.subrange(0, i + 1).last() == store.answers@[i as int]);
        }
        if store.answers[i].question_id == question_id {
            out.push(store.answers[i].clone());
        }
        i += 1;
    }
    proof {
        assert(store.answers@.subrange(0, n as int) =~= store.answers@);
    }
    Ok(out)
}

} // verus!
