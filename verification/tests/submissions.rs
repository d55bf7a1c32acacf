use school_platform::class::service::{create_class, enroll_student};
use school_platform::errors::ServiceError;
use school_platform::exam::dto::CreateExamInputDto;
use school_platform::exam::service::{create_exam_at, get_questions_in_exam_as_student_at,
    submit_answer_to_question_in_exam_at, update_questions_in_exam_at};
use school_platform::question::dto::{CreateAnswerInputDto, CreateQuestionInputDto};
use school_platform::question::service::{create_question, list_answers_by_question_id};
use school_platform::store::Store;

const T: i64 = 1_700_000_000;
const TEACHER: i32 = 7;
const STUDENT: i32 = 21;

/// One class, one enrolled student, one exam over `[T+3600, T+7200]` with
/// one question ("2+2?" with answers "4" correct and "5" incorrect).
fn setup() -> (Store, i32, i32) {
    let mut store = Store::new();
    let class = create_class(&mut store, "Algebra".to_string(), TEACHER).unwrap();
    enroll_student(&mut store, class.id, STUDENT).unwrap();
    let exam = create_exam_at(
        &mut store,
        T,
        TEACHER,
        CreateExamInputDto {
            name: "Midterm".to_string(),
            start_date: T + 3600,
            end_date: T + 7200,
            class_id: class.id,
        },
    )
    .unwrap();
    let q = create_question(
        &mut store,
        T,
        CreateQuestionInputDto {
            question: "2+2?".to_string(),
            answers: vec![
                CreateAnswerInputDto { answer: "4".to_string(), is_correct: true },
                CreateAnswerInputDto { answer: "5".to_string(), is_correct: false },
            ],
        },
    )
    .unwrap();
    update_questions_in_exam_at(&mut store, T, TEACHER, exam.id, vec![q.id]).unwrap();
    (store, exam.id, q.id)
}

fn answer_ids(store: &Store, question_id: i32) -> Vec<i32> {
    list_answers_by_question_id(store, question_id)
        .unwrap()
        .iter()
        .map(|a| a.id)
        .collect()
}

#[test]
fn submission_window_scenario() {
    let (mut store, exam_id, q_id) = setup();
    let answers = answer_ids(&store, q_id);
    // before the window opens
    let r = submit_answer_to_question_in_exam_at(&mut store, T, STUDENT, exam_id, q_id, answers[0]);
    assert_eq!(
        r.unwrap_err(),
        ServiceError::BadRequest("Exam not started yet".to_string())
    );
    // half an hour into the window
    submit_answer_to_question_in_exam_at(&mut store, T + 5400, STUDENT, exam_id, q_id, answers[0])
        .unwrap();
    // an hour after it closed
    let r = submit_answer_to_question_in_exam_at(
        &mut store,
        T + 10800,
        STUDENT,
        exam_id,
        q_id,
        answers[0],
    );
    assert_eq!(
        r.unwrap_err(),
        ServiceError::BadRequest("Exam already ended".to_string())
    );
}

#[test]
fn window_bounds_are_inclusive() {
    let (mut store, exam_id, q_id) = setup();
    let answers = answer_ids(&store, q_id);
    submit_answer_to_question_in_exam_at(&mut store, T + 3600, STUDENT, exam_id, q_id, answers[0])
        .unwrap();
    submit_answer_to_question_in_exam_at(&mut store, T + 7200, STUDENT, exam_id, q_id, answers[1])
        .unwrap();
}

#[test]
fn resubmission_overwrites_instead_of_duplicating() {
    let (mut store, exam_id, q_id) = setup();
    let answers = answer_ids(&store, q_id);
    submit_answer_to_question_in_exam_at(&mut store, T + 4000, STUDENT, exam_id, q_id, answers[0])
        .unwrap();
    submit_answer_to_question_in_exam_at(&mut store, T + 5000, STUDENT, exam_id, q_id, answers[1])
        .unwrap();
    assert_eq!(store.student_answers.len(), 1);
    assert_eq!(store.student_answers[0].answer_id, answers[1]);
    assert_eq!(store.student_answers[0].user_id, STUDENT);
    assert_eq!(store.student_answers[0].exam_id, exam_id);
    assert_eq!(store.student_answers[0].question_id, q_id);
}

#[test]
fn answer_of_another_question_is_rejected() {
    let (mut store, exam_id, q_id) = setup();
    let other = create_question(
        &mut store,
        T,
        CreateQuestionInputDto {
            question: "3+3?".to_string(),
            answers: vec![CreateAnswerInputDto { answer: "6".to_string(), is_correct: true }],
        },
    )
    .unwrap();
    let foreign = answer_ids(&store, other.id)[0];
    let r = submit_answer_to_question_in_exam_at(
        &mut store,
        T + 4000,
        STUDENT,
        exam_id,
        q_id,
        foreign,
    );
    assert_eq!(
        r.unwrap_err(),
        ServiceError::BadRequest("Answer not found".to_string())
    );
    assert_eq!(store.student_answers.len(), 0);
}

#[test]
fn submission_error_precedence() {
    let (mut store, exam_id, q_id) = setup();
    let answers = answer_ids(&store, q_id);
    let r = submit_answer_to_question_in_exam_at(
        &mut store,
        T + 4000,
        STUDENT,
        exam_id + 1,
        q_id,
        answers[0],
    );
    assert_eq!(
        r.unwrap_err(),
        ServiceError::BadRequest("Exam not found".to_string())
    );
    let outsider = 99;
    let r = submit_answer_to_question_in_exam_at(
        &mut store,
        T + 4000,
        outsider,
        exam_id,
        q_id,
        answers[0],
    );
    assert_eq!(r.unwrap_err(), ServiceError::Forbidden);
    let r = submit_answer_to_question_in_exam_at(
        &mut store,
        T + 4000,
        STUDENT,
        exam_id,
        q_id + 50,
        answers[0],
    );
    assert_eq!(
        r.unwrap_err(),
        ServiceError::BadRequest("Question not found".to_string())
    );
    let r =
        submit_answer_to_question_in_exam_at(&mut store, T + 4000, STUDENT, exam_id, q_id, 12345);
    assert_eq!(
        r.unwrap_err(),
        ServiceError::BadRequest("Answer not found".to_string())
    );
    assert_eq!(store.student_answers.len(), 0);
}

#[test]
fn student_view_is_redacted_until_the_end() {
    let (mut store, exam_id, q_id) = setup();
    let answers = answer_ids(&store, q_id);
    submit_answer_to_question_in_exam_at(&mut store, T + 4000, STUDENT, exam_id, q_id, answers[0])
        .unwrap();
    // while the exam is open every correctness flag is unknown
    let open_view =
        get_questions_in_exam_as_student_at(&store, T + 5000, STUDENT, exam_id).unwrap();
    assert_eq!(open_view.len(), 1);
    assert_eq!(open_view[0].id, q_id);
    assert_eq!(open_view[0].question, "2+2?");
    assert_eq!(open_view[0].answers.len(), 2);
    assert!(open_view[0].answers.iter().all(|a| a.is_correct.is_none()));
    // after the end the same data carries the true flags
    let closed_view =
        get_questions_in_exam_as_student_at(&store, T + 7300, STUDENT, exam_id).unwrap();
    assert_eq!(closed_view.len(), 1);
    assert_eq!(closed_view[0].id, open_view[0].id);
    assert_eq!(closed_view[0].question, open_view[0].question);
    assert_eq!(closed_view[0].answers.len(), 2);
    for (a_open, a_closed) in open_view[0].answers.iter().zip(closed_view[0].answers.iter()) {
        assert_eq!(a_open.id, a_closed.id);
        assert_eq!(a_open.answer, a_closed.answer);
    }
    assert_eq!(closed_view[0].answers[0].is_correct, Some(true));
    assert_eq!(closed_view[0].answers[1].is_correct, Some(false));
}

#[test]
fn student_view_gates() {
    let (store, exam_id, _q_id) = setup();
    let r = get_questions_in_exam_as_student_at(&store, T, STUDENT, exam_id);
    assert_eq!(
        r.unwrap_err(),
        ServiceError::BadRequest("Exam not started yet".to_string())
    );
    let r = get_questions_in_exam_as_student_at(&store, T + 5000, 99, exam_id);
    assert_eq!(r.unwrap_err(), ServiceError::Forbidden);
    let r = get_questions_in_exam_as_student_at(&store, T + 5000, STUDENT, exam_id + 1);
    assert_eq!(
        r.unwrap_err(),
        ServiceError::BadRequest("Exam not found".to_string())
    );
}
