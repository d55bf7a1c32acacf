use school_platform::class::service::{create_class, enroll_student};
use school_platform::errors::ServiceError;
use school_platform::exam::dto::CreateExamInputDto;
use school_platform::exam::service::{create_exam_at, get_exam_results_as_student_at,
    get_exam_results_as_teacher, submit_answer_to_question_in_exam_at,
    update_questions_in_exam_at};
use school_platform::question::dto::{CreateAnswerInputDto, CreateQuestionInputDto};
use school_platform::question::service::{create_question, list_answers_by_question_id};
use school_platform::store::Store;
use school_platform::user::dto::CreateUserInputDto;
use school_platform::user::service::create_user_at;

const T: i64 = 1_700_000_000;
const TEACHER: i32 = 1000;

fn new_student(store: &mut Store, name: &str) -> i32 {
    create_user_at(
        store,
        T,
        CreateUserInputDto {
            name: name.to_string(),
            email: format!("{}@school.example", name),
            password: "secret".to_string(),
        },
    )
    .unwrap()
    .id
}

/// One class with an exam over `[T+3600, T+7200]` holding four questions,
/// each with one correct and one incorrect answer.
fn setup_four_questions(store: &mut Store) -> (i32, i32, Vec<i32>) {
    let class = create_class(store, "Algebra".to_string(), TEACHER).unwrap();
    let exam = create_exam_at(
        store,
        T,
        TEACHER,
        CreateExamInputDto {
            name: "Midterm".to_string(),
            start_date: T + 3600,
            end_date: T + 7200,
            class_id: class.id,
        },
    )
    .unwrap();
    let mut qids = Vec::new();
    for text in ["1+1?", "2+2?", "3+3?", "4+4?"] {
        let q = create_question(
            store,
            T,
            CreateQuestionInputDto {
                question: text.to_string(),
                answers: vec![
                    CreateAnswerInputDto { answer: "right".to_string(), is_correct: true },
                    CreateAnswerInputDto { answer: "wrong".to_string(), is_correct: false },
                ],
            },
        )
        .unwrap();
        qids.push(q.id);
    }
    update_questions_in_exam_at(store, T, TEACHER, exam.id, qids.clone()).unwrap();
    (class.id, exam.id, qids)
}

fn answer_of(store: &Store, question_id: i32, correct: bool) -> i32 {
    list_answers_by_question_id(store, question_id)
        .unwrap()
        .iter()
        .find(|a| a.is_correct == correct)
        .unwrap()
        .id
}

#[test]
fn score_three_of_four_is_three_quarters() {
    let mut store = Store::new();
    let student = new_student(&mut store, "ada");
    let (class_id, exam_id, qids) = setup_four_questions(&mut store);
    enroll_student(&mut store, class_id, student).unwrap();
    for (i, q) in qids.iter().enumerate() {
        let a = answer_of(&store, *q, i < 3);
        submit_answer_to_question_in_exam_at(&mut store, T + 4000, student, exam_id, *q, a)
            .unwrap();
    }
    let result = get_exam_results_as_student_at(&store, T + 8000, student, exam_id).unwrap();
    assert_eq!(result.id, student);
    assert_eq!(result.name, "ada");
    assert_eq!(result.correct_count, 3);
    assert_eq!(result.total_questions, 4);
    assert_eq!(result.correct_count as f32 / result.total_questions as f32, 0.75);
    assert_eq!(result.student_answer_results.len(), 4);
    for (i, row) in result.student_answer_results.iter().enumerate() {
        assert_eq!(row.question_id, qids[i]);
        assert_eq!(row.is_correct, i < 3);
        assert_eq!(row.answer_id, answer_of(&store, qids[i], i < 3));
    }
}

#[test]
fn score_zero_when_nothing_submitted() {
    let mut store = Store::new();
    let student = new_student(&mut store, "bob");
    let (class_id, exam_id, qids) = setup_four_questions(&mut store);
    enroll_student(&mut store, class_id, student).unwrap();
    let result = get_exam_results_as_student_at(&store, T + 8000, student, exam_id).unwrap();
    assert_eq!(result.correct_count, 0);
    assert_eq!(result.total_questions, 4);
    assert_eq!(result.correct_count as f32 / result.total_questions as f32, 0.0);
    assert_eq!(result.student_answer_results.len(), 4);
    for (i, row) in result.student_answer_results.iter().enumerate() {
        assert_eq!(row.question_id, qids[i]);
        assert_eq!(row.answer_id, 0);
        assert_eq!(row.is_correct, false);
    }
}

#[test]
fn results_wait_for_the_window() {
    let mut store = Store::new();
    let student = new_student(&mut store, "cas");
    let (class_id, exam_id, _qids) = setup_four_questions(&mut store);
    enroll_student(&mut store, class_id, student).unwrap();
    let r = get_exam_results_as_student_at(&store, T, student, exam_id);
    assert_eq!(
        r.unwrap_err(),
        ServiceError::BadRequest("Exam not started yet".to_string())
    );
    let r = get_exam_results_as_student_at(&store, T + 5000, student, exam_id);
    assert_eq!(
        r.unwrap_err(),
        ServiceError::BadRequest("Exam not ended yet".to_string())
    );
    let r = get_exam_results_as_student_at(&store, T + 8000, student, exam_id + 1);
    assert_eq!(
        r.unwrap_err(),
        ServiceError::BadRequest("Exam not found".to_string())
    );
}

#[test]
fn unknown_student_is_reported() {
    let mut store = Store::new();
    let (_class_id, exam_id, _qids) = setup_four_questions(&mut store);
    let r = get_exam_results_as_student_at(&store, T + 8000, 4242, exam_id);
    assert_eq!(
        r.unwrap_err(),
        ServiceError::BadRequest("Student not found".to_string())
    );
}

#[test]
fn teacher_sees_one_result_per_submitting_student() {
    let mut store = Store::new();
    let ada = new_student(&mut store, "ada");
    let bob = new_student(&mut store, "bob");
    let cas = new_student(&mut store, "cas");
    let (class_id, exam_id, qids) = setup_four_questions(&mut store);
    for s in [ada, bob, cas] {
        enroll_student(&mut store, class_id, s).unwrap();
    }
    // ada submits twice to the same question, bob once, cas never
    let right = answer_of(&store, qids[0], true);
    let wrong = answer_of(&store, qids[0], false);
    submit_answer_to_question_in_exam_at(&mut store, T + 4000, ada, exam_id, qids[0], wrong)
        .unwrap();
    submit_answer_to_question_in_exam_at(&mut store, T + 4500, ada, exam_id, qids[0], right)
        .unwrap();
    submit_answer_to_question_in_exam_at(&mut store, T + 5000, bob, exam_id, qids[0], wrong)
        .unwrap();
    let results = get_exam_results_as_teacher(&store, TEACHER, exam_id).unwrap();
    assert_eq!(results.len(), 2);
    assert_eq!(results[0].id, ada);
    assert_eq!(results[1].id, bob);
    assert!(results.iter().all(|r| r.id != cas));
    // ada's resubmission counts once, with the latest answer
    assert_eq!(results[0].correct_count, 1);
    assert_eq!(results[0].total_questions, 4);
    assert_eq!(results[1].correct_count, 0);
}

#[test]
fn teacher_results_authorization() {
    let mut store = Store::new();
    let (_class_id, exam_id, _qids) = setup_four_questions(&mut store);
    let r = get_exam_results_as_teacher(&store, TEACHER + 1, exam_id);
    assert_eq!(r.unwrap_err(), ServiceError::Forbidden);
    let r = get_exam_results_as_teacher(&store, TEACHER, exam_id + 1);
    assert_eq!(
        r.unwrap_err(),
        ServiceError::BadRequest("Exam not found".to_string())
    );
}
