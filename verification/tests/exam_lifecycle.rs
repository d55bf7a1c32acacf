use school_platform::class::service::{create_class, enroll_student};
use school_platform::errors::ServiceError;
use school_platform::exam::dto::CreateExamInputDto;
use school_platform::exam::models::UpdateExam;
use school_platform::exam::service::{create_exam_at, delete_exam, get_exam_by_id,
    get_exams_by_class_id, get_questions_in_exam_as_teacher, update_exam_at,
    update_questions_in_exam_at};
use school_platform::question::dto::{CreateAnswerInputDto, CreateQuestionInputDto};
use school_platform::question::service::create_question;
use school_platform::store::Store;

const T: i64 = 1_700_000_000;

fn exam_input(class_id: i32) -> CreateExamInputDto {
    CreateExamInputDto {
        name: "Midterm".to_string(),
        start_date: T + 3600,
        end_date: T + 7200,
        class_id,
    }
}

fn store_with_class(teacher_id: i32) -> (Store, i32) {
    let mut store = Store::new();
    let class = create_class(&mut store, "Algebra".to_string(), teacher_id).unwrap();
    (store, class.id)
}

#[test]
fn create_exam_round_trips_fields() {
    let (mut store, class_id) = store_with_class(7);
    let exam = create_exam_at(&mut store, T, 7, exam_input(class_id)).unwrap();
    assert_eq!(exam.name, "Midterm");
    assert_eq!(exam.start_date, T + 3600);
    assert_eq!(exam.end_date, T + 7200);
    assert_eq!(exam.class_id, class_id);
    let fetched = get_exam_by_id(&store, exam.id).unwrap().unwrap();
    assert_eq!(fetched.name, "Midterm");
    assert_eq!(fetched.start_date, T + 3600);
    assert_eq!(fetched.end_date, T + 7200);
    assert_eq!(fetched.class_id, class_id);
}

#[test]
fn create_exam_by_non_teacher_is_forbidden() {
    let (mut store, class_id) = store_with_class(7);
    let r = create_exam_at(&mut store, T, 8, exam_input(class_id));
    assert_eq!(r.unwrap_err(), ServiceError::Forbidden);
    assert_eq!(store.exams.len(), 0);
}

#[test]
fn create_exam_rejects_degenerate_window() {
    let (mut store, class_id) = store_with_class(7);
    let reversed = CreateExamInputDto {
        name: "Midterm".to_string(),
        start_date: T + 7200,
        end_date: T + 3600,
        class_id,
    };
    let r = create_exam_at(&mut store, T, 7, reversed);
    assert_eq!(
        r.unwrap_err(),
        ServiceError::BadRequest("End date must be after start date".to_string())
    );
    // a zero-length window is just as degenerate
    let equal = CreateExamInputDto {
        name: "Midterm".to_string(),
        start_date: T + 3600,
        end_date: T + 3600,
        class_id,
    };
    let r = create_exam_at(&mut store, T, 7, equal);
    assert_eq!(
        r.unwrap_err(),
        ServiceError::BadRequest("End date must be after start date".to_string())
    );
    assert_eq!(store.exams.len(), 0);
}

#[test]
fn create_exam_rejects_start_not_in_the_future() {
    let (mut store, class_id) = store_with_class(7);
    let past = CreateExamInputDto {
        name: "Midterm".to_string(),
        start_date: T - 60,
        end_date: T + 7200,
        class_id,
    };
    let r = create_exam_at(&mut store, T, 7, past);
    assert_eq!(
        r.unwrap_err(),
        ServiceError::BadRequest("Start date must be in the future".to_string())
    );
    // starting at the present instant is not strictly in the future
    let at_now = CreateExamInputDto {
        name: "Midterm".to_string(),
        start_date: T,
        end_date: T + 7200,
        class_id,
    };
    let r = create_exam_at(&mut store, T, 7, at_now);
    assert_eq!(
        r.unwrap_err(),
        ServiceError::BadRequest("Start date must be in the future".to_string())
    );
}

#[test]
fn create_exam_rejects_empty_name() {
    let (mut store, class_id) = store_with_class(7);
    let input = CreateExamInputDto {
        name: "".to_string(),
        start_date: T + 3600,
        end_date: T + 7200,
        class_id,
    };
    let r = create_exam_at(&mut store, T, 7, input);
    assert_eq!(
        r.unwrap_err(),
        ServiceError::BadRequest("Name is required".to_string())
    );
    assert_eq!(store.exams.len(), 0);
}

#[test]
fn create_exam_input_validation() {
    let empty_name = CreateExamInputDto {
        name: "".to_string(),
        start_date: T,
        end_date: T + 1,
        class_id: 1,
    };
    assert_eq!(empty_name.validate().unwrap_err(), "Name is required");
    let degenerate = CreateExamInputDto {
        name: "Quiz".to_string(),
        start_date: T,
        end_date: T,
        class_id: 1,
    };
    assert_eq!(
        degenerate.validate().unwrap_err(),
        "Start date must be before end date"
    );
    let fine = CreateExamInputDto {
        name: "Quiz".to_string(),
        start_date: T,
        end_date: T + 1,
        class_id: 1,
    };
    assert!(fine.validate().is_ok());
}

#[test]
fn list_exams_by_class() {
    let (mut store, class_id) = store_with_class(7);
    let e1 = create_exam_at(&mut store, T, 7, exam_input(class_id)).unwrap();
    let mut second = exam_input(class_id);
    second.name = "Final".to_string();
    let e2 = create_exam_at(&mut store, T, 7, second).unwrap();
    let listed = get_exams_by_class_id(&store, class_id).unwrap();
    assert_eq!(listed.len(), 2);
    assert_eq!(listed[0].id, e1.id);
    assert_eq!(listed[1].id, e2.id);
    let r = get_exams_by_class_id(&store, class_id + 1);
    assert_eq!(
        r.unwrap_err(),
        ServiceError::BadRequest("Class not found".to_string())
    );
}

#[test]
fn update_exam_changes_only_supplied_fields() {
    let (mut store, class_id) = store_with_class(7);
    let exam = create_exam_at(&mut store, T, 7, exam_input(class_id)).unwrap();
    let updated = update_exam_at(
        &mut store,
        T,
        7,
        exam.id,
        UpdateExam { name: Some("Renamed".to_string()), start_date: None, end_date: None },
    )
    .unwrap();
    assert_eq!(updated.name, "Renamed");
    assert_eq!(updated.start_date, T + 3600);
    assert_eq!(updated.end_date, T + 7200);
    let fetched = get_exam_by_id(&store, exam.id).unwrap().unwrap();
    assert_eq!(fetched.name, "Renamed");
}

#[test]
fn update_exam_errors() {
    let (mut store, class_id) = store_with_class(7);
    let exam = create_exam_at(&mut store, T, 7, exam_input(class_id)).unwrap();
    let none = UpdateExam { name: None, start_date: None, end_date: None };
    let r = update_exam_at(&mut store, T, 7, exam.id + 1, none);
    assert_eq!(
        r.unwrap_err(),
        ServiceError::BadRequest("Exam not found".to_string())
    );
    let none = UpdateExam { name: None, start_date: None, end_date: None };
    let r = update_exam_at(&mut store, T, 8, exam.id, none);
    assert_eq!(r.unwrap_err(), ServiceError::Forbidden);
    let reversed = UpdateExam {
        name: None,
        start_date: Some(T + 9000),
        end_date: Some(T + 8000),
    };
    let r = update_exam_at(&mut store, T, 7, exam.id, reversed);
    assert_eq!(
        r.unwrap_err(),
        ServiceError::BadRequest("End date must be after start date".to_string())
    );
    let degenerate = UpdateExam {
        name: None,
        start_date: Some(T + 9000),
        end_date: Some(T + 9000),
    };
    let r = update_exam_at(&mut store, T, 7, exam.id, degenerate);
    assert_eq!(
        r.unwrap_err(),
        ServiceError::BadRequest("End date must be after start date".to_string())
    );
    let past = UpdateExam { name: None, start_date: Some(T - 1), end_date: None };
    let r = update_exam_at(&mut store, T, 7, exam.id, past);
    assert_eq!(
        r.unwrap_err(),
        ServiceError::BadRequest("Start date must be in the future".to_string())
    );
    let at_now = UpdateExam { name: None, start_date: Some(T), end_date: None };
    let r = update_exam_at(&mut store, T, 7, exam.id, at_now);
    assert_eq!(
        r.unwrap_err(),
        ServiceError::BadRequest("Start date must be in the future".to_string())
    );
}

fn question(text: &str, correct: &str, wrong: &str) -> CreateQuestionInputDto {
    CreateQuestionInputDto {
        question: text.to_string(),
        answers: vec![
            CreateAnswerInputDto { answer: correct.to_string(), is_correct: true },
            CreateAnswerInputDto { answer: wrong.to_string(), is_correct: false },
        ],
    }
}

#[test]
fn assign_questions_and_read_as_teacher() {
    let (mut store, class_id) = store_with_class(7);
    let exam = create_exam_at(&mut store, T, 7, exam_input(class_id)).unwrap();
    let q1 = create_question(&mut store, T, question("2+2?", "4", "5")).unwrap();
    let q2 = create_question(&mut store, T, question("3+3?", "6", "7")).unwrap();
    update_questions_in_exam_at(&mut store, T, 7, exam.id, vec![q1.id, q2.id]).unwrap();
    let listed = get_questions_in_exam_as_teacher(&store, exam.id).unwrap();
    assert_eq!(listed.len(), 2);
    assert_eq!(listed[0].id, q1.id);
    assert_eq!(listed[0].question, "2+2?");
    assert_eq!(listed[0].answers.len(), 2);
    assert_eq!(listed[0].answers[0].answer, "4");
    assert_eq!(listed[0].answers[0].is_correct, Some(true));
    assert_eq!(listed[0].answers[1].is_correct, Some(false));
    assert_eq!(listed[1].id, q2.id);
}

#[test]
fn assign_questions_replaces_previous_set() {
    let (mut store, class_id) = store_with_class(7);
    let exam = create_exam_at(&mut store, T, 7, exam_input(class_id)).unwrap();
    let q1 = create_question(&mut store, T, question("2+2?", "4", "5")).unwrap();
    let q2 = create_question(&mut store, T, question("3+3?", "6", "7")).unwrap();
    update_questions_in_exam_at(&mut store, T, 7, exam.id, vec![q1.id]).unwrap();
    update_questions_in_exam_at(&mut store, T, 7, exam.id, vec![q2.id]).unwrap();
    let listed = get_questions_in_exam_as_teacher(&store, exam.id).unwrap();
    assert_eq!(listed.len(), 1);
    assert_eq!(listed[0].id, q2.id);
}

#[test]
fn assign_questions_after_start_is_rejected_and_keeps_set() {
    let (mut store, class_id) = store_with_class(7);
    let exam = create_exam_at(&mut store, T, 7, exam_input(class_id)).unwrap();
    let q1 = create_question(&mut store, T, question("2+2?", "4", "5")).unwrap();
    let q2 = create_question(&mut store, T, question("3+3?", "6", "7")).unwrap();
    update_questions_in_exam_at(&mut store, T, 7, exam.id, vec![q1.id]).unwrap();
    // the exam starts at T + 3600; by T + 4000 the paper is locked
    let r = update_questions_in_exam_at(&mut store, T + 4000, 7, exam.id, vec![q2.id]);
    assert_eq!(
        r.unwrap_err(),
        ServiceError::BadRequest("Exam already started".to_string())
    );
    let listed = get_questions_in_exam_as_teacher(&store, exam.id).unwrap();
    assert_eq!(listed.len(), 1);
    assert_eq!(listed[0].id, q1.id);
}

#[test]
fn assign_questions_reports_first_missing_id() {
    let (mut store, class_id) = store_with_class(7);
    let exam = create_exam_at(&mut store, T, 7, exam_input(class_id)).unwrap();
    let q1 = create_question(&mut store, T, question("2+2?", "4", "5")).unwrap();
    let r = update_questions_in_exam_at(&mut store, T, 7, exam.id, vec![q1.id, 98, 99]);
    assert_eq!(
        r.unwrap_err(),
        ServiceError::BadRequest("Question 98 not found".to_string())
    );
    assert_eq!(store.exam_questions.len(), 0);
}

#[test]
fn assign_questions_authorization() {
    let (mut store, class_id) = store_with_class(7);
    let exam = create_exam_at(&mut store, T, 7, exam_input(class_id)).unwrap();
    let q1 = create_question(&mut store, T, question("2+2?", "4", "5")).unwrap();
    let r = update_questions_in_exam_at(&mut store, T, 8, exam.id, vec![q1.id]);
    assert_eq!(r.unwrap_err(), ServiceError::Forbidden);
    let r = update_questions_in_exam_at(&mut store, T, 7, exam.id + 1, vec![q1.id]);
    assert_eq!(
        r.unwrap_err(),
        ServiceError::BadRequest("Exam not found".to_string())
    );
}

#[test]
fn delete_exam_cascades_and_checks_owner() {
    let (mut store, class_id) = store_with_class(7);
    let exam = create_exam_at(&mut store, T, 7, exam_input(class_id)).unwrap();
    let q1 = create_question(&mut store, T, question("2+2?", "4", "5")).unwrap();
    update_questions_in_exam_at(&mut store, T, 7, exam.id, vec![q1.id]).unwrap();
    enroll_student(&mut store, class_id, 21).unwrap();
    let r = delete_exam(&mut store, 8, exam.id);
    assert_eq!(r.unwrap_err(), ServiceError::Forbidden);
    delete_exam(&mut store, 7, exam.id).unwrap();
    assert!(get_exam_by_id(&store, exam.id).unwrap().is_none());
    assert_eq!(store.exam_questions.len(), 0);
    let r = delete_exam(&mut store, 7, exam.id);
    assert_eq!(
        r.unwrap_err(),
        ServiceError::BadRequest("Exam not found".to_string())
    );
}
