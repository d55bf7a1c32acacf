use school_platform::auth::crypto::encrypt_password;
use school_platform::class::service::{create_class, enroll_student, get_class_by_id,
    is_class_teacher, is_student_enrolled};
use school_platform::clock::current_timestamp;
use school_platform::decimal::i32_to_dec_string;
use school_platform::errors::ServiceError;
use school_platform::question::dto::{CreateAnswerInputDto, CreateQuestionInputDto};
use school_platform::role::model::{authorize, RoleEnum};
use school_platform::store::Store;
use school_platform::user::dto::CreateUserInputDto;
use school_platform::user::repository::get_user_by_email;
use school_platform::user::service::create_user_at;

const T: i64 = 1_700_000_000;

fn user_input(name: &str, email: &str) -> CreateUserInputDto {
    CreateUserInputDto {
        name: name.to_string(),
        email: email.to_string(),
        password: "hunter2".to_string(),
    }
}

#[test]
fn create_user_stores_a_bcrypt_hash() {
    let mut store = Store::new();
    let out = create_user_at(&mut store, T, user_input("ada", "ada@school.example")).unwrap();
    assert_eq!(out.name, "ada");
    assert_eq!(out.email, "ada@school.example");
    assert_eq!(store.users.len(), 1);
    let row = &store.users[0];
    assert_eq!(row.id, out.id);
    assert_eq!(row.password.len(), 60);
    assert!(row.password.starts_with("$2y$04$"));
    assert_ne!(row.password, "hunter2");
    // the student role was granted in the same transaction
    assert_eq!(store.users_roles.len(), 1);
    assert_eq!(store.users_roles[0].user_id, out.id);
    assert_eq!(store.users_roles[0].role_name, "STUDENT");
}

#[test]
fn create_user_rejects_taken_email() {
    let mut store = Store::new();
    create_user_at(&mut store, T, user_input("ada", "ada@school.example")).unwrap();
    let r = create_user_at(&mut store, T, user_input("imposter", "ada@school.example"));
    assert_eq!(
        r.unwrap_err(),
        ServiceError::BadRequest("Email already exists".to_string())
    );
    assert_eq!(store.users.len(), 1);
}

#[test]
fn get_user_by_email_finds_the_row() {
    let mut store = Store::new();
    let out = create_user_at(&mut store, T, user_input("ada", "ada@school.example")).unwrap();
    let found = get_user_by_email(&store, &"ada@school.example".to_string())
        .unwrap()
        .unwrap();
    assert_eq!(found.id, out.id);
    assert_eq!(found.name, "ada");
    assert!(get_user_by_email(&store, &"nobody@school.example".to_string())
        .unwrap()
        .is_none());
}

#[test]
fn encrypt_password_produces_distinct_digest() {
    let hashed = encrypt_password("correct horse").unwrap();
    assert_eq!(hashed.len(), 60);
    assert_ne!(hashed, "correct horse");
    assert!(hashed.starts_with("$2y$04$"));
}

#[test]
fn user_input_validation() {
    assert_eq!(
        user_input("", "a@b.c").validate().unwrap_err(),
        "Name is required"
    );
    assert_eq!(user_input("ada", "").validate().unwrap_err(), "Email is required");
    assert!(user_input("ada", "a@b.c").validate().is_ok());
}

#[test]
fn question_input_validation() {
    let no_answers = CreateQuestionInputDto { question: "2+2?".to_string(), answers: vec![] };
    assert_eq!(
        no_answers.validate().unwrap_err(),
        "Must have at least 1 answer"
    );
    let empty_text = CreateQuestionInputDto {
        question: "".to_string(),
        answers: vec![CreateAnswerInputDto { answer: "4".to_string(), is_correct: true }],
    };
    assert_eq!(empty_text.validate().unwrap_err(), "Question is required");
    let empty_answer = CreateAnswerInputDto { answer: "".to_string(), is_correct: false };
    assert_eq!(empty_answer.validate().unwrap_err(), "Answer is required");
    let fine = CreateQuestionInputDto {
        question: "2+2?".to_string(),
        answers: vec![CreateAnswerInputDto { answer: "4".to_string(), is_correct: true }],
    };
    assert!(fine.validate().is_ok());
}

#[test]
fn role_names_and_authorization() {
    assert_eq!(RoleEnum::ADMIN.role_name(), "ADMIN");
    assert_eq!(RoleEnum::STUDENT.role_name(), "STUDENT");
    assert_eq!(RoleEnum::TEACHER.role_name(), "TEACHER");
    assert_eq!(RoleEnum::MONITOR.role_name(), "MONITOR");
    let user_roles = vec![RoleEnum::STUDENT, RoleEnum::MONITOR];
    assert!(authorize(&user_roles, &vec![RoleEnum::MONITOR, RoleEnum::ADMIN]));
    assert!(!authorize(&user_roles, &vec![RoleEnum::TEACHER]));
    assert!(!authorize(&user_roles, &vec![]));
    assert!(!authorize(&vec![], &vec![RoleEnum::STUDENT]));
}

#[test]
fn class_membership_queries() {
    let mut store = Store::new();
    let class = create_class(&mut store, "Algebra".to_string(), 7).unwrap();
    assert_eq!(class.name, "Algebra");
    assert!(is_class_teacher(&store, 7, class.id).unwrap());
    assert!(!is_class_teacher(&store, 8, class.id).unwrap());
    assert!(!is_class_teacher(&store, 7, class.id + 1).unwrap());
    enroll_student(&mut store, class.id, 21).unwrap();
    enroll_student(&mut store, class.id, 21).unwrap();
    assert_eq!(store.classes_students.len(), 1);
    assert!(is_student_enrolled(&store, class.id, 21).unwrap());
    assert!(!is_student_enrolled(&store, class.id, 22).unwrap());
    let fetched = get_class_by_id(&store, class.id).unwrap().unwrap();
    assert_eq!(fetched.id, class.id);
    assert_eq!(fetched.user_id, 7);
    assert!(get_class_by_id(&store, class.id + 1).unwrap().is_none());
    let r = enroll_student(&mut store, class.id + 1, 21);
    assert_eq!(
        r.unwrap_err(),
        ServiceError::BadRequest("Class not found".to_string())
    );
}

#[test]
fn decimal_rendering_matches_std() {
    assert_eq!(i32_to_dec_string(0), "0");
    assert_eq!(i32_to_dec_string(7), "7");
    assert_eq!(i32_to_dec_string(98), "98");
    assert_eq!(i32_to_dec_string(1234567890), "1234567890");
    assert_eq!(i32_to_dec_string(-42), "-42");
    assert_eq!(i32_to_dec_string(i32::MAX), i32::MAX.to_string());
    assert_eq!(i32_to_dec_string(i32::MIN), i32::MIN.to_string());
}

#[test]
fn clock_reads_a_plausible_time() {
    // the unix timestamp of the moment the suite runs lies after 2023
    assert!(current_timestamp() > 1_672_531_200);
}
