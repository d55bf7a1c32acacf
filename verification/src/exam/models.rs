use vstd::prelude::*;

verus! {

/// One exam row. An exam belongs to exactly one class and accepts
/// submissions during the inclusive window `[start_date, end_date]`.
/// All dates are unix timestamps in seconds.
#[derive(Debug)]
pub struct Exam {
    pub id: i32,
    pub name: String,
    pub start_date: i64,
    pub end_date: i64,
    pub class_id: i32,
    pub created_at: i64,
}

impl Clone for Exam {
    fn clone(&self) -> (res: Self)
        ensures
            res == *self,
    {
        Exam {
            id: self.id,
            name: self.name.clone(),
            start_date: self.start_date,
            end_date: self.end_date,
            class_id: self.class_id,
            created_at: self.created_at,
        }
    }
}

/// The fields of an exam to be inserted; the store assigns `id` and
/// `created_at`.
#[derive(Debug)]
pub struct NewExam {
    pub name: String,
    pub start_date: i64,
    pub end_date: i64,
    pub class_id: i32,
}

/// A partial update of an exam: only the fields that are present change.
#[derive(Debug)]
pub struct UpdateExam {
    pub name: Option<String>,
    pub start_date: Option<i64>,
    pub end_date: Option<i64>,
}

/// The association of one question with one exam.
#[derive(Debug, Clone, Copy, PartialEq, Eq, Structural)]
pub struct ExamQuestion {
    pub exam_id: i32,
    pub question_id: i32,
}

/// A student's chosen answer for one question within one exam. At most one
/// row exists per `(user_id, exam_id, question_id)`; resubmission overwrites
/// `answer_id`.
#[derive(Debug, Clone, Copy, PartialEq, Eq, Structural)]
pub struct StudentAnswer {
    pub id: i32,
    pub user_id: i32,
    pub exam_id: i32,
    pub question_id: i32,
    pub answer_id: i32,
    pub created_at: i64,
}

/// The fields of a student answer to be upserted; the store assigns `id` and
/// `created_at` on first insertion.
#[derive(Debug, Clone, Copy, PartialEq, Eq, Structural)]
pub struct NewStudentAnswer {
    pub user_id: i32,
    pub exam_id: i32,
    pub question_id: i32,
    pub answer_id: i32,
}

} // verus!
