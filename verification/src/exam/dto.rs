use vstd::prelude::*;
use vstd::string::{StrSliceExecFns, StringExecFns};

verus! {

/// Input for creating an exam. Dates are unix timestamps in seconds.
#[derive(Debug)]
pub struct CreateExamInputDto {
    pub name: String,
    pub start_date: i64,
    pub end_date: i64,
    pub class_id: i32,
}

impl CreateExamInputDto {
    /// Shape validation applied before the service runs: the name must be
    /// non-empty and the window non-degenerate.
    pub fn validate(&self) -> (r: Result<(), String>)
        ensures
            r matches Ok(_) <==> (self.name@.len() > 0 && self.start_date < self.end_date),
            r matches Err(m) ==> (if self.name@.len() == 0 {
                m@ == "Name is required"@
            } else {
                m@ == "Start date must be before end date"@
            }),
    {
        if self.name.as_str().unicode_len() == 0 {
            return Err(String::from_str("Name is required"));
        }
        if self.start_date >= self.end_date {
            return Err(String::from_str("Start date must be before end date"));
        }
        Ok(())
    }
}

/// One graded answer of a student's exam result: the chosen answer for one
/// question (0 when no answer was submitted) and whether it was correct.
#[derive(Debug, Clone, Copy, PartialEq, Eq, Structural)]
pub struct StudentExamAnswerResultDto {
    pub question_id: i32,
    pub answer_id: i32,
    pub is_correct: bool,
}

/// One student's result for one exam. The score is the rational
/// `correct_count / total_questions`; a question with no submitted answer
/// counts as incorrect in the denominator.
#[derive(Debug)]
pub struct StudentExamResultDto {
    pub id: i32,
    pub name: String,
    pub correct_count: usize,
    pub total_questions: usize,
    pub student_answer_results: Vec<StudentExamAnswerResultDto>,
}

} // verus!
