use vstd::prelude::*;
use vstd::string::{StrSliceExecFns, StringExecFns};

verus! {

/// Input for creating a question together with its answers.
#[derive(Debug)]
pub struct CreateQuestionInputDto {
    pub question: String,
    pub answers: Vec<CreateAnswerInputDto>,
}

impl CreateQuestionInputDto {
    /// Shape validation: at least one answer, and a non-empty question text.
    pub fn validate(&self) -> (r: Result<(), String>)
        ensures
            r matches Ok(_) <==> (self.answers@.len() > 0 && self.question@.len() > 0),
            r matches Err(m) ==> (if self.answers@.len() == 0 {
                m@ == "Must have at least 1 answer"@
            } else {
                m@ == "Question is required"@
            }),
    {
        if self.answers.len() == 0 {
            return Err(String::from_str("Must have at least 1 answer"));
        }
        if self.question.as_str().unicode_len() == 0 {
            return Err(String::from_str("Question is required"));
        }
        Ok(())
    }
}

/// Input for one answer of a new question.
#[derive(Debug)]
pub struct CreateAnswerInputDto {
    pub answer: String,
    pub is_correct: bool,
}

impl CreateAnswerInputDto {
    /// Shape validation: a non-empty answer text.
    pub fn validate(&self) -> (r: Result<(), String>)
        ensures
            r matches Ok(_) <==> self.answer@.len() > 0,
            r matches Err(m) ==> m@ == "Answer is required"@,
    {
        if self.answer.as_str().unicode_len() == 0 {
            return Err(String::from_str("Answer is required"));
        }
        Ok(())
    }
}

impl Clone for CreateAnswerInputDto {
    fn clone(&self) -> (res: Self)
        ensures
            res == *self,
    {
        CreateAnswerInputDto { answer: self.answer.clone(), is_correct: self.is_correct }
    }
}

/// One answer as handed out to callers. `is_correct` is `None` when the
/// correctness is redacted (a student looking at a still-open exam).
#[derive(Debug)]
pub struct AnswerDto {
    pub id: i32,
    pub answer: String,
    pub is_correct: Option<bool>,
}

impl Clone for AnswerDto {
    fn clone(&self) -> (res: Self)
        ensures
            res == *self,
    {
        AnswerDto { id: self.id, answer: self.answer.clone(), is_correct: self.is_correct }
    }
}

/// One question with all its answers, as handed out to callers.
#[derive(Debug)]
pub struct QuestionWithAnswersDto {
    pub id: i32,
    pub question: String,
    pub answers: Vec<AnswerDto>,
}

} // verus!
