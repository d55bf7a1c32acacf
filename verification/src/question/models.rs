use vstd::prelude::*;

verus! {

/// One question of the question bank.
#[derive(Debug)]
pub struct Question {
    pub id: i32,
    pub question: String,
    pub created_at: i64,
}

impl Clone for Question {
    fn clone(&self) -> (res: Self)
        ensures
            res == *self,
    {
        Question { id: self.id, question: self.question.clone(), created_at: self.created_at }
    }
}

/// One possible answer to a question, with its correctness flag.
#[derive(Debug)]
pub struct Answer {
    pub id: i32,
    pub answer: String,
    pub is_correct: bool,
    pub question_id: i32,
    pub created_at: i64,
}

impl Clone for Answer {
    fn clone(&self) -> (res: Self)
        ensures
            res == *self,
    {
        Answer {
            id: self.id,
            answer: self.answer.clone(),
            is_correct: self.is_correct,
            question_id: self.question_id,
            created_at: self.created_at,
        }
    }
}

} // verus!
