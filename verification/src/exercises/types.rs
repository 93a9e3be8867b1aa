use vstd::prelude::*;
use crate::exercises::service::AnyExercise;

verus! {

/// Why an exercise could not be built, answered or validated.
#[derive(Debug)]
pub struct ExerciseError {
    pub message: String,
}

/// The label a semantic grader gives an answer.
#[derive(Debug, Clone, Copy, PartialEq, Eq, Structural)]
pub enum SemanticGradeLabel {
    Excellent,
    Partial,
    Incorrect,
}

impl SemanticGradeLabel {
    /// The label's name.
    pub open spec fn spec_name(self) -> Seq<char> {
        match self {
            SemanticGradeLabel::Excellent => "Excellent"@,
            SemanticGradeLabel::Partial => "Partial"@,
            SemanticGradeLabel::Incorrect => "Incorrect"@,
        }
    }

    /// The label's name.
    pub fn to_str(&self) -> (r: &'static str)
        ensures
            r@ == self.spec_name(),
    {
        match self {
            SemanticGradeLabel::Excellent => "Excellent",
            SemanticGradeLabel::Partial => "Partial",
            SemanticGradeLabel::Incorrect => "Incorrect",
        }
    }
}

/// What every exercise offers: its question, the verdict on an answer, a
/// hint and the name of its kind.
pub trait Exercise {
    /// Whether the exercise is in a state its methods accept (its
    /// invariant).
    spec fn valid(&self) -> bool;

    /// The question or prompt shown to the learner.
    fn generate_question(&self) -> String
        requires
            self.valid(),
    ;

    /// Whether `answer` is right. `grade` is what the semantic grader said of
    /// the answer against the expected text (`None` where no grader is set
    /// up); only the exercises graded by meaning read it.
    fn check_answer(&self, answer: &str, grade: Option<SemanticGradeLabel>) -> bool
        requires
            self.valid(),
    ;

    /// A hint, where the exercise has one.
    fn get_hint(&self) -> Option<String>
        requires
            self.valid(),
    ;

    /// The name of the exercise's kind.
    fn get_type_name(&self) -> &'static str
        requires
            self.valid(),
    ;
}

/// What a learner is told after answering.
#[derive(Debug, Clone)]
pub struct ExerciseResponse {
    pub is_correct: bool,
    pub correct_answer: Option<String>,
    pub hint: Option<String>,
    pub options: Option<Vec<String>>,
    pub semantic_grade: Option<String>,
}

/// The views of an optional string.
pub open spec fn opt_view(o: Option<String>) -> Option<Seq<char>> {
    match o {
        Some(s) => Some(s@),
        None => None,
    }
}

/// An exercise as the service hands it out, by the axis it was made for.
#[derive(Debug)]
pub enum ExerciseType {
    Memorization(AnyExercise),
    Translation(AnyExercise),
}

impl ExerciseType {
    /// The exercise itself.
    pub fn as_exercise(&self) -> (r: &AnyExercise)
        ensures
            *r == match *self {
                ExerciseType::Memorization(e) => e,
                ExerciseType::Translation(e) => e,
            },
    {
        match self {
            ExerciseType::Memorization(e) => e,
            ExerciseType::Translation(e) => e,
        }
    }

    /// The name of the axis the exercise was made for.
    pub fn get_type_name(&self) -> (r: &'static str)
        ensures
            r@ == match *self {
                ExerciseType::Memorization(_) => "memorization"@,
                ExerciseType::Translation(_) => "translation"@,
            },
    {
        match self {
            ExerciseType::Memorization(_) => "memorization",
            ExerciseType::Translation(_) => "translation",
        }
    }
}

} // verus!
