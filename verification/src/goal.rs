use vstd::prelude::*;

verus! {

/// The kind of goal a pact tracks. Part of a closed vocabulary that this
/// crate stores and echoes back; goal-satisfaction judgment is injected by
/// an external authority and never computed here.
#[derive(Clone, Copy, Debug, PartialEq, Eq, Structural)]
pub enum GoalType {
    DailySteps,
    DailyRunDistance,
    DailyCaloriesBurned,
    DailyScreenTimeMax,
    DailyPhonePickupsMax,
    DailyCodeContribution,
    DailyProblemsSolvedCount,
    TotalSteps,
    TotalCaloriesBurned,
    TotalDistance,
    TotalProblemsSolved,
}

impl Default for GoalType {
    fn default() -> (r: Self)
        ensures
            r == GoalType::DailySteps,
    {
        GoalType::DailySteps
    }
}

/// The data source that supplies the boolean elimination signal for a goal.
/// Stored and echoed back, never interpreted by this crate.
#[derive(Clone, Copy, Debug, PartialEq, Eq, Structural)]
pub enum VerificationType {
    ScreenTime,
    CodeHostingAPI,
    ProblemArchiveScrape,
    FitnessAPI,
}

impl Default for VerificationType {
    fn default() -> (r: Self)
        ensures
            r == VerificationType::ScreenTime,
    {
        VerificationType::ScreenTime
    }
}

/// How a measured value is compared against the goal value.
#[derive(Clone, Copy, Debug, PartialEq, Eq, Structural)]
pub enum ComparisonOperator {
    GreaterOrEqual,
    LessOrEqual,
}

impl Default for ComparisonOperator {
    fn default() -> (r: Self)
        ensures
            r == ComparisonOperator::GreaterOrEqual,
    {
        ComparisonOperator::GreaterOrEqual
    }
}

} // verus!
