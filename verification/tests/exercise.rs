use libitofin::exercise::{EuropeanExercise, Exercise, ExerciseType};
use libitofin::time::date::{Date, Month};

#[test]
fn european_exercise_holds_the_single_expiry() {
    let expiry = Date::new(17, Month::May, 2027);
    let exercise = EuropeanExercise::new(expiry);
    assert_eq!(exercise.exercise_type(), ExerciseType::European);
    assert_eq!(exercise.dates(), &[expiry]);
    assert_eq!(exercise.last_date(), expiry);
}

#[test]
fn usable_as_trait_object() {
    let expiry = Date::new(31, Month::December, 2030);
    let exercise: &dyn Exercise = &EuropeanExercise::new(expiry);
    assert_eq!(exercise.last_date(), expiry);
    assert_eq!(exercise.dates().len(), 1);
}
