use kitten::Kitten;

pub trait Calc {
    fn add(&self, left: i32, right: i32) -> i32;
}

pub struct Calculator;

impl Calc for Calculator {
    fn add(&self, left: i32, right: i32) -> i32 {
        left + right
    }
}

fn adding_1_and_2_via_a_function(c: Calculator) -> i32 {
    c.add(1, 2)
}

async fn adding_1_and_2_via_a_function_async(c: Calculator) -> i32 {
    async { c.add(1, 2) }.await
}

fn the_answer_is_3_checked_via_a_function(the_answer: i32) {
    assert_eq!(the_answer.clone(), 3);
}

async fn the_answer_is_3_checked_via_a_function_async(the_answer: i32) {
    assert_eq!(the_answer.clone(), 3);
    println!("the answer is {}", the_answer);
}

fn a_calculator() -> Calculator {
    Calculator {}
}

async fn a_calculator_async() -> Calculator {
    Calculator {}
}

#[test]
fn kitten_works_with_closures() {
    Kitten::given(|| 10)
        .and(|result| {
            assert_eq!(result, 10);
            String::from("another type")
        })
        .when(|result| {
            assert_eq!(result, String::from("another type"));
            1
        })
        .then(|result| {
            assert_eq!(result, 1);
            vec!["this", "is", "a", "list"]
        })
        .and(|result| assert_eq!(result, vec!["this", "is", "a", "list"]));
}

#[test]
fn kitten_works_with_named_functions_and_looks_clean() {
    Kitten::given(a_calculator)
        .when(adding_1_and_2_via_a_function)
        .then(the_answer_is_3_checked_via_a_function);
}

#[test]
fn kitten_works_with_async_functions() {
    Kitten::given_async(a_calculator_async)
        .when_async(adding_1_and_2_via_a_function_async)
        .then_async(the_answer_is_3_checked_via_a_function_async);
}

#[test]
fn kitten_works_with_mixing_sync_and_async_functions() {
    Kitten::given_async(a_calculator_async)
        .and(|thus_calculator| thus_calculator)
        .and_async(|thus_calculator| async { thus_calculator })
        .when_async(adding_1_and_2_via_a_function_async)
        .and(the_answer_is_3_checked_via_a_function)
        .then(|_| a_calculator())
        .and_async(adding_1_and_2_via_a_function_async)
        .and(the_answer_is_3_checked_via_a_function);
}

#[test]
fn kitten_works_with_mixing_other_sync_and_async_functions() {
    Kitten::given(a_calculator)
        .and_async(|thus_calculator| async { thus_calculator })
        .when(adding_1_and_2_via_a_function)
        .and_async(the_answer_is_3_checked_via_a_function_async)
        .then(|_| a_calculator())
        .and(adding_1_and_2_via_a_function)
        .and_async(the_answer_is_3_checked_via_a_function_async);
}

#[test]
fn it_works_with_named_functions_closures_and_closures_that_call_functions() {
    Kitten::given(a_calculator) // last return in given chain passed to when
        .when(adding_1_and_2_via_a_function)
        .then(|answer| {
            assert_eq!(answer, 3);
            answer
        })
        .and(the_answer_is_3_checked_via_a_function);
}

#[test]
fn it_works_with_closures_that_capture_variables() {
    let example = "example";

    Kitten::given(|| 10)
        .and(|result| {
            assert_eq!(result, 10);
            String::from("another type")
        })
        .when(|result| {
            assert_eq!(result, String::from("another type"));
            format!("test-{}", example)
        })
        .then(|result| {
            assert_eq!(result, "test-example".to_string());
            vec!["this", "is", "a", "list"]
        })
        .and(|result| assert_eq!(result, vec!["this", "is", "a", "list"]));
}
