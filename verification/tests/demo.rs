use coverage_http::demo::{calculate, greet, greeting, health, useless, CalcResponse, Refusal};

fn greeted(name: &str) -> Result<String, Refusal> {
    greet(Some(name.to_string())).map(|response| response.string)
}

fn refused(error: &str) -> Refusal {
    Refusal { status: 400, error: error.to_string() }
}

#[test]
fn names_are_greeted() {
    assert_eq!(greeted("Rust"), Ok("Hello, Rust!".to_string()));
    assert_eq!(greeted("Ünïcode"), Ok("Hello, Ünïcode!".to_string()));
}

#[test]
fn the_world_is_greeted_in_any_case() {
    for name in ["world", "World", "WORLD", "wOrLd"] {
        assert_eq!(
            greeted(name),
            Ok("Hello, World! Welcome to the Rust coverage demo.".to_string())
        );
    }
    assert_eq!(greeted("world!"), Ok("Hello, world!!".to_string()));
}

#[test]
fn the_greeting_goes_by_the_name_in_lower_case() {
    assert_eq!(
        greeting("anything", &"world".to_string()),
        "Hello, World! Welcome to the Rust coverage demo."
    );
    assert_eq!(greeting("World", &"World".to_string()), "Hello, World!");
}

#[test]
fn a_name_is_required() {
    assert_eq!(greet(None), Err(refused("name parameter is required")));
    assert_eq!(greeted(""), Err(refused("name parameter is required")));
}

#[test]
fn a_name_has_at_most_a_hundred_bytes() {
    assert!(greeted(&"a".repeat(100)).is_ok());
    assert!(greeted(&"é".repeat(50)).is_ok());
    let error = refused("name too long (max 100 characters)");
    assert_eq!(greeted(&"a".repeat(101)), Err(error));
    let error = refused("name too long (max 100 characters)");
    assert_eq!(greeted(&"é".repeat(51)), Err(error));
}

fn sum(a: i64, b: i64) -> CalcResponse {
    calculate(Some(a), Some(b)).unwrap()
}

#[test]
fn numbers_are_added() {
    assert_eq!(
        sum(5, 3),
        CalcResponse { result: 8, operation: "5 + 3 = 8".to_string() }
    );
    assert_eq!(sum(1_000_000, 1_000_000).result, 2_000_000);
    assert_eq!(sum(1_000_001, 0).result, 1_000_001);
}

#[test]
fn negative_numbers_give_zero() {
    assert_eq!(
        sum(-5, 3),
        CalcResponse { result: 0, operation: "-5 + 3 = 0".to_string() }
    );
    assert_eq!(sum(i64::MAX, i64::MIN).result, 0);
}

#[test]
fn sums_stop_at_the_greatest_number() {
    assert_eq!(sum(i64::MAX, 1).result, i64::MAX);
    assert_eq!(sum(i64::MAX, i64::MAX).result, i64::MAX);
}

#[test]
fn both_numbers_are_required() {
    assert_eq!(calculate(None, None), Err(refused("parameter 'a' is required")));
    assert_eq!(calculate(None, Some(1)), Err(refused("parameter 'a' is required")));
    assert_eq!(calculate(Some(1), None), Err(refused("parameter 'b' is required")));
}

#[test]
fn the_fixed_routes_answer() {
    assert_eq!(health().status, "healthy");
    assert_eq!(useless().string, "This is a useless route");
}
