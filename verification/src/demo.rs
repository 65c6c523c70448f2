//! The demo application: what its routes answer.

use crate::server::{chosen_port, law_variable_goes_before_default};
use crate::text::{ascii_lower, concat_three, decimal, signed_decimal, signed_decimal_text, utf8};
use vstd::prelude::*;
use vstd::string::*;
use vstd::utf8::is_ascii_chars;

verus! {

/// The status of an answer to a request that asks for what cannot be given.
pub const STATUS_BAD_REQUEST: u16 = 400;

/// The port of the application, unless `APP_PORT` names another.
pub const DEFAULT_APP_PORT: u16 = 8000;

/// The greatest number of bytes in a name.
pub const MAX_NAME_BYTES: usize = 100;

/// The answer to a health check.
#[derive(Debug, PartialEq, Eq)]
pub struct HealthResponse {
    pub status: String,
}

/// An answer that is a text.
#[derive(Debug, PartialEq, Eq)]
pub struct StringResponse {
    pub string: String,
}

/// The answer to a calculation.
#[derive(Debug, PartialEq, Eq)]
pub struct CalcResponse {
    pub result: i64,
    /// The calculation, written out.
    pub operation: String,
}

/// An answer that refuses the request.
#[derive(Debug, PartialEq, Eq)]
pub struct Refusal {
    pub status: u16,
    pub error: String,
}

/// A text in lower case: the result of `str::to_lowercase`.
pub uninterp spec fn lowercase(text: Seq<char>) -> Seq<char>;

/// Writes a text in lower case.
///
/// Calls `str::to_lowercase` of std. Trusted: the result depends on the text alone, and in a
/// text of ASCII characters the letters, and nothing else, are changed.
#[verifier::external_body]
fn to_lowercase(text: &str) -> (r: String)
    ensures
        r@ == lowercase(text@),
        is_ascii_chars(text@) ==> r@ == text@.map_values(|c: char| ascii_lower(c)),
{
    text.to_lowercase()
}

/// The greeting for a name that is `lowered` in lower case.
pub open spec fn greeting_text(name: Seq<char>, lowered: Seq<char>) -> Seq<char> {
    if lowered == "world"@ {
        "Hello, World! Welcome to the Rust coverage demo."@
    } else {
        "Hello, "@ + name + "!"@
    }
}

/// The name that a request greets; it is empty where there is none.
pub open spec fn given_name(name: Option<String>) -> Seq<char> {
    match name {
        Some(name) => name@,
        None => Seq::empty(),
    }
}

/// The error of a name that cannot be greeted.
pub open spec fn name_error(name: Seq<char>) -> Option<Seq<char>> {
    if name.len() == 0 {
        Some("name parameter is required"@)
    } else if utf8(name).len() > MAX_NAME_BYTES {
        Some("name too long (max 100 characters)"@)
    } else {
        None
    }
}

/// Greets a name that is `lowered` in lower case.
pub fn greeting(name: &str, lowered: &String) -> (r: String)
    ensures
        r@ == greeting_text(name@, lowered@),
{
    let world = "world".to_owned();
    if *lowered == world {
        "Hello, World! Welcome to the Rust coverage demo.".to_owned()
    } else {
        concat_three("Hello, ", name, "!")
    }
}

/// Refuses a request.
fn refuse(error: &str) -> (r: Refusal)
    ensures
        r.status == STATUS_BAD_REQUEST,
        r.error@ == error@,
{
    Refusal { status: STATUS_BAD_REQUEST, error: error.to_owned() }
}

/// Answers a health check.
pub fn health() -> (r: HealthResponse)
    ensures
        r.status@ == "healthy"@,
{
    HealthResponse { status: "healthy".to_owned() }
}

/// Greets whoever the request names.
pub fn greet(name: Option<String>) -> (r: Result<StringResponse, Refusal>)
    ensures
        r is Err <==> name_error(given_name(name)) is Some,
        r is Err ==> r->Err_0.status == STATUS_BAD_REQUEST,
        r is Err ==> r->Err_0.error@ == name_error(given_name(name))->Some_0,
        r is Ok ==> r->Ok_0.string@ == greeting_text(
            given_name(name),
            lowercase(given_name(name)),
        ),
        r is Ok && is_ascii_chars(given_name(name)) ==> r->Ok_0.string@ == greeting_text(
            given_name(name),
            given_name(name).map_values(|c: char| ascii_lower(c)),
        ),
{
    let name = match name {
        Some(name) => name,
        None => String::new(),
    };
    if name.as_str().is_empty() {
        return Err(refuse("name parameter is required"));
    }
    if name.as_str().as_bytes().len() > MAX_NAME_BYTES {
        return Err(refuse("name too long (max 100 characters)"));
    }
    let lowered = to_lowercase(name.as_str());
    Ok(StringResponse { string: greeting(name.as_str(), &lowered) })
}

/// The result of a calculation: zero where a number is negative, and else the sum, as far as 64
/// bits hold it.
pub open spec fn calculation(a: int, b: int) -> int {
    if a < 0 || b < 0 {
        0
    } else if a + b > i64::MAX {
        i64::MAX as int
    } else {
        a + b
    }
}

/// A calculation, written out.
pub open spec fn operation_text(a: int, b: int) -> Seq<char> {
    signed_decimal(a) + " + "@ + signed_decimal(b) + " = "@ + signed_decimal(calculation(a, b))
}

/// Adds two numbers.
pub fn calculate(a: Option<i64>, b: Option<i64>) -> (r: Result<CalcResponse, Refusal>)
    ensures
        r is Err <==> a is None || b is None,
        r is Err ==> r->Err_0.status == STATUS_BAD_REQUEST,
        a is None ==> r->Err_0.error@ == "parameter 'a' is required"@,
        a is Some && b is None ==> r->Err_0.error@ == "parameter 'b' is required"@,
        r is Ok ==> r->Ok_0.result == calculation(a->Some_0 as int, b->Some_0 as int),
        r is Ok ==> r->Ok_0.operation@ == operation_text(a->Some_0 as int, b->Some_0 as int),
{
    let a: i64 = match a {
        Some(a) => a,
        None => return Err(refuse("parameter 'a' is required")),
    };
    let b: i64 = match b {
        Some(b) => b,
        None => return Err(refuse("parameter 'b' is required")),
    };
    let result: i64 = if a < 0 || b < 0 {
        0
    } else if a > 1_000_000 || b > 1_000_000 {
        match a.checked_add(b) {
            Some(sum) => sum,
            None => i64::MAX,
        }
    } else {
        a + b
    };
    let mut operation = concat_three(
        signed_decimal_text(a).as_str(),
        " + ",
        signed_decimal_text(b).as_str(),
    );
    operation.append(" = ");
    operation.append(signed_decimal_text(result).as_str());
    Ok(CalcResponse { result, operation })
}

/// Answers the route that is there for coverage alone.
pub fn useless() -> (r: StringResponse)
    ensures
        r.string@ == "This is a useless route"@,
{
    StringResponse { string: "This is a useless route".to_owned() }
}

/// A name is refused exactly where it is missing, empty or of more than a hundred bytes, and each of
/// these has its own words. Its characters have no part in it.
pub proof fn law_names_are_refused_by_their_length(name: Seq<char>, given: String)
    ensures
        name_error(name) is None <==> 0 < name.len() && utf8(name).len() <= 100,
        name.len() == 0 ==> name_error(name) == Some("name parameter is required"@),
        name.len() > 0 && utf8(name).len() > 100 ==> name_error(name) == Some(
            "name too long (max 100 characters)"@,
        ),
        given_name(None) == Seq::<char>::empty(),
        given_name(Some(given)) == given@,
        STATUS_BAD_REQUEST == 400,
{
}

/// The world is welcomed, however its name is written. Anyone else is greeted by the name as it was
/// given.
pub proof fn law_the_world_is_welcomed(name: Seq<char>, lowered: Seq<char>)
    ensures
        lowered == "world"@ ==> greeting_text(name, lowered)
            == "Hello, World! Welcome to the Rust coverage demo."@,
        lowered != "world"@ ==> greeting_text(name, lowered) == "Hello, "@ + name + "!"@,
{
}

/// Numbers are added in either order to the same result, as far as 64 bits hold it; a negative
/// number makes it zero. Adding zero changes nothing.
pub proof fn law_calculation_adds(a: i64, b: i64)
    ensures
        calculation(a as int, b as int) == calculation(b as int, a as int),
        a >= 0 && b >= 0 && a + b <= i64::MAX ==> calculation(a as int, b as int) == a + b,
        a >= 0 && b >= 0 && a + b > i64::MAX ==> calculation(a as int, b as int)
            == 0x7fff_ffff_ffff_ffff,
        a < 0 || b < 0 ==> calculation(a as int, b as int) == 0,
        a >= 0 ==> calculation(a as int, 0) == a,
{
}

/// A calculation is written out with its two numbers, in their order, and its result.
pub proof fn law_calculation_is_written_out(a: i64, b: i64)
    ensures
        operation_text(a as int, b as int) == signed_decimal(a as int) + " + "@ + signed_decimal(
            b as int,
        ) + " = "@ + signed_decimal(calculation(a as int, b as int)),
{
}

/// The application listens on port 8000, unless its variable names another.
pub proof fn law_application_port(port: u16)
    ensures
        chosen_port(None, DEFAULT_APP_PORT) == 8000,
        chosen_port(Some(decimal(port as nat)), DEFAULT_APP_PORT) == port,
{
    law_variable_goes_before_default(port, DEFAULT_APP_PORT);
}

} // verus!
