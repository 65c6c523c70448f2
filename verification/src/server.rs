//! The coverage server: its port, its profile data and its answers.

use crate::encoding::{base64_decoded, base64_encoded, base64_length, encode, Base64Error};
use crate::headers::{
    coverport_headers, field_key, header_fields, identity_fields, Identity, IdentityView,
};
use crate::path::{is_profraw_name, joined, SEPARATOR};
use crate::text::{
    concat_texts, concat_three, decimal, decimal_text, is_digit, law_decimal_is_read_back,
    law_only_numbers_that_fit_are_read,
    lemma_decimal_digits, parse_u16, parsed_u16, signed_decimal, signed_decimal_text, text_or_none, utf8,
};
use axum::http::{HeaderMap, HeaderValue};
use vstd::prelude::*;
use vstd::string::*;
use vstd::utf8::{is_ascii_chars, is_ascii_chars_encode_utf8};

verus! {

/// The status of an answer that was given as asked.
pub const STATUS_OK: u16 = 200;

/// The status of an answer where the server failed.
pub const STATUS_INTERNAL_SERVER_ERROR: u16 = 500;

/// A coverage server that listens on a port.
#[derive(Debug, PartialEq, Eq)]
pub struct CoverageServer {
    pub port: u16,
}

/// The port that a variable names, or else the default.
pub open spec fn chosen_port(variable: Option<Seq<char>>, default_port: u16) -> u16 {
    match variable {
        Some(text) => match parsed_u16(text) {
            Some(port) => port,
            None => default_port,
        },
        None => default_port,
    }
}

/// Chooses the port that a variable names or, where it is not set or names none, the default.
pub fn choose_port(variable: &Option<String>, default_port: u16) -> (r: u16)
    ensures
        r == chosen_port(text_or_none(*variable), default_port),
{
    match variable {
        Some(text) => match parse_u16(text.as_str()) {
            Some(port) => port,
            None => default_port,
        },
        None => default_port,
    }
}

impl CoverageServer {
    /// A server on the port that `coverage_port`, the environment variable `COVERAGE_PORT`,
    /// names, or else on the default.
    pub fn new(default_port: u16, coverage_port: Option<String>) -> (r: CoverageServer)
        ensures
            r.port == chosen_port(text_or_none(coverage_port), default_port),
    {
        CoverageServer { port: choose_port(&coverage_port, default_port) }
    }
}

/// A port that the variable names in decimal goes before the default.
pub proof fn law_variable_goes_before_default(port: u16, default_port: u16)
    ensures
        chosen_port(Some(decimal(port as nat)), default_port) == port,
        chosen_port(None, default_port) == default_port,
{
    law_decimal_is_read_back(port);
}

/// The error where the profile has no size.
pub open spec fn no_profile() -> Seq<char> {
    "Profile buffer size is 0 — coverage may not be enabled"@
}

/// The error where the profile could not be written to memory.
pub open spec fn write_failure(code: int) -> Seq<char> {
    "__llvm_profile_write_buffer failed with error code: "@ + signed_decimal(code)
}

/// Makes a buffer of zeros for a profile of this size, as far as the machine's words hold it.
pub fn profile_buffer(size: u64) -> (r: Result<Vec<u8>, String>)
    requires
        size as usize <= isize::MAX,
    ensures
        r is Err <==> size as usize == 0,
        r is Err ==> r->Err_0@ == no_profile(),
        r is Ok ==> r->Ok_0@ == Seq::new((size as usize) as nat, |i: int| 0u8),
{
    let n: usize = size as usize;
    if n == 0 {
        return Err("Profile buffer size is 0 — coverage may not be enabled".to_owned());
    }
    let buffer: Vec<u8> = vec![0u8; n];
    proof {
        assert(buffer@ =~= Seq::new((size as usize) as nat, |i: int| 0u8));
    }
    Ok(buffer)
}

/// Takes the profile from the buffer that LLVM wrote it to; `code` is what the writing returned.
pub fn collect_profraw_in_memory(buffer: Vec<u8>, code: i32) -> (r: Result<Vec<u8>, String>)
    ensures
        r is Err <==> code != 0,
        r is Err ==> r->Err_0@ == write_failure(code as int),
        r is Ok ==> r->Ok_0@ == buffer@,
{
    if code != 0 {
        return Err(
            concat_texts(
                "__llvm_profile_write_buffer failed with error code: ",
                signed_decimal_text(code as i64).as_str(),
            ),
        );
    }
    Ok(buffer)
}

/// The answer with the profile data.
#[derive(Debug, PartialEq, Eq)]
pub struct CoverageResponse {
    /// The name for the file with the profile data.
    pub profraw_filename: String,
    /// The profile data, in base64.
    pub profraw_data: String,
    /// The number of bytes of the profile data.
    pub profraw_size: usize,
    /// The nanoseconds since the Unix epoch.
    pub timestamp: u64,
    pub coverage_enabled: bool,
}

/// The model of a [`CoverageResponse`].
#[verifier::ext_equal]
pub struct ServedView {
    pub profraw_filename: Seq<char>,
    pub profraw_data: Seq<char>,
    pub profraw_size: nat,
    pub timestamp: u64,
    pub coverage_enabled: bool,
}

impl View for CoverageResponse {
    type V = ServedView;

    open spec fn view(&self) -> ServedView {
        ServedView {
            profraw_filename: self.profraw_filename@,
            profraw_data: self.profraw_data@,
            profraw_size: self.profraw_size as nat,
            timestamp: self.timestamp,
            coverage_enabled: self.coverage_enabled,
        }
    }
}

/// The answer with an error.
#[derive(Debug, PartialEq, Eq)]
pub struct ErrorResponse {
    pub error: String,
}

/// The body of an answer: JSON, or plain text.
#[derive(Debug, PartialEq, Eq)]
pub enum Body {
    Coverage(CoverageResponse),
    Error(ErrorResponse),
    Text(String),
}

/// The model of a [`Body`].
#[verifier::ext_equal]
pub enum BodyView {
    Coverage(ServedView),
    Error(Seq<char>),
    Text(Seq<char>),
}

impl View for Body {
    type V = BodyView;

    open spec fn view(&self) -> BodyView {
        match *self {
            Body::Coverage(response) => BodyView::Coverage(response@),
            Body::Error(response) => BodyView::Error(response.error@),
            Body::Text(text) => BodyView::Text(text@),
        }
    }
}

/// An answer of the server.
#[derive(Debug)]
pub struct Answer {
    pub status: u16,
    pub headers: HeaderMap<HeaderValue>,
    pub body: Body,
}

/// The model of an [`Answer`].
#[verifier::ext_equal]
pub struct AnswerView {
    pub status: u16,
    pub fields: Map<Seq<char>, Seq<u8>>,
    pub body: BodyView,
}

impl View for Answer {
    type V = AnswerView;

    open spec fn view(&self) -> AnswerView {
        AnswerView {
            status: self.status,
            fields: header_fields(self.headers),
            body: self.body@,
        }
    }
}

/// The nanoseconds since the Unix epoch, as far as 64 bits hold them; zero before it.
pub open spec fn nanosecond_stamp(nanos: Option<u128>) -> u64 {
    match nanos {
        Some(nanos) => (nanos % 0x1_0000_0000_0000_0000) as u64,
        None => 0,
    }
}

/// The name for the file with the profile data of a process at a moment.
pub open spec fn profraw_filename(pid: u32, timestamp: u64) -> Seq<char> {
    "coverage."@ + decimal(pid as nat) + "."@ + decimal(timestamp as nat) + ".profraw"@
}

/// The answer with profile data of `size` bytes that are `encoded` in base64.
pub open spec fn served(encoded: Seq<char>, size: nat, pid: u32, nanos: Option<u128>) -> ServedView {
    ServedView {
        profraw_filename: profraw_filename(pid, nanosecond_stamp(nanos)),
        profraw_data: encoded,
        profraw_size: size,
        timestamp: nanosecond_stamp(nanos),
        coverage_enabled: true,
    }
}

/// The answer to a request for coverage.
pub open spec fn coverage_answer(
    identity: IdentityView,
    profile: Result<Seq<u8>, Seq<char>>,
    nanos: Option<u128>,
) -> AnswerView {
    match profile {
        Ok(data) => AnswerView {
            status: STATUS_OK,
            fields: identity_fields(identity),
            body: BodyView::Coverage(
                served(base64_encoded(data), data.len(), identity.pid, nanos),
            ),
        },
        Err(error) => AnswerView {
            status: STATUS_INTERNAL_SERVER_ERROR,
            fields: identity_fields(identity),
            body: BodyView::Error(error),
        },
    }
}

/// An answer in plain text.
pub open spec fn text_answer(identity: IdentityView, text: Seq<char>) -> AnswerView {
    AnswerView {
        status: STATUS_OK,
        fields: identity_fields(identity),
        body: BodyView::Text(text),
    }
}

/// Cuts the nanoseconds down to 64 bits.
fn stamp(nanos: Option<u128>) -> (r: u64)
    ensures
        r == nanosecond_stamp(nanos),
{
    match nanos {
        Some(nanos) => (nanos % 0x1_0000_0000_0000_0000) as u64,
        None => 0,
    }
}

/// Makes the answer with profile data of `size` bytes that are `encoded` in base64.
pub fn coverage_response(
    encoded: String,
    size: usize,
    pid: u32,
    nanos: Option<u128>,
) -> (r: CoverageResponse)
    ensures
        r@ == served(encoded@, size as nat, pid, nanos),
{
    let timestamp: u64 = stamp(nanos);
    let mut filename = concat_three("coverage.", decimal_text(pid as u64).as_str(), ".");
    filename.append(decimal_text(timestamp).as_str());
    filename.append(".profraw");
    CoverageResponse {
        profraw_filename: filename,
        profraw_data: encoded,
        profraw_size: size,
        timestamp,
        coverage_enabled: true,
    }
}

/// The view of a profile, or of the error in its place.
pub open spec fn profile_view(profile: Result<Vec<u8>, String>) -> Result<Seq<u8>, Seq<char>> {
    match profile {
        Ok(data) => Ok(data@),
        Err(error) => Err(error@),
    }
}

/// Answers a request for coverage with the profile, in base64, or with the error in its place.
pub fn handle_coverage(
    identity: &Identity,
    profile: Result<Vec<u8>, String>,
    nanos: Option<u128>,
) -> (r: Answer)
    requires
        profile is Ok ==> base64_length(profile->Ok_0@.len()) <= isize::MAX,
    ensures
        r@ == coverage_answer(identity@, profile_view(profile), nanos),
        profile is Ok ==> base64_decoded(r@.body->Coverage_0.profraw_data) == Ok::<
            Seq<u8>,
            Base64Error,
        >(profile->Ok_0@),
{
    let headers = coverport_headers(identity);
    match profile {
        Ok(data) => {
            let size: usize = data.len();
            let encoded = encode(&data);
            Answer {
                status: STATUS_OK,
                headers,
                body: Body::Coverage(coverage_response(encoded, size, identity.pid, nanos)),
            }
        },
        Err(error) => Answer {
            status: STATUS_INTERNAL_SERVER_ERROR,
            headers,
            body: Body::Error(ErrorResponse { error }),
        },
    }
}

/// Answers a request to reset the counters, once they are reset.
pub fn handle_reset_counters(identity: &Identity) -> (r: Answer)
    ensures
        r@ == text_answer(identity@, "Counters reset successfully"@),
{
    Answer {
        status: STATUS_OK,
        headers: coverport_headers(identity),
        body: Body::Text("Counters reset successfully".to_owned()),
    }
}

/// Answers a health check.
pub fn handle_health(identity: &Identity) -> (r: Answer)
    ensures
        r@ == text_answer(identity@, "coverage server healthy"@),
{
    Answer {
        status: STATUS_OK,
        headers: coverport_headers(identity),
        body: Body::Text("coverage server healthy".to_owned()),
    }
}

/// The characters of a name for profile data: the prefix, the process, a dot, the moment and the
/// extension.
proof fn lemma_filename_parts(pid: u32, timestamp: u64)
    ensures
        ({
            let name = profraw_filename(pid, timestamp);
            let process = decimal(pid as nat);
            let moment = decimal(timestamp as nat);
            &&& name.len() == 9 + process.len() + 1 + moment.len() + 8
            &&& process.len() > 0
            &&& moment.len() > 0
            &&& name.take(9) == "coverage."@
            &&& name.subrange(9, 9int + process.len()) == process
            &&& name[9 + process.len() as int] == '.'
            &&& name.subrange(10int + process.len(), 10int + process.len() + moment.len()) == moment
            &&& name.skip(name.len() - 8) == ".profraw"@
            &&& name[0] == 'c'
        }),
        is_ascii_chars(profraw_filename(pid, timestamp)),
        !profraw_filename(pid, timestamp).contains('/'),
        is_ascii_chars(".profraw"@),
        ".profraw"@.len() == 8,
{
    reveal_strlit("coverage.");
    reveal_strlit(".");
    reveal_strlit(".profraw");
    let name = profraw_filename(pid, timestamp);
    let process = decimal(pid as nat);
    let moment = decimal(timestamp as nat);
    lemma_decimal_digits(pid as nat);
    lemma_decimal_digits(timestamp as nat);
    assert(name.take(9) =~= "coverage."@);
    assert(name.subrange(9, 9int + process.len()) =~= process);
    assert(name.subrange(10int + process.len(), 10int + process.len() + moment.len()) =~= moment);
    assert(name.skip(name.len() - 8) =~= ".profraw"@);
    assert(is_ascii_chars("coverage."@));
    assert(is_ascii_chars(".profraw"@));
    assert forall|i: int| 0 <= i < name.len() implies (#[trigger] name[i]) as nat <= 127
        && name[i] != '/' by {
        if i < 9 {
            assert(name[i] == "coverage."@[i]);
        } else if i < 9 + process.len() {
            assert(name[i] == process[i - 9]);
            assert(is_digit(process[i - 9]));
        } else if i == 9 + process.len() {
        } else if i < 10 + process.len() + moment.len() {
            assert(name[i] == moment[i - 10 - process.len()]);
            assert(is_digit(moment[i - 10 - process.len()]));
        } else {
            assert(name[i] == ".profraw"@[i - (name.len() - 8)]);
        }
    }
}

/// The file that a server names is raw profile data to a merge. Its name holds no separator, so
/// that the file goes into the directory of the test itself.
pub proof fn law_served_file_is_profile_data(pid: u32, timestamp: u64, dir: Seq<u8>)
    ensures
        is_profraw_name(utf8(profraw_filename(pid, timestamp))),
        !utf8(profraw_filename(pid, timestamp)).contains(SEPARATOR),
        joined(dir, utf8(profraw_filename(pid, timestamp))) == if dir.len() == 0 || dir.last()
            == SEPARATOR {
            dir + utf8(profraw_filename(pid, timestamp))
        } else {
            dir.push(SEPARATOR) + utf8(profraw_filename(pid, timestamp))
        },
{
    let name = profraw_filename(pid, timestamp);
    lemma_filename_parts(pid, timestamp);
    is_ascii_chars_encode_utf8(name);
    is_ascii_chars_encode_utf8(".profraw"@);
    assert(utf8(name).skip(utf8(name).len() - 8) =~= utf8(".profraw"@)) by {
        assert forall|i: int| 0 <= i < 8 implies utf8(name)[name.len() - 8 + i] == utf8(
            ".profraw"@,
        )[i] by {
            assert(name.skip(name.len() - 8)[i] == name[name.len() - 8 + i]);
        }
    }
    assert forall|i: int| 0 <= i < utf8(name).len() implies #[trigger] utf8(name)[i]
        != SEPARATOR by {
        assert(name.contains(name[i]));
    }
}

/// Files of different processes or moments have different names, so none is overwritten by
/// another.
pub proof fn law_served_files_are_told_apart(
    pid: u32,
    timestamp: u64,
    other_pid: u32,
    other_timestamp: u64,
)
    requires
        profraw_filename(pid, timestamp) == profraw_filename(other_pid, other_timestamp),
    ensures
        pid == other_pid,
        timestamp == other_timestamp,
{
    let name = profraw_filename(pid, timestamp);
    let process = decimal(pid as nat);
    let other_process = decimal(other_pid as nat);
    lemma_filename_parts(pid, timestamp);
    lemma_filename_parts(other_pid, other_timestamp);
    lemma_decimal_digits(pid as nat);
    lemma_decimal_digits(other_pid as nat);
    lemma_decimal_digits(timestamp as nat);
    lemma_decimal_digits(other_timestamp as nat);
    if process.len() < other_process.len() {
        let i = process.len() as int;
        assert(name.subrange(9, 9int + other_process.len())[i] == other_process[i]);
        assert(is_digit(other_process[i]));
    } else if other_process.len() < process.len() {
        let i = other_process.len() as int;
        assert(name.subrange(9, 9int + process.len())[i] == process[i]);
        assert(is_digit(process[i]));
    }
}

/// The fields of an identity hold those of a server.
proof fn lemma_server_field(identity: IdentityView)
    ensures
        identity_fields(identity).dom().contains(field_key("X-Art-Coverage-Server"@)),
        identity_fields(identity)[field_key("X-Art-Coverage-Server"@)] == utf8("1"@),
{
    reveal_strlit("X-Art-Coverage-Server");
    reveal_strlit("X-Art-Coverage-Binary");
    reveal_strlit("X-Art-Coverage-Pid");
    reveal_strlit("X-Art-Coverage-Source-Commit");
    reveal_strlit("X-Art-Coverage-Source-Url");
    let server = field_key("X-Art-Coverage-Server"@);
    assert(server.len() == 21);
    assert(server[15] == 's');
    assert(server[16] == 'e');
    assert(field_key("X-Art-Coverage-Binary"@)[15] == 'b');
    assert(field_key("X-Art-Coverage-Pid"@).len() == 18);
    assert(field_key("X-Art-Coverage-Source-Commit"@).len() == 28);
    assert(field_key("X-Art-Coverage-Source-Url"@).len() == 25);
}

/// Every answer of the server, whatever was asked and came of it, says by its header fields that
/// a coverage server gave it.
pub proof fn law_every_answer_identifies_the_server(
    identity: IdentityView,
    profile: Result<Seq<u8>, Seq<char>>,
    nanos: Option<u128>,
    text: Seq<char>,
)
    ensures
        ({
            let server = field_key("X-Art-Coverage-Server"@);
            let coverage = coverage_answer(identity, profile, nanos);
            let plain = text_answer(identity, text);
            &&& coverage.fields.dom().contains(server) && coverage.fields[server] == utf8("1"@)
            &&& plain.fields.dom().contains(server) && plain.fields[server] == utf8("1"@)
        }),
{
    lemma_server_field(identity);
}

/// A variable that names no port, or a number that is too great for one, leaves the default.
pub proof fn law_variable_that_names_no_port_is_passed_over(
    text: Seq<char>,
    number: nat,
    default_port: u16,
)
    ensures
        parsed_u16(text) is None ==> chosen_port(Some(text), default_port) == default_port,
        number > 65535 ==> chosen_port(Some(decimal(number)), default_port) == default_port,
        parsed_u16(text) matches Some(port) ==> chosen_port(Some(text), default_port) == port,
{
    law_only_numbers_that_fit_are_read(number, text);
}

/// The errors of a profile that is missing, or that could not be written to memory, say so, and give
/// the code of the failure in decimal.
pub proof fn law_profile_error_gives_its_code(code: nat)
    ensures
        no_profile() == "Profile buffer size is 0 — coverage may not be enabled"@,
        write_failure(code as int) == "__llvm_profile_write_buffer failed with error code: "@
            + decimal(code),
        code > 0 ==> write_failure(-code) == "__llvm_profile_write_buffer failed with error code: "@
            + (seq!['-'] + decimal(code)),
{
}

/// A moment is stamped with its nanoseconds. Moments that are a multiple of 64 bits apart have the
/// same stamp, and a clock before the epoch stamps zero.
pub proof fn law_stamp_is_the_moment(moment: u64, turns: u64)
    ensures
        nanosecond_stamp(Some(moment as u128)) == moment,
        nanosecond_stamp(
            Some((turns as u128 * 0x1_0000_0000_0000_0000 + moment as u128) as u128),
        ) == moment,
        nanosecond_stamp(None) == 0,
{
    let whole: int = turns as int * 0x1_0000_0000_0000_0000 + moment as int;
    assert(0 <= whole <= u128::MAX) by (nonlinear_arith)
        requires
            0 <= turns as int <= 0xffff_ffff_ffff_ffff,
            0 <= moment as int <= 0xffff_ffff_ffff_ffff,
            whole == turns as int * 0x1_0000_0000_0000_0000 + moment as int,
            u128::MAX as int == 0xffff_ffff_ffff_ffff_ffff_ffff_ffff_ffff,
    ;
    assert(whole % 0x1_0000_0000_0000_0000 == moment as int) by (nonlinear_arith)
        requires
            0 <= moment as int <= 0xffff_ffff_ffff_ffff,
            whole == turns as int * 0x1_0000_0000_0000_0000 + moment as int,
    ;
}

/// A profile is answered with status 200: the data in base64, its true number of bytes, the moment,
/// that coverage is on, and a file name that holds the process and the moment. An error in the place
/// of the profile is answered with status 500, and as it is.
pub proof fn law_coverage_answer_tells_of_the_profile(
    identity: IdentityView,
    data: Seq<u8>,
    error: Seq<char>,
    nanos: Option<u128>,
)
    ensures
        ({
            let good = coverage_answer(identity, Ok(data), nanos);
            let bad = coverage_answer(identity, Err(error), nanos);
            let stamp = nanosecond_stamp(nanos);
            &&& good.status == 200
            &&& good.body matches BodyView::Coverage(response) && {
                &&& response.profraw_data == base64_encoded(data)
                &&& response.profraw_size == data.len()
                &&& response.timestamp == stamp
                &&& response.coverage_enabled
                &&& response.profraw_filename == "coverage."@ + decimal(identity.pid as nat) + "."@
                    + decimal(stamp as nat) + ".profraw"@
            }
            &&& bad.status == 500
            &&& bad.body == BodyView::Error(error)
            &&& good.fields == identity_fields(identity)
            &&& bad.fields == identity_fields(identity)
        }),
{
}

/// An answer in plain text has status 200, and the text as it is.
pub proof fn law_plain_answer_is_the_text(identity: IdentityView, text: Seq<char>)
    ensures
        text_answer(identity, text).status == 200,
        text_answer(identity, text).body == BodyView::Text(text),
        text_answer(identity, text).fields == identity_fields(identity),
{
}

/// The data that an answer stands for has the size that the answer gives: what decodes to a profile
/// is counted as the profile.
pub proof fn law_size_is_that_of_the_data(
    identity: IdentityView,
    data: Seq<u8>,
    nanos: Option<u128>,
)
    requires
        base64_decoded(base64_encoded(data)) == Ok::<Seq<u8>, Base64Error>(data),
    ensures
        coverage_answer(identity, Ok(data), nanos).body matches BodyView::Coverage(response)
            && base64_decoded(response.profraw_data) matches Ok(decoded) && decoded == data
            && response.profraw_size == decoded.len(),
{
}

} // verus!
