//! The header fields by which a coverage server is known.

use crate::path::{path_or_none, FilePath};
use crate::text::{
    ascii_lower, decimal, decimal_text, is_digit, lemma_decimal_digits, shown, text_or_none, utf8,
};
use axum::http::{HeaderMap, HeaderValue};
use vstd::prelude::*;
use vstd::string::*;
use vstd::utf8::{is_ascii_chars, is_ascii_chars_encode_utf8};

verus! {

/// The value of a header field, as `axum` has it.
#[verifier::external_type_specification]
#[verifier::external_body]
pub struct ExHeaderValue(HeaderValue);

/// The header fields of an answer, as `axum` has them.
#[verifier::external_type_specification]
#[verifier::external_body]
#[verifier::reject_recursive_types(T)]
pub struct ExHeaderMap<T>(HeaderMap<T>);

/// The fields of a `HeaderMap`: the value of each, by its name in lower case.
pub uninterp spec fn header_fields(headers: HeaderMap<HeaderValue>) -> Map<Seq<char>, Seq<u8>>;

/// No fields.
pub open spec fn no_fields() -> Map<Seq<char>, Seq<u8>> {
    Map::empty()
}

/// The name under which a field is found.
pub open spec fn field_key(name: Seq<char>) -> Seq<char> {
    name.map_values(|c: char| ascii_lower(c))
}

/// A character of the names used here: a letter, a digit or a hyphen.
pub open spec fn is_name_char(c: char) -> bool {
    'A' <= c <= 'Z' || 'a' <= c <= 'z' || is_digit(c) || c == '-'
}

/// Whether a text can name a field.
pub open spec fn is_field_name(name: Seq<char>) -> bool {
    0 < name.len() <= 64 && forall|i: int| 0 <= i < name.len() ==> is_name_char(name[i])
}

/// A byte that the value of a field may hold.
pub open spec fn is_value_byte(b: u8) -> bool {
    (b >= 32 && b != 127) || b == 9
}

/// Whether a text can be the value of a field.
pub open spec fn is_field_value(text: Seq<char>) -> bool {
    forall|i: int| 0 <= i < utf8(text).len() ==> is_value_byte(#[trigger] utf8(text)[i])
}

/// Header fields without any field.
///
/// Calls `HeaderMap::new` of `axum`'s `http`. Trusted: there is no field in them.
#[verifier::external_body]
fn empty_headers() -> (r: HeaderMap<HeaderValue>)
    ensures
        header_fields(r) == no_fields(),
{
    HeaderMap::new()
}

/// Tells whether a text can be the value of a field.
///
/// Calls `HeaderValue::from_str` of `axum`'s `http`. Trusted: it refuses a text exactly where
/// one of its bytes is a control other than the tab, or DEL.
#[verifier::external_body]
fn can_be_value(text: &str) -> (r: bool)
    ensures
        r == is_field_value(text@),
{
    HeaderValue::from_str(text).is_ok()
}

/// Sets a field.
///
/// Calls `HeaderMap::insert` of `axum`'s `http`. Trusted: the field then has this value, under
/// its name in lower case, in place of any that it had, and the other fields are as before. The
/// call panics on a name that is none, and where there are too many fields; here there are less
/// than the map holds without growing.
#[verifier::external_body]
fn set_field(headers: &mut HeaderMap<HeaderValue>, name: &'static str, value: &str)
    requires
        is_field_name(name@),
        is_field_value(value@),
        header_fields(*old(headers)).dom().finite(),
        header_fields(*old(headers)).dom().len() < 6,
    ensures
        header_fields(*final(headers)) == header_fields(*old(headers)).insert(
            field_key(name@),
            utf8(value@),
        ),
{
    headers.insert(name, HeaderValue::from_str(value).unwrap());
}

/// What a coverage server tells of itself.
#[derive(Debug, PartialEq, Eq)]
pub struct Identity {
    /// The running binary, where it is known.
    pub binary: Option<FilePath>,
    /// The process.
    pub pid: u32,
    /// The commit that the binary was built from, where it is known.
    pub source_commit: Option<String>,
    /// The repository that the binary was built from, where it is known.
    pub source_url: Option<String>,
}

/// The model of an [`Identity`].
#[verifier::ext_equal]
pub struct IdentityView {
    pub binary: Option<Seq<u8>>,
    pub pid: u32,
    pub source_commit: Option<Seq<char>>,
    pub source_url: Option<Seq<char>>,
}

impl View for Identity {
    type V = IdentityView;

    open spec fn view(&self) -> IdentityView {
        IdentityView {
            binary: path_or_none(self.binary),
            pid: self.pid,
            source_commit: text_or_none(self.source_commit),
            source_url: text_or_none(self.source_url),
        }
    }
}

/// The path of the running binary as a text; it is empty where it is not known.
pub open spec fn binary_text(binary: Option<Seq<u8>>) -> Seq<char> {
    match binary {
        Some(path) => shown(path),
        None => Seq::empty(),
    }
}

/// A text where it can be the value of a field, and another where it cannot.
pub open spec fn value_or(text: Seq<char>, other: Seq<char>) -> Seq<char> {
    if is_field_value(text) {
        text
    } else {
        other
    }
}

/// Fields with one more, where there is a text that can be its value.
pub open spec fn with_optional(
    fields: Map<Seq<char>, Seq<u8>>,
    name: Seq<char>,
    text: Option<Seq<char>>,
) -> Map<Seq<char>, Seq<u8>> {
    match text {
        Some(text) => if is_field_value(text) {
            fields.insert(field_key(name), utf8(text))
        } else {
            fields
        },
        None => fields,
    }
}

/// The fields that every server sends: that it is one, its binary and its process.
pub open spec fn server_fields(identity: IdentityView) -> Map<Seq<char>, Seq<u8>> {
    no_fields().insert(field_key("X-Art-Coverage-Server"@), utf8("1"@)).insert(
        field_key("X-Art-Coverage-Binary"@),
        utf8(value_or(binary_text(identity.binary), "unknown"@)),
    ).insert(field_key("X-Art-Coverage-Pid"@), utf8(decimal(identity.pid as nat)))
}

/// The fields by which a server is known: those that every server sends, and where the binary
/// was built from, as far as that is known.
pub open spec fn identity_fields(identity: IdentityView) -> Map<Seq<char>, Seq<u8>> {
    with_optional(
        with_optional(
            server_fields(identity),
            "X-Art-Coverage-Source-Commit"@,
            identity.source_commit,
        ),
        "X-Art-Coverage-Source-Url"@,
        identity.source_url,
    )
}

/// Whether the characters of a name from one position on can stand in it.
spec fn name_chars_from(name: Seq<char>, i: int) -> bool
    decreases name.len() - i,
{
    i >= name.len() || (is_name_char(name[i]) && name_chars_from(name, i + 1))
}

/// A name is one where its characters are, taken one after the other.
proof fn lemma_name_chars(name: Seq<char>, i: int)
    requires
        0 <= i,
        name_chars_from(name, i),
    ensures
        forall|k: int| i <= k < name.len() ==> is_name_char(name[k]),
    decreases name.len() - i,
{
    if i < name.len() {
        lemma_name_chars(name, i + 1);
    }
}

/// The names of the fields can name a field.
proof fn lemma_field_names()
    ensures
        is_field_name("X-Art-Coverage-Server"@),
        is_field_name("X-Art-Coverage-Binary"@),
        is_field_name("X-Art-Coverage-Pid"@),
        is_field_name("X-Art-Coverage-Source-Commit"@),
        is_field_name("X-Art-Coverage-Source-Url"@),
{
    reveal_strlit("X-Art-Coverage-Server");
    reveal_strlit("X-Art-Coverage-Binary");
    reveal_strlit("X-Art-Coverage-Pid");
    reveal_strlit("X-Art-Coverage-Source-Commit");
    reveal_strlit("X-Art-Coverage-Source-Url");
    reveal_with_fuel(name_chars_from, 30);
    lemma_name_chars("X-Art-Coverage-Server"@, 0);
    lemma_name_chars("X-Art-Coverage-Binary"@, 0);
    lemma_name_chars("X-Art-Coverage-Pid"@, 0);
    lemma_name_chars("X-Art-Coverage-Source-Commit"@, 0);
    lemma_name_chars("X-Art-Coverage-Source-Url"@, 0);
}

/// Text in the visible range of ASCII can be the value of a field.
proof fn lemma_visible_is_value(text: Seq<char>)
    requires
        forall|i: int| 0 <= i < text.len() ==> ' ' <= #[trigger] text[i] <= '~',
    ensures
        is_field_value(text),
{
    assert(is_ascii_chars(text));
    is_ascii_chars_encode_utf8(text);
}

/// A number in decimal can be the value of a field.
proof fn lemma_decimal_is_value(n: nat)
    ensures
        is_field_value(decimal(n)),
{
    lemma_decimal_digits(n);
    assert forall|i: int| 0 <= i < decimal(n).len() implies ' ' <= #[trigger] decimal(
        n,
    )[i] <= '~' by {
        assert(is_digit(decimal(n)[i]));
    }
    lemma_visible_is_value(decimal(n));
}

/// Sets a field where there is a text that can be its value.
fn set_optional(headers: &mut HeaderMap<HeaderValue>, name: &'static str, text: &Option<String>)
    requires
        is_field_name(name@),
        header_fields(*old(headers)).dom().finite(),
        header_fields(*old(headers)).dom().len() < 6,
    ensures
        header_fields(*final(headers)) == with_optional(
            header_fields(*old(headers)),
            name@,
            text_or_none(*text),
        ),
{
    match text {
        Some(text) => {
            if can_be_value(text.as_str()) {
                set_field(headers, name, text.as_str());
            }
        },
        None => {},
    }
}

/// Makes the fields by which a server is known.
pub fn coverport_headers(identity: &Identity) -> (r: HeaderMap<HeaderValue>)
    ensures
        header_fields(r) == identity_fields(identity@),
{
    proof {
        lemma_field_names();
        reveal_strlit("1");
        reveal_strlit("unknown");
        lemma_visible_is_value("1"@);
        lemma_visible_is_value("unknown"@);
        lemma_decimal_is_value(identity.pid as nat);
    }
    let mut headers = empty_headers();
    set_field(&mut headers, "X-Art-Coverage-Server", "1");
    let binary = match &identity.binary {
        Some(path) => path.display(),
        None => String::new(),
    };
    if can_be_value(binary.as_str()) {
        set_field(&mut headers, "X-Art-Coverage-Binary", binary.as_str());
    } else {
        set_field(&mut headers, "X-Art-Coverage-Binary", "unknown");
    }
    set_field(&mut headers, "X-Art-Coverage-Pid", decimal_text(identity.pid as u64).as_str());
    set_optional(&mut headers, "X-Art-Coverage-Source-Commit", &identity.source_commit);
    set_optional(&mut headers, "X-Art-Coverage-Source-Url", &identity.source_url);
    headers
}

/// The names under which the fields are found.
proof fn lemma_field_keys()
    ensures
        field_key("X-Art-Coverage-Server"@) == "x-art-coverage-server"@,
        field_key("X-Art-Coverage-Binary"@) == "x-art-coverage-binary"@,
        field_key("X-Art-Coverage-Pid"@) == "x-art-coverage-pid"@,
        field_key("X-Art-Coverage-Source-Commit"@) == "x-art-coverage-source-commit"@,
        field_key("X-Art-Coverage-Source-Url"@) == "x-art-coverage-source-url"@,
{
    reveal_strlit("X-Art-Coverage-Server");
    reveal_strlit("X-Art-Coverage-Binary");
    reveal_strlit("X-Art-Coverage-Pid");
    reveal_strlit("X-Art-Coverage-Source-Commit");
    reveal_strlit("X-Art-Coverage-Source-Url");
    reveal_strlit("x-art-coverage-server");
    reveal_strlit("x-art-coverage-binary");
    reveal_strlit("x-art-coverage-pid");
    reveal_strlit("x-art-coverage-source-commit");
    reveal_strlit("x-art-coverage-source-url");
    assert(field_key("X-Art-Coverage-Server"@) =~= "x-art-coverage-server"@);
    assert(field_key("X-Art-Coverage-Binary"@) =~= "x-art-coverage-binary"@);
    assert(field_key("X-Art-Coverage-Pid"@) =~= "x-art-coverage-pid"@);
    assert(field_key("X-Art-Coverage-Source-Commit"@) =~= "x-art-coverage-source-commit"@);
    assert(field_key("X-Art-Coverage-Source-Url"@) =~= "x-art-coverage-source-url"@);
}

/// The names under which the fields are found are five.
proof fn lemma_field_keys_differ()
    ensures
        "x-art-coverage-server"@ != "x-art-coverage-binary"@,
        "x-art-coverage-server"@ != "x-art-coverage-pid"@,
        "x-art-coverage-server"@ != "x-art-coverage-source-commit"@,
        "x-art-coverage-server"@ != "x-art-coverage-source-url"@,
        "x-art-coverage-binary"@ != "x-art-coverage-pid"@,
        "x-art-coverage-binary"@ != "x-art-coverage-source-commit"@,
        "x-art-coverage-binary"@ != "x-art-coverage-source-url"@,
        "x-art-coverage-pid"@ != "x-art-coverage-source-commit"@,
        "x-art-coverage-pid"@ != "x-art-coverage-source-url"@,
        "x-art-coverage-source-commit"@ != "x-art-coverage-source-url"@,
{
    reveal_strlit("x-art-coverage-server");
    reveal_strlit("x-art-coverage-binary");
    reveal_strlit("x-art-coverage-pid");
    reveal_strlit("x-art-coverage-source-commit");
    reveal_strlit("x-art-coverage-source-url");
    assert("x-art-coverage-server"@[15] == 's');
    assert("x-art-coverage-binary"@[15] == 'b');
    assert("x-art-coverage-server"@.len() == 21);
    assert("x-art-coverage-pid"@.len() == 18);
    assert("x-art-coverage-source-commit"@.len() == 28);
    assert("x-art-coverage-source-url"@.len() == 25);
}

/// Every server tells by its fields that it is one, which process it is, and which binary it runs,
/// or that this cannot be said.
pub proof fn law_fields_tell_server_process_and_binary(identity: IdentityView)
    ensures
        ({
            let fields = identity_fields(identity);
            &&& fields.dom().contains("x-art-coverage-server"@)
            &&& fields["x-art-coverage-server"@] == utf8("1"@)
            &&& fields.dom().contains("x-art-coverage-pid"@)
            &&& fields["x-art-coverage-pid"@] == utf8(decimal(identity.pid as nat))
            &&& fields.dom().contains("x-art-coverage-binary"@)
            &&& identity.binary is None ==> fields["x-art-coverage-binary"@] == Seq::<u8>::empty()
            &&& identity.binary matches Some(path) ==> fields["x-art-coverage-binary"@] == (
            if is_field_value(shown(path)) {
                utf8(shown(path))
            } else {
                utf8("unknown"@)
            })
        }),
{
    lemma_field_keys();
    lemma_field_keys_differ();
}

/// A server tells where its binary was built from exactly where that is known and can be the value
/// of a field, and then as it is known. It tells nothing else.
pub proof fn law_fields_tell_the_source_that_is_known(identity: IdentityView, key: Seq<char>)
    ensures
        ({
            let fields = identity_fields(identity);
            let commit = "x-art-coverage-source-commit"@;
            let url = "x-art-coverage-source-url"@;
            &&& fields.dom().contains(commit) <==> (identity.source_commit matches Some(text)
                && is_field_value(text))
            &&& fields.dom().contains(commit) ==> fields[commit] == utf8(
                identity.source_commit->Some_0,
            )
            &&& fields.dom().contains(url) <==> (identity.source_url matches Some(text)
                && is_field_value(text))
            &&& fields.dom().contains(url) ==> fields[url] == utf8(identity.source_url->Some_0)
            &&& fields.dom().contains(key) ==> key == commit || key == url || key
                == "x-art-coverage-server"@ || key == "x-art-coverage-pid"@ || key
                == "x-art-coverage-binary"@
        }),
{
    lemma_field_keys();
    lemma_field_keys_differ();
}

/// A text can be the value of a field unless a byte of it is DEL, or a control other than the tab.
pub proof fn law_value_holds_no_control(text: Seq<char>, at: int)
    requires
        0 <= at < utf8(text).len(),
    ensures
        is_field_value(text) ==> utf8(text)[at] == 9 || 32 <= utf8(text)[at] < 127 || utf8(text)[at]
            > 127,
        is_value_byte(utf8(text)[at]) <==> utf8(text)[at] == 9 || 32 <= utf8(text)[at] < 127
            || utf8(text)[at] > 127,
{
}

/// A text all of whose bytes can stand in a value can be one.
pub proof fn law_text_without_controls_is_a_value(text: Seq<char>)
    requires
        forall|i: int|
            0 <= i < utf8(text).len() ==> (#[trigger] utf8(text)[i]) == 9 || (utf8(text)[i] >= 32
                && utf8(text)[i] != 127),
    ensures
        is_field_value(text),
{
}

} // verus!
