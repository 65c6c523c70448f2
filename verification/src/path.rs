//! Paths of files, as Unix has them: byte strings with `/` between the names.

use crate::text::{show_bytes, shown, text_bytes, utf8};
use vstd::prelude::*;
use vstd::string::*;
use vstd::utf8::*;

verus! {

/// The separator between the names of a path.
pub const SEPARATOR: u8 = 47;

/// The path of a file or a directory.
#[derive(Debug, PartialEq, Eq)]
pub struct FilePath {
    pub bytes: Vec<u8>,
}

impl View for FilePath {
    type V = Seq<u8>;

    open spec fn view(&self) -> Seq<u8> {
        self.bytes@
    }
}

/// The views of a list of paths.
pub open spec fn paths(list: Seq<FilePath>) -> Seq<Seq<u8>> {
    Seq::new(list.len(), |i: int| list[i]@)
}

/// The view of a path that may be missing.
pub open spec fn path_or_none(path: Option<FilePath>) -> Option<Seq<u8>> {
    match path {
        Some(path) => Some(path@),
        None => None,
    }
}

/// `name`, seen from the directory `base`: an absolute `name` stands for itself, any other goes
/// behind `base`, with a separator between them unless `base` is empty or ends in one.
pub open spec fn joined(base: Seq<u8>, name: Seq<u8>) -> Seq<u8> {
    if name.len() > 0 && name[0] == SEPARATOR {
        name
    } else if base.len() == 0 || base.last() == SEPARATOR {
        base + name
    } else {
        base.push(SEPARATOR) + name
    }
}

/// Puts bytes behind others.
fn push_bytes(target: &mut Vec<u8>, bytes: &Vec<u8>)
    ensures
        final(target)@ == old(target)@ + bytes@,
{
    let ghost before = target@;
    let mut i: usize = 0;
    while i < bytes.len()
        invariant
            i <= bytes@.len(),
            target@ == before + bytes@.take(i as int),
        decreases bytes@.len() - i,
    {
        target.push(bytes[i]);
        proof {
            assert(bytes@.take(i + 1) =~= bytes@.take(i as int).push(bytes@[i as int]));
        }
        i = i + 1;
    }
    proof {
        assert(bytes@.take(i as int) =~= bytes@);
    }
}

/// A copy of a list of bytes.
pub(crate) fn copy_bytes(bytes: &Vec<u8>) -> (r: Vec<u8>)
    ensures
        r@ == bytes@,
{
    let mut r: Vec<u8> = Vec::new();
    push_bytes(&mut r, bytes);
    r
}

impl FilePath {
    /// The path that a text writes down.
    pub fn from_text(text: &str) -> (r: FilePath)
        ensures
            r@ == utf8(text@),
    {
        FilePath { bytes: text_bytes(text) }
    }

    /// A copy of the path.
    pub fn copy(&self) -> (r: FilePath)
        ensures
            r@ == self@,
    {
        FilePath { bytes: copy_bytes(&self.bytes) }
    }

    /// The path `name`, seen from the directory that this path names.
    pub fn join(&self, name: &FilePath) -> (r: FilePath)
        ensures
            r@ == joined(self@, name@),
    {
        if name.bytes.len() > 0 && name.bytes[0] == SEPARATOR {
            return name.copy();
        }
        let mut bytes = copy_bytes(&self.bytes);
        if bytes.len() > 0 && bytes[bytes.len() - 1] != SEPARATOR {
            bytes.push(SEPARATOR);
        }
        push_bytes(&mut bytes, &name.bytes);
        FilePath { bytes }
    }

    /// The path that the text `name` writes down, seen from this directory.
    pub fn join_text(&self, name: &str) -> (r: FilePath)
        ensures
            r@ == joined(self@, utf8(name@)),
    {
        self.join(&FilePath::from_text(name))
    }

    /// The path as a text for people, with U+FFFD where it is not UTF-8.
    pub fn display(&self) -> (r: String)
        ensures
            r@ == shown(self@),
    {
        show_bytes(&self.bytes)
    }
}

/// Whether the bytes end in `suffix`.
pub open spec fn ends_with(bytes: Seq<u8>, suffix: Seq<u8>) -> bool {
    bytes.len() >= suffix.len() && bytes.skip(bytes.len() - suffix.len()) == suffix
}

/// Whether a file of this name is raw profile data: its extension is `profraw`, and something
/// stands before the dot.
pub open spec fn is_profraw_name(name: Seq<u8>) -> bool {
    name.len() > utf8(".profraw"@).len() && ends_with(name, utf8(".profraw"@))
}

/// Tells whether a file of this name is raw profile data.
pub fn has_profraw_extension(name: &FilePath) -> (r: bool)
    ensures
        r == is_profraw_name(name@),
{
    let suffix = text_bytes(".profraw");
    let n: usize = name.bytes.len();
    let m: usize = suffix.len();
    if n <= m {
        return false;
    }
    let mut k: usize = 0;
    while k < m
        invariant
            n == name@.len(),
            m == suffix@.len(),
            suffix@ == utf8(".profraw"@),
            k <= m < n,
            forall|i: int| 0 <= i < k ==> suffix@[i] == name@[n - m + i],
        decreases m - k,
    {
        if name.bytes[n - m + k] != suffix[k] {
            proof {
                assert(name@.skip(n - m)[k as int] != suffix@[k as int]);
            }
            return false;
        }
        k = k + 1;
    }
    proof {
        assert(name@.skip(n - m) =~= suffix@);
    }
    true
}

/// A name that is not absolute goes behind the directory that it is seen from, with at most one
/// byte between them. Parts of the name that lead upwards, `..`, are kept as they are.
pub proof fn law_relative_name_goes_behind_directory(base: Seq<u8>, name: Seq<u8>)
    requires
        name.len() > 0 ==> name[0] != SEPARATOR,
    ensures
        base.is_prefix_of(joined(base, name)),
        ends_with(joined(base, name), name),
        joined(base, name).len() <= base.len() + 1 + name.len(),
{
    let path = joined(base, name);
    assert(path.take(base.len() as int) =~= base);
    assert(path.skip(path.len() - name.len()) =~= name);
}

/// The separator is the slash. An absolute name is seen as itself from every directory.
pub proof fn law_absolute_name_stands_for_itself(base: Seq<u8>, name: Seq<char>)
    requires
        name.len() > 0,
        name[0] == '/',
    ensures
        seq![SEPARATOR] == utf8("/"@),
        joined(base, utf8(name)) == utf8(name),
{
    reveal_strlit("/");
    is_ascii_chars_encode_utf8("/"@);
    assert(seq![SEPARATOR] =~= utf8("/"@));
    lemma_first_byte(name);
}

/// The first byte of a text that begins with a character of ASCII is that character.
pub(crate) proof fn lemma_first_byte(text: Seq<char>)
    requires
        text.len() > 0,
    ensures
        utf8(text).len() > 0,
        text[0] as int <= 127 ==> utf8(text)[0] as int == text[0] as int,
        text[0] as int > 127 ==> utf8(text)[0] as int > 127,
{
    let c = text[0] as u32;
    char_is_scalar(text[0]);
    char_u32_cast(text[0], c);
    assert(c <= 127 ==> leading_byte_width_1(c) == c) by (bit_vector);
    assert(leading_byte_width_2(c) > 127) by (bit_vector);
    assert(leading_byte_width_3(c) > 127) by (bit_vector);
    assert(leading_byte_width_4(c) > 127) by (bit_vector);
}

/// A name that is not absolute goes behind the directory that it is seen from. A slash, and nothing
/// else, stands between them, unless the directory is empty or ends in one.
pub proof fn law_slash_stands_before_relative_name(base: Seq<u8>, name: Seq<u8>)
    requires
        name.len() > 0 ==> name[0] != 47,
    ensures
        base.len() > 0 && base.last() != 47 ==> joined(base, name) == base + seq![47u8] + name,
        base.len() > 0 && base.last() == 47 ==> joined(base, name) == base + name,
        joined(Seq::empty(), name) == name,
{
    assert(base.push(47u8) =~= base + seq![47u8]);
    assert(Seq::<u8>::empty() + name =~= name);
}

/// Different names that are not absolute are different paths, seen from one directory.
pub proof fn law_names_are_told_apart(base: Seq<u8>, name: Seq<u8>, other: Seq<u8>)
    requires
        name.len() > 0 ==> name[0] != 47,
        other.len() > 0 ==> other[0] != 47,
        joined(base, name) == joined(base, other),
    ensures
        name == other,
{
    let path = joined(base, name);
    assert(name =~= path.skip(path.len() - name.len()));
    assert(other =~= path.skip(path.len() - other.len()));
}

/// A file is raw profile data exactly where its name is some other name, not empty, with
/// `.profraw` behind it.
pub proof fn law_profile_data_is_told_by_its_extension(name: Seq<u8>)
    ensures
        is_profraw_name(name) <==> exists|stem: Seq<u8>|
            stem.len() > 0 && name == #[trigger] (stem + utf8(".profraw"@)),
{
    let suffix = utf8(".profraw"@);
    if is_profraw_name(name) {
        let stem = name.take(name.len() - suffix.len());
        assert(name =~= stem + suffix);
    }
    if exists|stem: Seq<u8>| stem.len() > 0 && name == #[trigger] (stem + suffix) {
        let stem = choose|stem: Seq<u8>| stem.len() > 0 && name == #[trigger] (stem + suffix);
        assert(name.skip(name.len() - suffix.len()) =~= suffix);
    }
}

/// A list of paths is seen item by item, in its order, and a path by its bytes.
pub proof fn law_paths_are_seen_one_by_one(list: Seq<FilePath>, i: int)
    requires
        0 <= i < list.len(),
    ensures
        paths(list).len() == list.len(),
        paths(list)[i] == list[i].bytes@,
        path_or_none(Some(list[i])) == Some(list[i].bytes@),
        path_or_none(None) is None,
{
}

} // verus!
