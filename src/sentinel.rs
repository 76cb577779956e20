use vstd::prelude::*;
use vstd::string::StringSliceAdditionalSpecFns;

verus! {

/// The byte of the reserved path `-`.
pub const STDIO_BYTE: u8 = 45;

/// The path that selects the standard stream: the single character `-`.
pub open spec fn is_stdio_spec(path: Seq<char>) -> bool {
    path == seq!['-']
}

/// Whether `path` is the reserved sentinel `-`, compared exactly: the empty
/// path and longer names that contain `-` are ordinary file paths.
pub fn is_stdio_path(path: &str) -> (r: bool)
    ensures
        r == is_stdio_spec(path@),
{
    let bytes = path.as_bytes();
    let r = bytes.len() == 1 && bytes[0] == STDIO_BYTE;
    proof {
        lemma_sentinel_bytes(path);
    }
    r
}

/// A string is the sentinel exactly when its UTF-8 encoding is the one byte of `-`.
proof fn lemma_sentinel_bytes(path: &str)
    ensures
        is_stdio_spec(path@) <==> path.spec_bytes() == seq![STDIO_BYTE],
{
    broadcast use vstd::utf8::encode_utf8_decode_utf8;
    let s = path@;
    if is_stdio_spec(s) {
        vstd::utf8::is_ascii_chars_encode_utf8(s);
        assert(path.spec_bytes() =~= seq![STDIO_BYTE]);
    }
    if path.spec_bytes() == seq![STDIO_BYTE] {
        let b = seq![STDIO_BYTE];
        assert((STDIO_BYTE & 0x7F) == STDIO_BYTE) by (bit_vector);
        let rest = vstd::utf8::pop_first_scalar(b);
        assert(rest =~= Seq::<u8>::empty());
        assert(vstd::utf8::valid_utf8(rest));
        assert(vstd::utf8::valid_utf8(b));
        assert(vstd::utf8::decode_utf8(rest) =~= Seq::<char>::empty());
        assert(vstd::utf8::decode_utf8(b) =~= seq!['-']);
    }
}


/// How a file is opened; each flag has the meaning of the option of the same
/// name when a file is opened.
#[derive(Clone, Copy, Debug, PartialEq, Eq, Structural)]
pub struct OpenMode {
    pub read: bool,
    pub write: bool,
    pub create: bool,
    pub truncate: bool,
    pub append: bool,
}

/// What a path selects: the standard stream of the direction at hand, or a
/// file opened in the given mode.
#[derive(Clone, Copy, Debug, PartialEq, Eq, Structural)]
pub enum Target {
    Standard,
    File(OpenMode),
}

/// Reading opens an existing file for reading only.
pub open spec fn input_mode_spec() -> OpenMode {
    OpenMode { read: true, write: false, create: false, truncate: false, append: false }
}

/// Writing creates the file, or empties one that exists: never appends.
pub open spec fn output_mode_spec() -> OpenMode {
    OpenMode { read: false, write: true, create: true, truncate: true, append: false }
}

pub fn input_mode() -> (r: OpenMode)
    ensures
        r == input_mode_spec(),
{
    OpenMode { read: true, write: false, create: false, truncate: false, append: false }
}

pub fn output_mode() -> (r: OpenMode)
    ensures
        r == output_mode_spec(),
{
    OpenMode { read: false, write: true, create: true, truncate: true, append: false }
}

/// The source that `path` selects for reading: standard input for `-`, else
/// the file at `path`, which must already exist.
pub fn resolve_input(path: &str) -> (r: Target)
    ensures
        is_stdio_spec(path@) ==> r == Target::Standard,
        !is_stdio_spec(path@) ==> r == Target::File(input_mode_spec()),
{
    if is_stdio_path(path) {
        Target::Standard
    } else {
        Target::File(input_mode())
    }
}

/// The sink that `path` selects for writing: standard output for `-`, else
/// the file at `path`, created or truncated.
pub fn resolve_output(path: &str) -> (r: Target)
    ensures
        is_stdio_spec(path@) ==> r == Target::Standard,
        !is_stdio_spec(path@) ==> r == Target::File(output_mode_spec()),
{
    if is_stdio_path(path) {
        Target::Standard
    } else {
        Target::File(output_mode())
    }
}

} // verus!
