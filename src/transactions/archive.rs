//! Checking a downloaded archive against its digest, and laying out its entries
//! under the extraction directory.

use vstd::prelude::*;

use crate::framework::state::State;

verus! {

/// The lowercase hexadecimal digit of a value below 16.
pub open spec fn hex_digit(n: u8) -> char {
    seq!['0', '1', '2', '3', '4', '5', '6', '7', '8', '9', 'a', 'b', 'c', 'd', 'e', 'f'][n as int]
}

/// Bytes written as lowercase hexadecimal, two digits for each byte, high digit first.
pub open spec fn hex_of(bytes: Seq<u8>) -> Seq<char>
    decreases bytes.len(),
{
    if bytes.len() == 0 {
        Seq::empty()
    } else {
        hex_of(bytes.drop_last()) + seq![hex_digit(bytes.last() / 16), hex_digit(bytes.last() % 16)]
    }
}

/// Relies on hex::encode: each byte becomes two lowercase hexadecimal digits, in order.
#[verifier::external_body]
fn to_hex(bytes: &Vec<u8>) -> (r: String)
    ensures
        r@ == hex_of(bytes@),
{
    hex::encode(bytes)
}

/// The SHA-256 digest of a byte sequence.
pub uninterp spec fn sha256_of(data: Seq<u8>) -> Seq<u8>;

/// Relies on sha2::Sha256::digest: the SHA-256 digest of the bytes, 32 bytes long.
#[verifier::external_body]
fn sha256(data: &Vec<u8>) -> (r: Vec<u8>)
    ensures
        r@ == sha256_of(data@),
        r@.len() == 32,
{
    <sha2::Sha256 as sha2::Digest>::digest(data.as_slice()).to_vec()
}

/// The length of the algorithm tag in front of a digest, as in `sha256:`.
pub const DIGEST_TAG_LEN: usize = 7;

/// Whether `digest`, after its algorithm tag, is the lowercase hexadecimal form of `hash`.
pub open spec fn digest_names(hash: Seq<u8>, digest: Seq<char>) -> bool {
    digest.len() >= DIGEST_TAG_LEN && digest.subrange(DIGEST_TAG_LEN as int, digest.len() as int)
        == hex_of(hash)
}

/// Checks a computed hash against a published digest such as `sha256:<hex>`.
/// A digest shorter than its tag names no hash, and counts as a mismatch.
pub fn digest_matches(hash: &Vec<u8>, digest: &str) -> (r: bool)
    ensures
        r == digest_names(hash@, digest@),
{
    let n = digest.unicode_len();
    if n < DIGEST_TAG_LEN {
        return false;
    }
    let published = String::from_str(digest.substring_char(DIGEST_TAG_LEN, n));
    let computed = to_hex(hash);
    published == computed
}

/// How extracting a downloaded archive ended.
#[derive(Debug, Clone, Copy, PartialEq, Eq)]
pub enum Extraction {
    /// The archive was extracted, and matches its digest if one was published.
    Extracted,
    /// The archive could not be extracted.
    Failed,
    /// The archive was extracted, but its bytes do not match the published digest.
    HashUnmatch,
}

/// How an extraction of `data` ended, given whether unpacking it succeeded and
/// the digest published for it.
pub open spec fn extraction_of(extracted: bool, data: Seq<u8>, digest: Option<Seq<char>>) -> Extraction {
    if !extracted {
        Extraction::Failed
    } else {
        match digest {
            None => Extraction::Extracted,
            Some(d) => if digest_names(sha256_of(data), d) {
                Extraction::Extracted
            } else {
                Extraction::HashUnmatch
            },
        }
    }
}

/// Judges an extraction: a failed unpacking fails; otherwise the downloaded bytes
/// are hashed and checked against the published digest, when there is one. A
/// published digest shorter than its `sha256:` tag counts as a mismatch.
pub fn verify_archive(extracted: bool, data: &Vec<u8>, digest: &Option<String>) -> (r: Extraction)
    ensures
        r == extraction_of(
            extracted,
            data@,
            match digest {
                Some(d) => Some(d@),
                None => None,
            },
        ),
{
    if !extracted {
        return Extraction::Failed;
    }
    match digest {
        None => Extraction::Extracted,
        Some(d) => {
            let hash = sha256(data);
            if digest_matches(&hash, d.as_str()) {
                Extraction::Extracted
            } else {
                Extraction::HashUnmatch
            }
        },
    }
}

impl Extraction {
    /// Whether the extraction directory must be removed: it must unless the
    /// archive was extracted and matches.
    pub fn needs_cleanup(&self) -> (r: bool)
        ensures
            r == !(*self is Extracted),
    {
        match self {
            Extraction::Extracted => false,
            _ => true,
        }
    }

    /// What a download-and-extract transaction comes to: success for a sound
    /// extraction, and a stop, with no retry, for a broken or unreadable archive.
    pub fn state(&self) -> (r: State<()>)
        ensures
            *self is Extracted ==> r == State::Success(()),
            !(*self is Extracted) ==> r is Stop,
    {
        match self {
            Extraction::Extracted => State::Success(()),
            _ => State::Stop,
        }
    }
}

/// Whether a character separates path components in an archive entry name.
pub open spec fn is_separator(c: char) -> bool {
    c == '/' || c == '\\'
}

/// The components of an archive entry name, split at each `/` or `\`; empty
/// components are kept.
pub open spec fn path_components(name: Seq<char>) -> Seq<Seq<char>>
    decreases name.len(),
{
    if name.len() == 0 {
        seq![Seq::empty()]
    } else {
        let parts = path_components(name.drop_last());
        if is_separator(name.last()) {
            parts.push(Seq::empty())
        } else {
            parts.update(parts.len() - 1, parts.last().push(name.last()))
        }
    }
}

/// A file name with the characters that file systems refuse taken out.
pub uninterp spec fn sanitized_name(name: Seq<char>) -> Seq<char>;

/// Whether a path component names an entry inside the directory it is joined
/// to: it holds no separator, and is neither `.` nor `..`.
pub open spec fn is_plain_name(name: Seq<char>) -> bool {
    &&& !name.contains('/')
    &&& !name.contains('\\')
    &&& name != seq!['.']
    &&& name != seq!['.', '.']
}

/// Relies on sanitize_filename::sanitize_with_options: the name with illegal and
/// control characters, and names made of dots only, removed; `/` is among the
/// illegal characters, and so is `\`. A name of dots only becomes empty, and
/// truncation keeps at least 252 bytes of a longer name, so the result is never
/// `.` or `..`. The options are those that `sanitize` uses on Unix.
#[verifier::external_body]
fn sanitize_component(name: &str) -> (r: String)
    ensures
        r@ == sanitized_name(name@),
        is_plain_name(r@),
{
    sanitize_filename::sanitize_with_options(
        name,
        sanitize_filename::Options { windows: false, truncate: true, replacement: "" },
    )
}

/// Splits an archive entry name into components at `/` and `\`, and sanitizes
/// each component. Every component is then a plain name, so that the entry
/// cannot name a place outside the extraction directory.
pub fn sanitize_file_path(name: &str) -> (r: Vec<String>)
    ensures
        r@.len() == path_components(name@).len(),
        forall|k: int|
            0 <= k < r@.len() ==> #[trigger] r@[k]@ == sanitized_name(path_components(name@)[k]),
        forall|k: int| 0 <= k < r@.len() ==> is_plain_name(#[trigger] r@[k]@),
{
    let n = name.unicode_len();
    let mut parts: Vec<String> = Vec::new();
    let mut start: usize = 0;
    let mut i: usize = 0;
    let ghost mut raw: Seq<Seq<char>> = Seq::empty();
    proof {
        assert(name@.take(0) =~= Seq::<char>::empty());
        assert(name@.subrange(0, 0) =~= Seq::<char>::empty());
        assert(raw.push(Seq::<char>::empty()) =~= seq![Seq::<char>::empty()]);
    }
    while i < n
        invariant
            start <= i <= n,
            n == name@.len(),
            path_components(name@.take(i as int)) == raw.push(name@.subrange(start as int, i as int)),
            parts@.len() == raw.len(),
            forall|k: int| 0 <= k < raw.len() ==> #[trigger] parts@[k]@ == sanitized_name(raw[k]),
            forall|k: int| 0 <= k < parts@.len() ==> is_plain_name(#[trigger] parts@[k]@),
        decreases n - i,
    {
        let c = name.get_char(i);
        proof {
            assert(name@.take(i + 1).drop_last() =~= name@.take(i as int));
            assert(name@.take(i + 1).last() == c);
        }
        if c == '/' || c == '\\' {
            let component = sanitize_component(name.substring_char(start, i));
            parts.push(component);
            proof {
                raw = raw.push(name@.subrange(start as int, i as int));
                assert(name@.subrange(i + 1, i + 1) =~= Seq::<char>::empty());
            }
            start = i + 1;
        } else {
            proof {
                assert(name@.subrange(start as int, i as int).push(c) =~= name@.subrange(
                    start as int,
                    i + 1,
                ));
            }
        }
        i = i + 1;
    }
    proof {
        assert(name@.take(n as int) =~= name@);
    }
    let last = sanitize_component(name.substring_char(start, n));
    parts.push(last);
    parts
}

/// Whether an archive entry name denotes a directory: it ends with `/`.
pub fn is_directory_entry(name: &str) -> (r: bool)
    ensures
        r == (name@.len() > 0 && name@.last() == '/'),
{
    let n = name.unicode_len();
    n > 0 && name.get_char(n - 1) == '/'
}

} // verus!
