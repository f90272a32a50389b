//! Which addresses name a file that the worker accepts.
//!
//! An address is accepted by the type of file it names. The address is
//! parsed as an absolute URL, and the type is read off the path of that URL
//! alone: the extension of the last component of the path, compared without
//! regard to ASCII case. Scheme, host, query and fragment have no part in
//! it, so that `https://host/scan.png?as=pdf#top` names a file of type
//! `png`, and `https://host.png` names no file at all.
//!
//! The path is handled as its UTF-8 bytes; `/` and `.` are single bytes
//! there and part of no other character.

use vstd::prelude::*;
use vstd::slice::slice_subrange;
use vstd::string::StringSliceAdditionalSpecFns;

use crate::operations::FileToTextError;
use crate::text::same_bytes;

verus! {

/// The byte that separates the components of a path: `/`.
pub const SEPARATOR: u8 = 0x2f;

/// The byte that sets an extension off: `.`.
pub const DOT: u8 = 0x2e;

/// The UTF-8 bytes of the path of the URL that the `url` crate reads in a
/// text; `None` where the text is no absolute URL.
pub uninterp spec fn path_of_url(file_url: Seq<char>) -> Option<Seq<u8>>;

/// Calls `url::Url::parse`, then `Url::path` on the URL, and copies the
/// bytes of the path.
///
/// Trusted: the outcome is a function of the text alone, named
/// [`path_of_url`]. An error is returned exactly where `Url::parse` returns
/// one.
#[verifier::external_body]
fn parse_path(file_url: &str) -> (outcome: Result<Vec<u8>, url::ParseError>)
    ensures
        path_of_url(file_url@) == match outcome {
            Ok(bytes) => Some(bytes@),
            Err(_) => None,
        },
{
    let url = url::Url::parse(file_url)?;
    Ok(url.path().as_bytes().to_vec())
}

/// Where the run of bytes other than `mark` that ends before `end` begins.
pub open spec fn run_start(bytes: Seq<u8>, end: int, mark: u8) -> int
    decreases end,
{
    if end <= 0 {
        0
    } else if bytes[end - 1] == mark {
        end
    } else {
        run_start(bytes, end - 1, mark)
    }
}

/// A run starts within the text, holds no mark, and has a mark before it
/// unless it starts the text.
pub proof fn lemma_run_start(bytes: Seq<u8>, end: int, mark: u8)
    requires
        0 <= end <= bytes.len(),
    ensures
        0 <= run_start(bytes, end, mark) <= end,
        forall|at: int| run_start(bytes, end, mark) <= at < end ==> bytes[at] != mark,
        run_start(bytes, end, mark) > 0 ==> bytes[run_start(bytes, end, mark) - 1] == mark,
    decreases end,
{
    if end > 0 && bytes[end - 1] != mark {
        lemma_run_start(bytes, end - 1, mark);
    }
}

/// Whether a path segment names nothing: the empty segment and `.`.
pub open spec fn names_nothing(segment: Seq<u8>) -> bool {
    segment.len() == 0 || segment == seq![DOT]
}

/// Whether a path segment names the parent: `..`.
pub open spec fn names_parent(segment: Seq<u8>) -> bool {
    segment == seq![DOT, DOT]
}

/// The last component of the first `end` bytes of a path: its last segment
/// that names something. There is none where no segment names anything, nor
/// where that segment names the parent.
pub open spec fn component_before(path: Seq<u8>, end: int) -> Option<Seq<u8>>
    decreases end,
    via component_before_decreases
{
    if end <= 0 || end > path.len() {
        None
    } else {
        let start = run_start(path, end, SEPARATOR);
        let segment = path.subrange(start, end);
        if names_nothing(segment) {
            if start == 0 {
                None
            } else {
                component_before(path, start - 1)
            }
        } else if names_parent(segment) {
            None
        } else {
            Some(segment)
        }
    }
}

#[via_fn]
proof fn component_before_decreases(path: Seq<u8>, end: int) {
    if 0 < end <= path.len() {
        lemma_run_start(path, end, SEPARATOR);
        assert(run_start(path, end, SEPARATOR) - 1 < end);
    }
}

/// The last component of a path.
pub open spec fn final_component(path: Seq<u8>) -> Option<Seq<u8>> {
    component_before(path, path.len() as int)
}

/// The extension of a file name: what follows its last dot. A name without
/// a dot has none, nor has a name whose only dot is its first byte.
pub open spec fn extension_of_name(name: Seq<u8>) -> Option<Seq<u8>> {
    let after_dot = run_start(name, name.len() as int, DOT);
    if after_dot <= 1 {
        None
    } else {
        Some(name.subrange(after_dot, name.len() as int))
    }
}

/// The extension of the file that a path names.
pub open spec fn extension(path: Seq<u8>) -> Option<Seq<u8>> {
    match final_component(path) {
        Some(name) => extension_of_name(name),
        None => None,
    }
}

/// A byte with an ASCII capital turned into its small letter.
pub open spec fn lower(byte: u8) -> u8 {
    if 0x41 <= byte <= 0x5a {
        (byte + 0x20) as u8
    } else {
        byte
    }
}

/// A byte string with every ASCII capital turned into its small letter.
pub open spec fn lowered(bytes: Seq<u8>) -> Seq<u8> {
    Seq::new(bytes.len(), |at: int| lower(bytes[at]))
}

/// Whether an extension is one of `png`, `jpg` and `jpeg`, in any case.
pub open spec fn is_allowed_type(extension: Seq<u8>) -> bool {
    let folded = lowered(extension);
    folded == "png".spec_bytes() || folded == "jpg".spec_bytes() || folded == "jpeg".spec_bytes()
}

/// Whether a path names a file of an allowed type.
pub open spec fn names_allowed_type(path: Seq<u8>) -> bool {
    extension(path) matches Some(found) && is_allowed_type(found)
}

/// Whether `error` is what a path that names no file of an allowed type is
/// refused with: one reason where it has no extension, another where its
/// extension is none of the allowed types.
pub open spec fn is_type_refusal(error: FileToTextError, path: Seq<u8>) -> bool {
    match extension(path) {
        None => error matches FileToTextError::Error(reason) && reason@
            == "incorrect extension"@,
        Some(found) => {
            &&& !is_allowed_type(found)
            &&& error matches FileToTextError::Error(reason)
            &&& reason@ == "incorrect file type"@
        },
    }
}

/// Whether an address is accepted: it is an absolute URL whose path names a
/// file of an allowed type.
pub open spec fn is_accepted(file_url: Seq<char>) -> bool {
    path_of_url(file_url) matches Some(path) && names_allowed_type(path)
}

/// Whether `error` is what an address that is not accepted is refused with:
/// that it is no URL, or else the refusal of its path.
pub open spec fn is_refusal_of(error: FileToTextError, file_url: Seq<char>) -> bool {
    match path_of_url(file_url) {
        None => error is UrlParseError,
        Some(path) => is_type_refusal(error, path),
    }
}

/// The last component of a path is one of its segments: it lies between
/// separators or the ends of the path, holds no separator itself, and is
/// none of the empty segment, `.` and `..`.
pub proof fn lemma_final_component_is_a_segment(path: Seq<u8>)
    requires
        final_component(path) is Some,
    ensures
        exists|start: int, end: int|
            {
                &&& 0 <= start < end <= path.len()
                &&& #[trigger] path.subrange(start, end) == final_component(path)->0
                &&& start == 0 || path[start - 1] == SEPARATOR
                &&& end == path.len() || path[end] == SEPARATOR
            },
        forall|at: int|
            0 <= at < final_component(path)->0.len() ==> final_component(path)->0[at]
                != SEPARATOR,
        !names_nothing(final_component(path)->0),
        !names_parent(final_component(path)->0),
{
    lemma_component_before_is_a_segment(path, path.len() as int);
}

proof fn lemma_component_before_is_a_segment(path: Seq<u8>, limit: int)
    requires
        component_before(path, limit) is Some,
        limit == path.len() || (0 <= limit < path.len() && path[limit] == SEPARATOR),
    ensures
        exists|start: int, end: int|
            {
                &&& 0 <= start < end <= path.len()
                &&& #[trigger] path.subrange(start, end) == component_before(path, limit)->0
                &&& start == 0 || path[start - 1] == SEPARATOR
                &&& end == path.len() || path[end] == SEPARATOR
            },
        forall|at: int|
            0 <= at < component_before(path, limit)->0.len() ==> component_before(
                path,
                limit,
            )->0[at] != SEPARATOR,
        !names_nothing(component_before(path, limit)->0),
        !names_parent(component_before(path, limit)->0),
    decreases limit,
{
    let start = run_start(path, limit, SEPARATOR);
    lemma_run_start(path, limit, SEPARATOR);
    let segment = path.subrange(start, limit);
    if names_nothing(segment) {
        lemma_component_before_is_a_segment(path, start - 1);
    } else {
        assert(path.subrange(start, limit) == component_before(path, limit)->0);
    }
}

/// The extension of a file name follows the last dot of the name, and that
/// dot is not the first byte of the name: a name has the extension `found`
/// exactly where it is a stem of at least one byte, a dot, and `found`, and
/// `found` holds no dot.
pub proof fn lemma_extension_follows_last_dot(name: Seq<u8>, found: Seq<u8>)
    ensures
        extension_of_name(name) == Some(found) <==> {
            &&& found.len() + 2 <= name.len()
            &&& name[name.len() - found.len() - 1] == DOT
            &&& name.subrange(name.len() - found.len(), name.len() as int) == found
            &&& forall|at: int| 0 <= at < found.len() ==> found[at] != DOT
        },
{
    let length = name.len() as int;
    let after_dot = run_start(name, length, DOT);
    lemma_run_start(name, length, DOT);
    if extension_of_name(name) == Some(found) {
        assert(found.len() == length - after_dot);
        assert forall|at: int| 0 <= at < found.len() implies found[at] != DOT by {
            assert(found[at] == name[after_dot + at]);
        }
    }
    if found.len() + 2 <= length && name[length - found.len() - 1] == DOT && name.subrange(
        length - found.len(),
        length,
    ) == found && (forall|at: int| 0 <= at < found.len() ==> found[at] != DOT) {
        let from = length - found.len();
        assert forall|at: int| from <= at < length implies name[at] != DOT by {
            assert(name[at] == found[at - from]);
        }
        lemma_run_start_is_unique(name, length, DOT, from);
    }
}

/// A position is where a run begins if no mark lies between it and the end
/// of the run and a mark lies before it, or it starts the text.
pub proof fn lemma_run_start_is_unique(bytes: Seq<u8>, end: int, mark: u8, start: int)
    requires
        0 <= start <= end <= bytes.len(),
        forall|at: int| start <= at < end ==> bytes[at] != mark,
        start == 0 || bytes[start - 1] == mark,
    ensures
        run_start(bytes, end, mark) == start,
    decreases end,
{
    if end > start {
        lemma_run_start_is_unique(bytes, end - 1, mark, start);
    }
}

/// Whether an extension is an allowed type does not depend on the case of
/// its ASCII letters.
pub proof fn lemma_allowed_type_ignores_case(one: Seq<u8>, other: Seq<u8>)
    requires
        lowered(one) == lowered(other),
    ensures
        is_allowed_type(one) == is_allowed_type(other),
{
}

/// Finds where the run of bytes other than `mark` that ends before `end`
/// begins.
fn find_run_start(bytes: &[u8], end: usize, mark: u8) -> (start: usize)
    requires
        end <= bytes@.len(),
    ensures
        start == run_start(bytes@, end as int, mark),
        start <= end,
{
    let mut start = end;
    while start > 0 && bytes[start - 1] != mark
        invariant
            start <= end <= bytes@.len(),
            run_start(bytes@, end as int, mark) == run_start(bytes@, start as int, mark),
        decreases start,
    {
        start -= 1;
    }
    start
}

/// Finds the last component of a path, as the range of bytes it takes.
pub fn find_final_component(path: &[u8]) -> (found: Option<(usize, usize)>)
    ensures
        match found {
            Some((start, end)) => start <= end <= path@.len() && final_component(path@) == Some(
                path@.subrange(start as int, end as int),
            ),
            None => final_component(path@) is None,
        },
{
    let mut end = path.len();
    while end > 0
        invariant
            end <= path@.len(),
            component_before(path@, end as int) == final_component(path@),
        decreases end,
    {
        let start = find_run_start(path, end, SEPARATOR);
        let length = end - start;
        let ghost segment = path@.subrange(start as int, end as int);
        if length == 0 || (length == 1 && path[start] == DOT) {
            proof {
                if length == 1 {
                    assert(segment =~= seq![DOT]);
                }
                assert(names_nothing(segment));
            }
            if start == 0 {
                return None;
            }
            end = start - 1;
        } else if length == 2 && path[start] == DOT && path[start + 1] == DOT {
            proof {
                assert(segment =~= seq![DOT, DOT]);
                assert(seq![DOT].len() == 1);
                assert(!names_nothing(segment));
            }
            return None;
        } else {
            proof {
                let dot = seq![DOT];
                let dots = seq![DOT, DOT];
                assert(dot.len() == 1 && dot[0] == DOT);
                assert(dots.len() == 2 && dots[0] == DOT && dots[1] == DOT);
                assert(segment.len() == length);
                if length == 1 {
                    assert(segment[0] != DOT);
                } else if length == 2 {
                    assert(segment[0] != DOT || segment[1] != DOT);
                }
                assert(!names_nothing(segment));
                assert(!names_parent(segment));
            }
            return Some((start, end));
        }
    }
    None
}

/// Finds the extension of the file that a path names.
pub fn find_extension(path: &[u8]) -> (found: Option<Vec<u8>>)
    ensures
        match found {
            Some(bytes) => extension(path@) == Some(bytes@),
            None => extension(path@) is None,
        },
{
    match find_final_component(path) {
        None => None,
        Some((start, end)) => {
            let name = slice_subrange(path, start, end);
            let after_dot = find_run_start(name, name.len(), DOT);
            if after_dot <= 1 {
                None
            } else {
                let tail = slice_subrange(name, after_dot, name.len());
                Some(copy_of(tail))
            }
        },
    }
}

fn copy_of(bytes: &[u8]) -> (copy: Vec<u8>)
    ensures
        copy@ == bytes@,
{
    let mut copy: Vec<u8> = Vec::new();
    let mut at: usize = 0;
    while at < bytes.len()
        invariant
            at <= bytes@.len(),
            copy@ == bytes@.subrange(0, at as int),
        decreases bytes@.len() - at,
    {
        copy.push(bytes[at]);
        proof {
            assert(copy@ =~= bytes@.subrange(0, at + 1));
        }
        at += 1;
    }
    proof {
        assert(copy@ =~= bytes@);
    }
    copy
}

/// Turns every ASCII capital into its small letter.
pub fn to_lowercase(bytes: &[u8]) -> (folded: Vec<u8>)
    ensures
        folded@ == lowered(bytes@),
{
    let mut folded: Vec<u8> = Vec::new();
    let mut at: usize = 0;
    while at < bytes.len()
        invariant
            at <= bytes@.len(),
            folded@ == lowered(bytes@.subrange(0, at as int)),
        decreases bytes@.len() - at,
    {
        let byte = bytes[at];
        let small: u8 = if 0x41 <= byte && byte <= 0x5a {
            byte + 0x20
        } else {
            byte
        };
        folded.push(small);
        proof {
            assert(folded@ =~= lowered(bytes@.subrange(0, at + 1)));
        }
        at += 1;
    }
    proof {
        assert(bytes@.subrange(0, at as int) =~= bytes@);
    }
    folded
}

/// Whether an extension is one of the allowed types, in any case.
pub fn is_allowed(extension: &[u8]) -> (allowed: bool)
    ensures
        allowed == is_allowed_type(extension@),
{
    let folded = to_lowercase(extension);
    same_bytes(folded.as_slice(), "png".as_bytes()) || same_bytes(
        folded.as_slice(),
        "jpg".as_bytes(),
    ) || same_bytes(folded.as_slice(), "jpeg".as_bytes())
}

/// Judges the path of an address: accepted where it names a file of an
/// allowed type, else refused with the reason.
pub fn check_extension(path: &[u8]) -> (outcome: Result<(), FileToTextError>)
    ensures
        match outcome {
            Ok(_) => names_allowed_type(path@),
            Err(error) => is_type_refusal(error, path@),
        },
{
    match find_extension(path) {
        None => Err(FileToTextError::Error("incorrect extension".to_owned())),
        Some(found) => {
            if is_allowed(found.as_slice()) {
                Ok(())
            } else {
                Err(FileToTextError::Error("incorrect file type".to_owned()))
            }
        },
    }
}

/// Judges an address. It is refused as no URL where the `url` crate cannot
/// read it as an absolute URL; else it is judged by the path of that URL.
pub fn check_file_url(file_url: &str) -> (outcome: Result<(), FileToTextError>)
    ensures
        match outcome {
            Ok(_) => is_accepted(file_url@),
            Err(error) => is_refusal_of(error, file_url@),
        },
{
    match parse_path(file_url) {
        Err(failure) => Err(FileToTextError::UrlParseError(failure)),
        Ok(path) => check_extension(path.as_slice()),
    }
}

} // verus!
