//! Paths as text: the parts of a path, the kind of a media file, the renaming
//! of a file that would collide, and the place of a file in the target tree.
//!
//! A path is a string whose components are separated by `/`. It is taken as
//! written: nothing is normalised, and the file name is whatever follows the
//! last separator.

use vstd::prelude::*;
use crate::text::{
    chars_of, decimal_digits, decimal_text, equals_ignoring_ascii_case, same_ignoring_ascii_case,
    signed_decimal_digits, signed_decimal_text,
};

verus! {

/// What a file is taken for, by its extension.
#[derive(Clone, Copy, Debug, PartialEq, Eq, Structural)]
pub enum MediaKind {
    Image,
    Video,
    Unsupported,
}

/// The index of the last `c` in `s`, or -1 where `s` holds none.
///
/// The definition walks back from the end, one character at a step: a proof
/// about a given text gives it fuel for the length of the text, or calls
/// `lemma_last_index_is` with the index it expects.
pub open spec fn last_index_of(s: Seq<char>, c: char) -> int
    decreases s.len(),
{
    if s.len() == 0 {
        -1
    } else if s.last() == c {
        s.len() - 1
    } else {
        last_index_of(s.drop_last(), c)
    }
}

/// What `last_index_of` finds: a `c` with no `c` behind it, or nothing in a
/// sequence without any.
pub proof fn lemma_last_index_of(s: Seq<char>, c: char)
    ensures
        -1 <= last_index_of(s, c) < s.len(),
        last_index_of(s, c) >= 0 ==> s[last_index_of(s, c)] == c,
        forall|j: int| last_index_of(s, c) < j < s.len() ==> s[j] != c,
    decreases s.len(),
{
    if s.len() > 0 && s.last() != c {
        lemma_last_index_of(s.drop_last(), c);
        assert forall|j: int| last_index_of(s, c) < j < s.len() implies s[j] != c by {
            if j < s.len() - 1 {
                assert(s.drop_last()[j] == s[j]);
            }
        }
    }
}

/// An index that holds `c` and has no `c` behind it is the last index of `c`;
/// -1 is, where there is no `c` at all.
pub proof fn lemma_last_index_is(s: Seq<char>, c: char, k: int)
    requires
        -1 <= k < s.len(),
        k >= 0 ==> s[k] == c,
        forall|j: int| k < j < s.len() ==> s[j] != c,
    ensures
        last_index_of(s, c) == k,
{
    lemma_last_index_of(s, c);
}

/// The path up to and with its last separator; empty where it has none.
pub open spec fn dir_prefix(path: Seq<char>) -> Seq<char> {
    path.take(last_index_of(path, '/') + 1)
}

/// What follows the last separator of the path: the whole path where it has
/// none, nothing where it ends in one.
pub open spec fn file_name_of(path: Seq<char>) -> Seq<char> {
    path.skip(last_index_of(path, '/') + 1)
}

/// The directory that holds the path: what stands before the last separator,
/// the root for a file directly below it, nothing for a bare file name.
pub open spec fn parent_of(path: Seq<char>) -> Seq<char> {
    let separator = last_index_of(path, '/');
    if separator < 0 {
        Seq::empty()
    } else if separator == 0 {
        path.take(1)
    } else {
        path.take(separator)
    }
}

/// How many characters of a file name make its stem: all that stands before
/// the last dot, or the whole name where the only dot leads it or it has none.
pub open spec fn stem_len(name: Seq<char>) -> int {
    let dot = last_index_of(name, '.');
    if dot <= 0 {
        name.len() as int
    } else {
        dot
    }
}

/// The file name without its suffix.
pub open spec fn stem_of(name: Seq<char>) -> Seq<char> {
    name.take(stem_len(name))
}

/// The last dot of a file name and what follows it; empty where the name has
/// no extension.
pub open spec fn suffix_of(name: Seq<char>) -> Seq<char> {
    name.skip(stem_len(name))
}

/// The extension of the path's file name, without its dot.
pub open spec fn extension_of(path: Seq<char>) -> Option<Seq<char>> {
    let name = file_name_of(path);
    if last_index_of(name, '.') <= 0 {
        None
    } else {
        Some(name.skip(last_index_of(name, '.') + 1))
    }
}

/// The extensions of images.
pub open spec fn is_image_extension(extension: Seq<char>) -> bool {
    ||| same_ignoring_ascii_case(extension, seq!['p', 'n', 'g'])
    ||| same_ignoring_ascii_case(extension, seq!['j', 'p', 'g'])
    ||| same_ignoring_ascii_case(extension, seq!['j', 'p', 'e', 'g'])
    ||| same_ignoring_ascii_case(extension, seq!['t', 'i', 'f'])
}

/// The extension of videos.
pub open spec fn is_video_extension(extension: Seq<char>) -> bool {
    same_ignoring_ascii_case(extension, seq!['m', 'p', '4'])
}

/// The kind of the file at `path`: by its extension, whatever the case of its
/// letters.
pub open spec fn kind_of(path: Seq<char>) -> MediaKind {
    match extension_of(path) {
        Some(extension) => if is_image_extension(extension) {
            MediaKind::Image
        } else if is_video_extension(extension) {
            MediaKind::Video
        } else {
            MediaKind::Unsupported
        },
        None => MediaKind::Unsupported,
    }
}

/// What is appended to the stem of a file that is kept beside another of its
/// name.
pub open spec fn alternative_mark() -> Seq<char> {
    seq!['_', 'n', 'e', 'w']
}

/// The path with its file name replaced by `name`, the suffix of the old file
/// name kept behind it.
pub open spec fn with_file_name(path: Seq<char>, name: Seq<char>) -> Seq<char> {
    dir_prefix(path) + name + suffix_of(file_name_of(path))
}

/// The path under which a file is kept beside the one at `path`: the mark
/// appended to the stem, directory and extension unchanged.
pub open spec fn alternative_of(path: Seq<char>) -> Seq<char> {
    with_file_name(path, stem_of(file_name_of(path)) + alternative_mark())
}

/// The alternative of the alternative, `steps` times over.
pub open spec fn nth_alternative(path: Seq<char>, steps: nat) -> Seq<char>
    decreases steps,
{
    if steps == 0 {
        path
    } else {
        alternative_of(nth_alternative(path, (steps - 1) as nat))
    }
}

/// The alternative of a path is four characters longer and stands in the same
/// directory; its stem is the old stem with the mark behind it, and it keeps
/// the suffix, so also the extension and the kind of the file.
pub proof fn lemma_alternative_of(path: Seq<char>)
    ensures
        alternative_of(path).len() == path.len() + 4,
        alternative_of(path) != path,
        dir_prefix(alternative_of(path)) == dir_prefix(path),
        parent_of(alternative_of(path)) == parent_of(path),
        stem_of(file_name_of(alternative_of(path))) == stem_of(file_name_of(path))
            + alternative_mark(),
        suffix_of(file_name_of(alternative_of(path))) == suffix_of(file_name_of(path)),
        extension_of(alternative_of(path)) == extension_of(path),
        kind_of(alternative_of(path)) == kind_of(path),
{
    let separator = last_index_of(path, '/');
    let name = file_name_of(path);
    let dot = last_index_of(name, '.');
    let cut = stem_len(name);
    let stem = stem_of(name);
    let suffix = suffix_of(name);
    let new_name = stem + alternative_mark() + suffix;
    let alternative = alternative_of(path);
    lemma_last_index_of(path, '/');
    lemma_last_index_of(name, '.');
    assert(alternative =~= path.take(separator + 1) + new_name);
    assert forall|j: int| separator < j < alternative.len() implies alternative[j] != '/' by {
        let k = j - (separator + 1);
        if k < cut {
            assert(new_name[k] == name[k]);
        } else if k >= cut + 4 {
            assert(new_name[k] == name[k - 4]);
        }
    }
    lemma_last_index_is(alternative, '/', separator);
    assert(file_name_of(alternative) =~= new_name);
    assert(path.take(separator + 1) =~= alternative.take(separator + 1));
    if separator > 0 {
        assert(path.take(separator) =~= alternative.take(separator));
    }
    if dot > 0 {
        assert forall|j: int| cut + 4 < j < new_name.len() implies new_name[j] != '.' by {
            assert(new_name[j] == name[j - 4]);
        }
        assert(new_name[cut + 4] == name[cut]);
        lemma_last_index_is(new_name, '.', cut + 4);
        assert(new_name.take(cut + 4) =~= stem + alternative_mark());
        assert(new_name.skip(cut + 4) =~= suffix);
        assert(new_name.skip(cut + 5) =~= name.skip(dot + 1));
    } else {
        assert(suffix =~= Seq::<char>::empty());
        assert(new_name =~= name + alternative_mark());
        assert forall|j: int| dot < j < new_name.len() implies new_name[j] != '.' by {
            if j < name.len() {
                assert(new_name[j] == name[j]);
            }
        }
        if dot == 0 {
            assert(new_name[0] == name[0]);
        }
        lemma_last_index_is(new_name, '.', dot);
        assert(new_name.take(new_name.len() as int) =~= stem + alternative_mark());
        assert(new_name.skip(new_name.len() as int) =~= suffix);
    }
}

/// Each further alternative is four characters longer than the one before.
pub proof fn lemma_nth_alternative_len(path: Seq<char>, steps: nat)
    ensures
        nth_alternative(path, steps).len() == path.len() + 4 * steps,
        parent_of(nth_alternative(path, steps)) == parent_of(path),
        extension_of(nth_alternative(path, steps)) == extension_of(path),
    decreases steps,
{
    if steps > 0 {
        lemma_nth_alternative_len(path, (steps - 1) as nat);
        lemma_alternative_of(nth_alternative(path, (steps - 1) as nat));
    }
}

/// Renaming again never comes back to a name that was tried before: the
/// alternatives of a path are all different from each other.
pub proof fn lemma_alternatives_differ(path: Seq<char>, i: nat, j: nat)
    requires
        i != j,
    ensures
        nth_alternative(path, i) != nth_alternative(path, j),
{
    lemma_nth_alternative_len(path, i);
    lemma_nth_alternative_len(path, j);
}

/// `component` below `base`: a separator between them unless `base` is empty
/// or ends in one.
pub open spec fn joined(base: Seq<char>, component: Seq<char>) -> Seq<char> {
    if base.len() == 0 || base.last() == '/' {
        base + component
    } else {
        base + seq!['/'] + component
    }
}

/// Where a file taken in the given year and month goes: below the target
/// directory, in the directory of the year, in that of the month, under the
/// name it has at its source.
pub open spec fn destination_of(target: Seq<char>, year: int, month: nat, source: Seq<char>) -> Seq<
    char,
> {
    joined(
        joined(joined(target, signed_decimal_digits(year)), decimal_digits(month)),
        file_name_of(source),
    )
}

/// The decimal writing of a number is not empty and ends in a digit, so not
/// in a separator.
pub proof fn lemma_decimal_digits_end(n: nat)
    ensures
        decimal_digits(n).len() > 0,
        decimal_digits(n).last() != '/',
    decreases n,
{
    if n >= 10 {
        lemma_decimal_digits_end(n / 10);
    }
}

/// Joining a component that holds no separator puts it last: it is the file
/// name of the result. Below a base that is not empty and does not end in a
/// separator, the base is the parent of the result.
pub proof fn lemma_joined(base: Seq<char>, component: Seq<char>)
    requires
        forall|i: int| 0 <= i < component.len() ==> component[i] != '/',
    ensures
        file_name_of(joined(base, component)) == component,
        base.len() > 0 && base.last() != '/' ==> joined(base, component) == base + seq!['/']
            + component && parent_of(joined(base, component)) == base,
{
    let path = joined(base, component);
    let cut = path.len() - component.len();
    assert forall|j: int| cut <= j < path.len() implies path[j] != '/' by {
        assert(path[j] == component[j - cut]);
    }
    if cut > 0 {
        assert(path[cut - 1] == '/');
    }
    if cut == 0 {
        assert(base.len() == 0);
    }
    lemma_last_index_is(path, '/', cut - 1);
    assert(path.skip(cut) =~= component);
    if base.len() > 0 && base.last() != '/' {
        assert(path.take(cut - 1) =~= base);
    }
}

/// The place of a file below a target directory that is named without a
/// separator at its end: the target, the year, the month and the name of the
/// file, with one separator between each two. The file keeps its name, and
/// with it its extension.
pub proof fn lemma_destination_of(target: Seq<char>, year: int, month: nat, source: Seq<char>)
    requires
        target.len() > 0,
        target.last() != '/',
    ensures
        destination_of(target, year, month, source) == target + seq!['/'] + signed_decimal_digits(
            year,
        ) + seq!['/'] + decimal_digits(month) + seq!['/'] + file_name_of(source),
        file_name_of(destination_of(target, year, month, source)) == file_name_of(source),
        parent_of(destination_of(target, year, month, source)) == target + seq!['/']
            + signed_decimal_digits(year) + seq!['/'] + decimal_digits(month),
        extension_of(destination_of(target, year, month, source)) == extension_of(source),
{
    let year_text = signed_decimal_digits(year);
    let month_text = decimal_digits(month);
    let name = file_name_of(source);
    lemma_decimal_digits_end(month);
    if year < 0 {
        lemma_decimal_digits_end((-year) as nat);
    } else {
        lemma_decimal_digits_end(year as nat);
    }
    let in_year = joined(target, year_text);
    assert(in_year == target + seq!['/'] + year_text);
    assert(in_year.last() == year_text.last());
    let in_month = joined(in_year, month_text);
    assert(in_month == in_year + seq!['/'] + month_text);
    assert(in_month.last() == month_text.last());
    lemma_last_index_of(source, '/');
    assert forall|i: int| 0 <= i < name.len() implies name[i] != '/' by {
        assert(name[i] == source[last_index_of(source, '/') + 1 + i]);
    }
    lemma_joined(in_month, name);
}

/// Where the file name of `path` begins, where its stem ends, and where the
/// path ends, counted in characters.
fn split_points(chars: &Vec<char>) -> (points: (usize, usize))
    ensures
        points.0 == last_index_of(chars@, '/') + 1,
        points.1 == points.0 + stem_len(file_name_of(chars@)),
        points.0 <= points.1 <= chars.len(),
        points.1 < chars.len() ==> last_index_of(file_name_of(chars@), '.') == points.1 - points.0,
        points.1 == chars.len() ==> last_index_of(file_name_of(chars@), '.') <= 0,
{
    let total = chars.len();
    let mut start: usize = total;
    while start > 0 && chars[start - 1] != '/'
        invariant
            0 <= start <= total,
            total == chars.len(),
            forall|j: int| start <= j < total ==> chars@[j] != '/',
        decreases start,
    {
        start = start - 1;
    }
    proof {
        lemma_last_index_is(chars@, '/', start - 1);
    }
    let ghost name = file_name_of(chars@);
    let mut dot: usize = total;
    while dot > start && chars[dot - 1] != '.'
        invariant
            0 <= start <= dot <= total,
            total == chars.len(),
            name == chars@.skip(start as int),
            forall|j: int| dot - start <= j < name.len() ==> name[j] != '.',
        decreases dot,
    {
        dot = dot - 1;
    }
    proof {
        lemma_last_index_is(name, '.', dot - start - 1);
    }
    if dot - start <= 1 {
        (start, total)
    } else {
        (start, dot - 1)
    }
}

/// The file name of `path`.
pub fn file_name(path: &str) -> (name: String)
    ensures
        name@ == file_name_of(path@),
{
    let chars = chars_of(path);
    let (start, _) = split_points(&chars);
    path.substring_char(start, chars.len()).to_owned()
}

/// The directory that holds `path`.
pub fn parent(path: &str) -> (directory: String)
    ensures
        directory@ == parent_of(path@),
{
    let chars = chars_of(path);
    let (start, _) = split_points(&chars);
    if start == 0 {
        let directory = String::new();
        assert(directory@ =~= parent_of(path@));
        directory
    } else if start == 1 {
        path.substring_char(0, 1).to_owned()
    } else {
        path.substring_char(0, start - 1).to_owned()
    }
}

/// The extension of `path`, if its file name has one.
pub fn extension(path: &str) -> (found: Option<String>)
    ensures
        match found {
            Some(text) => extension_of(path@) == Some(text@),
            None => extension_of(path@) is None,
        },
{
    let chars = chars_of(path);
    let (start, stem_end) = split_points(&chars);
    if stem_end == chars.len() {
        None
    } else {
        let text = path.substring_char(stem_end + 1, chars.len()).to_owned();
        assert(text@ =~= file_name_of(path@).skip(stem_end - start + 1));
        Some(text)
    }
}

/// The kind of the file at `path`.
pub fn classify(path: &str) -> (kind: MediaKind)
    ensures
        kind == kind_of(path@),
{
    proof {
        reveal_strlit("png");
        reveal_strlit("jpg");
        reveal_strlit("jpeg");
        reveal_strlit("tif");
        reveal_strlit("mp4");
        assert("png"@ =~= seq!['p', 'n', 'g']);
        assert("jpg"@ =~= seq!['j', 'p', 'g']);
        assert("jpeg"@ =~= seq!['j', 'p', 'e', 'g']);
        assert("tif"@ =~= seq!['t', 'i', 'f']);
        assert("mp4"@ =~= seq!['m', 'p', '4']);
    }
    match extension(path) {
        Some(text) => {
            let ext = text.as_str();
            if equals_ignoring_ascii_case(ext, "png") || equals_ignoring_ascii_case(ext, "jpg")
                || equals_ignoring_ascii_case(ext, "jpeg") || equals_ignoring_ascii_case(
                ext,
                "tif",
            ) {
                MediaKind::Image
            } else if equals_ignoring_ascii_case(ext, "mp4") {
                MediaKind::Video
            } else {
                MediaKind::Unsupported
            }
        },
        None => MediaKind::Unsupported,
    }
}

/// Whether the file at `path` is an image.
pub fn is_image(path: &str) -> (image: bool)
    ensures
        image == (kind_of(path@) == MediaKind::Image),
{
    match classify(path) {
        MediaKind::Image => true,
        _ => false,
    }
}

/// Whether the file at `path` is an image or a video.
pub fn is_supported_file_type(path: &str) -> (supported: bool)
    ensures
        supported == (kind_of(path@) != MediaKind::Unsupported),
{
    match classify(path) {
        MediaKind::Unsupported => false,
        _ => true,
    }
}

/// Replaces the file name of `path` by `name` and keeps the suffix of the old
/// file name behind it.
pub fn change_file_name(path: &str, name: &str) -> (changed: String)
    ensures
        changed@ == with_file_name(path@, name@),
{
    let chars = chars_of(path);
    let (start, stem_end) = split_points(&chars);
    let mut changed = path.substring_char(0, start).to_owned();
    changed.append(name);
    changed.append(path.substring_char(stem_end, chars.len()));
    assert(changed@ =~= with_file_name(path@, name@)) by {
        assert(path@.subrange(stem_end as int, chars.len() as int) =~= suffix_of(
            file_name_of(path@),
        ));
    }
    changed
}

/// The path under which a file is kept beside the one that already stands at
/// `path`.
pub fn create_alternative_path(path: &str) -> (alternative: String)
    ensures
        alternative@ == alternative_of(path@),
{
    let chars = chars_of(path);
    let (start, stem_end) = split_points(&chars);
    proof {
        reveal_strlit("_new");
        assert("_new"@ =~= alternative_mark());
    }
    let mut new_name = path.substring_char(start, stem_end).to_owned();
    new_name.append("_new");
    assert(new_name@ =~= stem_of(file_name_of(path@)) + alternative_mark());
    change_file_name(path, new_name.as_str())
}

/// `component` below `base`.
pub fn join(base: &str, component: &str) -> (path: String)
    ensures
        path@ == joined(base@, component@),
{
    let chars = chars_of(base);
    let mut path = base.to_owned();
    if chars.len() > 0 && chars[chars.len() - 1] != '/' {
        proof {
            reveal_strlit("/");
            assert("/"@ =~= seq!['/']);
        }
        path.append("/");
    }
    path.append(component);
    path
}

/// Where the file at `source_path`, taken in the given year and month, goes
/// below `target_directory`.
pub fn destination_path(target_directory: &str, year: i32, month: u32, source_path: &str) -> (path:
    String)
    ensures
        path@ == destination_of(target_directory@, year as int, month as nat, source_path@),
{
    let year_directory = join(target_directory, signed_decimal_text(year as i64).as_str());
    let month_directory = join(year_directory.as_str(), decimal_text(month as u64).as_str());
    join(month_directory.as_str(), file_name(source_path).as_str())
}

} // verus!
