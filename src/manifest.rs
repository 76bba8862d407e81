use vstd::prelude::*;
use crate::error::InstallError;
use crate::text::{
    chars_of, extend_chars, has_prefix, is_separator, path_join, push_range, starts_with,
    string_of,
};

verus! {

/// Path of the manifest inside a launch bundle.
pub const MANIFEST_ENTRY: &'static str = "META-INF/MANIFEST.MF";

/// First line of every manifest.
pub const MANIFEST_VERSION: &'static str = "Manifest-Version: 1.0\n";

/// Key of the entry-point header.
pub const MAIN_CLASS_KEY: &'static str = "Main-Class: ";

/// Key of the classpath header.
pub const CLASS_PATH_KEY: &'static str = "Class-Path: ";

/// Bytes allowed on the first physical line of a header.
pub const FIRST_LINE_BYTES: usize = 72;

/// Bytes allowed after the leading space of a continuation line.
pub const CONTINUATION_BYTES: usize = 71;

/// The number of bytes of `c` in UTF-8.
pub open spec fn utf8_len(c: char) -> nat {
    if (c as u32) < 0x80 {
        1
    } else if (c as u32) < 0x800 {
        2
    } else if (c as u32) < 0x10000 {
        3
    } else {
        4
    }
}

/// The number of bytes of `s` in UTF-8.
pub open spec fn byte_len(s: Seq<char>) -> nat
    decreases s.len(),
{
    if s.len() == 0 {
        0
    } else {
        utf8_len(s[0]) + byte_len(s.drop_first())
    }
}

/// How many leading characters of `s` fit in `budget` bytes without splitting one.
pub open spec fn chunk_len(s: Seq<char>, budget: int) -> nat
    decreases s.len(),
{
    if s.len() == 0 || utf8_len(s[0]) > budget {
        0
    } else {
        1 + chunk_len(s.drop_first(), budget - utf8_len(s[0]))
    }
}

/// The continuation lines of a header whose first line has been cut off:
/// each is a space and then as many characters as fit in the continuation budget.
pub open spec fn tail_lines(t: Seq<char>) -> Seq<Seq<char>>
    decreases t.len(),
{
    let k = chunk_len(t, CONTINUATION_BYTES as int);
    if 0 < k <= t.len() {
        seq![seq![' '] + t.take(k as int)] + tail_lines(t.skip(k as int))
    } else {
        seq![]
    }
}

/// The physical lines of a header line wrapped in the manifest's continuation format.
pub open spec fn wrapped_lines(s: Seq<char>) -> Seq<Seq<char>> {
    let k = chunk_len(s, FIRST_LINE_BYTES as int);
    seq![s.take(k as int)] + tail_lines(s.skip(k as int))
}

/// Lines each followed by a newline.
pub open spec fn terminated(lines: Seq<Seq<char>>) -> Seq<char>
    decreases lines.len(),
{
    if lines.len() == 0 {
        seq![]
    } else {
        lines[0] + seq!['\n'] + terminated(lines.drop_first())
    }
}

/// Continuation lines with their leading space taken off, run together.
pub open spec fn unwrapped_tail(lines: Seq<Seq<char>>) -> Seq<char>
    decreases lines.len(),
{
    if lines.len() == 0 {
        seq![]
    } else {
        lines[0].drop_first() + unwrapped_tail(lines.drop_first())
    }
}

/// Paths joined by single spaces.
pub open spec fn joined(paths: Seq<Seq<char>>) -> Seq<char>
    decreases paths.len(),
{
    if paths.len() == 0 {
        seq![]
    } else if paths.len() == 1 {
        paths[0]
    } else {
        joined(paths.drop_last()) + seq![' '] + paths.last()
    }
}

/// A path with every `\` turned into `/`.
pub open spec fn forward_slashes(s: Seq<char>) -> Seq<char> {
    s.map_values(|c: char| if c == '\\' { '/' } else { c })
}

/// `path` written relative to the directory `parent`, with `/` separators;
/// `None` where `path` does not lie under `parent`. Paths are compared as text.
pub open spec fn relative_to(parent: Seq<char>, path: Seq<char>) -> Option<Seq<char>> {
    if parent.len() == 0 {
        Some(forward_slashes(path))
    } else if has_prefix(path, parent) && is_separator(parent.last()) {
        Some(forward_slashes(path.skip(parent.len() as int)))
    } else if has_prefix(path, parent) && path.len() > parent.len() && is_separator(
        path[parent.len() as int],
    ) {
        Some(forward_slashes(path.skip(parent.len() + 1 as int)))
    } else {
        None
    }
}

pub open spec fn relative_or_empty(parent: Seq<char>, path: Seq<char>) -> Seq<char> {
    match relative_to(parent, path) {
        Some(r) => r,
        None => seq![],
    }
}

/// The views of a list of strings.
pub open spec fn views(v: Seq<String>) -> Seq<Seq<char>> {
    v.map_values(|s: String| s@)
}

/// The manifest of a launch bundle: version, entry point, and the classpath of
/// the given relative paths, wrapped.
pub open spec fn manifest_text(main_class: Seq<char>, relative: Seq<Seq<char>>) -> Seq<char> {
    MANIFEST_VERSION@ + MAIN_CLASS_KEY@ + main_class + seq!['\n'] + terminated(
        wrapped_lines(CLASS_PATH_KEY@ + joined(relative)),
    )
}

/// Whether every library path can be written relative to `parent`.
pub open spec fn all_relative(parent: Seq<char>, libraries: Seq<Seq<char>>) -> bool {
    forall|i: int| 0 <= i < libraries.len() ==> relative_to(parent, #[trigger] libraries[i]).is_some()
}

pub open spec fn relative_all(parent: Seq<char>, libraries: Seq<Seq<char>>) -> Seq<Seq<char>> {
    libraries.map_values(|l: Seq<char>| relative_or_empty(parent, l))
}

pub proof fn lemma_chunk_len_bounds(s: Seq<char>, budget: int)
    ensures
        chunk_len(s, budget) <= s.len(),
        budget >= 0 ==> byte_len(s.take(chunk_len(s, budget) as int)) <= budget,
        s.len() > 0 && budget >= 4 ==> chunk_len(s, budget) >= 1,
    decreases s.len(),
{
    if s.len() > 0 && utf8_len(s[0]) <= budget {
        let k = chunk_len(s, budget);
        lemma_chunk_len_bounds(s.drop_first(), budget - utf8_len(s[0]));
        let t = s.take(k as int);
        assert(t[0] == s[0]);
        assert(t.drop_first() =~= s.drop_first().take(k - 1));
    } else {
        assert(s.take(0) =~= Seq::<char>::empty());
    }
}

pub proof fn lemma_chunk_len_ascii(s: Seq<char>, budget: int)
    requires
        0 <= budget <= s.len(),
        forall|i: int| 0 <= i < s.len() ==> (s[i] as u32) < 0x80,
    ensures
        chunk_len(s, budget) == budget,
    decreases s.len(),
{
    if budget > 0 {
        lemma_chunk_len_ascii(s.drop_first(), budget - 1);
    }
}

pub proof fn lemma_tail_lines(t: Seq<char>)
    ensures
        unwrapped_tail(tail_lines(t)) == t,
        forall|i: int|
            0 <= i < tail_lines(t).len() ==> {
                let l = #[trigger] tail_lines(t)[i];
                &&& l.len() >= 2
                &&& l[0] == ' '
                &&& byte_len(l.drop_first()) <= CONTINUATION_BYTES
            },
    decreases t.len(),
{
    let k = chunk_len(t, CONTINUATION_BYTES as int);
    lemma_chunk_len_bounds(t, CONTINUATION_BYTES as int);
    if t.len() == 0 {
        assert(tail_lines(t) =~= Seq::<Seq<char>>::empty());
    } else {
        let rest = t.skip(k as int);
        lemma_tail_lines(rest);
        let first = seq![' '] + t.take(k as int);
        let lines = tail_lines(t);
        assert(lines == seq![first] + tail_lines(rest));
        assert(lines.drop_first() =~= tail_lines(rest));
        assert(first.drop_first() =~= t.take(k as int));
        assert(t =~= t.take(k as int) + rest);
        assert forall|i: int| 0 <= i < lines.len() implies {
            let l = #[trigger] lines[i];
            &&& l.len() >= 2
            &&& l[0] == ' '
            &&& byte_len(l.drop_first()) <= CONTINUATION_BYTES
        } by {
            if i > 0 {
                assert(lines[i] == tail_lines(rest)[i - 1]);
            }
        }
    }
}

/// A wrapped header line satisfies the continuation format: the first line holds
/// at most 72 bytes (exactly 72 characters where the text is ASCII and long
/// enough), each further line is one space and then at most 71 bytes, never an
/// empty chunk, and taking the leading spaces off and joining the lines gives
/// back the unwrapped text.
pub proof fn lemma_wrapping(s: Seq<char>)
    ensures
        wrapped_lines(s).len() >= 1,
        byte_len(wrapped_lines(s)[0]) <= FIRST_LINE_BYTES,
        (forall|i: int| 0 <= i < s.len() ==> (s[i] as u32) < 0x80) && s.len() >= FIRST_LINE_BYTES
            ==> wrapped_lines(s)[0].len() == FIRST_LINE_BYTES,
        forall|i: int|
            1 <= i < wrapped_lines(s).len() ==> {
                let l = #[trigger] wrapped_lines(s)[i];
                &&& l.len() >= 2
                &&& l[0] == ' '
                &&& byte_len(l.drop_first()) <= CONTINUATION_BYTES
            },
        wrapped_lines(s)[0] + unwrapped_tail(wrapped_lines(s).drop_first()) == s,
{
    let k = chunk_len(s, FIRST_LINE_BYTES as int);
    lemma_chunk_len_bounds(s, FIRST_LINE_BYTES as int);
    let lines = wrapped_lines(s);
    let rest = s.skip(k as int);
    lemma_tail_lines(rest);
    assert(lines.drop_first() =~= tail_lines(rest));
    assert(s =~= s.take(k as int) + rest);
    if (forall|i: int| 0 <= i < s.len() ==> (s[i] as u32) < 0x80) && s.len() >= FIRST_LINE_BYTES {
        lemma_chunk_len_ascii(s, FIRST_LINE_BYTES as int);
    }
    assert forall|i: int| 1 <= i < lines.len() implies {
        let l = #[trigger] lines[i];
        &&& l.len() >= 2
        &&& l[0] == ' '
        &&& byte_len(l.drop_first()) <= CONTINUATION_BYTES
    } by {
        assert(lines[i] == tail_lines(rest)[i - 1]);
    }
}

/// A file stored at `p` inside the subdirectory `sub` of `dir` is written, relative
/// to `dir`, as `sub` and `p` joined, whether `dir` is empty, ends in a separator
/// or not.
pub proof fn lemma_relative_to_subdirectory(dir: Seq<char>, sub: Seq<char>, p: Seq<char>)
    requires
        sub.len() > 0,
    ensures
        relative_to(dir, path_join(path_join(dir, sub), p)) == Some(
            forward_slashes(path_join(sub, p)),
        ),
{
    let d = path_join(dir, sub);
    let full = path_join(d, p);
    if dir.len() == 0 {
        assert(d == sub);
    } else if is_separator(dir.last()) {
        assert(d =~= dir + sub);
        assert(d.last() == sub.last());
        assert(full.take(dir.len() as int) =~= dir);
        assert(full.skip(dir.len() as int) =~= path_join(sub, p));
    } else {
        assert(d =~= dir + seq!['/'] + sub);
        assert(d.last() == sub.last());
        assert(full.take(dir.len() as int) =~= dir);
        assert(full[dir.len() as int] == '/');
        assert(full.skip(dir.len() + 1 as int) =~= path_join(sub, p));
    }
}

fn utf8_width(c: char) -> (r: usize)
    ensures
        r == utf8_len(c),
        1 <= r <= 4,
{
    let v = c as u32;
    if v < 0x80 {
        1
    } else if v < 0x800 {
        2
    } else if v < 0x10000 {
        3
    } else {
        4
    }
}

/// The end of the chunk that starts at `from` and fits in `budget` bytes.
fn chunk_end(s: &Vec<char>, from: usize, budget: usize) -> (r: usize)
    requires
        from <= s.len(),
    ensures
        r == from + chunk_len(s@.skip(from as int), budget as int),
        from <= r <= s.len(),
        from < s.len() && budget >= 4 ==> r > from,
{
    let mut i = from;
    let mut used: usize = 0;
    while i < s.len()
        invariant
            from <= i <= s.len(),
            used <= budget,
            i == from ==> used == 0,
            chunk_len(s@.skip(from as int), budget as int) == (i - from) + chunk_len(
                s@.skip(i as int),
                budget - used,
            ),
        ensures
            chunk_len(s@.skip(i as int), budget - used) == 0,
            i == from ==> used == 0,
            from <= i <= s.len(),
            used <= budget,
            chunk_len(s@.skip(from as int), budget as int) == (i - from) + chunk_len(
                s@.skip(i as int),
                budget - used,
            ),
        decreases s.len() - i,
    {
        let w = utf8_width(s[i]);
        let ghost t = s@.skip(i as int);
        assert(t[0] == s@[i as int]);
        assert(t.len() > 0);
        if w > budget - used {
            break;
        }
        assert(t.drop_first() =~= s@.skip(i + 1));
        used = used + w;
        i = i + 1;
    }
    i
}

proof fn lemma_terminated_cons(x: Seq<char>, rest: Seq<Seq<char>>)
    ensures
        terminated(seq![x] + rest) == x + seq!['\n'] + terminated(rest),
{
    let l = seq![x] + rest;
    assert(l[0] == x);
    assert(l.drop_first() =~= rest);
}

/// Appends `line`, wrapped in the continuation format, to `out`.
fn push_wrapped(out: &mut Vec<char>, line: &Vec<char>)
    ensures
        final(out)@ == old(out)@ + terminated(wrapped_lines(line@)),
{
    let k = chunk_end(line, 0, FIRST_LINE_BYTES);
    assert(line@.skip(0) =~= line@);
    push_range(out, line, 0, k);
    out.push('\n');
    proof {
        lemma_terminated_cons(line@.take(k as int), tail_lines(line@.skip(k as int)));
        assert(line@.subrange(0, k as int) =~= line@.take(k as int));
        assert(out@ + terminated(tail_lines(line@.skip(k as int))) =~= old(out)@ + terminated(
            wrapped_lines(line@),
        ));
    }
    let mut i = k;
    while i < line.len()
        invariant
            i <= line.len(),
            out@ + terminated(tail_lines(line@.skip(i as int))) == old(out)@ + terminated(
                wrapped_lines(line@),
            ),
        decreases line.len() - i,
    {
        let e = chunk_end(line, i, CONTINUATION_BYTES);
        let ghost t = line@.skip(i as int);
        let ghost before = out@;
        out.push(' ');
        push_range(out, line, i, e);
        out.push('\n');
        proof {
            let kk = (e - i) as nat;
            assert(t.take(kk as int) =~= line@.subrange(i as int, e as int));
            assert(t.skip(kk as int) =~= line@.skip(e as int));
            assert(tail_lines(t) == seq![seq![' '] + t.take(kk as int)] + tail_lines(t.skip(kk as int)));
            lemma_terminated_cons(seq![' '] + t.take(kk as int), tail_lines(t.skip(kk as int)));
            assert(out@ =~= before + (seq![' '] + t.take(kk as int)) + seq!['\n']);
        }
        i = e;
    }
    proof {
        assert(line@.skip(i as int).len() == 0);
        assert(tail_lines(line@.skip(i as int)) =~= Seq::<Seq<char>>::empty());
        assert(out@ =~= out@ + terminated(tail_lines(line@.skip(i as int))));
    }
}

/// Wraps a header line in the manifest continuation format: the first line holds
/// the leading characters that fit in 72 bytes, each further line a space and the
/// next characters that fit in 71 bytes; every line ends with a newline.
pub fn wrap_line(line: &str) -> (r: String)
    ensures
        r@ == terminated(wrapped_lines(line@)),
{
    let cs = chars_of(line);
    let mut out: Vec<char> = Vec::new();
    push_wrapped(&mut out, &cs);
    string_of(&out)
}

fn forward_from(s: &Vec<char>, from: usize) -> (r: Vec<char>)
    requires
        from <= s.len(),
    ensures
        r@ == forward_slashes(s@.skip(from as int)),
{
    let mut r: Vec<char> = Vec::new();
    let mut j = from;
    while j < s.len()
        invariant
            from <= j <= s.len(),
            r@ == forward_slashes(s@.subrange(from as int, j as int)),
        decreases s.len() - j,
    {
        let c = s[j];
        r.push(if c == '\\' { '/' } else { c });
        j = j + 1;
        assert(r@ =~= forward_slashes(s@.subrange(from as int, j as int)));
    }
    assert(s@.subrange(from as int, j as int) =~= s@.skip(from as int));
    r
}

fn relativize(parent: &Vec<char>, path: &Vec<char>) -> (r: Option<Vec<char>>)
    ensures
        match relative_to(parent@, path@) {
            Some(x) => r matches Some(v) && v@ == x,
            None => r is None,
        },
{
    if parent.len() == 0 {
        return Some(forward_from(path, 0));
    }
    if !starts_with(path, parent) {
        return None;
    }
    let n = parent.len();
    let last = parent[n - 1];
    if last == '/' || last == '\\' {
        return Some(forward_from(path, n));
    }
    if path.len() > n && (path[n] == '/' || path[n] == '\\') {
        Some(forward_from(path, n + 1))
    } else {
        None
    }
}

/// The manifest of a launch bundle that starts `main_class` with `libraries` on
/// its classpath, each written relative to the bundle's directory `parent`, in
/// their order. Fails with a path error naming a library outside `parent`.
pub fn launch_manifest(parent: &str, main_class: &str, libraries: &Vec<String>) -> (r: Result<
    String,
    InstallError,
>)
    ensures
        match r {
            Ok(m) => all_relative(parent@, views(libraries@)) && m@ == manifest_text(
                main_class@,
                relative_all(parent@, views(libraries@)),
            ),
            Err(e) => !all_relative(parent@, views(libraries@)) && exists|i: int|
                0 <= i < libraries@.len() && relative_to(parent@, #[trigger] libraries@[i]@) is None
                    && e == InstallError::Path(libraries@[i]),
        },
{
    let ghost libs = views(libraries@);
    let ghost rels = relative_all(parent@, libs);
    let parent_chars = chars_of(parent);
    let mut line = chars_of(CLASS_PATH_KEY);
    let mut i: usize = 0;
    while i < libraries.len()
        invariant
            i <= libraries.len(),
            parent_chars@ == parent@,
            libs == views(libraries@),
            rels == relative_all(parent@, libs),
            forall|j: int| 0 <= j < i ==> relative_to(parent@, #[trigger] libs[j]) is Some,
            line@ == CLASS_PATH_KEY@ + joined(rels.take(i as int)),
        decreases libraries.len() - i,
    {
        let path = chars_of(libraries[i].as_str());
        assert(libs[i as int] == libraries@[i as int]@);
        match relativize(&parent_chars, &path) {
            None => {
                assert(!all_relative(parent@, libs));
                return Err(InstallError::Path(libraries[i].clone()));
            },
            Some(mut rel) => {
                let ghost before = line@;
                let ghost x = rel@;
                if i > 0 {
                    line.push(' ');
                }
                line.append(&mut rel);
                proof {
                    let t = rels.take(i + 1);
                    assert(t.drop_last() =~= rels.take(i as int));
                    assert(t.last() == x);
                    if i == 0 {
                        assert(rels.take(0) =~= Seq::<Seq<char>>::empty());
                    }
                    assert(line@ =~= CLASS_PATH_KEY@ + joined(t));
                }
            },
        }
        i = i + 1;
    }
    assert(rels.take(i as int) =~= rels);
    let mut out = chars_of(MANIFEST_VERSION);
    extend_chars(&mut out, MAIN_CLASS_KEY);
    extend_chars(&mut out, main_class);
    out.push('\n');
    push_wrapped(&mut out, &line);
    assert(out@ =~= manifest_text(main_class@, rels));
    Ok(string_of(&out))
}

#[verifier::external_type_specification]
#[verifier::external_body]
pub struct ExZipError(zip::result::ZipError);

/// The bytes of a zip archive that holds one deflated entry `entry` with the
/// UTF-8 text `contents`, as the zip crate writes it.
pub uninterp spec fn deflated_archive(entry: Seq<char>, contents: Seq<char>) -> Seq<u8>;

/// Relies on zip's `ZipWriter` (`new` over an in-memory cursor, `start_file`
/// with deflate compression, `write_all`, `finish`): the archive of a single
/// entry, built without a timestamp, so it depends on its arguments alone. On
/// an in-memory cursor the writer fails only past 4 GiB of entry data, which a
/// text of at most 0x3fff_ffff characters (four bytes each at most) stays under.
#[verifier::external_body]
fn archive_single_entry(entry: &str, contents: &str) -> (r: Result<Vec<u8>, zip::result::ZipError>)
    ensures
        r matches Ok(bytes) ==> bytes@ == deflated_archive(entry@, contents@),
        contents@.len() <= 0x3fff_ffff ==> r is Ok,
{
    let mut archive = zip::ZipWriter::new(std::io::Cursor::new(Vec::new()));
    let options = zip::write::FileOptions::default().compression_method(
        zip::CompressionMethod::Deflated,
    );
    archive.start_file(entry, options)?;
    std::io::Write::write_all(&mut archive, contents.as_bytes())?;
    Ok(archive.finish()?.into_inner())
}

/// Message of the error given when the archive cannot be built.
pub const ARCHIVE_FAILED: &'static str = "could not build the launch bundle archive";

/// The bytes of a launch bundle: an archive whose only entry is the manifest of
/// `launch_manifest`. A path error comes exactly when a library lies outside
/// `parent`; otherwise the result is the archive, which always succeeds for a
/// manifest of at most 0x3fff_ffff characters.
pub fn create_launch_jar(parent: &str, main_class: &str, libraries: &Vec<String>) -> (r: Result<
    Vec<u8>,
    InstallError,
>)
    ensures
        all_relative(parent@, views(libraries@)) ==> match r {
            Ok(bytes) => bytes@ == deflated_archive(
                MANIFEST_ENTRY@,
                manifest_text(main_class@, relative_all(parent@, views(libraries@))),
            ),
            Err(e) => e matches InstallError::Io(m) && m@ == ARCHIVE_FAILED@,
        },
        all_relative(parent@, views(libraries@)) && manifest_text(
            main_class@,
            relative_all(parent@, views(libraries@)),
        ).len() <= 0x3fff_ffff ==> r is Ok,
        !all_relative(parent@, views(libraries@)) ==> exists|i: int|
            0 <= i < libraries@.len() && relative_to(parent@, #[trigger] libraries@[i]@) is None
                && r == Err::<Vec<u8>, InstallError>(InstallError::Path(libraries@[i])),
{
    let manifest = launch_manifest(parent, main_class, libraries)?;
    match archive_single_entry(MANIFEST_ENTRY, manifest.as_str()) {
        Ok(bytes) => Ok(bytes),
        Err(_) => Err(InstallError::Io(ARCHIVE_FAILED.to_string())),
    }
}

} // verus!
