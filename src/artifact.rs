use vstd::prelude::*;
use crate::error::InstallError;
use crate::loaders::{fabric, quilt};
use crate::text::{
    chars_of, extend_chars, find_from, first_index, has_prefix, lemma_first_absent,
    lemma_first_unique, path_join, push_path, push_range, starts_with, string_of,
};

verus! {

/// Relative paths under this namespace are served by the Quilt repository.
pub const QUILT_NAMESPACE: &'static str = "org/quiltmc";

/// A library coordinate mapped to where it is stored and where it is fetched from.
#[derive(Debug, Clone)]
pub struct ResolvedArtifact {
    pub coordinate: String,
    pub relative_path: String,
    pub remote_url: String,
    pub local_path: String,
}

/// A group with each `.` turned into a directory separator.
pub open spec fn group_dirs(g: Seq<char>) -> Seq<char> {
    g.map_values(|c: char| if c == '.' { '/' } else { c })
}

/// `group/artifact/version/artifact-version.jar`, the group split into directories.
pub open spec fn artifact_path(g: Seq<char>, a: Seq<char>, v: Seq<char>) -> Seq<char> {
    group_dirs(g) + seq!['/'] + a + seq!['/'] + v + seq!['/'] + a + seq!['-'] + v + seq![
        '.',
        'j',
        'a',
        'r',
    ]
}

/// The relative storage path of a coordinate: its text up to the first `:` is the
/// group, up to the second the artifact, and all that follows the version.
/// `None` where the coordinate holds fewer than two `:`.
pub open spec fn coordinate_path(s: Seq<char>) -> Option<Seq<char>> {
    let i = first_index(s, ':');
    let rest = s.skip(i + 1);
    let k = first_index(rest, ':');
    if i < 0 || k < 0 {
        None
    } else {
        Some(artifact_path(s.take(i), rest.take(k), rest.skip(k + 1)))
    }
}

/// The repository an artifact path is fetched from, followed by `/` and the path.
pub open spec fn mirror_url(path: Seq<char>) -> Seq<char> {
    if has_prefix(path, QUILT_NAMESPACE@) {
        quilt::MAVEN@ + seq!['/'] + path
    } else {
        fabric::MAVEN@ + seq!['/'] + path
    }
}

/// Where the artifact at `path` is cached under the libraries directory `dir`.
pub open spec fn local_path_of(dir: Seq<char>, path: Seq<char>) -> Seq<char> {
    path_join(dir, path)
}

/// What `resolve` gives for a coordinate whose path is `path`.
pub open spec fn resolved(coordinate: Seq<char>, dir: Seq<char>, path: Seq<char>, r: ResolvedArtifact) -> bool {
    &&& r.coordinate@ == coordinate
    &&& r.relative_path@ == path
    &&& r.remote_url@ == mirror_url(path)
    &&& r.local_path@ == local_path_of(dir, path)
}

fn push_group_dirs(out: &mut Vec<char>, s: &Vec<char>, to: usize)
    requires
        to <= s.len(),
    ensures
        final(out)@ == old(out)@ + group_dirs(s@.take(to as int)),
{
    let mut j: usize = 0;
    while j < to
        invariant
            j <= to <= s.len(),
            out@ == old(out)@ + group_dirs(s@.take(j as int)),
        decreases to - j,
    {
        let c = s[j];
        out.push(if c == '.' { '/' } else { c });
        j = j + 1;
        assert(out@ =~= old(out)@ + group_dirs(s@.take(j as int)));
    }
}

/// Maps a `group:artifact:version` coordinate to its storage path under
/// `libraries_dir` and to the mirror it is fetched from. Pure and deterministic.
pub fn resolve(coordinate: &str, libraries_dir: &str) -> (r: Result<ResolvedArtifact, InstallError>)
    ensures
        match coordinate_path(coordinate@) {
            Some(path) => r matches Ok(a) && resolved(coordinate@, libraries_dir@, path, a),
            None => r matches Err(InstallError::CoordinateParse(c)) && c@ == coordinate@,
        },
{
    let s = chars_of(coordinate);
    let i = find_from(&s, ':', 0);
    proof {
        assert(s@.skip(0) =~= s@);
        if i < s.len() {
            lemma_first_unique(s@, ':', i as int);
        } else {
            lemma_first_absent(s@, ':');
        }
    }
    if i == s.len() {
        return Err(InstallError::CoordinateParse(coordinate.to_string()));
    }
    let k = find_from(&s, ':', i + 1);
    proof {
        let rest = s@.skip(i + 1);
        if k < s.len() {
            lemma_first_unique(rest, ':', k - (i + 1));
        } else {
            lemma_first_absent(rest, ':');
        }
    }
    if k == s.len() {
        return Err(InstallError::CoordinateParse(coordinate.to_string()));
    }
    let mut p: Vec<char> = Vec::new();
    push_group_dirs(&mut p, &s, i);
    p.push('/');
    push_range(&mut p, &s, i + 1, k);
    p.push('/');
    push_range(&mut p, &s, k + 1, s.len());
    p.push('/');
    push_range(&mut p, &s, i + 1, k);
    p.push('-');
    push_range(&mut p, &s, k + 1, s.len());
    p.push('.');
    p.push('j');
    p.push('a');
    p.push('r');
    proof {
        let rest = s@.skip(i + 1);
        let kk = k - (i + 1);
        assert(rest.take(kk) =~= s@.subrange(i + 1, k as int));
        assert(rest.skip(kk + 1) =~= s@.subrange(k + 1, s@.len() as int));
        assert(p@ =~= artifact_path(s@.take(i as int), rest.take(kk), rest.skip(kk + 1)));
    }
    let namespace = chars_of(QUILT_NAMESPACE);
    let mut url: Vec<char> = Vec::new();
    if starts_with(&p, &namespace) {
        extend_chars(&mut url, quilt::MAVEN);
    } else {
        extend_chars(&mut url, fabric::MAVEN);
    }
    url.push('/');
    let mut tail = p.clone();
    url.append(&mut tail);
    let mut local = chars_of(libraries_dir);
    push_path(&mut local, &p);
    proof {
        assert(url@ =~= mirror_url(p@));
        assert(local@ =~= local_path_of(libraries_dir@, p@));
    }
    Ok(
        ResolvedArtifact {
            coordinate: coordinate.to_string(),
            relative_path: string_of(&p),
            remote_url: string_of(&url),
            local_path: string_of(&local),
        },
    )
}

/// Resolution depends on the coordinate and the libraries directory alone: any
/// two results for the same inputs name the same relative path, the same
/// mirror URL and the same local path.
pub proof fn lemma_resolve_deterministic(
    coordinate: Seq<char>,
    dir: Seq<char>,
    a: ResolvedArtifact,
    b: ResolvedArtifact,
)
    requires
        coordinate_path(coordinate) is Some,
        resolved(coordinate, dir, coordinate_path(coordinate)->0, a),
        resolved(coordinate, dir, coordinate_path(coordinate)->0, b),
    ensures
        a.relative_path@ == b.relative_path@,
        a.remote_url@ == b.remote_url@,
        a.local_path@ == b.local_path@,
{
}

} // verus!
