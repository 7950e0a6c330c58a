use vstd::prelude::*;
use vstd::string::StrSliceExecFns;
use vstd::string::StringExecFns;

verus! {

/// Index of the first character of the final path component: one past the
/// last `'/'`, or `0` when the path contains no separator.
pub open spec fn spec_file_name_start(p: Seq<char>) -> int
    decreases p.len(),
{
    if p.len() == 0 {
        0
    } else if p[p.len() - 1] == '/' {
        p.len() as int
    } else {
        spec_file_name_start(p.drop_last())
    }
}

/// Index of the dot that begins the extension of the final path component:
/// the last `'.'` of the path, provided it lies inside the final component
/// and is not that component's first character; `-1` when there is no such
/// dot (so a name such as `.profile` has no extension).
pub open spec fn spec_extension_dot(p: Seq<char>) -> int
    decreases p.len(),
{
    if p.len() == 0 {
        -1
    } else if p[p.len() - 1] == '/' {
        -1
    } else if p[p.len() - 1] == '.' {
        if p.len() - 1 > spec_file_name_start(p) {
            p.len() - 1
        } else {
            -1
        }
    } else {
        spec_extension_dot(p.drop_last())
    }
}

/// Where the stem of `p` ends: at the extension dot when there is one,
/// otherwise at the end of the path.
pub open spec fn spec_stem_end(p: Seq<char>) -> int {
    if spec_extension_dot(p) >= 0 {
        spec_extension_dot(p)
    } else {
        p.len() as int
    }
}

/// The path `p` with its extension replaced by `ext`: the stem, then a dot,
/// then `ext`. A path with no extension gains one; a path whose final
/// component is empty (it is empty or ends in a separator) is unchanged.
pub open spec fn spec_with_extension(p: Seq<char>, ext: Seq<char>) -> Seq<char> {
    if spec_file_name_start(p) == p.len() {
        p
    } else {
        p.take(spec_stem_end(p)) + seq!['.'] + ext
    }
}

pub proof fn lemma_file_name_start_bounds(p: Seq<char>)
    ensures
        0 <= spec_file_name_start(p) <= p.len(),
    decreases p.len(),
{
    if p.len() != 0 && p[p.len() - 1] != '/' {
        lemma_file_name_start_bounds(p.drop_last());
    }
}

pub proof fn lemma_extension_dot_bounds(p: Seq<char>)
    ensures
        spec_extension_dot(p) == -1 || (spec_file_name_start(p) < spec_extension_dot(p)
            < p.len()),
    decreases p.len(),
{
    lemma_file_name_start_bounds(p);
    if p.len() != 0 && p[p.len() - 1] != '/' && p[p.len() - 1] != '.' {
        lemma_extension_dot_bounds(p.drop_last());
        if spec_extension_dot(p.drop_last()) >= 0 {
            lemma_file_name_start_prefix(p);
        }
    }
}

/// Dropping a final character that is not a separator does not move the
/// start of the final component.
proof fn lemma_file_name_start_prefix(p: Seq<char>)
    requires
        p.len() > 0,
        p[p.len() - 1] != '/',
    ensures
        spec_file_name_start(p) == spec_file_name_start(p.drop_last()),
{
}

/// Finds the start of the final path component of `p`.
fn file_name_start(p: &str) -> (r: usize)
    ensures
        r as int == spec_file_name_start(p@),
{
    let n = p.unicode_len();
    let mut i: usize = n;
    proof {
        assert(p@.take(n as int) =~= p@);
    }
    loop
        invariant
            i <= n,
            n == p@.len(),
            spec_file_name_start(p@) == spec_file_name_start(p@.take(i as int)),
        decreases i,
    {
        if i == 0 {
            proof {
                assert(p@.take(0) =~= Seq::<char>::empty());
            }
            return 0;
        }
        if p.get_char(i - 1) == '/' {
            proof {
                assert(p@.take(i as int).len() == i);
                assert(p@.take(i as int)[i - 1] == p@[i - 1]);
            }
            return i;
        }
        proof {
            assert(p@.take(i as int).drop_last() =~= p@.take(i - 1));
            assert(p@.take(i as int)[i - 1] == p@[i - 1]);
        }
        i = i - 1;
    }
}

/// Finds the extension dot of `p`, if any.
fn extension_dot(p: &str) -> (r: Option<usize>)
    ensures
        match r {
            Some(d) => d as int == spec_extension_dot(p@),
            None => spec_extension_dot(p@) == -1,
        },
{
    let n = p.unicode_len();
    let start = file_name_start(p);
    let mut i: usize = n;
    proof {
        assert(p@.take(n as int) =~= p@);
    }
    loop
        invariant
            i <= n,
            n == p@.len(),
            start as int == spec_file_name_start(p@),
            spec_extension_dot(p@) == spec_extension_dot(p@.take(i as int)),
            spec_file_name_start(p@) == spec_file_name_start(p@.take(i as int)),
        decreases i,
    {
        if i == 0 {
            proof {
                assert(p@.take(0) =~= Seq::<char>::empty());
            }
            return None;
        }
        let c = p.get_char(i - 1);
        proof {
            assert(p@.take(i as int)[i - 1] == p@[i - 1]);
        }
        if c == '/' {
            return None;
        }
        if c == '.' {
            if i - 1 > start {
                return Some(i - 1);
            }
            return None;
        }
        proof {
            assert(p@.take(i as int).drop_last() =~= p@.take(i - 1));
        }
        i = i - 1;
    }
}

/// Returns `path` with its extension replaced by `ext` (without a dot), per
/// [`spec_with_extension`].
pub fn with_extension(path: &str, ext: &str) -> (r: String)
    ensures
        r@ == spec_with_extension(path@, ext@),
{
    let n = path.unicode_len();
    let start = file_name_start(path);
    if start == n {
        return path.to_owned();
    }
    proof {
        lemma_extension_dot_bounds(path@);
    }
    let stem_end: usize = match extension_dot(path) {
        Some(d) => d,
        None => n,
    };
    let stem = path.substring_char(0, stem_end);
    let mut out = stem.to_owned();
    out.append(".");
    out.append(ext);
    proof {
        reveal_strlit(".");
        assert(out@ =~= spec_with_extension(path@, ext@));
    }
    out
}

/// Derives the path of every pipeline artifact from the path of the source
/// file, by replacing the source path's extension. This is the single source
/// of truth for artifact naming: no other component constructs these paths.
///
/// The derivation is a pure function of the source path, so any two queries
/// on equal paths agree; see [`lemma_derived_paths_from_stem`].
pub struct SuffixTranslator {
    c_file: String,
}

impl View for SuffixTranslator {
    type V = Seq<char>;

    closed spec fn view(&self) -> Seq<char> {
        self.c_file@
    }
}

impl SuffixTranslator {
    pub fn new(c_file: String) -> (r: Self)
        ensures
            r@ == c_file@,
    {
        Self { c_file }
    }

    /// Path of the preprocessed source artifact (`.i`).
    pub fn preprocessor(&self) -> (r: String)
        ensures
            r@ == spec_with_extension(self@, "i"@),
    {
        with_extension(self.c_file.as_str(), "i")
    }

    /// Path of the assembly artifact that the compile phase writes (`.asm`).
    pub fn assembler(&self) -> (r: String)
        ensures
            r@ == spec_with_extension(self@, "asm"@),
    {
        with_extension(self.c_file.as_str(), "asm")
    }

    /// Path of the assembly artifact, under the name the compile phase's
    /// callers first used for it; identical to [`Self::assembler`].
    pub fn compiler(&self) -> (r: String)
        ensures
            r@ == spec_with_extension(self@, "asm"@),
    {
        with_extension(self.c_file.as_str(), "asm")
    }

    /// Path of the final binary artifact (`.bin`).
    pub fn binary(&self) -> (r: String)
        ensures
            r@ == spec_with_extension(self@, "bin"@),
    {
        with_extension(self.c_file.as_str(), "bin")
    }

    /// Path of the assembler listing artifact (`.lst`).
    pub fn listing(&self) -> (r: String)
        ensures
            r@ == spec_with_extension(self@, "lst"@),
    {
        with_extension(self.c_file.as_str(), "lst")
    }
}

/// The derived artifact paths are pure functions of the source path's stem:
/// two source paths with the same stem yield identical derived paths, no
/// matter how often they are queried and no matter how their original
/// extensions differed.
pub proof fn lemma_derived_paths_from_stem(p1: Seq<char>, p2: Seq<char>, ext: Seq<char>)
    requires
        spec_file_name_start(p1) < p1.len(),
        spec_file_name_start(p2) < p2.len(),
        p1.take(spec_stem_end(p1)) == p2.take(spec_stem_end(p2)),
    ensures
        spec_with_extension(p1, ext) == spec_with_extension(p2, ext),
{
}

} // verus!
