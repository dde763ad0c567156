use vstd::prelude::*;
use crate::math::CubeFace;

verus! {

/// The fixed file-name suffix of each face in the separate-faces layout:
/// "p"/"n" for the positive or negative end of the axis, then the axis.
pub open spec fn spec_face_suffix(face: CubeFace) -> Seq<char> {
    match face {
        CubeFace::Right => "px"@,
        CubeFace::Left => "nx"@,
        CubeFace::Top => "py"@,
        CubeFace::Bottom => "ny"@,
        CubeFace::Front => "pz"@,
        CubeFace::Back => "nz"@,
    }
}

/// The fixed file-name suffix of `face`, used by the external path-naming
/// collaborator when the six faces are written as six files.
pub fn face_suffix(face: CubeFace) -> (s: &'static str)
    ensures
        s@ == spec_face_suffix(face),
{
    match face {
        CubeFace::Right => "px",
        CubeFace::Left => "nx",
        CubeFace::Top => "py",
        CubeFace::Bottom => "ny",
        CubeFace::Front => "pz",
        CubeFace::Back => "nz",
    }
}

/// The position of the last occurrence of `c` in `s`, or `-1` if `s` does
/// not contain `c`.
pub open spec fn last_pos_of(s: Seq<char>, c: char) -> int
    decreases s.len(),
{
    if s.len() == 0 {
        -1
    } else if s[s.len() - 1] == c {
        s.len() - 1
    } else {
        last_pos_of(s.drop_last(), c)
    }
}

/// Scanning one more character either moves the last position to it or
/// leaves the result of the shorter prefix.
proof fn lemma_last_pos_step(s: Seq<char>, c: char, i: int)
    requires
        0 <= i < s.len(),
    ensures
        last_pos_of(s.take(i + 1), c) == if s[i] == c {
            i
        } else {
            last_pos_of(s.take(i), c)
        },
{
    assert(s.take(i + 1).drop_last() =~= s.take(i));
    assert(s.take(i + 1).last() == s[i]);
}

/// Where a face suffix goes in an output path: the name part of the path is
/// everything after the last `/`; if the name has an extension — a `.` that
/// is neither its first character nor absent — `_suffix` is inserted before
/// that last `.`, otherwise it is appended to the whole path.
pub open spec fn spec_append_suffix(p: Seq<char>, suffix: Seq<char>) -> Seq<char> {
    let name_start = last_pos_of(p, '/') + 1;
    let dot = last_pos_of(p, '.');
    if dot > name_start {
        p.take(dot) + seq!['_'] + suffix + p.skip(dot)
    } else {
        p + seq!['_'] + suffix
    }
}

/// Derive one output path per face file: insert `_suffix` into `path`
/// before the extension of its file name, or append it when the name has no
/// extension.
pub fn append_suffix(path: &str, suffix: &str) -> (r: String)
    ensures
        r@ == spec_append_suffix(path@, suffix@),
{
    let n = path.unicode_len();
    let mut last_slash: usize = 0;
    let mut has_slash = false;
    let mut last_dot: usize = 0;
    let mut has_dot = false;
    let mut i: usize = 0;
    while i < n
        invariant
            i <= n,
            n == path@.len(),
            has_slash ==> last_slash < i && last_slash as int == last_pos_of(
                path@.take(i as int),
                '/',
            ),
            !has_slash ==> last_pos_of(path@.take(i as int), '/') == -1,
            has_dot ==> last_dot < i && last_dot as int == last_pos_of(path@.take(i as int), '.'),
            !has_dot ==> last_pos_of(path@.take(i as int), '.') == -1,
        decreases n - i,
    {
        let ch = path.get_char(i);
        proof {
            lemma_last_pos_step(path@, '/', i as int);
            lemma_last_pos_step(path@, '.', i as int);
        }
        if ch == '/' {
            last_slash = i;
            has_slash = true;
        }
        if ch == '.' {
            last_dot = i;
            has_dot = true;
        }
        i = i + 1;
    }
    proof {
        assert(path@.take(n as int) =~= path@);
    }
    let has_ext = has_dot && (if has_slash {
        last_dot > last_slash + 1
    } else {
        last_dot > 0
    });
    if has_ext {
        let mut out = String::from_str(path.substring_char(0, last_dot));
        out.append("_");
        out.append(suffix);
        out.append(path.substring_char(last_dot, n));
        proof {
            reveal_strlit("_");
            assert("_"@ =~= seq!['_']);
            assert(out@ =~= spec_append_suffix(path@, suffix@));
        }
        out
    } else {
        let mut out = String::from_str(path);
        out.append("_");
        out.append(suffix);
        proof {
            reveal_strlit("_");
            assert("_"@ =~= seq!['_']);
            assert(out@ =~= spec_append_suffix(path@, suffix@));
        }
        out
    }
}

} // verus!
