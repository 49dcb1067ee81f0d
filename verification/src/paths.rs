use vstd::prelude::*;

verus! {

/// The byte that separates a file name's stem from its extension.
pub const DOT: u8 = 46;

/// The byte that separates the components of a path.
pub const SLASH: u8 = 47;

/// The bytes of the extension of an eligible source file: "svg".
pub open spec fn svg_ext() -> Seq<u8> {
    seq![115u8, 118u8, 103u8]
}

/// The bytes of the suffix every destination file name ends with: ".png".
pub open spec fn png_suffix() -> Seq<u8> {
    seq![46u8, 112u8, 110u8, 103u8]
}

/// The position of the last occurrence of `b` in `s`, or -1 when `b` does not occur.
pub open spec fn last_index_of(s: Seq<u8>, b: u8) -> int
    decreases s.len(),
{
    if s.len() == 0 {
        -1
    } else if s[s.len() - 1] == b {
        s.len() - 1
    } else {
        last_index_of(s.drop_last(), b)
    }
}

pub proof fn lemma_last_index_of_in_range(s: Seq<u8>, b: u8)
    ensures
        -1 <= last_index_of(s, b) < s.len(),
    decreases s.len(),
{
    if s.len() != 0 && s[s.len() - 1] != b {
        lemma_last_index_of_in_range(s.drop_last(), b);
    }
}

/// An occurrence with no later occurrence is the last one.
pub proof fn lemma_last_index_of_unique(s: Seq<u8>, b: u8, i: int)
    requires
        0 <= i < s.len(),
        s[i] == b,
        forall|j: int| i < j < s.len() ==> s[j] != b,
    ensures
        last_index_of(s, b) == i,
    decreases s.len(),
{
    if i < s.len() - 1 {
        assert forall|j: int| i < j < s.drop_last().len() implies s.drop_last()[j] != b by {
            assert(s.drop_last()[j] == s[j]);
        }
        lemma_last_index_of_unique(s.drop_last(), b, i);
    }
}

/// Where `b` does not occur at all, the last occurrence is -1.
pub proof fn lemma_last_index_of_absent(s: Seq<u8>, b: u8)
    requires
        forall|j: int| 0 <= j < s.len() ==> s[j] != b,
    ensures
        last_index_of(s, b) == -1,
    decreases s.len(),
{
    if s.len() != 0 {
        assert forall|j: int| 0 <= j < s.drop_last().len() implies s.drop_last()[j] != b by {
            assert(s.drop_last()[j] == s[j]);
        }
        lemma_last_index_of_absent(s.drop_last(), b);
    }
}

/// The file-name component of a path: everything after the last separator,
/// or the whole path when it has no separator.
pub open spec fn file_name_of(path: Seq<u8>) -> Seq<u8> {
    path.subrange(last_index_of(path, SLASH) + 1, path.len() as int)
}

/// Whether a file name carries the extension "svg", compared byte for byte.
/// A name whose only dot is its first byte has no extension at all.
pub open spec fn has_svg_extension(name: Seq<u8>) -> bool {
    let d = last_index_of(name, DOT);
    d > 0 && name.subrange(d + 1, name.len() as int) == svg_ext()
}

/// The stem of a file name: everything before the last dot, or the whole
/// name when there is no dot past the first byte.
pub open spec fn stem_of(name: Seq<u8>) -> Seq<u8> {
    let d = last_index_of(name, DOT);
    if d > 0 {
        name.subrange(0, d)
    } else {
        name
    }
}

/// The destination file name for a source file name: its stem with ".png" appended.
pub open spec fn png_name_of(name: Seq<u8>) -> Seq<u8> {
    stem_of(name) + png_suffix()
}

/// Whether a full path names an eligible source: its file-name component
/// carries the extension "svg".
pub open spec fn eligible_path(path: Seq<u8>) -> bool {
    has_svg_extension(file_name_of(path))
}

/// A directory path joined with a file name, inserting a separator only
/// where one is missing.
pub open spec fn joined(dir: Seq<u8>, file: Seq<u8>) -> Seq<u8> {
    if dir.len() == 0 {
        file
    } else if dir[dir.len() - 1] == SLASH {
        dir + file
    } else {
        dir + seq![SLASH] + file
    }
}

/// The destination path for a source path under an output directory: the
/// source's stem with ".png", placed flat in the output directory.
pub open spec fn dest_path_of(output_dir: Seq<u8>, source: Seq<u8>) -> Seq<u8> {
    joined(output_dir, png_name_of(file_name_of(source)))
}

/// The position of the last occurrence of `b`, or `None` when `b` does not occur.
fn rfind(v: &Vec<u8>, b: u8) -> (r: Option<usize>)
    ensures
        match r {
            Some(i) => last_index_of(v@, b) == i,
            None => last_index_of(v@, b) == -1,
        },
{
    let mut i: usize = v.len();
    while i > 0
        invariant
            i <= v.len(),
            forall|j: int| i <= j < v@.len() ==> v@[j] != b,
        decreases i,
    {
        i = i - 1;
        if v[i] == b {
            proof {
                lemma_last_index_of_unique(v@, b, i as int);
            }
            return Some(i);
        }
    }
    proof {
        lemma_last_index_of_absent(v@, b);
    }
    None
}

/// Appends all bytes of `src` to `out`.
fn push_all(out: &mut Vec<u8>, src: &Vec<u8>)
    ensures
        final(out)@ == old(out)@ + src@,
{
    let mut k: usize = 0;
    while k < src.len()
        invariant
            k <= src.len(),
            out@ == old(out)@ + src@.take(k as int),
        decreases src.len() - k,
    {
        out.push(src[k]);
        proof {
            assert(old(out)@ + src@.take(k + 1) =~= (old(out)@ + src@.take(k as int)).push(
                src@[k as int],
            ));
        }
        k = k + 1;
    }
    proof {
        assert(src@.take(src@.len() as int) =~= src@);
    }
}

/// Copies a byte vector.
pub(crate) fn copy_bytes(v: &Vec<u8>) -> (r: Vec<u8>)
    ensures
        r@ == v@,
{
    let mut out: Vec<u8> = Vec::new();
    push_all(&mut out, v);
    proof {
        assert(Seq::<u8>::empty() + v@ =~= v@);
    }
    out
}

/// The file-name component of a path.
pub fn file_name(path: &Vec<u8>) -> (r: Vec<u8>)
    ensures
        r@ == file_name_of(path@),
{
    proof {
        lemma_last_index_of_in_range(path@, SLASH);
    }
    let n: usize = path.len();
    let start: usize = match rfind(path, SLASH) {
        Some(i) => {
            proof {
                assert(i < n);
            }
            i + 1
        },
        None => 0,
    };
    let mut out: Vec<u8> = Vec::new();
    let mut k: usize = start;
    while k < path.len()
        invariant
            start <= k <= path.len(),
            out@ == path@.subrange(start as int, k as int),
        decreases path.len() - k,
    {
        out.push(path[k]);
        proof {
            assert(path@.subrange(start as int, k + 1) =~= path@.subrange(
                start as int,
                k as int,
            ).push(path@[k as int]));
        }
        k = k + 1;
    }
    out
}

/// Whether a file name carries the extension "svg".
pub fn name_has_svg_extension(name: &Vec<u8>) -> (r: bool)
    ensures
        r == has_svg_extension(name@),
{
    let d: usize = match rfind(name, DOT) {
        Some(i) => i,
        None => {
            return false;
        },
    };
    proof {
        lemma_last_index_of_in_range(name@, DOT);
    }
    if d == 0 {
        return false;
    }
    if name.len() - d != 4 {
        proof {
            assert(name@.subrange(d + 1, name@.len() as int).len() != svg_ext().len());
        }
        return false;
    }
    let r = name[d + 1] == 115 && name[d + 2] == 118 && name[d + 3] == 103;
    proof {
        let ext = name@.subrange(d + 1, name@.len() as int);
        if r {
            assert(ext =~= svg_ext());
        } else {
            assert(ext[0] == name@[d + 1] && ext[1] == name@[d + 2] && ext[2] == name@[d + 3]);
            assert(svg_ext()[0] == 115u8 && svg_ext()[1] == 118u8 && svg_ext()[2] == 103u8);
        }
    }
    r
}

/// Whether a full path names an eligible source file.
pub fn is_eligible(path: &Vec<u8>) -> (r: bool)
    ensures
        r == eligible_path(path@),
{
    let name = file_name(path);
    name_has_svg_extension(&name)
}

/// The stem of a file name.
pub fn stem(name: &Vec<u8>) -> (r: Vec<u8>)
    ensures
        r@ == stem_of(name@),
{
    proof {
        lemma_last_index_of_in_range(name@, DOT);
    }
    let end: usize = match rfind(name, DOT) {
        Some(i) => {
            if i > 0 {
                i
            } else {
                name.len()
            }
        },
        None => name.len(),
    };
    let mut out: Vec<u8> = Vec::new();
    let mut k: usize = 0;
    while k < end
        invariant
            k <= end <= name.len(),
            out@ == name@.subrange(0, k as int),
        decreases end - k,
    {
        out.push(name[k]);
        proof {
            assert(name@.subrange(0, k + 1) =~= name@.subrange(0, k as int).push(
                name@[k as int],
            ));
        }
        k = k + 1;
    }
    proof {
        if !(last_index_of(name@, DOT) > 0) {
            assert(name@.subrange(0, name@.len() as int) =~= name@);
        }
    }
    out
}

/// The destination file name for a source file name: stem plus ".png".
pub fn png_name(name: &Vec<u8>) -> (r: Vec<u8>)
    ensures
        r@ == png_name_of(name@),
{
    let mut out = stem(name);
    out.push(46);
    out.push(112);
    out.push(110);
    out.push(103);
    proof {
        assert(out@ =~= stem_of(name@) + png_suffix());
    }
    out
}

/// A directory path joined with a file name.
pub fn join(dir: &Vec<u8>, file: &Vec<u8>) -> (r: Vec<u8>)
    ensures
        r@ == joined(dir@, file@),
{
    let mut out = copy_bytes(dir);
    if dir.len() > 0 && dir[dir.len() - 1] != SLASH {
        out.push(SLASH);
    }
    push_all(&mut out, file);
    proof {
        if dir@.len() == 0 {
            assert(out@ =~= file@);
        } else if dir@[dir@.len() - 1] == SLASH {
            assert(out@ =~= dir@ + file@);
        } else {
            assert(out@ =~= dir@ + seq![SLASH] + file@);
        }
    }
    out
}

/// The destination path for a source path under an output directory.
pub fn dest_path(output_dir: &Vec<u8>, source: &Vec<u8>) -> (r: Vec<u8>)
    ensures
        r@ == dest_path_of(output_dir@, source@),
{
    let name = file_name(source);
    let png = png_name(&name);
    join(output_dir, &png)
}

/// Extension substitution preserves the stem exactly: for any nonempty stem,
/// the name `stem + ".svg"` is eligible and its destination name is
/// `stem + ".png"`.
pub proof fn lemma_stem_preserved(s: Seq<u8>)
    requires
        s.len() > 0,
    ensures
        has_svg_extension(s + seq![DOT] + svg_ext()),
        png_name_of(s + seq![DOT] + svg_ext()) == s + png_suffix(),
{
    let n = s + seq![DOT] + svg_ext();
    assert(n[s.len() as int] == DOT);
    assert forall|j: int| s.len() < j < n.len() implies n[j] != DOT by {
        assert(n[j] == svg_ext()[j - s.len() - 1]);
    }
    lemma_last_index_of_unique(n, DOT, s.len() as int);
    assert(n.subrange(s.len() as int + 1, n.len() as int) =~= svg_ext());
    assert(stem_of(n) =~= s);
    assert(png_name_of(n) =~= s + png_suffix());
}

} // verus!
