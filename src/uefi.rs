//! Filesystem paths (as `/`-separated text) and their UEFI encoding.

use vstd::prelude::*;

verus! {

/// Replace every `/` by `\`, leaving every other character as it is.
pub open spec fn encode(p: Seq<char>) -> Seq<char> {
    p.map_values(|c: char| if c == '/' { '\\' } else { c })
}

/// What remains of `path` once the leading components that make up `root`
/// are taken off, or `None` where `path` does not lie under `root`.
///
/// Components are separated by `/`: `esp` is a prefix of `esp/a` and of `esp`,
/// but not of `espa`. An empty root is a prefix of every relative path.
pub open spec fn strip_root(root: Seq<char>, path: Seq<char>) -> Option<Seq<char>> {
    if root.len() == 0 {
        if path.len() > 0 && path[0] == '/' {
            None
        } else {
            Some(path)
        }
    } else if root.len() <= path.len() && path.subrange(0, root.len() as int) == root {
        if path.len() == root.len() {
            Some(Seq::empty())
        } else if path[root.len() as int] == '/' {
            Some(path.subrange(root.len() as int + 1, path.len() as int))
        } else if root.last() == '/' {
            Some(path.subrange(root.len() as int, path.len() as int))
        } else {
            None
        }
    } else {
        None
    }
}

/// The UEFI absolute path of `path` relative to the ESP mounted at `esp`.
pub open spec fn esp_relative(esp: Seq<char>, path: Seq<char>) -> Option<Seq<char>> {
    match strip_root(esp, path) {
        Some(rest) => Some(seq!['\\'] + encode(rest)),
        None => None,
    }
}

/// `rel` appended to `base` with one separator between them.
pub open spec fn path_join(base: Seq<char>, rel: Seq<char>) -> Seq<char> {
    if base.len() == 0 || base.last() == '/' {
        base + rel
    } else {
        base + seq!['/'] + rel
    }
}

#[derive(Debug, Clone, Copy, PartialEq, Eq)]
pub enum PathError {
    /// The path does not lie under the expected root.
    Prefix,
}

/// Convert a path to its UEFI string representation: every `/` becomes `\`.
pub fn uefi_path(path: &str) -> (r: String)
    ensures
        r@ == encode(path@),
{
    let n = path.unicode_len();
    let mut out = String::new();
    let mut i: usize = 0;
    while i < n
        invariant
            n == path@.len(),
            i <= n,
            out@ == encode(path@.subrange(0, i as int)),
        decreases n - i,
    {
        let c = path.get_char(i);
        proof {
            reveal_strlit("\\");
        }
        if c == '/' {
            out.append("\\");
        } else {
            out.append(path.substring_char(i, i + 1));
        }
        assert(path@.subrange(0, i + 1) == path@.subrange(0, i as int).push(c));
        i = i + 1;
    }
    assert(path@.subrange(0, n as int) == path@);
    out
}

/// `path` without the leading components that make up `root`.
fn strip_prefix<'a>(root: &str, path: &'a str) -> (r: Result<&'a str, PathError>)
    ensures
        match r {
            Ok(rest) => strip_root(root@, path@) == Some(rest@),
            Err(e) => strip_root(root@, path@) is None && e == PathError::Prefix,
        },
{
    let rn = root.unicode_len();
    let pn = path.unicode_len();
    if rn == 0 {
        if pn > 0 && path.get_char(0) == '/' {
            return Err(PathError::Prefix);
        }
        return Ok(path);
    }
    if rn > pn {
        return Err(PathError::Prefix);
    }
    let mut i: usize = 0;
    while i < rn
        invariant
            rn == root@.len(),
            pn == path@.len(),
            0 < rn <= pn,
            i <= rn,
            path@.subrange(0, i as int) == root@.subrange(0, i as int),
        decreases rn - i,
    {
        if path.get_char(i) != root.get_char(i) {
            assert(path@.subrange(0, rn as int)[i as int] != root@[i as int]);
            return Err(PathError::Prefix);
        }
        assert(path@.subrange(0, i + 1) == path@.subrange(0, i as int).push(path@[i as int]));
        assert(root@.subrange(0, i + 1) == root@.subrange(0, i as int).push(root@[i as int]));
        i = i + 1;
    }
    assert(root@.subrange(0, rn as int) == root@);
    if pn == rn {
        let rest = path.substring_char(pn, pn);
        assert(rest@ =~= Seq::<char>::empty());
        Ok(rest)
    } else if path.get_char(rn) == '/' {
        Ok(path.substring_char(rn + 1, pn))
    } else if root.get_char(rn - 1) == '/' {
        Ok(path.substring_char(rn, pn))
    } else {
        Err(PathError::Prefix)
    }
}

/// The UEFI path of `path` relative to the ESP mounted at `esp`, with a
/// leading `\`; fails where `path` does not lie under `esp`.
pub fn esp_relative_uefi_path(esp: &str, path: &str) -> (r: Result<String, PathError>)
    ensures
        match esp_relative(esp@, path@) {
            Some(u) => r is Ok && r->Ok_0@ == u,
            None => r == Err::<String, PathError>(PathError::Prefix),
        },
{
    let relative_path = match strip_prefix(esp, path) {
        Ok(rest) => rest,
        Err(e) => return Err(e),
    };
    let encoded = uefi_path(relative_path);
    let mut out = String::from_str("\\");
    proof {
        reveal_strlit("\\");
    }
    out.append(encoded.as_str());
    Ok(out)
}

/// A path built by joining a relative path `rel` onto a non-empty root lies
/// under that root, and its ESP-relative UEFI path is `rel` encoded, behind a
/// leading backslash.
pub proof fn lemma_joined_path_is_esp_relative(root: Seq<char>, rel: Seq<char>)
    requires
        root.len() > 0,
        rel.len() == 0 || rel[0] != '/',
    ensures
        strip_root(root, path_join(root, rel)) == Some(rel),
        esp_relative(root, path_join(root, rel)) == Some(seq!['\\'] + encode(rel)),
{
    let p = path_join(root, rel);
    if root.last() == '/' {
        assert(p.subrange(0, root.len() as int) =~= root);
        if rel.len() == 0 {
            assert(rel =~= Seq::<char>::empty());
        } else {
            assert(p[root.len() as int] == rel[0]);
            assert(p.subrange(root.len() as int, p.len() as int) =~= rel);
        }
    } else {
        assert(p.subrange(0, root.len() as int) =~= root);
        assert(p.subrange(root.len() as int + 1, p.len() as int) =~= rel);
    }
}

/// `rel` appended to `base` with one separator between them.
pub fn join(base: &str, rel: &str) -> (r: String)
    ensures
        r@ == path_join(base@, rel@),
{
    let n = base.unicode_len();
    let mut out = String::from_str(base);
    if n > 0 && base.get_char(n - 1) != '/' {
        proof {
            reveal_strlit("/");
        }
        out.append("/");
    }
    out.append(rel);
    out
}

/// Joining `a` and then `b` onto a root is joining `a/b` onto it at once.
pub proof fn lemma_join_twice(root: Seq<char>, a: Seq<char>, b: Seq<char>)
    requires
        a.len() > 0,
        a.last() != '/',
    ensures
        path_join(path_join(root, a), b) == path_join(root, a + seq!['/'] + b),
{
    let ra = path_join(root, a);
    assert(ra.last() == a.last());
    if root.len() == 0 || root.last() == '/' {
        assert(ra + seq!['/'] + b =~= root + (a + seq!['/'] + b));
    } else {
        assert(ra + seq!['/'] + b =~= root + seq!['/'] + (a + seq!['/'] + b));
    }
}

} // verus!
