use vstd::prelude::*;

verus! {

/// The extension of a math source file.
pub open spec fn math_ext() -> Seq<char> {
    seq!['.', 'm', 'a', 't', 'h']
}

/// Whether the name `p` already ends with the extension of a math source file.
pub open spec fn has_math_ext(p: Seq<char>) -> bool {
    p.len() >= math_ext().len() && p.subrange(p.len() - math_ext().len(), p.len() as int)
        == math_ext()
}

/// The file name for the math source `p`: `p` itself when it already ends
/// with the extension, else `p` with the extension appended.
pub open spec fn math_file_of(p: Seq<char>) -> Seq<char> {
    if has_math_ext(p) {
        p
    } else {
        p + math_ext()
    }
}

fn ends_with_math_ext(p: &str) -> (r: bool)
    ensures
        r == has_math_ext(p@),
{
    let ext = ".math";
    proof {
        reveal_strlit(".math");
        assert(ext@ =~= math_ext());
    }
    let n = p.unicode_len();
    if n < 5 {
        return false;
    }
    let start = n - 5;
    let mut i: usize = 0;
    while i < 5
        invariant
            n == p@.len(),
            start == n - 5,
            i <= 5,
            ext@ == math_ext(),
            p@.subrange(start as int, start + i) =~= math_ext().subrange(0, i as int),
        decreases 5 - i,
    {
        if p.get_char(start + i) != ext.get_char(i) {
            assert(p@.subrange(start as int, n as int)[i as int] != math_ext()[i as int]);
            return false;
        }
        i += 1;
    }
    assert(math_ext().subrange(0, 5) =~= math_ext());
    true
}

/// The name of the file that holds the math source `path`: `.math` is
/// appended unless `path` already ends with it.
pub fn math_file_name(path: &str) -> (r: String)
    ensures
        r@ == math_file_of(path@),
{
    let name = String::from_str(path);
    if ends_with_math_ext(path) {
        name
    } else {
        let ext = ".math";
        proof {
            reveal_strlit(".math");
            assert(ext@ =~= math_ext());
        }
        name.concat(ext)
    }
}

} // verus!
