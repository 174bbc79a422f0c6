use vstd::prelude::*;

verus! {

/// `s` with every space replaced by a plus sign.
pub open spec fn spaces_to_plus(s: Seq<char>) -> Seq<char> {
    s.map_values(|c: char| if c == ' ' { '+' } else { c })
}

/// `s` without its leading double quotes.
pub open spec fn strip_leading_quotes(s: Seq<char>) -> Seq<char>
    decreases s.len(),
{
    if s.len() > 0 && s[0] == '"' {
        strip_leading_quotes(s.drop_first())
    } else {
        s
    }
}

/// `s` without its trailing double quotes.
pub open spec fn strip_trailing_quotes(s: Seq<char>) -> Seq<char>
    decreases s.len(),
{
    if s.len() > 0 && s.last() == '"' {
        strip_trailing_quotes(s.drop_last())
    } else {
        s
    }
}

/// `s` without the double quotes at either end.
pub open spec fn trim_quotes(s: Seq<char>) -> Seq<char> {
    strip_trailing_quotes(strip_leading_quotes(s))
}

/// Whether `s` begins with `p`.
pub open spec fn has_prefix(s: Seq<char>, p: Seq<char>) -> bool {
    p.len() <= s.len() && s.subrange(0, p.len() as int) == p
}

/// Replaces each space in `s` by `+`.
pub fn replace_spaces(s: &str) -> (r: String)
    ensures
        r@ == spaces_to_plus(s@),
{
    let n = s.unicode_len();
    let mut r = String::new();
    let mut i: usize = 0;
    while i < n
        invariant
            n == s@.len(),
            i <= n,
            r@ == spaces_to_plus(s@.subrange(0, i as int)),
        decreases n - i,
    {
        let c = s.get_char(i);
        if c == ' ' {
            r.append("+");
            proof { reveal_strlit("+"); }
        } else {
            r.append(s.substring_char(i, i + 1));
        }
        assert(s@.subrange(0, i + 1) =~= s@.subrange(0, i as int).push(c));
        assert(spaces_to_plus(s@.subrange(0, i + 1)) =~= spaces_to_plus(s@.subrange(0, i as int)).push(
            if c == ' ' { '+' } else { c },
        ));
        i = i + 1;
    }
    assert(s@.subrange(0, n as int) =~= s@);
    r
}

proof fn lemma_strip_leading_step(s: Seq<char>, i: int)
    requires
        0 <= i < s.len(),
        s[i] == '"',
    ensures
        strip_leading_quotes(s.subrange(i, s.len() as int)) == strip_leading_quotes(
            s.subrange(i + 1, s.len() as int),
        ),
{
    assert(s.subrange(i, s.len() as int).drop_first() =~= s.subrange(i + 1, s.len() as int));
}

proof fn lemma_strip_trailing_step(s: Seq<char>, j: int)
    requires
        0 < j <= s.len(),
        s[j - 1] == '"',
    ensures
        strip_trailing_quotes(s.subrange(0, j)) == strip_trailing_quotes(s.subrange(0, j - 1)),
{
    assert(s.subrange(0, j).drop_last() =~= s.subrange(0, j - 1));
}

/// Removes the double quotes at both ends of `s`.
pub fn trim_double_quotes(s: &str) -> (r: String)
    ensures
        r@ == trim_quotes(s@),
{
    let n = s.unicode_len();
    let mut i: usize = 0;
    assert(s@.subrange(0, n as int) =~= s@);
    while i < n && s.get_char(i) == '"'
        invariant
            n == s@.len(),
            i <= n,
            strip_leading_quotes(s@) == strip_leading_quotes(s@.subrange(i as int, n as int)),
        decreases n - i,
    {
        proof { lemma_strip_leading_step(s@, i as int); }
        i = i + 1;
    }
    let ghost rest = s@.subrange(i as int, n as int);
    assert(strip_leading_quotes(s@) == rest) by {
        if i < n {
            assert(rest[0] == s@[i as int]);
        }
    }
    let mut j: usize = n;
    while j > i && s.get_char(j - 1) == '"'
        invariant
            n == s@.len(),
            i <= j <= n,
            strip_trailing_quotes(rest) == strip_trailing_quotes(s@.subrange(i as int, j as int)),
        decreases j,
    {
        proof { lemma_strip_trailing_step(s@.subrange(i as int, n as int), j - i); 
            assert(s@.subrange(i as int, n as int).subrange(0, j - i) =~= s@.subrange(i as int, j as int));
            assert(s@.subrange(i as int, n as int).subrange(0, j - i - 1) =~= s@.subrange(i as int, j - 1));
        }
        j = j - 1;
    }
    assert(strip_trailing_quotes(rest) == s@.subrange(i as int, j as int)) by {
        let t = s@.subrange(i as int, j as int);
        if j > i {
            assert(t.last() == s@[j - 1]);
        }
    }
    String::from_str(s.substring_char(i, j))
}

/// Whether `s` begins with `p`.
pub fn starts_with(s: &str, p: &str) -> (r: bool)
    ensures
        r == has_prefix(s@, p@),
{
    let n = s.unicode_len();
    let m = p.unicode_len();
    if m > n {
        return false;
    }
    String::from_str(s.substring_char(0, m)) == String::from_str(p)
}

} // verus!
