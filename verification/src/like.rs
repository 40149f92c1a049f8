use vstd::prelude::*;

verus! {

/// The character folding of the storage engine's default `LIKE` comparison:
/// the ASCII letters 'A'..'Z' compare equal to their lower-case forms, and
/// every other character (including non-ASCII ones) only to itself.
pub open spec fn fold_case(c: char) -> char {
    if 65 <= c as u32 && c as u32 <= 90 {
        (((c as u32) + 32) as u8) as char
    } else {
        c
    }
}

/// Whether the `LIKE` pattern `p` matches the whole string `s`:
/// `%` matches any sequence of zero or more characters, `_` matches exactly
/// one character, and every other pattern character matches one string
/// character up to `fold_case`.
pub open spec fn like_match(p: Seq<char>, s: Seq<char>) -> bool
    decreases p.len(), s.len(),
{
    if p.len() == 0 {
        s.len() == 0
    } else if p[0] == '%' {
        like_match(p.skip(1), s) || (s.len() > 0 && like_match(p, s.skip(1)))
    } else if p[0] == '_' {
        s.len() > 0 && like_match(p.skip(1), s.skip(1))
    } else {
        s.len() > 0 && fold_case(p[0]) == fold_case(s[0]) && like_match(p.skip(1), s.skip(1))
    }
}

/// The pattern the delete operation builds around a client-supplied `text`:
/// `%text%`. Any `%` or `_` inside `text` keeps its wildcard meaning.
pub open spec fn contains_pattern(text: Seq<char>) -> Seq<char> {
    seq!['%'] + text + seq!['%']
}

/// Whether a row's `title` is matched by the delete-by-text request for
/// `text`, i.e. by the `LIKE` pattern `%text%`.
pub open spec fn title_matches(text: Seq<char>, title: Seq<char>) -> bool {
    like_match(contains_pattern(text), title)
}

fn fold_case_exec(c: char) -> (r: char)
    ensures
        r == fold_case(c),
{
    let u = c as u32;
    if 65 <= u && u <= 90 {
        ((u + 32) as u8) as char
    } else {
        c
    }
}

fn like_match_at(p: &str, s: &str, i: usize, j: usize, p_len: usize, s_len: usize) -> (r: bool)
    requires
        p_len == p@.len(),
        s_len == s@.len(),
        i <= p_len,
        j <= s_len,
    ensures
        r == like_match(p@.skip(i as int), s@.skip(j as int)),
    decreases p_len - i, s_len - j,
{
    proof {
        assert(p@.skip(i as int).len() == p_len - i);
        assert(s@.skip(j as int).len() == s_len - j);
    }
    if i == p_len {
        proof {
            assert(p@.skip(i as int) =~= Seq::<char>::empty());
        }
        j == s_len
    } else {
        let pc = p.get_char(i);
        proof {
            assert(p@.skip(i as int)[0] == p@[i as int]);
            assert(p@.skip(i as int).skip(1) =~= p@.skip(i as int + 1));
        }
        if pc == '%' {
            if like_match_at(p, s, i + 1, j, p_len, s_len) {
                true
            } else if j < s_len {
                proof {
                    assert(s@.skip(j as int).skip(1) =~= s@.skip(j as int + 1));
                }
                like_match_at(p, s, i, j + 1, p_len, s_len)
            } else {
                false
            }
        } else if pc == '_' {
            if j < s_len {
                proof {
                    assert(s@.skip(j as int).skip(1) =~= s@.skip(j as int + 1));
                }
                like_match_at(p, s, i + 1, j + 1, p_len, s_len)
            } else {
                false
            }
        } else {
            if j < s_len {
                let sc = s.get_char(j);
                proof {
                    assert(s@.skip(j as int)[0] == s@[j as int]);
                    assert(s@.skip(j as int).skip(1) =~= s@.skip(j as int + 1));
                }
                if fold_case_exec(pc) == fold_case_exec(sc) {
                    like_match_at(p, s, i + 1, j + 1, p_len, s_len)
                } else {
                    false
                }
            } else {
                false
            }
        }
    }
}

/// Whether the `LIKE` pattern `pattern` matches the whole of `s`.
pub fn str_like(pattern: &str, s: &str) -> (r: bool)
    ensures
        r == like_match(pattern@, s@),
{
    let p_len = pattern.unicode_len();
    let s_len = s.unicode_len();
    proof {
        assert(pattern@.skip(0) =~= pattern@);
        assert(s@.skip(0) =~= s@);
    }
    like_match_at(pattern, s, 0, 0, p_len, s_len)
}

/// Whether `title` is matched by the pattern `%text%`, as the delete-by-text
/// operation asks.
pub fn title_contains(text: &str, title: &str) -> (r: bool)
    ensures
        r == title_matches(text@, title@),
{
    let mut pattern = "%".to_owned();
    pattern.append(text);
    pattern.append("%");
    proof {
        reveal_strlit("%");
        assert(pattern@ =~= contains_pattern(text@));
    }
    str_like(pattern.as_str(), title)
}

} // verus!
