use vstd::prelude::*;
use vstd::string::*;
use crate::error::Error;

verus! {

/// `pat` stands in `s` starting at position `i`.
pub open spec fn occurs_at(s: Seq<char>, pat: Seq<char>, i: int) -> bool {
    0 <= i && i + pat.len() <= s.len() && s.subrange(i, i + pat.len()) == pat
}

/// The first position at or after `i` where `pat` stands in `s`.
pub open spec fn find_from(s: Seq<char>, pat: Seq<char>, i: int) -> Option<int>
    decreases s.len() + 1 - i,
{
    if i < 0 || i + pat.len() > s.len() {
        None
    } else if occurs_at(s, pat, i) {
        Some(i)
    } else {
        find_from(s, pat, i + 1)
    }
}

/// A position that `find_from` gives is an occurrence at or after the start.
pub proof fn lemma_find_from_occurs(s: Seq<char>, pat: Seq<char>, i: int)
    ensures
        match find_from(s, pat, i) {
            Some(k) => i <= k && occurs_at(s, pat, k),
            None => true,
        },
    decreases s.len() + 1 - i,
{
    if i < 0 || i + pat.len() > s.len() {
    } else if occurs_at(s, pat, i) {
    } else {
        lemma_find_from_occurs(s, pat, i + 1);
    }
}

/// The attribute that marks the login form's anti-forgery field.
pub open spec fn token_name_pattern() -> Seq<char> {
    seq!['n', 'a', 'm', 'e', '=', '"', '_', 'c', 's', 'r', 'f', '_', 't', 'o', 'k', 'e', 'n', '"']
}

/// The start of the attribute that carries the field's value.
pub open spec fn value_pattern() -> Seq<char> {
    seq!['v', 'a', 'l', 'u', 'e', '=', '"']
}

/// The anti-forgery token of a login page: after the first
/// `name="_csrf_token"`, the first `value="`, and the text from there up to
/// the next double quote. `None` where any of the three is missing.
pub open spec fn csrf_token_of(html: Seq<char>) -> Option<Seq<char>> {
    match find_from(html, token_name_pattern(), 0) {
        None => None,
        Some(a) => match find_from(html, value_pattern(), a + token_name_pattern().len()) {
            None => None,
            Some(b) => {
                let start = b + value_pattern().len();
                match find_from(html, seq!['"'], start) {
                    None => None,
                    Some(e) => Some(html.subrange(start, e)),
                }
            },
        },
    }
}

fn chars_of(s: &str) -> (r: Vec<char>)
    ensures
        r@ == s@,
{
    let n = s.unicode_len();
    let mut r: Vec<char> = Vec::new();
    let mut i: usize = 0;
    while i < n
        invariant
            n == s@.len(),
            i <= n,
            r@ == s@.subrange(0, i as int),
        decreases n - i,
    {
        let c = s.get_char(i);
        r.push(c);
        i = i + 1;
        proof {
            assert(r@ =~= s@.subrange(0, i as int));
        }
    }
    proof {
        assert(r@ =~= s@);
    }
    r
}

fn occurs_at_exec(s: &Vec<char>, pat: &Vec<char>, i: usize) -> (r: bool)
    requires
        i + pat.len() <= s.len(),
    ensures
        r == occurs_at(s@, pat@, i as int),
{
    let mut j: usize = 0;
    while j < pat.len()
        invariant
            i + pat.len() <= s.len(),
            j <= pat.len(),
            s@.subrange(i as int, i + j) == pat@.subrange(0, j as int),
        decreases pat.len() - j,
    {
        if s[i + j] != pat[j] {
            proof {
                assert(s@.subrange(i as int, i + pat.len())[j as int] != pat@[j as int]);
            }
            return false;
        }
        j = j + 1;
        proof {
            assert(s@.subrange(i as int, i + j) =~= pat@.subrange(0, j as int));
        }
    }
    proof {
        assert(pat@.subrange(0, pat.len() as int) =~= pat@);
    }
    true
}

fn find_from_exec(s: &Vec<char>, pat: &Vec<char>, from: usize) -> (r: Option<usize>)
    ensures
        match r {
            Some(i) => find_from(s@, pat@, from as int) == Some(i as int),
            None => find_from(s@, pat@, from as int) is None,
        },
{
    let mut i: usize = from;
    while i <= s.len() && pat.len() <= s.len() - i
        invariant
            from <= i,
            find_from(s@, pat@, from as int) == find_from(s@, pat@, i as int),
        decreases s.len() + 1 - i,
    {
        if occurs_at_exec(s, pat, i) {
            return Some(i);
        }
        if i == s.len() {
            proof {
                assert(find_from(s@, pat@, i + 1) is None);
            }
            return None;
        }
        i = i + 1;
    }
    None
}

/// Finds the anti-forgery token in the markup of a login page.
pub fn extract_csrf_token(html: &str) -> (r: Option<String>)
    ensures
        match r {
            Some(t) => csrf_token_of(html@) == Some(t@),
            None => csrf_token_of(html@) is None,
        },
{
    let s = chars_of(html);
    let n = s.len();
    let name_pat: Vec<char> = vec!['n', 'a', 'm', 'e', '=', '"', '_', 'c', 's', 'r', 'f', '_', 't', 'o', 'k', 'e', 'n', '"'];
    let value_pat: Vec<char> = vec!['v', 'a', 'l', 'u', 'e', '=', '"'];
    let quote: Vec<char> = vec!['"'];
    proof {
        assert(name_pat@ =~= token_name_pattern());
        assert(value_pat@ =~= value_pattern());
        assert(quote@ =~= seq!['"']);
    }
    let a = match find_from_exec(&s, &name_pat, 0) {
        None => return None,
        Some(a) => a,
    };
    proof {
        lemma_find_from_occurs(s@, name_pat@, 0);
        assert(name_pat@.len() == 18);
        assert(a + 18 <= n);
    }
    let b = match find_from_exec(&s, &value_pat, a + 18) {
        None => return None,
        Some(b) => b,
    };
    proof {
        lemma_find_from_occurs(s@, value_pat@, a + 18);
        assert(value_pat@.len() == 7);
        assert(b + 7 <= n);
    }
    let start = b + 7;
    let e = match find_from_exec(&s, &quote, start) {
        None => return None,
        Some(e) => e,
    };
    proof {
        lemma_find_from_occurs(s@, quote@, start as int);
    }
    Some(html.substring_char(start, e).to_owned())
}

/// The anti-forgery token of a login page, or `CsrfError` where the page
/// holds none.
pub fn login_token(html: &str) -> (r: Result<String, Error>)
    ensures
        match r {
            Ok(t) => csrf_token_of(html@) == Some(t@),
            Err(e) => csrf_token_of(html@) is None && e is CsrfError,
        },
{
    match extract_csrf_token(html) {
        Some(t) => Ok(t),
        None => Err(Error::CsrfError),
    }
}

} // verus!
