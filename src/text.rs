use vstd::prelude::*;
use vstd::string::*;

verus! {

/// Whether `c` has the Unicode White_Space property (PropList.txt): the
/// property that `char::is_whitespace` tests.
pub open spec fn white_space(c: char) -> bool {
    let n = c as u32;
    ||| 0x9 <= n && n <= 0xD
    ||| n == 0x20
    ||| n == 0x85
    ||| n == 0xA0
    ||| n == 0x1680
    ||| 0x2000 <= n && n <= 0x200A
    ||| n == 0x2028
    ||| n == 0x2029
    ||| n == 0x202F
    ||| n == 0x205F
    ||| n == 0x3000
}

/// Whether `c` is white space.
pub fn is_white_space(c: char) -> (r: bool)
    ensures
        r == white_space(c),
{
    let n = c as u32;
    (0x9 <= n && n <= 0xD) || n == 0x20 || n == 0x85 || n == 0xA0 || n == 0x1680 || (0x2000 <= n
        && n <= 0x200A) || n == 0x2028 || n == 0x2029 || n == 0x202F || n == 0x205F || n == 0x3000
}

/// Whether some character of `s` is white space.
pub open spec fn has_white_space(s: Seq<char>) -> bool {
    exists|i: int| 0 <= i < s.len() && white_space(#[trigger] s[i])
}

/// Whether `term` stands in `text` starting at position `i`.
pub open spec fn occurs_at(text: Seq<char>, term: Seq<char>, i: int) -> bool {
    0 <= i && i + term.len() <= text.len() && text.subrange(i, i + term.len()) == term
}

/// Literal, case-sensitive containment of `term` in `text`.
pub open spec fn contains(text: Seq<char>, term: Seq<char>) -> bool {
    exists|i: int| occurs_at(text, term, i)
}

/// The characters of `s`, one element each.
pub fn chars_of(s: &str) -> (r: Vec<char>)
    ensures
        r@ == s@,
{
    let n = s.unicode_len();
    let mut r: Vec<char> = Vec::new();
    let mut i: usize = 0;
    while i < n
        invariant
            n == s@.len(),
            i <= n,
            r@ == s@.subrange(0, i as int),
        decreases n - i,
    {
        r.push(s.get_char(i));
        i += 1;
    }
    assert(r@ =~= s@);
    r
}

/// Whether `term` holds a white-space character; such a term is no single
/// token and is refused by a search.
pub fn has_whitespace(term: &str) -> (r: bool)
    ensures
        r == has_white_space(term@),
        term@.contains(' ') ==> r,
        term@.contains('\n') ==> r,
        term@.contains('\t') ==> r,
{
    let cs = chars_of(term);
    let mut i: usize = 0;
    while i < cs.len()
        invariant
            cs@ == term@,
            i <= cs.len(),
            forall|k: int| 0 <= k < i ==> !white_space(#[trigger] term@[k]),
        decreases cs.len() - i,
    {
        if is_white_space(cs[i]) {
            return true;
        }
        i += 1;
    }
    assert(!term@.contains(' ') && !term@.contains('\n') && !term@.contains('\t')) by {
        assert forall|k: int| 0 <= k < term@.len() implies term@[k] != ' ' && term@[k] != '\n'
            && term@[k] != '\t' by {
            assert(!white_space(term@[k]));
        }
    }
    false
}

fn occurs_at_exec(text: &Vec<char>, term: &Vec<char>, i: usize) -> (r: bool)
    requires
        i + term.len() <= text.len(),
    ensures
        r == occurs_at(text@, term@, i as int),
{
    let mut j: usize = 0;
    while j < term.len()
        invariant
            i + term.len() <= text.len(),
            j <= term.len(),
            forall|k: int| 0 <= k < j ==> text@[i + k] == term@[k],
        decreases term.len() - j,
    {
        if text[i + j] != term[j] {
            assert(text@.subrange(i as int, i + term.len())[j as int] != term@[j as int]);
            return false;
        }
        j += 1;
    }
    assert(text@.subrange(i as int, i + term.len()) =~= term@);
    true
}

/// Whether `term` occurs in `text` as a literal, case-sensitive substring.
/// The empty term occurs in every text.
pub fn contains_term(text: &str, term: &str) -> (r: bool)
    ensures
        r == contains(text@, term@),
{
    let t = chars_of(text);
    let p = chars_of(term);
    if p.len() > t.len() {
        assert forall|i: int| !occurs_at(text@, term@, i) by {}
        return false;
    }
    let last = t.len() - p.len();
    let mut i: usize = 0;
    while i <= last
        invariant
            t@ == text@,
            p@ == term@,
            last + p.len() == t.len(),
            forall|k: int| 0 <= k < i ==> !occurs_at(text@, term@, k),
        decreases last + 1 - i,
    {
        if occurs_at_exec(&t, &p, i) {
            return true;
        }
        if i == last {
            assert forall|k: int| !occurs_at(text@, term@, k) by {
                if k > last {
                    assert(!occurs_at(text@, term@, k));
                }
            }
            return false;
        }
        i += 1;
    }
    false
}

} // verus!
