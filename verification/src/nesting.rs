//! How deep the elements of an XML text lie in one another, told before it is parsed.
use vstd::prelude::*;
use vstd::string::*;

use crate::scan::{find_text, found_from, matches_at, text_at};
use crate::text::to_chars;

verus! {

/// The most start tags that may be open at once in a text that is parsed. A parser that
/// goes one level deeper for each of them stays well within the stack of a thread.
pub const MAX_NESTING: usize = 256;

/// The place after the first `p` at or after `i`; the end if there is none.
pub open spec fn past(s: Seq<char>, p: Seq<char>, i: int) -> int {
    match found_from(s, p, i) {
        Some(j) => j + p.len(),
        None => s.len() as int,
    }
}

/// The place of the `>` that ends a tag, at or after `i`; the end if there is none. A `>`
/// in quotes does not count; `quote` is the mark that ends the quotes at `i`, if `i` lies
/// in some.
pub open spec fn tag_end(s: Seq<char>, i: int, quote: Option<char>) -> int
    decreases s.len() - i,
{
    if i >= s.len() {
        s.len() as int
    } else {
        match quote {
            Some(q) => tag_end(
                s,
                i + 1,
                if s[i] == q {
                    None
                } else {
                    quote
                },
            ),
            None => if s[i] == '>' {
                i
            } else if s[i] == '"' || s[i] == '\'' {
                tag_end(s, i + 1, Some(s[i]))
            } else {
                tag_end(s, i + 1, None)
            },
        }
    }
}

/// The larger of two numbers.
pub open spec fn larger(a: nat, b: nat) -> nat {
    if a > b {
        a
    } else {
        b
    }
}

/// The largest number of start tags that are open at once from place `i` on, where so many
/// are open already. Comments, CDATA sections and processing instructions hold no tags. A
/// tag that ends in `/>` is open while it is read. No document goes on after another `<!`.
pub open spec fn nesting_from(s: Seq<char>, i: int, open: nat) -> nat
    decreases s.len() - i,
{
    proof {
        past_is_later(s, "-->"@, i + 4);
        past_is_later(s, "]]>"@, i + 9);
        past_is_later(s, "?>"@, i + 2);
        tag_end_is_later(s, i + 1, None);
    }
    if i >= s.len() {
        open
    } else if s[i] != '<' {
        nesting_from(s, i + 1, open)
    } else if matches_at(s, "<!--"@, i) {
        nesting_from(s, past(s, "-->"@, i + 4), open)
    } else if matches_at(s, "<![CDATA["@, i) {
        nesting_from(s, past(s, "]]>"@, i + 9), open)
    } else if matches_at(s, "<!"@, i) {
        open
    } else if matches_at(s, "<?"@, i) {
        nesting_from(s, past(s, "?>"@, i + 2), open)
    } else if matches_at(s, "</"@, i) {
        nesting_from(
            s,
            i + 1,
            if open > 0 {
                (open - 1) as nat
            } else {
                0
            },
        )
    } else {
        let end = tag_end(s, i + 1, None);
        if end >= s.len() {
            open + 1
        } else {
            larger(
                open + 1,
                nesting_from(
                    s,
                    end + 1,
                    if s[end - 1] == '/' {
                        open
                    } else {
                        open + 1
                    },
                ),
            )
        }
    }
}

/// The largest number of start tags of an XML text that are open at once.
pub open spec fn nesting(text: Seq<char>) -> nat {
    nesting_from(text, 0, 0)
}

proof fn found_is_later(s: Seq<char>, p: Seq<char>, i: int)
    ensures
        found_from(s, p, i) matches Some(j) ==> i <= j <= s.len() - p.len(),
    decreases s.len() + 1 - i,
{
    if i + p.len() <= s.len() && !matches_at(s, p, i) {
        found_is_later(s, p, i + 1);
    }
}

/// What is passed over lies before the place after it.
pub proof fn past_is_later(s: Seq<char>, p: Seq<char>, i: int)
    ensures
        i <= past(s, p, i) || past(s, p, i) == s.len(),
        past(s, p, i) <= s.len(),
{
    found_is_later(s, p, i);
}

/// A tag ends after it begins.
pub proof fn tag_end_is_later(s: Seq<char>, i: int, quote: Option<char>)
    ensures
        tag_end(s, i, quote) >= i || tag_end(s, i, quote) == s.len(),
        i <= s.len() ==> i <= tag_end(s, i, quote) <= s.len(),
    decreases s.len() - i,
{
    if i < s.len() {
        let next = match quote {
            Some(q) => if s[i] == q {
                None
            } else {
                quote
            },
            None => if s[i] == '"' || s[i] == '\'' {
                Some(s[i])
            } else {
                None
            },
        };
        tag_end_is_later(s, i + 1, next);
    }
}

fn find_tag_end(v: &Vec<char>, from: usize) -> (r: usize)
    requires
        from <= v@.len(),
    ensures
        r == tag_end(v@, from as int, None),
        from <= r <= v@.len(),
{
    let mut i: usize = from;
    let mut quote: Option<char> = None;
    while i < v.len()
        invariant
            from <= i <= v@.len(),
            tag_end(v@, from as int, None) == tag_end(v@, i as int, quote),
        decreases v@.len() - i,
    {
        let c: char = v[i];
        match quote {
            Some(q) => {
                if c == q {
                    quote = None;
                }
            },
            None => {
                if c == '>' {
                    return i;
                }
                if c == '"' || c == '\'' {
                    quote = Some(c);
                }
            },
        }
        i += 1;
    }
    i
}

fn find_past(v: &Vec<char>, p: &Vec<char>, from: usize) -> (r: usize)
    requires
        from <= v@.len(),
    ensures
        r == past(v@, p@, from as int),
        from <= r <= v@.len(),
{
    let n: usize = v.len();
    match find_text(v, p, from) {
        Some(i) => {
            assert(i + p@.len() <= n);
            i + p.len()
        },
        None => n,
    }
}

/// The largest number of start tags of an XML text that are open at once.
pub fn deepest_nesting(text: &str) -> (r: usize)
    ensures
        r == nesting(text@),
{
    let v: Vec<char> = to_chars(text);
    let comment: Vec<char> = to_chars("<!--");
    let comment_end: Vec<char> = to_chars("-->");
    let cdata: Vec<char> = to_chars("<![CDATA[");
    let cdata_end: Vec<char> = to_chars("]]>");
    let declaration: Vec<char> = to_chars("<!");
    let instruction: Vec<char> = to_chars("<?");
    let instruction_end: Vec<char> = to_chars("?>");
    let closing: Vec<char> = to_chars("</");
    proof {
        reveal_strlit("<!--");
        reveal_strlit("<![CDATA[");
        reveal_strlit("<!");
        reveal_strlit("<?");
        reveal_strlit("</");
    }
    let mut i: usize = 0;
    let mut open: usize = 0;
    let mut deepest: usize = 0;
    while i < v.len()
        invariant_except_break
            nesting(v@) == larger(deepest as nat, nesting_from(v@, i as int, open as nat)),
        invariant
            i <= v@.len(),
            open <= i,
            open <= deepest <= v@.len(),
            comment@ == "<!--"@,
            comment@.len() == 4,
            comment_end@ == "-->"@,
            cdata@ == "<![CDATA["@,
            cdata@.len() == 9,
            cdata_end@ == "]]>"@,
            declaration@ == "<!"@,
            declaration@.len() == 2,
            instruction@ == "<?"@,
            instruction@.len() == 2,
            instruction_end@ == "?>"@,
            closing@ == "</"@,
            closing@.len() == 2,
        ensures
            nesting(v@) == deepest,
        decreases v@.len() - i,
    {
        if v[i] != '<' {
            i += 1;
        } else if text_at(&v, &comment, i) {
            i = find_past(&v, &comment_end, i + 4);
        } else if text_at(&v, &cdata, i) {
            i = find_past(&v, &cdata_end, i + 9);
        } else if text_at(&v, &declaration, i) {
            break;
        } else if text_at(&v, &instruction, i) {
            i = find_past(&v, &instruction_end, i + 2);
        } else if text_at(&v, &closing, i) {
            if open > 0 {
                open -= 1;
            }
            i += 1;
        } else {
            let end: usize = find_tag_end(&v, i + 1);
            if open + 1 > deepest {
                deepest = open + 1;
            }
            if end == v.len() {
                break;
            }
            if v[end - 1] != '/' {
                open += 1;
            }
            i = end + 1;
        }
    }
    deepest
}

} // verus!
