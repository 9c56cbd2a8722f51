//! Whitespace minification of HTML text, line by line.
use vstd::prelude::*;
use crate::text::chars_of;

verus! {

broadcast use vstd::string::group_string_axioms;

/// Unicode's `White_Space` property, the set that `char::is_whitespace`
/// tests and `str::trim` strips.
pub open spec fn is_white_space(c: char) -> bool {
    let u = c as u32;
    (0x9 <= u <= 0xD) || u == 0x20 || u == 0x85 || u == 0xA0 || u == 0x1680 || (0x2000 <= u
        <= 0x200A) || u == 0x2028 || u == 0x2029 || u == 0x202F || u == 0x205F || u == 0x3000
}

/// Whether `c` is white space.
pub fn is_white_space_char(c: char) -> (r: bool)
    ensures
        r == is_white_space(c),
{
    let u = c as u32;
    (0x9 <= u && u <= 0xD) || u == 0x20 || u == 0x85 || u == 0xA0 || u == 0x1680 || (0x2000 <= u
        && u <= 0x200A) || u == 0x2028 || u == 0x2029 || u == 0x202F || u == 0x205F || u == 0x3000
}

/// The end of the line of `s` that starts at `i`: the next line feed, or
/// the end of `s`.
pub open spec fn line_end(s: Seq<char>, i: int) -> int
    decreases s.len() - i,
{
    if i >= s.len() {
        s.len() as int
    } else if s[i] == '\n' {
        i
    } else {
        line_end(s, i + 1)
    }
}

/// The first index in `[i, j)` whose character is not white space, or `j`.
pub open spec fn trim_start(s: Seq<char>, i: int, j: int) -> int
    decreases j - i,
{
    if i >= j {
        j
    } else if is_white_space(s[i]) {
        trim_start(s, i + 1, j)
    } else {
        i
    }
}

/// One past the last index in `[a, j)` whose character is not white space,
/// or `a`.
pub open spec fn trim_end(s: Seq<char>, a: int, j: int) -> int
    decreases j - a,
{
    if j <= a {
        a
    } else if is_white_space(s[j - 1]) {
        trim_end(s, a, j - 1)
    } else {
        j
    }
}

/// The line of `s` in `[i, j)` without white space at either end.
pub open spec fn trimmed(s: Seq<char>, i: int, j: int) -> Seq<char> {
    let a = trim_start(s, i, j);
    s.subrange(a, trim_end(s, a, j))
}

/// The state of the minifier between two lines.
pub ghost struct MinifyState {
    /// Inside a script element.
    pub in_script: bool,
    /// The text produced so far.
    pub out: Seq<char>,
    /// The script lines held back until the script element closes.
    pub script: Seq<char>,
}

pub open spec fn starts_script(t: Seq<char>) -> bool {
    t.len() >= 7 && t.subrange(0, 7) == "<script"@
}

pub open spec fn ends_script(t: Seq<char>) -> bool {
    t.len() >= 9 && t.subrange(t.len() - 9, t.len() as int) == "</script>"@
}

/// The minifier's state after the trimmed line `t`: a line that opens a
/// script element is kept and starts holding lines back; a line that closes
/// one lets the held lines out, then itself; a line inside a script element
/// is held back; any other line is kept.
pub open spec fn minify_step(st: MinifyState, t: Seq<char>) -> MinifyState {
    if starts_script(t) {
        MinifyState { in_script: true, out: st.out + t, script: st.script }
    } else if ends_script(t) {
        MinifyState { in_script: false, out: st.out + st.script + t, script: Seq::empty() }
    } else if st.in_script {
        MinifyState { script: st.script + t, ..st }
    } else {
        MinifyState { out: st.out + t, ..st }
    }
}

/// The minifier's state after the lines of `s` from index `i` on.
pub open spec fn minify_from(s: Seq<char>, i: int, st: MinifyState) -> MinifyState
    decreases s.len() + 1 - i,
{
    if i >= s.len() || i < 0 {
        st
    } else {
        let j = line_end(s, i);
        if j < i || j > s.len() {
            st
        } else {
            minify_from(s, j + 1, minify_step(st, trimmed(s, i, j)))
        }
    }
}

/// The minified text of `s`: its lines trimmed and joined with nothing
/// between them. Script lines are held back until the line that closes
/// their element, and lines of a script element left open are dropped.
pub open spec fn minified(s: Seq<char>) -> Seq<char> {
    minify_from(
        s,
        0,
        MinifyState { in_script: false, out: Seq::empty(), script: Seq::empty() },
    ).out
}

proof fn lemma_line_end_bounds(s: Seq<char>, i: int)
    requires
        0 <= i <= s.len(),
    ensures
        i <= line_end(s, i) <= s.len(),
    decreases s.len() - i,
{
    if i < s.len() && s[i] != '\n' {
        lemma_line_end_bounds(s, i + 1);
    }
}

proof fn lemma_trim_start_bounds(s: Seq<char>, i: int, j: int)
    requires
        i <= j,
    ensures
        i <= trim_start(s, i, j) <= j,
    decreases j - i,
{
    if i < j && is_white_space(s[i]) {
        lemma_trim_start_bounds(s, i + 1, j);
    }
}

proof fn lemma_trim_end_bounds(s: Seq<char>, a: int, j: int)
    requires
        a <= j,
    ensures
        a <= trim_end(s, a, j) <= j,
    decreases j - a,
{
    if a < j && is_white_space(s[j - 1]) {
        lemma_trim_end_bounds(s, a, j - 1);
    }
}

/// Whether `x[from..to)` begins with `p`.
fn has_prefix(x: &Vec<char>, from: usize, to: usize, p: &Vec<char>) -> (r: bool)
    requires
        from <= to <= x@.len(),
    ensures
        r == (to - from >= p@.len() && x@.subrange(from as int, from + p@.len()) == p@),
{
    if to - from < p.len() {
        return false;
    }
    let mut k: usize = 0;
    while k < p.len()
        invariant
            from <= to <= x@.len(),
            to - from >= p@.len(),
            k <= p@.len(),
            x@.subrange(from as int, from + k) == p@.subrange(0, k as int),
        decreases p@.len() - k,
    {
        if x[from + k] != p[k] {
            assert(x@.subrange(from as int, from + p@.len())[k as int] != p@[k as int]);
            return false;
        }
        assert(x@.subrange(from as int, from + k + 1) =~= x@.subrange(from as int, from + k).push(
            x@[from + k],
        ));
        assert(p@.subrange(0, k + 1) =~= p@.subrange(0, k as int).push(p@[k as int]));
        k = k + 1;
    }
    assert(p@.subrange(0, k as int) =~= p@);
    true
}

/// Whether `x[from..to)` ends with `p`.
fn has_suffix(x: &Vec<char>, from: usize, to: usize, p: &Vec<char>) -> (r: bool)
    requires
        from <= to <= x@.len(),
    ensures
        r == (to - from >= p@.len() && x@.subrange(to - p@.len(), to as int) == p@),
{
    if to - from < p.len() {
        return false;
    }
    has_prefix(x, to - p.len(), to, p)
}

/// Removes the white space at both ends of each line and joins the lines.
/// The lines of a script element are held back and let out together with
/// the line that closes it.
pub fn minify_html(html: &str) -> (r: String)
    ensures
        r@ == minified(html@),
{
    let s = chars_of(html);
    let open_tag = chars_of("<script");
    let close_tag = chars_of("</script>");
    proof {
        reveal_strlit("<script");
        reveal_strlit("</script>");
    }
    let ghost init = MinifyState { in_script: false, out: Seq::empty(), script: Seq::empty() };
    let mut in_script = false;
    let mut result = String::new();
    let mut script_content = String::new();
    let mut i: usize = 0;
    while i < s.len()
        invariant
            s@ == html@,
            open_tag@ == "<script"@,
            close_tag@ == "</script>"@,
            open_tag@.len() == 7,
            close_tag@.len() == 9,
            i <= s@.len(),
            minify_from(s@, 0, init) == minify_from(
                s@,
                i as int,
                MinifyState { in_script, out: result@, script: script_content@ },
            ),
        decreases s@.len() - i,
    {
        let ghost st = MinifyState { in_script, out: result@, script: script_content@ };
        let mut j: usize = i;
        while j < s.len() && s[j] != '\n'
            invariant
                i <= j <= s@.len(),
                line_end(s@, i as int) == line_end(s@, j as int),
            decreases s@.len() - j,
        {
            j = j + 1;
        }
        let mut a: usize = i;
        while a < j && is_white_space_char(s[a])
            invariant
                i <= a <= j <= s@.len(),
                trim_start(s@, i as int, j as int) == trim_start(s@, a as int, j as int),
            decreases j - a,
        {
            a = a + 1;
        }
        let mut b: usize = j;
        while b > a && is_white_space_char(s[b - 1])
            invariant
                a <= b <= j <= s@.len(),
                trim_end(s@, a as int, j as int) == trim_end(s@, a as int, b as int),
            decreases b - a,
        {
            b = b - 1;
        }
        proof {
            lemma_line_end_bounds(s@, i as int);
            lemma_trim_start_bounds(s@, i as int, j as int);
            lemma_trim_end_bounds(s@, a as int, j as int);
        }
        let ghost t = trimmed(s@, i as int, j as int);
        assert(t == s@.subrange(a as int, b as int));
        let line = html.substring_char(a, b);
        if has_prefix(&s, a, b, &open_tag) {
            assert(starts_script(t)) by {
                assert(t.subrange(0, 7) =~= s@.subrange(a as int, a + 7));
            }
            in_script = true;
            result.append(line);
        } else if has_suffix(&s, a, b, &close_tag) {
            assert(!starts_script(t)) by {
                if t.len() >= 7 {
                    assert(t.subrange(0, 7) =~= s@.subrange(a as int, a + 7));
                }
            }
            assert(ends_script(t)) by {
                assert(t.subrange(t.len() - 9, t.len() as int) =~= s@.subrange(b - 9, b as int));
            }
            in_script = false;
            result.append(script_content.as_str());
            script_content = String::new();
            result.append(line);
        } else {
            assert(!starts_script(t)) by {
                if t.len() >= 7 {
                    assert(t.subrange(0, 7) =~= s@.subrange(a as int, a + 7));
                }
            }
            assert(!ends_script(t)) by {
                if t.len() >= 9 {
                    assert(t.subrange(t.len() - 9, t.len() as int) =~= s@.subrange(
                        b - 9,
                        b as int,
                    ));
                }
            }
            if in_script {
                script_content.append(line);
            } else {
                result.append(line);
            }
        }
        assert(MinifyState { in_script, out: result@, script: script_content@ } == minify_step(
            st,
            t,
        ));
        proof {
            assert(line_end(s@, j as int) == j);
            assert(minify_from(s@, i as int, st) == minify_from(s@, j + 1, minify_step(st, t)));
        }
        if j == s.len() {
            i = j;
        } else {
            i = j + 1;
        }
    }
    result
}

} // verus!
