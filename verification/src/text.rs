//! Verified text helpers: the character-level operations that the tool applies
//! to command lines, file names and file contents.
use vstd::prelude::*;

verus! {

/// Appends one character to a string (`String::push`).
#[verifier::external_body]
fn push_char(s: &mut String, c: char)
    ensures
        final(s)@ == old(s)@.push(c),
{
    s.push(c);
}

/// The characters of `s`, in order.
pub fn chars_of(s: &str) -> (r: Vec<char>)
    ensures
        r@ == s@,
{
    let n = s.unicode_len();
    let mut r: Vec<char> = Vec::new();
    let mut i: usize = 0;
    while i < n
        invariant
            n == s@.len(),
            i <= n,
            r@ == s@.subrange(0, i as int),
        decreases n - i,
    {
        let c = s.get_char(i);
        r.push(c);
        i = i + 1;
    }
    r
}

/// The string made of the characters of `v`, in order.
pub fn string_of(v: &Vec<char>) -> (r: String)
    ensures
        r@ == v@,
{
    let mut r = String::new();
    let mut i: usize = 0;
    while i < v.len()
        invariant
            i <= v.len(),
            r@ == v@.subrange(0, i as int),
        decreases v.len() - i,
    {
        push_char(&mut r, v[i]);
        i = i + 1;
    }
    r
}


/// Rust's `char::is_whitespace`: the characters with the Unicode
/// `White_Space` property.
pub open spec fn is_white_space(c: char) -> bool {
    let x = c as u32;
    ||| (9 <= x && x <= 13)
    ||| x == 32
    ||| x == 0x85
    ||| x == 0xa0
    ||| x == 0x1680
    ||| (0x2000 <= x && x <= 0x200a)
    ||| x == 0x2028
    ||| x == 0x2029
    ||| x == 0x202f
    ||| x == 0x205f
    ||| x == 0x3000
}

/// Whether `c` is a white-space character.
pub fn is_whitespace(c: char) -> (r: bool)
    ensures
        r == is_white_space(c),
{
    let x = c as u32;
    (9 <= x && x <= 13) || x == 32 || x == 0x85 || x == 0xa0 || x == 0x1680 || (0x2000 <= x
        && x <= 0x200a) || x == 0x2028 || x == 0x2029 || x == 0x202f || x == 0x205f || x
        == 0x3000
}

/// `s` without its leading white space.
pub open spec fn trim_start(s: Seq<char>) -> Seq<char>
    decreases s.len(),
{
    if s.len() > 0 && is_white_space(s[0]) {
        trim_start(s.drop_first())
    } else {
        s
    }
}

/// `s` without its trailing white space.
pub open spec fn trim_end(s: Seq<char>) -> Seq<char>
    decreases s.len(),
{
    if s.len() > 0 && is_white_space(s.last()) {
        trim_end(s.drop_last())
    } else {
        s
    }
}

/// `s` without leading and trailing white space (`str::trim`).
pub open spec fn trimmed(s: Seq<char>) -> Seq<char> {
    trim_end(trim_start(s))
}

/// `s` with every occurrence of `c` removed.
pub open spec fn without(s: Seq<char>, c: char) -> Seq<char>
    decreases s.len(),
{
    if s.len() == 0 {
        s
    } else if s.last() == c {
        without(s.drop_last(), c)
    } else {
        without(s.drop_last(), c).push(s.last())
    }
}

/// `p` occurs in `s` starting at index `i`.
pub open spec fn occurs_at(s: Seq<char>, p: Seq<char>, i: int) -> bool {
    0 <= i && i + p.len() <= s.len() && s.subrange(i, i + p.len()) == p
}

/// `p` occurs somewhere in `s` (`str::contains`).
pub open spec fn occurs_in(s: Seq<char>, p: Seq<char>) -> bool {
    exists|i: int| occurs_at(s, p, i)
}

/// `s` ends with `p` (`str::ends_with`).
pub open spec fn has_suffix(s: Seq<char>, p: Seq<char>) -> bool {
    p.len() <= s.len() && s.subrange(s.len() - p.len(), s.len() as int) == p
}

/// `to` put before, between and after the characters of `s`: what
/// `str::replace` gives for an empty pattern.
pub open spec fn interleaved(s: Seq<char>, to: Seq<char>) -> Seq<char>
    decreases s.len(),
{
    if s.len() == 0 {
        to
    } else {
        to + seq![s[0]] + interleaved(s.drop_first(), to)
    }
}

/// `str::replace(s, from, to)`: the occurrences of `from` in `s`, taken from
/// the left without overlap, each replaced by `to`.
pub open spec fn replaced(s: Seq<char>, from: Seq<char>, to: Seq<char>) -> Seq<char>
    decreases s.len(),
{
    if from.len() == 0 {
        interleaved(s, to)
    } else if s.len() < from.len() {
        s
    } else if s.subrange(0, from.len() as int) == from {
        to + replaced(s.subrange(from.len() as int, s.len() as int), from, to)
    } else {
        seq![s[0]] + replaced(s.drop_first(), from, to)
    }
}

/// The pieces of `s` between occurrences of `sep` (`str::split` on one
/// character); there is always at least one piece.
pub open spec fn split_on(s: Seq<char>, sep: char) -> Seq<Seq<char>>
    decreases s.len(),
{
    if s.len() == 0 {
        seq![Seq::<char>::empty()]
    } else {
        let prev = split_on(s.drop_last(), sep);
        if s.last() == sep {
            prev.push(Seq::<char>::empty())
        } else {
            prev.update(prev.len() - 1, prev.last().push(s.last()))
        }
    }
}

/// There is always at least one piece.
pub proof fn lemma_split_on_nonempty(s: Seq<char>, sep: char)
    ensures
        split_on(s, sep).len() >= 1,
    decreases s.len(),
{
    if s.len() > 0 {
        lemma_split_on_nonempty(s.drop_last(), sep);
    }
}

fn trim_chars(v: &Vec<char>) -> (r: Vec<char>)
    ensures
        r@ == trimmed(v@),
{
    let n = v.len();
    let mut start: usize = 0;
    assert(v@.subrange(0, n as int) =~= v@);
    while start < n && is_whitespace(v[start])
        invariant
            n == v@.len(),
            start <= n,
            trim_start(v@) == trim_start(v@.subrange(start as int, n as int)),
        decreases n - start,
    {
        assert(v@.subrange(start as int, n as int).drop_first() =~= v@.subrange(
            start + 1,
            n as int,
        ));
        start = start + 1;
    }
    let ghost mid = v@.subrange(start as int, n as int);
    assert(trim_start(v@) == mid);
    let mut end: usize = n;
    while end > start && is_whitespace(v[end - 1])
        invariant
            n == v@.len(),
            start <= end <= n,
            mid == v@.subrange(start as int, n as int),
            trim_end(mid) == trim_end(v@.subrange(start as int, end as int)),
        decreases end - start,
    {
        assert(v@.subrange(start as int, end as int).drop_last() =~= v@.subrange(
            start as int,
            end - 1,
        ));
        end = end - 1;
    }
    let mut r: Vec<char> = Vec::new();
    let mut i: usize = start;
    while i < end
        invariant
            start <= i <= end <= n,
            n == v@.len(),
            r@ == v@.subrange(start as int, i as int),
        decreases end - i,
    {
        r.push(v[i]);
        i = i + 1;
    }
    r
}

/// `s` without leading and trailing white space (`str::trim`).
pub fn trim(s: &str) -> (r: String)
    ensures
        r@ == trimmed(s@),
{
    let v = chars_of(s);
    let t = trim_chars(&v);
    string_of(&t)
}

/// `s` with every occurrence of the character `c` removed
/// (`str::replace` with a one-character pattern and an empty replacement).
pub fn remove_char(s: &str, c: char) -> (r: String)
    ensures
        r@ == without(s@, c),
{
    let v = chars_of(s);
    let mut out: Vec<char> = Vec::new();
    let mut i: usize = 0;
    while i < v.len()
        invariant
            i <= v.len(),
            v@ == s@,
            out@ == without(v@.subrange(0, i as int), c),
        decreases v.len() - i,
    {
        assert(v@.subrange(0, i + 1).drop_last() =~= v@.subrange(0, i as int));
        if v[i] != c {
            out.push(v[i]);
        }
        i = i + 1;
    }
    assert(v@.subrange(0, v.len() as int) =~= v@);
    string_of(&out)
}

/// Whether `p` occurs in `v` at index `i`.
fn occurs_at_exec(v: &Vec<char>, p: &Vec<char>, i: usize) -> (r: bool)
    ensures
        r == occurs_at(v@, p@, i as int),
{
    if i > v.len() || p.len() > v.len() - i {
        return false;
    }
    let mut j: usize = 0;
    while j < p.len()
        invariant
            i + p.len() <= v.len(),
            j <= p.len(),
            v@.subrange(i as int, i + j) == p@.subrange(0, j as int),
        decreases p.len() - j,
    {
        if v[i + j] != p[j] {
            assert(v@.subrange(i as int, i + p.len())[j as int] != p@[j as int]);
            return false;
        }
        assert(v@.subrange(i as int, i + j + 1) =~= v@.subrange(i as int, i + j).push(v@[i + j]));
        assert(p@.subrange(0, j + 1) =~= p@.subrange(0, j as int).push(p@[j as int]));
        j = j + 1;
    }
    assert(p@.subrange(0, p.len() as int) =~= p@);
    true
}

/// Whether `p` occurs in `s` (`str::contains`).
pub fn contains(s: &str, p: &str) -> (r: bool)
    ensures
        r == occurs_in(s@, p@),
{
    let v = chars_of(s);
    let w = chars_of(p);
    let mut i: usize = 0;
    while i < v.len()
        invariant
            v@ == s@,
            w@ == p@,
            i <= v.len(),
            forall|k: int| 0 <= k < i ==> !occurs_at(s@, p@, k),
        decreases v.len() - i,
    {
        if occurs_at_exec(&v, &w, i) {
            return true;
        }
        i = i + 1;
    }
    if occurs_at_exec(&v, &w, i) {
        return true;
    }
    assert forall|k: int| !occurs_at(s@, p@, k) by {
        if 0 <= k && k > i {
            assert(k + p@.len() > s@.len());
        }
    }
    false
}

/// Whether `s` ends with `p` (`str::ends_with`).
pub fn ends_with(s: &str, p: &str) -> (r: bool)
    ensures
        r == has_suffix(s@, p@),
{
    let v = chars_of(s);
    let w = chars_of(p);
    if w.len() > v.len() {
        return false;
    }
    occurs_at_exec(&v, &w, v.len() - w.len())
}

/// Whether `a` and `b` hold the same characters.
pub fn same_text(a: &str, b: &str) -> (r: bool)
    ensures
        r == (a@ == b@),
{
    let v = chars_of(a);
    let w = chars_of(b);
    if v.len() != w.len() {
        return false;
    }
    let r = occurs_at_exec(&v, &w, 0);
    assert(v@.subrange(0, v@.len() as int) =~= v@);
    r
}


fn append_chars(out: &mut Vec<char>, t: &Vec<char>)
    ensures
        final(out)@ == old(out)@ + t@,
{
    let mut j: usize = 0;
    while j < t.len()
        invariant
            j <= t.len(),
            out@ == old(out)@ + t@.subrange(0, j as int),
        decreases t.len() - j,
    {
        out.push(t[j]);
        assert(t@.subrange(0, j + 1) =~= t@.subrange(0, j as int).push(t@[j as int]));
        j = j + 1;
    }
    assert(t@.subrange(0, t.len() as int) =~= t@);
}

/// `s` with the occurrences of `from` replaced by `to` (`str::replace`).
pub fn replace_all(s: &str, from: &str, to: &str) -> (r: String)
    ensures
        r@ == replaced(s@, from@, to@),
{
    let v = chars_of(s);
    let f = chars_of(from);
    let t = chars_of(to);
    let n = v.len();
    let mut out: Vec<char> = Vec::new();
    let mut i: usize = 0;
    assert(v@.subrange(0, n as int) =~= v@);
    if f.len() == 0 {
        while i < n
            invariant
                n == v@.len(),
                i <= n,
                f@.len() == 0,
                interleaved(v@, t@) == out@ + interleaved(v@.subrange(i as int, n as int), t@),
            decreases n - i,
        {
            let ghost rest = v@.subrange(i as int, n as int);
            assert(rest.drop_first() =~= v@.subrange(i + 1, n as int));
            append_chars(&mut out, &t);
            out.push(v[i]);
            i = i + 1;
        }
        append_chars(&mut out, &t);
        assert(v@.subrange(n as int, n as int) =~= Seq::<char>::empty());
    } else {
        while i < n
            invariant
                n == v@.len(),
                i <= n,
                f@.len() > 0,
                replaced(v@, f@, t@) == out@ + replaced(
                    v@.subrange(i as int, n as int),
                    f@,
                    t@,
                ),
            decreases n - i,
        {
            let ghost rest = v@.subrange(i as int, n as int);
            if occurs_at_exec(&v, &f, i) {
                assert(rest.subrange(0, f@.len() as int) =~= v@.subrange(i as int, i + f@.len()));
                assert(rest.subrange(f@.len() as int, rest.len() as int) =~= v@.subrange(
                    i + f@.len(),
                    n as int,
                ));
                append_chars(&mut out, &t);
                i = i + f.len();
            } else {
                proof {
                    assert(rest.drop_first() =~= v@.subrange(i + 1, n as int));
                    if rest.len() >= f@.len() {
                        assert(rest.subrange(0, f@.len() as int) =~= v@.subrange(
                            i as int,
                            i + f@.len(),
                        ));
                    } else {
                        assert(rest =~= seq![v@[i as int]] + rest.drop_first());
                    }
                }
                out.push(v[i]);
                i = i + 1;
            }
        }
        assert(v@.subrange(n as int, n as int) =~= Seq::<char>::empty());
    }
    string_of(&out)
}

/// The pieces of `s` between occurrences of the character `sep`
/// (`str::split` with a one-character pattern).
pub fn split_at_char(s: &str, sep: char) -> (r: Vec<String>)
    ensures
        r@.map_values(|p: String| p@) == split_on(s@, sep),
{
    let v = chars_of(s);
    let n = v.len();
    let mut pieces: Vec<String> = Vec::new();
    let mut cur: Vec<char> = Vec::new();
    let mut i: usize = 0;
    while i < n
        invariant
            n == v@.len(),
            v@ == s@,
            i <= n,
            split_on(v@.subrange(0, i as int), sep) == pieces@.map_values(|p: String| p@).push(
                cur@,
            ),
        decreases n - i,
    {
        let ghost pre = v@.subrange(0, i + 1);
        let ghost old_map = pieces@.map_values(|p: String| p@);
        let ghost old_cur = cur@;
        assert(pre.drop_last() =~= v@.subrange(0, i as int));
        if v[i] == sep {
            let p = string_of(&cur);
            pieces.push(p);
            cur = Vec::new();
            assert(pieces@.map_values(|p: String| p@) =~= old_map.push(old_cur));
        } else {
            cur.push(v[i]);
            assert(old_map.push(old_cur).update(old_map.len() as int, old_cur.push(v@[i as int]))
                =~= old_map.push(cur@));
        }
        i = i + 1;
    }
    let ghost old_map = pieces@.map_values(|p: String| p@);
    let p = string_of(&cur);
    pieces.push(p);
    assert(pieces@.map_values(|p: String| p@) =~= old_map.push(cur@));
    assert(v@.subrange(0, n as int) =~= v@);
    pieces
}


/// The upper-case form of a text under the Unicode case mapping, as
/// `str::to_uppercase` computes it.
pub uninterp spec fn upper_case(s: Seq<char>) -> Seq<char>;

/// `str::to_uppercase`.  Its result is named by `upper_case`: a function of
/// the text alone (the Unicode tables), which this crate does not spell out.
#[verifier::external_body]
pub(crate) fn to_upper(s: &str) -> (r: String)
    ensures
        r@ == upper_case(s@),
{
    s.to_uppercase()
}

/// The text that `{:?}` (`Debug` for `str`) writes for a text: the text in
/// double quotes, with quotes, backslashes and the characters that cannot be
/// shown written as escapes.
pub uninterp spec fn debug_text(s: Seq<char>) -> Seq<char>;

/// `format!("{:?}", s)` on a text.  Which characters are escaped, and how,
/// follows the Unicode tables of std; the result is named by `debug_text`, a
/// function of the text alone, and is not spelled out here.
#[verifier::external_body]
pub(crate) fn debug_quote(s: &str) -> (r: String)
    ensures
        r@ == debug_text(s@),
{
    format!("{:?}", s)
}

/// The path that `std::path::Path::join` builds from `base` and `part`.
pub uninterp spec fn joined_path(base: Seq<char>, part: Seq<char>) -> Seq<char>;

/// `std::path::Path::join`, read back as text.  Joining two UTF-8 paths gives
/// a UTF-8 path, so the text is the path itself.  What the joined path is
/// (separator, absolute `part`) is named by `joined_path` and not spelled out.
#[verifier::external_body]
pub(crate) fn join_path(base: &str, part: &str) -> (r: String)
    ensures
        r@ == joined_path(base@, part@),
{
    std::path::Path::new(base).join(part).to_string_lossy().into_owned()
}

/// Removing a character leaves none of it.
pub proof fn lemma_without_removes(s: Seq<char>, c: char)
    ensures
        forall|i: int| 0 <= i < without(s, c).len() ==> without(s, c)[i] != c,
    decreases s.len(),
{
    if s.len() > 0 {
        lemma_without_removes(s.drop_last(), c);
        let w = without(s.drop_last(), c);
        if s.last() != c {
            assert forall|i: int| 0 <= i < without(s, c).len() implies without(s, c)[i] != c by {
                if i < w.len() {
                    assert(w.push(s.last())[i] == w[i]);
                }
            }
        }
    }
}

/// Removing a character adds no other character.
pub proof fn lemma_without_keeps_absent(s: Seq<char>, c: char, d: char)
    requires
        forall|i: int| 0 <= i < s.len() ==> s[i] != d,
    ensures
        forall|i: int| 0 <= i < without(s, c).len() ==> without(s, c)[i] != d,
    decreases s.len(),
{
    if s.len() > 0 {
        assert(s.last() == s[s.len() - 1]);
        assert forall|i: int| 0 <= i < s.drop_last().len() implies s.drop_last()[i] != d by {
            assert(s.drop_last()[i] == s[i]);
        }
        lemma_without_keeps_absent(s.drop_last(), c, d);
        let w = without(s.drop_last(), c);
        if s.last() != c {
            assert forall|i: int| 0 <= i < without(s, c).len() implies without(s, c)[i] != d by {
                if i < w.len() {
                    assert(w.push(s.last())[i] == w[i]);
                }
            }
        }
    }
}

/// Trimming adds no character.
pub proof fn lemma_trimmed_keeps_absent(s: Seq<char>, d: char)
    requires
        forall|i: int| 0 <= i < s.len() ==> s[i] != d,
    ensures
        forall|i: int| 0 <= i < trimmed(s).len() ==> trimmed(s)[i] != d,
{
    lemma_trim_start_is_suffix(s);
    let t = trim_start(s);
    lemma_trim_end_is_prefix(t);
}

/// Trimming the start leaves a suffix.
pub proof fn lemma_trim_start_is_suffix(s: Seq<char>)
    ensures
        trim_start(s).len() <= s.len(),
        trim_start(s) == s.subrange(s.len() - trim_start(s).len(), s.len() as int),
    decreases s.len(),
{
    if s.len() > 0 && is_white_space(s[0]) {
        lemma_trim_start_is_suffix(s.drop_first());
        assert(s.drop_first().subrange(
            s.drop_first().len() - trim_start(s).len(),
            s.drop_first().len() as int,
        ) =~= s.subrange(s.len() - trim_start(s).len(), s.len() as int));
    } else {
        assert(s.subrange(0, s.len() as int) =~= s);
    }
}

/// Trimming the end leaves a prefix.
pub proof fn lemma_trim_end_is_prefix(s: Seq<char>)
    ensures
        trim_end(s).len() <= s.len(),
        trim_end(s) == s.subrange(0, trim_end(s).len() as int),
    decreases s.len(),
{
    if s.len() > 0 && is_white_space(s.last()) {
        lemma_trim_end_is_prefix(s.drop_last());
        assert(s.drop_last().subrange(0, trim_end(s).len() as int) =~= s.subrange(
            0,
            trim_end(s).len() as int,
        ));
    } else {
        assert(s.subrange(0, s.len() as int) =~= s);
    }
}

/// A trimmed text neither starts nor ends with white space.
pub proof fn lemma_trimmed_edges(s: Seq<char>)
    ensures
        trimmed(s).len() > 0 ==> !is_white_space(trimmed(s)[0]) && !is_white_space(
            trimmed(s).last(),
        ),
{
    lemma_trim_start_edge(s);
    let t = trim_start(s);
    lemma_trim_end_edge(t);
    lemma_trim_end_is_prefix(t);
}

proof fn lemma_trim_start_edge(s: Seq<char>)
    ensures
        trim_start(s).len() > 0 ==> !is_white_space(trim_start(s)[0]),
    decreases s.len(),
{
    if s.len() > 0 && is_white_space(s[0]) {
        lemma_trim_start_edge(s.drop_first());
    }
}

proof fn lemma_trim_end_edge(s: Seq<char>)
    ensures
        trim_end(s).len() > 0 ==> !is_white_space(trim_end(s).last()),
    decreases s.len(),
{
    if s.len() > 0 && is_white_space(s.last()) {
        lemma_trim_end_edge(s.drop_last());
    }
}

/// Replacing a text that does not occur changes nothing.
pub proof fn lemma_replaced_absent(s: Seq<char>, from: Seq<char>, to: Seq<char>)
    requires
        from.len() > 0,
        !occurs_in(s, from),
    ensures
        replaced(s, from, to) == s,
    decreases s.len(),
{
    if s.len() >= from.len() {
        assert(!occurs_at(s, from, 0));
        let rest = s.drop_first();
        assert(!occurs_in(rest, from)) by {
            if exists|i: int| occurs_at(rest, from, i) {
                let i = choose|i: int| occurs_at(rest, from, i);
                assert(rest.subrange(i, i + from.len()) =~= s.subrange(i + 1, i + 1 + from.len()));
                assert(occurs_at(s, from, i + 1));
            }
        }
        lemma_replaced_absent(rest, from, to);
        assert(seq![s[0]] + rest =~= s);
    }
}

/// Replacing a text by itself changes nothing.
pub proof fn lemma_replaced_same(s: Seq<char>, from: Seq<char>)
    ensures
        replaced(s, from, from) == s,
    decreases s.len(),
{
    if from.len() == 0 {
        lemma_interleaved_empty(s, from);
    } else if s.len() >= from.len() {
        if s.subrange(0, from.len() as int) == from {
            let rest = s.subrange(from.len() as int, s.len() as int);
            lemma_replaced_same(rest, from);
            assert(from + rest =~= s);
        } else {
            lemma_replaced_same(s.drop_first(), from);
            assert(seq![s[0]] + s.drop_first() =~= s);
        }
    }
}

proof fn lemma_interleaved_empty(s: Seq<char>, to: Seq<char>)
    requires
        to.len() == 0,
    ensures
        interleaved(s, to) == s,
    decreases s.len(),
{
    if s.len() > 0 {
        lemma_interleaved_empty(s.drop_first(), to);
        assert(to + seq![s[0]] + s.drop_first() =~= s);
    }
}

} // verus!
