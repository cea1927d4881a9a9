//! Character-level string operations with exact specifications.
use vstd::prelude::*;

verus! {

/// `pat` occurs in `s` starting at position `i`.
pub open spec fn occurs_at(s: Seq<char>, pat: Seq<char>, i: int) -> bool {
    0 <= i && i + pat.len() <= s.len() && s.subrange(i, i + pat.len()) == pat
}

/// `pat` occurs somewhere in `s` (the empty pattern occurs everywhere).
pub open spec fn has_substring(s: Seq<char>, pat: Seq<char>) -> bool {
    exists|i: int| occurs_at(s, pat, i)
}

/// `s` begins with `p`.
pub open spec fn has_prefix(s: Seq<char>, p: Seq<char>) -> bool {
    p.len() <= s.len() && s.subrange(0, p.len() as int) == p
}

/// The characters of a string slice, in order.
pub fn str_chars(s: &str) -> (v: Vec<char>)
    ensures
        v@ == s@,
{
    let n = s.unicode_len();
    let mut v: Vec<char> = Vec::new();
    let mut i: usize = 0;
    while i < n
        invariant
            n == s@.len(),
            i <= n,
            v@ == s@.subrange(0, i as int),
        decreases n - i,
    {
        let c = s.get_char(i);
        v.push(c);
        i = i + 1;
        assert(v@ =~= s@.subrange(0, i as int));
    }
    assert(v@ =~= s@);
    v
}

/// Whether `pat` starts at position `i` of `s`.
fn matches_at(s: &Vec<char>, pat: &Vec<char>, i: usize) -> (b: bool)
    requires
        i + pat@.len() <= s@.len(),
    ensures
        b == occurs_at(s@, pat@, i as int),
{
    let _slen = s.len();
    let mut j: usize = 0;
    while j < pat.len()
        invariant
            i + pat@.len() <= s@.len(),
            s@.len() <= usize::MAX,
            j <= pat@.len(),
            forall|k: int| 0 <= k < j ==> s@[i + k] == pat@[k],
        decreases pat@.len() - j,
    {
        if s[i + j] != pat[j] {
            assert(s@.subrange(i as int, i + pat@.len())[j as int] != pat@[j as int]);
            return false;
        }
        j = j + 1;
    }
    assert(s@.subrange(i as int, i + pat@.len()) =~= pat@);
    true
}

/// Whether `pat` occurs in `s`.
pub fn contains_chars(s: &Vec<char>, pat: &Vec<char>) -> (b: bool)
    ensures
        b == has_substring(s@, pat@),
{
    if pat.len() > s.len() {
        return false;
    }
    let last = s.len() - pat.len();
    let mut i: usize = 0;
    loop
        invariant
            last == s@.len() - pat@.len(),
            pat@.len() <= s@.len(),
            i <= last,
            forall|k: int| 0 <= k < i ==> !occurs_at(s@, pat@, k),
        decreases last - i,
    {
        if matches_at(s, pat, i) {
            return true;
        }
        if i == last {
            assert forall|k: int| occurs_at(s@, pat@, k) implies false by {
                assert(k <= last);
            }
            return false;
        }
        i = i + 1;
    }
}

/// Whether `pat` occurs in `s` (`str::contains` with a string pattern).
pub fn contains_str(s: &str, pat: &str) -> (b: bool)
    ensures
        b == has_substring(s@, pat@),
{
    let sv = str_chars(s);
    let pv = str_chars(pat);
    contains_chars(&sv, &pv)
}

} // verus!

verus! {

/// `String::push`: appends one character at the end.
#[verifier::external_body]
pub(crate) fn push_char(s: &mut String, c: char)
    ensures
        final(s)@ == old(s)@.push(c),
{
    s.push(c);
}

/// The string whose characters are exactly `v`.
pub fn chars_to_string(v: &Vec<char>) -> (r: String)
    ensures
        r@ == v@,
{
    let mut r = String::new();
    let mut i: usize = 0;
    while i < v.len()
        invariant
            i <= v@.len(),
            r@ == v@.subrange(0, i as int),
        decreases v@.len() - i,
    {
        push_char(&mut r, v[i]);
        i = i + 1;
        assert(r@ =~= v@.subrange(0, i as int));
    }
    assert(r@ =~= v@);
    r
}

/// What `str::to_lowercase` returns for a string: Unicode lowercase mapping
/// of every character, as the standard library defines it.
pub uninterp spec fn lowercase(s: Seq<char>) -> Seq<char>;

/// `str::to_lowercase`. Its result is a function of the characters of its
/// argument alone; the mapping itself is not restated here.
#[verifier::external_body]
pub(crate) fn to_lowercase(s: &str) -> (r: String)
    ensures
        r@ == lowercase(s@),
{
    s.to_lowercase()
}

/// Equality of two string slices, character by character.
pub fn str_eq(a: &str, b: &str) -> (r: bool)
    ensures
        r == (a@ == b@),
{
    let av = str_chars(a);
    let bv = str_chars(b);
    if av.len() != bv.len() {
        return false;
    }
    let mut i: usize = 0;
    while i < av.len()
        invariant
            av@ == a@,
            bv@ == b@,
            av@.len() == bv@.len(),
            i <= av@.len(),
            forall|k: int| 0 <= k < i ==> av@[k] == bv@[k],
        decreases av@.len() - i,
    {
        if av[i] != bv[i] {
            return false;
        }
        i = i + 1;
    }
    assert(av@ =~= bv@);
    true
}

/// Whether `s` begins with `p` (`str::starts_with`).
pub fn starts_with_str(s: &str, p: &str) -> (r: bool)
    ensures
        r == has_prefix(s@, p@),
{
    let sv = str_chars(s);
    let pv = str_chars(p);
    if pv.len() > sv.len() {
        return false;
    }
    let _n = sv.len();
    let mut i: usize = 0;
    while i < pv.len()
        invariant
            sv@ == s@,
            pv@ == p@,
            pv@.len() <= sv@.len(),
            i <= pv@.len(),
            forall|k: int| 0 <= k < i ==> sv@[k] == pv@[k],
        decreases pv@.len() - i,
    {
        if sv[i] != pv[i] {
            assert(s@.subrange(0, p@.len() as int)[i as int] != p@[i as int]);
            return false;
        }
        i = i + 1;
    }
    assert(s@.subrange(0, p@.len() as int) =~= p@);
    true
}

/// `s` with every leading repetition of `p` removed (`str::trim_start_matches`).
pub open spec fn trim_start_all(s: Seq<char>, p: Seq<char>) -> Seq<char>
    decreases s.len(),
{
    if p.len() > 0 && has_prefix(s, p) {
        trim_start_all(s.skip(p.len() as int), p)
    } else {
        s
    }
}

/// Removes every leading repetition of `p` from `s`.
pub fn trim_start_matches(s: &str, p: &str) -> (r: String)
    ensures
        r@ == trim_start_all(s@, p@),
{
    let sv = str_chars(s);
    let pv = str_chars(p);
    let mut start: usize = 0;
    assert(s@.skip(0) =~= s@);
    if pv.len() > 0 {
        loop
            invariant
                sv@ == s@,
                pv@ == p@,
                pv@.len() > 0,
                start <= sv@.len(),
                trim_start_all(s@, p@) == trim_start_all(s@.skip(start as int), p@),
            ensures
                start <= sv@.len(),
                trim_start_all(s@, p@) == s@.skip(start as int),
            decreases sv@.len() - start,
        {
            if pv.len() > sv.len() - start {
                assert(!has_prefix(s@.skip(start as int), p@));
                break;
            }
            let m = matches_at(&sv, &pv, start);
            assert(m == has_prefix(s@.skip(start as int), p@)) by {
                assert(s@.skip(start as int).subrange(0, p@.len() as int) =~= s@.subrange(
                    start as int,
                    start + p@.len(),
                ));
            }
            if !m {
                break;
            }
            assert(has_prefix(s@.skip(start as int), p@));
            assert(s@.skip(start as int).skip(p@.len() as int) =~= s@.skip(start + p@.len()));
            start = start + pv.len();
        }
    } else {
        assert(trim_start_all(s@, p@) == s@);
    }
    let mut out: Vec<char> = Vec::new();
    let mut i: usize = start;
    while i < sv.len()
        invariant
            sv@ == s@,
            start <= i <= sv@.len(),
            out@ == s@.subrange(start as int, i as int),
        decreases sv@.len() - i,
    {
        out.push(sv[i]);
        i = i + 1;
        assert(out@ =~= s@.subrange(start as int, i as int));
    }
    assert(out@ =~= s@.skip(start as int));
    chars_to_string(&out)
}

/// The pieces of `s` between occurrences of `c`, in order (`str::split` with
/// a character pattern). There is always at least one piece.
pub open spec fn split_on(s: Seq<char>, c: char) -> Seq<Seq<char>>
    decreases s.len(),
{
    if s.len() == 0 {
        seq![Seq::<char>::empty()]
    } else {
        let rest = split_on(s.drop_last(), c);
        if s.last() == c {
            rest.push(Seq::<char>::empty())
        } else {
            rest.update(rest.len() - 1, rest.last().push(s.last()))
        }
    }
}

/// `split_on` never yields zero pieces.
pub proof fn lemma_split_on_nonempty(s: Seq<char>, c: char)
    ensures
        split_on(s, c).len() >= 1,
    decreases s.len(),
{
    if s.len() > 0 {
        lemma_split_on_nonempty(s.drop_last(), c);
    }
}

/// A text without the separator is a single piece.
pub proof fn lemma_split_on_without_sep(x: Seq<char>, c: char)
    requires
        !x.contains(c),
    ensures
        split_on(x, c) == seq![x],
    decreases x.len(),
{
    if x.len() > 0 {
        let y = x.drop_last();
        assert(!y.contains(c)) by {
            if y.contains(c) {
                let k = choose|k: int| 0 <= k < y.len() && y[k] == c;
                assert(x[k] == c);
            }
        }
        lemma_split_on_without_sep(y, c);
        assert(x.last() != c) by {
            assert(x[x.len() - 1] == x.last());
        }
        assert(y.push(x.last()) =~= x);
        assert(split_on(x, c) =~= seq![x]);
    } else {
        assert(x =~= Seq::<char>::empty());
        assert(split_on(x, c) =~= seq![x]);
    }
}

/// Appending a text without the separator extends the last piece.
pub proof fn lemma_split_on_append(x: Seq<char>, y: Seq<char>, c: char)
    requires
        !y.contains(c),
    ensures
        split_on(x + y, c) == split_on(x, c).update(
            split_on(x, c).len() - 1,
            split_on(x, c).last() + y,
        ),
    decreases y.len(),
{
    lemma_split_on_nonempty(x, c);
    if y.len() == 0 {
        assert(x + y =~= x);
        assert(split_on(x, c).last() + y =~= split_on(x, c).last());
        assert(split_on(x, c).update(split_on(x, c).len() - 1, split_on(x, c).last()) =~= split_on(x, c));
    } else {
        let z = y.drop_last();
        assert(!z.contains(c)) by {
            if z.contains(c) {
                let k = choose|k: int| 0 <= k < z.len() && z[k] == c;
                assert(y[k] == c);
            }
        }
        lemma_split_on_append(x, z, c);
        assert(y.last() != c) by {
            assert(y[y.len() - 1] == y.last());
        }
        assert((x + y).drop_last() =~= x + z);
        assert((x + y).last() == y.last());
        lemma_split_on_nonempty(x + z, c);
        let p = split_on(x, c);
        let q = split_on(x + z, c);
        assert(q.len() == p.len());
        assert((p.last() + z).push(y.last()) =~= p.last() + y);
        assert(split_on(x + y, c) =~= p.update(p.len() - 1, p.last() + y));
    }
}

/// `a`, the separator, then `b`, neither holding the separator, splits
/// into exactly `a` and `b`.
pub proof fn lemma_split_on_pair(a: Seq<char>, b: Seq<char>, c: char)
    requires
        !a.contains(c),
        !b.contains(c),
    ensures
        split_on(a + seq![c] + b, c) == seq![a, b],
{
    lemma_split_on_without_sep(a, c);
    let ac = a + seq![c];
    assert(ac.drop_last() =~= a);
    assert(ac.last() == c);
    assert(split_on(ac, c) =~= seq![a, Seq::<char>::empty()]);
    lemma_split_on_append(ac, b, c);
    assert(Seq::<char>::empty() + b =~= b);
    assert(split_on(ac + b, c) =~= seq![a, b]);
}

/// The character sequences held by a vector of character vectors.
pub open spec fn views(v: Seq<Vec<char>>) -> Seq<Seq<char>> {
    v.map_values(|x: Vec<char>| x@)
}

/// Splits `s` at every occurrence of `c`.
pub fn split_chars(s: &Vec<char>, c: char) -> (r: Vec<Vec<char>>)
    ensures
        views(r@) == split_on(s@, c),
{
    let mut pieces: Vec<Vec<char>> = Vec::new();
    let mut cur: Vec<char> = Vec::new();
    let mut i: usize = 0;
    assert(s@.subrange(0, 0) =~= Seq::<char>::empty());
    assert(views(pieces@).push(cur@) =~= split_on(Seq::<char>::empty(), c));
    while i < s.len()
        invariant
            i <= s@.len(),
            views(pieces@).push(cur@) == split_on(s@.subrange(0, i as int), c),
        decreases s@.len() - i,
    {
        let ch = s[i];
        let ghost prefix = s@.subrange(0, i as int);
        let ghost next = s@.subrange(0, i + 1);
        assert(next.drop_last() =~= prefix);
        assert(next.last() == ch);
        proof {
            lemma_split_on_nonempty(prefix, c);
        }
        if ch == c {
            let ghost old_raw = pieces@;
            let ghost old_cur = cur@;
            pieces.push(cur);
            cur = Vec::new();
            assert(views(pieces@) =~= views(old_raw).push(old_cur)) by {
                assert(pieces@.len() == old_raw.len() + 1);
                assert forall|k: int| 0 <= k < old_raw.len() implies #[trigger] pieces@[k] == old_raw[k] by {}
                assert(pieces@[old_raw.len() as int]@ == old_cur);
            }
            assert(views(pieces@).push(cur@) =~= split_on(next, c));
        } else {
            let ghost old_pieces = views(pieces@);
            cur.push(ch);
            assert(views(pieces@) =~= old_pieces);
            assert(views(pieces@).push(cur@) =~= split_on(next, c));
        }
        i = i + 1;
    }
    assert(s@.subrange(0, s@.len() as int) =~= s@);
    let ghost before_raw = pieces@;
    let ghost last_cur = cur@;
    pieces.push(cur);
    assert(views(pieces@) =~= views(before_raw).push(last_cur)) by {
        assert(pieces@.len() == before_raw.len() + 1);
        assert forall|k: int| 0 <= k < before_raw.len() implies #[trigger] pieces@[k] == before_raw[k] by {}
        assert(pieces@[before_raw.len() as int]@ == last_cur);
    }
    pieces
}

/// `s` with each single quote doubled, as SQL string literals require
/// (`str::replace("'", "''")`).
pub open spec fn escape_quotes(s: Seq<char>) -> Seq<char>
    decreases s.len(),
{
    if s.len() == 0 {
        Seq::<char>::empty()
    } else if s.last() == '\'' {
        escape_quotes(s.drop_last()) + seq!['\'', '\'']
    } else {
        escape_quotes(s.drop_last()).push(s.last())
    }
}

/// Doubles every single quote of `s`.
pub fn escape_sql_quotes(s: &str) -> (r: String)
    ensures
        r@ == escape_quotes(s@),
{
    let sv = str_chars(s);
    let mut r = String::new();
    let mut i: usize = 0;
    while i < sv.len()
        invariant
            sv@ == s@,
            i <= sv@.len(),
            r@ == escape_quotes(s@.subrange(0, i as int)),
        decreases sv@.len() - i,
    {
        let ch = sv[i];
        let ghost next = s@.subrange(0, i + 1);
        assert(next.drop_last() =~= s@.subrange(0, i as int));
        if ch == '\'' {
            push_char(&mut r, '\'');
            push_char(&mut r, '\'');
        } else {
            push_char(&mut r, ch);
        }
        i = i + 1;
        assert(r@ =~= escape_quotes(next));
    }
    assert(s@.subrange(0, s@.len() as int) =~= s@);
    r
}

/// Reads back a text written with each quote doubled: a trailing pair of
/// quotes stands for one quote.
pub open spec fn unescape_quotes(t: Seq<char>) -> Seq<char>
    decreases t.len(),
{
    if t.len() == 0 {
        Seq::empty()
    } else if t.len() >= 2 && t.last() == '\'' && t[t.len() - 2] == '\'' {
        unescape_quotes(t.subrange(0, t.len() - 2)).push('\'')
    } else {
        unescape_quotes(t.drop_last()).push(t.last())
    }
}

/// A value written into a statement with its quotes doubled reads back
/// unchanged, so it cannot end the string literal that holds it.
pub proof fn lemma_escape_quotes_roundtrip(s: Seq<char>)
    ensures
        unescape_quotes(escape_quotes(s)) == s,
    decreases s.len(),
{
    if s.len() > 0 {
        let r = s.drop_last();
        lemma_escape_quotes_roundtrip(r);
        let e = escape_quotes(r);
        if s.last() == '\'' {
            let t = e + seq!['\'', '\''];
            assert(t.subrange(0, t.len() - 2) =~= e);
            assert(unescape_quotes(t) == unescape_quotes(e).push('\''));
            assert(r.push('\'') =~= s);
        } else {
            let t = e.push(s.last());
            assert(t.drop_last() =~= e);
            assert(r.push(s.last()) =~= s);
        }
    }
}

/// The decimal digit character for `d < 10`.
pub open spec fn digit_char(d: nat) -> char {
    ((48 + d) as u8) as char
}

/// Decimal notation of a natural number, without leading zeros.
pub open spec fn decimal(n: nat) -> Seq<char>
    decreases n,
{
    if n < 10 {
        seq![digit_char(n)]
    } else {
        decimal(n / 10).push(digit_char(n % 10))
    }
}

/// Decimal notation of an integer, with a leading `-` when negative.
pub open spec fn signed_decimal(n: int) -> Seq<char> {
    if n < 0 {
        seq!['-'] + decimal((-n) as nat)
    } else {
        decimal(n as nat)
    }
}

/// Appends the decimal notation of `n`.
pub fn push_decimal(s: &mut String, n: u64)
    ensures
        final(s)@ == old(s)@ + decimal(n as nat),
    decreases n,
{
    if n >= 10 {
        push_decimal(s, n / 10);
    }
    let d: u8 = (n % 10) as u8;
    let ch = (48u8 + d) as char;
    push_char(s, ch);
    assert(final(s)@ =~= old(s)@ + decimal(n as nat));
}

/// Appends the decimal notation of a signed integer.
pub fn push_signed_decimal(s: &mut String, n: i64)
    ensures
        final(s)@ == old(s)@ + signed_decimal(n as int),
{
    if n < 0 {
        push_char(s, '-');
        let m: u64 = if n == i64::MIN {
            9223372036854775808u64
        } else {
            (-n) as u64
        };
        push_decimal(s, m);
        assert(final(s)@ =~= old(s)@ + signed_decimal(n as int));
    } else {
        push_decimal(s, n as u64);
    }
}


/// The texts held by a sequence of strings.
pub open spec fn string_views(s: Seq<String>) -> Seq<Seq<char>> {
    s.map_values(|x: String| x@)
}

/// Whether `s` holds a string equal to `x`.
pub fn contains_string(s: &Vec<String>, x: &str) -> (r: bool)
    ensures
        r == string_views(s@).contains(x@),
{
    let mut k: usize = 0;
    while k < s.len()
        invariant
            k <= s@.len(),
            forall|m: int| 0 <= m < k ==> s@[m]@ != x@,
        decreases s@.len() - k,
    {
        if str_eq(s[k].as_str(), x) {
            assert(string_views(s@)[k as int] == x@);
            return true;
        }
        k = k + 1;
    }
    proof {
        if string_views(s@).contains(x@) {
            let m = choose|m: int| 0 <= m < string_views(s@).len() && string_views(s@)[m] == x@;
            assert(s@[m]@ == x@);
        }
    }
    false
}

/// The position of the string equal to `x` in `s`, if any.
pub fn find_string(s: &Vec<String>, x: &str) -> (r: Option<usize>)
    ensures
        r is None <==> !string_views(s@).contains(x@),
        r matches Some(k) ==> k < s@.len() && s@[k as int]@ == x@,
{
    let mut k: usize = 0;
    while k < s.len()
        invariant
            k <= s@.len(),
            forall|m: int| 0 <= m < k ==> s@[m]@ != x@,
        decreases s@.len() - k,
    {
        if str_eq(s[k].as_str(), x) {
            assert(string_views(s@)[k as int] == x@);
            return Some(k);
        }
        k = k + 1;
    }
    proof {
        if string_views(s@).contains(x@) {
            let m = choose|m: int| 0 <= m < string_views(s@).len() && string_views(s@)[m] == x@;
            assert(s@[m]@ == x@);
        }
    }
    None
}


/// The pieces joined with `sep` between each two.
pub open spec fn join(parts: Seq<Seq<char>>, sep: Seq<char>) -> Seq<char>
    decreases parts.len(),
{
    if parts.len() == 0 {
        Seq::empty()
    } else if parts.len() == 1 {
        parts[0]
    } else {
        join(parts.drop_last(), sep) + sep + parts.last()
    }
}

/// Joins strings with a separator (`[String]::join`).
pub fn join_strings(parts: &Vec<String>, sep: &str) -> (r: String)
    ensures
        r@ == join(string_views(parts@), sep@),
{
    let mut r = String::new();
    let mut i: usize = 0;
    while i < parts.len()
        invariant
            i <= parts@.len(),
            r@ == join(string_views(parts@.take(i as int)), sep@),
        decreases parts@.len() - i,
    {
        let ghost before = string_views(parts@.take(i as int));
        let ghost next = string_views(parts@.take(i + 1));
        assert(next.drop_last() =~= before);
        assert(next.last() == parts@[i as int]@);
        if i > 0 {
            r.append(sep);
        }
        r.append(parts[i].as_str());
        i = i + 1;
        assert(r@ =~= join(next, sep@));
    }
    assert(parts@.take(parts@.len() as int) =~= parts@);
    r
}

/// `true` or `false`, as Rust writes a `bool`.
pub open spec fn bool_text(b: bool) -> Seq<char> {
    if b {
        "true"@
    } else {
        "false"@
    }
}

/// Appends `true` or `false`.
pub fn push_bool(s: &mut String, b: bool)
    ensures
        final(s)@ == old(s)@ + bool_text(b),
{
    if b {
        s.append("true");
    } else {
        s.append("false");
    }
}

/// A quoted SQL string literal: `'`, the text with quotes doubled, `'`.
pub open spec fn sql_quoted(s: Seq<char>) -> Seq<char> {
    "'"@ + escape_quotes(s) + "'"@
}

/// `{field} = '{escaped value}'`.
pub fn quoted_assignment(field: &str, value: &str) -> (r: String)
    ensures
        r@ == field@ + " = "@ + sql_quoted(value@),
{
    let mut r = String::from_str(field);
    r.append(" = '");
    let e = escape_sql_quotes(value);
    r.append(e.as_str());
    r.append("'");
    proof {
        reveal_strlit(" = '");
        reveal_strlit(" = ");
        reveal_strlit("'");
    }
    assert(r@ =~= field@ + " = "@ + sql_quoted(value@));
    r
}

/// `{field} = true` or `{field} = false`.
pub fn bool_assignment(field: &str, value: bool) -> (r: String)
    ensures
        r@ == field@ + " = "@ + bool_text(value),
{
    let mut r = String::from_str(field);
    r.append(" = ");
    push_bool(&mut r, value);
    r
}

} // verus!
