//! Character and string helpers shared by the bridge components: ASCII
//! case-insensitive comparison, prefix tests, NUL detection, decimal
//! rendering, whitespace trimming and comma splitting.

use vstd::prelude::*;

verus! {

/// Code point of `c`, with an ASCII upper-case letter folded to lower case.
pub open spec fn fold_char(c: char) -> int {
    if 65 <= c as u32 && c as u32 <= 90 {
        c as u32 + 32
    } else {
        c as int
    }
}

/// Equality of two character sequences up to ASCII case.
pub open spec fn eq_fold(a: Seq<char>, b: Seq<char>) -> bool {
    a.len() == b.len() && forall|k: int| 0 <= k < a.len() ==> fold_char(a[k]) == fold_char(b[k])
}

/// Compares two strings for equality ignoring ASCII case, as the `upgrade`
/// header is compared against `websocket`.
pub fn eq_ignore_ascii_case(a: &str, b: &str) -> (r: bool)
    ensures
        r == eq_fold(a@, b@),
{
    let alen = a.unicode_len();
    let blen = b.unicode_len();
    if alen != blen {
        return false;
    }
    let mut i: usize = 0;
    while i < alen
        invariant
            alen == a@.len(),
            blen == b@.len(),
            alen == blen,
            0 <= i <= alen,
            forall|k: int| 0 <= k < i ==> fold_char(a@[k]) == fold_char(b@[k]),
        decreases alen - i,
    {
        let ca = a.get_char(i) as u32;
        let cb = b.get_char(i) as u32;
        let fa = if 65 <= ca && ca <= 90 { ca + 32 } else { ca };
        let fb = if 65 <= cb && cb <= 90 { cb + 32 } else { cb };
        if fa != fb {
            assert(fold_char(a@[i as int]) != fold_char(b@[i as int]));
            return false;
        }
        i = i + 1;
    }
    true
}

/// `p` is an initial run of `s`.
pub open spec fn has_prefix(s: Seq<char>, p: Seq<char>) -> bool {
    p.len() <= s.len() && s.subrange(0, p.len() as int) == p
}

/// Whether `s` starts with `prefix`, compared character by character.
pub fn starts_with(s: &str, prefix: &str) -> (r: bool)
    ensures
        r == has_prefix(s@, prefix@),
{
    let slen = s.unicode_len();
    let plen = prefix.unicode_len();
    if plen > slen {
        return false;
    }
    let mut i: usize = 0;
    while i < plen
        invariant
            slen == s@.len(),
            plen == prefix@.len(),
            plen <= slen,
            0 <= i <= plen,
            forall|k: int| 0 <= k < i ==> s@[k] == prefix@[k],
        decreases plen - i,
    {
        let cs = s.get_char(i);
        let cp = prefix.get_char(i);
        if cs != cp {
            assert(!has_prefix(s@, prefix@)) by {
                if has_prefix(s@, prefix@) {
                    assert(s@.subrange(0, plen as int)[i as int] == prefix@[i as int]);
                }
            }
            return false;
        }
        i = i + 1;
    }
    assert(s@.subrange(0, plen as int) =~= prefix@);
    true
}

/// Whether two strings hold the same characters.
pub fn str_eq(a: &str, b: &str) -> (r: bool)
    ensures
        r == (a@ == b@),
{
    let alen = a.unicode_len();
    let blen = b.unicode_len();
    if alen != blen {
        return false;
    }
    let mut i: usize = 0;
    while i < alen
        invariant
            alen == a@.len(),
            blen == b@.len(),
            alen == blen,
            0 <= i <= alen,
            forall|k: int| 0 <= k < i ==> a@[k] == b@[k],
        decreases alen - i,
    {
        let ca = a.get_char(i);
        let cb = b.get_char(i);
        if ca != cb {
            return false;
        }
        i = i + 1;
    }
    assert(a@ =~= b@);
    true
}

/// Scans a string for an embedded NUL byte, which no field handed to the
/// backend's startup call may contain.
pub fn contains_nul(s: &str) -> (r: bool)
    ensures
        r == s@.contains('\0'),
{
    let len = s.unicode_len();
    let mut i: usize = 0;
    while i < len
        invariant
            len == s@.len(),
            0 <= i <= len,
            forall|k: int| 0 <= k < i ==> s@[k] != '\0',
        decreases len - i,
    {
        if s.get_char(i) == '\0' {
            assert(s@.contains('\0'));
            return true;
        }
        i = i + 1;
    }
    assert(!s@.contains('\0')) by {
        if s@.contains('\0') {
            let k = choose|k: int| 0 <= k < s@.len() && s@[k] == '\0';
            assert(s@[k] != '\0');
        }
    }
    false
}

/// The character for a single decimal digit.
pub open spec fn digit_char(d: int) -> char {
    if d == 0 {
        '0'
    } else if d == 1 {
        '1'
    } else if d == 2 {
        '2'
    } else if d == 3 {
        '3'
    } else if d == 4 {
        '4'
    } else if d == 5 {
        '5'
    } else if d == 6 {
        '6'
    } else if d == 7 {
        '7'
    } else if d == 8 {
        '8'
    } else {
        '9'
    }
}

/// The decimal rendering of a non-negative number, most significant digit
/// first, with no leading zeros (a lone `0` for zero).
pub open spec fn dec_str(n: int) -> Seq<char>
    decreases n,
{
    if n < 10 {
        seq![digit_char(n)]
    } else {
        dec_str(n / 10).push(digit_char(n % 10))
    }
}

/// Appends the decimal rendering of `n` to `out`, as a listen or backend
/// port is printed into an address or URL.
pub fn append_dec(out: &mut String, n: u16)
    ensures
        final(out)@ == old(out)@ + dec_str(n as int),
    decreases n,
{
    let ghost prefix: Seq<char> = out@;
    if n >= 10 {
        append_dec(out, n / 10);
    }
    let d = n % 10;
    let s: &str = match d {
        0 => "0",
        1 => "1",
        2 => "2",
        3 => "3",
        4 => "4",
        5 => "5",
        6 => "6",
        7 => "7",
        8 => "8",
        9 => "9",
        _ => "",
    };
    proof {
        reveal_strlit("0");
        reveal_strlit("1");
        reveal_strlit("2");
        reveal_strlit("3");
        reveal_strlit("4");
        reveal_strlit("5");
        reveal_strlit("6");
        reveal_strlit("7");
        reveal_strlit("8");
        reveal_strlit("9");
        assert(s@ =~= seq![digit_char(d as int)]);
    }
    out.append(s);
    proof {
        if n >= 10 {
            assert(out@ =~= prefix + dec_str(n as int));
        } else {
            assert(out@ =~= prefix + dec_str(n as int));
        }
    }
}

/// ASCII whitespace, the only whitespace a header value can carry.
pub open spec fn is_ws_char(c: char) -> bool {
    c == ' ' || c == '\t' || c == '\n' || c == '\r'
}

/// `s` without its leading whitespace.
pub open spec fn trim_front(s: Seq<char>) -> Seq<char>
    decreases s.len(),
{
    if s.len() > 0 && is_ws_char(s[0]) {
        trim_front(s.drop_first())
    } else {
        s
    }
}

/// `s` without its trailing whitespace.
pub open spec fn trim_back(s: Seq<char>) -> Seq<char>
    decreases s.len(),
{
    if s.len() > 0 && is_ws_char(s.last()) {
        trim_back(s.drop_last())
    } else {
        s
    }
}

/// `s` without leading and trailing whitespace.
pub open spec fn trim_seq(s: Seq<char>) -> Seq<char> {
    trim_back(trim_front(s))
}

proof fn lemma_trim_front_skip(s: Seq<char>, i: int)
    requires
        0 <= i <= s.len(),
        forall|k: int| 0 <= k < i ==> is_ws_char(s[k]),
        i == s.len() || !is_ws_char(s[i]),
    ensures
        trim_front(s) == s.skip(i),
    decreases i,
{
    if i == 0 {
        assert(s.skip(0) =~= s);
    } else {
        let t = s.drop_first();
        lemma_trim_front_skip(t, i - 1);
        assert(t.skip(i - 1) =~= s.skip(i));
    }
}

proof fn lemma_trim_back_take(s: Seq<char>, j: int)
    requires
        0 <= j <= s.len(),
        forall|k: int| j <= k < s.len() ==> is_ws_char(s[k]),
        j == 0 || !is_ws_char(s[j - 1]),
    ensures
        trim_back(s) == s.take(j),
    decreases s.len(),
{
    if j == s.len() {
        assert(s.take(j) =~= s);
    } else {
        let t = s.drop_last();
        lemma_trim_back_take(t, j);
        assert(t.take(j) =~= s.take(j));
    }
}

/// Removes leading and trailing ASCII whitespace, as each entry of a
/// comma-separated subprotocol list is cleaned before use.
pub fn trim_str<'a>(s: &'a str) -> (r: &'a str)
    ensures
        r@ == trim_seq(s@),
{
    let len = s.unicode_len();
    let mut start: usize = 0;
    while start < len
        invariant
            len == s@.len(),
            0 <= start <= len,
            forall|k: int| 0 <= k < start ==> is_ws_char(s@[k]),
        ensures
            0 <= start <= len,
            forall|k: int| 0 <= k < start ==> is_ws_char(s@[k]),
            start == len || !is_ws_char(s@[start as int]),
        decreases len - start,
    {
        let c = s.get_char(start);
        if !(c == ' ' || c == '\t' || c == '\n' || c == '\r') {
            break;
        }
        start = start + 1;
    }
    let mut end: usize = len;
    while end > start
        invariant
            len == s@.len(),
            start <= end <= len,
            forall|k: int| end <= k < len ==> is_ws_char(s@[k]),
        ensures
            start <= end <= len,
            forall|k: int| end <= k < len ==> is_ws_char(s@[k]),
            end == start || !is_ws_char(s@[end - 1]),
        decreases end,
    {
        let c = s.get_char(end - 1);
        if !(c == ' ' || c == '\t' || c == '\n' || c == '\r') {
            break;
        }
        end = end - 1;
    }
    let r = s.substring_char(start, end);
    proof {
        lemma_trim_front_skip(s@, start as int);
        let t = s@.skip(start as int);
        lemma_trim_back_take(t, end - start);
        assert(t.take(end - start) =~= s@.subrange(start as int, end as int));
    }
    r
}

/// The pieces of `s` between its commas, in order; a string without commas
/// is one piece, and every comma separates two (possibly empty) pieces.
pub open spec fn split_commas(s: Seq<char>) -> Seq<Seq<char>>
    decreases s.len(),
{
    if s.len() == 0 {
        seq![Seq::<char>::empty()]
    } else if s[0] == ',' {
        seq![Seq::<char>::empty()] + split_commas(s.drop_first())
    } else {
        let rest = split_commas(s.drop_first());
        seq![seq![s[0]] + rest[0]] + rest.skip(1)
    }
}

proof fn lemma_split_commas_len(s: Seq<char>)
    ensures
        split_commas(s).len() >= 1,
    decreases s.len(),
{
    if s.len() == 0 {
    } else if s[0] == ',' {
        lemma_split_commas_len(s.drop_first());
    } else {
        lemma_split_commas_len(s.drop_first());
    }
}

/// Unfolds `split_commas` at the first comma: with `i` the index of the
/// first comma (or the length when there is none), the split is the piece
/// before `i` followed by the split of what comes after `i`.
proof fn lemma_split_at_comma(s: Seq<char>, i: int)
    requires
        0 <= i <= s.len(),
        forall|k: int| 0 <= k < i ==> s[k] != ',',
        i == s.len() || s[i] == ',',
    ensures
        i == s.len() ==> split_commas(s) == seq![s],
        i < s.len() ==> split_commas(s) == seq![s.take(i)] + split_commas(s.skip(i + 1)),
    decreases i,
{
    lemma_split_commas_len(s);
    if i == 0 {
        if s.len() == 0 {
            assert(s =~= Seq::<char>::empty());
            assert(split_commas(s) =~= seq![s]);
        } else {
            assert(s[0] == ',');
            assert(s.take(0) =~= Seq::<char>::empty());
            assert(s.skip(1) =~= s.drop_first());
            assert(split_commas(s) =~= seq![s.take(0)] + split_commas(s.skip(1)));
        }
    } else {
        let t = s.drop_first();
        let rest = split_commas(t);
        lemma_split_commas_len(t);
        lemma_split_at_comma(t, i - 1);
        if i == s.len() {
            assert(rest == seq![t]);
            assert(rest[0] == t);
            assert(seq![s[0]] + rest[0] =~= s);
            assert(rest.skip(1) =~= Seq::<Seq<char>>::empty());
            assert(split_commas(s) == seq![seq![s[0]] + rest[0]] + rest.skip(1));
            assert(split_commas(s) =~= seq![s]);
        } else {
            assert(rest == seq![t.take(i - 1)] + split_commas(t.skip(i)));
            assert(rest[0] == t.take(i - 1));
            assert(seq![s[0]] + t.take(i - 1) =~= s.take(i));
            assert(rest.skip(1) =~= split_commas(t.skip(i)));
            assert(t.skip(i) =~= s.skip(i + 1));
            assert(split_commas(s) =~= seq![s.take(i)] + split_commas(s.skip(i + 1)));
        }
    }
}

/// The views of a sequence of strings.
pub open spec fn views_of(ss: Seq<String>) -> Seq<Seq<char>> {
    ss.map_values(|t: String| t@)
}

/// Each piece of `ps`, trimmed.
pub open spec fn trimmed_all(ps: Seq<Seq<char>>) -> Seq<Seq<char>> {
    ps.map_values(|p: Seq<char>| trim_seq(p))
}

/// Splits `s` at every comma and trims each piece, as the
/// `sec-websocket-protocol` header is turned into the offered subprotocols.
pub fn split_commas_trimmed(s: &str) -> (out: Vec<String>)
    ensures
        views_of(out@) == trimmed_all(split_commas(s@)),
    decreases s@.len(),
{
    let len = s.unicode_len();
    let mut i: usize = 0;
    while i < len
        invariant
            len == s@.len(),
            0 <= i <= len,
            forall|k: int| 0 <= k < i ==> s@[k] != ',',
        ensures
            0 <= i <= len,
            forall|k: int| 0 <= k < i ==> s@[k] != ',',
            i == len || s@[i as int] == ',',
        decreases len - i,
    {
        let c = s.get_char(i);
        if c == ',' {
            break;
        }
        i = i + 1;
    }
    if i == len {
        let piece = trim_str(s);
        let mut out: Vec<String> = Vec::new();
        out.push(String::from_str(piece));
        proof {
            lemma_split_at_comma(s@, len as int);
            assert(views_of(out@) =~= trimmed_all(split_commas(s@)));
        }
        out
    } else {
        let head = s.substring_char(0, i);
        let tail = s.substring_char(i + 1, len);
        let piece = trim_str(head);
        let first = String::from_str(piece);
        let rec = split_commas_trimmed(tail);
        let ghost rec_view: Seq<String> = rec@;
        let mut out = rec;
        out.insert(0, first);
        proof {
            lemma_split_at_comma(s@, i as int);
            assert(head@ =~= s@.take(i as int));
            assert(tail@ =~= s@.skip(i + 1));
            let lhs = views_of(out@);
            let rhs = trimmed_all(split_commas(s@));
            let m = views_of(rec_view);
            let rest = split_commas(s@.skip(i + 1));
            assert(split_commas(s@) == seq![s@.take(i as int)] + rest);
            assert(out@ == rec_view.insert(0, first));
            assert(m == trimmed_all(rest));
            assert(lhs.len() == out@.len());
            assert(out@.len() == rec_view.len() + 1);
            assert(m.len() == rec_view.len());
            assert(rest.len() == m.len());
            assert(rhs.len() == split_commas(s@).len());
            assert(split_commas(s@).len() == 1 + rest.len());
            assert(lhs.len() == rhs.len());
            assert(lhs[0] == trim_seq(s@.take(i as int)));
            assert(rhs[0] == trim_seq(s@.take(i as int)));
            assert forall|k: int| 1 <= k < lhs.len() implies lhs[k] == rhs[k] by {
                assert(out@[k] == rec_view[k - 1]);
                assert(lhs[k] == m[k - 1]);
                assert(rhs[k] == trim_seq(rest[k - 1]));
            }
            assert(lhs =~= rhs);
        }
        out
    }
}

} // verus!
