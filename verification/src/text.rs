//! Character sequences: the model of all text in this crate, and the
//! executable helpers that scan, cut and rebuild strings.

use vstd::prelude::*;

verus! {

/// `String::push` of the standard library, taken on trust from its
/// documentation: it appends the character `ch` to the end of the string, so
/// the string then holds what it held before, followed by `ch`.
pub assume_specification[ String::push ](s: &mut String, ch: char)
    ensures
        final(s)@ == old(s)@.push(ch),
;

/// The views of the elements of a sequence, in order.
pub open spec fn views<T: View>(s: Seq<T>) -> Seq<T::V> {
    Seq::new(s.len(), |i: int| s[i]@)
}

/// The view of what an optional value holds.
pub open spec fn option_view<T: View>(o: Option<T>) -> Option<T::V> {
    match o {
        Some(t) => Some(t@),
        None => None,
    }
}

/// White space: the code points that Unicode gives the property `White_Space`.
pub open spec fn is_space(c: char) -> bool {
    let n = c as u32;
    (0x09 <= n <= 0x0D) || n == 0x20 || n == 0x85 || n == 0xA0 || n == 0x1680 || (0x2000 <= n
        <= 0x200A) || n == 0x2028 || n == 0x2029 || n == 0x202F || n == 0x205F || n == 0x3000
}

/// The first index at or after `i` that holds no white space, or the length.
pub open spec fn lead(s: Seq<char>, i: int) -> int
    decreases s.len() - i,
{
    if 0 <= i < s.len() && is_space(s[i]) {
        lead(s, i + 1)
    } else {
        i
    }
}

/// One past the last index below `j` that holds no white space, or zero.
pub open spec fn trail(s: Seq<char>, j: int) -> int
    decreases j,
{
    if 0 < j <= s.len() && is_space(s[j - 1]) {
        trail(s, j - 1)
    } else {
        j
    }
}

/// `s` without the white space at its two ends.
pub open spec fn trim(s: Seq<char>) -> Seq<char> {
    let a = lead(s, 0);
    let b = trail(s, s.len() as int);
    if a < b {
        s.subrange(a, b)
    } else {
        Seq::empty()
    }
}

/// The first index at or after `from` that holds `c`, or the length.
pub open spec fn scan(s: Seq<char>, c: char, from: int) -> int
    decreases s.len() - from,
{
    if from < 0 || from >= s.len() {
        s.len() as int
    } else if s[from] == c {
        from
    } else {
        scan(s, c, from + 1)
    }
}

/// The pieces of `s` between the occurrences of `sep`: one more piece than
/// there are separators, so the empty text has one empty piece.
pub open spec fn split(s: Seq<char>, sep: char) -> Seq<Seq<char>>
    decreases s.len(),
{
    let k = scan(s, sep, 0);
    if k < 0 || k >= s.len() {
        seq![s]
    } else {
        seq![s.take(k)] + split(s.skip(k + 1), sep)
    }
}

/// The parts in order, with `sep` between each two neighbours.
pub open spec fn join(parts: Seq<Seq<char>>, sep: Seq<char>) -> Seq<char>
    decreases parts.len(),
{
    if parts.len() == 0 {
        Seq::empty()
    } else if parts.len() == 1 {
        parts[0]
    } else {
        join(parts.drop_last(), sep) + sep + parts.last()
    }
}

/// What stands for one character inside single quotes of a POSIX shell: the
/// character itself, but for a single quote, which closes the quotes, stands
/// escaped and opens them again.
pub open spec fn quoted_char(c: char) -> Seq<char> {
    if c == '\'' {
        seq!['\'', '\\', '\'', '\'']
    } else {
        seq![c]
    }
}

/// The characters of `s`, each as it stands inside single quotes.
pub open spec fn escape(s: Seq<char>) -> Seq<char>
    decreases s.len(),
{
    if s.len() == 0 {
        Seq::empty()
    } else {
        escape(s.drop_last()) + quoted_char(s.last())
    }
}

/// `s` as one word of a POSIX shell, in single quotes.
pub open spec fn quote(s: Seq<char>) -> Seq<char> {
    seq!['\''] + escape(s) + seq!['\'']
}

/// What a POSIX shell reads from `w`, a word made of stretches in single
/// quotes and of characters escaped by a backslash outside them; `inside`
/// says whether the reading starts inside quotes. Nothing for a word with a
/// bare character outside quotes, or with quotes left open.
pub open spec fn unquote(w: Seq<char>, inside: bool) -> Option<Seq<char>>
    decreases w.len(),
{
    if w.len() == 0 {
        if inside {
            None
        } else {
            Some(Seq::empty())
        }
    } else if inside {
        if w[0] == '\'' {
            unquote(w.skip(1), false)
        } else {
            match unquote(w.skip(1), true) {
                Some(r) => Some(seq![w[0]] + r),
                None => None,
            }
        }
    } else if w[0] == '\'' {
        unquote(w.skip(1), true)
    } else if w[0] == '\\' && w.len() >= 2 {
        match unquote(w.skip(2), false) {
            Some(r) => Some(seq![w[1]] + r),
            None => None,
        }
    } else {
        None
    }
}

/// Escaping goes character by character, from the front as from the back.
pub proof fn lemma_escape_first(s: Seq<char>)
    requires
        s.len() >= 1,
    ensures
        escape(s) == quoted_char(s[0]) + escape(s.skip(1)),
    decreases s.len(),
{
    if s.len() == 1 {
        assert(s.drop_last() =~= Seq::<char>::empty());
        assert(s.skip(1) =~= Seq::<char>::empty());
        assert(escape(s) =~= quoted_char(s[0]) + escape(s.skip(1)));
    } else {
        lemma_escape_first(s.drop_last());
        assert(s.drop_last().skip(1) =~= s.skip(1).drop_last());
        assert(s.skip(1).last() == s.last());
        assert(escape(s) =~= quoted_char(s[0]) + escape(s.skip(1)));
    }
}

/// Read from inside quotes, escaped text and the closing quote give the text.
pub proof fn lemma_unquote_escape(s: Seq<char>)
    ensures
        unquote(escape(s) + seq!['\''], true) == Some(s),
    decreases s.len(),
{
    let w = escape(s) + seq!['\''];
    if s.len() == 0 {
        assert(w.skip(1) =~= Seq::<char>::empty());
        assert(unquote(w.skip(1), false) == Some(Seq::<char>::empty()));
        assert(s =~= Seq::<char>::empty());
    } else {
        let c = s[0];
        let rest = s.skip(1);
        let tail = escape(rest) + seq!['\''];
        lemma_escape_first(s);
        lemma_unquote_escape(rest);
        assert(w =~= quoted_char(c) + tail);
        assert(seq![c] + rest =~= s);
        if c != '\'' {
            assert(w[0] == c);
            assert(w.skip(1) =~= tail);
        } else {
            let a = w.skip(1);
            assert(a =~= seq!['\\', '\'', '\''] + tail);
            assert(a[0] == '\\' && a[1] == '\'');
            let b = a.skip(2);
            assert(b =~= seq!['\''] + tail);
            assert(b[0] == '\'');
            assert(b.skip(1) =~= tail);
            assert(unquote(b, false) == Some(rest));
            assert(unquote(a, false) == Some(seq!['\''] + rest));
        }
    }
}

/// A shell reads a quoted text back as the text: quoting loses and adds
/// nothing.
pub proof fn law_quote(s: Seq<char>)
    ensures
        unquote(quote(s), false) == Some(s),
{
    let w = quote(s);
    lemma_unquote_escape(s);
    assert(w[0] == '\'');
    assert(w.skip(1) =~= escape(s) + seq!['\'']);
}

/// `lead` skips white space only, and stops at the first other character.
pub proof fn lemma_lead_bounds(s: Seq<char>, i: int)
    requires
        0 <= i <= s.len(),
    ensures
        i <= lead(s, i) <= s.len(),
        forall|k: int| i <= k < lead(s, i) ==> is_space(#[trigger] s[k]),
        lead(s, i) < s.len() ==> !is_space(s[lead(s, i)]),
    decreases s.len() - i,
{
    if i < s.len() && is_space(s[i]) {
        lemma_lead_bounds(s, i + 1);
    }
}

/// `trail` skips white space only, and stops behind the last other character.
pub proof fn lemma_trail_bounds(s: Seq<char>, j: int)
    requires
        0 <= j <= s.len(),
    ensures
        0 <= trail(s, j) <= j,
        forall|k: int| trail(s, j) <= k < j ==> is_space(#[trigger] s[k]),
        trail(s, j) > 0 ==> !is_space(s[trail(s, j) - 1]),
    decreases j,
{
    if 0 < j && is_space(s[j - 1]) {
        lemma_trail_bounds(s, j - 1);
    }
}

/// `scan` passes over no occurrence of the character it looks for.
pub proof fn lemma_scan_bounds(s: Seq<char>, c: char, from: int)
    requires
        0 <= from <= s.len(),
    ensures
        from <= scan(s, c, from) <= s.len(),
        forall|k: int| from <= k < scan(s, c, from) ==> #[trigger] s[k] != c,
        scan(s, c, from) < s.len() ==> s[scan(s, c, from)] == c,
    decreases s.len() - from,
{
    if from < s.len() && s[from] != c {
        lemma_scan_bounds(s, c, from + 1);
    }
}

/// Scanning a suffix finds what scanning the whole text from its start finds.
pub proof fn lemma_scan_skip(s: Seq<char>, c: char, start: int, from: int)
    requires
        0 <= start <= from <= s.len(),
    ensures
        scan(s.skip(start), c, from - start) == scan(s, c, from) - start,
    decreases s.len() - from,
{
    let t = s.skip(start);
    if from < s.len() {
        assert(t[from - start] == s[from]);
        if s[from] != c {
            lemma_scan_skip(s, c, start, from + 1);
        }
    }
}

/// Joining a first part and further parts puts the separator behind the first.
pub proof fn lemma_join_first(head: Seq<char>, parts: Seq<Seq<char>>, sep: Seq<char>)
    requires
        parts.len() >= 1,
    ensures
        join(seq![head] + parts, sep) == head + sep + join(parts, sep),
    decreases parts.len(),
{
    let all = seq![head] + parts;
    assert(all.last() == parts.last());
    if parts.len() == 1 {
        assert(all.drop_last() =~= seq![head]);
        assert(join(all.drop_last(), sep) == head);
    } else {
        assert(all.drop_last() =~= seq![head] + parts.drop_last());
        lemma_join_first(head, parts.drop_last(), sep);
        assert(join(all, sep) =~= head + sep + join(parts, sep));
    }
}

/// Splitting loses nothing: there is at least one piece, no piece holds the
/// separator, and the pieces joined by the separator are the text again.
pub proof fn law_split(s: Seq<char>, sep: char)
    ensures
        split(s, sep).len() >= 1,
        forall|i: int|
            0 <= i < split(s, sep).len() ==> !(#[trigger] split(s, sep)[i]).contains(sep),
        join(split(s, sep), seq![sep]) == s,
    decreases s.len(),
{
    lemma_scan_bounds(s, sep, 0);
    let k = scan(s, sep, 0);
    if k >= s.len() {
        assert(split(s, sep) =~= seq![s]);
    } else {
        let head = s.take(k);
        let rest = split(s.skip(k + 1), sep);
        law_split(s.skip(k + 1), sep);
        lemma_join_first(head, rest, seq![sep]);
        assert(head + seq![sep] + s.skip(k + 1) =~= s);
        assert forall|i: int| 0 <= i < split(s, sep).len() implies !(#[trigger] split(
            s,
            sep,
        )[i]).contains(sep) by {
            if i > 0 {
                assert(split(s, sep)[i] == rest[i - 1]);
            }
        }
    }
}

pub fn is_space_char(c: char) -> (b: bool)
    ensures
        b == is_space(c),
{
    let n: u32 = c as u32;
    (0x09 <= n && n <= 0x0D) || n == 0x20 || n == 0x85 || n == 0xA0 || n == 0x1680 || (0x2000 <= n
        && n <= 0x200A) || n == 0x2028 || n == 0x2029 || n == 0x202F || n == 0x205F || n == 0x3000
}

/// The characters of a string slice, as a vector.
pub fn chars_of(s: &str) -> (out: Vec<char>)
    ensures
        out@ == s@,
{
    let mut out: Vec<char> = Vec::new();
    for c in it: s.chars()
        invariant
            out@ == it.seq().take(it.index() as int),
            it.seq() == s@,
    {
        out.push(c);
    }
    out
}

/// The string that holds exactly the characters of `v`.
pub fn string_of(v: &Vec<char>) -> (out: String)
    ensures
        out@ == v@,
{
    let mut out = String::new();
    let mut i: usize = 0;
    while i < v.len()
        invariant
            i <= v.len(),
            out@ == v@.take(i as int),
        decreases v.len() - i,
    {
        out.push(v[i]);
        i += 1;
    }
    out
}

/// Whether two string slices hold the same characters.
pub fn same(a: &str, b: &str) -> (r: bool)
    ensures
        r == (a@ == b@),
{
    let x = chars_of(a);
    let y = chars_of(b);
    same_chars(&x, &y)
}

/// Whether two vectors hold the same characters.
pub fn same_chars(a: &Vec<char>, b: &Vec<char>) -> (r: bool)
    ensures
        r == (a@ == b@),
{
    if a.len() != b.len() {
        return false;
    }
    let mut i: usize = 0;
    while i < a.len()
        invariant
            i <= a.len(),
            a.len() == b.len(),
            a@.take(i as int) == b@.take(i as int),
        decreases a.len() - i,
    {
        if a[i] != b[i] {
            return false;
        }
        assert(a@.take(i + 1) =~= a@.take(i as int).push(a@[i as int]));
        assert(b@.take(i + 1) =~= b@.take(i as int).push(b@[i as int]));
        i += 1;
    }
    assert(a@.take(a.len() as int) =~= a@);
    assert(b@.take(b.len() as int) =~= b@);
    true
}

/// The characters of `v` from index `from` up to, not including, `to`.
pub fn slice(v: &Vec<char>, from: usize, to: usize) -> (out: Vec<char>)
    requires
        from <= to <= v.len(),
    ensures
        out@ == v@.subrange(from as int, to as int),
{
    let mut out: Vec<char> = Vec::new();
    let mut i: usize = from;
    while i < to
        invariant
            from <= i <= to <= v.len(),
            out@ == v@.subrange(from as int, i as int),
        decreases to - i,
    {
        out.push(v[i]);
        assert(v@.subrange(from as int, i + 1) =~= v@.subrange(from as int, i as int).push(
            v@[i as int],
        ));
        i += 1;
    }
    out
}

/// The first index at or after `from` that holds `c`, or the length.
pub fn find_from(v: &Vec<char>, c: char, from: usize) -> (k: usize)
    requires
        from <= v.len(),
    ensures
        k == scan(v@, c, from as int),
        from <= k <= v.len(),
        forall|i: int| from <= i < k ==> v@[i] != c,
        k < v.len() ==> v@[k as int] == c,
{
    proof {
        lemma_scan_bounds(v@, c, from as int);
    }
    let mut k: usize = from;
    while k < v.len() && v[k] != c
        invariant
            from <= k <= v.len(),
            scan(v@, c, from as int) == scan(v@, c, k as int),
        decreases v.len() - k,
    {
        k += 1;
    }
    k
}

/// `v` without the white space at its two ends.
pub fn trimmed(v: &Vec<char>) -> (out: Vec<char>)
    ensures
        out@ == trim(v@),
        out@.len() > 0 ==> !is_space(out@[0]) && !is_space(out@.last()),
{
    proof {
        lemma_lead_bounds(v@, 0);
        lemma_trail_bounds(v@, v@.len() as int);
    }
    let mut a: usize = 0;
    while a < v.len() && is_space_char(v[a])
        invariant
            a <= v.len(),
            lead(v@, 0) == lead(v@, a as int),
        decreases v.len() - a,
    {
        a += 1;
    }
    let mut b: usize = v.len();
    while b > 0 && is_space_char(v[b - 1])
        invariant
            b <= v.len(),
            trail(v@, v.len() as int) == trail(v@, b as int),
        decreases b,
    {
        b -= 1;
    }
    if a < b {
        slice(v, a, b)
    } else {
        Vec::new()
    }
}

/// The pieces of `v` between the occurrences of `sep`.
pub fn split_on(v: &Vec<char>, sep: char) -> (out: Vec<Vec<char>>)
    ensures
        views(out@) == split(v@, sep),
{
    let mut out: Vec<Vec<char>> = Vec::new();
    let mut start: usize = 0;
    assert(v@.skip(0) =~= v@);
    assert(views(out@) + split(v@, sep) =~= split(v@, sep));
    loop
        invariant
            start <= v.len(),
            split(v@, sep) == views(out@) + split(v@.skip(start as int), sep),
        decreases v.len() - start,
    {
        let k = find_from(v, sep, start);
        proof {
            lemma_scan_skip(v@, sep, start as int, start as int);
            assert(v@.skip(start as int).take(k - start) =~= v@.subrange(start as int, k as int));
        }
        let piece = slice(v, start, k);
        let ghost before = out@;
        out.push(piece);
        assert(views(out@) =~= views(before) + seq![piece@]);
        if k >= v.len() {
            assert(v@.skip(start as int).take(k - start) =~= v@.skip(start as int));
            return out;
        }
        assert(v@.skip(start as int).skip(k - start + 1) =~= v@.skip(k + 1));
        start = k + 1;
    }
}

/// Whether `list` holds the text `s`.
pub fn holds(list: &Vec<String>, s: &str) -> (r: bool)
    ensures
        r == views(list@).contains(s@),
{
    let mut i: usize = 0;
    while i < list.len()
        invariant
            i <= list.len(),
            forall|k: int| 0 <= k < i ==> views(list@)[k] != s@,
        decreases list.len() - i,
    {
        if same(list[i].as_str(), s) {
            assert(views(list@)[i as int] == s@);
            return true;
        }
        i += 1;
    }
    false
}

/// The parts in order, with `sep` between each two neighbours.
pub fn joined(parts: &Vec<String>, sep: &str) -> (out: String)
    ensures
        out@ == join(views(parts@), sep@),
{
    let mut out = String::new();
    let mut i: usize = 0;
    while i < parts.len()
        invariant
            i <= parts.len(),
            out@ == join(views(parts@).take(i as int), sep@),
        decreases parts.len() - i,
    {
        if i > 0 {
            out.append(sep);
        }
        out.append(parts[i].as_str());
        proof {
            let p = views(parts@);
            assert(p.take(i + 1).drop_last() =~= p.take(i as int));
            assert(p.take(i + 1).last() == parts@[i as int]@);
            if i == 0 {
                assert(Seq::<char>::empty() + parts@[0]@ =~= parts@[0]@);
            }
        }
        i += 1;
    }
    assert(views(parts@).take(parts.len() as int) =~= views(parts@));
    out
}

/// `s` as one word of a POSIX shell, in single quotes.
pub fn quoted(s: &str) -> (out: String)
    ensures
        out@ == quote(s@),
{
    let v = chars_of(s);
    let mut out = String::new();
    out.push('\'');
    let mut i: usize = 0;
    while i < v.len()
        invariant
            i <= v.len(),
            out@ == seq!['\''] + escape(v@.take(i as int)),
        decreases v.len() - i,
    {
        let ghost before = out@;
        if v[i] == '\'' {
            out.push('\'');
            out.push('\\');
            out.push('\'');
            out.push('\'');
        } else {
            out.push(v[i]);
        }
        proof {
            assert(v@.take(i + 1).drop_last() =~= v@.take(i as int));
            assert(out@ =~= before + quoted_char(v@[i as int]));
            assert(out@ =~= seq!['\''] + escape(v@.take(i + 1)));
        }
        i += 1;
    }
    assert(v@.take(v.len() as int) =~= v@);
    out.push('\'');
    assert(out@ =~= quote(s@));
    out
}

} // verus!
