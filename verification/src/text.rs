//! Character-level text operations: whitespace, trimming and splitting,
//! stated over `Seq<char>` and carried out on `Vec<char>` and `String`.

use vstd::prelude::*;

verus! {

/// `String::push` appends one character.
pub assume_specification[ String::push ](s: &mut String, ch: char)
    ensures
        final(s)@ == old(s)@.push(ch),
;

/// The Unicode `White_Space` property, the set that `char::is_whitespace` tests.
pub open spec fn is_whitespace(c: char) -> bool {
    let u = c as u32;
    ||| 0x9 <= u <= 0xd
    ||| u == 0x20
    ||| u == 0x85
    ||| u == 0xa0
    ||| u == 0x1680
    ||| 0x2000 <= u <= 0x200a
    ||| u == 0x2028
    ||| u == 0x2029
    ||| u == 0x202f
    ||| u == 0x205f
    ||| u == 0x3000
}

/// `s` without its leading whitespace.
pub open spec fn trimmed_start(s: Seq<char>) -> Seq<char>
    decreases s.len(),
{
    if s.len() > 0 && is_whitespace(s[0]) {
        trimmed_start(s.drop_first())
    } else {
        s
    }
}

/// `s` without its trailing whitespace.
pub open spec fn trimmed_end(s: Seq<char>) -> Seq<char>
    decreases s.len(),
{
    if s.len() > 0 && is_whitespace(s.last()) {
        trimmed_end(s.drop_last())
    } else {
        s
    }
}

/// `s` without leading and trailing whitespace, as `str::trim` gives it.
pub open spec fn trimmed(s: Seq<char>) -> Seq<char> {
    trimmed_end(trimmed_start(s))
}

/// The pieces of `s` between occurrences of `sep`, as `str::split` yields them:
/// one more piece than there are separators, empty pieces included.
pub open spec fn split_char(s: Seq<char>, sep: char) -> Seq<Seq<char>>
    decreases s.len(),
{
    if s.len() == 0 {
        seq![Seq::<char>::empty()]
    } else {
        let p = split_char(s.drop_last(), sep);
        if s.last() == sep {
            p.push(Seq::<char>::empty())
        } else {
            p.update(p.len() - 1, p.last().push(s.last()))
        }
    }
}

/// The pieces joined back together with `sep` between neighbours.
pub open spec fn join_with(pieces: Seq<Seq<char>>, sep: char) -> Seq<char>
    decreases pieces.len(),
{
    if pieces.len() == 0 {
        Seq::<char>::empty()
    } else if pieces.len() == 1 {
        pieces[0]
    } else {
        join_with(pieces.drop_last(), sep).push(sep) + pieces.last()
    }
}

/// The words finished so far and the word in progress, scanning `s` from the left.
pub open spec fn words_scan(s: Seq<char>) -> (Seq<Seq<char>>, Seq<char>)
    decreases s.len(),
{
    if s.len() == 0 {
        (Seq::<Seq<char>>::empty(), Seq::<char>::empty())
    } else {
        let (done, cur) = words_scan(s.drop_last());
        if is_whitespace(s.last()) {
            if cur.len() > 0 {
                (done.push(cur), Seq::<char>::empty())
            } else {
                (done, cur)
            }
        } else {
            (done, cur.push(s.last()))
        }
    }
}

/// The maximal runs of non-whitespace characters of `s`, as `str::split_whitespace`
/// yields them.
pub open spec fn split_ws(s: Seq<char>) -> Seq<Seq<char>> {
    let (done, cur) = words_scan(s);
    if cur.len() > 0 {
        done.push(cur)
    } else {
        done
    }
}

/// The views of a vector of character vectors.
pub open spec fn pieces_view(v: Seq<Vec<char>>) -> Seq<Seq<char>> {
    v.map_values(|p: Vec<char>| p@)
}

/// The views of a vector of strings.
pub open spec fn strings_view(v: Seq<String>) -> Seq<Seq<char>> {
    v.map_values(|p: String| p@)
}

/// Whether `c` has the Unicode `White_Space` property.
pub fn char_is_whitespace(c: char) -> (b: bool)
    ensures
        b == is_whitespace(c),
{
    let u = c as u32;
    (0x9 <= u && u <= 0xd) || u == 0x20 || u == 0x85 || u == 0xa0 || u == 0x1680 || (0x2000 <= u
        && u <= 0x200a) || u == 0x2028 || u == 0x2029 || u == 0x202f || u == 0x205f || u == 0x3000
}

/// The characters of `s`, in order.
pub fn chars_of(s: &str) -> (v: Vec<char>)
    ensures
        v@ == s@,
{
    let mut v: Vec<char> = Vec::new();
    for c in it: s.chars()
        invariant
            v@ == it.seq().take(it.index() as int),
            it.seq() == s@,
    {
        v.push(c);
    }
    v
}

/// A `String` holding exactly the characters `cs`.
pub fn string_of(cs: &[char]) -> (s: String)
    ensures
        s@ == cs@,
{
    let mut s = String::new();
    let mut i: usize = 0;
    while i < cs.len()
        invariant
            i <= cs.len(),
            s@ == cs@.take(i as int),
        decreases cs.len() - i,
    {
        s.push(cs[i]);
        i = i + 1;
        assert(s@ == cs@.take(i as int));
    }
    assert(cs@.take(cs.len() as int) == cs@);
    s
}

/// Appends the characters of `t` to `s`.
pub fn push_str(s: &mut String, t: &str)
    ensures
        final(s)@ == old(s)@ + t@,
{
    let cs = chars_of(t);
    let mut i: usize = 0;
    while i < cs.len()
        invariant
            i <= cs.len(),
            cs@ == t@,
            s@ == old(s)@ + cs@.take(i as int),
        decreases cs.len() - i,
    {
        s.push(cs[i]);
        i = i + 1;
        assert(s@ == old(s)@ + cs@.take(i as int));
    }
    assert(cs@.take(cs.len() as int) == cs@);
}

/// The characters `cs[start..end]`.
pub fn copy_range(cs: &[char], start: usize, end: usize) -> (v: Vec<char>)
    requires
        start <= end <= cs.len(),
    ensures
        v@ == cs@.subrange(start as int, end as int),
{
    let mut v: Vec<char> = Vec::new();
    let mut i: usize = start;
    while i < end
        invariant
            start <= i <= end <= cs.len(),
            v@ == cs@.subrange(start as int, i as int),
        decreases end - i,
    {
        v.push(cs[i]);
        i = i + 1;
        assert(v@ == cs@.subrange(start as int, i as int));
    }
    v
}

proof fn lemma_trimmed_start_skip(s: Seq<char>, i: int)
    requires
        0 <= i <= s.len(),
        forall|k: int| 0 <= k < i ==> is_whitespace(#[trigger] s[k]),
    ensures
        trimmed_start(s) == trimmed_start(s.skip(i)),
    decreases i,
{
    if i > 0 {
        assert(is_whitespace(s[0]));
        assert(s.drop_first().skip(i - 1) =~= s.skip(i));
        assert forall|k: int| 0 <= k < i - 1 implies is_whitespace(#[trigger] s.drop_first()[k]) by {
            assert(s.drop_first()[k] == s[k + 1]);
        }
        lemma_trimmed_start_skip(s.drop_first(), i - 1);
    } else {
        assert(s.skip(0) =~= s);
    }
}

/// `cs` without leading and trailing whitespace.
pub fn trim_chars(cs: &[char]) -> (v: Vec<char>)
    ensures
        v@ == trimmed(cs@),
{
    let n = cs.len();
    let mut i: usize = 0;
    while i < n && char_is_whitespace(cs[i])
        invariant
            i <= n == cs.len(),
            forall|k: int| 0 <= k < i ==> is_whitespace(#[trigger] cs@[k]),
        decreases n - i,
    {
        i = i + 1;
    }
    proof {
        lemma_trimmed_start_skip(cs@, i as int);
        assert(trimmed_start(cs@.skip(i as int)) == cs@.skip(i as int));
        assert(cs@.skip(i as int) =~= cs@.subrange(i as int, n as int));
    }
    let mut j: usize = n;
    while j > i && char_is_whitespace(cs[j - 1])
        invariant
            i <= j <= n == cs.len(),
            trimmed(cs@) == trimmed_end(cs@.subrange(i as int, j as int)),
        decreases j - i,
    {
        assert(cs@.subrange(i as int, j as int).drop_last() =~= cs@.subrange(
            i as int,
            j - 1 as int,
        ));
        j = j - 1;
    }
    copy_range(cs, i, j)
}

/// `s` without leading and trailing whitespace, as `str::trim` gives it.
pub fn trim(s: &str) -> (r: String)
    ensures
        r@ == trimmed(s@),
{
    let cs = chars_of(s);
    let t = trim_chars(cs.as_slice());
    string_of(t.as_slice())
}

proof fn lemma_split_char_nonempty(s: Seq<char>, sep: char)
    ensures
        split_char(s, sep).len() >= 1,
    decreases s.len(),
{
    if s.len() > 0 {
        lemma_split_char_nonempty(s.drop_last(), sep);
    }
}

/// The pieces of `cs` between occurrences of `sep`.
pub fn split_chars(cs: &[char], sep: char) -> (v: Vec<Vec<char>>)
    ensures
        pieces_view(v@) == split_char(cs@, sep),
{
    let mut pieces: Vec<Vec<char>> = Vec::new();
    let mut cur: Vec<char> = Vec::new();
    let mut i: usize = 0;
    assert(cs@.take(0) =~= Seq::<char>::empty());
    assert(pieces_view(pieces@).push(cur@) =~= split_char(cs@.take(0), sep));
    while i < cs.len()
        invariant
            i <= cs.len(),
            pieces_view(pieces@).push(cur@) == split_char(cs@.take(i as int), sep),
        decreases cs.len() - i,
    {
        let c = cs[i];
        let ghost before = cs@.take(i as int);
        let ghost old_pieces = pieces@;
        let ghost old_cur = cur@;
        assert(cs@.take(i + 1 as int).drop_last() =~= before);
        assert(cs@.take(i + 1 as int).last() == c);
        proof {
            lemma_split_char_nonempty(before, sep);
        }
        if c == sep {
            let done = cur;
            pieces.push(done);
            cur = Vec::new();
            assert(pieces_view(pieces@) =~= pieces_view(old_pieces).push(old_cur));
            assert(pieces_view(pieces@).push(cur@) =~= split_char(cs@.take(i + 1 as int), sep));
        } else {
            cur.push(c);
            assert(pieces_view(pieces@).push(cur@) =~= pieces_view(pieces@).push(old_cur).update(
                pieces@.len() as int,
                old_cur.push(c),
            ));
            assert(pieces_view(pieces@).push(cur@) =~= split_char(cs@.take(i + 1 as int), sep));
        }
        i = i + 1;
    }
    assert(cs@.take(cs.len() as int) =~= cs@);
    let ghost old_pieces = pieces@;
    let ghost last = cur@;
    pieces.push(cur);
    assert(pieces_view(pieces@) =~= pieces_view(old_pieces).push(last));
    pieces
}

/// The maximal runs of non-whitespace characters of `cs`.
pub fn split_whitespace_chars(cs: &[char]) -> (v: Vec<Vec<char>>)
    ensures
        pieces_view(v@) == split_ws(cs@),
{
    let mut done: Vec<Vec<char>> = Vec::new();
    let mut cur: Vec<char> = Vec::new();
    let mut i: usize = 0;
    assert(cs@.take(0) =~= Seq::<char>::empty());
    assert((pieces_view(done@), cur@) == words_scan(cs@.take(0)));
    while i < cs.len()
        invariant
            i <= cs.len(),
            (pieces_view(done@), cur@) == words_scan(cs@.take(i as int)),
        decreases cs.len() - i,
    {
        let c = cs[i];
        let ghost old_done = done@;
        let ghost old_cur = cur@;
        assert(cs@.take(i + 1 as int).drop_last() =~= cs@.take(i as int));
        assert(cs@.take(i + 1 as int).last() == c);
        if char_is_whitespace(c) {
            if cur.len() > 0 {
                let word = cur;
                done.push(word);
                cur = Vec::new();
                assert(pieces_view(done@) =~= pieces_view(old_done).push(old_cur));
            }
        } else {
            cur.push(c);
        }
        i = i + 1;
    }
    assert(cs@.take(cs.len() as int) =~= cs@);
    if cur.len() > 0 {
        let ghost old_done = done@;
        let ghost last = cur@;
        done.push(cur);
        assert(pieces_view(done@) =~= pieces_view(old_done).push(last));
    }
    done
}

/// Each piece made into a `String`.
pub fn strings_of(pieces: Vec<Vec<char>>) -> (v: Vec<String>)
    ensures
        strings_view(v@) == pieces_view(pieces@),
{
    let mut v: Vec<String> = Vec::new();
    let mut i: usize = 0;
    while i < pieces.len()
        invariant
            i <= pieces.len(),
            strings_view(v@) == pieces_view(pieces@).take(i as int),
        decreases pieces.len() - i,
    {
        let s = string_of(pieces[i].as_slice());
        let ghost old_v = v@;
        v.push(s);
        assert(strings_view(v@) =~= strings_view(old_v).push(s@));
        assert(strings_view(v@) =~= pieces_view(pieces@).take(i + 1 as int));
        i = i + 1;
    }
    assert(pieces_view(pieces@).take(pieces.len() as int) =~= pieces_view(pieces@));
    v
}

/// The pieces of `s` between occurrences of `sep`, as `str::split` yields them.
pub fn split(s: &str, sep: char) -> (v: Vec<String>)
    ensures
        strings_view(v@) == split_char(s@, sep),
{
    let cs = chars_of(s);
    strings_of(split_chars(cs.as_slice(), sep))
}

/// The whitespace-separated words of `s`, as `str::split_whitespace` yields them.
pub fn split_whitespace(s: &str) -> (v: Vec<String>)
    ensures
        strings_view(v@) == split_ws(s@),
{
    let cs = chars_of(s);
    strings_of(split_whitespace_chars(cs.as_slice()))
}

/// The piece of `s` after its last `sep` (all of `s` when there is none),
/// the first item that `str::rsplit` yields.
pub fn last_piece(s: &str, sep: char) -> (r: String)
    ensures
        r@ == split_char(s@, sep).last(),
{
    let cs = chars_of(s);
    let pieces = split_chars(cs.as_slice(), sep);
    proof {
        lemma_split_char_nonempty(s@, sep);
    }
    let n = pieces.len();
    assert(pieces_view(pieces@)[n - 1] == pieces@[n - 1]@);
    string_of(pieces[n - 1].as_slice())
}

/// Splitting and joining again with the same separator gives back the text.
pub proof fn law_split_join(s: Seq<char>, sep: char)
    ensures
        join_with(split_char(s, sep), sep) == s,
        split_char(s, sep).len() >= 1,
    decreases s.len(),
{
    lemma_split_char_nonempty(s, sep);
    if s.len() > 0 {
        let p = split_char(s.drop_last(), sep);
        law_split_join(s.drop_last(), sep);
        if s.last() == sep {
            assert(p.push(Seq::<char>::empty()).drop_last() =~= p);
            assert(join_with(p, sep).push(sep) + Seq::<char>::empty() =~= s);
        } else {
            let q = p.update(p.len() - 1, p.last().push(s.last()));
            if p.len() == 1 {
                assert(q[0] =~= s);
            } else {
                assert(q.drop_last() =~= p.drop_last());
                assert(join_with(p.drop_last(), sep).push(sep) + p.last().push(s.last()) =~= (
                join_with(p.drop_last(), sep).push(sep) + p.last()).push(s.last()));
            }
            assert(join_with(q, sep) =~= s);
        }
    }
}

/// No piece of a split holds the separator.
pub proof fn law_split_pieces_lack_separator(s: Seq<char>, sep: char)
    ensures
        forall|i: int|
            0 <= i < split_char(s, sep).len() ==> !(#[trigger] split_char(s, sep)[i]).contains(sep),
    decreases s.len(),
{
    if s.len() > 0 {
        law_split_pieces_lack_separator(s.drop_last(), sep);
        lemma_split_char_nonempty(s.drop_last(), sep);
        let p = split_char(s.drop_last(), sep);
        let q = split_char(s, sep);
        assert forall|i: int| 0 <= i < q.len() implies !(#[trigger] q[i]).contains(sep) by {
            if s.last() != sep && i == p.len() - 1 {
                assert(!p[i].contains(sep));
                if q[i].contains(sep) {
                    let k = choose|k: int| 0 <= k < q[i].len() && q[i][k] == sep;
                    assert(q[i] == p[i].push(s.last()));
                    if k < p[i].len() {
                        assert(p[i][k] == sep);
                    }
                }
            } else if s.last() == sep && i == p.len() {
                assert(q[i] =~= Seq::<char>::empty());
            } else {
                assert(q[i] == p[i]);
            }
        }
    }
}

proof fn lemma_words_scan(s: Seq<char>)
    ensures
        forall|i: int|
            0 <= i < words_scan(s).0.len() ==> (#[trigger] words_scan(s).0[i]).len() > 0 && forall|
                k: int,
            | 0 <= k < words_scan(s).0[i].len() ==> !is_whitespace(#[trigger] words_scan(s).0[i][k]),
        forall|k: int| 0 <= k < words_scan(s).1.len() ==> !is_whitespace(#[trigger] words_scan(s).1[k]),
    decreases s.len(),
{
    if s.len() > 0 {
        lemma_words_scan(s.drop_last());
        let (done, cur) = words_scan(s.drop_last());
        if !is_whitespace(s.last()) {
            assert forall|k: int| 0 <= k < cur.push(s.last()).len() implies !is_whitespace(
                #[trigger] cur.push(s.last())[k],
            ) by {
                if k < cur.len() {
                    assert(cur.push(s.last())[k] == cur[k]);
                }
            }
        }
    }
}

/// Every word of `split_ws` is non-empty and free of whitespace.
pub proof fn law_words_are_nonempty_and_unbroken(s: Seq<char>)
    ensures
        forall|i: int|
            0 <= i < split_ws(s).len() ==> (#[trigger] split_ws(s)[i]).len() > 0 && forall|k: int|
                0 <= k < split_ws(s)[i].len() ==> !is_whitespace(#[trigger] split_ws(s)[i][k]),
{
    lemma_words_scan(s);
}

/// Trimming the start keeps a suffix of `s` that starts with a non-whitespace character.
pub proof fn lemma_trimmed_start_shape(s: Seq<char>)
    ensures
        trimmed_start(s).len() > 0 ==> !is_whitespace(trimmed_start(s)[0]),
        trimmed_start(s).len() <= s.len(),
        trimmed_start(s) == s.skip(s.len() - trimmed_start(s).len()),
    decreases s.len(),
{
    if s.len() > 0 && is_whitespace(s[0]) {
        lemma_trimmed_start_shape(s.drop_first());
        assert(s.drop_first().skip(s.drop_first().len() - trimmed_start(s).len()) =~= s.skip(
            s.len() - trimmed_start(s).len(),
        ));
    } else {
        assert(s.skip(0) =~= s);
    }
}

/// Trimming the end keeps a prefix of `s` that ends with a non-whitespace character.
pub proof fn lemma_trimmed_end_shape(s: Seq<char>)
    ensures
        trimmed_end(s).len() > 0 ==> !is_whitespace(trimmed_end(s).last()),
        trimmed_end(s) == s.take(trimmed_end(s).len() as int),
        trimmed_end(s).len() <= s.len(),
    decreases s.len(),
{
    if s.len() > 0 && is_whitespace(s.last()) {
        lemma_trimmed_end_shape(s.drop_last());
        assert(s.drop_last().take(trimmed_end(s).len() as int) =~= s.take(
            trimmed_end(s).len() as int,
        ));
    } else {
        assert(s.take(s.len() as int) =~= s);
    }
}

/// Trimming leaves no whitespace at either end, and trimming twice is trimming once.
pub proof fn law_trim_settles(s: Seq<char>)
    ensures
        trimmed(s).len() > 0 ==> !is_whitespace(trimmed(s)[0]) && !is_whitespace(
            trimmed(s).last(),
        ),
        trimmed(trimmed(s)) == trimmed(s),
{
    let a = trimmed_start(s);
    lemma_trimmed_start_shape(s);
    lemma_trimmed_end_shape(a);
    let t = trimmed_end(a);
    if t.len() > 0 {
        assert(t[0] == a[0]);
        assert(!is_whitespace(t[0]));
        assert(trimmed_start(t) == t);
        assert(trimmed_end(t) == t);
    } else {
        assert(trimmed_start(t) == t);
        assert(trimmed_end(t) == t);
    }
}

/// A text without the separator splits into itself alone.
pub proof fn law_split_without_separator(k: Seq<char>, sep: char)
    requires
        !k.contains(sep),
    ensures
        split_char(k, sep) == seq![k],
    decreases k.len(),
{
    if k.len() > 0 {
        assert(!k.drop_last().contains(sep)) by {
            if k.drop_last().contains(sep) {
                let i = choose|i: int| 0 <= i < k.drop_last().len() && k.drop_last()[i] == sep;
                assert(k[i] == sep);
            }
        }
        law_split_without_separator(k.drop_last(), sep);
        assert(k.last() != sep) by {
            assert(k[k.len() - 1] == k.last());
        }
        assert(k.drop_last().push(k.last()) =~= k);
        assert(seq![k.drop_last()].last() == k.drop_last());
        assert(seq![k.drop_last()].update(0, k.drop_last().push(k.last())) =~= seq![k]);
    } else {
        assert(k =~= Seq::<char>::empty());
    }
}

/// The last piece of `p`, a separator and `k` (which holds no separator) is `k`,
/// whatever `p` is.
pub proof fn law_last_piece_after_separator(p: Seq<char>, k: Seq<char>, sep: char)
    requires
        !k.contains(sep),
    ensures
        split_char(p.push(sep) + k, sep).last() == k,
    decreases k.len(),
{
    let s = p.push(sep) + k;
    if k.len() == 0 {
        assert(s =~= p.push(sep));
        assert(s.drop_last() =~= p);
        lemma_split_char_nonempty(p, sep);
    } else {
        assert(!k.drop_last().contains(sep)) by {
            if k.drop_last().contains(sep) {
                let i = choose|i: int| 0 <= i < k.drop_last().len() && k.drop_last()[i] == sep;
                assert(k[i] == sep);
            }
        }
        law_last_piece_after_separator(p, k.drop_last(), sep);
        assert(s.drop_last() =~= p.push(sep) + k.drop_last());
        assert(s.last() == k.last());
        assert(k.last() != sep) by {
            assert(k[k.len() - 1] == k.last());
        }
        lemma_split_char_nonempty(s.drop_last(), sep);
        assert(k.drop_last().push(k.last()) =~= k);
    }
}

} // verus!
