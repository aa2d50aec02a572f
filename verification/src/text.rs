//! Splitting of text the way the server reads headers and credentials.

use vstd::prelude::*;

verus! {

/// Whether a character is white space, as `char::is_whitespace` decides: it
/// has the Unicode `White_Space` property. In ASCII these are space and U+0009
/// through U+000D; beyond it, U+0085, U+00A0, U+1680, U+2000 through U+200A,
/// U+2028, U+2029, U+202F, U+205F and U+3000.
pub open spec fn char_is_whitespace(c: char) -> bool {
    let u = c as u32;
    ||| u == 0x20
    ||| 0x09 <= u <= 0x0d
    ||| u == 0x85
    ||| u == 0xa0
    ||| u == 0x1680
    ||| 0x2000 <= u <= 0x200a
    ||| u == 0x2028
    ||| u == 0x2029
    ||| u == 0x202f
    ||| u == 0x205f
    ||| u == 0x3000
}

/// Whether a character is white space: the Unicode `White_Space` code points
/// listed in `char_is_whitespace`, as `char::is_whitespace` decides.
pub fn is_whitespace(c: char) -> (r: bool)
    ensures
        r == char_is_whitespace(c),
{
    let u = c as u32;
    u == 0x20 || (0x09 <= u && u <= 0x0d) || u == 0x85 || u == 0xa0 || u == 0x1680 || (0x2000 <= u
        && u <= 0x200a) || u == 0x2028 || u == 0x2029 || u == 0x202f || u == 0x205f || u == 0x3000
}

/// The characters of `s`, one by one.
pub fn chars_of(s: &str) -> (r: Vec<char>)
    ensures
        r@ == s@,
{
    let n = s.unicode_len();
    let mut out: Vec<char> = Vec::new();
    let mut i: usize = 0;
    while i < n
        invariant
            n == s@.len(),
            i <= n,
            out@ == s@.take(i as int),
        decreases n - i,
    {
        let c = s.get_char(i);
        out.push(c);
        assert(s@.take(i + 1) =~= s@.take(i as int).push(c));
        i = i + 1;
    }
    assert(s@.take(n as int) =~= s@);
    out
}


/// Whether two texts are the same, character for character.
pub fn text_eq(a: &str, b: &str) -> (r: bool)
    ensures
        r == (a@ == b@),
{
    let ac = chars_of(a);
    let bc = chars_of(b);
    if ac.len() != bc.len() {
        return false;
    }
    let n = ac.len();
    let mut i: usize = 0;
    while i < n
        invariant
            n == ac@.len(),
            n == bc@.len(),
            ac@ == a@,
            bc@ == b@,
            i <= n,
            forall|j: int| 0 <= j < i ==> ac@[j] == bc@[j],
        decreases n - i,
    {
        if ac[i] != bc[i] {
            return false;
        }
        i = i + 1;
    }
    assert(ac@ =~= bc@);
    true
}

/// The views of a sequence of strings.
pub open spec fn strings_view(v: Seq<String>) -> Seq<Seq<char>> {
    v.map_values(|x: String| x@)
}

/// The maximal runs of characters that are not white space, in order:
/// what `str::split_whitespace` yields. Defined on prefixes: a new last
/// character either is white space (nothing changes), continues the last
/// run, or starts a new one.
pub open spec fn whitespace_tokens(s: Seq<char>) -> Seq<Seq<char>>
    decreases s.len(),
{
    if s.len() == 0 {
        Seq::empty()
    } else {
        let prev = whitespace_tokens(s.drop_last());
        let c = s.last();
        if char_is_whitespace(c) {
            prev
        } else if s.len() >= 2 && !char_is_whitespace(s[s.len() - 2]) && prev.len() > 0 {
            prev.update(prev.len() - 1, prev.last().push(c))
        } else {
            prev.push(seq![c])
        }
    }
}

/// Every token is non-empty and holds no white space.
pub proof fn lemma_whitespace_tokens_shape(s: Seq<char>)
    ensures
        forall|k: int|
            0 <= k < whitespace_tokens(s).len() ==> #[trigger] whitespace_tokens(s)[k].len() > 0,
        forall|k: int, j: int|
            0 <= k < whitespace_tokens(s).len() && 0 <= j < whitespace_tokens(s)[k].len()
                ==> !char_is_whitespace(#[trigger] whitespace_tokens(s)[k][j]),
        s.len() > 0 && !char_is_whitespace(s.last()) ==> whitespace_tokens(s).len() > 0,
    decreases s.len(),
{
    if s.len() > 0 {
        lemma_whitespace_tokens_shape(s.drop_last());
        let prev = whitespace_tokens(s.drop_last());
        let c = s.last();
        if !char_is_whitespace(c) {
            if s.len() >= 2 && !char_is_whitespace(s[s.len() - 2]) && prev.len() > 0 {
                let t = whitespace_tokens(s);
                assert forall|k: int, j: int|
                    0 <= k < t.len() && 0 <= j < t[k].len() implies !char_is_whitespace(
                    #[trigger] t[k][j],
                ) by {
                    if k == prev.len() - 1 && j == t[k].len() - 1 {
                        assert(t[k][j] == c);
                    } else if k == prev.len() - 1 {
                        assert(t[k][j] == prev[k][j]);
                    }
                }
            } else {
                let t = whitespace_tokens(s);
                assert forall|k: int, j: int|
                    0 <= k < t.len() && 0 <= j < t[k].len() implies !char_is_whitespace(
                    #[trigger] t[k][j],
                ) by {
                    if k == prev.len() {
                        assert(t[k] == seq![c]);
                    } else {
                        assert(t[k] == prev[k]);
                    }
                }
            }
        }
    }
}

/// A white-space character at the end adds no token.
proof fn lemma_tokens_after_white_space(p: Seq<char>, c: char)
    requires
        char_is_whitespace(c),
    ensures
        whitespace_tokens(p.push(c)) == whitespace_tokens(p),
{
    assert(p.push(c).drop_last() =~= p);
}

/// Characters without white space, after a text that is empty or ends in
/// white space, form one more token.
proof fn lemma_tokens_append_word(p: Seq<char>, w: Seq<char>)
    requires
        w.len() > 0,
        forall|i: int| 0 <= i < w.len() ==> !char_is_whitespace(#[trigger] w[i]),
        p.len() > 0 ==> char_is_whitespace(p.last()),
    ensures
        whitespace_tokens(p + w) == whitespace_tokens(p).push(w),
    decreases w.len(),
{
    if w.len() == 1 {
        assert((p + w).drop_last() =~= p);
        assert((p + w).last() == w[0]);
        if p.len() > 0 {
            assert((p + w)[(p + w).len() - 2] == p.last());
        }
        assert(seq![w[0]] =~= w);
    } else {
        let w1 = w.drop_last();
        assert forall|i: int| 0 <= i < w1.len() implies !char_is_whitespace(#[trigger] w1[i]) by {
            assert(w1[i] == w[i]);
        }
        lemma_tokens_append_word(p, w1);
        assert((p + w).drop_last() =~= p + w1);
        assert((p + w).last() == w.last());
        assert((p + w)[(p + w).len() - 2] == w[w.len() - 2]);
        let prev = whitespace_tokens(p + w1);
        assert(prev == whitespace_tokens(p).push(w1));
        assert(w1.push(w.last()) =~= w);
        assert(prev.update(prev.len() - 1, prev.last().push(w.last())) =~= whitespace_tokens(p).push(
            w,
        ));
    }
}

/// Two words without white space, with one white-space character between
/// them, are read as exactly those two tokens.
pub proof fn lemma_two_words(first: Seq<char>, space: char, second: Seq<char>)
    requires
        first.len() > 0,
        second.len() > 0,
        forall|i: int| 0 <= i < first.len() ==> !char_is_whitespace(#[trigger] first[i]),
        forall|i: int| 0 <= i < second.len() ==> !char_is_whitespace(#[trigger] second[i]),
        char_is_whitespace(space),
    ensures
        whitespace_tokens(first + seq![space] + second) == seq![first, second],
{
    lemma_tokens_append_word(Seq::<char>::empty(), first);
    assert(Seq::<char>::empty() + first =~= first);
    assert(whitespace_tokens(Seq::<char>::empty()) == Seq::<Seq<char>>::empty());
    lemma_tokens_after_white_space(first, space);
    assert(first + seq![space] =~= first.push(space));
    let p = first.push(space);
    lemma_tokens_append_word(p, second);
    assert(first + seq![space] + second =~= p + second);
    assert(seq![first, second] =~= Seq::<Seq<char>>::empty().push(first).push(second));
}

/// The text split at white space, as `str::split_whitespace` does:
/// the non-empty runs of characters that are not white space, in order.
pub fn split_whitespace_tokens(s: &str) -> (r: Vec<String>)
    ensures
        strings_view(r@) == whitespace_tokens(s@),
{
    let cs = chars_of(s);
    let n = cs.len();
    let mut done: Vec<String> = Vec::new();
    let mut start: usize = 0;
    let mut in_token = false;
    let mut i: usize = 0;
    while i < n
        invariant
            n == cs@.len(),
            cs@ == s@,
            i <= n,
            start <= i,
            in_token ==> start < i,
            in_token <==> (i > 0 && !char_is_whitespace(s@[i - 1])),
            in_token ==> forall|j: int| start <= j < i ==> !char_is_whitespace(#[trigger] s@[j]),
            in_token ==> whitespace_tokens(s@.take(i as int)) == strings_view(done@).push(
                s@.subrange(start as int, i as int),
            ),
            !in_token ==> whitespace_tokens(s@.take(i as int)) == strings_view(done@),
        decreases n - i,
    {
        let c = cs[i];
        let ws = is_whitespace(c);
        let ghost pre = s@.take(i as int);
        let ghost cur = s@.take(i + 1);
        assert(cur.drop_last() =~= pre);
        assert(cur.last() == c);
        if ws {
            if in_token {
                let piece = String::from_str(s.substring_char(start, i));
                done.push(piece);
                assert(strings_view(done@) =~= whitespace_tokens(pre));
            }
            in_token = false;
        } else {
            if !in_token {
                start = i;
                in_token = true;
                assert(s@.subrange(start as int, i + 1) =~= seq![c]);
            } else {
                assert(cur[cur.len() - 2] == s@[i - 1]);
                assert(s@.subrange(start as int, i + 1) =~= s@.subrange(start as int, i as int).push(c));
            }
            assert(strings_view(done@).push(s@.subrange(start as int, i + 1)) =~= whitespace_tokens(cur));
        }
        i = i + 1;
    }
    if in_token {
        let piece = String::from_str(s.substring_char(start, n));
        done.push(piece);
    }
    assert(s@.take(n as int) =~= s@);
    assert(strings_view(done@) =~= whitespace_tokens(s@));
    done
}


/// The pieces of `s` between the occurrences of `sep`, found from the left
/// without overlap: what `str::split` yields for a non-empty pattern.
pub open spec fn split_on(s: Seq<char>, sep: Seq<char>) -> Seq<Seq<char>>
    decreases s.len(),
{
    if sep.len() == 0 || s.len() < sep.len() {
        seq![s]
    } else if s.take(sep.len() as int) == sep {
        seq![Seq::<char>::empty()] + split_on(s.skip(sep.len() as int), sep)
    } else {
        let rest = split_on(s.drop_first(), sep);
        rest.update(0, seq![s[0]] + rest[0])
    }
}

/// `p` put in front of the first piece of `pieces`.
pub open spec fn prepend_to_first(p: Seq<char>, pieces: Seq<Seq<char>>) -> Seq<Seq<char>> {
    pieces.update(0, p + pieces[0])
}

/// Whether `sep` occurs in `s` starting at position `i`.
pub open spec fn occurs_at_spec(s: Seq<char>, sep: Seq<char>, i: int) -> bool {
    0 <= i && i + sep.len() <= s.len() && s.subrange(i, i + sep.len()) == sep
}

/// Whether `sep` occurs in `s` at some position.
pub open spec fn occurs_in(s: Seq<char>, sep: Seq<char>) -> bool {
    exists|i: int| #[trigger] occurs_at_spec(s, sep, i)
}

/// The pieces joined back together, with `sep` between neighbours.
pub open spec fn join_with(pieces: Seq<Seq<char>>, sep: Seq<char>) -> Seq<char>
    decreases pieces.len(),
{
    if pieces.len() == 0 {
        Seq::empty()
    } else if pieces.len() == 1 {
        pieces[0]
    } else {
        pieces[0] + sep + join_with(pieces.drop_first(), sep)
    }
}

/// Splitting always yields at least one piece.
pub proof fn lemma_split_on_nonempty(s: Seq<char>, sep: Seq<char>)
    ensures
        split_on(s, sep).len() >= 1,
    decreases s.len(),
{
    if sep.len() == 0 || s.len() < sep.len() {
    } else if s.take(sep.len() as int) == sep {
        lemma_split_on_nonempty(s.skip(sep.len() as int), sep);
    } else {
        lemma_split_on_nonempty(s.drop_first(), sep);
    }
}

/// Splitting then joining with the same separator gives the text back.
pub proof fn lemma_split_join(s: Seq<char>, sep: Seq<char>)
    ensures
        join_with(split_on(s, sep), sep) == s,
    decreases s.len(),
{
    if sep.len() == 0 || s.len() < sep.len() {
    } else if s.take(sep.len() as int) == sep {
        let tail = s.skip(sep.len() as int);
        lemma_split_join(tail, sep);
        lemma_split_on_nonempty(tail, sep);
        let pieces = split_on(s, sep);
        assert(pieces.drop_first() =~= split_on(tail, sep));
        assert(s =~= Seq::<char>::empty() + sep + tail);
    } else {
        let tail = s.drop_first();
        lemma_split_join(tail, sep);
        lemma_split_on_nonempty(tail, sep);
        let rest = split_on(tail, sep);
        let pieces = split_on(s, sep);
        if rest.len() == 1 {
            assert(s =~= seq![s[0]] + tail);
        } else {
            assert(pieces.drop_first() =~= rest.drop_first());
            assert(s =~= seq![s[0]] + (rest[0] + sep + join_with(rest.drop_first(), sep)));
        }
    }
}

/// A single piece comes out exactly when the separator does not occur,
/// and that piece is then the whole text.
pub proof fn lemma_split_single_piece(s: Seq<char>, sep: Seq<char>)
    requires
        sep.len() > 0,
    ensures
        (split_on(s, sep).len() == 1) == !occurs_in(s, sep),
        split_on(s, sep).len() == 1 ==> split_on(s, sep)[0] == s,
    decreases s.len(),
{
    lemma_split_on_nonempty(s, sep);
    let k = sep.len() as int;
    if s.len() < sep.len() {
        assert(split_on(s, sep) == seq![s]);
        assert forall|i: int| !#[trigger] occurs_at_spec(s, sep, i) by {}
    } else if s.take(k) == sep {
        let tail = s.skip(k);
        lemma_split_on_nonempty(tail, sep);
        assert(split_on(s, sep) == seq![Seq::<char>::empty()] + split_on(tail, sep));
        assert(split_on(s, sep).len() >= 2);
        assert(s.subrange(0, k) =~= s.take(k));
        assert(occurs_at_spec(s, sep, 0));
    } else {
        let tail = s.drop_first();
        lemma_split_single_piece(tail, sep);
        lemma_split_on_nonempty(tail, sep);
        let rest = split_on(tail, sep);
        assert(split_on(s, sep) == rest.update(0, seq![s[0]] + rest[0]));
        assert(split_on(s, sep).len() == rest.len());
        if occurs_in(s, sep) {
            let i = choose|i: int| #[trigger] occurs_at_spec(s, sep, i);
            if i == 0 {
                assert(s.take(k) =~= s.subrange(0, k));
                assert(false);
            } else {
                assert(tail.subrange(i - 1, i - 1 + k) =~= s.subrange(i, i + k));
                assert(occurs_at_spec(tail, sep, i - 1));
            }
        } else {
            assert forall|i: int| !#[trigger] occurs_at_spec(tail, sep, i) by {
                if 0 <= i && i + k <= tail.len() {
                    assert(tail.subrange(i, i + k) =~= s.subrange(i + 1, i + 1 + k));
                    assert(!occurs_at_spec(s, sep, i + 1));
                }
            }
            assert(!occurs_in(tail, sep));
        }
        if rest.len() == 1 {
            assert(seq![s[0]] + tail =~= s);
        }
    }
}

/// Splitting at a one-character separator a text made of a part without
/// that character, the separator and a rest gives the part, then the pieces
/// of the rest.
pub proof fn lemma_split_at_first(a: Seq<char>, c: char, b: Seq<char>)
    requires
        !a.contains(c),
    ensures
        split_on(a + seq![c] + b, seq![c]) == seq![a] + split_on(b, seq![c]),
    decreases a.len(),
{
    let s = a + seq![c] + b;
    let sep = seq![c];
    if a.len() == 0 {
        assert(s.take(1) =~= sep);
        assert(s.skip(1) =~= b);
        assert(a =~= Seq::<char>::empty());
    } else {
        assert(s.take(1) =~= seq![a[0]]);
        assert(a[0] != c);
        assert(s.take(1) != sep) by {
            assert(s.take(1)[0] != sep[0]);
        }
        let a1 = a.drop_first();
        assert(!a1.contains(c)) by {
            if a1.contains(c) {
                let j = choose|j: int| 0 <= j < a1.len() && a1[j] == c;
                assert(a[j + 1] == c);
            }
        }
        lemma_split_at_first(a1, c, b);
        assert(s.drop_first() =~= a1 + seq![c] + b);
        lemma_split_on_nonempty(b, sep);
        let rest = split_on(s.drop_first(), sep);
        assert(seq![s[0]] + a1 =~= a);
        assert(rest.update(0, seq![s[0]] + rest[0]) =~= seq![a] + split_on(b, sep));
    }
}

/// A text without the character is one piece.
pub proof fn lemma_split_without_char(b: Seq<char>, c: char)
    requires
        !b.contains(c),
    ensures
        split_on(b, seq![c]) == seq![b],
{
    lemma_split_on_nonempty(b, seq![c]);
    assert forall|i: int| !#[trigger] occurs_at_spec(b, seq![c], i) by {
        if 0 <= i && i + 1 <= b.len() && b.subrange(i, i + 1) == seq![c] {
            assert(b.subrange(i, i + 1)[0] == b[i]);
        }
    }
    lemma_split_single_piece(b, seq![c]);
    assert(split_on(b, seq![c]) =~= seq![b]);
}

/// Whether `sep` occurs in `s` at position `i`.
fn occurs_at(s: &Vec<char>, i: usize, sep: &Vec<char>) -> (r: bool)
    requires
        i + sep@.len() <= s@.len(),
    ensures
        r == (s@.subrange(i as int, i + sep@.len()) == sep@),
{
    let k = sep.len();
    let mut j: usize = 0;
    while j < k
        invariant
            k == sep@.len(),
            i + k <= s@.len(),
            j <= k,
            i + k <= s.len(),
            forall|m: int| 0 <= m < j ==> s@[i + m] == sep@[m],
        decreases k - j,
    {
        if s[i + j] != sep[j] {
            assert(s@.subrange(i as int, i + k)[j as int] != sep@[j as int]);
            return false;
        }
        j = j + 1;
    }
    assert(s@.subrange(i as int, i + k) =~= sep@);
    true
}

/// The text split at each occurrence of a non-empty separator, as `str::split` does.
pub fn split_by(s: &str, sep: &str) -> (r: Vec<String>)
    requires
        sep@.len() > 0,
    ensures
        strings_view(r@) == split_on(s@, sep@),
{
    let cs = chars_of(s);
    let ps = chars_of(sep);
    let n = cs.len();
    let k = ps.len();
    let mut acc: Vec<String> = Vec::new();
    let mut start: usize = 0;
    let mut i: usize = 0;
    proof {
        assert(s@.skip(0) =~= s@);
        lemma_split_on_nonempty(s@, sep@);
        assert(prepend_to_first(Seq::<char>::empty(), split_on(s@, sep@)) =~= split_on(s@, sep@));
        assert(s@.subrange(0, 0) =~= Seq::<char>::empty());
    }
    while k <= n - i
        invariant
            n == cs@.len(),
            k == ps@.len(),
            cs@ == s@,
            ps@ == sep@,
            k > 0,
            start <= i <= n,
            split_on(s@, sep@) == strings_view(acc@) + prepend_to_first(
                s@.subrange(start as int, i as int),
                split_on(s@.skip(i as int), sep@),
            ),
        decreases n - i,
    {
        let ghost rest = s@.skip(i as int);
        let ghost p = s@.subrange(start as int, i as int);
        assert(rest.take(k as int) =~= s@.subrange(i as int, i + k));
        if occurs_at(&cs, i, &ps) {
            proof {
                assert(rest.skip(k as int) =~= s@.skip(i + k));
                lemma_split_on_nonempty(s@.skip(i + k), sep@);
                let later = split_on(s@.skip(i + k), sep@);
                assert(split_on(rest, sep@) == seq![Seq::<char>::empty()] + later);
                assert(prepend_to_first(p, split_on(rest, sep@)) =~= seq![p] + later);
                assert(prepend_to_first(Seq::<char>::empty(), later) =~= later);
                assert(s@.subrange(i + k, i + k) =~= Seq::<char>::empty());
            }
            let ghost before = strings_view(acc@);
            let piece = String::from_str(s.substring_char(start, i));
            acc.push(piece);
            assert(strings_view(acc@) =~= before.push(p));
            i = i + k;
            start = i;
        } else {
            proof {
                assert(rest.drop_first() =~= s@.skip(i + 1));
                lemma_split_on_nonempty(s@.skip(i + 1), sep@);
                let later = split_on(s@.skip(i + 1), sep@);
                assert(rest[0] == s@[i as int]);
                assert(rest.len() >= k);
                assert(rest.take(k as int) != sep@);
                assert(split_on(rest, sep@) == prepend_to_first(seq![rest[0]], later));
                assert(p + (seq![rest[0]] + later[0]) =~= (p + seq![rest[0]]) + later[0]);
                assert(s@.subrange(start as int, i + 1) =~= p + seq![s@[i as int]]);
                assert(prepend_to_first(p, split_on(rest, sep@)) =~= prepend_to_first(
                    s@.subrange(start as int, i + 1),
                    later,
                ));
            }
            i = i + 1;
        }
    }
    proof {
        let rest = s@.skip(i as int);
        assert(split_on(rest, sep@) == seq![rest]);
        assert(s@.subrange(start as int, i as int) + rest =~= s@.subrange(start as int, n as int));
    }
    let piece = String::from_str(s.substring_char(start, n));
    acc.push(piece);
    proof {
        let rest = s@.skip(i as int);
        assert(prepend_to_first(s@.subrange(start as int, i as int), seq![rest]) =~= seq![
            s@.subrange(start as int, n as int),
        ]);
    }
    assert(strings_view(acc@) =~= split_on(s@, sep@));
    acc
}

} // verus!
