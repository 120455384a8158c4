use vstd::prelude::*;

verus! {

/// The views of a sequence of viewable values (e.g. the character sequences of
/// a sequence of strings).
pub open spec fn views<T: View>(s: Seq<T>) -> Seq<T::V> {
    s.map_values(|x: T| x@)
}

pub proof fn lemma_views_push<T: View>(s: Seq<T>, x: T)
    ensures
        views(s.push(x)) =~= views(s).push(x@),
{
}

/// Split `s` on every occurrence of `sep`, keeping empty pieces, exactly as
/// the standard splitter does: one more piece than separators.
pub open spec fn split_at_char(s: Seq<char>, sep: char) -> Seq<Seq<char>>
    decreases s.len(),
{
    if s.len() == 0 {
        seq![Seq::<char>::empty()]
    } else {
        let rest = split_at_char(s.subrange(1, s.len() as int), sep);
        if s[0] == sep {
            seq![Seq::<char>::empty()] + rest
        } else {
            seq![seq![s[0]] + rest[0]] + rest.subrange(1, rest.len() as int)
        }
    }
}

pub proof fn lemma_split_at_char_len(s: Seq<char>, sep: char)
    ensures
        split_at_char(s, sep).len() >= 1,
    decreases s.len(),
{
    if s.len() > 0 {
        lemma_split_at_char_len(s.subrange(1, s.len() as int), sep);
    }
}

/// The non-empty lines of `s`: split on line breaks, discard empty pieces.
pub open spec fn nonempty_lines(s: Seq<char>) -> Seq<Seq<char>> {
    split_at_char(s, '\n').filter(|p: Seq<char>| p.len() != 0)
}

/// Split `s` on every blank-line separator (two consecutive line breaks),
/// keeping empty pieces.
pub open spec fn split_on_blank(s: Seq<char>) -> Seq<Seq<char>>
    decreases s.len(),
{
    if s.len() == 0 {
        seq![Seq::<char>::empty()]
    } else if s.len() >= 2 && s[0] == '\n' && s[1] == '\n' {
        seq![Seq::<char>::empty()] + split_on_blank(s.subrange(2, s.len() as int))
    } else {
        let rest = split_on_blank(s.subrange(1, s.len() as int));
        seq![seq![s[0]] + rest[0]] + rest.subrange(1, rest.len() as int)
    }
}

pub proof fn lemma_split_on_blank_len(s: Seq<char>)
    ensures
        split_on_blank(s).len() >= 1,
    decreases s.len(),
{
    if s.len() >= 2 && s[0] == '\n' && s[1] == '\n' {
        lemma_split_on_blank_len(s.subrange(2, s.len() as int));
    } else if s.len() > 0 {
        lemma_split_on_blank_len(s.subrange(1, s.len() as int));
    }
}

/// Rewrite every windows-style blank-line separator (`\r\n\r\n`) as a plain
/// one (`\n\n`), scanning left to right.
pub open spec fn normalize_crlf(s: Seq<char>) -> Seq<char>
    decreases s.len(),
{
    if s.len() >= 4 && s[0] == '\r' && s[1] == '\n' && s[2] == '\r' && s[3] == '\n' {
        seq!['\n', '\n'] + normalize_crlf(s.subrange(4, s.len() as int))
    } else if s.len() == 0 {
        Seq::<char>::empty()
    } else {
        seq![s[0]] + normalize_crlf(s.subrange(1, s.len() as int))
    }
}

/// Join pieces back together with a blank-line separator between them.
pub open spec fn join_blank(pieces: Seq<Seq<char>>) -> Seq<char>
    decreases pieces.len(),
{
    if pieces.len() == 0 {
        Seq::<char>::empty()
    } else if pieces.len() == 1 {
        pieces[0]
    } else {
        pieces[0] + seq!['\n', '\n'] + join_blank(pieces.subrange(1, pieces.len() as int))
    }
}

/// Splitting on blank lines and joining the pieces again restores the text:
/// every snapshot is kept, in order, and nothing else is added.
pub proof fn lemma_join_split_on_blank(s: Seq<char>)
    ensures
        join_blank(split_on_blank(s)) =~= s,
    decreases s.len(),
{
    if s.len() == 0 {
    } else if s.len() >= 2 && s[0] == '\n' && s[1] == '\n' {
        let tail = s.subrange(2, s.len() as int);
        lemma_join_split_on_blank(tail);
        lemma_split_on_blank_len(tail);
        let r = split_on_blank(tail);
        let whole = seq![Seq::<char>::empty()] + r;
        assert(whole.len() >= 2);
        assert(whole.subrange(1, whole.len() as int) =~= r);
        assert(join_blank(whole) =~= seq!['\n', '\n'] + join_blank(r));
    } else {
        let tail = s.subrange(1, s.len() as int);
        lemma_join_split_on_blank(tail);
        lemma_split_on_blank_len(tail);
        let r = split_on_blank(tail);
        let whole = seq![seq![s[0]] + r[0]] + r.subrange(1, r.len() as int);
        assert(whole.len() == r.len());
        if r.len() == 1 {
            assert(join_blank(whole) == whole[0]);
            assert(whole[0] =~= seq![s[0]] + join_blank(r));
        } else {
            assert(whole.subrange(1, whole.len() as int) =~= r.subrange(1, r.len() as int));
            assert(join_blank(whole) =~= seq![s[0]] + join_blank(r));
        }
    }
}

/// Collect the characters of a string slice into a vector.
pub fn chars_of(s: &str) -> (v: Vec<char>)
    ensures
        v@ == s@,
{
    let n = s.unicode_len();
    let mut v: Vec<char> = Vec::new();
    let mut i: usize = 0;
    while i < n
        invariant
            i <= n,
            n == s@.len(),
            v@ =~= s@.subrange(0, i as int),
        decreases n - i,
    {
        v.push(s.get_char(i));
        i = i + 1;
        proof {
            assert(v@ =~= s@.subrange(0, i as int));
        }
    }
    proof {
        assert(v@ =~= s@);
    }
    v
}

/// Relies on std's `String::push`: appends the given character to the end of
/// the string.
#[verifier::external_body]
pub fn push_char(s: &mut String, c: char)
    ensures
        final(s)@ == old(s)@.push(c),
{
    s.push(c)
}

/// One step of `filter`, taken at the back of the sequence.
pub proof fn lemma_filter_push<A>(s: Seq<A>, x: A, pred: spec_fn(A) -> bool)
    ensures
        s.push(x).filter(pred) == if pred(x) {
            s.filter(pred).push(x)
        } else {
            s.filter(pred)
        },
{
    reveal(Seq::filter);
    assert(s.push(x).drop_last() =~= s);
}

/// The head piece of `rest` extended on the left with `cur`.
pub open spec fn glue(cur: Seq<char>, rest: Seq<Seq<char>>) -> Seq<Seq<char>> {
    seq![cur + rest[0]] + rest.subrange(1, rest.len() as int)
}

/// Split into pieces on every occurrence of `sep`, keeping empty pieces.
pub fn split_vec_at_char(chars: &Vec<char>, sep: char) -> (pieces: Vec<Vec<char>>)
    ensures
        views(pieces@) == split_at_char(chars@, sep),
{
    let n = chars.len();
    let mut pieces: Vec<Vec<char>> = Vec::new();
    let mut cur: Vec<char> = Vec::new();
    let mut i: usize = 0;
    proof {
        lemma_split_at_char_len(chars@, sep);
        assert(chars@.subrange(0, n as int) =~= chars@);
        assert(glue(Seq::<char>::empty(), split_at_char(chars@, sep)) =~~= split_at_char(
            chars@,
            sep,
        ));
    }
    while i < n
        invariant
            i <= n,
            n == chars@.len(),
            split_at_char(chars@, sep) =~= views(pieces@) + glue(
                cur@,
                split_at_char(chars@.subrange(i as int, n as int), sep),
            ),
        decreases n - i,
    {
        let ghost suffix = chars@.subrange(i as int, n as int);
        let ghost tail = chars@.subrange(i as int + 1, n as int);
        proof {
            assert(suffix.len() > 0);
            assert(suffix[0] == chars@[i as int]);
            assert(suffix.subrange(1, suffix.len() as int) =~= tail);
            lemma_split_at_char_len(tail, sep);
        }
        let ghost r = split_at_char(tail, sep);
        let c = chars[i];
        if c == sep {
            proof {
                assert(split_at_char(suffix, sep) =~= seq![Seq::<char>::empty()] + r);
                assert(glue(cur@, split_at_char(suffix, sep)) =~= seq![cur@] + r);
                assert(glue(Seq::<char>::empty(), r) =~= r);
                lemma_views_push(pieces@, cur);
            }
            pieces.push(cur);
            cur = Vec::new();
            proof {
                assert(views(pieces@) + glue(cur@, r) =~= split_at_char(chars@, sep));
            }
        } else {
            proof {
                assert(split_at_char(suffix, sep) =~= seq![seq![c] + r[0]] + r.subrange(
                    1,
                    r.len() as int,
                ));
                assert(glue(cur@, split_at_char(suffix, sep))[0] =~= cur@.push(c) + r[0]);
                assert(glue(cur@, split_at_char(suffix, sep)) =~= glue(cur@.push(c), r));
            }
            cur.push(c);
        }
        i = i + 1;
    }
    proof {
        assert(chars@.subrange(n as int, n as int) =~= Seq::<char>::empty());
        assert(glue(cur@, split_at_char(Seq::<char>::empty(), sep)) =~= seq![cur@]);
        lemma_views_push(pieces@, cur);
    }
    pieces.push(cur);
    pieces
}

/// The non-empty lines of the text, in order.
pub fn split_lines(chars: &Vec<char>) -> (rows: Vec<Vec<char>>)
    ensures
        views(rows@) == nonempty_lines(chars@),
{
    let pieces = split_vec_at_char(chars, '\n');
    let ghost pred = |p: Seq<char>| p.len() != 0;
    let mut rows: Vec<Vec<char>> = Vec::new();
    let mut j: usize = 0;
    while j < pieces.len()
        invariant
            j <= pieces@.len(),
            pred == (|p: Seq<char>| p.len() != 0),
            views(pieces@) == split_at_char(chars@, '\n'),
            views(rows@) == views(pieces@).subrange(0, j as int).filter(pred),
        decreases pieces@.len() - j,
    {
        let ghost prefix = views(pieces@).subrange(0, j as int);
        let ghost x = pieces@[j as int]@;
        proof {
            assert(views(pieces@).subrange(0, j as int + 1) =~= prefix.push(x));
            lemma_filter_push(prefix, x, pred);
        }
        if pieces[j].len() != 0 {
            let piece = pieces[j].clone();
            proof {
                assert(piece@ =~= x);
                assert(pred(x));
                lemma_views_push(rows@, piece);
                assert(views(rows@.push(piece)) =~= prefix.filter(pred).push(x));
                assert(prefix.push(x).filter(pred) =~= prefix.filter(pred).push(x));
            }
            rows.push(piece);
        } else {
            proof {
                assert(!pred(x));
                assert(prefix.push(x).filter(pred) =~= prefix.filter(pred));
            }
        }
        j = j + 1;
        proof {
            assert(views(pieces@).subrange(0, j as int) == prefix.push(x));
            assert(views(rows@) =~= views(pieces@).subrange(0, j as int).filter(pred));
        }
    }
    proof {
        assert(views(pieces@).subrange(0, pieces@.len() as int) =~= views(pieces@));
    }
    rows
}

/// Rewrite windows-style blank-line separators as plain ones.
pub fn normalize_chars(chars: &Vec<char>) -> (out: Vec<char>)
    ensures
        out@ == normalize_crlf(chars@),
{
    let n = chars.len();
    let mut out: Vec<char> = Vec::new();
    let mut i: usize = 0;
    proof {
        assert(chars@.subrange(0, n as int) =~= chars@);
    }
    while i < n
        invariant
            i <= n,
            n == chars@.len(),
            normalize_crlf(chars@) =~= out@ + normalize_crlf(chars@.subrange(i as int, n as int)),
        decreases n - i,
    {
        let ghost suffix = chars@.subrange(i as int, n as int);
        proof {
            assert(forall|k: int| 0 <= k < suffix.len() ==> suffix[k] == chars@[i as int + k]);
        }
        if n - i > 3 && chars[i] == '\r' && chars[i + 1] == '\n' && chars[i + 2] == '\r'
            && chars[i + 3] == '\n' {
            let ghost tail = chars@.subrange(i as int + 4, n as int);
            proof {
                assert(suffix.subrange(4, suffix.len() as int) =~= tail);
                assert(normalize_crlf(suffix) =~= seq!['\n', '\n'] + normalize_crlf(tail));
                assert(out@ + normalize_crlf(suffix) =~= out@.push('\n').push('\n')
                    + normalize_crlf(tail));
            }
            out.push('\n');
            out.push('\n');
            i = i + 4;
        } else {
            let ghost tail = chars@.subrange(i as int + 1, n as int);
            let c = chars[i];
            proof {
                assert(suffix.subrange(1, suffix.len() as int) =~= tail);
                assert(normalize_crlf(suffix) =~= seq![c] + normalize_crlf(tail));
                assert(out@ + normalize_crlf(suffix) =~= out@.push(c) + normalize_crlf(tail));
            }
            out.push(c);
            i = i + 1;
        }
    }
    proof {
        assert(chars@.subrange(n as int, n as int) =~= Seq::<char>::empty());
        assert(out@ =~= out@ + normalize_crlf(Seq::<char>::empty()));
    }
    out
}

/// Split the text on blank-line separators into owned snapshot strings,
/// keeping empty pieces.
pub fn split_steps(chars: &Vec<char>) -> (pieces: Vec<String>)
    ensures
        views(pieces@) == split_on_blank(chars@),
        pieces@.len() >= 1,
{
    let n = chars.len();
    let mut pieces: Vec<String> = Vec::new();
    let mut cur: String = String::new();
    let mut i: usize = 0;
    proof {
        lemma_split_on_blank_len(chars@);
        assert(chars@.subrange(0, n as int) =~= chars@);
        assert(glue(Seq::<char>::empty(), split_on_blank(chars@)) =~~= split_on_blank(chars@));
    }
    while i < n
        invariant
            i <= n,
            n == chars@.len(),
            split_on_blank(chars@) =~= views(pieces@) + glue(
                cur@,
                split_on_blank(chars@.subrange(i as int, n as int)),
            ),
        decreases n - i,
    {
        let ghost suffix = chars@.subrange(i as int, n as int);
        proof {
            assert(suffix.len() > 0);
            assert(forall|k: int| 0 <= k < suffix.len() ==> suffix[k] == chars@[i as int + k]);
        }
        if n - i > 1 && chars[i] == '\n' && chars[i + 1] == '\n' {
            let ghost tail = chars@.subrange(i as int + 2, n as int);
            let ghost r = split_on_blank(tail);
            proof {
                lemma_split_on_blank_len(tail);
                assert(suffix.subrange(2, suffix.len() as int) =~= tail);
                assert(split_on_blank(suffix) =~= seq![Seq::<char>::empty()] + r);
                assert(glue(cur@, split_on_blank(suffix)) =~= seq![cur@] + r);
                assert(glue(Seq::<char>::empty(), r) =~= r);
                lemma_views_push(pieces@, cur);
            }
            pieces.push(cur);
            cur = String::new();
            i = i + 2;
            proof {
                assert(views(pieces@) + glue(cur@, r) =~= split_on_blank(chars@));
            }
        } else {
            let ghost tail = chars@.subrange(i as int + 1, n as int);
            let ghost r = split_on_blank(tail);
            let c = chars[i];
            proof {
                lemma_split_on_blank_len(tail);
                assert(suffix.subrange(1, suffix.len() as int) =~= tail);
                assert(split_on_blank(suffix) =~= seq![seq![c] + r[0]] + r.subrange(
                    1,
                    r.len() as int,
                ));
                assert(glue(cur@, split_on_blank(suffix))[0] =~= cur@.push(c) + r[0]);
                assert(glue(cur@, split_on_blank(suffix)) =~= glue(cur@.push(c), r));
            }
            push_char(&mut cur, c);
            i = i + 1;
        }
    }
    proof {
        assert(chars@.subrange(n as int, n as int) =~= Seq::<char>::empty());
        assert(glue(cur@, split_on_blank(Seq::<char>::empty())) =~= seq![cur@]);
        lemma_views_push(pieces@, cur);
    }
    pieces.push(cur);
    pieces
}

} // verus!
