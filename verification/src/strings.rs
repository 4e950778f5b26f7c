//! Character-level string utilities: equality, delimiter splitting and
//! joining, and decimal conversion.
//!
//! The locator's metadata file is line-oriented `KEY=VALUE` text whose
//! values are delimiter-separated lists, so exact splitting and joining
//! (and their round-trip behaviour) is a correctness requirement of the
//! build, not a convenience.
#![allow(unused_imports)]
use vstd::prelude::*;

verus! {

/// The result of splitting `s` at every occurrence of `sep`: always at
/// least one piece, pieces never contain `sep`, and the pieces joined
/// with `sep` give back `s`.
pub open spec fn split_spec(s: Seq<char>, sep: char) -> Seq<Seq<char>>
    decreases s.len(),
{
    if s.len() == 0 {
        seq![Seq::<char>::empty()]
    } else if s.last() == sep {
        split_spec(s.drop_last(), sep).push(Seq::<char>::empty())
    } else {
        let r = split_spec(s.drop_last(), sep);
        r.update(r.len() - 1, r.last().push(s.last()))
    }
}

/// The pieces interleaved with `sep`: the inverse of [`split_spec`] on
/// delimiter-free pieces.
pub open spec fn join_spec(pieces: Seq<Seq<char>>, sep: char) -> Seq<char>
    decreases pieces.len(),
{
    if pieces.len() == 0 {
        Seq::<char>::empty()
    } else if pieces.len() == 1 {
        pieces[0]
    } else {
        join_spec(pieces.drop_last(), sep).push(sep) + pieces.last()
    }
}

/// No piece contains the separator character.
pub open spec fn pieces_free_of(pieces: Seq<Seq<char>>, sep: char) -> bool {
    forall|i: int| 0 <= i < pieces.len() ==> !pieces[i].contains(sep)
}

pub proof fn lemma_split_len(s: Seq<char>, sep: char)
    ensures
        split_spec(s, sep).len() >= 1,
    decreases s.len(),
{
    if s.len() > 0 {
        lemma_split_len(s.drop_last(), sep);
    }
}

/// Splitting never loses or invents characters: the split pieces joined
/// with the separator are the original string.
pub proof fn lemma_join_of_split(s: Seq<char>, sep: char)
    ensures
        join_spec(split_spec(s, sep), sep) == s,
    decreases s.len(),
{
    if s.len() == 0 {
        assert(join_spec(split_spec(s, sep), sep) =~= s);
    } else {
        let t = s.drop_last();
        lemma_join_of_split(t, sep);
        lemma_split_len(t, sep);
        let r = split_spec(t, sep);
        if s.last() == sep {
            let r2 = r.push(Seq::<char>::empty());
            assert(r2.drop_last() =~= r);
            assert(join_spec(r2, sep) == join_spec(r, sep).push(sep) + Seq::<char>::empty());
            assert(join_spec(r, sep).push(sep) =~= s);
            assert(s + Seq::<char>::empty() =~= s);
        } else {
            let r2 = r.update(r.len() - 1, r.last().push(s.last()));
            if r.len() == 1 {
                assert(r2[0] == r[0].push(s.last()));
                assert(join_spec(r2, sep) == r2[0]);
                assert(join_spec(r, sep) == r[0]);
                assert(r[0].push(s.last()) =~= s);
            } else {
                assert(r2.drop_last() =~= r.drop_last());
                assert(join_spec(r2, sep) == join_spec(r2.drop_last(), sep).push(sep)
                    + r2.last());
                assert(join_spec(r, sep) == join_spec(r.drop_last(), sep).push(sep) + r.last());
                assert(r2.last() == r.last().push(s.last()));
                assert(join_spec(r.drop_last(), sep).push(sep) + r.last().push(s.last()) =~= (
                join_spec(r.drop_last(), sep).push(sep) + r.last()).push(s.last()));
                assert(t.push(s.last()) =~= s);
            }
        }
    }
}

/// Pieces produced by splitting never contain the separator.
pub proof fn lemma_split_free(s: Seq<char>, sep: char)
    ensures
        pieces_free_of(split_spec(s, sep), sep),
    decreases s.len(),
{
    if s.len() == 0 {
        assert forall|i: int| 0 <= i < 1 implies !split_spec(s, sep)[i].contains(sep) by {
            assert(split_spec(s, sep)[i] =~= Seq::<char>::empty());
        }
    } else {
        let t = s.drop_last();
        lemma_split_free(t, sep);
        lemma_split_len(t, sep);
        let r = split_spec(t, sep);
        if s.last() == sep {
        } else {
            let p = r.last().push(s.last());
            assert(!r.last().contains(sep));
            assert forall|j: int| 0 <= j < p.len() implies p[j] != sep by {
                if j < p.len() - 1 {
                    assert(r.last().contains(sep) <== r.last()[j] == sep);
                }
            }
            assert(!p.contains(sep));
        }
    }
}

/// Appending a separator character opens a fresh, empty piece.
pub proof fn lemma_split_push_sep(s: Seq<char>, sep: char)
    ensures
        split_spec(s.push(sep), sep) == split_spec(s, sep).push(Seq::<char>::empty()),
{
    assert(s.push(sep).drop_last() =~= s);
}

/// Appending separator-free text only extends the last piece.
pub proof fn lemma_split_append_free(s: Seq<char>, t: Seq<char>, sep: char)
    requires
        !t.contains(sep),
    ensures
        split_spec(s + t, sep) == split_spec(s, sep).update(
            split_spec(s, sep).len() - 1,
            split_spec(s, sep).last() + t,
        ),
    decreases t.len(),
{
    lemma_split_len(s, sep);
    let r = split_spec(s, sep);
    if t.len() == 0 {
        assert(s + t =~= s);
        assert(r.last() + t =~= r.last());
        assert(r.update(r.len() - 1, r.last() + t) =~= r);
    } else {
        let t0 = t.drop_last();
        assert(!t0.contains(sep)) by {
            assert forall|j: int| 0 <= j < t0.len() implies t0[j] != sep by {
                assert(t.contains(sep) <== t[j] == sep);
            }
        }
        lemma_split_append_free(s, t0, sep);
        let c = t.last();
        assert(t.contains(sep) <== t[t.len() - 1] == sep);
        assert(c != sep);
        assert((s + t).drop_last() =~= s + t0);
        assert((s + t).len() > 0);
        assert((s + t).last() == c);
        let r1 = split_spec(s + t0, sep);
        assert(r1 == r.update(r.len() - 1, r.last() + t0));
        assert(r1.last() == r.last() + t0);
        assert(split_spec(s + t, sep) == r1.update(r1.len() - 1, r1.last().push(c)));
        assert(r1.last().push(c) =~= r.last() + t);
        assert(r1.update(r1.len() - 1, r.last() + t) =~= r.update(r.len() - 1, r.last() + t));
    }
}

/// A separator-free string splits into exactly itself.
pub proof fn lemma_split_single(t: Seq<char>, sep: char)
    requires
        !t.contains(sep),
    ensures
        split_spec(t, sep) == seq![t],
{
    lemma_split_append_free(Seq::<char>::empty(), t, sep);
    assert(Seq::<char>::empty() + t =~= t);
    assert(split_spec(Seq::<char>::empty(), sep) == seq![Seq::<char>::empty()]);
    assert(seq![Seq::<char>::empty()].update(0, Seq::<char>::empty() + t) =~= seq![t]);
    assert(Seq::<char>::empty() + t =~= t);
}

/// Joining then splitting restores the pieces exactly, as long as no
/// piece contains the separator: the round-trip law of the delimiter
/// convention.
pub proof fn lemma_split_of_join(pieces: Seq<Seq<char>>, sep: char)
    requires
        pieces.len() >= 1,
        pieces_free_of(pieces, sep),
    ensures
        split_spec(join_spec(pieces, sep), sep) == pieces,
    decreases pieces.len(),
{
    if pieces.len() == 1 {
        lemma_split_single(pieces[0], sep);
        assert(seq![pieces[0]] =~= pieces);
    } else {
        let init = pieces.drop_last();
        assert(pieces_free_of(init, sep));
        lemma_split_of_join(init, sep);
        let j0 = join_spec(init, sep);
        lemma_split_push_sep(j0, sep);
        lemma_split_append_free(j0.push(sep), pieces.last(), sep);
        let r1 = split_spec(j0.push(sep), sep);
        assert(r1 == init.push(Seq::<char>::empty()));
        assert(join_spec(pieces, sep) == j0.push(sep) + pieces.last());
        assert(r1.last() =~= Seq::<char>::empty());
        assert(r1.last() + pieces.last() =~= pieces.last());
        assert(r1.update(r1.len() - 1, r1.last() + pieces.last()) =~= pieces);
    }
}

/// Splitting text of the shape `key sep rest` with a separator-free key
/// isolates the key as the first piece and leaves `rest` to split on its
/// own.
pub proof fn lemma_split_prefix_free(key: Seq<char>, rest: Seq<char>, sep: char)
    requires
        !key.contains(sep),
    ensures
        split_spec(key + seq![sep] + rest, sep) == seq![key] + split_spec(rest, sep),
    decreases rest.len(),
{
    lemma_split_len(rest, sep);
    if rest.len() == 0 {
        assert(key + seq![sep] + rest =~= key.push(sep));
        lemma_split_push_sep(key, sep);
        lemma_split_single(key, sep);
        assert(seq![key].push(Seq::<char>::empty()) =~= seq![key] + split_spec(rest, sep));
    } else {
        let r0 = rest.drop_last();
        let c = rest.last();
        lemma_split_prefix_free(key, r0, sep);
        lemma_split_len(r0, sep);
        let s = key + seq![sep] + rest;
        assert(s.drop_last() =~= key + seq![sep] + r0);
        assert(s.len() > 0);
        assert(s.last() == c);
        let ihr = seq![key] + split_spec(r0, sep);
        if c == sep {
            assert(split_spec(s, sep) == ihr.push(Seq::<char>::empty()));
            assert(split_spec(rest, sep) == split_spec(r0, sep).push(Seq::<char>::empty()));
            assert(ihr.push(Seq::<char>::empty()) =~= seq![key] + split_spec(r0, sep).push(
                Seq::<char>::empty(),
            ));
        } else {
            assert(split_spec(s, sep) == ihr.update(ihr.len() - 1, ihr.last().push(c)));
            assert(split_spec(rest, sep) == split_spec(r0, sep).update(
                split_spec(r0, sep).len() - 1,
                split_spec(r0, sep).last().push(c),
            ));
            assert(ihr.last() == split_spec(r0, sep).last());
            assert(ihr.update(ihr.len() - 1, ihr.last().push(c)) =~= seq![key] + split_spec(
                r0,
                sep,
            ).update(split_spec(r0, sep).len() - 1, split_spec(r0, sep).last().push(c)));
        }
    }
}

/// Joined pieces contain no character that the separator and all the
/// pieces are free of.
pub proof fn lemma_join_free(pieces: Seq<Seq<char>>, sep: char, c: char)
    requires
        c != sep,
        forall|i: int| 0 <= i < pieces.len() ==> !(#[trigger] pieces[i]).contains(c),
    ensures
        !join_spec(pieces, sep).contains(c),
    decreases pieces.len(),
{
    if pieces.len() == 0 {
    } else if pieces.len() == 1 {
        assert(!pieces[0].contains(c));
        assert(join_spec(pieces, sep) == pieces[0]);
    } else {
        let init = pieces.drop_last();
        lemma_join_free(init, sep, c);
        let j0 = join_spec(init, sep);
        let last = pieces.last();
        assert(!last.contains(c));
        let j = j0.push(sep) + last;
        assert forall|k: int| 0 <= k < j.len() implies j[k] != c by {
            if k < j0.len() {
                assert(j[k] == j0[k]);
                assert(j0.contains(c) <== j0[k] == c);
            } else if k == j0.len() {
                assert(j[k] == sep);
            } else {
                assert(j[k] == last[k - j0.len() - 1]);
                assert(last.contains(c) <== last[k - j0.len() - 1] == c);
            }
        }
        assert(!j.contains(c));
    }
}

/// Joining a non-empty list whose first piece is non-empty gives
/// non-empty text.
pub proof fn lemma_join_nonempty(pieces: Seq<Seq<char>>, sep: char)
    requires
        pieces.len() >= 1,
        pieces[0].len() >= 1,
    ensures
        join_spec(pieces, sep).len() >= 1,
    decreases pieces.len(),
{
    if pieces.len() == 1 {
    } else {
        lemma_join_nonempty(pieces.drop_last(), sep);
    }
}

/// An ASCII decimal digit.
pub open spec fn is_digit(c: char) -> bool {
    '0' <= c && c <= '9'
}

/// The numeric value of a decimal digit character.
pub open spec fn digit_val(c: char) -> nat {
    (c as nat - '0' as nat) as nat
}

/// A non-empty string of decimal digits.
pub open spec fn is_dec_digits(s: Seq<char>) -> bool {
    s.len() >= 1 && forall|i: int| 0 <= i < s.len() ==> is_digit(#[trigger] s[i])
}

/// The number denoted by a digit string, most significant digit first.
pub open spec fn dec_val(s: Seq<char>) -> nat
    decreases s.len(),
{
    if s.len() == 0 {
        0
    } else {
        dec_val(s.drop_last()) * 10 + digit_val(s.last())
    }
}

/// The digit character for a value below ten.
pub open spec fn digit_char(d: nat) -> char {
    if d == 0 {
        '0'
    } else if d == 1 {
        '1'
    } else if d == 2 {
        '2'
    } else if d == 3 {
        '3'
    } else if d == 4 {
        '4'
    } else if d == 5 {
        '5'
    } else if d == 6 {
        '6'
    } else if d == 7 {
        '7'
    } else if d == 8 {
        '8'
    } else {
        '9'
    }
}

/// The canonical decimal rendering of a number: no leading zeros except
/// for zero itself.
pub open spec fn dec_str(n: nat) -> Seq<char>
    decreases n,
{
    if n < 10 {
        seq![digit_char(n)]
    } else {
        dec_str(n / 10).push(digit_char(n % 10))
    }
}

/// The rendering of a number is a digit string denoting that number:
/// parsing inverts rendering.
pub proof fn lemma_dec_str_val(n: nat)
    ensures
        is_dec_digits(dec_str(n)),
        dec_val(dec_str(n)) == n,
    decreases n,
{
    if n < 10 {
        assert(dec_str(n).drop_last() =~= Seq::<char>::empty());
        assert(digit_val(digit_char(n)) == n);
        assert(dec_val(dec_str(n)) == dec_val(Seq::<char>::empty()) * 10 + digit_val(
            digit_char(n),
        ));
    } else {
        lemma_dec_str_val(n / 10);
        let s = dec_str(n / 10);
        assert(s.push(digit_char(n % 10)).drop_last() =~= s);
        assert(forall|i: int|
            0 <= i < s.push(digit_char(n % 10)).len() ==> is_digit(
                #[trigger] s.push(digit_char(n % 10))[i],
            ));
        assert(dec_val(dec_str(n)) == dec_val(s) * 10 + digit_val(digit_char(n % 10)));
        assert(digit_val(digit_char(n % 10)) == n % 10);
        assert(n / 10 * 10 + n % 10 == n);
    }
}

/// Every digit-string prefix denotes no more than the whole string.
pub proof fn lemma_dec_val_prefix(s: Seq<char>, i: int)
    requires
        0 <= i <= s.len(),
    ensures
        dec_val(s.take(i)) <= dec_val(s),
{
    if i == 0 {
        assert(s.take(0) =~= Seq::<char>::empty());
    } else {
        lemma_dec_val_prefix_step(s, i);
    }
}

proof fn lemma_dec_val_prefix_step(s: Seq<char>, j: int)
    requires
        0 < j <= s.len(),
    ensures
        dec_val(s.take(j)) <= dec_val(s),
    decreases s.len() - j,
{
    if j == s.len() {
        assert(s.take(j) =~= s);
    } else {
        lemma_dec_val_prefix_step(s, j + 1);
        assert(s.take(j + 1).drop_last() =~= s.take(j));
        assert(dec_val(s.take(j + 1)) == dec_val(s.take(j)) * 10 + digit_val(s.take(j + 1).last()));
    }
}

/// Parses a non-empty all-digit string as a `u64`.  Returns `None`
/// exactly when the text is not such a string or its value does not fit.
pub fn parse_u64(s: &str) -> (r: Option<u64>)
    ensures
        match r {
            Some(v) => is_dec_digits(s@) && v == dec_val(s@) && dec_val(s@) <= u64::MAX,
            None => !is_dec_digits(s@) || dec_val(s@) > u64::MAX,
        },
{
    let n: usize = s.unicode_len();
    if n == 0 {
        return None;
    }
    let mut val: u64 = 0;
    let mut i: usize = 0;
    proof {
        assert(s@.take(0) =~= Seq::<char>::empty());
    }
    while i < n
        invariant
            n == s@.len(),
            0 <= i <= n,
            forall|j: int| 0 <= j < i ==> is_digit(#[trigger] s@[j]),
            val == dec_val(s@.take(i as int)),
        decreases n - i,
    {
        let c = s.get_char(i);
        let cv = c as u32;
        proof {
            assert(s@.take(i + 1).drop_last() =~= s@.take(i as int));
            assert(s@.take(i + 1).last() == s@[i as int]);
        }
        if cv < 48 || cv > 57 {
            assert(!is_digit(s@[i as int]));
            return None;
        }
        let d: u64 = (cv - 48) as u64;
        assert(is_digit(s@[i as int]));
        assert(d == digit_val(s@[i as int]));
        if val > (u64::MAX - d) / 10 {
            proof {
                assert(dec_val(s@.take(i + 1)) == val * 10 + d);
                assert(val * 10 + d > u64::MAX) by (nonlinear_arith)
                    requires
                        val > (u64::MAX - d) / 10,
                        d <= 9,
                ;
                lemma_dec_val_prefix(s@, i + 1);
            }
            return None;
        }
        proof {
            assert(val * 10 + d <= u64::MAX) by (nonlinear_arith)
                requires
                    val <= (u64::MAX - d) / 10,
                    d <= 9,
            ;
        }
        val = val * 10 + d;
        i += 1;
    }
    proof {
        assert(s@.take(n as int) =~= s@);
    }
    Some(val)
}

/// Renders `n` in decimal, per [`dec_str`].
pub fn to_dec_string(n: u64) -> (r: String)
    ensures
        r@ == dec_str(n as nat),
    decreases n,
{
    if n < 10 {
        String::from_str(digit_str(n))
    } else {
        let mut r = to_dec_string(n / 10);
        r.append(digit_str(n % 10));
        proof {
            assert(dec_str((n / 10) as nat) + seq![digit_char((n % 10) as nat)] =~= dec_str(
                (n / 10) as nat,
            ).push(digit_char((n % 10) as nat)));
        }
        r
    }
}

fn digit_str(d: u64) -> (r: &'static str)
    requires
        d < 10,
    ensures
        r@ == seq![digit_char(d as nat)],
{
    proof {
        reveal_strlit("0");
        reveal_strlit("1");
        reveal_strlit("2");
        reveal_strlit("3");
        reveal_strlit("4");
        reveal_strlit("5");
        reveal_strlit("6");
        reveal_strlit("7");
        reveal_strlit("8");
        reveal_strlit("9");
    }
    let r = match d {
        0 => "0",
        1 => "1",
        2 => "2",
        3 => "3",
        4 => "4",
        5 => "5",
        6 => "6",
        7 => "7",
        8 => "8",
        _ => "9",
    };
    proof {
        assert(r@ =~= seq![digit_char(d as nat)]);
    }
    r
}

/// Character-for-character string equality.
pub fn str_eq(a: &str, b: &str) -> (r: bool)
    ensures
        r == (a@ == b@),
{
    let na: usize = a.unicode_len();
    let nb: usize = b.unicode_len();
    if na != nb {
        return false;
    }
    let mut i: usize = 0;
    while i < na
        invariant
            na == a@.len(),
            na == b@.len(),
            0 <= i <= na,
            forall|j: int| 0 <= j < i ==> a@[j] == b@[j],
        decreases na - i,
    {
        if a.get_char(i) != b.get_char(i) {
            assert(a@[i as int] != b@[i as int]);
            return false;
        }
        i += 1;
    }
    assert(a@ =~= b@);
    true
}

/// Splits `s` at every occurrence of the character `sep`, per
/// [`split_spec`].
pub fn split_char(s: &str, sep: char) -> (r: Vec<String>)
    ensures
        r.deep_view() == split_spec(s@, sep),
        r.len() >= 1,
{
    let n: usize = s.unicode_len();
    let mut out: Vec<String> = Vec::new();
    let mut start: usize = 0;
    let mut i: usize = 0;
    proof {
        assert(s@.subrange(0, 0) =~= Seq::<char>::empty());
        assert(s@.take(0) =~= Seq::<char>::empty());
        assert(out.deep_view().push(s@.subrange(0, 0)) =~= seq![Seq::<char>::empty()]);
    }
    while i < n
        invariant
            n == s@.len(),
            0 <= start <= i <= n,
            out.deep_view().push(s@.subrange(start as int, i as int)) == split_spec(
                s@.take(i as int),
                sep,
            ),
        decreases n - i,
    {
        let c = s.get_char(i);
        proof {
            assert(s@.take(i + 1).drop_last() =~= s@.take(i as int));
            assert(s@.take(i + 1).last() == s@[i as int]);
        }
        if c == sep {
            let piece = String::from_str(s.substring_char(start, i));
            let ghost old_dv = out.deep_view();
            out.push(piece);
            proof {
                assert(out.deep_view() =~= old_dv.push(piece@));
                assert(s@.subrange(i + 1, i + 1) =~= Seq::<char>::empty());
                assert(split_spec(s@.take(i + 1), sep) == split_spec(s@.take(i as int),
                    sep).push(Seq::<char>::empty()));
                assert(out.deep_view().push(s@.subrange(i + 1, i + 1)) =~= split_spec(
                    s@.take(i + 1),
                    sep,
                ));
            }
            start = i + 1;
        } else {
            proof {
                let r = split_spec(s@.take(i as int), sep);
                lemma_split_len(s@.take(i as int), sep);
                assert(r.last() == s@.subrange(start as int, i as int));
                assert(s@.subrange(start as int, i as int).push(s@[i as int]) =~= s@.subrange(
                    start as int,
                    i + 1,
                ));
                assert(out.deep_view().push(s@.subrange(start as int, i + 1)) =~= r.update(
                    r.len() - 1,
                    r.last().push(s@[i as int]),
                ));
            }
        }
        i += 1;
    }
    let last_piece = String::from_str(s.substring_char(start, n));
    let ghost old_dv = out.deep_view();
    out.push(last_piece);
    proof {
        assert(s@.take(n as int) =~= s@);
        assert(out.deep_view() =~= old_dv.push(s@.subrange(start as int, n as int)));
    }
    out
}

/// Joins the pieces with the single-character separator `sep`, per
/// [`join_spec`].
pub fn join_char(pieces: &Vec<String>, sep: &str) -> (r: String)
    requires
        sep@.len() == 1,
    ensures
        r@ == join_spec(pieces.deep_view(), sep@[0]),
{
    let c: char = sep.get_char(0);
    let mut r = String::new();
    let mut i: usize = 0;
    while i < pieces.len()
        invariant
            sep@.len() == 1,
            sep@[0] == c,
            0 <= i <= pieces.len(),
            r@ == join_spec(pieces.deep_view().take(i as int), sep@[0]),
        decreases pieces.len() - i,
    {
        proof {
            assert(pieces.deep_view().take(i + 1).drop_last() =~= pieces.deep_view().take(
                i as int,
            ));
            assert(pieces.deep_view().take(i + 1).last() == pieces.deep_view()[i as int]);
        }
        if i > 0 {
            r.append(sep);
            proof {
                assert(sep@ =~= seq![c]);
            }
        }
        r.append(pieces[i].as_str());
        proof {
            let dv = pieces.deep_view();
            if i == 0 {
                assert(join_spec(dv.take(1), c) == dv.take(1)[0]);
                assert(dv.take(1)[0] == dv[0]);
            } else {
                assert(join_spec(dv.take(i + 1), c) == join_spec(dv.take(i as int), c).push(c)
                    + dv[i as int]);
                assert(join_spec(dv.take(i as int), c).push(c) =~= join_spec(
                    dv.take(i as int),
                    c,
                ) + seq![c]);
            }
        }
        i += 1;
    }
    proof {
        assert(pieces.deep_view().take(pieces.len() as int) =~= pieces.deep_view());
    }
    r
}

} // verus!
