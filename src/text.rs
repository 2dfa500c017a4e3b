use vstd::prelude::*;

verus! {

pub open spec fn is_digit(c: char) -> bool {
    '0' <= c && c <= '9'
}

pub open spec fn all_digits(s: Seq<char>) -> bool {
    forall|i: int| 0 <= i < s.len() ==> is_digit(s[i])
}

/// The value of a run of decimal digits, most significant first.
pub open spec fn decimal_value(s: Seq<char>) -> int
    decreases s.len(),
{
    if s.len() == 0 {
        0
    } else {
        decimal_value(s.drop_last()) * 10 + (s.last() as int - '0' as int)
    }
}

/// The integer a text denotes when it is one or more decimal digits,
/// optionally after a `+` sign, or (where `signed`) a `-` sign.
pub open spec fn decimal_text(s: Seq<char>, signed: bool) -> Option<int> {
    if s.len() > 0 && (s[0] == '+' || (signed && s[0] == '-')) {
        let d = s.drop_first();
        if d.len() > 0 && all_digits(d) {
            Some(
                if s[0] == '-' {
                    -decimal_value(d)
                } else {
                    decimal_value(d)
                },
            )
        } else {
            None
        }
    } else if s.len() > 0 && all_digits(s) {
        Some(decimal_value(s))
    } else {
        None
    }
}

proof fn lemma_decimal_nonneg(s: Seq<char>)
    requires
        all_digits(s),
    ensures
        decimal_value(s) >= 0,
    decreases s.len(),
{
    if s.len() > 0 {
        lemma_decimal_nonneg(s.drop_last());
    }
}

proof fn lemma_decimal_grows(s: Seq<char>, i: int, j: int)
    requires
        all_digits(s),
        0 <= i <= j <= s.len(),
    ensures
        decimal_value(s.subrange(0, i)) <= decimal_value(s.subrange(0, j)),
    decreases j - i,
{
    if i < j {
        lemma_decimal_grows(s, i, j - 1);
        let p = s.subrange(0, j);
        assert(p.drop_last() =~= s.subrange(0, j - 1));
        assert(all_digits(s.subrange(0, j - 1)));
        lemma_decimal_nonneg(s.subrange(0, j - 1));
    }
}

/// The value of the digits of `s` from index `from` on, when they are one or
/// more digits worth at most `cap`.
fn digits_capped(s: &str, from: usize, cap: u64) -> (r: Option<u64>)
    requires
        from <= s@.len(),
    ensures
        ({
            let d = s@.subrange(from as int, s@.len() as int);
            &&& r is Some <==> d.len() > 0 && all_digits(d) && decimal_value(d) <= cap
            &&& r matches Some(v) ==> v as int == decimal_value(d) && v <= cap
        }),
{
    let n = s.unicode_len();
    let ghost d = s@.subrange(from as int, s@.len() as int);
    if from == n {
        return None;
    }
    assert(d.subrange(0, 0) =~= Seq::<char>::empty());
    let mut acc: u128 = 0;
    let mut i: usize = from;
    while i < n
        invariant
            n == s@.len(),
            from <= i <= n,
            d == s@.subrange(from as int, n as int),
            all_digits(d.subrange(0, i - from)),
            acc == decimal_value(d.subrange(0, i - from)),
            acc <= cap,
        decreases n - i,
    {
        let c = s.get_char(i);
        if !('0' <= c && c <= '9') {
            assert(d[i - from] == c);
            return None;
        }
        let ghost before = d.subrange(0, i - from);
        acc = acc * 10 + (c as u32 - '0' as u32) as u128;
        i += 1;
        proof {
            assert(d.subrange(0, i - from).drop_last() =~= before);
            assert(d.subrange(0, i - from).last() == c);
        }
        if acc > cap as u128 {
            proof {
                if all_digits(d) {
                    lemma_decimal_grows(d, i - from, d.len() as int);
                    assert(d.subrange(0, d.len() as int) =~= d);
                }
            }
            return None;
        }
    }
    assert(d.subrange(0, n - from) =~= d);
    Some(acc as u64)
}

/// Reads a signed 64-bit decimal integer: an optional `+` or `-`, then
/// digits, nothing else.
pub fn parse_i64(s: &str) -> (r: Option<i64>)
    ensures
        r == match decimal_text(s@, true) {
            Some(v) => if i64::MIN <= v <= i64::MAX {
                Some(v as i64)
            } else {
                None::<i64>
            },
            None => None::<i64>,
        },
{
    let n = s.unicode_len();
    if n == 0 {
        return None;
    }
    let c = s.get_char(0);
    assert(s@.subrange(1, s@.len() as int) =~= s@.drop_first());
    assert(s@.subrange(0, s@.len() as int) =~= s@);
    if c == '-' {
        match digits_capped(s, 1, 9223372036854775808u64) {
            Some(v) => {
                if v == 9223372036854775808u64 {
                    Some(i64::MIN)
                } else {
                    Some(-(v as i64))
                }
            },
            None => None,
        }
    } else if c == '+' {
        match digits_capped(s, 1, 9223372036854775807u64) {
            Some(v) => Some(v as i64),
            None => None,
        }
    } else {
        match digits_capped(s, 0, 9223372036854775807u64) {
            Some(v) => Some(v as i64),
            None => None,
        }
    }
}

/// Reads an unsigned 16-bit decimal integer: an optional `+`, then digits,
/// nothing else.
pub fn parse_u16(s: &str) -> (r: Option<u16>)
    ensures
        r == match decimal_text(s@, false) {
            Some(v) => if 0 <= v <= u16::MAX {
                Some(v as u16)
            } else {
                None::<u16>
            },
            None => None::<u16>,
        },
{
    let n = s.unicode_len();
    if n == 0 {
        return None;
    }
    let c = s.get_char(0);
    assert(s@.subrange(1, s@.len() as int) =~= s@.drop_first());
    assert(s@.subrange(0, s@.len() as int) =~= s@);
    let from: usize = if c == '+' {
        1
    } else {
        0
    };
    let r = digits_capped(s, from, 65535u64);
    proof {
        if r is None && c != '+' && s@.len() > 0 && all_digits(s@) {
            lemma_decimal_nonneg(s@);
        }
        if c == '+' && s@.drop_first().len() > 0 && all_digits(s@.drop_first()) {
            lemma_decimal_nonneg(s@.drop_first());
        }
    }
    match r {
        Some(v) => Some(v as u16),
        None => None,
    }
}

/// The pieces of `s` between commas, in order; a text without commas is
/// one piece, and the empty text is one empty piece.
pub open spec fn comma_pieces(s: Seq<char>) -> Seq<Seq<char>>
    decreases s.len(),
{
    if s.len() == 0 {
        seq![Seq::<char>::empty()]
    } else {
        let pre = comma_pieces(s.drop_last());
        if s.last() == ',' {
            pre.push(Seq::<char>::empty())
        } else {
            pre.update(pre.len() - 1, pre.last().push(s.last()))
        }
    }
}

proof fn lemma_comma_pieces_nonempty(s: Seq<char>)
    ensures
        comma_pieces(s).len() >= 1,
    decreases s.len(),
{
    if s.len() > 0 {
        lemma_comma_pieces_nonempty(s.drop_last());
    }
}

/// Splits `s` at each comma.
pub fn split_commas(s: &str) -> (r: Vec<String>)
    ensures
        r@.map_values(|p: String| p@) == comma_pieces(s@),
{
    let n = s.unicode_len();
    let mut pieces: Vec<String> = Vec::new();
    let mut start: usize = 0;
    let mut i: usize = 0;
    proof {
        assert(s@.subrange(0, 0) =~= Seq::<char>::empty());
        assert(pieces@.map_values(|p: String| p@).push(s@.subrange(0, 0)) =~= seq![
            Seq::<char>::empty(),
        ]);
    }
    while i < n
        invariant
            n == s@.len(),
            start <= i <= n,
            pieces@.map_values(|p: String| p@).push(s@.subrange(start as int, i as int))
                == comma_pieces(s@.subrange(0, i as int)),
        decreases n - i,
    {
        let c = s.get_char(i);
        let ghost pre = comma_pieces(s@.subrange(0, i as int));
        proof {
            assert(s@.subrange(0, i + 1).drop_last() =~= s@.subrange(0, i as int));
            assert(s@.subrange(0, i + 1).last() == c);
            lemma_comma_pieces_nonempty(s@.subrange(0, i as int));
        }
        if c == ',' {
            let piece = s.substring_char(start, i).to_owned();
            let ghost old_pieces = pieces@;
            let ghost old_start = start as int;
            let ghost old_i = i as int;
            pieces.push(piece);
            start = i + 1;
            i += 1;
            proof {
                assert(pieces@.map_values(|p: String| p@) =~= old_pieces.map_values(
                    |p: String| p@,
                ).push(s@.subrange(old_start, old_i)));
                assert(s@.subrange(start as int, i as int) =~= Seq::<char>::empty());
            }
        } else {
            i += 1;
            proof {
                assert(s@.subrange(start as int, i as int) =~= s@.subrange(
                    start as int,
                    i - 1,
                ).push(c));
                assert(pieces@.map_values(|p: String| p@).push(s@.subrange(start as int, i as int))
                    =~= pre.update(pre.len() - 1, pre.last().push(c)));
            }
        }
    }
    let last = s.substring_char(start, n).to_owned();
    let ghost before = pieces@;
    pieces.push(last);
    proof {
        assert(s@.subrange(0, n as int) =~= s@);
        assert(pieces@.map_values(|p: String| p@) =~= before.map_values(|p: String| p@).push(
            s@.subrange(start as int, n as int),
        ));
    }
    pieces
}

} // verus!
