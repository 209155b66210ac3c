use vstd::prelude::*;

verus! {

/// The pieces of `s` between newline characters; there is always at least one.
pub open spec fn split_newline(s: Seq<char>) -> Seq<Seq<char>>
    decreases s.len(),
{
    if s.len() == 0 {
        seq![Seq::<char>::empty()]
    } else {
        let p = split_newline(s.drop_last());
        if s.last() == '\n' {
            p.push(Seq::<char>::empty())
        } else {
            p.update(p.len() - 1, p.last().push(s.last()))
        }
    }
}

/// `x` without one carriage return at its end.
pub open spec fn strip_cr(x: Seq<char>) -> Seq<char> {
    if x.len() > 0 && x.last() == '\r' {
        x.drop_last()
    } else {
        x
    }
}

/// The lines of `s` as `str::lines` gives them: a line ends at `\n` or `\r\n`,
/// which are not part of it, and an empty piece after the last newline is no line.
pub open spec fn std_lines(s: Seq<char>) -> Seq<Seq<char>> {
    let p = split_newline(s);
    let init = p.drop_last().map_values(|x: Seq<char>| strip_cr(x));
    if p.last().len() > 0 {
        init.push(p.last())
    } else {
        init
    }
}

/// The pieces of `s` between newlines, each without one carriage return at its end.
pub open spec fn split_newline_strip_cr(s: Seq<char>) -> Seq<Seq<char>> {
    split_newline(s).map_values(|x: Seq<char>| strip_cr(x))
}

/// The strings of `parts` with `sep` between each two.
pub open spec fn join(parts: Seq<Seq<char>>, sep: Seq<char>) -> Seq<char>
    decreases parts.len(),
{
    if parts.len() == 0 {
        Seq::empty()
    } else if parts.len() == 1 {
        parts[0]
    } else {
        join(parts.drop_last(), sep) + sep + parts.last()
    }
}

/// The views of a list of strings.
pub open spec fn views(v: Seq<String>) -> Seq<Seq<char>> {
    v.map_values(|s: String| s@)
}

/// There is always at least one piece between newlines.
pub(crate) proof fn lemma_split_newline_nonempty(s: Seq<char>)
    ensures
        split_newline(s).len() >= 1,
    decreases s.len(),
{
    if s.len() > 0 {
        lemma_split_newline_nonempty(s.drop_last());
    }
}

/// `String::push`: appends one character to `s`.
#[verifier::external_body]
pub(crate) fn push_char(s: &mut String, c: char)
    ensures
        final(s)@ == old(s)@.push(c),
{
    s.push(c)
}

/// The lines of `s`, split as `str::lines` splits them.
pub fn lines_of(s: &str) -> (r: Vec<String>)
    ensures
        views(r@) == std_lines(s@),
{
    let n = s.unicode_len();
    let mut lines: Vec<String> = Vec::new();
    let mut start: usize = 0;
    let mut i: usize = 0;
    proof {
        assert(s@.subrange(0, 0) =~= Seq::<char>::empty());
        assert(s@.subrange(0, 0) =~= s@.subrange(start as int, i as int));
    }
    while i < n
        invariant
            n == s@.len(),
            start <= i <= n,
            split_newline(s@.subrange(0, i as int)).len() == lines@.len() + 1,
            forall|j: int|
                0 <= j < lines@.len() ==> (#[trigger] lines@[j])@ == strip_cr(
                    split_newline(s@.subrange(0, i as int))[j],
                ),
            split_newline(s@.subrange(0, i as int)).last() == s@.subrange(start as int, i as int),
        decreases n - i,
    {
        let ghost pre = s@.subrange(0, i as int);
        let ghost p = split_newline(pre);
        let c = s.get_char(i);
        proof {
            assert(s@.subrange(0, i + 1).drop_last() =~= pre);
            assert(s@.subrange(0, i + 1).last() == c);
        }
        if c == '\n' {
            let mut end = i;
            if i > start {
                if s.get_char(i - 1) == '\r' {
                    end = i - 1;
                }
            }
            let piece = s.substring_char(start, end).to_owned();
            proof {
                let last = s@.subrange(start as int, i as int);
                if i > start {
                    assert(last.last() == s@[i - 1]);
                    if s@[i - 1] == '\r' {
                        assert(last.drop_last() =~= s@.subrange(start as int, end as int));
                    } else {
                        assert(last =~= s@.subrange(start as int, end as int));
                    }
                } else {
                    assert(last =~= s@.subrange(start as int, end as int));
                }
                assert(piece@ == strip_cr(p.last()));
            }
            lines.push(piece);
            start = i + 1;
            proof {
                assert(s@.subrange(start as int, i + 1) =~= Seq::<char>::empty());
            }
        } else {
            proof {
                assert(s@.subrange(start as int, i + 1) =~= s@.subrange(start as int, i as int).push(
                    c,
                ));
            }
        }
        i = i + 1;
    }
    proof {
        assert(s@.subrange(0, n as int) =~= s@);
    }
    let ghost p = split_newline(s@);
    let ghost init = p.drop_last().map_values(|x: Seq<char>| strip_cr(x));
    proof {
        assert(views(lines@) =~= init);
    }
    if start < n {
        let last = s.substring_char(start, n).to_owned();
        lines.push(last);
        proof {
            assert(views(lines@) =~= init.push(p.last()));
        }
    }
    lines
}

/// The strings of `parts` joined with `sep` between each two.
pub fn join_with(parts: &Vec<String>, sep: &str) -> (r: String)
    ensures
        r@ == join(views(parts@), sep@),
{
    let mut r = String::new();
    let mut i: usize = 0;
    while i < parts.len()
        invariant
            i <= parts@.len(),
            r@ == join(views(parts@).take(i as int), sep@),
        decreases parts@.len() - i,
    {
        proof {
            let t = views(parts@).take(i + 1);
            assert(t.drop_last() =~= views(parts@).take(i as int));
            assert(t.last() == parts@[i as int]@);
        }
        if i > 0 {
            r.append(sep);
        }
        r.append(parts[i].as_str());
        proof {
            if i == 0 {
                assert(r@ =~= join(views(parts@).take(1), sep@));
            }
        }
        i = i + 1;
    }
    proof {
        assert(views(parts@).take(parts@.len() as int) =~= views(parts@));
    }
    r
}

/// The decimal digit for `d`, which is below ten.
pub open spec fn digit_char(d: nat) -> char {
    if d == 0 {
        '0'
    } else if d == 1 {
        '1'
    } else if d == 2 {
        '2'
    } else if d == 3 {
        '3'
    } else if d == 4 {
        '4'
    } else if d == 5 {
        '5'
    } else if d == 6 {
        '6'
    } else if d == 7 {
        '7'
    } else if d == 8 {
        '8'
    } else {
        '9'
    }
}

/// The decimal notation of `n`, without leading zeros.
pub open spec fn decimal(n: nat) -> Seq<char>
    decreases n,
{
    if n < 10 {
        seq![digit_char(n)]
    } else {
        decimal(n / 10).push(digit_char(n % 10))
    }
}

proof fn lemma_digit_char_injective(a: nat, b: nat)
    requires
        a < 10,
        b < 10,
        digit_char(a) == digit_char(b),
    ensures
        a == b,
{
}

proof fn lemma_decimal_len(n: nat)
    ensures
        decimal(n).len() >= 1,
        decimal(n).len() == 1 <==> n < 10,
    decreases n,
{
    if n >= 10 {
        lemma_decimal_len(n / 10);
    }
}

/// Two numbers with the same decimal notation are equal.
pub proof fn lemma_decimal_injective(a: nat, b: nat)
    requires
        decimal(a) == decimal(b),
    ensures
        a == b,
    decreases a,
{
    lemma_decimal_len(a);
    lemma_decimal_len(b);
    if a < 10 {
        assert(decimal(a).len() == 1);
        assert(b < 10);
        assert(decimal(a)[0] == digit_char(a));
        assert(decimal(b)[0] == digit_char(b));
        lemma_digit_char_injective(a, b);
    } else {
        let da = decimal(a);
        let db = decimal(b);
        assert(da.last() == digit_char(a % 10));
        assert(db.last() == digit_char(b % 10));
        lemma_digit_char_injective(a % 10, b % 10);
        assert(da.drop_last() =~= decimal(a / 10));
        assert(db.drop_last() =~= decimal(b / 10));
        lemma_decimal_injective(a / 10, b / 10);
    }
}

fn digit(d: usize) -> (c: char)
    requires
        d < 10,
    ensures
        c == digit_char(d as nat),
{
    if d == 0 {
        '0'
    } else if d == 1 {
        '1'
    } else if d == 2 {
        '2'
    } else if d == 3 {
        '3'
    } else if d == 4 {
        '4'
    } else if d == 5 {
        '5'
    } else if d == 6 {
        '6'
    } else if d == 7 {
        '7'
    } else if d == 8 {
        '8'
    } else {
        '9'
    }
}

/// The decimal notation of `n`, as `usize::to_string` writes it.
pub fn decimal_string(n: usize) -> (r: String)
    ensures
        r@ == decimal(n as nat),
    decreases n,
{
    if n < 10 {
        let mut r = String::new();
        push_char(&mut r, digit(n));
        proof {
            assert(r@ =~= seq![digit_char(n as nat)]);
        }
        r
    } else {
        let mut r = decimal_string(n / 10);
        push_char(&mut r, digit(n % 10));
        r
    }
}

/// Whether `s` begins with a dollar sign.
pub fn starts_with_dollar(s: &str) -> (r: bool)
    ensures
        r == (s@.len() > 0 && s@[0] == '$'),
{
    if s.unicode_len() == 0 {
        false
    } else {
        s.get_char(0) == '$'
    }
}

/// Splitting at newlines and joining the pieces with newlines gives back the string.
pub proof fn lemma_join_split_newline(s: Seq<char>)
    ensures
        join(split_newline(s), "\n"@) == s,
    decreases s.len(),
{
    reveal_strlit("\n");
    if s.len() == 0 {
        assert(split_newline(s) =~= seq![Seq::<char>::empty()]);
    } else {
        let pre = s.drop_last();
        let p = split_newline(pre);
        lemma_join_split_newline(pre);
        lemma_split_newline_nonempty(pre);
        if s.last() == '\n' {
            let q = p.push(Seq::<char>::empty());
            assert(q.drop_last() =~= p);
            assert(join(q, "\n"@) =~= s);
        } else {
            let q = p.update(p.len() - 1, p.last().push(s.last()));
            assert(s =~= pre.push(s.last()));
            if p.len() == 1 {
                assert(q.len() == 1);
                assert(q[0] == p[0].push(s.last()));
                assert(join(q, "\n"@) =~= s);
            } else {
                assert(q.drop_last() =~= p.drop_last());
                assert(join(p, "\n"@) == join(p.drop_last(), "\n"@) + "\n"@ + p.last());
                assert(join(q, "\n"@) =~= s);
            }
        }
    }
}

/// The pieces between newlines hold only characters of the string, and no newline.
pub proof fn lemma_split_newline_chars(s: Seq<char>)
    ensures
        forall|i: int, j: int|
            0 <= i < split_newline(s).len() && 0 <= j < split_newline(s)[i].len() ==> s.contains(
                #[trigger] split_newline(s)[i][j],
            ) && split_newline(s)[i][j] != '\n',
    decreases s.len(),
{
    if s.len() > 0 {
        let pre = s.drop_last();
        lemma_split_newline_chars(pre);
        lemma_split_newline_nonempty(pre);
        let p = split_newline(pre);
        assert forall|i: int, j: int|
            0 <= i < split_newline(s).len() && 0 <= j < split_newline(s)[i].len() implies s.contains(
            #[trigger] split_newline(s)[i][j],
        ) && split_newline(s)[i][j] != '\n' by {
            let c = split_newline(s)[i][j];
            if s.last() == '\n' {
                assert(i < p.len());
                assert(p[i][j] == c);
                assert(pre.contains(c));
                let k = choose|k: int| 0 <= k < pre.len() && pre[k] == c;
                assert(s[k] == c);
            } else if i == p.len() - 1 && j == p.last().len() {
                assert(c == s.last());
                assert(s[s.len() - 1] == c);
            } else {
                assert(p[i][j] == c);
                assert(pre.contains(c));
                let k = choose|k: int| 0 <= k < pre.len() && pre[k] == c;
                assert(s[k] == c);
            }
        }
    }
}

/// In a string without carriage returns, stripping them from the pieces changes nothing.
pub proof fn lemma_split_no_cr(s: Seq<char>)
    requires
        !s.contains('\r'),
    ensures
        split_newline_strip_cr(s) == split_newline(s),
{
    lemma_split_newline_chars(s);
    let p = split_newline(s);
    assert forall|i: int| 0 <= i < p.len() implies strip_cr(#[trigger] p[i]) == p[i] by {
        if p[i].len() > 0 && p[i].last() == '\r' {
            assert(s.contains(p[i][p[i].len() - 1]));
        }
    }
    assert(split_newline_strip_cr(s) =~= p);
}

} // verus!
