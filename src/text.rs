//! Character-level text helpers with their mathematical meaning: splitting on
//! a separator, on whitespace, into lines, trimming and joining.
use vstd::prelude::*;
use vstd::std_specs::iter::IteratorSpec;
use vstd::slice::slice_subrange;
use vstd::slice::slice_to_vec;

verus! {

/// The characters of `s`, in order.
pub fn chars_of(s: &str) -> (r: Vec<char>)
    ensures
        r@ == s@,
{
    broadcast use vstd::string::group_string_axioms;

    let mut it = s.chars();
    let mut out: Vec<char> = Vec::new();
    loop
        invariant
            out@ + it.remaining() == s@,
            it.obeys_prophetic_iter_laws(),
            it.decrease() is Some,
        ensures
            out@ == s@,
        decreases it.decrease()->0,
    {
        let ghost before = it.remaining();
        match it.next() {
            Some(c) => {
                proof {
                    assert(out@.push(c) + before.drop_first() =~= out@ + before);
                }
                out.push(c);
            },
            None => {
                proof {
                    assert(before.len() == 0);
                    assert(out@ + before =~= out@);
                    assert(out@ == s@);
                }
                break;
            },
        }
    }
    out
}

/// Relies on `String: FromIterator<char>`: a string made of exactly these characters.
#[verifier::external_body]
pub fn string_of(cs: &[char]) -> (r: String)
    ensures
        r@ == cs@,
{
    cs.iter().collect()
}

/// `char::is_whitespace`: the characters with the Unicode `White_Space` property.
pub open spec fn is_ws(c: char) -> bool {
    let u = c as u32;
    (0x09 <= u && u <= 0x0D) || u == 0x20 || u == 0x85 || u == 0xA0 || u == 0x1680
        || (0x2000 <= u && u <= 0x200A) || u == 0x2028 || u == 0x2029 || u == 0x202F
        || u == 0x205F || u == 0x3000
}

pub fn is_whitespace(c: char) -> (r: bool)
    ensures
        r == is_ws(c),
{
    let u = c as u32;
    (0x09 <= u && u <= 0x0D) || u == 0x20 || u == 0x85 || u == 0xA0 || u == 0x1680 || (0x2000
        <= u && u <= 0x200A) || u == 0x2028 || u == 0x2029 || u == 0x202F || u == 0x205F || u
        == 0x3000
}

/// The pieces of `s` between occurrences of `sep`; there is always one more
/// piece than there are separators.
pub open spec fn segs(s: Seq<char>, sep: char) -> Seq<Seq<char>>
    decreases s.len(),
{
    if s.len() == 0 {
        seq![Seq::<char>::empty()]
    } else {
        let p = segs(s.drop_last(), sep);
        if s.last() == sep {
            p.push(Seq::<char>::empty())
        } else {
            p.update(p.len() - 1, p.last().push(s.last()))
        }
    }
}

pub proof fn lemma_segs_nonempty(s: Seq<char>, sep: char)
    ensures
        segs(s, sep).len() >= 1,
    decreases s.len(),
{
    if s.len() > 0 {
        lemma_segs_nonempty(s.drop_last(), sep);
    }
}

/// The views of a sequence of character vectors.
pub open spec fn views(v: Seq<Vec<char>>) -> Seq<Seq<char>> {
    v.map_values(|w: Vec<char>| w@)
}

/// Splits `s` at every `sep`, as `str::split` with a character pattern does.
pub fn split_on(s: &Vec<char>, sep: char) -> (r: Vec<Vec<char>>)
    ensures
        views(r@) == segs(s@, sep),
{
    let mut done: Vec<Vec<char>> = Vec::new();
    let mut cur: Vec<char> = Vec::new();
    let n = s.len();
    let mut i: usize = 0;
    while i < n
        invariant
            n == s@.len(),
            i <= n,
            views(done@).push(cur@) == segs(s@.subrange(0, i as int), sep),
        decreases n - i,
    {
        let c = s[i];
        proof {
            let t = s@.subrange(0, i as int + 1);
            assert(t.drop_last() =~= s@.subrange(0, i as int));
            assert(t.last() == c);
        }
        if c == sep {
            let old_cur = cur;
            proof {
                assert(views(done@.push(old_cur)) =~= views(done@).push(old_cur@));
            }
            done.push(old_cur);
            cur = Vec::new();
        } else {
            proof {
                assert(views(done@).push(cur@.push(c)) =~= views(done@).push(cur@).update(
                    done@.len() as int,
                    cur@.push(c),
                ));
            }
            cur.push(c);
        }
        i += 1;
    }
    proof {
        assert(s@.subrange(0, n as int) =~= s@);
        assert(views(done@.push(cur)) =~= views(done@).push(cur@));
    }
    done.push(cur);
    done
}

/// The maximal runs of non-whitespace characters of `s`, in order, as
/// `str::split_whitespace` yields them.
pub open spec fn fields(s: Seq<char>) -> Seq<Seq<char>>
    decreases s.len(),
{
    if s.len() == 0 {
        Seq::<Seq<char>>::empty()
    } else if is_ws(s.last()) {
        fields(s.drop_last())
    } else if s.len() >= 2 && !is_ws(s[s.len() - 2]) {
        let p = fields(s.drop_last());
        p.update(p.len() - 1, p.last().push(s.last()))
    } else {
        fields(s.drop_last()).push(seq![s.last()])
    }
}

/// Splits `s` into its whitespace-separated words.
pub fn split_fields(s: &Vec<char>) -> (r: Vec<Vec<char>>)
    ensures
        views(r@) == fields(s@),
{
    let mut done: Vec<Vec<char>> = Vec::new();
    let mut cur: Vec<char> = Vec::new();
    let n = s.len();
    let mut i: usize = 0;
    while i < n
        invariant
            n == s@.len(),
            i <= n,
            cur@.len() > 0 <==> (i > 0 && !is_ws(s@[i - 1])),
            cur@.len() > 0 ==> views(done@).push(cur@) == fields(s@.subrange(0, i as int)),
            cur@.len() == 0 ==> views(done@) == fields(s@.subrange(0, i as int)),
        decreases n - i,
    {
        let c = s[i];
        proof {
            let t = s@.subrange(0, i as int + 1);
            assert(t.drop_last() =~= s@.subrange(0, i as int));
            assert(t.last() == c);
            if i > 0 {
                assert(t[t.len() - 2] == s@[i - 1]);
            }
        }
        if is_whitespace(c) {
            if cur.len() > 0 {
                let w = cur;
                proof {
                    assert(views(done@.push(w)) =~= views(done@).push(w@));
                }
                done.push(w);
                cur = Vec::new();
            }
        } else {
            proof {
                if cur@.len() > 0 {
                    assert(views(done@).push(cur@.push(c)) =~= views(done@).push(cur@).update(
                        done@.len() as int,
                        cur@.push(c),
                    ));
                } else {
                    assert(cur@.push(c) =~= seq![c]);
                }
            }
            cur.push(c);
        }
        i += 1;
    }
    proof {
        assert(s@.subrange(0, n as int) =~= s@);
    }
    if cur.len() > 0 {
        proof {
            assert(views(done@.push(cur)) =~= views(done@).push(cur@));
        }
        done.push(cur);
    }
    done
}

/// `s` without its leading whitespace.
pub open spec fn trim_start(s: Seq<char>) -> Seq<char>
    decreases s.len(),
{
    if s.len() > 0 && is_ws(s[0]) {
        trim_start(s.drop_first())
    } else {
        s
    }
}

/// `s` without its trailing whitespace.
pub open spec fn trim_end(s: Seq<char>) -> Seq<char>
    decreases s.len(),
{
    if s.len() > 0 && is_ws(s.last()) {
        trim_end(s.drop_last())
    } else {
        s
    }
}

/// `s` without leading and trailing whitespace, as `str::trim` gives it.
pub open spec fn trim(s: Seq<char>) -> Seq<char> {
    trim_end(trim_start(s))
}

/// The characters of `s` without leading and trailing whitespace.
pub fn trim_chars(s: &Vec<char>) -> (r: Vec<char>)
    ensures
        r@ == trim(s@),
{
    let n = s.len();
    let mut a: usize = 0;
    proof {
        assert(s@.subrange(0, n as int) =~= s@);
    }
    while a < n && is_whitespace(s[a])
        invariant
            n == s@.len(),
            a <= n,
            trim_start(s@) == trim_start(s@.subrange(a as int, n as int)),
        decreases n - a,
    {
        proof {
            assert(s@.subrange(a as int, n as int).drop_first() =~= s@.subrange(
                a as int + 1,
                n as int,
            ));
        }
        a += 1;
    }
    let mut b: usize = n;
    while b > a && is_whitespace(s[b - 1])
        invariant
            n == s@.len(),
            a <= b <= n,
            trim(s@) == trim_end(s@.subrange(a as int, b as int)),
        decreases b,
    {
        proof {
            assert(s@.subrange(a as int, b as int).drop_last() =~= s@.subrange(
                a as int,
                b as int - 1,
            ));
        }
        b -= 1;
    }
    slice_to_vec(slice_subrange(s.as_slice(), a, b))
}

/// The words of `ws` with `sep` between each two of them, as `join` gives it.
pub open spec fn join(ws: Seq<Seq<char>>, sep: char) -> Seq<char>
    decreases ws.len(),
{
    if ws.len() == 0 {
        Seq::<char>::empty()
    } else if ws.len() == 1 {
        ws[0]
    } else {
        join(ws.drop_last(), sep).push(sep) + ws.last()
    }
}

/// Joins the words `ws[from..]` with `sep` between each two of them.
pub fn join_from(ws: &Vec<Vec<char>>, from: usize, sep: char) -> (r: Vec<char>)
    requires
        from <= ws@.len(),
    ensures
        r@ == join(views(ws@).subrange(from as int, ws@.len() as int), sep),
{
    let n = ws.len();
    let mut out: Vec<char> = Vec::new();
    let mut i: usize = from;
    while i < n
        invariant
            n == ws@.len(),
            from <= i <= n,
            out@ == join(views(ws@).subrange(from as int, i as int), sep),
        decreases n - i,
    {
        let mut w = slice_to_vec(ws[i].as_slice());
        proof {
            let t = views(ws@).subrange(from as int, i as int + 1);
            assert(t.drop_last() =~= views(ws@).subrange(from as int, i as int));
            assert(t.last() == ws@[i as int]@);
        }
        if i > from {
            out.push(sep);
        }
        out.append(&mut w);
        proof {
            if i == from {
                assert(out@ =~= views(ws@).subrange(from as int, i as int + 1)[0]);
            }
        }
        i += 1;
    }
    out
}

/// The lines of `s`, as `str::lines` gives them: split at each `\n`, a `\r`
/// just before a `\n` dropped, and no empty last line after a final `\n`.
pub open spec fn lines(s: Seq<char>) -> Seq<Seq<char>> {
    let p = segs(s, '\n');
    let ended = p.drop_last().map_values(|l: Seq<char>| strip_cr(l));
    if p.last().len() == 0 {
        ended
    } else {
        ended.push(p.last())
    }
}

/// `l` without one trailing carriage return.
pub open spec fn strip_cr(l: Seq<char>) -> Seq<char> {
    if l.len() > 0 && l.last() == '\r' {
        l.drop_last()
    } else {
        l
    }
}

/// Splits the text `s` into its lines.
pub fn split_lines(s: &Vec<char>) -> (r: Vec<Vec<char>>)
    ensures
        views(r@) == lines(s@),
{
    let pieces = split_on(s, '\n');
    proof {
        lemma_segs_nonempty(s@, '\n');
    }
    let n = pieces.len();
    let mut out: Vec<Vec<char>> = Vec::new();
    let mut i: usize = 0;
    while i + 1 < n
        invariant
            n == pieces@.len(),
            n >= 1,
            i < n,
            views(pieces@) == segs(s@, '\n'),
            views(out@) == views(pieces@).subrange(0, i as int).map_values(
                |l: Seq<char>| strip_cr(l),
            ),
        decreases n - i,
    {
        let l = &pieces[i];
        let k = l.len();
        let line = if k > 0 && l[k - 1] == '\r' {
            slice_to_vec(slice_subrange(l.as_slice(), 0, k - 1))
        } else {
            slice_to_vec(l.as_slice())
        };
        proof {
            assert(views(pieces@)[i as int] == l@);
            if k > 0 && l@[k - 1] == '\r' {
                assert(l@.subrange(0, k - 1) =~= l@.drop_last());
            }
            assert(line@ == strip_cr(l@));
            let f = |l: Seq<char>| strip_cr(l);
            assert(views(out@.push(line)) =~= views(out@).push(line@));
            assert(views(pieces@).subrange(0, i as int + 1).map_values(f) =~= views(
                pieces@,
            ).subrange(0, i as int).map_values(f).push(f(views(pieces@)[i as int])));
        }
        out.push(line);
        i += 1;
    }
    proof {
        assert(views(pieces@).subrange(0, i as int) =~= segs(s@, '\n').drop_last());
        assert(views(pieces@)[i as int] == segs(s@, '\n').last());
    }
    if pieces[i].len() > 0 {
        let last = slice_to_vec(pieces[i].as_slice());
        proof {
            assert(views(out@.push(last)) =~= views(out@).push(last@));
        }
        out.push(last);
    }
    out
}

/// The views of a sequence of strings.
pub open spec fn string_views(v: Seq<String>) -> Seq<Seq<char>> {
    v.map_values(|w: String| w@)
}

/// The text after the last `sep` in `s`, or all of `s` where it holds none.
pub open spec fn after_last(s: Seq<char>, sep: char) -> Seq<char> {
    segs(s, sep).last()
}

/// The part of `s` after its last `/`: the name in a `repository/name` pair.
pub fn base_name(s: &str) -> (r: String)
    ensures
        r@ == after_last(s@, '/'),
{
    let cs = chars_of(s);
    let parts = split_on(&cs, '/');
    proof {
        lemma_segs_nonempty(s@, '/');
        assert(views(parts@)[parts@.len() - 1] == parts@[parts@.len() - 1]@);
    }
    string_of(parts[parts.len() - 1].as_slice())
}

/// The `repository/name` pairs of `packages` reduced to their names.
pub fn base_names(packages: &Vec<String>) -> (r: Vec<String>)
    ensures
        string_views(r@) == string_views(packages@).map_values(|p: Seq<char>| after_last(p, '/')),
{
    let mut out: Vec<String> = Vec::new();
    let mut i: usize = 0;
    while i < packages.len()
        invariant
            i <= packages@.len(),
            string_views(out@) == string_views(packages@).subrange(0, i as int).map_values(
                |p: Seq<char>| after_last(p, '/'),
            ),
        decreases packages@.len() - i,
    {
        let b = base_name(packages[i].as_str());
        proof {
            let f = |p: Seq<char>| after_last(p, '/');
            assert(string_views(out@.push(b)) =~= string_views(out@).push(b@));
            assert(string_views(packages@).subrange(0, i as int + 1).map_values(f)
                =~= string_views(packages@).subrange(0, i as int).map_values(f).push(
                f(packages@[i as int]@),
            ));
        }
        out.push(b);
        i += 1;
    }
    proof {
        assert(string_views(packages@).subrange(0, i as int) =~= string_views(packages@));
    }
    out
}

/// The character of the decimal digit `d`.
pub open spec fn digit_char(d: nat) -> char {
    if d == 0 {
        '0'
    } else if d == 1 {
        '1'
    } else if d == 2 {
        '2'
    } else if d == 3 {
        '3'
    } else if d == 4 {
        '4'
    } else if d == 5 {
        '5'
    } else if d == 6 {
        '6'
    } else if d == 7 {
        '7'
    } else if d == 8 {
        '8'
    } else {
        '9'
    }
}

/// `n` written in decimal, without leading zeros.
pub open spec fn decimal(n: nat) -> Seq<char>
    decreases n,
{
    if n < 10 {
        seq![digit_char(n)]
    } else {
        decimal(n / 10).push(digit_char(n % 10))
    }
}

fn digit(d: usize) -> (r: char)
    requires
        d < 10,
    ensures
        r == digit_char(d as nat),
{
    if d == 0 {
        '0'
    } else if d == 1 {
        '1'
    } else if d == 2 {
        '2'
    } else if d == 3 {
        '3'
    } else if d == 4 {
        '4'
    } else if d == 5 {
        '5'
    } else if d == 6 {
        '6'
    } else if d == 7 {
        '7'
    } else if d == 8 {
        '8'
    } else {
        '9'
    }
}

/// The decimal digits of `n`.
pub fn decimal_chars(n: usize) -> (r: Vec<char>)
    ensures
        r@ == decimal(n as nat),
    decreases n,
{
    if n < 10 {
        vec![digit(n)]
    } else {
        let mut v = decimal_chars(n / 10);
        v.push(digit(n % 10));
        v
    }
}

/// `a`, then `n` in decimal, then `b`.
pub fn with_count(a: &str, n: usize, b: &str) -> (r: String)
    ensures
        r@ == a@ + decimal(n as nat) + b@,
{
    let digits = string_of(decimal_chars(n).as_slice());
    let mut r = String::from_str(a);
    r.append(digits.as_str());
    r.append(b);
    r
}

/// `s` with every `{}` replaced by `item`, scanning from the left, as
/// `str::replace("{}", item)` does.
pub open spec fn substitute(s: Seq<char>, item: Seq<char>) -> Seq<char>
    decreases s.len(),
{
    if s.len() == 0 {
        s
    } else if s.len() >= 2 && s[0] == '{' && s[1] == '}' {
        item + substitute(s.subrange(2, s.len() as int), item)
    } else {
        seq![s[0]] + substitute(s.drop_first(), item)
    }
}

/// Puts `item` in place of every `{}` of `template`.
pub fn substitute_item(template: &str, item: &str) -> (r: String)
    ensures
        r@ == substitute(template@, item@),
{
    let s = chars_of(template);
    let it = chars_of(item);
    let n = s.len();
    let mut out: Vec<char> = Vec::new();
    let mut i: usize = 0;
    proof {
        assert(s@.subrange(0, n as int) =~= s@);
    }
    while i < n
        invariant
            n == s@.len(),
            i <= n,
            it@ == item@,
            substitute(s@, item@) == out@ + substitute(s@.subrange(i as int, n as int), item@),
        decreases n - i,
    {
        let ghost rest = s@.subrange(i as int, n as int);
        if i + 1 < n && s[i] == '{' && s[i + 1] == '}' {
            proof {
                assert(rest.subrange(2, rest.len() as int) =~= s@.subrange(i as int + 2, n as int));
            }
            let ghost before = out@;
            let mut copy = slice_to_vec(it.as_slice());
            out.append(&mut copy);
            proof {
                let tail = substitute(s@.subrange(i as int + 2, n as int), item@);
                assert(before + (item@ + tail) =~= (before + item@) + tail);
            }
            i += 2;
        } else {
            proof {
                assert(rest.drop_first() =~= s@.subrange(i as int + 1, n as int));
                assert(out@.push(s@[i as int]) + substitute(s@.subrange(i as int + 1, n as int), item@)
                    =~= out@ + (seq![s@[i as int]] + substitute(rest.drop_first(), item@)));
            }
            out.push(s[i]);
            i += 1;
        }
    }
    proof {
        assert(out@ + substitute(s@.subrange(i as int, n as int), item@) =~= out@);
    }
    string_of(out.as_slice())
}

/// Whether `char::is_alphabetic` holds of `c` (the Unicode `Alphabetic`
/// property).
pub uninterp spec fn alphabetic(c: char) -> bool;

/// Relies on `char::is_alphabetic`: a property of the character alone, which
/// holds of the ASCII letters.
#[verifier::external_body]
fn is_alpha(c: char) -> (r: bool)
    ensures
        r == alphabetic(c),
        ('a' <= c && c <= 'z') || ('A' <= c && c <= 'Z') ==> r,
{
    c.is_alphabetic()
}

/// `s` read in `mode`: 0 in plain text, 1 just after an escape character,
/// 2 inside a control sequence (after `ESC [`), which ends with a letter.
pub open spec fn strip_from(s: Seq<char>, mode: nat) -> Seq<char>
    decreases s.len(),
{
    if s.len() == 0 {
        s
    } else if mode == 1 {
        if s[0] == '[' {
            strip_from(s.drop_first(), 2)
        } else {
            strip_from(s.drop_first(), 0)
        }
    } else if mode == 2 {
        if alphabetic(s[0]) {
            strip_from(s.drop_first(), 0)
        } else {
            strip_from(s.drop_first(), 2)
        }
    } else if s[0] == '\x1b' {
        strip_from(s.drop_first(), 1)
    } else {
        seq![s[0]] + strip_from(s.drop_first(), 0)
    }
}

/// `s` without terminal escape sequences: an escape character drops the
/// character after it, and where that is `[`, everything up to and
/// including the next letter.
pub open spec fn strip_ansi_spec(s: Seq<char>) -> Seq<char> {
    strip_from(s, 0)
}

/// Removes the terminal escape sequences (colours, cursor moves) of `s`.
pub fn strip_ansi(s: &str) -> (r: String)
    ensures
        r@ == strip_ansi_spec(s@),
{
    let cs = chars_of(s);
    let n = cs.len();
    let mut out: Vec<char> = Vec::new();
    let mut mode: u8 = 0;
    let mut i: usize = 0;
    proof {
        assert(cs@.subrange(0, n as int) =~= cs@);
    }
    while i < n
        invariant
            n == cs@.len(),
            cs@ == s@,
            i <= n,
            mode <= 2,
            strip_from(s@, 0) == out@ + strip_from(cs@.subrange(i as int, n as int), mode as nat),
        decreases n - i,
    {
        let c = cs[i];
        let ghost rest = cs@.subrange(i as int, n as int);
        proof {
            assert(rest.drop_first() =~= cs@.subrange(i as int + 1, n as int));
            assert(rest[0] == c);
        }
        if mode == 1 {
            mode = if c == '[' {
                2
            } else {
                0
            };
        } else if mode == 2 {
            if is_alpha(c) {
                mode = 0;
            }
        } else if c == '\x1b' {
            mode = 1;
        } else {
            proof {
                assert(out@.push(c) + strip_from(cs@.subrange(i as int + 1, n as int), 0) =~= out@
                    + (seq![c] + strip_from(rest.drop_first(), 0)));
            }
            out.push(c);
        }
        i += 1;
    }
    proof {
        assert(out@ + strip_from(cs@.subrange(i as int, n as int), mode as nat) =~= out@);
    }
    string_of(out.as_slice())
}

/// `s` cut to `width` characters: a longer one keeps its first `width - 3`
/// characters followed by `...`.
pub open spec fn fitted(s: Seq<char>, width: nat) -> Seq<char> {
    if s.len() > width {
        s.subrange(0, if width >= 3 {
            width - 3
        } else {
            0
        }) + "..."@
    } else {
        s
    }
}

/// Cuts `s` to `width` characters (see `fitted`).
pub fn fit_line(s: &str, width: usize) -> (r: String)
    ensures
        r@ == fitted(s@, width as nat),
{
    let cs = chars_of(s);
    if cs.len() > width {
        let keep = if width >= 3 {
            width - 3
        } else {
            0
        };
        let mut r = string_of(slice_subrange(cs.as_slice(), 0, keep));
        r.append("...");
        r
    } else {
        string_of(cs.as_slice())
    }
}

/// The lines `ls`, each followed by a newline.
pub open spec fn one_per_line(ls: Seq<Seq<char>>) -> Seq<char>
    decreases ls.len(),
{
    if ls.len() == 0 {
        Seq::<char>::empty()
    } else {
        one_per_line(ls.drop_last()) + ls.last().push('\n')
    }
}

proof fn lemma_segs_append_plain(s: Seq<char>, w: Seq<char>, sep: char)
    requires
        !w.contains(sep),
    ensures
        segs(s + w, sep) == segs(s, sep).update(
            segs(s, sep).len() - 1,
            segs(s, sep).last() + w,
        ),
    decreases w.len(),
{
    lemma_segs_nonempty(s, sep);
    if w.len() == 0 {
        assert(s + w =~= s);
        assert(segs(s, sep).last() + w =~= segs(s, sep).last());
        assert(segs(s, sep).update(segs(s, sep).len() - 1, segs(s, sep).last()) =~= segs(s, sep));
    } else {
        let v = w.drop_last();
        assert(!v.contains(sep)) by {
            assert forall|i: int| 0 <= i < v.len() implies v[i] != sep by {
                assert(v[i] == w[i]);
            }
        }
        lemma_segs_append_plain(s, v, sep);
        assert((s + w).drop_last() =~= s + v);
        assert((s + w).last() == w.last());
        assert(w.last() != sep) by {
            assert(w[w.len() - 1] == w.last());
        }
        let p = segs(s, sep);
        let q = p.update(p.len() - 1, p.last() + v);
        assert(q.len() == p.len());
        assert(q.last() == p.last() + v);
        assert((p.last() + v).push(w.last()) =~= p.last() + w);
        assert(q.update(q.len() - 1, q.last().push(w.last())) =~= p.update(
            p.len() - 1,
            p.last() + w,
        ));
    }
}

proof fn lemma_segs_of_lines(ls: Seq<Seq<char>>)
    requires
        forall|i: int| 0 <= i < ls.len() ==> !ls[i].contains('\n'),
    ensures
        segs(one_per_line(ls), '\n') == ls.push(Seq::<char>::empty()),
    decreases ls.len(),
{
    if ls.len() > 0 {
        let d = ls.drop_last();
        let w = ls.last();
        assert(!w.contains('\n')) by {
            assert(ls[ls.len() - 1] == w);
        }
        lemma_segs_of_lines(d);
        let s = one_per_line(d);
        lemma_segs_append_plain(s, w, '\n');
        assert(s + w.push('\n') =~= (s + w).push('\n'));
        assert((s + w).push('\n').drop_last() =~= s + w);
        assert(Seq::<char>::empty() + w =~= w);
        assert(d.push(Seq::<char>::empty()).update(d.len() as int, Seq::<char>::empty() + w) =~= ls);
    }
}

/// Lines written one per line, none holding a newline or ending with a
/// carriage return, are read back as they were.
pub proof fn lemma_lines_round_trip(ls: Seq<Seq<char>>)
    requires
        forall|i: int| 0 <= i < ls.len() ==> !ls[i].contains('\n'),
        forall|i: int| 0 <= i < ls.len() && ls[i].len() > 0 ==> ls[i].last() != '\r',
    ensures
        lines(one_per_line(ls)) == ls,
{
    lemma_segs_of_lines(ls);
    let p = segs(one_per_line(ls), '\n');
    assert(p.drop_last() =~= ls);
    assert(ls.map_values(|l: Seq<char>| strip_cr(l)) =~= ls);
}

} // verus!
