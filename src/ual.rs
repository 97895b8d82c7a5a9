use vstd::prelude::*;

verus! {

/// The characters with the Unicode `White_Space` property.
pub open spec fn is_space(c: char) -> bool {
    let u = c as u32;
    ||| 0x09 <= u <= 0x0d
    ||| u == 0x20
    ||| u == 0x85
    ||| u == 0xa0
    ||| u == 0x1680
    ||| 0x2000 <= u <= 0x200a
    ||| u == 0x2028
    ||| u == 0x2029
    ||| u == 0x202f
    ||| u == 0x205f
    ||| u == 0x3000
}

/// Relies on `char::is_whitespace`, which tests for the Unicode `White_Space` property.
#[verifier::external_body]
fn char_is_whitespace(c: char) -> (r: bool)
    ensures
        r == is_space(c),
{
    c.is_whitespace()
}

/// Reading `s` left to right: the whitespace-separated tokens already closed,
/// and the token still being read.
pub open spec fn scan(s: Seq<char>) -> (Seq<Seq<char>>, Seq<char>)
    decreases s.len(),
{
    if s.len() == 0 {
        (Seq::empty(), Seq::empty())
    } else {
        let (done, cur) = scan(s.drop_last());
        let c = s.last();
        if is_space(c) {
            if cur.len() > 0 {
                (done.push(cur), Seq::empty())
            } else {
                (done, Seq::empty())
            }
        } else {
            (done, cur.push(c))
        }
    }
}

/// The maximal runs of non-whitespace characters of `s`, in order.
pub open spec fn tokens(s: Seq<char>) -> Seq<Seq<char>> {
    let (done, cur) = scan(s);
    if cur.len() > 0 {
        done.push(cur)
    } else {
        done
    }
}

/// `i` is the position of the first `=` in `t`.
pub open spec fn first_eq_at(t: Seq<char>, i: int) -> bool {
    &&& 0 <= i < t.len()
    &&& t[i] == '='
    &&& forall|k: int| 0 <= k < i ==> t[k] != '='
}

/// A token read as a parameter: split at its first `=`; none without one.
pub open spec fn split_param(t: Seq<char>) -> Option<(Seq<char>, Seq<char>)> {
    if exists|i: int| first_eq_at(t, i) {
        let i = choose|i: int| first_eq_at(t, i);
        Some((t.take(i), t.skip(i + 1)))
    } else {
        None
    }
}

/// The parameters of a run of tokens: those holding `=`, in order.
pub open spec fn params_of(toks: Seq<Seq<char>>) -> Seq<(Seq<char>, Seq<char>)>
    decreases toks.len(),
{
    if toks.len() == 0 {
        Seq::empty()
    } else {
        let rest = params_of(toks.drop_last());
        match split_param(toks.last()) {
            Some(p) => rest.push(p),
            None => rest,
        }
    }
}

/// A statement as plain values.
pub struct StatementView {
    pub verb: Seq<char>,
    pub target: Seq<char>,
    pub destination: Seq<char>,
    pub params: Seq<(Seq<char>, Seq<char>)>,
}

impl StatementView {
    /// Verb, target and destination are all non-empty.
    pub open spec fn well_formed(self) -> bool {
        self.verb.len() > 0 && self.target.len() > 0 && self.destination.len() > 0
    }
}

proof fn lemma_scan_shape(s: Seq<char>)
    ensures
        forall|k: int|
            0 <= k < scan(s).0.len() ==> (#[trigger] scan(s).0[k]).len() > 0 && forall|i: int|
                0 <= i < scan(s).0[k].len() ==> !is_space(scan(s).0[k][i]),
        forall|i: int| 0 <= i < scan(s).1.len() ==> !is_space(scan(s).1[i]),
    decreases s.len(),
{
    if s.len() > 0 {
        lemma_scan_shape(s.drop_last());
        let (done, cur) = scan(s.drop_last());
        if !is_space(s.last()) {
            assert forall|i: int| 0 <= i < cur.push(s.last()).len() implies !is_space(
                cur.push(s.last())[i],
            ) by {
                if i < cur.len() {
                    assert(cur.push(s.last())[i] == cur[i]);
                }
            }
        }
    }
}

/// Every token is non-empty and holds no whitespace.
pub proof fn lemma_tokens_shape(s: Seq<char>)
    ensures
        forall|k: int|
            0 <= k < tokens(s).len() ==> (#[trigger] tokens(s)[k]).len() > 0 && forall|i: int|
                0 <= i < tokens(s)[k].len() ==> !is_space(tokens(s)[k][i]),
{
    lemma_scan_shape(s);
    let (done, cur) = scan(s);
    if cur.len() > 0 {
        assert forall|k: int| 0 <= k < done.push(cur).len() implies (#[trigger] done.push(cur)[k]).len()
            > 0 && forall|i: int|
            0 <= i < done.push(cur)[k].len() ==> !is_space(done.push(cur)[k][i]) by {
            if k < done.len() {
                assert(done.push(cur)[k] == done[k]);
            }
        }
    }
}

/// The statement that a run of at least three tokens stands for.
pub open spec fn statement_of(toks: Seq<Seq<char>>) -> StatementView {
    StatementView {
        verb: toks[0],
        target: toks[1],
        destination: toks[2],
        params: params_of(toks.skip(3)),
    }
}

/// What a line parses to, if it has at least three tokens.
pub open spec fn spec_parse(line: Seq<char>) -> Option<StatementView> {
    let toks = tokens(line);
    if toks.len() < 3 {
        None
    } else {
        Some(statement_of(toks))
    }
}

/// The text of each string.
pub open spec fn texts(v: Seq<String>) -> Seq<Seq<char>> {
    v.map_values(|s: String| s@)
}

pub open spec fn params_view(ps: Seq<(String, String)>) -> Seq<(Seq<char>, Seq<char>)> {
    ps.map_values(|p: (String, String)| (p.0@, p.1@))
}

/// One command: a verb, its target, the agent it goes to, and `key=value` parameters.
#[derive(Debug, Clone, PartialEq, Eq)]
pub struct UALStatement {
    pub type_: String,
    pub target: String,
    pub destination: String,
    pub params: Vec<(String, String)>,
}

impl View for UALStatement {
    type V = StatementView;

    open spec fn view(&self) -> StatementView {
        StatementView {
            verb: self.type_@,
            target: self.target@,
            destination: self.destination@,
            params: params_view(self.params@),
        }
    }
}

pub open spec fn too_few_parts_msg() -> Seq<char> {
    "Invalid UAL: Too few parts"@
}

proof fn lemma_scan_step(s: Seq<char>, i: int)
    requires
        0 <= i < s.len(),
    ensures
        scan(s.take(i + 1)) == ({
            let (done, cur) = scan(s.take(i));
            if is_space(s[i]) {
                if cur.len() > 0 {
                    (done.push(cur), Seq::<char>::empty())
                } else {
                    (done, Seq::<char>::empty())
                }
            } else {
                (done, cur.push(s[i]))
            }
        }),
{
    assert(s.take(i + 1).drop_last() =~= s.take(i));
}

proof fn lemma_params_step(toks: Seq<Seq<char>>, j: int)
    requires
        0 <= j < toks.len(),
    ensures
        params_of(toks.take(j + 1)) == ({
            let rest = params_of(toks.take(j));
            match split_param(toks[j]) {
                Some(p) => rest.push(p),
                None => rest,
            }
        }),
{
    assert(toks.take(j + 1).drop_last() =~= toks.take(j));
}

/// Splits `line` into whitespace-separated tokens, as half-open ranges of
/// character positions.
pub(crate) fn token_ranges(line: &str) -> (r: Vec<(usize, usize)>)
    ensures
        r@.len() == tokens(line@).len(),
        forall|k: int|
            0 <= k < r@.len() ==> {
                &&& (#[trigger] r@[k]).0 < r@[k].1 <= line@.len()
                &&& line@.subrange(r@[k].0 as int, r@[k].1 as int) == tokens(line@)[k]
            },
{
    let n = line.unicode_len();
    let mut out: Vec<(usize, usize)> = Vec::new();
    let mut start: usize = 0;
    let mut i: usize = 0;
    while i < n
        invariant
            n == line@.len(),
            i <= n,
            start <= i,
            scan(line@.take(i as int)).0.len() == out@.len(),
            scan(line@.take(i as int)).1 == line@.subrange(start as int, i as int),
            forall|k: int|
                0 <= k < out@.len() ==> {
                    &&& (#[trigger] out@[k]).0 < out@[k].1 <= i
                    &&& line@.subrange(out@[k].0 as int, out@[k].1 as int) == scan(
                        line@.take(i as int),
                    ).0[k]
                },
        decreases n - i,
    {
        let c = line.get_char(i);
        proof {
            lemma_scan_step(line@, i as int);
        }
        if char_is_whitespace(c) {
            if start < i {
                out.push((start, i));
            }
            start = i + 1;
        } else {
            assert(line@.subrange(start as int, i + 1) =~= line@.subrange(start as int, i as int).push(c));
        }
        i = i + 1;
    }
    assert(line@.take(n as int) =~= line@);
    if start < n {
        out.push((start, n));
    }
    out
}

/// The position of the first `=` in `line` between `from` and `to`, or `to`.
fn find_eq(line: &str, from: usize, to: usize) -> (p: usize)
    requires
        from <= to <= line@.len(),
    ensures
        from <= p <= to,
        p < to ==> first_eq_at(line@.subrange(from as int, to as int), p - from),
        p == to ==> forall|k: int| from <= k < to ==> line@[k] != '=',
{
    let mut p = from;
    while p < to
        invariant
            from <= p <= to <= line@.len(),
            forall|k: int| from <= k < p ==> line@[k] != '=',
        decreases to - p,
    {
        if line.get_char(p) == '=' {
            return p;
        }
        p = p + 1;
    }
    p
}

/// The ranges of `toks` in `input`, as `token_ranges` gives them.
pub open spec fn ranges_of(input: Seq<char>, ranges: Seq<(usize, usize)>, toks: Seq<Seq<char>>) -> bool {
    &&& ranges.len() == toks.len()
    &&& forall|k: int|
        0 <= k < ranges.len() ==> {
            &&& (#[trigger] ranges[k]).0 < ranges[k].1 <= input.len()
            &&& input.subrange(ranges[k].0 as int, ranges[k].1 as int) == toks[k]
        }
}

/// The text of token `k`.
pub(crate) fn token_text(input: &str, ranges: &Vec<(usize, usize)>, k: usize) -> (r: String)
    requires
        ranges_of(input@, ranges@, tokens(input@)),
        k < ranges@.len(),
    ensures
        r@ == tokens(input@)[k as int],
{
    input.substring_char(ranges[k].0, ranges[k].1).to_owned()
}

/// The statement that the tokens of `input` from position `first` on stand for.
pub(crate) fn statement_from(input: &str, ranges: &Vec<(usize, usize)>, first: usize) -> (r:
    UALStatement)
    requires
        ranges_of(input@, ranges@, tokens(input@)),
        first + 3 <= ranges@.len(),
    ensures
        r@ == statement_of(tokens(input@).skip(first as int)),
{
    let ghost toks = tokens(input@);
    let ghost rest = toks.skip(first as int);
    let mut params: Vec<(String, String)> = Vec::new();
    let n = ranges.len();
    let mut j: usize = first + 3;
    while j < n
        invariant
            first + 3 <= j <= n,
            n == ranges@.len(),
            toks == tokens(input@),
            rest == toks.skip(first as int),
            ranges_of(input@, ranges@, toks),
            params_view(params@) == params_of(rest.skip(3).take(j - first - 3)),
        decreases ranges@.len() - j,
    {
        let (a, b) = ranges[j];
        let ghost t = toks[j as int];
        proof {
            lemma_params_step(rest.skip(3), j - first - 3);
            assert(rest.skip(3)[j - first - 3] == t);
        }
        let p = find_eq(input, a, b);
        if p < b {
            let key = input.substring_char(a, p).to_owned();
            let value = input.substring_char(p + 1, b).to_owned();
            proof {
                assert(first_eq_at(t, p - a));
                assert forall|i: int| first_eq_at(t, i) implies i == p - a by {
                    if i < p - a {
                        assert(t[i] != '=');
                    } else if i > p - a {
                        assert(t[p - a] != '=');
                    }
                }
                assert(key@ =~= t.take(p - a));
                assert(value@ =~= t.skip(p - a + 1));
            }
            params.push((key, value));
            assert(params_view(params@) =~= params_of(rest.skip(3).take(j - first - 3)).push(
                (key@, value@),
            ));
        } else {
            proof {
                assert forall|i: int| !first_eq_at(t, i) by {
                    if 0 <= i < t.len() {
                        assert(t[i] == input@[a + i]);
                    }
                }
            }
        }
        j = j + 1;
    }
    assert(rest.skip(3).take(j - first - 3) =~= rest.skip(3));
    let verb = token_text(input, ranges, first);
    let target = token_text(input, ranges, first + 1);
    let destination = token_text(input, ranges, first + 2);
    UALStatement { type_: verb, target, destination, params }
}

/// Parses one line: `<VERB> <TARGET> <DESTINATION> [<KEY>=<VALUE> ...]`.
/// Tokens after the third that hold no `=` are ignored.
pub fn parse_ual(input: &str) -> (r: Result<UALStatement, String>)
    ensures
        match spec_parse(input@) {
            Some(v) => r is Ok && r->Ok_0@ == v,
            None => r is Err && r->Err_0@ == too_few_parts_msg(),
        },
        r matches Ok(s) ==> s@.well_formed(),
{
    proof {
        lemma_tokens_shape(input@);
    }
    let ranges = token_ranges(input);
    if ranges.len() < 3 {
        return Err("Invalid UAL: Too few parts".to_owned());
    }
    let stmt = statement_from(input, &ranges, 0);
    assert(tokens(input@).skip(0) =~= tokens(input@));
    Ok(stmt)
}

} // verus!
