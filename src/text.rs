//! Text primitives: decimal rendering of integers and line-oriented files.
use vstd::prelude::*;

verus! {

/// The character of a decimal digit.
pub open spec fn digit_char(d: int) -> char {
    if d == 0 {
        '0'
    } else if d == 1 {
        '1'
    } else if d == 2 {
        '2'
    } else if d == 3 {
        '3'
    } else if d == 4 {
        '4'
    } else if d == 5 {
        '5'
    } else if d == 6 {
        '6'
    } else if d == 7 {
        '7'
    } else if d == 8 {
        '8'
    } else {
        '9'
    }
}

/// Base-10 digits of a natural number, most significant first, no leading zeros.
pub open spec fn nat_text(n: nat) -> Seq<char>
    decreases n,
{
    if n < 10 {
        seq![digit_char(n as int)]
    } else {
        nat_text(n / 10).push(digit_char((n % 10) as int))
    }
}

/// Base-10 rendering of an integer: a leading `-` for negative values.
pub open spec fn int_text(n: int) -> Seq<char> {
    if n < 0 {
        seq!['-'] + nat_text((-n) as nat)
    } else {
        nat_text(n as nat)
    }
}

proof fn lemma_nat_text_shape(n: nat)
    ensures
        nat_text(n).len() >= 1,
        nat_text(n).len() == 1 <==> n < 10,
        nat_text(n)[0] != '-',
    decreases n,
{
    if n >= 10 {
        lemma_nat_text_shape(n / 10);
    }
}

/// Distinct natural numbers have distinct decimal texts.
pub proof fn lemma_nat_text_injective(a: nat, b: nat)
    requires
        nat_text(a) == nat_text(b),
    ensures
        a == b,
    decreases a,
{
    lemma_nat_text_shape(a);
    lemma_nat_text_shape(b);
    if a >= 10 && b >= 10 {
        assert(nat_text(a).last() == digit_char((a % 10) as int));
        assert(nat_text(b).last() == digit_char((b % 10) as int));
        assert(nat_text(a).drop_last() =~= nat_text(a / 10));
        assert(nat_text(b).drop_last() =~= nat_text(b / 10));
        lemma_nat_text_injective(a / 10, b / 10);
    } else if a < 10 && b < 10 {
        assert(nat_text(a)[0] == digit_char(a as int));
        assert(nat_text(b)[0] == digit_char(b as int));
    }
}

/// Distinct integers have distinct decimal texts.
pub proof fn lemma_int_text_injective(a: int, b: int)
    requires
        int_text(a) == int_text(b),
    ensures
        a == b,
{
    if a < 0 && b < 0 {
        assert(int_text(a).subrange(1, int_text(a).len() as int) =~= nat_text((-a) as nat));
        assert(int_text(b).subrange(1, int_text(b).len() as int) =~= nat_text((-b) as nat));
        lemma_nat_text_injective((-a) as nat, (-b) as nat);
    } else if a >= 0 && b >= 0 {
        lemma_nat_text_injective(a as nat, b as nat);
    } else if a < 0 {
        lemma_nat_text_shape(b as nat);
        assert(int_text(a)[0] == '-');
    } else {
        lemma_nat_text_shape(a as nat);
        assert(int_text(b)[0] == '-');
    }
}

/// A text file made of lines, each one followed by a newline.
pub open spec fn join_lines(lines: Seq<Seq<char>>) -> Seq<char>
    decreases lines.len(),
{
    if lines.len() == 0 {
        Seq::empty()
    } else {
        join_lines(lines.drop_last()) + lines.last() + seq!['\n']
    }
}

/// A value between double quotes.
pub open spec fn quote(v: Seq<char>) -> Seq<char> {
    "\""@ + v + "\""@
}

/// Concatenation of two texts.
pub fn concat(a: &str, b: &str) -> (r: String)
    ensures
        r@ == a@ + b@,
{
    let mut s = String::from_str(a);
    s.append(b);
    s
}

fn digit_str(d: u64) -> (r: &'static str)
    requires
        d < 10,
    ensures
        r@ == seq![digit_char(d as int)],
{
    proof {
        reveal_strlit("0");
        reveal_strlit("1");
        reveal_strlit("2");
        reveal_strlit("3");
        reveal_strlit("4");
        reveal_strlit("5");
        reveal_strlit("6");
        reveal_strlit("7");
        reveal_strlit("8");
        reveal_strlit("9");
    }
    let r = if d == 0 {
        "0"
    } else if d == 1 {
        "1"
    } else if d == 2 {
        "2"
    } else if d == 3 {
        "3"
    } else if d == 4 {
        "4"
    } else if d == 5 {
        "5"
    } else if d == 6 {
        "6"
    } else if d == 7 {
        "7"
    } else if d == 8 {
        "8"
    } else {
        "9"
    };
    assert(r@ =~= seq![digit_char(d as int)]);
    r
}

fn push_digits(out: &mut String, n: u64)
    ensures
        final(out)@ == old(out)@ + nat_text(n as nat),
    decreases n,
{
    if n >= 10 {
        push_digits(out, n / 10);
    }
    out.append(digit_str(n % 10));
    assert(final(out)@ =~= old(out)@ + nat_text(n as nat));
}

/// Decimal text of an unsigned count or index.
pub fn usize_text(n: usize) -> (r: String)
    ensures
        r@ == nat_text(n as nat),
{
    let mut s = String::new();
    push_digits(&mut s, n as u64);
    assert(s@ =~= nat_text(n as nat));
    s
}

/// Decimal text of a signed value, as `{}` formatting writes it.
pub fn i64_text(n: i64) -> (r: String)
    ensures
        r@ == int_text(n as int),
{
    let mut s = String::new();
    if n < 0 {
        proof {
            reveal_strlit("-");
        }
        s.append("-");
        let magnitude: u64 = (0i128 - n as i128) as u64;
        push_digits(&mut s, magnitude);
    } else {
        push_digits(&mut s, n as u64);
    }
    assert(s@ =~= int_text(n as int));
    s
}

/// Accumulates a line-oriented text file.
pub struct LineWriter {
    text: String,
    lines: Ghost<Seq<Seq<char>>>,
}

impl LineWriter {
    /// The lines written so far.
    pub closed spec fn lines(&self) -> Seq<Seq<char>> {
        self.lines@
    }

    pub closed spec fn wf(&self) -> bool {
        self.text@ == join_lines(self.lines@)
    }

    pub fn new() -> (r: Self)
        ensures
            r.wf(),
            r.lines() == Seq::<Seq<char>>::empty(),
    {
        LineWriter { text: String::new(), lines: Ghost(Seq::empty()) }
    }

    /// Appends one line; its newline is added here.
    pub fn line(&mut self, line: &str)
        requires
            old(self).wf(),
        ensures
            final(self).wf(),
            final(self).lines() == old(self).lines().push(line@),
    {
        proof {
            reveal_strlit("\n");
        }
        self.text.append(line);
        self.text.append("\n");
        self.lines = Ghost(self.lines@.push(line@));
        assert(self.lines@.drop_last() =~= old(self).lines@);
        assert(self.text@ =~= join_lines(self.lines@));
    }

    /// Appends the line `head` followed by `value`.
    pub fn entry(&mut self, head: &str, value: &str)
        requires
            old(self).wf(),
        ensures
            final(self).wf(),
            final(self).lines() == old(self).lines().push(head@ + value@),
    {
        let mut l = String::from_str(head);
        l.append(value);
        self.line(l.as_str());
    }

    /// Appends the line `head` followed by `value` between double quotes.
    pub fn quoted(&mut self, head: &str, value: &str)
        requires
            old(self).wf(),
        ensures
            final(self).wf(),
            final(self).lines() == old(self).lines().push(head@ + quote(value@)),
    {
        let mut l = String::from_str(head);
        l.append("\"");
        l.append(value);
        l.append("\"");
        self.line(l.as_str());
        assert(head@ + "\""@ + value@ + "\""@ =~= head@ + quote(value@));
    }

    pub fn finish(self) -> (r: String)
        requires
            self.wf(),
        ensures
            r@ == join_lines(self.lines()),
    {
        self.text
    }
}

/// The lower-case form of a text, as `str::to_lowercase` computes it.
pub uninterp spec fn lower_of(s: Seq<char>) -> Seq<char>;

/// Relies on `str::to_lowercase`: Unicode lower-casing, whose result depends on
/// the characters of its argument alone.
#[verifier::external_body]
pub(crate) fn lowercase(s: &str) -> (r: String)
    ensures
        r@ == lower_of(s@),
{
    s.to_lowercase()
}

} // verus!
