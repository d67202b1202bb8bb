use vstd::prelude::*;
use vstd::string::*;

verus! {

/// A scalar value rendered as an SQL literal.
///
/// Booleans render as `TRUE` / `FALSE`; text is single-quoted with each
/// embedded single quote doubled.
pub enum Literal {
    Int(i64),
    Text(String),
    Bool(bool),
    Null,
}

pub open spec fn digit_char(d: nat) -> char {
    if d == 0 {
        '0'
    } else if d == 1 {
        '1'
    } else if d == 2 {
        '2'
    } else if d == 3 {
        '3'
    } else if d == 4 {
        '4'
    } else if d == 5 {
        '5'
    } else if d == 6 {
        '6'
    } else if d == 7 {
        '7'
    } else if d == 8 {
        '8'
    } else {
        '9'
    }
}

/// Decimal digits of a natural number, most significant first, no leading zeros.
pub open spec fn decimal(n: nat) -> Seq<char>
    decreases n,
{
    if n < 10 {
        seq![digit_char(n)]
    } else {
        decimal(n / 10).push(digit_char(n % 10))
    }
}

/// Decimal text of an integer, with a leading `-` when negative.
pub open spec fn int_text(n: int) -> Seq<char> {
    if n < 0 {
        seq!['-'] + decimal((-n) as nat)
    } else {
        decimal(n as nat)
    }
}

/// Text with every single quote doubled.
pub open spec fn escape_quotes(s: Seq<char>) -> Seq<char>
    decreases s.len(),
{
    if s.len() == 0 {
        Seq::empty()
    } else {
        let head = escape_quotes(s.drop_last());
        if s.last() == '\'' {
            head + seq!['\'', '\'']
        } else {
            head.push(s.last())
        }
    }
}

fn digit(d: u64) -> (c: char)
    requires
        d < 10,
    ensures
        c == digit_char(d as nat),
{
    match d {
        0 => '0',
        1 => '1',
        2 => '2',
        3 => '3',
        4 => '4',
        5 => '5',
        6 => '6',
        7 => '7',
        8 => '8',
        _ => '9',
    }
}

pub(crate) fn write_decimal(n: u64, out: &mut String)
    ensures
        final(out)@ == old(out)@ + decimal(n as nat),
    decreases n,
{
    if n >= 10 {
        write_decimal(n / 10, out);
    }
    out.push(digit(n % 10));
    assert(out@ =~= old(out)@ + decimal(n as nat));
}

fn write_int(n: i64, out: &mut String)
    ensures
        final(out)@ == old(out)@ + int_text(n as int),
{
    if n < 0 {
        out.push('-');
        let m: u64 = (0i128 - n as i128) as u64;
        write_decimal(m, out);
        assert(out@ =~= old(out)@ + int_text(n as int));
    } else {
        write_decimal(n as u64, out);
    }
}

fn write_quoted(s: &String, out: &mut String)
    ensures
        final(out)@ == old(out)@ + seq!['\''] + escape_quotes(s@) + seq!['\''],
{
    out.push('\'');
    let text = s.as_str();
    let n = text.unicode_len();
    let mut i: usize = 0;
    while i < n
        invariant
            n == s@.len(),
            text@ == s@,
            i <= n,
            out@ == old(out)@ + seq!['\''] + escape_quotes(s@.subrange(0, i as int)),
        decreases n - i,
    {
        let c = text.get_char(i);
        out.push(c);
        if c == '\'' {
            out.push('\'');
        }
        assert(s@.subrange(0, i + 1).drop_last() =~= s@.subrange(0, i as int));
        assert(out@ =~= old(out)@ + seq!['\''] + escape_quotes(s@.subrange(0, i + 1)));
        i += 1;
    }
    assert(s@.subrange(0, n as int) =~= s@);
    out.push('\'');
}

impl Literal {
    /// The literal's SQL text.
    pub open spec fn sql(&self) -> Seq<char> {
        match self {
            Literal::Int(n) => int_text(*n as int),
            Literal::Text(s) => seq!['\''] + escape_quotes(s@) + seq!['\''],
            Literal::Bool(b) => if *b {
                "TRUE"@
            } else {
                "FALSE"@
            },
            Literal::Null => "NULL"@,
        }
    }

    pub fn copied(&self) -> (r: Literal)
        ensures
            r == *self,
    {
        match self {
            Literal::Int(n) => Literal::Int(*n),
            Literal::Text(s) => Literal::Text(s.clone()),
            Literal::Bool(b) => Literal::Bool(*b),
            Literal::Null => Literal::Null,
        }
    }

    /// Appends the literal's SQL text.
    pub fn write_sql(&self, out: &mut String)
        ensures
            final(out)@ == old(out)@ + self.sql(),
    {
        match self {
            Literal::Int(n) => write_int(*n, out),
            Literal::Text(s) => write_quoted(s, out),
            Literal::Bool(b) => {
                if *b {
                    out.append("TRUE");
                } else {
                    out.append("FALSE");
                }
            },
            Literal::Null => out.append("NULL"),
        }
    }

    /// The literal rendered on its own.
    pub fn to_sql(&self) -> (r: String)
        ensures
            r@ == self.sql(),
    {
        let mut out = String::new();
        self.write_sql(&mut out);
        assert(out@ =~= self.sql());
        out
    }
}

} // verus!
