use vstd::prelude::*;

verus! {

/// One task: its key in the store, its text, and whether it is done.
#[derive(Debug, Clone, PartialEq, Eq)]
pub struct Todo {
    pub id: i32,
    pub todo: String,
    pub checked: bool,
}

/// The decimal digits of a non-negative number, most significant first.
pub open spec fn digits(n: nat) -> Seq<char>
    decreases n,
{
    if n < 10 {
        seq![digit_char(n)]
    } else {
        digits(n / 10) + seq![digit_char(n % 10)]
    }
}

/// An integer written in base ten, with a leading `-` when negative.
pub open spec fn decimal(n: int) -> Seq<char> {
    if n < 0 {
        seq!['-'] + digits((-n) as nat)
    } else {
        digits(n as nat)
    }
}

/// The text as Rust's `Debug` writes a string: quoted, with escapes.
pub uninterp spec fn debug_quoted(s: Seq<char>) -> Seq<char>;

/// The words shown for a flag.
pub open spec fn flag_text(b: bool) -> Seq<char> {
    if b {
        "true"@
    } else {
        "false"@
    }
}

/// The line for a record, from its id in digits and its text already quoted.
pub open spec fn line_text(id: Seq<char>, quoted: Seq<char>, checked: bool) -> Seq<char> {
    "Todo { id: "@ + id + ", todo: "@ + quoted + ", checked: "@ + flag_text(checked) + " }"@
}

/// The line shown for one record.
pub open spec fn todo_line(id: int, text: Seq<char>, checked: bool) -> Seq<char> {
    line_text(decimal(id), debug_quoted(text), checked)
}

/// Puts together the line for a record from its id written in digits and its
/// text already quoted.
pub fn compose_line(id: &str, quoted: &str, checked: bool) -> (r: String)
    ensures
        r@ == line_text(id@, quoted@, checked),
{
    let flag = if checked {
        String::from_str("true")
    } else {
        String::from_str("false")
    };
    let r = String::from_str("Todo { id: ").concat(id).concat(", todo: ").concat(quoted).concat(
        ", checked: ",
    ).concat(flag.as_str()).concat(" }");
    proof {
        reveal_strlit("true");
        reveal_strlit("false");
    }
    r
}

impl Todo {
    pub open spec fn line(&self) -> Seq<char> {
        todo_line(self.id as int, self.todo@, self.checked)
    }

    /// The line that lists this record, e.g.
    /// `Todo { id: 1, todo: "buy milk", checked: false }`.
    pub fn to_line(&self) -> (r: String)
        ensures
            r@ == self.line(),
    {
        let id = int_text(self.id);
        let text = quoted_text(self.todo.as_str());
        compose_line(id.as_str(), text.as_str(), self.checked)
    }
}

/// The numeral for one decimal digit.
pub open spec fn digit_char(d: nat) -> char {
    (('0' as u8) + (d as u8)) as char
}

/// The one-character text of a decimal digit.
fn digit_text(d: u64) -> (r: &'static str)
    requires
        d < 10,
    ensures
        r@ == seq![digit_char(d as nat)],
{
    if d == 0 {
        proof {
            reveal_strlit("0");
        }
        "0"
    } else if d == 1 {
        proof {
            reveal_strlit("1");
        }
        "1"
    } else if d == 2 {
        proof {
            reveal_strlit("2");
        }
        "2"
    } else if d == 3 {
        proof {
            reveal_strlit("3");
        }
        "3"
    } else if d == 4 {
        proof {
            reveal_strlit("4");
        }
        "4"
    } else if d == 5 {
        proof {
            reveal_strlit("5");
        }
        "5"
    } else if d == 6 {
        proof {
            reveal_strlit("6");
        }
        "6"
    } else if d == 7 {
        proof {
            reveal_strlit("7");
        }
        "7"
    } else if d == 8 {
        proof {
            reveal_strlit("8");
        }
        "8"
    } else {
        proof {
            reveal_strlit("9");
        }
        "9"
    }
}

/// An integer written in base ten, with a `-` before a negative one.
pub fn int_text(n: i32) -> (r: String)
    ensures
        r@ == decimal(n as int),
{
    let mag: u64 = if n < 0 {
        (0 - (n as i64)) as u64
    } else {
        n as u64
    };
    let mut m: u64 = mag / 10;
    let mut r = String::from_str(digit_text(mag % 10));
    proof {
        if mag >= 10 {
            assert(digits(mag as nat) == digits((mag / 10) as nat) + seq![digit_char((mag % 10) as nat)]);
        }
    }
    while m > 0
        invariant
            m > 0 ==> digits(mag as nat) == digits(m as nat) + r@,
            m == 0 ==> digits(mag as nat) == r@,
        decreases m,
    {
        let d = digit_text(m % 10);
        let ghost prev = r@;
        r = String::from_str(d).concat(r.as_str());
        proof {
            if m >= 10 {
                assert(digits(m as nat) == digits((m / 10) as nat) + seq![digit_char((m % 10) as nat)]);
                assert(digits(mag as nat) =~= digits((m / 10) as nat) + r@);
            } else {
                assert(digits(mag as nat) =~= r@);
            }
        }
        m = m / 10;
    }
    proof {
        reveal_strlit("-");
        if n < 0 {
            assert(mag as nat == (-(n as int)) as nat);
        } else {
            assert(mag as nat == n as nat);
        }
    }
    if n < 0 {
        String::from_str("-").concat(r.as_str())
    } else {
        r
    }
}

/// Relies on `str`'s `Debug` (through `format!`) for the quoted, escaped text.
#[verifier::external_body]
fn quoted_text(s: &str) -> (r: String)
    ensures
        r@ == debug_quoted(s@),
{
    format!("{:?}", s)
}

} // verus!
