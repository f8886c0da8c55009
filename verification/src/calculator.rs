//! A small integer calculator that refuses to overflow and remembers the
//! operations that succeeded.

use vstd::prelude::*;
use vstd::string::StringExecFns;

verus! {

/// The three operations the calculator knows.
#[derive(Clone, Copy, Debug)]
pub enum OperationType {
    Addition,
    Subtraction,
    Multiplication,
}

impl OperationType {
    /// The sign an operation is written with.
    pub open spec fn sign(self) -> Seq<char> {
        match self {
            OperationType::Addition => "+"@,
            OperationType::Subtraction => "-"@,
            OperationType::Multiplication => "*"@,
        }
    }

    /// The exact mathematical result of the operation, before any range check.
    pub open spec fn exact(self, x: int, y: int) -> int {
        match self {
            OperationType::Addition => x + y,
            OperationType::Subtraction => x - y,
            OperationType::Multiplication => x * y,
        }
    }

    /// The result of the operation on 64-bit operands: the exact result where
    /// it fits in an `i64`, nothing where it does not.
    pub open spec fn outcome(self, x: i64, y: i64) -> Option<i64> {
        let r = self.exact(x as int, y as int);
        if i64::MIN <= r <= i64::MAX {
            Some(r as i64)
        } else {
            None
        }
    }

    pub fn get_sign(&self) -> (s: &'static str)
        ensures
            s@ == self.sign(),
    {
        match self {
            OperationType::Addition => "+",
            OperationType::Subtraction => "-",
            OperationType::Multiplication => "*",
        }
    }

    pub fn perform(&self, x: i64, y: i64) -> (r: Option<i64>)
        ensures
            r == self.outcome(x, y),
    {
        match self {
            OperationType::Addition => x.checked_add(y),
            OperationType::Subtraction => x.checked_sub(y),
            OperationType::Multiplication => x.checked_mul(y),
        }
    }
}

/// One operation with its two operands.
#[derive(Clone, Copy, Debug)]
pub struct Operation {
    pub first_num: i64,
    pub second_num: i64,
    pub operation_type: OperationType,
}

impl Operation {
    /// What the operation yields: `operation_type.outcome` on its operands.
    pub open spec fn outcome(self) -> Option<i64> {
        self.operation_type.outcome(self.first_num, self.second_num)
    }

    pub fn new(first_num: i64, second_num: i64, operation_type: OperationType) -> (op: Self)
        ensures
            op == (Operation { first_num, second_num, operation_type }),
    {
        Self { first_num, second_num, operation_type }
    }
}

/// The character of a decimal digit.
pub open spec fn digit(d: int) -> char {
    if d == 0 {
        '0'
    } else if d == 1 {
        '1'
    } else if d == 2 {
        '2'
    } else if d == 3 {
        '3'
    } else if d == 4 {
        '4'
    } else if d == 5 {
        '5'
    } else if d == 6 {
        '6'
    } else if d == 7 {
        '7'
    } else if d == 8 {
        '8'
    } else {
        '9'
    }
}

/// The decimal digits of a natural number, most significant first, without
/// leading zeros.
pub open spec fn digits(n: nat) -> Seq<char>
    decreases n,
{
    if n < 10 {
        seq![digit(n as int)]
    } else {
        digits(n / 10) + seq![digit((n % 10) as int)]
    }
}

/// An integer in decimal, with a minus sign in front of a negative one.
pub open spec fn decimal(i: int) -> Seq<char> {
    if i < 0 {
        seq!['-'] + digits((-i) as nat)
    } else {
        digits(i as nat)
    }
}

/// The line that the history shows for the operation at `index`, given its
/// result: `index: first sign second = result`, ended by a line feed.
pub open spec fn history_line(index: int, op: Operation, result: i64) -> Seq<char> {
    decimal(index) + seq![':', ' '] + decimal(op.first_num as int) + seq![' ']
        + op.operation_type.sign() + seq![' '] + decimal(op.second_num as int) + seq![
        ' ',
        '=',
        ' ',
    ] + decimal(result as int) + seq!['\n']
}

/// What the history shows for the operation at `index`: its line where the
/// operation has a result, nothing where it overflows.
pub open spec fn history_entry(index: int, op: Operation) -> Seq<char> {
    match op.outcome() {
        Some(result) => history_line(index, op, result),
        None => Seq::empty(),
    }
}

/// The text of the first `count` operations of a history, in order.
pub open spec fn history_text(history: Seq<Operation>, count: nat) -> Seq<char>
    decreases count,
{
    if count == 0 {
        Seq::empty()
    } else {
        history_text(history, (count - 1) as nat) + history_entry(
            count - 1,
            history[count - 1],
        )
    }
}

fn digit_str(d: u8) -> (s: &'static str)
    requires
        d < 10,
    ensures
        s@ == seq![digit(d as int)],
{
    proof {
        reveal_strlit("0");
        reveal_strlit("1");
        reveal_strlit("2");
        reveal_strlit("3");
        reveal_strlit("4");
        reveal_strlit("5");
        reveal_strlit("6");
        reveal_strlit("7");
        reveal_strlit("8");
        reveal_strlit("9");
    }
    let s = if d == 0 {
        "0"
    } else if d == 1 {
        "1"
    } else if d == 2 {
        "2"
    } else if d == 3 {
        "3"
    } else if d == 4 {
        "4"
    } else if d == 5 {
        "5"
    } else if d == 6 {
        "6"
    } else if d == 7 {
        "7"
    } else if d == 8 {
        "8"
    } else {
        "9"
    };
    assert(s@ =~= seq![digit(d as int)]);
    s
}

fn append_digits(out: &mut String, n: u64)
    ensures
        final(out)@ == old(out)@ + digits(n as nat),
    decreases n,
{
    if n >= 10 {
        append_digits(out, n / 10);
    }
    out.append(digit_str((n % 10) as u8));
    assert(out@ =~= old(out)@ + digits(n as nat));
}

fn append_decimal(out: &mut String, i: i64)
    ensures
        final(out)@ == old(out)@ + decimal(i as int),
{
    if i < 0 {
        proof {
            reveal_strlit("-");
        }
        out.append("-");
        let magnitude: u64 = if i == i64::MIN {
            9223372036854775808u64
        } else {
            (-i) as u64
        };
        append_digits(out, magnitude);
        assert(out@ =~= old(out)@ + decimal(i as int));
    } else {
        append_digits(out, i as u64);
    }
}

/// A calculator with the history of the operations that succeeded.
pub struct Calculator {
    pub history: Vec<Operation>,
}

impl Calculator {
    pub fn new() -> (calculator: Self)
        ensures
            calculator.history@ == Seq::<Operation>::empty(),
    {
        Self { history: Vec::new() }
    }

    /// Performs `op` and records it if it has a result.
    fn record(&mut self, op: Operation) -> (r: Option<i64>)
        ensures
            r == op.outcome(),
            final(self).history@ == if r is Some {
                old(self).history@.push(op)
            } else {
                old(self).history@
            },
    {
        match op.operation_type.perform(op.first_num, op.second_num) {
            Some(result) => {
                self.history.push(op);
                Some(result)
            },
            None => None,
        }
    }

    /// Adds `y` to `x`. An overflow gives `None` and leaves the history as it
    /// was; a result is returned and the operation appended to the history.
    pub fn addition(&mut self, x: i64, y: i64) -> (r: Option<i64>)
        ensures
            r == OperationType::Addition.outcome(x, y),
            final(self).history@ == if r is Some {
                old(self).history@.push(
                    Operation {
                        first_num: x,
                        second_num: y,
                        operation_type: OperationType::Addition,
                    },
                )
            } else {
                old(self).history@
            },
    {
        self.record(Operation::new(x, y, OperationType::Addition))
    }

    /// Subtracts `y` from `x`, as `addition` adds.
    pub fn subtraction(&mut self, x: i64, y: i64) -> (r: Option<i64>)
        ensures
            r == OperationType::Subtraction.outcome(x, y),
            final(self).history@ == if r is Some {
                old(self).history@.push(
                    Operation {
                        first_num: x,
                        second_num: y,
                        operation_type: OperationType::Subtraction,
                    },
                )
            } else {
                old(self).history@
            },
    {
        self.record(Operation::new(x, y, OperationType::Subtraction))
    }

    /// Multiplies `x` by `y`, as `addition` adds.
    pub fn multiplication(&mut self, x: i64, y: i64) -> (r: Option<i64>)
        ensures
            r == OperationType::Multiplication.outcome(x, y),
            final(self).history@ == if r is Some {
                old(self).history@.push(
                    Operation {
                        first_num: x,
                        second_num: y,
                        operation_type: OperationType::Multiplication,
                    },
                )
            } else {
                old(self).history@
            },
    {
        self.record(Operation::new(x, y, OperationType::Multiplication))
    }

    /// The history as text: one line for each recorded operation that has a
    /// result, numbered by its place in the history.
    pub fn show_history(&self) -> (out: String)
        ensures
            out@ == history_text(self.history@, self.history@.len()),
    {
        let mut out = String::new();
        let mut idx: usize = 0;
        while idx < self.history.len()
            invariant
                idx <= self.history.len(),
                out@ == history_text(self.history@, idx as nat),
            decreases self.history.len() - idx,
        {
            let op = self.history[idx];
            if let Some(result) = op.operation_type.perform(op.first_num, op.second_num) {
                let ghost before = out@;
                proof {
                    reveal_strlit(": ");
                    reveal_strlit(" ");
                    reveal_strlit(" = ");
                    reveal_strlit("\n");
                    assert(": "@ =~= seq![':', ' ']);
                    assert(" "@ =~= seq![' ']);
                    assert(" = "@ =~= seq![' ', '=', ' ']);
                    assert("\n"@ =~= seq!['\n']);
                }
                append_digits(&mut out, idx as u64);
                out.append(": ");
                append_decimal(&mut out, op.first_num);
                out.append(" ");
                out.append(op.operation_type.get_sign());
                out.append(" ");
                append_decimal(&mut out, op.second_num);
                out.append(" = ");
                append_decimal(&mut out, result);
                out.append("\n");
                assert(out@ =~= before + history_line(idx as int, op, result));
            }
            idx += 1;
        }
        out
    }

    /// Performs once more the operation at `operation_index` of the history.
    /// Where there is none, or where it overflows, the result is `None` and
    /// the history stays as it was; else the operation is appended again.
    pub fn repeat(&mut self, operation_index: usize) -> (r: Option<i64>)
        ensures
            r == if operation_index < old(self).history@.len() {
                old(self).history@[operation_index as int].outcome()
            } else {
                None
            },
            final(self).history@ == if r is Some {
                old(self).history@.push(old(self).history@[operation_index as int])
            } else {
                old(self).history@
            },
    {
        if operation_index >= self.history.len() {
            return None;
        }
        let op = self.history[operation_index];
        self.record(op)
    }

    /// Forgets every recorded operation.
    pub fn clear_history(&mut self)
        ensures
            final(self).history@ == Seq::<Operation>::empty(),
    {
        self.history.clear();
    }
}

} // verus!
