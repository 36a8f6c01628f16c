use vstd::prelude::*;
use vstd::string::*;

verus! {

/// The three operations of the calculator.
#[derive(Clone, Copy, Debug, PartialEq, Eq, Structural)]
pub enum OperationType {
    Addition,
    Subtraction,
    Multiplication,
}

impl OperationType {
    /// The character that stands for the operation.
    pub open spec fn sign(self) -> char {
        match self {
            OperationType::Addition => '+',
            OperationType::Subtraction => '-',
            OperationType::Multiplication => '*',
        }
    }

    /// The operation on mathematical integers.
    pub open spec fn apply(self, x: int, y: int) -> int {
        match self {
            OperationType::Addition => x + y,
            OperationType::Subtraction => x - y,
            OperationType::Multiplication => x * y,
        }
    }

    /// The operation on `i64`: the mathematical result where it fits, nothing where it
    /// does not.
    pub open spec fn result(self, x: i64, y: i64) -> Option<i64> {
        let r = self.apply(x as int, y as int);
        if i64::MIN <= r <= i64::MAX {
            Some(r as i64)
        } else {
            None
        }
    }

    /// The operation's sign as a string of one character.
    pub fn get_sign(&self) -> (sign: &'static str)
        ensures
            sign@ == seq![self.sign()],
    {
        proof {
            reveal_strlit("+");
            reveal_strlit("-");
            reveal_strlit("*");
        }
        let sign = match self {
            OperationType::Addition => "+",
            OperationType::Subtraction => "-",
            OperationType::Multiplication => "*",
        };
        assert(sign@ =~= seq![self.sign()]);
        sign
    }

    /// Applies the operation, with `None` on overflow.
    pub fn perform(&self, x: i64, y: i64) -> (r: Option<i64>)
        ensures
            r == self.result(x, y),
    {
        match self {
            OperationType::Addition => x.checked_add(y),
            OperationType::Subtraction => x.checked_sub(y),
            OperationType::Multiplication => x.checked_mul(y),
        }
    }
}

/// One operation and its two operands.
#[derive(Clone, Copy, Debug, PartialEq, Eq)]
pub struct Operation {
    pub first_num: i64,
    pub second_num: i64,
    pub operation_type: OperationType,
}

impl Operation {
    pub fn new(first_num: i64, second_num: i64, operation_type: OperationType) -> (op: Operation)
        ensures
            op == (Operation { first_num, second_num, operation_type }),
    {
        Operation { first_num, second_num, operation_type }
    }

    /// What the operation gives on its operands.
    pub open spec fn result(self) -> Option<i64> {
        self.operation_type.result(self.first_num, self.second_num)
    }
}

/// The character of the digit `d`, which is below ten.
pub open spec fn digit(d: nat) -> char {
    if d == 0 {
        '0'
    } else if d == 1 {
        '1'
    } else if d == 2 {
        '2'
    } else if d == 3 {
        '3'
    } else if d == 4 {
        '4'
    } else if d == 5 {
        '5'
    } else if d == 6 {
        '6'
    } else if d == 7 {
        '7'
    } else if d == 8 {
        '8'
    } else {
        '9'
    }
}

/// The decimal digits of `n`, most significant first, without leading zeros.
pub open spec fn digits(n: nat) -> Seq<char>
    decreases n,
{
    if n < 10 {
        seq![digit(n)]
    } else {
        digits(n / 10).push(digit(n % 10))
    }
}

/// `n` in decimal, with a minus sign where it is negative.
pub open spec fn decimal(n: int) -> Seq<char> {
    if n < 0 {
        seq!['-'] + digits((-n) as nat)
    } else {
        digits(n as nat)
    }
}

/// The line that the history shows for `op` at position `idx`: the position, the operation
/// and its result, closed by a line feed; nothing for an operation that overflows.
pub open spec fn history_line(idx: nat, op: Operation) -> Seq<char> {
    match op.result() {
        Some(r) => decimal(idx as int) + seq![':', ' '] + decimal(op.first_num as int) + seq![' ']
            + seq![op.operation_type.sign()] + seq![' '] + decimal(op.second_num as int) + seq![
            ' ',
            '=',
            ' ',
        ] + decimal(r as int) + seq!['\n'],
        None => Seq::empty(),
    }
}

/// The lines of a whole history, in order.
pub open spec fn history_text(history: Seq<Operation>) -> Seq<char>
    decreases history.len(),
{
    if history.len() == 0 {
        Seq::empty()
    } else {
        history_text(history.drop_last()) + history_line(
            (history.len() - 1) as nat,
            history.last(),
        )
    }
}

fn digit_str(d: u8) -> (s: &'static str)
    requires
        d < 10,
    ensures
        s@ == seq![digit(d as nat)],
{
    proof {
        reveal_strlit("0");
        reveal_strlit("1");
        reveal_strlit("2");
        reveal_strlit("3");
        reveal_strlit("4");
        reveal_strlit("5");
        reveal_strlit("6");
        reveal_strlit("7");
        reveal_strlit("8");
        reveal_strlit("9");
    }
    let s = match d {
        0 => "0",
        1 => "1",
        2 => "2",
        3 => "3",
        4 => "4",
        5 => "5",
        6 => "6",
        7 => "7",
        8 => "8",
        _ => "9",
    };
    assert(s@ =~= seq![digit(d as nat)]);
    s
}

fn push_digits(out: &mut String, n: u64)
    ensures
        final(out)@ == old(out)@ + digits(n as nat),
    decreases n,
{
    if n >= 10 {
        push_digits(out, n / 10);
    }
    out.append(digit_str((n % 10) as u8));
}

fn push_decimal(out: &mut String, n: i64)
    ensures
        final(out)@ == old(out)@ + decimal(n as int),
{
    if n < 0 {
        proof {
            reveal_strlit("-");
        }
        out.append("-");
        let magnitude: u64 = (-(n as i128)) as u64;
        push_digits(out, magnitude);
        assert(out@ =~= old(out)@ + decimal(n as int));
    } else {
        push_digits(out, n as u64);
    }
}

fn line_of(idx: usize, op: Operation, result: i64) -> (line: String)
    requires
        op.result() == Some(result),
    ensures
        line@ == history_line(idx as nat, op),
{
    proof {
        reveal_strlit(": ");
        reveal_strlit(" ");
        reveal_strlit(" = ");
        reveal_strlit("\n");
        assert(": "@ =~= seq![':', ' ']);
        assert(" "@ =~= seq![' ']);
        assert(" = "@ =~= seq![' ', '=', ' ']);
        assert("\n"@ =~= seq!['\n']);
    }
    let mut line = String::new();
    push_digits(&mut line, idx as u64);
    assert(line@ =~= decimal(idx as int));
    line.append(": ");
    push_decimal(&mut line, op.first_num);
    line.append(" ");
    line.append(op.operation_type.get_sign());
    line.append(" ");
    push_decimal(&mut line, op.second_num);
    line.append(" = ");
    push_decimal(&mut line, result);
    line.append("\n");
    line
}

/// A calculator that remembers the operations that did not overflow.
#[derive(Clone, Debug, PartialEq, Eq)]
pub struct Calculator {
    pub history: Vec<Operation>,
}

impl View for Calculator {
    type V = Seq<Operation>;

    open spec fn view(&self) -> Seq<Operation> {
        self.history@
    }
}

impl Calculator {
    /// A calculator with an empty history.
    pub fn new() -> (calc: Calculator)
        ensures
            calc@ == Seq::<Operation>::empty(),
    {
        Calculator { history: Vec::new() }
    }

    /// The history after `op` was tried on it: `op` is appended where it has a result.
    pub open spec fn recorded(history: Seq<Operation>, op: Operation) -> Seq<Operation> {
        if op.result() is Some {
            history.push(op)
        } else {
            history
        }
    }

    fn run(&mut self, op: Operation) -> (r: Option<i64>)
        ensures
            r == op.result(),
            final(self)@ == Self::recorded(old(self)@, op),
    {
        let r = op.operation_type.perform(op.first_num, op.second_num);
        if r.is_some() {
            self.history.push(op);
        }
        r
    }

    /// Adds, and records the addition unless it overflows.
    pub fn addition(&mut self, x: i64, y: i64) -> (r: Option<i64>)
        ensures
            r == OperationType::Addition.result(x, y),
            final(self)@ == Self::recorded(
                old(self)@,
                Operation { first_num: x, second_num: y, operation_type: OperationType::Addition },
            ),
    {
        self.run(Operation::new(x, y, OperationType::Addition))
    }

    /// Subtracts, and records the subtraction unless it overflows.
    pub fn subtraction(&mut self, x: i64, y: i64) -> (r: Option<i64>)
        ensures
            r == OperationType::Subtraction.result(x, y),
            final(self)@ == Self::recorded(
                old(self)@,
                Operation {
                    first_num: x,
                    second_num: y,
                    operation_type: OperationType::Subtraction,
                },
            ),
    {
        self.run(Operation::new(x, y, OperationType::Subtraction))
    }

    /// Multiplies, and records the multiplication unless it overflows.
    pub fn multiplication(&mut self, x: i64, y: i64) -> (r: Option<i64>)
        ensures
            r == OperationType::Multiplication.result(x, y),
            final(self)@ == Self::recorded(
                old(self)@,
                Operation {
                    first_num: x,
                    second_num: y,
                    operation_type: OperationType::Multiplication,
                },
            ),
    {
        self.run(Operation::new(x, y, OperationType::Multiplication))
    }

    /// The history as text, one line for each operation.
    pub fn show_history(&self) -> (text: String)
        ensures
            text@ == history_text(self@),
    {
        let mut out = String::new();
        let n: usize = self.history.len();
        let mut idx: usize = 0;
        assert(self@.take(0) =~= Seq::<Operation>::empty());
        while idx < n
            invariant
                idx <= n,
                n == self.history.len(),
                out@ == history_text(self@.take(idx as int)),
            decreases n - idx,
        {
            let op = self.history[idx];
            proof {
                assert(self@.take(idx + 1).drop_last() =~= self@.take(idx as int));
                assert(self@.take(idx + 1).last() == op);
            }
            if let Some(result) = op.operation_type.perform(op.first_num, op.second_num) {
                let line = line_of(idx, op, result);
                out.append(line.as_str());
            } else {
                assert(out@ + history_line(idx as nat, op) =~= out@);
            }
            idx += 1;
        }
        assert(self@.take(n as int) =~= self@);
        out
    }

    /// Runs the operation at `operation_index` again and records it like any other; there
    /// is nothing to run where the history is not that long.
    pub fn repeat(&mut self, operation_index: usize) -> (r: Option<i64>)
        ensures
            operation_index >= old(self)@.len() ==> r is None && final(self)@ == old(self)@,
            operation_index < old(self)@.len() ==> {
                &&& r == old(self)@[operation_index as int].result()
                &&& final(self)@ == Self::recorded(old(self)@, old(self)@[operation_index as int])
            },
    {
        if operation_index >= self.history.len() {
            return None;
        }
        let op = self.history[operation_index];
        self.run(op)
    }

    /// Forgets every operation.
    pub fn clear_history(&mut self)
        ensures
            final(self)@ == Seq::<Operation>::empty(),
    {
        self.history = Vec::new();
    }
}

} // verus!
