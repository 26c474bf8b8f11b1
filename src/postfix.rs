use vstd::prelude::*;

verus! {

/// Why a postfix expression could not be evaluated.
#[derive(Clone, Copy, Debug, PartialEq, Eq, Structural)]
pub enum EvalError {
    /// A token is neither a numeral nor one of `+ - * /`.
    ParseError,
    /// A `/` whose right operand is zero.
    DivisionByZero,
    /// A numeral or an intermediate result does not fit in an `i32`.
    Overflow,
    /// An operator found fewer than two values on the stack.
    InsufficientOperands,
    /// More than one value is left once the input is consumed.
    TrailingOperands,
    /// The input holds no token at all.
    EmptyExpression,
}

pub open spec fn is_digit(c: char) -> bool {
    '0' <= c && c <= '9'
}

pub open spec fn is_operator(c: char) -> bool {
    c == '+' || c == '-' || c == '*' || c == '/'
}

pub open spec fn digit_value(c: char) -> int {
    c as int - '0' as int
}

/// Scans `s` left to right: the words completed so far (each ended by a
/// space) and the word still being read.
pub open spec fn scan(s: Seq<char>) -> (Seq<Seq<char>>, Seq<char>)
    decreases s.len(),
{
    if s.len() == 0 {
        (Seq::empty(), Seq::empty())
    } else {
        let (done, cur) = scan(s.drop_last());
        if s.last() == ' ' {
            if cur.len() > 0 {
                (done.push(cur), Seq::empty())
            } else {
                (done, cur)
            }
        } else {
            (done, cur.push(s.last()))
        }
    }
}

/// The maximal runs of non-space characters of `s`, in order.
pub open spec fn words(s: Seq<char>) -> Seq<Seq<char>> {
    let (done, cur) = scan(s);
    if cur.len() > 0 {
        done.push(cur)
    } else {
        done
    }
}

pub open spec fn is_numeral(t: Seq<char>) -> bool {
    t.len() > 0 && forall|i: int| 0 <= i < t.len() ==> is_digit(#[trigger] t[i])
}

/// The decimal value of a string of digits.
pub open spec fn numeral_value(t: Seq<char>) -> int
    decreases t.len(),
{
    if t.len() == 0 {
        0
    } else {
        10 * numeral_value(t.drop_last()) + digit_value(t.last())
    }
}

pub open spec fn in_i32(v: int) -> bool {
    i32::MIN <= v && v <= i32::MAX
}

/// Integer division rounding toward zero, as Rust's `/` on integers does.
pub open spec fn trunc_div(a: int, b: int) -> int {
    let q = abs(a) / abs(b);
    if (a >= 0) == (b > 0) || a == 0 {
        q
    } else {
        -q
    }
}

pub open spec fn abs(v: int) -> int {
    if v < 0 {
        -v
    } else {
        v
    }
}

/// `a op b` for one of the four operators (`b != 0` for `/`).
pub open spec fn apply_op(op: char, a: int, b: int) -> int {
    if op == '+' {
        a + b
    } else if op == '-' {
        a - b
    } else if op == '*' {
        a * b
    } else {
        trunc_div(a, b)
    }
}

/// `a op b` as an `i32`, or the error it raises.
pub open spec fn combine(op: char, a: i32, b: i32) -> Result<i32, EvalError> {
    if op == '/' && b == 0 {
        Err(EvalError::DivisionByZero)
    } else if !in_i32(apply_op(op, a as int, b as int)) {
        Err(EvalError::Overflow)
    } else {
        Ok(apply_op(op, a as int, b as int) as i32)
    }
}

/// The stack after one token, or the error that the token raises.
pub open spec fn step(stack: Seq<i32>, t: Seq<char>) -> Result<Seq<i32>, EvalError> {
    if t.len() == 1 && is_operator(t[0]) {
        if stack.len() < 2 {
            Err(EvalError::InsufficientOperands)
        } else {
            match combine(t[0], stack[stack.len() - 2], stack[stack.len() - 1]) {
                Ok(v) => Ok(stack.take(stack.len() - 2).push(v)),
                Err(e) => Err(e),
            }
        }
    } else if is_numeral(t) {
        if numeral_value(t) > i32::MAX {
            Err(EvalError::Overflow)
        } else {
            Ok(stack.push(numeral_value(t) as i32))
        }
    } else {
        Err(EvalError::ParseError)
    }
}

/// Runs the tokens from an empty stack; the first error stops the run.
pub open spec fn run_tokens(ts: Seq<Seq<char>>) -> Result<Seq<i32>, EvalError>
    decreases ts.len(),
{
    if ts.len() == 0 {
        Ok(Seq::empty())
    } else {
        match run_tokens(ts.drop_last()) {
            Ok(stack) => step(stack, ts.last()),
            Err(e) => Err(e),
        }
    }
}

/// The value of the postfix expression `s`, or why it has none.
pub open spec fn eval_spec(s: Seq<char>) -> Result<i32, EvalError> {
    match run_tokens(words(s)) {
        Ok(stack) => if stack.len() == 0 {
            Err(EvalError::EmptyExpression)
        } else if stack.len() > 1 {
            Err(EvalError::TrailingOperands)
        } else {
            Ok(stack[0])
        },
        Err(e) => Err(e),
    }
}

/// The characters of `s`, in order.
fn chars_of(s: &str) -> (r: Vec<char>)
    ensures
        r@ == s@,
{
    let mut out: Vec<char> = Vec::new();
    for c in it: s.chars()
        invariant
            out@ == it.seq().take(it.index() as int),
    {
        out.push(c);
    }
    assert(out@ == s@);
    out
}

proof fn lemma_numeral_monotone(t: Seq<char>, n: int)
    requires
        0 <= n <= t.len(),
        forall|i: int| 0 <= i < t.len() ==> is_digit(#[trigger] t[i]),
    ensures
        0 <= numeral_value(t.take(n)) <= numeral_value(t),
    decreases t.len(),
{
    if n < t.len() {
        assert(t.drop_last().take(n) == t.take(n));
        lemma_numeral_monotone(t.drop_last(), n);
        lemma_numeral_nonneg(t.drop_last());
    } else {
        assert(t.take(n) == t);
        lemma_numeral_nonneg(t);
    }
}

proof fn lemma_numeral_nonneg(t: Seq<char>)
    requires
        forall|i: int| 0 <= i < t.len() ==> is_digit(#[trigger] t[i]),
    ensures
        0 <= numeral_value(t),
    decreases t.len(),
{
    if t.len() > 0 {
        lemma_numeral_nonneg(t.drop_last());
    }
}

/// The value of the numeral `t`, or `None` if it exceeds `i32::MAX`.
fn numeral_i32(t: &Vec<char>) -> (r: Option<i32>)
    requires
        is_numeral(t@),
    ensures
        match r {
            Some(v) => v as int == numeral_value(t@),
            None => numeral_value(t@) > i32::MAX,
        },
{
    let mut value: i32 = 0;
    let mut i: usize = 0;
    while i < t.len()
        invariant
            i <= t@.len(),
            is_numeral(t@),
            value as int == numeral_value(t@.take(i as int)),
        decreases t@.len() - i,
    {
        assert(t@.take(i + 1).drop_last() == t@.take(i as int));
        let d = (t[i] as u32 - '0' as u32) as i32;
        match value.checked_mul(10) {
            Some(m) => match m.checked_add(d) {
                Some(v) => {
                    value = v;
                },
                None => {
                    proof {
                        lemma_numeral_monotone(t@, i + 1);
                    }
                    return None;
                },
            },
            None => {
                proof {
                    lemma_numeral_monotone(t@, i + 1);
                    lemma_numeral_nonneg(t@.take(i as int));
                }
                return None;
            },
        }
        i = i + 1;
    }
    assert(t@.take(i as int) == t@);
    Some(value)
}

/// Every character of `t` is a digit, and there is at least one.
fn all_digits(t: &Vec<char>) -> (r: bool)
    ensures
        r == is_numeral(t@),
{
    if t.len() == 0 {
        return false;
    }
    let mut i: usize = 0;
    while i < t.len()
        invariant
            i <= t@.len(),
            forall|j: int| 0 <= j < i ==> is_digit(#[trigger] t@[j]),
        decreases t@.len() - i,
    {
        if !('0' <= t[i] && t[i] <= '9') {
            return false;
        }
        i = i + 1;
    }
    true
}

/// `x1 + x2`, unless it overflows.
pub fn add(x1: i32, x2: i32) -> (r: Result<i32, EvalError>)
    ensures
        r == combine('+', x1, x2),
{
    match x1.checked_add(x2) {
        Some(v) => Ok(v),
        None => Err(EvalError::Overflow),
    }
}

/// `x1 - x2`, unless it overflows.
pub fn sub(x1: i32, x2: i32) -> (r: Result<i32, EvalError>)
    ensures
        r == combine('-', x1, x2),
{
    match x1.checked_sub(x2) {
        Some(v) => Ok(v),
        None => Err(EvalError::Overflow),
    }
}

/// `x1 * x2`, unless it overflows.
pub fn mul(x1: i32, x2: i32) -> (r: Result<i32, EvalError>)
    ensures
        r == combine('*', x1, x2),
{
    match x1.checked_mul(x2) {
        Some(v) => Ok(v),
        None => Err(EvalError::Overflow),
    }
}

/// `x1 / x2` rounded toward zero; an error when `x2` is zero or the
/// quotient overflows.
pub fn div(x1: i32, x2: i32) -> (r: Result<i32, EvalError>)
    ensures
        r == combine('/', x1, x2),
{
    if x2 == 0 {
        return Err(EvalError::DivisionByZero);
    }
    match x1.checked_div(x2) {
        Some(v) => Ok(v),
        None => Err(EvalError::Overflow),
    }
}

/// Applies one token to the operand stack.
fn step_token(stack: &mut Vec<i32>, t: &Vec<char>) -> (r: Result<(), EvalError>)
    ensures
        match step(old(stack)@, t@) {
            Ok(next) => r is Ok && final(stack)@ == next,
            Err(e) => r == Err::<(), EvalError>(e),
        },
{
    if t.len() == 1 && (t[0] == '+' || t[0] == '-' || t[0] == '*' || t[0] == '/') {
        let n = stack.len();
        if n < 2 {
            return Err(EvalError::InsufficientOperands);
        }
        let a = stack[n - 2];
        let b = stack[n - 1];
        let op = t[0];
        let c = if op == '+' {
            crate::postfix::add(a, b)
        } else if op == '-' {
            crate::postfix::sub(a, b)
        } else if op == '*' {
            crate::postfix::mul(a, b)
        } else {
            div(a, b)
        };
        match c {
            Ok(v) => {
                stack.pop();
                stack.pop();
                stack.push(v);
                assert(stack@ =~= old(stack)@.take(n - 2).push(v));
                Ok(())
            },
            Err(e) => Err(e),
        }
    } else if all_digits(t) {
        match numeral_i32(t) {
            Some(v) => {
                stack.push(v);
                Ok(())
            },
            None => Err(EvalError::Overflow),
        }
    } else {
        Err(EvalError::ParseError)
    }
}

/// Evaluates a postfix expression whose tokens are separated by spaces.
///
/// Numerals are non-negative decimal integers; each operator takes the two
/// values pushed most recently, the earlier one on its left.
pub fn eval(s: &str) -> (r: Result<i32, EvalError>)
    ensures
        r == eval_spec(s@),
{
    let cs = chars_of(s);
    let mut stack: Vec<i32> = Vec::new();
    let mut cur: Vec<char> = Vec::new();
    let mut failed: Option<EvalError> = None;
    let mut i: usize = 0;
    while i < cs.len()
        invariant
            i <= cs@.len(),
            cs@ == s@,
            scan(cs@.take(i as int)).1 == cur@,
            run_tokens(scan(cs@.take(i as int)).0) == (match failed {
                Some(e) => Err(e),
                None => Ok(stack@),
            }),
        decreases cs@.len() - i,
    {
        let ghost prefix = cs@.take(i as int);
        assert(cs@.take(i + 1).drop_last() == prefix);
        let c = cs[i];
        if c == ' ' {
            if cur.len() > 0 {
                if failed.is_none() {
                    match step_token(&mut stack, &cur) {
                        Ok(()) => {},
                        Err(e) => {
                            failed = Some(e);
                        },
                    }
                }
                proof {
                    let done = scan(prefix).0;
                    assert(done.push(cur@).drop_last() == done);
                }
                cur = Vec::new();
            }
        } else {
            cur.push(c);
        }
        i = i + 1;
    }
    assert(cs@.take(i as int) == s@);
    proof {
        let done = scan(s@).0;
        assert(done.push(cur@).drop_last() == done);
    }
    if cur.len() > 0 && failed.is_none() {
        match step_token(&mut stack, &cur) {
            Ok(()) => {},
            Err(e) => {
                failed = Some(e);
            },
        }
    }
    match failed {
        Some(e) => Err(e),
        None => {
            if stack.len() == 0 {
                Err(EvalError::EmptyExpression)
            } else if stack.len() > 1 {
                Err(EvalError::TrailingOperands)
            } else {
                Ok(stack[0])
            }
        },
    }
}


/// Evaluation depends on the expression text alone: two evaluations of the
/// same text give the same result.
pub proof fn lemma_eval_deterministic(
    s: Seq<char>,
    first: Result<i32, EvalError>,
    second: Result<i32, EvalError>,
)
    requires
        first == eval_spec(s),
        second == eval_spec(s),
    ensures
        first == second,
{
}

} // verus!
