use vstd::prelude::*;

verus! {

/// A function provided by the host and callable from a program.
/// Two native functions are equal when they are the same builtin.
#[derive(Clone, Copy, Debug, PartialEq, Eq, Structural)]
pub enum NativeFunction {
    /// Writes the canonical text of its single argument and a newline.
    Print,
}

/// A runtime value of the language.
///
/// A float is held as its canonical decimal text (`1.5`, `0.25`, `3.0`): the
/// language has no float arithmetic, so every float is a literal of the
/// program, and its canonical text is both its identity and its rendering.
#[derive(Clone, Debug)]
pub enum Value {
    Nil,
    String(String),
    Function(NativeFunction),
    Integer(i64),
    Float(String),
    Boolean(bool),
}

/// The mathematical model of a [`Value`].
pub enum ValueView {
    Nil,
    String(Seq<char>),
    Function(NativeFunction),
    Integer(i64),
    Float(Seq<char>),
    Boolean(bool),
}

impl View for Value {
    type V = ValueView;

    open spec fn view(&self) -> ValueView {
        match self {
            Value::Nil => ValueView::Nil,
            Value::String(s) => ValueView::String(s@),
            Value::Function(f) => ValueView::Function(*f),
            Value::Integer(i) => ValueView::Integer(*i),
            Value::Float(s) => ValueView::Float(s@),
            Value::Boolean(b) => ValueView::Boolean(*b),
        }
    }
}

/// The views of a sequence of values.
pub open spec fn values_view(v: Seq<Value>) -> Seq<ValueView> {
    v.map_values(|x: Value| x@)
}

/// The character of a decimal digit.
pub open spec fn digit_char(d: int) -> char {
    ((d + 48) as u32) as char
}

/// The decimal digits of a natural number, most significant first.
pub open spec fn nat_text(n: nat) -> Seq<char>
    decreases n,
{
    if n < 10 {
        seq![digit_char(n as int)]
    } else {
        nat_text(n / 10).push(digit_char((n % 10) as int))
    }
}

/// The decimal text of an integer, with a leading `-` when negative.
pub open spec fn int_text(i: int) -> Seq<char> {
    if i < 0 {
        seq!['-'] + nat_text((-i) as nat)
    } else {
        nat_text(i as nat)
    }
}

/// The canonical text of a value, as `print` writes it.
pub open spec fn text_of(v: ValueView) -> Seq<char> {
    match v {
        ValueView::Nil => "nil"@,
        ValueView::String(s) => s,
        ValueView::Function(_) => "function"@,
        ValueView::Integer(i) => int_text(i as int),
        ValueView::Float(s) => s,
        ValueView::Boolean(b) => if b {
            "true"@
        } else {
            "false"@
        },
    }
}

/// Relies on `String::push`: the character is appended at the end.
#[verifier::external_body]
pub(crate) fn push_char(s: &mut String, c: char)
    ensures
        final(s)@ == old(s)@.push(c),
{
    s.push(c)
}

/// Appends the decimal digits of `n` to `out`.
fn push_nat_text(out: &mut String, n: u64)
    ensures
        final(out)@ == old(out)@ + nat_text(n as nat),
    decreases n,
{
    if n >= 10 {
        push_nat_text(out, n / 10);
    }
    let d: u64 = n % 10;
    push_char(out, ((d as u8) + 48) as char);
    proof {
        assert(digit_char(d as int) == (((d as u8) + 48) as u8 as u32) as char);
        if n >= 10 {
            assert(old(out)@ + nat_text(n as nat) =~= old(out)@ + nat_text((n / 10) as nat) + seq![
                digit_char(d as int),
            ]);
        } else {
            assert(old(out)@ + nat_text(n as nat) =~= old(out)@ + seq![digit_char(d as int)]);
        }
    }
}

/// The decimal text of an integer.
pub fn integer_text(i: i64) -> (r: String)
    ensures
        r@ == int_text(i as int),
{
    let mut out = String::new();
    if i < 0 {
        push_char(&mut out, '-');
        let mag: u64 = (0 - (i as i128)) as u64;
        push_nat_text(&mut out, mag);
    } else {
        push_nat_text(&mut out, i as u64);
    }
    proof {
        if i < 0 {
            assert(out@ =~= int_text(i as int));
        } else {
            assert(out@ =~= int_text(i as int));
        }
    }
    out
}

impl Value {
    /// A copy of this value.
    pub fn duplicate(&self) -> (r: Value)
        ensures
            r@ == self@,
    {
        match self {
            Value::Nil => Value::Nil,
            Value::String(s) => Value::String(s.clone()),
            Value::Function(f) => Value::Function(*f),
            Value::Integer(i) => Value::Integer(*i),
            Value::Float(s) => Value::Float(s.clone()),
            Value::Boolean(b) => Value::Boolean(*b),
        }
    }

    /// Whether two values are equal: same variant and same contents.
    pub fn same_as(&self, other: &Value) -> (r: bool)
        ensures
            r == (self@ == other@),
    {
        match (self, other) {
            (Value::Nil, Value::Nil) => true,
            (Value::String(a), Value::String(b)) => *a == *b,
            (Value::Function(a), Value::Function(b)) => *a == *b,
            (Value::Integer(a), Value::Integer(b)) => *a == *b,
            (Value::Float(a), Value::Float(b)) => *a == *b,
            (Value::Boolean(a), Value::Boolean(b)) => *a == *b,
            _ => false,
        }
    }

    /// The canonical text of this value: `nil`, `true` / `false`, decimal
    /// integers, the canonical text of floats, the contents of strings.
    pub fn render(&self) -> (r: String)
        ensures
            r@ == text_of(self@),
    {
        match self {
            Value::Nil => String::from_str("nil"),
            Value::String(s) => s.clone(),
            Value::Function(_) => String::from_str("function"),
            Value::Integer(i) => integer_text(*i),
            Value::Float(s) => s.clone(),
            Value::Boolean(b) => if *b {
                String::from_str("true")
            } else {
                String::from_str("false")
            },
        }
    }
}

impl PartialEq for Value {
    fn eq(&self, other: &Value) -> (r: bool) {
        self.same_as(other)
    }
}

impl vstd::std_specs::cmp::PartialEqSpecImpl for Value {
    open spec fn obeys_eq_spec() -> bool {
        true
    }

    open spec fn eq_spec(&self, other: &Value) -> bool {
        self@ == other@
    }
}

} // verus!
