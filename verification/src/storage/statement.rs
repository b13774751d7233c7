use vstd::prelude::*;
use vstd::string::*;

verus! {

/// A value bound to one placeholder of a statement.
#[derive(Debug)]
pub enum Value {
    Integer(i64),
    Text(String),
    Boolean(bool),
}

/// A bound value as plain data.
pub enum ValueView {
    Integer(i64),
    Text(Seq<char>),
    Boolean(bool),
}

impl View for Value {
    type V = ValueView;

    open spec fn view(&self) -> ValueView {
        match self {
            Value::Integer(number) => ValueView::Integer(*number),
            Value::Text(text) => ValueView::Text(text@),
            Value::Boolean(flag) => ValueView::Boolean(*flag),
        }
    }
}

/// The plain data of a run of bound values, in the same order.
pub open spec fn value_views(values: Seq<Value>) -> Seq<ValueView> {
    values.map_values(|value: Value| value@)
}

/// The integers of a run, each as a bound value.
pub open spec fn integer_values(numbers: Seq<i64>) -> Seq<ValueView> {
    numbers.map_values(|number: i64| ValueView::Integer(number))
}

/// A parameterized statement: its text, and the values for its
/// placeholders in the order in which the placeholders occur.
#[derive(Debug)]
pub struct Statement {
    pub sql: String,
    pub params: Vec<Value>,
}

/// A statement as plain data.
pub struct StatementView {
    pub sql: Seq<char>,
    pub params: Seq<ValueView>,
}

impl View for Statement {
    type V = StatementView;

    open spec fn view(&self) -> StatementView {
        StatementView { sql: self.sql@, params: value_views(self.params@) }
    }
}

/// The parts in order, with the separator between each two neighbours.
pub open spec fn joined(parts: Seq<Seq<char>>, separator: Seq<char>) -> Seq<char>
    decreases parts.len(),
{
    if parts.len() == 0 {
        Seq::empty()
    } else if parts.len() == 1 {
        parts[0]
    } else {
        joined(parts.drop_last(), separator) + separator + parts.last()
    }
}

/// As many placeholders as asked for, separated by commas.
pub open spec fn placeholder_list(count: nat) -> Seq<char> {
    joined(Seq::new(count, |i: int| "?"@), ", "@)
}

/// Writes `count` placeholders, separated by commas.
pub fn placeholders(count: usize) -> (text: String)
    ensures
        text@ == placeholder_list(count as nat),
{
    let mut text = String::new();
    let mut written: usize = 0;
    let ghost marks: Seq<Seq<char>> = Seq::new(count as nat, |i: int| "?"@);
    while written < count
        invariant
            written <= count,
            marks == Seq::new(count as nat, |i: int| "?"@),
            text@ == joined(marks.take(written as int), ", "@),
        decreases count - written,
    {
        if written > 0 {
            text.append(", ");
        }
        text.append("?");
        proof {
            let before = marks.take(written as int);
            let after = marks.take(written + 1);
            assert(after.drop_last() =~= before);
            assert(after.last() == "?"@);
            if written == 0 {
                assert(text@ =~= "?"@);
                assert(after[0] == "?"@);
            }
        }
        written = written + 1;
    }
    proof {
        assert(marks.take(count as int) =~= marks);
    }
    text
}

} // verus!
