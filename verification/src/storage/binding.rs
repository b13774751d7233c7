use vstd::prelude::*;
use sqlx::sqlite::SqliteArguments;
use sqlx::Arguments;
use crate::storage::statement::{Statement, Value, ValueView, value_views};

verus! {

#[verifier::external_type_specification]
#[verifier::external_body]
pub struct ExSqliteArguments<'q>(sqlx::sqlite::SqliteArguments<'q>);

/// The values that a set of arguments holds, in the order in which they
/// were bound.
pub uninterp spec fn bound(arguments: SqliteArguments<'static>) -> Seq<ValueView>;

/// `SqliteArguments::default` of sqlx: a set of arguments that holds no
/// value yet.
#[verifier::external_body]
fn no_arguments() -> (arguments: SqliteArguments<'static>)
    ensures
        bound(arguments) == Seq::<ValueView>::empty(),
{
    SqliteArguments::default()
}

/// `Arguments::add` of sqlx for an `i64`: the number is appended as one
/// 64-bit integer; nothing else changes. Encoding an integer cannot fail.
#[verifier::external_body]
fn bind_integer(arguments: &mut SqliteArguments<'static>, number: i64)
    ensures
        bound(*final(arguments)) == bound(*old(arguments)).push(ValueView::Integer(number)),
{
    let _ = arguments.add(number);
}

/// `Arguments::add` of sqlx for a `String`: a copy of the text is appended
/// as one text value; nothing else changes. Encoding a text cannot fail.
#[verifier::external_body]
fn bind_text(arguments: &mut SqliteArguments<'static>, text: &String)
    ensures
        bound(*final(arguments)) == bound(*old(arguments)).push(ValueView::Text(text@)),
{
    let _ = arguments.add(text.clone());
}

/// `Arguments::add` of sqlx for a `bool`: the flag is appended as one
/// integer, 1 for true and 0 for false; nothing else changes. Encoding a
/// flag cannot fail.
#[verifier::external_body]
fn bind_boolean(arguments: &mut SqliteArguments<'static>, flag: bool)
    ensures
        bound(*final(arguments)) == bound(*old(arguments)).push(ValueView::Boolean(flag)),
{
    let _ = arguments.add(flag);
}

/// Binds one more value.
pub fn bind(arguments: &mut SqliteArguments<'static>, value: &Value)
    ensures
        bound(*final(arguments)) == bound(*old(arguments)).push(value@),
{
    match value {
        Value::Integer(number) => bind_integer(arguments, *number),
        Value::Text(text) => bind_text(arguments, text),
        Value::Boolean(flag) => bind_boolean(arguments, *flag),
    }
}

impl Statement {
    /// Binds the values of the statement, each to the placeholder at its
    /// own position.
    pub fn arguments(&self) -> (arguments: SqliteArguments<'static>)
        ensures
            bound(arguments) == self@.params,
    {
        let mut arguments = no_arguments();
        let mut done: usize = 0;
        while done < self.params.len()
            invariant
                done <= self.params.len(),
                bound(arguments) == value_views(self.params@).take(done as int),
            decreases self.params.len() - done,
        {
            bind(&mut arguments, &self.params[done]);
            proof {
                let all = value_views(self.params@);
                assert(all.take(done + 1) =~= all.take(done as int).push(all[done as int]));
            }
            done = done + 1;
        }
        proof {
            assert(value_views(self.params@).take(self.params.len() as int) =~= value_views(
                self.params@,
            ));
        }
        arguments
    }
}

} // verus!
