//! Writing the generated test procedure: statements, lines, and the test
//! function around them.

use crate::syntax::Expr;
use vstd::prelude::*;
use vstd::string::*;

verus! {

/// A text between two fixed texts.
pub open spec fn wrapped(before: Seq<char>, text: Seq<char>, after: Seq<char>) -> Seq<char> {
    before + text + after
}

/// A text between two fixed texts.
pub fn wrap(before: &str, text: &str, after: &str) -> (r: String)
    ensures
        r@ == wrapped(before@, text@, after@),
{
    let mut s = String::from_str(before);
    s.append(text);
    s.append(after);
    s
}

/// The statements of a list of expressions: each expression between the two
/// fixed texts, in the order of the list.
pub open spec fn wrapped_each(before: Seq<char>, texts: Seq<Seq<char>>, after: Seq<char>) -> Seq<
    Seq<char>,
> {
    Seq::new(texts.len(), |i: int| wrapped(before, texts[i], after))
}

/// Appends one statement for each expression of a list.
pub fn push_wrapped_each(out: &mut Vec<String>, before: &str, exprs: &Vec<Expr>, after: &str)
    ensures
        final(out).deep_view() == old(out).deep_view() + wrapped_each(
            before@,
            exprs.deep_view(),
            after@,
        ),
{
    let mut i: usize = 0;
    assert(out.deep_view() =~= old(out).deep_view() + wrapped_each(
        before@,
        exprs.deep_view(),
        after@,
    ).take(0));
    while i < exprs.len()
        invariant
            i <= exprs.len(),
            out.deep_view() == old(out).deep_view() + wrapped_each(
                before@,
                exprs.deep_view(),
                after@,
            ).take(i as int),
        decreases exprs.len() - i,
    {
        let ghost so_far = out.deep_view();
        let statement = wrap(before, exprs[i].text.as_str(), after);
        out.push(statement);
        assert(out.deep_view() =~= so_far.push(statement@));
        assert(out.deep_view() =~= old(out).deep_view() + wrapped_each(
            before@,
            exprs.deep_view(),
            after@,
        ).take(i + 1));
        i += 1;
    }
    assert(wrapped_each(before@, exprs.deep_view(), after@).take(exprs.len() as int)
        =~= wrapped_each(before@, exprs.deep_view(), after@));
}

/// The statement that checks a boolean expression: the expression must hold,
/// and the failure message holds its source text.
pub open spec fn assertion_statement(text: Seq<char>) -> Seq<char> {
    "assert!("@ + text + ", \"Assertion failed: {}\", stringify!("@ + text + "));"@
}

/// Writes the statement that checks a boolean expression.
pub fn assertion_text(expr: &Expr) -> (r: String)
    ensures
        r@ == assertion_statement(expr.deep_view()),
{
    let mut statement = String::from_str("assert!(");
    statement.append(expr.text.as_str());
    statement.append(", \"Assertion failed: {}\", stringify!(");
    statement.append(expr.text.as_str());
    statement.append("));");
    statement
}

/// An entity bound to its handle.
#[derive(Clone, PartialEq, Eq, Debug)]
pub struct EntityBinding {
    /// The name of the variable that holds the spawned entity.
    pub handle: String,
    /// The expression that constructs the entity.
    pub construction: String,
}

/// The mathematical model of an [`EntityBinding`].
pub struct Binding {
    pub handle: Seq<char>,
    pub construction: Seq<char>,
}

impl DeepView for EntityBinding {
    type V = Binding;

    open spec fn deep_view(&self) -> Binding {
        Binding { handle: self.handle@, construction: self.construction@ }
    }
}

/// The statement that spawns a bound entity and keeps its handle.
pub open spec fn spawn_statement(binding: Binding) -> Seq<char> {
    "let "@ + binding.handle + " = app.world_mut().spawn("@ + binding.construction + ").id();"@
}

/// The statements that spawn the bound entities, in their order.
pub open spec fn spawn_statements(bound: Seq<Binding>) -> Seq<Seq<char>> {
    Seq::new(bound.len(), |i: int| spawn_statement(bound[i]))
}

/// The statements that make a fresh harness with the minimal plugins.
pub open spec fn harness_statements() -> Seq<Seq<char>> {
    seq![
        "use bevy::prelude::*;"@,
        "let mut app = App::new();"@,
        "app.add_plugins(MinimalPlugins);"@,
    ]
}

/// Appends the statements that make a fresh harness.
pub fn push_harness(out: &mut Vec<String>)
    ensures
        final(out).deep_view() == old(out).deep_view() + harness_statements(),
{
    out.push(String::from_str("use bevy::prelude::*;"));
    out.push(String::from_str("let mut app = App::new();"));
    out.push(String::from_str("app.add_plugins(MinimalPlugins);"));
    assert(out.deep_view() =~= old(out).deep_view() + harness_statements());
}

/// Appends the statements that spawn the bound entities.
pub fn push_spawns(out: &mut Vec<String>, bound: &Vec<EntityBinding>)
    ensures
        final(out).deep_view() == old(out).deep_view() + spawn_statements(bound.deep_view()),
{
    let mut i: usize = 0;
    assert(out.deep_view() =~= old(out).deep_view() + spawn_statements(bound.deep_view()).take(0));
    while i < bound.len()
        invariant
            i <= bound.len(),
            out.deep_view() == old(out).deep_view() + spawn_statements(bound.deep_view()).take(
                i as int,
            ),
        decreases bound.len() - i,
    {
        let ghost so_far = out.deep_view();
        let mut statement = String::from_str("let ");
        statement.append(bound[i].handle.as_str());
        statement.append(" = app.world_mut().spawn(");
        statement.append(bound[i].construction.as_str());
        statement.append(").id();");
        assert(bound.deep_view()[i as int] == bound@[i as int].deep_view());
        out.push(statement);
        assert(out.deep_view() =~= so_far.push(statement@));
        assert(out.deep_view() =~= old(out).deep_view() + spawn_statements(
            bound.deep_view(),
        ).take(i + 1));
        i += 1;
    }
    assert(spawn_statements(bound.deep_view()).take(bound.len() as int) =~= spawn_statements(
        bound.deep_view(),
    ));
}

/// The indentation of a statement in the body of the test function.
pub open spec fn indentation() -> Seq<char> {
    "    "@
}

/// The text of the first `n` statements, one to a line.
pub open spec fn lines_prefix(statements: Seq<Seq<char>>, n: nat) -> Seq<char>
    decreases n,
{
    if n == 0 || n > statements.len() {
        Seq::empty()
    } else {
        lines_prefix(statements, (n - 1) as nat) + indentation() + statements[n - 1] + "\n"@
    }
}

/// The text of a list of statements: each on a line of its own, indented, in
/// the order of the list.
pub open spec fn lines(statements: Seq<Seq<char>>) -> Seq<char> {
    lines_prefix(statements, statements.len())
}

/// The text of a test procedure: a test function with the given name, whose
/// body is the given statements.
pub open spec fn procedure(name: Seq<char>, statements: Seq<Seq<char>>) -> Seq<char> {
    "#[test]\nfn "@ + name + "() {\n"@ + lines(statements) + "}\n"@
}

/// Writes a test procedure.
pub fn write_procedure(name: &str, statements: &Vec<String>) -> (r: String)
    ensures
        r@ == procedure(name@, statements.deep_view()),
{
    let mut out = String::from_str("#[test]\nfn ");
    out.append(name);
    out.append("() {\n");
    let ghost head = out@;
    let ghost all = statements.deep_view();
    let mut i: usize = 0;
    assert(out@ =~= head + lines_prefix(all, 0));
    while i < statements.len()
        invariant
            i <= statements.len(),
            all == statements.deep_view(),
            out@ == head + lines_prefix(all, i as nat),
        decreases statements.len() - i,
    {
        let ghost so_far = out@;
        out.append("    ");
        out.append(statements[i].as_str());
        out.append("\n");
        assert(all[i as int] == statements@[i as int]@);
        assert(out@ =~= head + (lines_prefix(all, i as nat) + indentation() + all[i as int]
            + "\n"@));
        i += 1;
    }
    out.append("}\n");
    assert(out@ =~= procedure(name@, all));
    out
}

} // verus!
