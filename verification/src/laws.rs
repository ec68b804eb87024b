//! Laws of the three grammars and of the generated procedures: the clauses
//! of a specification have one order, and a specification with two clauses
//! exchanged is refused at the first clause that is out of place; the items
//! of a list are separated by commas; the fields of an entity are a mapping;
//! a time expression on what is no number literal is one frame; what checks
//! the outcomes of a scenario does not depend on what was done before.

use crate::component::{component_body, component_case, ComponentCase};
use crate::error::{description, keyword_text, message_of, ErrorKind, Failure, Keyword};
use crate::scenario::{
    assertion_statements, distinct_names, fields_from, given_clause,
    lemma_with_field_keeps_names_distinct, scenario, scenario_body, scenario_statements,
    with_field, Field, Scenario,
};
use crate::syntax::{
    after_comma, clause_at, expression_at, expressions_from, identifier_at, is_reserved,
    named_body, punct_at, separator_at, word_at,
};
use crate::system::{setup_clause, system_body, system_case, SystemCase};
use crate::time::{time_advance, Call, Receiver, TimeAdvance};
use crate::token::{token_text, Delimiter, Tok};
use vstd::prelude::*;

verus! {

/// The tokens of a braced clause: its keyword, a colon, its content in
/// braces.
pub open spec fn braced_clause(keyword: Keyword, content: Seq<Tok>) -> Seq<Tok> {
    seq![
        Tok::Ident(keyword_text(keyword)),
        Tok::Punct(':', false),
        Tok::Group(Delimiter::Brace, content),
    ]
}

/// The tokens of a clause whose value is not braced: its keyword, a colon,
/// the tokens of its value.
pub open spec fn plain_clause(keyword: Keyword, value: Seq<Tok>) -> Seq<Tok> {
    seq![Tok::Ident(keyword_text(keyword)), Tok::Punct(':', false)] + value
}

/// What stands between two clauses: a comma or nothing.
pub open spec fn gap(comma: bool) -> Seq<Tok> {
    if comma {
        seq![Tok::Punct(',', false)]
    } else {
        seq![]
    }
}

/// Three clauses in a row.
#[verifier::opaque]
pub open spec fn in_order(
    first: Seq<Tok>,
    comma_1: bool,
    second: Seq<Tok>,
    comma_2: bool,
    third: Seq<Tok>,
) -> Seq<Tok> {
    first + gap(comma_1) + second + gap(comma_2) + third
}

/// Where the tokens of three clauses in a row stand: the first clause at the
/// start and, where it has three tokens, the second clause behind them and
/// the comma, if there is one.
pub proof fn lemma_in_order_places(
    first: Seq<Tok>,
    comma_1: bool,
    second: Seq<Tok>,
    comma_2: bool,
    third: Seq<Tok>,
)
    requires
        first.len() >= 1,
        second.len() >= 1,
    ensures
        in_order(first, comma_1, second, comma_2, third).len() > first.len(),
        in_order(first, comma_1, second, comma_2, third)[0] == first[0],
        first.len() == 3 ==> {
            let all = in_order(first, comma_1, second, comma_2, third);
            &&& all[1] == first[1]
            &&& all[2] == first[2]
            &&& comma_1 ==> all.len() > 4 && all[3] == Tok::Punct(',', false) && all[4] == second[0]
            &&& !comma_1 ==> all[3] == second[0]
        },
{
    reveal(in_order);
}

/// The keywords of the clauses are different words.
pub proof fn lemma_keywords_differ(a: Keyword, b: Keyword)
    requires
        a != b,
    ensures
        keyword_text(a) != keyword_text(b),
{
    reveal_strlit("given");
    reveal_strlit("when");
    reveal_strlit("then");
    reveal_strlit("setup");
    reveal_strlit("call");
    reveal_strlit("expect");
    reveal_strlit("operations");
    let x = keyword_text(a);
    let y = keyword_text(b);
    if x.len() == y.len() {
        assert(x[0] != y[0]);
    }
}

/// A scenario must open with its `given` clause.
pub proof fn lemma_scenario_opens_with_given(name: Seq<char>, s: Seq<Tok>)
    requires
        word_at(s, 0) != Some(keyword_text(Keyword::Given)),
    ensures
        scenario_body(name, s) == Err::<Scenario, Failure>(
            Failure::at(ErrorKind::ExpectedKeyword(Keyword::Given), 0),
        ),
{
}

/// Behind the `given` clause of a scenario its `when` clause must follow.
pub proof fn lemma_scenario_goes_on_with_when(name: Seq<char>, s: Seq<Tok>)
    requires
        clause_at(s, 0, Keyword::Given) is Ok,
        given_clause(clause_at(s, 0, Keyword::Given)->Ok_0) is Ok,
        word_at(s, after_comma(s, 3)) != Some(keyword_text(Keyword::When)),
    ensures
        scenario_body(name, s) == Err::<Scenario, Failure>(
            Failure::at(ErrorKind::ExpectedKeyword(Keyword::When), after_comma(s, 3)),
        ),
{
}

/// A well-formed scenario has a well-formed `given` clause.
pub proof fn lemma_scenario_has_given(name: Seq<char>, s: Seq<Tok>)
    requires
        scenario_body(name, s) is Ok,
    ensures
        clause_at(s, 0, Keyword::Given) is Ok,
        given_clause(clause_at(s, 0, Keyword::Given)->Ok_0) is Ok,
{
}

/// A scenario that opens with the keyword of another clause is refused: the
/// error names `given` as the keyword that was due and points at the
/// keyword that stands there.
pub proof fn lemma_scenario_refuses_another_opening(name: Seq<char>, s: Seq<Tok>, found: Keyword)
    requires
        s.len() >= 1,
        s[0] == Tok::Ident(keyword_text(found)),
        found != Keyword::Given,
    ensures
        scenario_body(name, s) == Err::<Scenario, Failure>(
            Failure::at(ErrorKind::ExpectedKeyword(Keyword::Given), 0),
        ),
{
    lemma_keywords_differ(found, Keyword::Given);
    lemma_scenario_opens_with_given(name, s);
}

/// A scenario with its `given` clause and then the keyword of a clause that
/// is not `when` is refused: the error names `when` as the keyword that was
/// due and points at the keyword that stands there.
pub proof fn lemma_scenario_refuses_another_second(
    name: Seq<char>,
    s: Seq<Tok>,
    given: Seq<Tok>,
    found: Keyword,
)
    requires
        given_clause(given) is Ok,
        s.len() >= 3,
        s[0] == Tok::Ident(keyword_text(Keyword::Given)),
        s[1] == Tok::Punct(':', false),
        s[2] == Tok::Group(Delimiter::Brace, given),
        word_at(s, after_comma(s, 3)) == Some(keyword_text(found)),
        found != Keyword::When,
    ensures
        scenario_body(name, s) == Err::<Scenario, Failure>(
            Failure::at(ErrorKind::ExpectedKeyword(Keyword::When), after_comma(s, 3)),
        ),
{
    lemma_keywords_differ(found, Keyword::When);
    assert(clause_at(s, 0, Keyword::Given) == Ok::<Seq<Tok>, Failure>(given));
    lemma_scenario_goes_on_with_when(name, s);
}

/// The clauses of a scenario come as `given`, `when`, `then`: with `given`
/// and `when` exchanged the scenario is refused. The error names `given` as
/// the keyword that was due and points at `when`, which stands there.
pub proof fn lemma_scenario_when_before_given(
    name: Seq<char>,
    given: Seq<Tok>,
    when: Seq<Tok>,
    then_part: Seq<Tok>,
    comma_1: bool,
    comma_2: bool,
)
    ensures
        ({
            let exchanged = in_order(
                braced_clause(Keyword::When, when),
                comma_1,
                braced_clause(Keyword::Given, given),
                comma_2,
                braced_clause(Keyword::Then, then_part),
            );
            &&& scenario_body(name, exchanged) == Err::<Scenario, Failure>(
                Failure::at(ErrorKind::ExpectedKeyword(Keyword::Given), 0),
            )
            &&& exchanged[0] == Tok::Ident(keyword_text(Keyword::When))
        }),
{
    let first = braced_clause(Keyword::When, when);
    let second = braced_clause(Keyword::Given, given);
    let third = braced_clause(Keyword::Then, then_part);
    lemma_in_order_places(first, comma_1, second, comma_2, third);
    lemma_scenario_refuses_another_opening(
        name,
        in_order(first, comma_1, second, comma_2, third),
        Keyword::When,
    );
}

/// The clauses of a scenario come as `given`, `when`, `then`: with `given`
/// and `then` exchanged the scenario is refused. The error names `given` as
/// the keyword that was due and points at `then`, which stands there.
pub proof fn lemma_scenario_then_before_given(
    name: Seq<char>,
    given: Seq<Tok>,
    when: Seq<Tok>,
    then_part: Seq<Tok>,
    comma_1: bool,
    comma_2: bool,
)
    ensures
        ({
            let exchanged = in_order(
                braced_clause(Keyword::Then, then_part),
                comma_1,
                braced_clause(Keyword::When, when),
                comma_2,
                braced_clause(Keyword::Given, given),
            );
            &&& scenario_body(name, exchanged) == Err::<Scenario, Failure>(
                Failure::at(ErrorKind::ExpectedKeyword(Keyword::Given), 0),
            )
            &&& exchanged[0] == Tok::Ident(keyword_text(Keyword::Then))
        }),
{
    let first = braced_clause(Keyword::Then, then_part);
    let second = braced_clause(Keyword::When, when);
    let third = braced_clause(Keyword::Given, given);
    lemma_in_order_places(first, comma_1, second, comma_2, third);
    lemma_scenario_refuses_another_opening(
        name,
        in_order(first, comma_1, second, comma_2, third),
        Keyword::Then,
    );
}

/// The clauses of a scenario come as `given`, `when`, `then`: with `when`
/// and `then` exchanged a scenario whose `given` clause is well-formed is
/// refused. The error names `when` as the keyword that was due and points at
/// `then`, which stands there.
pub proof fn lemma_scenario_then_before_when(
    name: Seq<char>,
    given: Seq<Tok>,
    when: Seq<Tok>,
    then_part: Seq<Tok>,
    comma_1: bool,
    comma_2: bool,
)
    requires
        given_clause(given) is Ok,
    ensures
        ({
            let exchanged = in_order(
                braced_clause(Keyword::Given, given),
                comma_1,
                braced_clause(Keyword::Then, then_part),
                comma_2,
                braced_clause(Keyword::When, when),
            );
            let place = if comma_1 {
                4int
            } else {
                3int
            };
            &&& scenario_body(name, exchanged) == Err::<Scenario, Failure>(
                Failure::at(ErrorKind::ExpectedKeyword(Keyword::When), place),
            )
            &&& exchanged[place] == Tok::Ident(keyword_text(Keyword::Then))
        }),
{
    let first = braced_clause(Keyword::Given, given);
    let second = braced_clause(Keyword::Then, then_part);
    let third = braced_clause(Keyword::When, when);
    lemma_in_order_places(first, comma_1, second, comma_2, third);
    lemma_scenario_refuses_another_second(
        name,
        in_order(first, comma_1, second, comma_2, third),
        given,
        Keyword::Then,
    );
}

/// A well-formed scenario, written as its three clauses in a row, has a
/// well-formed `given` clause: what the law on `when` and `then` asks for.
pub proof fn lemma_well_formed_scenario_has_given(
    name: Seq<char>,
    given: Seq<Tok>,
    when: Seq<Tok>,
    then_part: Seq<Tok>,
    comma_1: bool,
    comma_2: bool,
)
    requires
        scenario_body(
            name,
            in_order(
                braced_clause(Keyword::Given, given),
                comma_1,
                braced_clause(Keyword::When, when),
                comma_2,
                braced_clause(Keyword::Then, then_part),
            ),
        ) is Ok,
    ensures
        given_clause(given) is Ok,
{
    let first = braced_clause(Keyword::Given, given);
    let second = braced_clause(Keyword::When, when);
    let third = braced_clause(Keyword::Then, then_part);
    let good = in_order(first, comma_1, second, comma_2, third);
    lemma_in_order_places(first, comma_1, second, comma_2, third);
    lemma_scenario_has_given(name, good);
    assert(clause_at(good, 0, Keyword::Given) == Ok::<Seq<Tok>, Failure>(given));
}

/// A system test must open with its `setup` clause.
pub proof fn lemma_system_opens_with_setup(name: Seq<char>, s: Seq<Tok>)
    requires
        word_at(s, 0) != Some(keyword_text(Keyword::Setup)),
    ensures
        system_body(name, s) == Err::<SystemCase, Failure>(
            Failure::at(ErrorKind::ExpectedKeyword(Keyword::Setup), 0),
        ),
{
}

/// Behind the `setup` clause of a system test its `call` clause must follow.
pub proof fn lemma_system_goes_on_with_call(name: Seq<char>, s: Seq<Tok>)
    requires
        clause_at(s, 0, Keyword::Setup) is Ok,
        setup_clause(clause_at(s, 0, Keyword::Setup)->Ok_0) is Ok,
        word_at(s, after_comma(s, 3)) != Some(keyword_text(Keyword::Call)),
    ensures
        system_body(name, s) == Err::<SystemCase, Failure>(
            Failure::at(ErrorKind::ExpectedKeyword(Keyword::Call), after_comma(s, 3)),
        ),
{
}

/// A well-formed system test has a well-formed `setup` clause.
pub proof fn lemma_system_has_setup(name: Seq<char>, s: Seq<Tok>)
    requires
        system_body(name, s) is Ok,
    ensures
        clause_at(s, 0, Keyword::Setup) is Ok,
        setup_clause(clause_at(s, 0, Keyword::Setup)->Ok_0) is Ok,
{
}

/// A system test that opens with the keyword of another clause is refused:
/// the error names `setup` as the keyword that was due and points at the
/// keyword that stands there.
pub proof fn lemma_system_refuses_another_opening(name: Seq<char>, s: Seq<Tok>, found: Keyword)
    requires
        s.len() >= 1,
        s[0] == Tok::Ident(keyword_text(found)),
        found != Keyword::Setup,
    ensures
        system_body(name, s) == Err::<SystemCase, Failure>(
            Failure::at(ErrorKind::ExpectedKeyword(Keyword::Setup), 0),
        ),
{
    lemma_keywords_differ(found, Keyword::Setup);
    lemma_system_opens_with_setup(name, s);
}

/// A system test with its `setup` clause and then the keyword of a clause
/// that is not `call` is refused: the error names `call` as the keyword that
/// was due and points at the keyword that stands there.
pub proof fn lemma_system_refuses_another_second(
    name: Seq<char>,
    s: Seq<Tok>,
    setup: Seq<Tok>,
    found: Keyword,
)
    requires
        setup_clause(setup) is Ok,
        s.len() >= 3,
        s[0] == Tok::Ident(keyword_text(Keyword::Setup)),
        s[1] == Tok::Punct(':', false),
        s[2] == Tok::Group(Delimiter::Brace, setup),
        word_at(s, after_comma(s, 3)) == Some(keyword_text(found)),
        found != Keyword::Call,
    ensures
        system_body(name, s) == Err::<SystemCase, Failure>(
            Failure::at(ErrorKind::ExpectedKeyword(Keyword::Call), after_comma(s, 3)),
        ),
{
    lemma_keywords_differ(found, Keyword::Call);
    assert(clause_at(s, 0, Keyword::Setup) == Ok::<Seq<Tok>, Failure>(setup));
    lemma_system_goes_on_with_call(name, s);
}

/// The clauses of a system test come as `setup`, `call`, `expect`: with
/// `setup` and `call` exchanged the test is refused. The error names `setup`
/// as the keyword that was due and points at `call`, which stands there.
pub proof fn lemma_system_call_before_setup(
    name: Seq<char>,
    setup: Seq<Tok>,
    call: Seq<Tok>,
    expect: Seq<Tok>,
    comma_1: bool,
    comma_2: bool,
)
    ensures
        ({
            let exchanged = in_order(
                plain_clause(Keyword::Call, call),
                comma_1,
                braced_clause(Keyword::Setup, setup),
                comma_2,
                braced_clause(Keyword::Expect, expect),
            );
            &&& system_body(name, exchanged) == Err::<SystemCase, Failure>(
                Failure::at(ErrorKind::ExpectedKeyword(Keyword::Setup), 0),
            )
            &&& exchanged[0] == Tok::Ident(keyword_text(Keyword::Call))
        }),
{
    let first = plain_clause(Keyword::Call, call);
    let second = braced_clause(Keyword::Setup, setup);
    let third = braced_clause(Keyword::Expect, expect);
    lemma_in_order_places(first, comma_1, second, comma_2, third);
    lemma_system_refuses_another_opening(
        name,
        in_order(first, comma_1, second, comma_2, third),
        Keyword::Call,
    );
}

/// The clauses of a system test come as `setup`, `call`, `expect`: with
/// `setup` and `expect` exchanged the test is refused. The error names
/// `setup` as the keyword that was due and points at `expect`, which stands
/// there.
pub proof fn lemma_system_expect_before_setup(
    name: Seq<char>,
    setup: Seq<Tok>,
    call: Seq<Tok>,
    expect: Seq<Tok>,
    comma_1: bool,
    comma_2: bool,
)
    ensures
        ({
            let exchanged = in_order(
                braced_clause(Keyword::Expect, expect),
                comma_1,
                plain_clause(Keyword::Call, call),
                comma_2,
                braced_clause(Keyword::Setup, setup),
            );
            &&& system_body(name, exchanged) == Err::<SystemCase, Failure>(
                Failure::at(ErrorKind::ExpectedKeyword(Keyword::Setup), 0),
            )
            &&& exchanged[0] == Tok::Ident(keyword_text(Keyword::Expect))
        }),
{
    let first = braced_clause(Keyword::Expect, expect);
    let second = plain_clause(Keyword::Call, call);
    let third = braced_clause(Keyword::Setup, setup);
    lemma_in_order_places(first, comma_1, second, comma_2, third);
    lemma_system_refuses_another_opening(
        name,
        in_order(first, comma_1, second, comma_2, third),
        Keyword::Expect,
    );
}

/// The clauses of a system test come as `setup`, `call`, `expect`: with
/// `call` and `expect` exchanged a test whose `setup` clause is well-formed
/// is refused. The error names `call` as the keyword that was due and points
/// at `expect`, which stands there.
pub proof fn lemma_system_expect_before_call(
    name: Seq<char>,
    setup: Seq<Tok>,
    call: Seq<Tok>,
    expect: Seq<Tok>,
    comma_1: bool,
    comma_2: bool,
)
    requires
        setup_clause(setup) is Ok,
    ensures
        ({
            let exchanged = in_order(
                braced_clause(Keyword::Setup, setup),
                comma_1,
                braced_clause(Keyword::Expect, expect),
                comma_2,
                plain_clause(Keyword::Call, call),
            );
            let place = if comma_1 {
                4int
            } else {
                3int
            };
            &&& system_body(name, exchanged) == Err::<SystemCase, Failure>(
                Failure::at(ErrorKind::ExpectedKeyword(Keyword::Call), place),
            )
            &&& exchanged[place] == Tok::Ident(keyword_text(Keyword::Expect))
        }),
{
    let first = braced_clause(Keyword::Setup, setup);
    let second = braced_clause(Keyword::Expect, expect);
    let third = plain_clause(Keyword::Call, call);
    lemma_in_order_places(first, comma_1, second, comma_2, third);
    lemma_system_refuses_another_second(
        name,
        in_order(first, comma_1, second, comma_2, third),
        setup,
        Keyword::Expect,
    );
}

/// A well-formed system test, written as its three clauses in a row, has a
/// well-formed `setup` clause: what the law on `call` and `expect` asks for.
pub proof fn lemma_well_formed_system_has_setup(
    name: Seq<char>,
    setup: Seq<Tok>,
    call: Seq<Tok>,
    expect: Seq<Tok>,
    comma_1: bool,
    comma_2: bool,
)
    requires
        system_body(
            name,
            in_order(
                braced_clause(Keyword::Setup, setup),
                comma_1,
                plain_clause(Keyword::Call, call),
                comma_2,
                braced_clause(Keyword::Expect, expect),
            ),
        ) is Ok,
    ensures
        setup_clause(setup) is Ok,
{
    let first = braced_clause(Keyword::Setup, setup);
    let second = plain_clause(Keyword::Call, call);
    let third = braced_clause(Keyword::Expect, expect);
    let good = in_order(first, comma_1, second, comma_2, third);
    lemma_in_order_places(first, comma_1, second, comma_2, third);
    lemma_system_has_setup(name, good);
    assert(clause_at(good, 0, Keyword::Setup) == Ok::<Seq<Tok>, Failure>(setup));
}

/// A component test must open with its `given` clause.
pub proof fn lemma_component_opens_with_given(name: Seq<char>, s: Seq<Tok>)
    requires
        word_at(s, 0) != Some(keyword_text(Keyword::Given)),
    ensures
        component_body(name, s) == Err::<ComponentCase, Failure>(
            Failure::at(ErrorKind::ExpectedKeyword(Keyword::Given), 0),
        ),
{
}

/// The clauses of a component test come as `given`, `operations`. A
/// component test with the two exchanged is refused; the error names
/// `given` as the keyword that was due and points at `operations`.
pub proof fn lemma_component_clause_order(
    name: Seq<char>,
    given: Seq<Tok>,
    operations: Seq<Tok>,
    comma: bool,
)
    ensures
        component_body(
            name,
            plain_clause(Keyword::Operations, operations) + gap(comma) + plain_clause(
                Keyword::Given,
                given,
            ),
        ) == Err::<ComponentCase, Failure>(
            Failure::at(ErrorKind::ExpectedKeyword(Keyword::Given), 0),
        ),
        (plain_clause(Keyword::Operations, operations) + gap(comma) + plain_clause(
            Keyword::Given,
            given,
        ))[0] == Tok::Ident(keyword_text(Keyword::Operations)),
{
    lemma_keywords_differ(Keyword::Operations, Keyword::Given);
    let swapped = plain_clause(Keyword::Operations, operations) + gap(comma) + plain_clause(
        Keyword::Given,
        given,
    );
    assert(swapped[0] == Tok::Ident(keyword_text(Keyword::Operations)));
    lemma_component_opens_with_given(name, swapped);
}

/// The tokens of a whole specification: the name of the test and its body
/// in braces.
pub open spec fn named(name: Seq<char>, body: Seq<Tok>) -> Seq<Tok> {
    seq![Tok::Ident(name), Tok::Group(Delimiter::Brace, body)]
}

/// A name and a body in braces are read as the name and the body.
pub proof fn lemma_named_body(name: Seq<char>, body: Seq<Tok>)
    requires
        !is_reserved(name),
    ensures
        named_body(named(name, body)) == Ok::<(Seq<char>, Seq<Tok>), Failure>((name, body)),
        named(name, body).len() == 2,
{
    let s = named(name, body);
    assert(s[0] == Tok::Ident(name));
    assert(s[1] == Tok::Group(Delimiter::Brace, body));
}

/// An error in the body of a scenario is the error of the whole scenario;
/// its place is found through the body, which is the second token.
pub proof fn lemma_scenario_keeps_body_errors(name: Seq<char>, body: Seq<Tok>)
    requires
        !is_reserved(name),
        scenario_body(name, body) is Err,
    ensures
        scenario(named(name, body)) == Err::<Scenario, Failure>(
            scenario_body(name, body)->Err_0.inside(1),
        ),
{
    lemma_named_body(name, body);
}

/// An error in the body of a system test is the error of the whole test;
/// its place is found through the body, which is the second token.
pub proof fn lemma_system_keeps_body_errors(name: Seq<char>, body: Seq<Tok>)
    requires
        !is_reserved(name),
        system_body(name, body) is Err,
    ensures
        system_case(named(name, body)) == Err::<SystemCase, Failure>(
            system_body(name, body)->Err_0.inside(1),
        ),
{
    lemma_named_body(name, body);
}

/// An error in the body of a component test is the error of the whole test;
/// its place is found through the body, which is the second token.
pub proof fn lemma_component_keeps_body_errors(name: Seq<char>, body: Seq<Tok>)
    requires
        !is_reserved(name),
        component_body(name, body) is Err,
    ensures
        component_case(named(name, body)) == Err::<ComponentCase, Failure>(
            component_body(name, body)->Err_0.inside(1),
        ),
{
    lemma_named_body(name, body);
}

/// The description of an error at a place of a token sequence names the
/// token that stands there.
pub proof fn lemma_description_names_the_token(s: Seq<Tok>, i: int, kind: ErrorKind)
    requires
        0 <= i < s.len(),
        i <= usize::MAX,
    ensures
        description(Failure::at(kind, i), s) == message_of(kind) + ", found `"@ + token_text(s[i])
            + "`"@,
{
}

/// A time expression whose receiver is no number literal is one frame, and
/// so one tick, whatever its method is called.
pub proof fn lemma_no_literal_is_one_frame(call: Call)
    requires
        call.receiver == Receiver::Other,
    ensures
        time_advance(Some(call)) == TimeAdvance::Frames(1),
        time_advance(Some(call)).ticks() == 1,
        time_advance(None) == TimeAdvance::Frames(1),
{
}

/// Items of a list are separated by commas: where an expression of a list
/// is followed by a token that is no comma, the list is refused at that
/// token.
pub proof fn lemma_items_need_commas(s: Seq<Tok>, i: int, acc: Seq<Seq<char>>)
    requires
        0 <= i < s.len(),
        expression_at(s, i) is Some,
        expression_at(s, i)->Some_0.1 < s.len(),
        !punct_at(s, expression_at(s, i)->Some_0.1, ','),
    ensures
        expressions_from(s, i, acc) == Err::<Seq<Seq<char>>, Failure>(
            Failure::at(ErrorKind::ExpectedComma, expression_at(s, i)->Some_0.1),
        ),
{
}

/// The fields of an entity are a mapping: read into fields of distinct
/// names, they have distinct names.
pub proof fn lemma_fields_are_a_mapping(s: Seq<Tok>, i: int, acc: Seq<Field>)
    requires
        distinct_names(acc),
    ensures
        fields_from(s, i, acc) is Ok ==> distinct_names(fields_from(s, i, acc)->Ok_0),
    decreases s.len() - i,
{
    if i < s.len() {
        if let Some(name) = identifier_at(s, i) {
            if punct_at(s, i + 1, ':') {
                if let Some((value, next)) = expression_at(s, i + 2) {
                    if let Ok(after) = separator_at(s, next) {
                        let field = Field { name, value };
                        lemma_with_field_keeps_names_distinct(acc, field);
                        lemma_fields_are_a_mapping(s, after, with_field(acc, field));
                    }
                }
            }
        }
    }
}

/// What checks the outcomes of a scenario does not depend on what was done
/// before: two scenarios with the same `then` clause end in the same
/// statements, whatever their `given` and `when` clauses are. So an event
/// that was sent once and one that was sent twice pass the same check.
pub proof fn lemma_checks_depend_on_outcomes_alone(a: Scenario, b: Scenario)
    requires
        a.outcome == b.outcome,
    ensures
        assertion_statements(a.outcome) == assertion_statements(b.outcome),
        scenario_statements(a).skip(
            scenario_statements(a).len() - assertion_statements(a.outcome).len(),
        ) == assertion_statements(a.outcome),
        scenario_statements(b).skip(
            scenario_statements(b).len() - assertion_statements(b.outcome).len(),
        ) == assertion_statements(a.outcome),
{
    lemma_scenario_ends_in_checks(a);
    lemma_scenario_ends_in_checks(b);
}

/// The statements of a scenario end in the statements that check its
/// assertions.
pub proof fn lemma_scenario_ends_in_checks(a: Scenario)
    ensures
        scenario_statements(a).skip(
            scenario_statements(a).len() - assertion_statements(a.outcome).len(),
        ) == assertion_statements(a.outcome),
{
    let all = scenario_statements(a);
    let checks = assertion_statements(a.outcome);
    assert(all.skip(all.len() - checks.len()) =~= checks);
}

} // verus!
