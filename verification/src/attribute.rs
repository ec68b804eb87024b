//! The test wrapper for a single function: the function's body runs inside
//! a test procedure that first makes the harness.

use crate::emit::{procedure, push_wrapped_each, wrap, wrapped, wrapped_each, write_procedure};
use crate::error::{ErrorKind, Failure, ParseError};
use crate::syntax::{
    agrees, expression_list_at, extend_expressions, identifier, identifier_at, is_punct,
    parse_expression_list, parse_separator, punct_at, separator_at, Expr,
};
use crate::text::{decimal_number, digits_of, parse_decimal, push_decimal, same_text};
use crate::token::{Tok, Token};
use vstd::prelude::*;
use vstd::string::*;

verus! {

/// The configuration of a wrapped test.
#[derive(Clone, PartialEq, Eq, Debug)]
pub struct TestConfig {
    /// Whether the test asks for a harness without a window. It is read and
    /// kept, and has no effect on the procedure.
    pub headless: bool,
    /// Plugins to add to the harness, after the minimal ones.
    pub plugins: Vec<Expr>,
    /// A timeout in milliseconds. The procedure names it and does not
    /// enforce it.
    pub timeout_ms: Option<u64>,
}

/// The mathematical model of a [`TestConfig`].
pub struct Config {
    pub headless: bool,
    pub plugins: Seq<Seq<char>>,
    pub timeout_ms: Option<u64>,
}

impl DeepView for TestConfig {
    type V = Config;

    open spec fn deep_view(&self) -> Config {
        Config {
            headless: self.headless,
            plugins: self.plugins.deep_view(),
            timeout_ms: self.timeout_ms,
        }
    }
}

/// The configuration that sets nothing.
pub open spec fn default_config() -> Config {
    Config { headless: false, plugins: Seq::empty(), timeout_ms: None }
}

impl Default for TestConfig {
    fn default() -> (r: TestConfig)
        ensures
            r.deep_view() == default_config(),
    {
        let r = TestConfig { headless: false, plugins: Vec::new(), timeout_ms: None };
        assert(r.plugins.deep_view() =~= Seq::<Seq<char>>::empty());
        r
    }
}

/// The digits in base ten of the integer literal that a text is, or `None`
/// where the text is no integer literal. The tokens of the text are those
/// that the lexer of `proc_macro2` itself reads.
pub uninterp spec fn integer_digits_of(text: Seq<char>) -> Option<Seq<char>>;

/// Reads a text as an integer literal with `syn::parse_str`.
///
/// For a `syn::LitInt` the result is the literal's `base10_digits`: its value
/// in decimal notation, whatever its base, separators and suffix. The
/// contract names the outcome; it is `None` where `syn` reports an error.
/// The whole of the work stands between `proc_macro2::fallback::force` and
/// `unforce`, so that the lexer of `proc_macro2` itself reads the text
/// whatever the process is.
#[verifier::external_body]
fn integer_digits(text: &str) -> (r: Option<String>)
    ensures
        match r {
            Some(digits) => integer_digits_of(text@) == Some(digits@),
            None => integer_digits_of(text@) is None,
        },
{
    proc_macro2::fallback::force();
    let digits = match syn::parse_str::<syn::LitInt>(text) {
        Ok(literal) => Some(literal.base10_digits().to_string()),
        Err(_) => None,
    };
    proc_macro2::fallback::unforce();
    digits
}

/// The number of milliseconds that stands at place `i`: an integer literal
/// whose value fits 64 bits.
pub open spec fn milliseconds_at(s: Seq<Tok>, i: int) -> Option<u64> {
    if 0 <= i < s.len() && s[i] is Literal {
        match integer_digits_of(s[i]->Literal_0) {
            Some(digits) => match decimal_number(digits, u64::MAX as nat) {
                Some(n) => Some(n as u64),
                None => None,
            },
            None => None,
        }
    } else {
        None
    }
}

fn parse_milliseconds(tokens: &Vec<Token>, i: usize) -> (r: Option<u64>)
    ensures
        r == milliseconds_at(tokens.deep_view(), i as int),
        r is Some ==> i < tokens.len(),
{
    if i < tokens.len() {
        match &tokens[i] {
            Token::Literal(text) => match integer_digits(text.as_str()) {
                Some(digits) => parse_decimal(digits.as_str(), u64::MAX),
                None => None,
            },
            _ => None,
        }
    } else {
        None
    }
}

/// What the arguments of the attribute mean, read from place `i` on with
/// `acc` already read. The options are `headless`, `plugins = [..]` with a
/// list of expressions, and `timeout = N` with a number of milliseconds. An
/// option that comes again adds to the plugins or replaces the timeout. A
/// comma stands between each two options and, optionally, behind the last.
pub open spec fn config_from(s: Seq<Tok>, i: int, acc: Config) -> Result<Config, Failure>
    decreases s.len() - i,
{
    if i >= s.len() {
        Ok(acc)
    } else {
        match identifier_at(s, i) {
            None => Err(Failure::at(ErrorKind::ExpectedIdentifier, i)),
            Some(name) => if name == "headless"@ {
                match separator_at(s, i + 1) {
                    Err(e) => Err(e),
                    Ok(after) => config_from(
                        s,
                        after,
                        Config { headless: true, plugins: acc.plugins, timeout_ms: acc.timeout_ms },
                    ),
                }
            } else if name == "plugins"@ {
                if !punct_at(s, i + 1, '=') {
                    Err(Failure::at(ErrorKind::ExpectedEquals, i + 1))
                } else {
                    match expression_list_at(s, i + 2) {
                        Err(e) => Err(e),
                        Ok(list) => match separator_at(s, i + 3) {
                            Err(e) => Err(e),
                            Ok(after) => config_from(
                                s,
                                after,
                                Config {
                                    headless: acc.headless,
                                    plugins: acc.plugins + list,
                                    timeout_ms: acc.timeout_ms,
                                },
                            ),
                        },
                    }
                }
            } else if name == "timeout"@ {
                if !punct_at(s, i + 1, '=') {
                    Err(Failure::at(ErrorKind::ExpectedEquals, i + 1))
                } else {
                    match milliseconds_at(s, i + 2) {
                        None => Err(Failure::at(ErrorKind::ExpectedInteger, i + 2)),
                        Some(n) => match separator_at(s, i + 3) {
                            Err(e) => Err(e),
                            Ok(after) => config_from(
                                s,
                                after,
                                Config {
                                    headless: acc.headless,
                                    plugins: acc.plugins,
                                    timeout_ms: Some(n),
                                },
                            ),
                        },
                    }
                }
            } else {
                Err(Failure::at(ErrorKind::UnknownOption, i))
            },
        }
    }
}

/// What the arguments of the attribute mean.
pub open spec fn config(s: Seq<Tok>) -> Result<Config, Failure> {
    config_from(s, 0, default_config())
}

/// Reads the arguments of the attribute.
pub fn parse_config(tokens: &Vec<Token>) -> (r: Result<TestConfig, ParseError>)
    ensures
        agrees(r, config(tokens.deep_view())),
{
    let mut parsed = TestConfig::default();
    let mut i: usize = 0;
    while i < tokens.len()
        invariant
            i <= tokens.len(),
            config(tokens.deep_view()) == config_from(
                tokens.deep_view(),
                i as int,
                parsed.deep_view(),
            ),
        decreases tokens.len() - i,
    {
        let name = match identifier(tokens, i) {
            None => {
                return Err(ParseError::at(ErrorKind::ExpectedIdentifier, i));
            },
            Some(name) => name.as_str(),
        };
        if same_text(name, "headless") {
            parsed.headless = true;
            i = match parse_separator(tokens, i + 1) {
                Err(e) => {
                    return Err(e);
                },
                Ok(after) => after,
            };
        } else if same_text(name, "plugins") {
            if !is_punct(tokens, i + 1, '=') {
                return Err(ParseError::at(ErrorKind::ExpectedEquals, i + 1));
            }
            match parse_expression_list(tokens, i + 2) {
                Err(e) => {
                    return Err(e);
                },
                Ok(list) => extend_expressions(&mut parsed.plugins, list),
            }
            i = match parse_separator(tokens, i + 3) {
                Err(e) => {
                    return Err(e);
                },
                Ok(after) => after,
            };
        } else if same_text(name, "timeout") {
            if !is_punct(tokens, i + 1, '=') {
                return Err(ParseError::at(ErrorKind::ExpectedEquals, i + 1));
            }
            match parse_milliseconds(tokens, i + 2) {
                None => {
                    return Err(ParseError::at(ErrorKind::ExpectedInteger, i + 2));
                },
                Some(n) => {
                    parsed.timeout_ms = Some(n);
                },
            }
            i = match parse_separator(tokens, i + 3) {
                Err(e) => {
                    return Err(e);
                },
                Ok(after) => after,
            };
        } else {
            return Err(ParseError::at(ErrorKind::UnknownOption, i));
        }
    }
    Ok(parsed)
}

/// One parameter of a function.
#[derive(Clone, PartialEq, Eq, Debug)]
pub enum Parameter {
    /// The `self` of a method.
    Receiver,
    /// A pattern with its type, as source text.
    Typed(String),
}

/// The mathematical model of a [`Parameter`].
pub enum Param {
    Receiver,
    Typed(Seq<char>),
}

impl DeepView for Parameter {
    type V = Param;

    open spec fn deep_view(&self) -> Param {
        match self {
            Parameter::Receiver => Param::Receiver,
            Parameter::Typed(text) => Param::Typed(text@),
        }
    }
}

/// A function as far as its wrapper is concerned: its name, its parameters
/// and its body, a block with its braces, as source text.
#[derive(Clone, PartialEq, Eq, Debug)]
pub struct TestFunction {
    pub name: String,
    pub params: Vec<Parameter>,
    pub body: String,
}

/// The mathematical model of a [`TestFunction`].
pub struct Function {
    pub name: Seq<char>,
    pub params: Seq<Param>,
    pub body: Seq<char>,
}

impl DeepView for TestFunction {
    type V = Function;

    open spec fn deep_view(&self) -> Function {
        Function { name: self.name@, params: self.params.deep_view(), body: self.body@ }
    }
}

/// The function that a text is, or `None` where the text is no function
/// item. The tokens of the text, and the texts of the function's parts, are
/// those that `proc_macro2` itself reads and writes.
pub uninterp spec fn function_of(text: Seq<char>) -> Option<Function>;

/// Reads a text as a function item with `syn::parse_str`.
///
/// For a `syn::ItemFn` the result holds the identifier of the signature, the
/// inputs of the signature in order, and the block. A typed input and the
/// block are given as the text of their tokens, made with `to_token_stream`
/// of `quote` and `to_string`. The contract names the outcome; it is `None`
/// where `syn` reports an error. The whole of the work stands between
/// `proc_macro2::fallback::force` and `unforce`, so that `proc_macro2`
/// itself reads the text and writes the parts whatever the process is.
#[verifier::external_body]
pub(crate) fn read_function(text: &str) -> (r: Option<TestFunction>)
    ensures
        match r {
            Some(function) => function_of(text@) == Some(function.deep_view()),
            None => function_of(text@) is None,
        },
{
    proc_macro2::fallback::force();
    let function = syn::parse_str::<syn::ItemFn>(text).ok().map(|item| TestFunction {
        name: item.sig.ident.to_string(),
        params: item.sig.inputs.iter().map(|input| match input {
            syn::FnArg::Receiver(_) => Parameter::Receiver,
            syn::FnArg::Typed(typed) => Parameter::Typed(quote::ToTokens::to_token_stream(typed).to_string()),
        }).collect(),
        body: quote::ToTokens::to_token_stream(&item.block).to_string(),
    });
    proc_macro2::fallback::unforce();
    function
}

/// Whether `word` stands in `s` at place `i`.
pub open spec fn stands_at(s: Seq<char>, word: Seq<char>, i: int) -> bool {
    0 <= i && i + word.len() <= s.len() && s.subrange(i, i + word.len()) == word
}

/// Whether `word` stands somewhere in `s`.
pub open spec fn contains_text(s: Seq<char>, word: Seq<char>) -> bool {
    exists|i: int| stands_at(s, word, i)
}

fn stands(s: &Vec<char>, word: &Vec<char>, i: usize) -> (r: bool)
    requires
        i + word.len() <= s.len(),
    ensures
        r == stands_at(s@, word@, i as int),
{
    let mut k: usize = 0;
    while k < word.len()
        invariant
            k <= word.len(),
            i + word.len() <= s.len(),
            forall|j: int| 0 <= j < k ==> s@[i + j] == word@[j],
        decreases word.len() - k,
    {
        if s[i + k] != word[k] {
            assert(s@.subrange(i as int, i + word.len())[k as int] != word@[k as int]);
            return false;
        }
        k += 1;
    }
    assert(s@.subrange(i as int, i + word.len()) =~= word@);
    true
}

fn characters(text: &str) -> (r: Vec<char>)
    ensures
        r@ == text@,
{
    let len = text.unicode_len();
    let mut out: Vec<char> = Vec::new();
    let mut i: usize = 0;
    while i < len
        invariant
            i <= len,
            len == text@.len(),
            out@ == text@.take(i as int),
        decreases len - i,
    {
        out.push(text.get_char(i));
        assert(out@ =~= text@.take(i + 1));
        i += 1;
    }
    assert(text@.take(len as int) =~= text@);
    out
}

/// Whether one text stands somewhere in another.
pub fn text_contains(text: &str, word: &str) -> (r: bool)
    ensures
        r == contains_text(text@, word@),
{
    let s = characters(text);
    let w = characters(word);
    if w.len() > s.len() {
        assert(forall|i: int| !stands_at(text@, word@, i));
        return false;
    }
    let last = s.len() - w.len();
    let mut i: usize = 0;
    while i < last
        invariant
            i <= last,
            last == s.len() - w.len(),
            s@ == text@,
            w@ == word@,
            forall|j: int| 0 <= j < i ==> !stands_at(text@, word@, j),
        decreases last - i,
    {
        if stands(&s, &w, i) {
            return true;
        }
        i += 1;
    }
    let found = stands(&s, &w, last);
    assert(!found ==> forall|j: int| !stands_at(text@, word@, j));
    found
}

/// Whether a parameter mentions the harness: it is typed, and `App` stands
/// somewhere in its text.
pub open spec fn mentions_app(param: Param) -> bool {
    match param {
        Param::Receiver => false,
        Param::Typed(text) => contains_text(text, "App"@),
    }
}

/// Whether a function takes the harness as a parameter.
pub open spec fn expects_app(function: Function) -> bool {
    exists|i: int| 0 <= i < function.params.len() && mentions_app(#[trigger] function.params[i])
}

fn takes_app(function: &TestFunction) -> (r: bool)
    ensures
        r == expects_app(function.deep_view()),
{
    let ghost params = function.params.deep_view();
    let mut i: usize = 0;
    while i < function.params.len()
        invariant
            i <= function.params.len(),
            params == function.params.deep_view(),
            forall|j: int| 0 <= j < i ==> !mentions_app(#[trigger] params[j]),
        decreases function.params.len() - i,
    {
        assert(params[i as int] == function.params@[i as int].deep_view());
        let found = match &function.params[i] {
            Parameter::Receiver => false,
            Parameter::Typed(text) => text_contains(text.as_str(), "App"),
        };
        assert(found == mentions_app(params[i as int]));
        if found {
            assert(function.deep_view().params[i as int] == params[i as int]);
            return true;
        }
        i += 1;
    }
    false
}

/// The statements in the block that makes the harness: a new harness, the
/// minimal plugins, each configured plugin in order, the time resource, and
/// the harness as the block's value.
pub open spec fn setup_statements(config: Config) -> Seq<Seq<char>> {
    seq!["let mut app = bevy::app::App::new();"@, "app.add_plugins(bevy::app::MinimalPlugins);"@]
        + wrapped_each("app.add_plugins("@, config.plugins, ");"@) + seq![
        "app.insert_resource(bevy::time::Time::default());"@,
        "app"@,
    ]
}

/// The first `n` statements of a block, each followed by a space.
pub open spec fn block_prefix(statements: Seq<Seq<char>>, n: nat) -> Seq<char>
    decreases n,
{
    if n == 0 || n > statements.len() {
        Seq::empty()
    } else {
        block_prefix(statements, (n - 1) as nat) + statements[n - 1] + " "@
    }
}

/// The statement that makes the harness: `app` is the value of a block that
/// holds the statements of [`setup_statements`].
pub open spec fn harness_statement(config: Config) -> Seq<char> {
    "let mut app = { "@ + block_prefix(
        setup_statements(config),
        setup_statements(config).len(),
    ) + "};"@
}

/// The statements that name the timeout: one where the configuration has a
/// timeout, none otherwise.
pub open spec fn timeout_statements(config: Config) -> Seq<Seq<char>> {
    match config.timeout_ms {
        Some(n) => seq![
            wrapped(
                "let _timeout = std::time::Duration::from_millis("@,
                digits_of(n as nat),
                ");"@,
            ),
        ],
        None => seq![],
    }
}

/// The statement that declares the slot of the thread in which the harness
/// is put aside while the body of a function runs that does not take it.
pub const SLOT_STATEMENT: &'static str =
    "thread_local! { static TEST_APP: std::cell::RefCell<Option<bevy::app::App>> = std::cell::RefCell::new(None); }";

/// The statements that run the body. Where the function takes the harness,
/// the body becomes a closure that is called with it; otherwise the harness
/// is put aside in a slot of the thread, the body runs as it stands, and the
/// slot is emptied.
pub open spec fn body_statements(function: Function) -> Seq<Seq<char>> {
    if expects_app(function) {
        seq![
            wrapped("let test_fn = |app: &mut bevy::app::App| { "@, function.body, " };"@),
            "test_fn(&mut app);"@,
        ]
    } else {
        seq![
            SLOT_STATEMENT@,
            "TEST_APP.with(|a| { *a.borrow_mut() = Some(app); });"@,
            function.body,
            "TEST_APP.with(|a| { *a.borrow_mut() = None; });"@,
        ]
    }
}

/// The statements of the procedure of a wrapped test: the timeout, the
/// harness, the body.
pub open spec fn wrapped_statements(config: Config, function: Function) -> Seq<Seq<char>> {
    timeout_statements(config) + seq![harness_statement(config)] + body_statements(function)
}

/// The statements in the block that makes the harness.
pub fn generate_setup(config: &TestConfig) -> (r: Vec<String>)
    ensures
        r.deep_view() == setup_statements(config.deep_view()),
{
    let mut out: Vec<String> = Vec::new();
    out.push(String::from_str("let mut app = bevy::app::App::new();"));
    out.push(String::from_str("app.add_plugins(bevy::app::MinimalPlugins);"));
    let ghost a = out.deep_view();
    push_wrapped_each(&mut out, "app.add_plugins(", &config.plugins, ");");
    let ghost b = out.deep_view();
    out.push(String::from_str("app.insert_resource(bevy::time::Time::default());"));
    out.push(String::from_str("app"));
    assert(a =~= seq![
        "let mut app = bevy::app::App::new();"@,
        "app.add_plugins(bevy::app::MinimalPlugins);"@,
    ]);
    assert(out.deep_view() =~= b + seq![
        "app.insert_resource(bevy::time::Time::default());"@,
        "app"@,
    ]);
    out
}

/// The statements that name the timeout.
pub fn generate_timeout(config: &TestConfig) -> (r: Vec<String>)
    ensures
        r.deep_view() == timeout_statements(config.deep_view()),
{
    let mut out: Vec<String> = Vec::new();
    match config.timeout_ms {
        Some(n) => {
            let mut number = String::new();
            push_decimal(&mut number, n as u128);
            assert(number@ =~= digits_of(n as nat));
            out.push(wrap("let _timeout = std::time::Duration::from_millis(", number.as_str(), ");"));
            assert(out.deep_view() =~= timeout_statements(config.deep_view()));
        },
        None => {
            assert(out.deep_view() =~= timeout_statements(config.deep_view()));
        },
    }
    out
}

fn harness_text(config: &TestConfig) -> (r: String)
    ensures
        r@ == harness_statement(config.deep_view()),
{
    let statements = generate_setup(config);
    let ghost all = statements.deep_view();
    let mut out = String::from_str("let mut app = { ");
    let ghost head = out@;
    let mut i: usize = 0;
    assert(out@ =~= head + block_prefix(all, 0));
    while i < statements.len()
        invariant
            i <= statements.len(),
            all == statements.deep_view(),
            out@ == head + block_prefix(all, i as nat),
        decreases statements.len() - i,
    {
        out.append(statements[i].as_str());
        out.append(" ");
        assert(all[i as int] == statements@[i as int]@);
        assert(out@ =~= head + (block_prefix(all, i as nat) + all[i as int] + " "@));
        i += 1;
    }
    out.append("};");
    out
}

/// Writes the test procedure of a wrapped function: a test function of the
/// same name, whose body is the statements of [`wrapped_statements`].
pub fn expand_bevy_test(config: &TestConfig, function: &TestFunction) -> (r: String)
    ensures
        r@ == procedure(function.name@, wrapped_statements(config.deep_view(), function.deep_view())),
{
    let mut out = generate_timeout(config);
    let ghost a = out.deep_view();
    let harness = harness_text(config);
    out.push(harness);
    assert(out.deep_view() =~= a + seq![harness@]);
    let ghost b = out.deep_view();
    if takes_app(function) {
        out.push(wrap("let test_fn = |app: &mut bevy::app::App| { ", function.body.as_str(), " };"));
        out.push(String::from_str("test_fn(&mut app);"));
        assert(out.deep_view() =~= b + body_statements(function.deep_view()));
    } else {
        out.push(String::from_str(SLOT_STATEMENT));
        out.push(String::from_str("TEST_APP.with(|a| { *a.borrow_mut() = Some(app); });"));
        out.push(function.body.clone());
        out.push(String::from_str("TEST_APP.with(|a| { *a.borrow_mut() = None; });"));
        assert(out.deep_view() =~= b + body_statements(function.deep_view()));
    }
    write_procedure(function.name.as_str(), &out)
}

/// The source of the helpers for wrapped tests: the `TestApp` trait, its
/// implementation for the harness, and the `TestQuery` wrapper.
pub const TEST_HELPERS: &'static str = r#"/// Extension trait for TestApp functionality
pub trait TestApp {
    fn spawn<B: bevy::ecs::bundle::Bundle>(&mut self, bundle: B) -> bevy::ecs::entity::Entity;
    fn advance_time(&mut self, seconds: f32);
    fn advance_frames(&mut self, frames: usize);
    fn send_event<E: bevy::ecs::event::Event>(&mut self, event: E);
    fn query<Q: bevy::ecs::query::QueryData>(&self) -> TestQuery<Q>;
    fn resource<R: bevy::ecs::system::Resource>(&self) -> &R;
    fn resource_mut<R: bevy::ecs::system::Resource>(&mut self) -> &mut R;
}

impl TestApp for bevy::app::App {
    fn spawn<B: bevy::ecs::bundle::Bundle>(&mut self, bundle: B) -> bevy::ecs::entity::Entity {
        self.world_mut().spawn(bundle).id()
    }

    fn advance_time(&mut self, seconds: f32) {
        let frames = (seconds * 60.0) as usize;
        for _ in 0..frames {
            self.update();
        }
    }

    fn advance_frames(&mut self, frames: usize) {
        for _ in 0..frames {
            self.update();
        }
    }

    fn send_event<E: bevy::ecs::event::Event>(&mut self, event: E) {
        self.world_mut().send_event(event);
    }

    fn query<Q: bevy::ecs::query::QueryData>(&self) -> TestQuery<Q> {
        TestQuery {
            world: self.world(),
            _phantom: std::marker::PhantomData,
        }
    }

    fn resource<R: bevy::ecs::system::Resource>(&self) -> &R {
        self.world().resource::<R>()
    }

    fn resource_mut<R: bevy::ecs::system::Resource>(&mut self) -> &mut R {
        self.world_mut().resource_mut::<R>()
    }
}

/// Query wrapper for testing
pub struct TestQuery<'w, Q: bevy::ecs::query::QueryData> {
    world: &'w bevy::ecs::world::World,
    _phantom: std::marker::PhantomData<Q>,
}

impl<'w, Q: bevy::ecs::query::QueryData> TestQuery<'w, Q> {
    pub fn single(&self) -> Q::Item<'w> {
        let mut query = self.world.query::<Q>();
        query.single(self.world)
    }

    pub fn is_empty(&self) -> bool {
        let mut query = self.world.query::<Q>();
        query.iter(self.world).count() == 0
    }

    pub fn count(&self) -> usize {
        let mut query = self.world.query::<Q>();
        query.iter(self.world).count()
    }

    pub fn iter(&self) -> impl Iterator<Item = Q::Item<'w>> {
        let mut query = self.world.query::<Q>();
        query.iter(self.world)
    }
}
"#;

/// The source of the helpers for wrapped tests.
pub fn generate_test_helpers() -> (r: String)
    ensures
        r@ == TEST_HELPERS@,
{
    String::from_str(TEST_HELPERS)
}

} // verus!
