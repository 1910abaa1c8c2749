use descent::choice::Alt;
use descent::commit::{Cut, Named, NamedCut};
use descent::cursor::Cursor;
use descent::guard::{Guard, GuardFatal};
use descent::outcome::ParseError;
use descent::parser::{Always, IsEqual, Parser};
use descent::primitive::{pmatch, AnyToken, End, EndFatal, Fail, Just, Pure};
use descent::repeat::{Maybe, Star};
use descent::sequence::{Pair, Terminated, Triple};

fn chars(s: &str) -> Cursor<char> {
    Cursor::new(s.chars().collect())
}

fn parse_yy() -> Pair<Named<Just<char>>, NamedCut<Just<char>>> {
    Pair(Named("one", Just('y')), NamedCut("two", Just('y')))
}

fn y_or_z() -> Alt<Just<char>, Just<char>> {
    Alt(Just('y'), Just('z'))
}

#[test]
fn pat_should_create_parser() {
    let mut input = Cursor::new(vec![Some(4)]);

    let p = |t: Option<u8>| match t {
        Some(x) => Some(x + 1),
        _ => None,
    };

    let output = pmatch(p, &mut input).expect("the parse should be successful");

    assert_eq!(output, 5);
}

#[test]
fn fatal_end_should_succeed_when_at_end_of_input() {
    let mut input = chars("y");

    let output = Terminated(Named("y", Just('y')), EndFatal)
        .parse(&mut input)
        .expect("the parse should be successful");

    assert_eq!(output, 'y')
}

#[test]
fn fatal_end_should_fail_when_not_at_end_of_input() {
    let mut input = chars("ye");

    let output = Terminated(Named("y", Just('y')), EndFatal).parse(&mut input);

    assert!(matches!(output, Err(ParseError::Fatal(_))));
    assert_eq!(input.next(), Some('e'));
}

#[test]
fn end_should_succeed_when_at_end_of_input() {
    let mut input = chars("y");

    let output = Terminated(Named("y", Just('y')), End)
        .parse(&mut input)
        .expect("the parse should be successful");

    assert_eq!(output, 'y')
}

#[test]
fn end_should_fail_when_not_at_end_of_input() {
    let mut input = chars("yy");

    let output = Terminated(Named("y", Just('y')), End).parse(&mut input);

    assert!(matches!(output, Err(ParseError::Error)));
    assert_eq!(input.next(), Some('y'));
    assert_eq!(input.next(), Some('y'));
}

#[test]
fn success_fatal_where_should_work() {
    let mut input = chars("y");

    let output = GuardFatal(Named("y", Just('y')), IsEqual('y'))
        .parse(&mut input)
        .expect("the parse should be successful");

    assert_eq!(output, 'y');
}

#[test]
fn success_where_should_work() {
    let mut input = chars("y");

    let output = Guard(Named("y", Just('y')), IsEqual('y'))
        .parse(&mut input)
        .expect("the parse should be successful");

    assert_eq!(output, 'y');
}

#[test]
fn fatal_where_should_work() {
    let mut input = chars("y");

    let output = GuardFatal(Named("y", Just('y')), IsEqual('x')).parse(&mut input);

    assert!(matches!(output, Err(ParseError::Fatal(_))));
    assert_eq!(input.next(), None);
}

#[test]
fn where_should_work() {
    let mut input = chars("y");

    let output = Guard(Named("y", Just('y')), IsEqual('x')).parse(&mut input);

    assert!(matches!(output, Err(ParseError::Error)));
    assert_eq!(input.next(), Some('y'));
}

#[test]
fn let_should_work() {
    let mut input = chars("yyyyyy");

    let x: u8 = 1;
    let output = Pair(Pure(x), Named("ys", Star(parse_yy())))
        .parse(&mut input)
        .expect("the parse should be successful");

    assert_eq!(output.0, 1);
    assert_eq!(output.1, [('y', 'y'), ('y', 'y'), ('y', 'y')]);
}

#[test]
fn zero_or_more_should_pass_through_fatal() {
    let mut input = chars("yyyyyz");

    let output = Named("ys", Star(parse_yy())).parse(&mut input);

    assert!(matches!(output, Err(ParseError::Fatal(_))));
}

#[test]
fn maybe_should_parse_present_item() {
    let mut input = chars("yz");

    let output = Pair(Named("one", Maybe(Just('y'))), Named("two", Just('z')))
        .parse(&mut input)
        .expect("the parse should be successful");

    assert_eq!(output, (Some('y'), 'z'));
}

#[test]
fn maybe_should_reset_input_to_immediately_before_it_on_failure() {
    let mut input = chars("wz");

    let output = Triple(
        Named("zero", AnyToken),
        Named("one", Maybe(Just('y'))),
        Named("two", Just('z')),
    )
    .parse(&mut input)
    .expect("the parse should be successful");

    assert_eq!(output, ('w', None, 'z'));
}

#[test]
fn maybe_should_pass_through_fatal() {
    let mut input = chars("wz");

    let output = Triple(
        Named("zero", AnyToken),
        Named("one", Maybe(Cut(Fail::<char>::new()))),
        Named("two", Just('z')),
    )
    .parse(&mut input);

    assert!(matches!(output, Err(ParseError::Fatal(_))));
}

#[test]
fn zero_or_more_should_parse() {
    let mut input = chars("yyz");

    let output = Terminated(Named("ys", Star(Just('y'))), Named("_z", Just('z')))
        .parse(&mut input)
        .expect("the parse should be successful");

    assert_eq!(output, ['y', 'y']);
}

#[test]
fn alt_should_be_usable_in_parse() {
    let mut input = chars("yzy");

    let output = Triple(
        Named("one", y_or_z()),
        Named("two", y_or_z()),
        Named("three", y_or_z()),
    )
    .parse(&mut input)
    .expect("the parse should be successful");

    assert_eq!(output, ('y', 'z', 'y'));
}

#[test]
fn alt_should_parse_successfully() {
    let mut input = chars("x");

    let output = Alt(Just('y'), Alt(Just('z'), AnyToken))
        .parse(&mut input)
        .expect("the parse should be successful");

    assert_eq!(output, 'x');
}

#[test]
fn simple_parser_should_parse() {
    let mut input = chars("yyy");

    let output = Triple(
        Named("one", Just('y')),
        Named("two", Just('y')),
        Named("three", Just('y')),
    )
    .parse(&mut input)
    .expect("the parse should be successful");

    assert_eq!(output, ('y', 'y', 'y'));
}

#[test]
fn failed_parse_should_return_input_to_original_state() {
    let mut input = chars("yyz");

    let output = Triple(
        Named("one", Just('y')),
        Named("two", Just('y')),
        Named("three", Just('y')),
    )
    .parse(&mut input);

    assert!(matches!(output, Err(ParseError::Error)));
    assert_eq!(input.next(), Some('y'));
    assert_eq!(input.next(), Some('y'));
}

#[test]
fn where_failure_should_reset_input() {
    let mut input = chars("yyz");

    let output = Guard(
        Pair(Named("one", Just('y')), Named("two", Just('y'))),
        Always(false),
    )
    .parse(&mut input);

    assert!(matches!(output, Err(ParseError::Error)));
    assert_eq!(input.next(), Some('y'));
    assert_eq!(input.next(), Some('y'));
    assert_eq!(input.next(), Some('z'));
}

#[test]
fn rule_failure_should_reset_input() {
    let mut input = chars("yyz");

    let output = Triple(
        Named("one", Just('y')),
        Named("two", Just('y')),
        Named("three", Just('y')),
    )
    .parse(&mut input);

    assert!(matches!(output, Err(ParseError::Error)));
    assert_eq!(input.next(), Some('y'));
    assert_eq!(input.next(), Some('y'));
    assert_eq!(input.next(), Some('z'));
}

#[test]
fn end_failure_should_reset_input() {
    let mut input = chars("yyz");

    let output = Terminated(Pair(Named("one", Just('y')), Named("two", Just('y'))), End)
        .parse(&mut input);

    assert!(matches!(output, Err(ParseError::Error)));
    assert_eq!(input.next(), Some('y'));
    assert_eq!(input.next(), Some('y'));
    assert_eq!(input.next(), Some('z'));
}

#[test]
fn alt_failure_should_reset_input() {
    let mut input = chars("x");

    let output = Alt(Just('y'), Just('z')).parse(&mut input);

    assert!(matches!(output, Err(ParseError::Error)));
    assert_eq!(input.next(), Some('x'));
}

#[test]
fn zero_or_more_failure_should_reset_input() {
    let mut input = chars("x");

    let output = Named("one", Star(Just('y'))).parse(&mut input);

    assert!(matches!(output, Ok(_)));
    assert_eq!(input.next(), Some('x'));
}

#[test]
fn maybe_failure_should_reset_input() {
    let mut input = chars("x");

    let output = Named("one", Maybe(Just('y'))).parse(&mut input);

    assert!(matches!(output, Ok(_)));
    assert_eq!(input.next(), Some('x'));
}

#[test]
fn fatal_where_failure_should_not_reset_input() {
    let mut input = chars("yyz");

    let output = GuardFatal(
        Pair(Named("one", Just('y')), Named("two", Just('y'))),
        Always(false),
    )
    .parse(&mut input);

    assert!(matches!(output, Err(ParseError::Fatal(_))));
    assert_eq!(input.next(), Some('z'));
}

#[test]
fn fatal_rule_failure_should_not_reset_input() {
    let mut input = chars("yyz");

    let output = Triple(
        Named("one", Just('y')),
        Named("two", Just('y')),
        NamedCut("three", Just('y')),
    )
    .parse(&mut input);

    assert!(matches!(output, Err(ParseError::Fatal(_))));
    assert_eq!(input.next(), Some('z'));
}

#[test]
fn fatal_end_failure_should_not_reset_input() {
    let mut input = chars("yyz");

    let output = Terminated(
        Pair(Named("one", Just('y')), Named("two", Just('y'))),
        EndFatal,
    )
    .parse(&mut input);

    assert!(matches!(output, Err(ParseError::Fatal(_))));
    assert_eq!(input.next(), Some('z'));
}
