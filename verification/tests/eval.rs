use asa_eval::{AsaErrorKind, Interpreter, Node, Value};

fn num(n: i32) -> Node {
    Node::Number { value: n }
}

fn boolean(b: bool) -> Node {
    Node::Bool { value: b }
}

fn text(s: &str) -> Node {
    Node::String { value: s.to_string() }
}

fn ident(name: &str) -> Node {
    Node::Identifier { value: name.as_bytes().to_vec() }
}

fn expr(child: Node) -> Node {
    Node::Expression { children: vec![child] }
}

fn math(op: &str, l: Node, r: Node) -> Node {
    Node::MathExpression { name: op.as_bytes().to_vec(), children: vec![l, r] }
}

fn cond(op: &str, l: Node, r: Node) -> Node {
    Node::ConditionalExpression { operator: op.as_bytes().to_vec(), children: vec![l, r] }
}

fn define(name: &str, value: Node) -> Node {
    Node::VariableDefine { children: vec![ident(name), value] }
}

fn program(children: Vec<Node>) -> Node {
    Node::Program { children }
}

fn run(node: &Node) -> Result<Value, AsaErrorKind> {
    let mut interp = Interpreter::new();
    interp.exec(node)
}

#[test]
fn literal_number() {
    assert_eq!(run(&num(42)), Ok(Value::Number(42)));
    assert_eq!(run(&num(-7)), Ok(Value::Number(-7)));
    assert_eq!(run(&program(vec![num(4)])), Ok(Value::Number(4)));
}

#[test]
fn literal_string() {
    assert_eq!(run(&text("hi")), Ok(Value::String("hi".to_string())));
    assert_eq!(run(&program(vec![text("hi")])), Ok(Value::String("hi".to_string())));
}

#[test]
fn literal_bool() {
    assert_eq!(run(&boolean(true)), Ok(Value::Bool(true)));
    assert_eq!(run(&program(vec![boolean(false)])), Ok(Value::Bool(false)));
}

#[test]
fn addition() {
    assert_eq!(run(&program(vec![expr(math("+", num(1), num(1)))])), Ok(Value::Number(2)));
    assert_eq!(run(&program(vec![expr(math("+", num(2), num(4)))])), Ok(Value::Number(6)));
}

#[test]
fn subtraction() {
    assert_eq!(run(&program(vec![expr(math("-", num(5), num(3)))])), Ok(Value::Number(2)));
    assert_eq!(run(&program(vec![expr(math("-", num(1), num(1)))])), Ok(Value::Number(0)));
}

#[test]
fn multiplication() {
    assert_eq!(run(&program(vec![expr(math("*", num(6), num(7)))])), Ok(Value::Number(42)));
}

#[test]
fn division() {
    assert_eq!(run(&program(vec![expr(math("/", num(6), num(3)))])), Ok(Value::Number(2)));
    assert_eq!(run(&program(vec![expr(math("/", num(7), num(2)))])), Ok(Value::Number(3)));
}

#[test]
fn division_truncates_toward_zero() {
    assert_eq!(run(&expr(math("/", num(-7), num(2)))), Ok(Value::Number(-3)));
    assert_eq!(run(&expr(math("/", num(7), num(-2)))), Ok(Value::Number(-3)));
    assert_eq!(run(&expr(math("/", num(-7), num(-2)))), Ok(Value::Number(3)));
}

#[test]
fn division_by_zero() {
    assert_eq!(
        run(&program(vec![expr(math("/", num(6), num(0)))])),
        Err(AsaErrorKind::DivisionByZero)
    );
    assert_eq!(run(&math("/", num(0), num(0))), Err(AsaErrorKind::DivisionByZero));
    assert_eq!(run(&math("/", num(-3), num(0))), Err(AsaErrorKind::DivisionByZero));
}

#[test]
fn arithmetic_overflow() {
    assert_eq!(run(&math("+", num(i32::MAX), num(1))), Err(AsaErrorKind::NumberOverflow));
    assert_eq!(run(&math("-", num(i32::MIN), num(1))), Err(AsaErrorKind::NumberUnderflow));
    assert_eq!(run(&math("*", num(i32::MAX), num(2))), Err(AsaErrorKind::NumberOverflow));
    assert_eq!(run(&math("*", num(i32::MAX), num(-2))), Err(AsaErrorKind::NumberUnderflow));
    assert_eq!(run(&math("/", num(i32::MIN), num(-1))), Err(AsaErrorKind::NumberOverflow));
    assert_eq!(run(&math("+", num(i32::MAX), num(-1))), Ok(Value::Number(i32::MAX - 1)));
}

#[test]
fn let_binding_returns_value() {
    let mut interp = Interpreter::new();
    let r = interp.exec(&program(vec![define("x", num(123))]));
    assert_eq!(r, Ok(Value::Number(123)));
    assert_eq!(interp.lookup(&"x".to_string()), Ok(Value::Number(123)));
}

#[test]
fn sequential_bindings_accumulate() {
    let mut interp = Interpreter::new();
    let r = interp.exec(&program(vec![
        define("x", math("+", num(1), num(1))),
        define("y", math("-", num(5), num(2))),
        define("z", math("+", ident("x"), ident("y"))),
    ]));
    assert_eq!(r, Ok(Value::Number(5)));
    assert_eq!(interp.lookup(&"x".to_string()), Ok(Value::Number(2)));
    assert_eq!(interp.lookup(&"y".to_string()), Ok(Value::Number(3)));
    assert_eq!(interp.lookup(&"z".to_string()), Ok(Value::Number(5)));
}

#[test]
fn redefinition_overwrites() {
    let mut interp = Interpreter::new();
    let r = interp.exec(&program(vec![define("x", num(1)), define("x", num(2))]));
    assert_eq!(r, Ok(Value::Number(2)));
    assert_eq!(interp.lookup(&"x".to_string()), Ok(Value::Number(2)));
}

#[test]
fn undefined_variable() {
    assert_eq!(
        run(&program(vec![expr(ident("x"))])),
        Err(AsaErrorKind::UndefinedVariable("x".to_string()))
    );
}

#[test]
fn define_without_frame() {
    assert_eq!(run(&define("x", num(1))), Err(AsaErrorKind::NoStackFrame));
}

#[test]
fn lookup_without_frame() {
    assert_eq!(run(&ident("x")), Err(AsaErrorKind::UndefinedVariable("x".to_string())));
}

#[test]
fn equality_within_variant() {
    assert_eq!(run(&expr(cond("==", num(5), num(5)))), Ok(Value::Bool(true)));
    assert_eq!(run(&expr(cond("==", num(5), num(6)))), Ok(Value::Bool(false)));
    assert_eq!(run(&expr(cond("==", text("hello"), text("hello")))), Ok(Value::Bool(true)));
    assert_eq!(run(&expr(cond("==", text("hello"), text("world")))), Ok(Value::Bool(false)));
    assert_eq!(run(&expr(cond("==", boolean(true), boolean(true)))), Ok(Value::Bool(true)));
    assert_eq!(run(&expr(cond("!=", num(5), num(3)))), Ok(Value::Bool(true)));
    assert_eq!(run(&expr(cond("!=", boolean(true), boolean(false)))), Ok(Value::Bool(true)));
    assert_eq!(run(&expr(cond("!=", text("a"), text("a")))), Ok(Value::Bool(false)));
}

#[test]
fn equality_across_variants_is_type_error() {
    assert_eq!(run(&expr(cond("==", num(5), text("5")))), Err(AsaErrorKind::TypeError));
    assert_eq!(run(&expr(cond("!=", boolean(true), num(1)))), Err(AsaErrorKind::TypeError));
    assert_eq!(run(&expr(cond("==", text("true"), boolean(true)))), Err(AsaErrorKind::TypeError));
}

#[test]
fn ordering_on_numbers() {
    assert_eq!(run(&expr(cond(">", num(10), num(5)))), Ok(Value::Bool(true)));
    assert_eq!(run(&expr(cond("<", num(2), num(3)))), Ok(Value::Bool(true)));
    assert_eq!(run(&expr(cond(">=", num(5), num(5)))), Ok(Value::Bool(true)));
    assert_eq!(run(&expr(cond("<=", num(3), num(5)))), Ok(Value::Bool(true)));
    assert_eq!(run(&expr(cond("<", num(5), num(2)))), Ok(Value::Bool(false)));
    assert_eq!(run(&expr(cond(">", num(5), num(5)))), Ok(Value::Bool(false)));
}

#[test]
fn ordering_outside_numbers_is_type_error() {
    assert_eq!(run(&expr(cond(">", num(5), text("five")))), Err(AsaErrorKind::TypeError));
    assert_eq!(run(&expr(cond("<", text("a"), text("b")))), Err(AsaErrorKind::TypeError));
    assert_eq!(run(&expr(cond(">=", boolean(true), boolean(false)))), Err(AsaErrorKind::TypeError));
}

#[test]
fn arithmetic_outside_numbers_is_invalid_expression() {
    assert_eq!(run(&expr(math("+", text("hello"), num(5)))), Err(AsaErrorKind::InvalidExpression));
    assert_eq!(run(&expr(math("*", boolean(true), num(2)))), Err(AsaErrorKind::InvalidExpression));
}

#[test]
fn unknown_operators_are_invalid_expressions() {
    assert_eq!(run(&expr(math("%", num(5), num(2)))), Err(AsaErrorKind::InvalidExpression));
    assert_eq!(run(&expr(cond("=", num(5), num(5)))), Err(AsaErrorKind::InvalidExpression));
    assert_eq!(run(&expr(cond("<>", num(5), num(5)))), Err(AsaErrorKind::InvalidExpression));
}

#[test]
fn empty_program_is_true() {
    assert_eq!(run(&program(vec![])), Ok(Value::Bool(true)));
}

#[test]
fn program_result_is_last_value() {
    assert_eq!(run(&program(vec![num(1), num(2), num(3)])), Ok(Value::Number(3)));
}

#[test]
fn program_fails_fast_and_keeps_earlier_bindings() {
    let mut interp = Interpreter::new();
    let r = interp.exec(&program(vec![
        define("x", num(1)),
        expr(ident("y")),
        define("z", num(3)),
    ]));
    assert_eq!(r, Err(AsaErrorKind::UndefinedVariable("y".to_string())));
    assert_eq!(interp.lookup(&"x".to_string()), Ok(Value::Number(1)));
    assert_eq!(
        interp.lookup(&"z".to_string()),
        Err(AsaErrorKind::UndefinedVariable("z".to_string()))
    );
}

#[test]
fn statement_forwards_child() {
    assert_eq!(run(&Node::Statement { children: vec![num(7)] }), Ok(Value::Number(7)));
}

#[test]
fn empty_statement() {
    assert_eq!(run(&Node::Statement { children: vec![] }), Err(AsaErrorKind::EmptyStatement));
}

#[test]
fn statement_under_program_is_unimplemented() {
    assert_eq!(
        run(&program(vec![Node::Statement { children: vec![num(7)] }])),
        Err(AsaErrorKind::UnimplementedNode("Statement".to_string()))
    );
}

#[test]
fn function_call_is_unimplemented() {
    let call = Node::FunctionCall { name: b"f".to_vec(), children: vec![] };
    assert_eq!(run(&call), Err(AsaErrorKind::UnimplementedNode("FunctionCall".to_string())));
}

#[test]
fn wrong_child_counts() {
    let one = Node::MathExpression { name: b"+".to_vec(), children: vec![num(1)] };
    assert_eq!(run(&one), Err(AsaErrorKind::InvalidExpression));
    let three = Node::ConditionalExpression {
        operator: b"<".to_vec(),
        children: vec![num(1), num(2), num(3)],
    };
    assert_eq!(run(&three), Err(AsaErrorKind::InvalidExpression));
    let short_define = Node::VariableDefine { children: vec![ident("x")] };
    assert_eq!(run(&short_define), Err(AsaErrorKind::InvalidVariable));
    assert_eq!(
        run(&Node::Expression { children: vec![] }),
        Err(AsaErrorKind::InvalidExpression)
    );
}

#[test]
fn define_needs_identifier_child() {
    let bad = Node::VariableDefine { children: vec![num(1), num(2)] };
    assert_eq!(run(&bad), Err(AsaErrorKind::InvalidVariable));
}

#[test]
fn invalid_identifier_bytes() {
    let bad = Node::Identifier { value: vec![0xff, 0xfe] };
    assert_eq!(run(&bad), Err(AsaErrorKind::InvalidIdentifier(vec![0xff, 0xfe])));
    let bad_define = Node::VariableDefine {
        children: vec![Node::Identifier { value: vec![0x80] }, num(1)],
    };
    assert_eq!(run(&bad_define), Err(AsaErrorKind::InvalidIdentifier(vec![0x80])));
}

#[test]
fn non_ascii_identifier_round_trip() {
    let mut interp = Interpreter::new();
    let r = interp.exec(&program(vec![define("h\u{e9}llo", num(9))]));
    assert_eq!(r, Ok(Value::Number(9)));
    assert_eq!(interp.lookup(&"h\u{e9}llo".to_string()), Ok(Value::Number(9)));
}

#[test]
fn define_as_operand_threads_scope() {
    assert_eq!(
        run(&program(vec![expr(math("+", define("x", num(2)), ident("x")))])),
        Ok(Value::Number(4))
    );
}
