use ast_visitor_etc::evaluator::eval_program;
use ast_visitor_etc::evaluator::EvalStep;
use ast_visitor_etc::expr_ast::Binary;
use ast_visitor_etc::expr_ast::BinaryOp;
use ast_visitor_etc::expr_ast::Expr;
use ast_visitor_etc::expr_ast::Group;
use ast_visitor_etc::expr_ast::Num;
use ast_visitor_etc::expr_ast::Unary;
use ast_visitor_etc::expr_ast::UnaryOp;
use ast_visitor_etc::printer::lispify_expr;

fn num(value: f64) -> Expr {
    Expr::Num(Num { bits: value.to_bits(), text: value.to_string() })
}

fn binary(op: BinaryOp, lhs: Expr, rhs: Expr) -> Expr {
    Expr::Binary(Binary { op, lhs: Box::new(lhs), rhs: Box::new(rhs) })
}

fn group(inner: Expr) -> Expr {
    Expr::Group(Group { expr: Box::new(inner) })
}

fn neg(operand: Expr) -> Expr {
    Expr::Unary(Unary { op: UnaryOp::Neg, expr: Box::new(operand) })
}

/// Folds the tree's verified evaluation program with the real IEEE-754
/// operations, as a driver of the library does.
fn eval_expr(expr: &Expr) -> f64 {
    let mut stack: Vec<f64> = Vec::new();
    for step in eval_program(expr) {
        match step {
            EvalStep::Push(bits) => stack.push(f64::from_bits(bits)),
            EvalStep::Apply(op) => {
                let b = stack.pop().expect("the program never lacks operands");
                let a = stack.pop().expect("the program never lacks operands");
                stack.push(match op {
                    BinaryOp::Add => a + b,
                    BinaryOp::Sub => a - b,
                    BinaryOp::Mul => a * b,
                    BinaryOp::Div => a / b,
                });
            }
            EvalStep::ApplyUnary(op) => {
                let a = stack.pop().expect("the program never lacks operands");
                stack.push(match op {
                    UnaryOp::Neg => -a,
                });
            }
        }
    }
    stack.pop().expect("the program leaves exactly one value")
}

fn mock_expr() -> Expr {
    // 4 + (1 + 2 * 3) * 2
    binary(
        BinaryOp::Add,
        num(4.),
        binary(
            BinaryOp::Mul,
            group(binary(
                BinaryOp::Add,
                num(1.),
                binary(BinaryOp::Mul, num(2.), num(3.)),
            )),
            num(2.),
        ),
    )
}

#[test]
fn test_eval_expr() {
    let expr = mock_expr();
    assert_eq!(eval_expr(&expr), 18.);
}

#[test]
fn test_lispify_expr() {
    let expr = mock_expr();
    assert_eq!(lispify_expr(&expr), "(+ 4 (* (group (+ 1 (* 2 3))) 2))");
}

#[test]
fn num_leaf_keeps_its_value_and_text() {
    assert_eq!(eval_expr(&num(4.)), 4.);
    assert_eq!(lispify_expr(&num(4.)), "4");
    assert_eq!(lispify_expr(&num(1.5)), "1.5");
    assert_eq!(lispify_expr(&num(-2.25)), "-2.25");
}

#[test]
fn group_is_value_transparent() {
    let plain = binary(BinaryOp::Add, num(1.), num(2.5));
    let grouped = group(binary(BinaryOp::Add, num(1.), num(2.5)));
    assert_eq!(eval_expr(&grouped), eval_expr(&plain));
    assert_eq!(eval_expr(&group(num(7.))), 7.);
}

#[test]
fn group_renders_with_keyword() {
    let inner = binary(BinaryOp::Add, num(1.), num(2.));
    let rendered_inner = lispify_expr(&inner);
    let rendered_group = lispify_expr(&group(binary(BinaryOp::Add, num(1.), num(2.))));
    assert_eq!(rendered_group, format!("(group {})", rendered_inner));
    assert_eq!(lispify_expr(&group(num(1.5))), "(group 1.5)");
}

#[test]
fn binary_nodes_combine_per_operator() {
    assert_eq!(eval_expr(&binary(BinaryOp::Add, num(7.), num(2.))), 7. + 2.);
    assert_eq!(eval_expr(&binary(BinaryOp::Sub, num(7.), num(2.))), 7. - 2.);
    assert_eq!(eval_expr(&binary(BinaryOp::Mul, num(7.), num(2.))), 7. * 2.);
    assert_eq!(eval_expr(&binary(BinaryOp::Div, num(7.), num(2.))), 3.5);
}

#[test]
fn negation_follows_ieee_signs() {
    let minus_zero = eval_expr(&neg(num(0.)));
    assert_eq!(minus_zero, 0.);
    assert!(minus_zero.is_sign_negative());
    assert_eq!(minus_zero.to_bits(), (-0.0f64).to_bits());

    assert!(eval_expr(&neg(num(f64::NAN))).is_nan());
    assert_eq!(eval_expr(&neg(num(f64::INFINITY))), f64::NEG_INFINITY);
    assert_eq!(eval_expr(&neg(num(3.5))), -3.5);
}

#[test]
fn division_by_zero_follows_ieee() {
    assert_eq!(eval_expr(&binary(BinaryOp::Div, num(1.), num(0.))), f64::INFINITY);
    assert_eq!(
        eval_expr(&binary(BinaryOp::Div, num(-1.), num(0.))),
        f64::NEG_INFINITY
    );
    assert!(eval_expr(&binary(BinaryOp::Div, num(0.), num(0.))).is_nan());
}

#[test]
fn render_has_balanced_parens() {
    let rendered = lispify_expr(&mock_expr());
    let opening = rendered.chars().filter(|c| *c == '(').count();
    let closing = rendered.chars().filter(|c| *c == ')').count();
    // the mock tree has five composite nodes: four Binary nodes and the Group
    assert_eq!(opening, 5);
    assert_eq!(closing, 5);
}

#[test]
fn render_is_deterministic() {
    let expr = mock_expr();
    assert_eq!(lispify_expr(&expr), lispify_expr(&expr));
}
