//! The printer: renders an expression tree as a fully parenthesized,
//! prefix-notation string, with the keyword `group` marking explicit
//! parenthesization nodes.
use vstd::prelude::*;
use vstd::string::StringExecFns;
use crate::expr_ast::BinaryOp;
use crate::expr_ast::compound_count;
use crate::expr_ast::Expr;
use crate::expr_ast::Group;
use crate::expr_ast::Num;
use crate::expr_ast::UnaryOp;

verus! {

/// The textual token of a two-operand operator.
pub open spec fn op_sym(op: BinaryOp) -> Seq<char> {
    match op {
        BinaryOp::Add => seq!['+'],
        BinaryOp::Sub => seq!['-'],
        BinaryOp::Mul => seq!['*'],
        BinaryOp::Div => seq!['/'],
    }
}

/// The textual token of a one-operand operator. Negation shares the "-"
/// token with subtraction; the one-operand prefix form disambiguates them.
pub open spec fn unary_sym(op: UnaryOp) -> Seq<char> {
    match op {
        UnaryOp::Neg => seq!['-'],
    }
}

/// What rendering a tree yields: `(op lhs rhs)` for a two-operand node,
/// `(- operand)` for negation, `(group inner)` for a parenthesization
/// marker, and the literal's own decimal text for a leaf.
pub open spec fn render_of(e: Expr) -> Seq<char>
    decreases e,
{
    match e {
        Expr::Binary(b) => seq!['('] + op_sym(b.op) + seq![' '] + render_of(*b.lhs) + seq![' ']
            + render_of(*b.rhs) + seq![')'],
        Expr::Unary(u) => seq!['('] + unary_sym(u.op) + seq![' '] + render_of(*u.expr) + seq![')'],
        Expr::Group(g) => seq!['(', 'g', 'r', 'o', 'u', 'p', ' '] + render_of(*g.expr) + seq![')'],
        Expr::Num(n) => n.text@,
    }
}

/// The executable token of a two-operand operator.
pub fn op_token(op: BinaryOp) -> (r: &'static str)
    ensures
        r@ == op_sym(op),
{
    proof {
        reveal_strlit("+");
        reveal_strlit("-");
        reveal_strlit("*");
        reveal_strlit("/");
    }
    match op {
        BinaryOp::Add => {
            let r = "+";
            proof {
                assert(r@ =~= op_sym(op));
            }
            r
        },
        BinaryOp::Sub => {
            let r = "-";
            proof {
                assert(r@ =~= op_sym(op));
            }
            r
        },
        BinaryOp::Mul => {
            let r = "*";
            proof {
                assert(r@ =~= op_sym(op));
            }
            r
        },
        BinaryOp::Div => {
            let r = "/";
            proof {
                assert(r@ =~= op_sym(op));
            }
            r
        },
    }
}

/// Renders a tree to its fully parenthesized prefix form.
pub fn lispify_expr(expr: &Expr) -> (out: String)
    ensures
        out@ == render_of(*expr),
    decreases expr,
{
    match expr {
        Expr::Binary(b) => {
            let mut out = String::new();
            out.append("(");
            out.append(op_token(b.op));
            out.append(" ");
            let lhs = lispify_expr(&b.lhs);
            out.append(lhs.as_str());
            out.append(" ");
            let rhs = lispify_expr(&b.rhs);
            out.append(rhs.as_str());
            out.append(")");
            proof {
                reveal_strlit("(");
                reveal_strlit(" ");
                reveal_strlit(")");
                assert(out@ =~= render_of(*expr));
            }
            out
        },
        Expr::Unary(u) => {
            let mut out = String::new();
            out.append("(- ");
            let operand = lispify_expr(&u.expr);
            out.append(operand.as_str());
            out.append(")");
            proof {
                reveal_strlit("(- ");
                reveal_strlit(")");
                assert(out@ =~= render_of(*expr));
            }
            out
        },
        Expr::Group(g) => {
            let mut out = String::new();
            out.append("(group ");
            let inner = lispify_expr(&g.expr);
            out.append(inner.as_str());
            out.append(")");
            proof {
                reveal_strlit("(group ");
                reveal_strlit(")");
                assert(out@ =~= render_of(*expr));
            }
            out
        },
        Expr::Num(n) => {
            let mut out = String::new();
            out.append(n.text.as_str());
            proof {
                assert(out@ =~= render_of(*expr));
            }
            out
        },
    }
}

/// How many occurrences of the character `c` the text `s` holds.
pub open spec fn char_count(s: Seq<char>, c: char) -> nat
    decreases s.len(),
{
    if s.len() == 0 {
        0
    } else {
        (if s[0] == c {
            1nat
        } else {
            0nat
        }) + char_count(s.drop_first(), c)
    }
}

/// The text `s` holds neither an opening nor a closing parenthesis.
pub open spec fn paren_free(s: Seq<char>) -> bool {
    forall|i: int| 0 <= i < s.len() ==> s[i] != '(' && s[i] != ')'
}

/// Every literal leaf of the tree carries a text without parentheses, as
/// every decimal rendering of a number does.
pub open spec fn num_texts_paren_free(e: Expr) -> bool
    decreases e,
{
    match e {
        Expr::Binary(b) => num_texts_paren_free(*b.lhs) && num_texts_paren_free(*b.rhs),
        Expr::Unary(u) => num_texts_paren_free(*u.expr),
        Expr::Group(g) => num_texts_paren_free(*g.expr),
        Expr::Num(n) => paren_free(n.text@),
    }
}

pub proof fn lemma_char_count_concat(a: Seq<char>, b: Seq<char>, c: char)
    ensures
        char_count(a + b, c) == char_count(a, c) + char_count(b, c),
    decreases a.len(),
{
    if a.len() == 0 {
        assert(a + b =~= b);
    } else {
        assert((a + b)[0] == a[0]);
        assert((a + b).drop_first() =~= a.drop_first() + b);
        lemma_char_count_concat(a.drop_first(), b, c);
    }
}

pub proof fn lemma_char_count_absent(s: Seq<char>, c: char)
    requires
        forall|i: int| 0 <= i < s.len() ==> s[i] != c,
    ensures
        char_count(s, c) == 0,
    decreases s.len(),
{
    if s.len() > 0 {
        lemma_char_count_absent(s.drop_first(), c);
    }
}

pub proof fn lemma_char_count_single(c0: char, c: char)
    ensures
        char_count(seq![c0], c) == (if c0 == c {
            1nat
        } else {
            0nat
        }),
{
    reveal_with_fuel(char_count, 2);
    assert(seq![c0].drop_first() =~= Seq::<char>::empty());
}

/// The rendering of a tree whose literal texts are free of parentheses
/// holds as many opening as closing parentheses, and each count equals the
/// number of composite (non-leaf) nodes of the tree.
#[verifier::rlimit(60)]
pub proof fn lemma_render_balanced(e: Expr)
    requires
        num_texts_paren_free(e),
    ensures
        char_count(render_of(e), '(') == compound_count(e),
        char_count(render_of(e), ')') == compound_count(e),
    decreases e,
{
    lemma_char_count_single('(', '(');
    lemma_char_count_single('(', ')');
    lemma_char_count_single(')', '(');
    lemma_char_count_single(')', ')');
    lemma_char_count_single(' ', '(');
    lemma_char_count_single(' ', ')');
    match e {
        Expr::Binary(b) => {
            let a1 = seq!['('];
            let a2 = op_sym(b.op);
            let a3 = seq![' '];
            let a4 = render_of(*b.lhs);
            let a5 = seq![' '];
            let a6 = render_of(*b.rhs);
            let a7 = seq![')'];
            match b.op {
                BinaryOp::Add => {
                    lemma_char_count_single('+', '(');
                    lemma_char_count_single('+', ')');
                },
                BinaryOp::Sub => {
                    lemma_char_count_single('-', '(');
                    lemma_char_count_single('-', ')');
                },
                BinaryOp::Mul => {
                    lemma_char_count_single('*', '(');
                    lemma_char_count_single('*', ')');
                },
                BinaryOp::Div => {
                    lemma_char_count_single('/', '(');
                    lemma_char_count_single('/', ')');
                },
            }
            lemma_render_balanced(*b.lhs);
            lemma_render_balanced(*b.rhs);
            lemma_char_count_concat(a1 + a2 + a3 + a4 + a5 + a6, a7, '(');
            lemma_char_count_concat(a1 + a2 + a3 + a4 + a5, a6, '(');
            lemma_char_count_concat(a1 + a2 + a3 + a4, a5, '(');
            lemma_char_count_concat(a1 + a2 + a3, a4, '(');
            lemma_char_count_concat(a1 + a2, a3, '(');
            lemma_char_count_concat(a1, a2, '(');
            lemma_char_count_concat(a1 + a2 + a3 + a4 + a5 + a6, a7, ')');
            lemma_char_count_concat(a1 + a2 + a3 + a4 + a5, a6, ')');
            lemma_char_count_concat(a1 + a2 + a3 + a4, a5, ')');
            lemma_char_count_concat(a1 + a2 + a3, a4, ')');
            lemma_char_count_concat(a1 + a2, a3, ')');
            lemma_char_count_concat(a1, a2, ')');
        },
        Expr::Unary(u) => {
            let a1 = seq!['('];
            let a2 = unary_sym(u.op);
            let a3 = seq![' '];
            let a4 = render_of(*u.expr);
            let a5 = seq![')'];
            match u.op {
                UnaryOp::Neg => {
                    lemma_char_count_single('-', '(');
                    lemma_char_count_single('-', ')');
                },
            }
            lemma_render_balanced(*u.expr);
            lemma_char_count_concat(a1 + a2 + a3 + a4, a5, '(');
            lemma_char_count_concat(a1 + a2 + a3, a4, '(');
            lemma_char_count_concat(a1 + a2, a3, '(');
            lemma_char_count_concat(a1, a2, '(');
            lemma_char_count_concat(a1 + a2 + a3 + a4, a5, ')');
            lemma_char_count_concat(a1 + a2 + a3, a4, ')');
            lemma_char_count_concat(a1 + a2, a3, ')');
            lemma_char_count_concat(a1, a2, ')');
        },
        Expr::Group(g) => {
            let a1 = seq!['(', 'g', 'r', 'o', 'u', 'p', ' '];
            let a2 = render_of(*g.expr);
            let a3 = seq![')'];
            assert(char_count(a1, '(') == 1 && char_count(a1, ')') == 0) by {
                reveal_with_fuel(char_count, 8);
            }
            lemma_render_balanced(*g.expr);
            lemma_char_count_concat(a1 + a2, a3, '(');
            lemma_char_count_concat(a1, a2, '(');
            lemma_char_count_concat(a1 + a2, a3, ')');
            lemma_char_count_concat(a1, a2, ')');
        },
        Expr::Num(n) => {
            lemma_char_count_absent(n.text@, '(');
            lemma_char_count_absent(n.text@, ')');
        },
    }
}

/// A group renders as the keyword form `(group inner)`: the literal text
/// `(group ` before the inner rendering and `)` after it.
pub proof fn lemma_render_group(g: Group)
    ensures
        render_of(Expr::Group(g)) == seq!['(', 'g', 'r', 'o', 'u', 'p', ' ']
            + render_of(*g.expr) + seq![')'],
{
}

/// A literal leaf renders as exactly its own decimal text.
pub proof fn lemma_render_num(n: Num)
    ensures
        render_of(Expr::Num(n)) == n.text@,
{
}

/// Rendering is deterministic: any two renderings of the same tree are the
/// same text, since each is the one text `render_of` assigns to the tree.
pub proof fn lemma_render_deterministic(e: Expr, r1: Seq<char>, r2: Seq<char>)
    requires
        r1 == render_of(e),
        r2 == render_of(e),
    ensures
        r1 == r2,
{
}

} // verus!
