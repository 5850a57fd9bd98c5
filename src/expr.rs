use vstd::prelude::*;

verus! {

/// Coarse classification of a node of an expression, in increasing order of
/// structure.
#[derive(Clone, Copy, PartialEq, Eq, PartialOrd, Ord, Debug)]
pub enum AtomicType {
    /// A decimal numeric constant.
    Literal,
    /// A well-known mathematical constant such as `e` or `pi`.
    Constant,
    /// An unknown variable.
    Var,
    /// A node made of nested sub-expressions.
    Ex,
}

/// The variable symbols: one for each lowercase letter.
#[allow(non_camel_case_types)]
#[derive(Clone, Copy, Debug, PartialEq, Eq)]
pub enum Vars {
    a,
    b,
    c,
    d,
    /// Conventionally Euler's number `e`.
    e,
    f,
    g,
    h,
    i,
    j,
    k,
    l,
    m,
    n,
    o,
    p,
    q,
    r,
    s,
    t,
    u,
    v,
    w,
    /// Conventionally the independent variable.
    x,
    /// Conventionally the dependent variable.
    y,
    z,
}

/// The letter a symbol is written as.
pub open spec fn letter(sym: Vars) -> char {
    match sym {
        Vars::a => 'a',
        Vars::b => 'b',
        Vars::c => 'c',
        Vars::d => 'd',
        Vars::e => 'e',
        Vars::f => 'f',
        Vars::g => 'g',
        Vars::h => 'h',
        Vars::i => 'i',
        Vars::j => 'j',
        Vars::k => 'k',
        Vars::l => 'l',
        Vars::m => 'm',
        Vars::n => 'n',
        Vars::o => 'o',
        Vars::p => 'p',
        Vars::q => 'q',
        Vars::r => 'r',
        Vars::s => 's',
        Vars::t => 't',
        Vars::u => 'u',
        Vars::v => 'v',
        Vars::w => 'w',
        Vars::x => 'x',
        Vars::y => 'y',
        Vars::z => 'z',
    }
}

/// The symbol written as the letter `c`; `a` for a character that is no
/// lowercase letter.
pub open spec fn symbol_of(c: char) -> Vars {
    if c == 'a' {
        Vars::a
    } else if c == 'b' {
        Vars::b
    } else if c == 'c' {
        Vars::c
    } else if c == 'd' {
        Vars::d
    } else if c == 'e' {
        Vars::e
    } else if c == 'f' {
        Vars::f
    } else if c == 'g' {
        Vars::g
    } else if c == 'h' {
        Vars::h
    } else if c == 'i' {
        Vars::i
    } else if c == 'j' {
        Vars::j
    } else if c == 'k' {
        Vars::k
    } else if c == 'l' {
        Vars::l
    } else if c == 'm' {
        Vars::m
    } else if c == 'n' {
        Vars::n
    } else if c == 'o' {
        Vars::o
    } else if c == 'p' {
        Vars::p
    } else if c == 'q' {
        Vars::q
    } else if c == 'r' {
        Vars::r
    } else if c == 's' {
        Vars::s
    } else if c == 't' {
        Vars::t
    } else if c == 'u' {
        Vars::u
    } else if c == 'v' {
        Vars::v
    } else if c == 'w' {
        Vars::w
    } else if c == 'x' {
        Vars::x
    } else if c == 'y' {
        Vars::y
    } else if c == 'z' {
        Vars::z
    } else {
        Vars::a
    }
}

/// Whether `c` is one of the 26 lowercase letters of the Latin alphabet.
pub open spec fn is_lowercase_letter(c: char) -> bool {
    'a' <= c && c <= 'z'
}

impl Vars {
    /// The symbol as a one-letter string.
    pub fn to_str(self) -> (r: &'static str)
        ensures
            r@ == seq![letter(self)],
    {
        match self {
            Vars::a => {
                proof {
                    reveal_strlit("a");
                }
                "a"
            },
            Vars::b => {
                proof {
                    reveal_strlit("b");
                }
                "b"
            },
            Vars::c => {
                proof {
                    reveal_strlit("c");
                }
                "c"
            },
            Vars::d => {
                proof {
                    reveal_strlit("d");
                }
                "d"
            },
            Vars::e => {
                proof {
                    reveal_strlit("e");
                }
                "e"
            },
            Vars::f => {
                proof {
                    reveal_strlit("f");
                }
                "f"
            },
            Vars::g => {
                proof {
                    reveal_strlit("g");
                }
                "g"
            },
            Vars::h => {
                proof {
                    reveal_strlit("h");
                }
                "h"
            },
            Vars::i => {
                proof {
                    reveal_strlit("i");
                }
                "i"
            },
            Vars::j => {
                proof {
                    reveal_strlit("j");
                }
                "j"
            },
            Vars::k => {
                proof {
                    reveal_strlit("k");
                }
                "k"
            },
            Vars::l => {
                proof {
                    reveal_strlit("l");
                }
                "l"
            },
            Vars::m => {
                proof {
                    reveal_strlit("m");
                }
                "m"
            },
            Vars::n => {
                proof {
                    reveal_strlit("n");
                }
                "n"
            },
            Vars::o => {
                proof {
                    reveal_strlit("o");
                }
                "o"
            },
            Vars::p => {
                proof {
                    reveal_strlit("p");
                }
                "p"
            },
            Vars::q => {
                proof {
                    reveal_strlit("q");
                }
                "q"
            },
            Vars::r => {
                proof {
                    reveal_strlit("r");
                }
                "r"
            },
            Vars::s => {
                proof {
                    reveal_strlit("s");
                }
                "s"
            },
            Vars::t => {
                proof {
                    reveal_strlit("t");
                }
                "t"
            },
            Vars::u => {
                proof {
                    reveal_strlit("u");
                }
                "u"
            },
            Vars::v => {
                proof {
                    reveal_strlit("v");
                }
                "v"
            },
            Vars::w => {
                proof {
                    reveal_strlit("w");
                }
                "w"
            },
            Vars::x => {
                proof {
                    reveal_strlit("x");
                }
                "x"
            },
            Vars::y => {
                proof {
                    reveal_strlit("y");
                }
                "y"
            },
            Vars::z => {
                proof {
                    reveal_strlit("z");
                }
                "z"
            },
        }
    }
}

/// Rendering a symbol is a bijection between the symbols and the lowercase
/// letters: every symbol is written as a lowercase letter, no two symbols
/// share one, and every lowercase letter writes some symbol.
pub proof fn lemma_letter_bijective()
    ensures
        forall|sym: Vars| #[trigger] is_lowercase_letter(letter(sym)),
        forall|s1: Vars, s2: Vars| #[trigger] letter(s1) == #[trigger] letter(s2) ==> s1 == s2,
        forall|c: char|
            is_lowercase_letter(c) ==> #[trigger] letter(symbol_of(c)) == c,
{
    assert forall|sym: Vars| #[trigger] symbol_of(letter(sym)) == sym by {}
    assert forall|c: char| is_lowercase_letter(c) implies #[trigger] letter(symbol_of(c)) == c by {
        let n = c as u32;
        assert(97 <= n <= 122);
        assert(n == 97 || n == 98 || n == 99 || n == 100 || n == 101 || n == 102 || n == 103
            || n == 104 || n == 105 || n == 106 || n == 107 || n == 108 || n == 109 || n == 110
            || n == 111 || n == 112 || n == 113 || n == 114 || n == 115 || n == 116 || n == 117
            || n == 118 || n == 119 || n == 120 || n == 121 || n == 122);
    }
}

/// The result of one differentiation step: the kind of a term may change
/// across it, as a polynomial term of degree one becomes a constant. The
/// number type `N` is the caller's.
#[derive(Debug)]
pub enum AtomicExpr<N> {
    Poly(Poly<N>),
    Constant(Const<N>),
    /// Reserved for exponential terms.
    Exponent(),
    /// Reserved for logarithmic terms.
    Log(),
}

/// The text of a polynomial term whose coefficient reads `coe` and whose
/// exponent reads `ex`.
pub open spec fn poly_text(coe: Seq<char>, sym: Vars, ex: Seq<char>, ex_is_one: bool) -> Seq<char> {
    if ex_is_one {
        coe + seq![letter(sym)]
    } else {
        coe + seq![letter(sym), '^'] + ex
    }
}

/// The separator between the terms of a sum.
pub open spec fn plus_text() -> Seq<char> {
    seq![' ', '+', ' ']
}

/// The texts of `terms` joined by the separator of a sum.
pub open spec fn sum_text(terms: Seq<Seq<char>>) -> Seq<char>
    decreases terms.len(),
{
    if terms.len() == 0 {
        Seq::empty()
    } else if terms.len() == 1 {
        terms[0]
    } else {
        sum_text(terms.drop_last()) + plus_text() + terms.last()
    }
}

/// The views of a sequence of strings.
pub open spec fn texts(terms: Seq<String>) -> Seq<Seq<char>> {
    terms.map_values(|t: String| t@)
}

/// The terms written as a sum: `"a + b + c"`.
pub fn join_terms(terms: &Vec<String>) -> (r: String)
    ensures
        r@ == sum_text(texts(terms@)),
{
    let plus = " + ";
    proof {
        reveal_strlit(" + ");
        assert(plus@ =~= plus_text());
    }
    let mut r = String::new();
    let mut i: usize = 0;
    while i < terms.len()
        invariant
            i <= terms.len(),
            plus@ == plus_text(),
            r@ == sum_text(texts(terms@.subrange(0, i as int))),
        decreases terms.len() - i,
    {
        let ghost done = texts(terms@.subrange(0, i as int + 1));
        proof {
            assert(done.drop_last() =~= texts(terms@.subrange(0, i as int)));
            assert(done.last() == terms@[i as int]@);
        }
        if i > 0 {
            r.append(plus);
        }
        r.append(terms[i].as_str());
        proof {
            assert(done.len() == i + 1);
            assert(r@ =~= sum_text(done));
        }
        i += 1;
    }
    assert(terms@.subrange(0, i as int) =~= terms@);
    r
}

/// One term `coe · var^ex` of a polynomial.
#[derive(Debug)]
pub struct Poly<N> {
    /// Variable of the term.
    pub var: Vars,
    /// Coefficient of the term.
    pub coe: N,
    /// Exponent of the term.
    pub ex: N,
}

impl<N: Copy> Poly<N> {
    pub fn from(coe: N, var: Vars, ex: N) -> (r: Self)
        ensures
            r == (Poly { var, coe, ex }),
    {
        Poly { var, coe, ex }
    }

    /// The derivative by the power rule: `coe · var^ex` becomes
    /// `(coe · ex) · var^(ex - 1)`, save that a term of exponent one becomes
    /// the constant `coe` rather than a term in `var^0`.
    ///
    /// The arithmetic is that of the number type and is done by the caller:
    /// `ex_is_one` tells whether `ex` equals one, `product` is `coe · ex` and
    /// `lowered` is `ex - 1`.
    /// The term as text: the coefficient, the variable's letter, and `^` and
    /// the exponent unless the exponent is one. `coe_text` and `ex_text` are
    /// the coefficient and the exponent as text, in the number type's own
    /// notation, and `ex_is_one` tells whether the exponent equals one.
    pub fn render(&self, coe_text: &str, ex_text: &str, ex_is_one: bool) -> (r: String)
        ensures
            r@ == poly_text(coe_text@, self.var, ex_text@, ex_is_one),
    {
        let mut r = String::from_str(coe_text);
        r.append(self.var.to_str());
        if !ex_is_one {
            let caret = "^";
            proof {
                reveal_strlit("^");
            }
            r.append(caret);
            r.append(ex_text);
        }
        r
    }

    pub fn differentiate(&self, ex_is_one: bool, product: N, lowered: N) -> (r: AtomicExpr<N>)
        ensures
            r == power_rule(*self, ex_is_one, product, lowered),
    {
        if !ex_is_one {
            AtomicExpr::Poly(Poly { var: self.var, coe: product, ex: lowered })
        } else {
            AtomicExpr::Constant(Const { value: self.coe })
        }
    }
}

/// The derivative of the term `p` by the power rule, where `ex_is_one` tells
/// whether its exponent equals one, `product` is its coefficient times its
/// exponent and `lowered` is its exponent less one.
pub open spec fn power_rule<N>(p: Poly<N>, ex_is_one: bool, product: N, lowered: N) -> AtomicExpr<N> {
    if ex_is_one {
        AtomicExpr::Constant(Const { value: p.coe })
    } else {
        AtomicExpr::Poly(Poly { var: p.var, coe: product, ex: lowered })
    }
}

/// Differentiating a term of degree two twice gives a constant: the first
/// step keeps the variable and gives the exponent `lowered` (two less one),
/// and as that exponent is one, the second step gives the constant
/// `product`, the first step's coefficient.
pub proof fn lemma_square_differentiates_twice_to_constant<N>(
    p: Poly<N>,
    product: N,
    lowered: N,
    product2: N,
    lowered2: N,
)
    ensures
        match power_rule(p, false, product, lowered) {
            AtomicExpr::Poly(q) => q.var == p.var && q.ex == lowered && power_rule(
                q,
                true,
                product2,
                lowered2,
            ) == AtomicExpr::Constant(Const { value: product }),
            _ => false,
        },
{
}

/// A term that does not depend on any variable, such as `5` or `-12`.
#[derive(Debug)]
pub struct Const<N> {
    pub value: N,
}

impl<N: Copy> Const<N> {
    pub fn from(value: N) -> (r: Self)
        ensures
            r == (Const { value }),
    {
        Const { value }
    }

    pub fn to_value(&self) -> (r: N)
        ensures
            r == self.value,
    {
        self.value
    }

    /// The derivative of a constant: the constant `zero`, whatever the value,
    /// where `zero` is the number type's zero.
    pub fn differentiate(&self, zero: N) -> (r: AtomicExpr<N>)
        ensures
            r == AtomicExpr::Constant(Const { value: zero }),
    {
        AtomicExpr::Constant(Const { value: zero })
    }
}

/// An operation on composite expressions that is not supported yet.
#[derive(Clone, Copy, PartialEq, Eq, Debug)]
pub enum Unsupported {
    /// Building an expression tree from text.
    Parse,
    /// Differentiating a composite expression.
    Differentiate,
}

/// A composite expression: a classification and, once expressions can be
/// nested, the one sub-expression that it owns.
#[derive(Debug)]
pub struct Expr<N> {
    pub kind: AtomicType,
    pub nested: Option<Box<AtomicExpr<N>>>,
}

impl<N> Expr<N> {
    /// Builds an expression tree from text: not supported yet, and reported
    /// as such for every text.
    pub fn parse(text: &str) -> (r: Result<Self, Unsupported>)
        ensures
            r is Err && r->Err_0 == Unsupported::Parse,
    {
        Err(Unsupported::Parse)
    }

    /// Differentiates through the nested sub-expression: not supported yet,
    /// and reported as such for every expression.
    pub fn differentiate(&self) -> (r: Result<AtomicExpr<N>, Unsupported>)
        ensures
            r is Err && r->Err_0 == Unsupported::Differentiate,
    {
        Err(Unsupported::Differentiate)
    }
}

} // verus!
