use vstd::prelude::*;

verus! {

/// A build-time diagnostic of the two source-level generators, attached
/// to the offending place in their input.
#[derive(Debug)]
pub struct ParseError {
    /// Offset of the offending byte, or index of the offending token, in
    /// the generator's input.
    pub pos: usize,
}

/// A numeral type expression, the target vocabulary of the two
/// generators: the nesting forms of the numeral subsystem, its two
/// arithmetic operators, and a reference to an existing type by name.
#[derive(Debug)]
pub enum NatExpr {
    /// The zero case.
    Zero,
    /// One successor wrapper around an inner expression.
    Succ(Box<NatExpr>),
    /// The type-level sum of two expressions.
    Add(Box<NatExpr>, Box<NatExpr>),
    /// The type-level product of two expressions.
    Mul(Box<NatExpr>, Box<NatExpr>),
    /// An existing type, by its name.
    Name(Vec<u8>),
}

/// The mathematical shape of a numeral type expression: `NatExpr` with
/// the type name abstracted to a byte sequence.
pub enum SpecExpr {
    Zero,
    Succ(Box<SpecExpr>),
    Add(Box<SpecExpr>, Box<SpecExpr>),
    Mul(Box<SpecExpr>, Box<SpecExpr>),
    Name(Seq<u8>),
}

impl View for NatExpr {
    type V = SpecExpr;

    open spec fn view(&self) -> SpecExpr
        decreases self,
    {
        match self {
            NatExpr::Zero => SpecExpr::Zero,
            NatExpr::Succ(inner) => SpecExpr::Succ(Box::new((**inner)@)),
            NatExpr::Add(a, b) => SpecExpr::Add(Box::new((**a)@), Box::new((**b)@)),
            NatExpr::Mul(a, b) => SpecExpr::Mul(Box::new((**a)@), Box::new((**b)@)),
            NatExpr::Name(n) => SpecExpr::Name(n@),
        }
    }
}

/// The natural-number value a numeral type expression stands for, under
/// an environment giving the values of the named types.
pub open spec fn spec_eval(e: SpecExpr, env: Map<Seq<u8>, nat>) -> nat
    decreases e,
{
    match e {
        SpecExpr::Zero => 0,
        SpecExpr::Succ(inner) => spec_eval(*inner, env) + 1,
        SpecExpr::Add(a, b) => spec_eval(*a, env) + spec_eval(*b, env),
        SpecExpr::Mul(a, b) => spec_eval(*a, env) * spec_eval(*b, env),
        SpecExpr::Name(n) => env[n],
    }
}

/// Whether the byte is an ASCII decimal digit.
pub open spec fn spec_is_digit(c: u8) -> bool {
    48 <= c <= 57
}

/// The digit's numeric value; digits only.
pub open spec fn spec_digit(c: u8) -> nat {
    if spec_is_digit(c) {
        (c - 48) as nat
    } else {
        0
    }
}

/// The number a run of decimal digits denotes, most significant first.
pub open spec fn spec_digits_value(s: Seq<u8>) -> nat
    decreases s.len(),
{
    if s.len() == 0 {
        0
    } else {
        spec_digits_value(s.drop_last()) * 10 + spec_digit(s.last())
    }
}

/// Whether the input is a well-formed non-negative integer literal whose
/// value the generator can hold: non-empty, decimal digits only, value
/// within `u64`.
pub open spec fn spec_is_nat_literal(s: Seq<u8>) -> bool {
    &&& s.len() > 0
    &&& forall|i: int| 0 <= i < s.len() ==> spec_is_digit(s[i])
    &&& spec_digits_value(s) <= u64::MAX
}

/// The numeral expression of the given value: that many nested successor
/// wrappers around the zero case.
pub open spec fn spec_numeral(n: nat) -> SpecExpr
    decreases n,
{
    if n == 0 {
        SpecExpr::Zero
    } else {
        SpecExpr::Succ(Box::new(spec_numeral((n - 1) as nat)))
    }
}

/// The nesting depth of a numeral expression equals the value it stands
/// for, under every environment.
pub proof fn lemma_numeral_value(n: nat, env: Map<Seq<u8>, nat>)
    ensures
        spec_eval(spec_numeral(n), env) == n,
    decreases n,
{
    if n > 0 {
        lemma_numeral_value((n - 1) as nat, env);
    }
}

/// A longer digit run never denotes a smaller number.
proof fn lemma_digits_value_prefix(s: Seq<u8>, j: int)
    requires
        0 <= j <= s.len(),
    ensures
        spec_digits_value(s.subrange(0, j)) <= spec_digits_value(s),
    decreases s.len() - j,
{
    if j < s.len() {
        lemma_digits_value_prefix(s.drop_last(), j);
        assert(s.drop_last().subrange(0, j) =~= s.subrange(0, j));
    } else {
        assert(s.subrange(0, j) =~= s);
    }
}

/// Expands a non-negative integer literal into the numeral expression of
/// exactly that value: `0` becomes the zero case, `k` becomes `k` nested
/// successor wrappers. Anything that is not such a literal, including a
/// value beyond `u64`, is refused with a diagnostic.
pub fn expand_nat(input: &[u8]) -> (r: Result<NatExpr, ParseError>)
    ensures
        match r {
            Ok(e) => spec_is_nat_literal(input@) && e@ == spec_numeral(spec_digits_value(input@)),
            Err(err) => !spec_is_nat_literal(input@) && err.pos <= input@.len(),
        },
{
    if input.len() == 0 {
        return Err(ParseError { pos: 0 });
    }
    let mut value: u64 = 0;
    let mut i: usize = 0;
    while i < input.len()
        invariant
            0 <= i <= input@.len(),
            forall|k: int| 0 <= k < i ==> spec_is_digit(input@[k]),
            value == spec_digits_value(input@.subrange(0, i as int)),
        decreases input@.len() - i,
    {
        let c = input[i];
        if !(48 <= c && c <= 57) {
            return Err(ParseError { pos: i });
        }
        let d = (c - 48) as u64;
        proof {
            assert(input@.subrange(0, i + 1).drop_last() =~= input@.subrange(0, i as int));
            assert(spec_digits_value(input@.subrange(0, i + 1)) == value * 10 + d);
        }
        if value > (u64::MAX - d) / 10 {
            proof {
                lemma_digits_value_prefix(input@, i + 1);
            }
            return Err(ParseError { pos: i });
        }
        value = value * 10 + d;
        i += 1;
    }
    proof {
        assert(input@.subrange(0, input@.len() as int) =~= input@);
    }
    let mut e = NatExpr::Zero;
    let mut k: u64 = 0;
    while k < value
        invariant
            0 <= k <= value,
            e@ == spec_numeral(k as nat),
        decreases value - k,
    {
        e = NatExpr::Succ(Box::new(e));
        k += 1;
    }
    Ok(e)
}

/// A token of the expression mini-language.
pub enum Token {
    Plus,
    Star,
    Comma,
    LParen,
    RParen,
    Ident(Vec<u8>),
}

/// The mathematical shape of a token.
pub enum SpecToken {
    Plus,
    Star,
    Comma,
    LParen,
    RParen,
    Ident(Seq<u8>),
}

impl View for Token {
    type V = SpecToken;

    open spec fn view(&self) -> SpecToken {
        match self {
            Token::Plus => SpecToken::Plus,
            Token::Star => SpecToken::Star,
            Token::Comma => SpecToken::Comma,
            Token::LParen => SpecToken::LParen,
            Token::RParen => SpecToken::RParen,
            Token::Ident(n) => SpecToken::Ident(n@),
        }
    }
}

/// The shapes of a sequence of tokens.
pub open spec fn view_tokens(ts: Seq<Token>) -> Seq<SpecToken> {
    ts.map_values(|t: Token| t@)
}

/// Whether the byte is blank space between tokens.
pub open spec fn spec_is_space(c: u8) -> bool {
    c == 32 || c == 9 || c == 10 || c == 13
}

/// Whether the byte can open an identifier.
pub open spec fn spec_is_ident_start(c: u8) -> bool {
    65 <= c <= 90 || 97 <= c <= 122 || c == 95
}

/// Whether the byte can continue an identifier.
pub open spec fn spec_is_ident_char(c: u8) -> bool {
    spec_is_ident_start(c) || spec_is_digit(c)
}

/// Where the identifier run that starts at `i` ends: the first position
/// at or after `i` whose byte does not continue it.
pub open spec fn spec_ident_end(s: Seq<u8>, i: int) -> int
    decreases s.len() - i,
    when 0 <= i <= s.len()
{
    if i < s.len() && spec_is_ident_char(s[i]) {
        spec_ident_end(s, i + 1)
    } else {
        i
    }
}

proof fn lemma_ident_end_bounds(s: Seq<u8>, i: int)
    requires
        0 <= i <= s.len(),
    ensures
        i <= spec_ident_end(s, i) <= s.len(),
    decreases s.len() - i,
{
    if i < s.len() && spec_is_ident_char(s[i]) {
        lemma_ident_end_bounds(s, i + 1);
    }
}

/// Prefixes a token onto the outcome of tokenizing the rest.
pub open spec fn spec_cons_token(t: SpecToken, rest: Option<Seq<SpecToken>>) -> Option<
    Seq<SpecToken>,
> {
    match rest {
        None => None,
        Some(ts) => Some(seq![t] + ts),
    }
}

/// The tokens of the input from position `i` on, or nothing if a byte
/// that belongs to no token is met.
pub open spec fn spec_tokens(s: Seq<u8>, i: int) -> Option<Seq<SpecToken>>
    decreases s.len() - i,
    when 0 <= i <= s.len()
    via spec_tokens_decreases
{
    if i >= s.len() {
        Some(Seq::empty())
    } else if spec_is_space(s[i]) {
        spec_tokens(s, i + 1)
    } else if s[i] == 43 {
        spec_cons_token(SpecToken::Plus, spec_tokens(s, i + 1))
    } else if s[i] == 42 {
        spec_cons_token(SpecToken::Star, spec_tokens(s, i + 1))
    } else if s[i] == 44 {
        spec_cons_token(SpecToken::Comma, spec_tokens(s, i + 1))
    } else if s[i] == 40 {
        spec_cons_token(SpecToken::LParen, spec_tokens(s, i + 1))
    } else if s[i] == 41 {
        spec_cons_token(SpecToken::RParen, spec_tokens(s, i + 1))
    } else if spec_is_ident_start(s[i]) {
        spec_cons_token(
            SpecToken::Ident(s.subrange(i, spec_ident_end(s, i))),
            spec_tokens(s, spec_ident_end(s, i)),
        )
    } else {
        None
    }
}

#[via_fn]
proof fn spec_tokens_decreases(s: Seq<u8>, i: int) {
    if 0 <= i < s.len() && spec_is_ident_start(s[i]) {
        lemma_ident_end_bounds(s, i + 1);
    }
}

/// Whether the byte can continue an identifier token.
fn is_ident_byte(b: u8) -> (r: bool)
    ensures
        r == spec_is_ident_char(b),
{
    (65 <= b && b <= 90) || (97 <= b && b <= 122) || b == 95 || (48 <= b && b <= 57)
}

/// Splits the generators' input into tokens; a byte that belongs to no
/// token is refused with a diagnostic at its offset.
pub fn tokenize(input: &[u8]) -> (r: Result<Vec<Token>, ParseError>)
    ensures
        match r {
            Ok(toks) => spec_tokens(input@, 0) == Some(view_tokens(toks@)),
            Err(err) => spec_tokens(input@, 0) is None && err.pos < input@.len(),
        },
{
    let mut toks: Vec<Token> = Vec::new();
    let mut i: usize = 0;
    while i < input.len()
        invariant
            0 <= i <= input@.len(),
            spec_tokens(input@, 0) == (match spec_tokens(input@, i as int) {
                Some(rest) => Some(view_tokens(toks@) + rest),
                None => None::<Seq<SpecToken>>,
            }),
        decreases input@.len() - i,
    {
        let ghost prev = toks@;
        let c = input[i];
        if c == 32 || c == 9 || c == 10 || c == 13 {
            i += 1;
        } else if c == 43 || c == 42 || c == 44 || c == 40 || c == 41 {
            let t = if c == 43 {
                Token::Plus
            } else if c == 42 {
                Token::Star
            } else if c == 44 {
                Token::Comma
            } else if c == 40 {
                Token::LParen
            } else {
                Token::RParen
            };
            toks.push(t);
            proof {
                assert(view_tokens(toks@) =~= view_tokens(prev) + seq![t@]);
                if spec_tokens(input@, i + 1) is Some {
                    assert((view_tokens(prev) + seq![t@]) + spec_tokens(input@, i + 1).unwrap()
                        =~= view_tokens(prev) + (seq![t@] + spec_tokens(input@, i + 1).unwrap()));
                }
            }
            i += 1;
        } else if (65 <= c && c <= 90) || (97 <= c && c <= 122) || c == 95 {
            let ghost start = i as int;
            let mut name: Vec<u8> = Vec::new();
            let mut j = i;
            while j < input.len() && is_ident_byte(input[j])
                invariant
                    start <= j <= input@.len(),
                    0 <= start < input@.len(),
                    name@ == input@.subrange(start, j as int),
                    spec_ident_end(input@, start) == spec_ident_end(input@, j as int),
                decreases input@.len() - j,
            {
                name.push(input[j]);
                proof {
                    assert(name@ =~= input@.subrange(start, j + 1));
                }
                j += 1;
            }
            proof {
                assert(spec_ident_end(input@, j as int) == j);
                assert(name@ == input@.subrange(start, spec_ident_end(input@, start)));
            }
            let t = Token::Ident(name);
            toks.push(t);
            proof {
                assert(view_tokens(toks@) =~= view_tokens(prev) + seq![t@]);
                if spec_tokens(input@, j as int) is Some {
                    assert((view_tokens(prev) + seq![t@]) + spec_tokens(input@, j as int).unwrap()
                        =~= view_tokens(prev) + (seq![t@] + spec_tokens(
                        input@,
                        j as int,
                    ).unwrap()));
                }
            }
            i = j;
        } else {
            return Err(ParseError { pos: i });
        }
    }
    proof {
        assert(view_tokens(toks@) + Seq::<SpecToken>::empty() =~= view_tokens(toks@));
    }
    Ok(toks)
}

/// The expansion of one expression starting at `pos`, with the position
/// just after it: an additive or multiplicative list form, a
/// parenthesized group, or a bare type name. Nothing on malformed input.
pub open spec fn spec_parse_expr(toks: Seq<SpecToken>, pos: int) -> Option<(SpecExpr, int)>
    decreases toks.len() - pos, 0int,
    when 0 <= pos <= toks.len()
{
    if pos >= toks.len() {
        None
    } else {
        match toks[pos] {
            SpecToken::Plus => spec_parse_list(toks, pos + 1, false, SpecExpr::Zero),
            SpecToken::Star => spec_parse_list(
                toks,
                pos + 1,
                true,
                SpecExpr::Succ(Box::new(SpecExpr::Zero)),
            ),
            SpecToken::LParen => match spec_parse_expr(toks, pos + 1) {
                None => None,
                Some((e, p)) => if p < toks.len() && toks[p] == SpecToken::RParen {
                    Some((e, p + 1))
                } else {
                    None
                },
            },
            SpecToken::Ident(n) => Some((SpecExpr::Name(n), pos + 1)),
            _ => None,
        }
    }
}

/// The left fold of the listed sub-expressions onto the accumulator:
/// under `+` each operand is folded with `Add` (the fold is seeded by
/// the caller with the zero numeral), under `*` with `Mul` (seeded with
/// the numeral one). The list ends at the end of the input, at a closing
/// parenthesis, or after an element without a following comma; a
/// trailing comma is allowed.
pub open spec fn spec_parse_list(toks: Seq<SpecToken>, pos: int, mul: bool, acc: SpecExpr) -> Option<
    (SpecExpr, int),
>
    decreases toks.len() - pos, 1int,
    when 0 <= pos <= toks.len()
{
    if pos >= toks.len() {
        Some((acc, pos))
    } else if toks[pos] == SpecToken::RParen {
        Some((acc, pos))
    } else {
        match spec_parse_expr(toks, pos) {
            None => None,
            Some((e, p)) => {
                // an expression occupies at least one token; bounding the
                // step keeps this definition well-founded
                let p2 = if pos < p <= toks.len() {
                    p
                } else {
                    pos + 1
                };
                let acc2 = if mul {
                    SpecExpr::Mul(Box::new(acc), Box::new(e))
                } else {
                    SpecExpr::Add(Box::new(acc), Box::new(e))
                };
                if p2 >= toks.len() {
                    Some((acc2, p2))
                } else if toks[p2] == SpecToken::Comma {
                    spec_parse_list(toks, p2 + 1, mul, acc2)
                } else {
                    Some((acc2, p2))
                }
            },
        }
    }
}

fn parse_expr(toks: &Vec<Token>, pos: usize) -> (r: Result<(NatExpr, usize), ParseError>)
    requires
        pos <= toks@.len(),
    ensures
        match r {
            Ok((e, p)) => spec_parse_expr(view_tokens(toks@), pos as int) == Some((e@, p as int))
                && pos < p <= toks@.len(),
            Err(_) => spec_parse_expr(view_tokens(toks@), pos as int) is None,
        },
    decreases toks@.len() - pos, 0int,
{
    if pos >= toks.len() {
        return Err(ParseError { pos });
    }
    match &toks[pos] {
        Token::Plus => parse_list(toks, pos + 1, false, NatExpr::Zero),
        Token::Star => parse_list(toks, pos + 1, true, NatExpr::Succ(Box::new(NatExpr::Zero))),
        Token::LParen => {
            match parse_expr(toks, pos + 1) {
                Err(err) => Err(err),
                Ok((e, p)) => {
                    if p < toks.len() {
                        match &toks[p] {
                            Token::RParen => Ok((e, p + 1)),
                            _ => Err(ParseError { pos: p }),
                        }
                    } else {
                        Err(ParseError { pos: p })
                    }
                },
            }
        },
        Token::Ident(n) => Ok((NatExpr::Name(n.clone()), pos + 1)),
        _ => Err(ParseError { pos }),
    }
}

fn parse_list(toks: &Vec<Token>, pos: usize, mul: bool, acc: NatExpr) -> (r: Result<
    (NatExpr, usize),
    ParseError,
>)
    requires
        pos <= toks@.len(),
    ensures
        match r {
            Ok((e, p)) => spec_parse_list(view_tokens(toks@), pos as int, mul, acc@) == Some(
                (e@, p as int),
            ) && pos <= p <= toks@.len(),
            Err(_) => spec_parse_list(view_tokens(toks@), pos as int, mul, acc@) is None,
        },
    decreases toks@.len() - pos, 1int,
{
    if pos >= toks.len() {
        return Ok((acc, pos));
    }
    match &toks[pos] {
        Token::RParen => Ok((acc, pos)),
        _ => {
            match parse_expr(toks, pos) {
                Err(err) => Err(err),
                Ok((e, p)) => {
                    let acc2 = if mul {
                        NatExpr::Mul(Box::new(acc), Box::new(e))
                    } else {
                        NatExpr::Add(Box::new(acc), Box::new(e))
                    };
                    if p >= toks.len() {
                        Ok((acc2, p))
                    } else {
                        match &toks[p] {
                            Token::Comma => parse_list(toks, p + 1, mul, acc2),
                            _ => Ok((acc2, p)),
                        }
                    }
                },
            }
        },
    }
}

/// The expansion the mini-language prescribes for the whole input: its
/// tokens must form exactly one expression.
pub open spec fn spec_expr_output(s: Seq<u8>) -> Option<SpecExpr> {
    match spec_tokens(s, 0) {
        None => None,
        Some(ts) => match spec_parse_expr(ts, 0) {
            None => None,
            Some((e, p)) => if p == ts.len() {
                Some(e)
            } else {
                None
            },
        },
    }
}

/// Expands an expression of the mini-language over numeral types: the
/// additive form `+ e1, e2, ...` folds `Add` over the operands, seeded
/// with the zero numeral; the multiplicative form `* e1, e2, ...` folds
/// `Mul`, seeded with the numeral one; `(e)` groups; a bare type name
/// stands for itself. Malformed input is refused with a diagnostic at
/// the offending place.
pub fn expr(input: &[u8]) -> (r: Result<NatExpr, ParseError>)
    ensures
        match r {
            Ok(e) => spec_expr_output(input@) == Some(e@),
            Err(_) => spec_expr_output(input@) is None,
        },
{
    let toks = match tokenize(input) {
        Ok(t) => t,
        Err(err) => return Err(err),
    };
    match parse_expr(&toks, 0) {
        Err(err) => Err(err),
        Ok((e, p)) => {
            if p == toks.len() {
                Ok(e)
            } else {
                Err(ParseError { pos: p })
            }
        },
    }
}

/// The environment a list of name/value entries stands for; the first
/// entry for a name wins.
pub open spec fn spec_env(entries: Seq<(Vec<u8>, u64)>) -> Map<Seq<u8>, nat>
    decreases entries.len(),
{
    if entries.len() == 0 {
        Map::empty()
    } else {
        spec_env(entries.drop_first()).insert(entries[0].0@, entries[0].1 as nat)
    }
}

/// Every value an entry list binds fits in `u64`.
proof fn lemma_env_values_bounded(entries: Seq<(Vec<u8>, u64)>, name: Seq<u8>)
    requires
        spec_env(entries).contains_key(name),
    ensures
        spec_env(entries)[name] <= u64::MAX,
    decreases entries.len(),
{
    if entries.len() > 0 && name != entries[0].0@ {
        lemma_env_values_bounded(entries.drop_first(), name);
    }
}

/// Whether two byte strings hold the same bytes.
fn bytes_equal(a: &Vec<u8>, b: &Vec<u8>) -> (r: bool)
    ensures
        r == (a@ == b@),
{
    if a.len() != b.len() {
        return false;
    }
    let mut i: usize = 0;
    while i < a.len()
        invariant
            0 <= i <= a@.len(),
            a@.len() == b@.len(),
            forall|k: int| 0 <= k < i ==> a@[k] == b@[k],
        decreases a@.len() - i,
    {
        if a[i] != b[i] {
            return false;
        }
        i += 1;
    }
    proof {
        assert(a@ =~= b@);
    }
    true
}

/// The value the environment binds the name to, if any; the first entry
/// for a name wins.
fn lookup(env: &Vec<(Vec<u8>, u64)>, name: &Vec<u8>) -> (r: Option<u64>)
    ensures
        match r {
            Some(v) => spec_env(env@).contains_key(name@) && spec_env(env@)[name@] == v as nat,
            None => !spec_env(env@).contains_key(name@),
        },
{
    let mut i: usize = 0;
    proof {
        assert(env@.skip(0) =~= env@);
    }
    while i < env.len()
        invariant
            0 <= i <= env@.len(),
            spec_env(env@).contains_key(name@) == spec_env(env@.skip(i as int)).contains_key(
                name@,
            ),
            spec_env(env@).contains_key(name@) ==> spec_env(env@)[name@] == spec_env(
                env@.skip(i as int),
            )[name@],
        decreases env@.len() - i,
    {
        proof {
            assert(env@.skip(i as int).drop_first() =~= env@.skip(i + 1));
            assert(env@.skip(i as int)[0] == env@[i as int]);
        }
        if bytes_equal(&env[i].0, name) {
            return Some(env[i].1);
        }
        i += 1;
    }
    proof {
        assert(env@.skip(env@.len() as int) =~= Seq::<(Vec<u8>, u64)>::empty());
    }
    None
}

/// The value of a numeral type expression as the evaluator computes it:
/// nothing when a name is unbound, or when any intermediate value falls
/// outside `u64`.
pub open spec fn spec_eval_checked(e: SpecExpr, env: Map<Seq<u8>, nat>) -> Option<nat>
    decreases e,
{
    match e {
        SpecExpr::Zero => Some(0),
        SpecExpr::Succ(inner) => match spec_eval_checked(*inner, env) {
            None => None,
            Some(v) => if v + 1 <= u64::MAX {
                Some((v + 1) as nat)
            } else {
                None
            },
        },
        SpecExpr::Add(a, b) => match (spec_eval_checked(*a, env), spec_eval_checked(*b, env)) {
            (Some(va), Some(vb)) => if va + vb <= u64::MAX {
                Some((va + vb) as nat)
            } else {
                None
            },
            _ => None,
        },
        SpecExpr::Mul(a, b) => match (spec_eval_checked(*a, env), spec_eval_checked(*b, env)) {
            (Some(va), Some(vb)) => if va * vb <= u64::MAX {
                Some(va * vb)
            } else {
                None
            },
            _ => None,
        },
        SpecExpr::Name(n) => if env.contains_key(n) && env[n] <= u64::MAX {
            Some(env[n])
        } else {
            None
        },
    }
}

/// Where the evaluator yields a value at all, it is the value the
/// expression stands for.
pub proof fn lemma_eval_checked_matches(e: SpecExpr, env: Map<Seq<u8>, nat>)
    requires
        spec_eval_checked(e, env) is Some,
    ensures
        spec_eval_checked(e, env) == Some(spec_eval(e, env)),
    decreases e,
{
    match e {
        SpecExpr::Zero => {},
        SpecExpr::Succ(inner) => {
            lemma_eval_checked_matches(*inner, env);
        },
        SpecExpr::Add(a, b) => {
            lemma_eval_checked_matches(*a, env);
            lemma_eval_checked_matches(*b, env);
        },
        SpecExpr::Mul(a, b) => {
            lemma_eval_checked_matches(*a, env);
            lemma_eval_checked_matches(*b, env);
        },
        SpecExpr::Name(_) => {},
    }
}

/// Evaluates a numeral type expression under an environment of named
/// values, as the constant value of the expanded numeral would resolve;
/// yields nothing when a name is unbound or a value leaves `u64`.
pub fn eval(e: &NatExpr, env: &Vec<(Vec<u8>, u64)>) -> (r: Option<u64>)
    ensures
        match r {
            Some(v) => spec_eval_checked(e@, spec_env(env@)) == Some(v as nat),
            None => spec_eval_checked(e@, spec_env(env@)) is None,
        },
    decreases *e,
{
    match e {
        NatExpr::Zero => Some(0),
        NatExpr::Succ(inner) => match eval(&**inner, env) {
            None => None,
            Some(v) => v.checked_add(1),
        },
        NatExpr::Add(a, b) => match eval(&**a, env) {
            None => None,
            Some(va) => match eval(&**b, env) {
                None => None,
                Some(vb) => va.checked_add(vb),
            },
        },
        NatExpr::Mul(a, b) => match eval(&**a, env) {
            None => None,
            Some(va) => match eval(&**b, env) {
                None => None,
                Some(vb) => va.checked_mul(vb),
            },
        },
        NatExpr::Name(n) => {
            let r = lookup(env, n);
            proof {
                if spec_env(env@).contains_key(n@) {
                    lemma_env_values_bounded(env@, n@);
                }
            }
            r
        },
    }
}

/// Whether a list form succeeds, and where it ends, does not depend on
/// the seed the fold starts from.
proof fn lemma_parse_list_seed(
    toks: Seq<SpecToken>,
    pos: int,
    mul: bool,
    acc1: SpecExpr,
    acc2: SpecExpr,
)
    requires
        0 <= pos <= toks.len(),
        spec_parse_list(toks, pos, mul, acc1) is Some,
    ensures
        spec_parse_list(toks, pos, mul, acc2) is Some,
        spec_parse_list(toks, pos, mul, acc1).unwrap().1 == spec_parse_list(
            toks,
            pos,
            mul,
            acc2,
        ).unwrap().1,
    decreases toks.len() - pos,
{
    if pos >= toks.len() || toks[pos] == SpecToken::RParen {
    } else {
        let (e, p) = spec_parse_expr(toks, pos).unwrap();
        let p2 = if pos < p <= toks.len() {
            p
        } else {
            pos + 1
        };
        if p2 < toks.len() && toks[p2] == SpecToken::Comma {
            let next1 = if mul {
                SpecExpr::Mul(Box::new(acc1), Box::new(e))
            } else {
                SpecExpr::Add(Box::new(acc1), Box::new(e))
            };
            let next2 = if mul {
                SpecExpr::Mul(Box::new(acc2), Box::new(e))
            } else {
                SpecExpr::Add(Box::new(acc2), Box::new(e))
            };
            lemma_parse_list_seed(toks, p2 + 1, mul, next1, next2);
        }
    }
}

/// The value of the additive list form, from any seed: the result is the
/// seed's value plus the operands' sum, so the fold that `expr` seeds
/// with the zero numeral yields exactly the sum of the operands' values.
pub proof fn lemma_add_list_value(
    toks: Seq<SpecToken>,
    pos: int,
    acc: SpecExpr,
    env: Map<Seq<u8>, nat>,
)
    requires
        0 <= pos <= toks.len(),
        spec_parse_list(toks, pos, false, acc) is Some,
    ensures
        spec_parse_list(toks, pos, false, SpecExpr::Zero) is Some,
        spec_eval(spec_parse_list(toks, pos, false, acc).unwrap().0, env) == spec_eval(acc, env)
            + spec_eval(spec_parse_list(toks, pos, false, SpecExpr::Zero).unwrap().0, env),
    decreases toks.len() - pos,
{
    lemma_parse_list_seed(toks, pos, false, acc, SpecExpr::Zero);
    if pos >= toks.len() || toks[pos] == SpecToken::RParen {
        assert(spec_parse_list(toks, pos, false, acc).unwrap().0 == acc);
        assert(spec_parse_list(toks, pos, false, SpecExpr::Zero).unwrap().0 == SpecExpr::Zero);
        assert(spec_eval(SpecExpr::Zero, env) == 0);
    } else {
        let (e, p) = spec_parse_expr(toks, pos).unwrap();
        let p2 = if pos < p <= toks.len() {
            p
        } else {
            pos + 1
        };
        assert(spec_eval(SpecExpr::Zero, env) == 0);
        if p2 < toks.len() && toks[p2] == SpecToken::Comma {
            let next = SpecExpr::Add(Box::new(acc), Box::new(e));
            let next0 = SpecExpr::Add(Box::new(SpecExpr::Zero), Box::new(e));
            assert(spec_eval(next, env) == spec_eval(acc, env) + spec_eval(e, env));
            assert(spec_eval(next0, env) == spec_eval(e, env));
            lemma_parse_list_seed(toks, p2 + 1, false, next, next0);
            lemma_add_list_value(toks, p2 + 1, next, env);
            lemma_add_list_value(toks, p2 + 1, next0, env);
            assert(spec_parse_list(toks, pos, false, acc) == spec_parse_list(
                toks,
                p2 + 1,
                false,
                next,
            ));
            assert(spec_parse_list(toks, pos, false, SpecExpr::Zero) == spec_parse_list(
                toks,
                p2 + 1,
                false,
                next0,
            ));
        } else {
            assert(spec_parse_list(toks, pos, false, acc).unwrap().0 == SpecExpr::Add(
                Box::new(acc),
                Box::new(e),
            ));
            assert(spec_parse_list(toks, pos, false, SpecExpr::Zero).unwrap().0 == SpecExpr::Add(
                Box::new(SpecExpr::Zero),
                Box::new(e),
            ));
            assert(spec_eval(SpecExpr::Add(Box::new(SpecExpr::Zero), Box::new(e)), env)
                == spec_eval(e, env));
            assert(spec_eval(SpecExpr::Add(Box::new(acc), Box::new(e)), env) == spec_eval(acc, env)
                + spec_eval(e, env));
        }
    }
}

/// The value of the multiplicative list form, from any seed: the result
/// is the seed's value times the operands' product, so the fold that
/// `expr` seeds with the numeral one yields exactly the product of the
/// operands' values.
pub proof fn lemma_mul_list_value(
    toks: Seq<SpecToken>,
    pos: int,
    acc: SpecExpr,
    env: Map<Seq<u8>, nat>,
)
    requires
        0 <= pos <= toks.len(),
        spec_parse_list(toks, pos, true, acc) is Some,
    ensures
        spec_parse_list(toks, pos, true, SpecExpr::Succ(Box::new(SpecExpr::Zero))) is Some,
        spec_eval(spec_parse_list(toks, pos, true, acc).unwrap().0, env) == spec_eval(acc, env)
            * spec_eval(
            spec_parse_list(toks, pos, true, SpecExpr::Succ(Box::new(SpecExpr::Zero))).unwrap().0,
            env,
        ),
    decreases toks.len() - pos,
{
    let one = SpecExpr::Succ(Box::new(SpecExpr::Zero));
    lemma_parse_list_seed(toks, pos, true, acc, one);
    if pos >= toks.len() || toks[pos] == SpecToken::RParen {
        assert(spec_eval(SpecExpr::Zero, env) == 0);
        assert(spec_eval(one, env) == 1);
        assert(spec_eval(acc, env) * 1 == spec_eval(acc, env)) by (nonlinear_arith);
    } else {
        let (e, p) = spec_parse_expr(toks, pos).unwrap();
        let p2 = if pos < p <= toks.len() {
            p
        } else {
            pos + 1
        };
        let a = spec_eval(acc, env);
        let ve = spec_eval(e, env);
        assert(spec_eval(SpecExpr::Zero, env) == 0);
        assert(spec_eval(one, env) == 1);
        if p2 < toks.len() && toks[p2] == SpecToken::Comma {
            let next = SpecExpr::Mul(Box::new(acc), Box::new(e));
            let next1 = SpecExpr::Mul(Box::new(one), Box::new(e));
            assert(spec_eval(next, env) == a * ve);
            assert(spec_eval(next1, env) == 1 * ve);
            lemma_parse_list_seed(toks, p2 + 1, true, next, next1);
            lemma_mul_list_value(toks, p2 + 1, next, env);
            lemma_mul_list_value(toks, p2 + 1, next1, env);
            let rest = spec_eval(spec_parse_list(toks, p2 + 1, true, one).unwrap().0, env);
            assert((a * ve) * rest == a * ((1 * ve) * rest)) by (nonlinear_arith);
        } else {
            assert(spec_parse_list(toks, pos, true, acc).unwrap().0 == SpecExpr::Mul(
                Box::new(acc),
                Box::new(e),
            ));
            assert(spec_parse_list(toks, pos, true, one).unwrap().0 == SpecExpr::Mul(
                Box::new(one),
                Box::new(e),
            ));
            assert(spec_eval(SpecExpr::Mul(Box::new(acc), Box::new(e)), env) == a * ve);
            assert(spec_eval(SpecExpr::Mul(Box::new(one), Box::new(e)), env) == 1 * ve);
            assert(a * (1 * ve) == a * ve) by (nonlinear_arith);
        }
    }
}

/// The expansion of a two-operand additive form — `Add` folded over the
/// operands from the zero numeral, as `expr` emits it — evaluates to the
/// sum of the operands' values, under every environment.
pub proof fn lemma_expr_add_two(a: SpecExpr, b: SpecExpr, env: Map<Seq<u8>, nat>)
    ensures
        spec_eval(
            SpecExpr::Add(
                Box::new(SpecExpr::Add(Box::new(SpecExpr::Zero), Box::new(a))),
                Box::new(b),
            ),
            env,
        ) == spec_eval(a, env) + spec_eval(b, env),
{
    assert(spec_eval(SpecExpr::Zero, env) == 0);
    assert(spec_eval(SpecExpr::Add(Box::new(SpecExpr::Zero), Box::new(a)), env) == spec_eval(
        a,
        env,
    ));
}

/// The expansion of a two-operand multiplicative form — `Mul` folded
/// over the operands from the numeral one, as `expr` emits it —
/// evaluates to the product of the operands' values, under every
/// environment.
pub proof fn lemma_expr_mul_two(a: SpecExpr, b: SpecExpr, env: Map<Seq<u8>, nat>)
    ensures
        spec_eval(
            SpecExpr::Mul(
                Box::new(
                    SpecExpr::Mul(
                        Box::new(SpecExpr::Succ(Box::new(SpecExpr::Zero))),
                        Box::new(a),
                    ),
                ),
                Box::new(b),
            ),
            env,
        ) == spec_eval(a, env) * spec_eval(b, env),
{
    let one = SpecExpr::Succ(Box::new(SpecExpr::Zero));
    assert(spec_eval(SpecExpr::Zero, env) == 0);
    assert(spec_eval(one, env) == 1);
    assert(spec_eval(SpecExpr::Mul(Box::new(one), Box::new(a)), env) == 1 * spec_eval(a, env));
    assert((1 * spec_eval(a, env)) * spec_eval(b, env) == spec_eval(a, env) * spec_eval(b, env))
        by (nonlinear_arith);
}

} // verus!
