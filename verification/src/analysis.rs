//! Export analysis for JavaScript source text.
//!
//! The analyzer works on a statement-level grammar — a deliberate subset
//! of JavaScript that covers what a lambda module's top level declares and
//! exports:
//!
//! - `function f(a, b) { ... }` declarations, generators included; the body
//!   is any brace-balanced text, where braces inside string literals (`"`,
//!   `'` or backquote, with backslash escapes) and inside comments do not
//!   count, and is not otherwise validated;
//! - `const`/`let`/`var` statements with one or more comma-separated
//!   declarators, each optionally initialized with a number (with optional
//!   decimal part), a string literal, an object literal, a function or
//!   arrow literal, or an identifier;
//! - `export` in front of either of those;
//! - `export default` of a function literal, an arrow function (possibly
//!   parenthesized), a number, a string literal or an identifier — a
//!   non-callable default contributes no export, consistently with
//!   non-function bindings in export lists;
//! - named export lists `export { a, b as c };`;
//! - semicolons, whitespace, and line (`//`) and block (`/* */`) comments
//!   between statements; an unterminated block comment runs to the end of
//!   the input.
//!
//! Anything outside this subset — for example top-level expression
//! statements, destructuring, or imports — is reported as invalid syntax;
//! and because function bodies are only scanned for balance, some texts
//! that full JavaScript would reject are accepted.  The invalid-syntax
//! classification is exact relative to this grammar, not to full
//! JavaScript.  A source inside the subset is parsed into a sequence of
//! statements whose export-causing statements are then resolved, in
//! textual order, into an ordered list of exported names.
//!
//! Every executable function here is verified against a specification-level
//! model of the same grammar: the `sp_*` spec functions define what is parsed,
//! and the analysis spec functions (`walk`, `step`, `resolve_item`, ...)
//! define which names an analyzed program exports.
use vstd::prelude::*;

verus! {

/// Why analysis of a source text failed.
#[derive(Clone, Copy, Debug, PartialEq, Eq, Structural)]
pub enum AnalysisError {
    /// The text does not belong to the supported grammar.
    InvalidSyntax,
    /// An exported function takes one or more parameters.
    ExportHasParameters,
    /// An exported function is a generator.
    ExportIsGenerator,
}

impl AnalysisError {
    /// The stable message for this error kind.
    pub fn message(&self) -> (r: &'static str)
        ensures
            *self == AnalysisError::InvalidSyntax ==> r@ == "Invalid JavaScript"@,
            *self == AnalysisError::ExportHasParameters ==> r@
                == "Exported functions with parameters are not supported"@,
            *self == AnalysisError::ExportIsGenerator ==> r@
                == "Exported generators are not supported"@,
    {
        match self {
            AnalysisError::InvalidSyntax => "Invalid JavaScript",
            AnalysisError::ExportHasParameters => {
                "Exported functions with parameters are not supported"
            },
            AnalysisError::ExportIsGenerator => "Exported generators are not supported",
        }
    }
}

// ---------------------------------------------------------------------------
// Statements
// ---------------------------------------------------------------------------

/// One entry of a named export list, at the specification level.
pub ghost struct ExportItemView {
    /// The local binding that is referenced.
    pub local: Seq<char>,
    /// The name under which it is exported (equal to `local` when no rename).
    pub exported: Seq<char>,
}

/// A top-level statement, at the specification level.
pub ghost enum StmtView {
    /// `function f(a, b) { ... }`
    FuncDecl { name: Seq<char>, params: int, generator: bool },
    /// `const x = 1;`, `let x;`, `var x = y;`
    VarDecl { name: Seq<char> },
    /// `export function f() { ... }`
    ExportFunc { name: Seq<char>, params: int, generator: bool },
    /// `export const x = 1;`
    ExportVar { name: Seq<char> },
    /// `export default <expr>`
    ExportDefault { callable: bool, params: int, generator: bool },
    /// `export { a, b as c };`
    ExportList { items: Seq<ExportItemView> },
}

/// One entry of a named export list.
pub struct ExportItem {
    pub local: Vec<char>,
    pub exported: Vec<char>,
}

impl View for ExportItem {
    type V = ExportItemView;

    open spec fn view(&self) -> ExportItemView {
        ExportItemView { local: self.local@, exported: self.exported@ }
    }
}

impl DeepView for ExportItem {
    type V = ExportItemView;

    open spec fn deep_view(&self) -> ExportItemView {
        self@
    }
}

/// A top-level statement.
pub enum Stmt {
    FuncDecl { name: Vec<char>, params: usize, generator: bool },
    VarDecl { name: Vec<char> },
    ExportFunc { name: Vec<char>, params: usize, generator: bool },
    ExportVar { name: Vec<char> },
    ExportDefault { callable: bool, params: usize, generator: bool },
    ExportList { items: Vec<ExportItem> },
}

impl View for Stmt {
    type V = StmtView;

    open spec fn view(&self) -> StmtView {
        match self {
            Stmt::FuncDecl { name, params, generator } => StmtView::FuncDecl {
                name: name@,
                params: *params as int,
                generator: *generator,
            },
            Stmt::VarDecl { name } => StmtView::VarDecl { name: name@ },
            Stmt::ExportFunc { name, params, generator } => StmtView::ExportFunc {
                name: name@,
                params: *params as int,
                generator: *generator,
            },
            Stmt::ExportVar { name } => StmtView::ExportVar { name: name@ },
            Stmt::ExportDefault { callable, params, generator } => StmtView::ExportDefault {
                callable: *callable,
                params: *params as int,
                generator: *generator,
            },
            Stmt::ExportList { items } => StmtView::ExportList { items: items.deep_view() },
        }
    }
}

impl DeepView for Stmt {
    type V = StmtView;

    open spec fn deep_view(&self) -> StmtView {
        self@
    }
}

/// The head of a function literal: optional name, parameter count, generator flag.
pub ghost struct FuncSigView {
    pub name: Option<Seq<char>>,
    pub params: int,
    pub generator: bool,
}

/// The shape of an `export default` expression.
pub ghost struct DefaultView {
    pub callable: bool,
    pub params: int,
    pub generator: bool,
}

/// Executable counterpart of [`DefaultView`].
pub struct DefaultShape {
    pub callable: bool,
    pub params: usize,
    pub generator: bool,
}

impl View for DefaultShape {
    type V = DefaultView;

    open spec fn view(&self) -> DefaultView {
        DefaultView { callable: self.callable, params: self.params as int, generator: self.generator }
    }
}

/// Executable counterpart of [`FuncSigView`].
pub struct FuncSig {
    pub name: Option<Vec<char>>,
    pub params: usize,
    pub generator: bool,
}

impl View for FuncSig {
    type V = FuncSigView;

    open spec fn view(&self) -> FuncSigView {
        FuncSigView {
            name: match &self.name {
                Some(n) => Some(n@),
                None => None,
            },
            params: self.params as int,
            generator: self.generator,
        }
    }
}

// ---------------------------------------------------------------------------
// Character classes
// ---------------------------------------------------------------------------

/// Whitespace accepted between tokens.
pub open spec fn is_ws_char(c: char) -> bool {
    c == ' ' || c == '\n' || c == '\t' || c == '\r'
}

/// Characters that may start an identifier.
pub open spec fn is_ident_start_char(c: char) -> bool {
    ('a' as u32) <= (c as u32) && (c as u32) <= ('z' as u32) || ('A' as u32) <= (c as u32) && (
    c as u32) <= ('Z' as u32) || c == '_' || c == '$'
}

/// Decimal digits.
pub open spec fn is_digit_char(c: char) -> bool {
    ('0' as u32) <= (c as u32) && (c as u32) <= ('9' as u32)
}

/// Characters that may continue an identifier.
pub open spec fn is_ident_char(c: char) -> bool {
    is_ident_start_char(c) || is_digit_char(c)
}

fn ws_char(c: char) -> (r: bool)
    ensures
        r == is_ws_char(c),
{
    c == ' ' || c == '\n' || c == '\t' || c == '\r'
}

fn ident_start_char(c: char) -> (r: bool)
    ensures
        r == is_ident_start_char(c),
{
    let u = c as u32;
    ('a' as u32) <= u && u <= ('z' as u32) || ('A' as u32) <= u && u <= ('Z' as u32) || c == '_'
        || c == '$'
}

fn digit_char(c: char) -> (r: bool)
    ensures
        r == is_digit_char(c),
{
    let u = c as u32;
    ('0' as u32) <= u && u <= ('9' as u32)
}

fn ident_char(c: char) -> (r: bool)
    ensures
        r == is_ident_char(c),
{
    ident_start_char(c) || digit_char(c)
}

// ---------------------------------------------------------------------------
// Scanning primitives
// ---------------------------------------------------------------------------

/// Characters that open a string literal.
pub open spec fn is_quote_char(c: char) -> bool {
    c == '"' || c == '\'' || c == '`'
}

/// Index of the newline ending the line that position `i` lies on, or the
/// end of the text.
pub open spec fn line_end(s: Seq<char>, i: int) -> int
    decreases s.len() - i,
{
    if i < 0 || i >= s.len() {
        s.len() as int
    } else if s[i] == '\n' {
        i
    } else {
        line_end(s, i + 1)
    }
}

/// Index just past the `*/` that closes a block comment whose body starts
/// at `i`; an unterminated comment runs to the end of the text.
pub open spec fn block_comment_end(s: Seq<char>, i: int) -> int
    decreases s.len() - i,
{
    if i < 0 || i >= s.len() {
        s.len() as int
    } else if s[i] == '*' && i + 1 < s.len() && s[i + 1] == '/' {
        i + 2
    } else {
        block_comment_end(s, i + 1)
    }
}

/// Index just past the quote closing a string literal whose body starts at
/// `i`; backslash escapes are skipped; an unterminated literal is an error.
pub open spec fn string_end(s: Seq<char>, i: int, quote: char) -> Option<int>
    decreases s.len() - i,
{
    if i < 0 || i >= s.len() {
        None
    } else if s[i] == '\\' {
        if i + 2 <= s.len() {
            string_end(s, i + 2, quote)
        } else {
            None
        }
    } else if s[i] == quote {
        Some(i + 1)
    } else {
        string_end(s, i + 1, quote)
    }
}

/// Index of the first character at or after `i` that belongs neither to
/// whitespace nor to a line or block comment.
pub open spec fn skip_ws(s: Seq<char>, i: int) -> int
    decreases s.len() - i,
{
    if 0 <= i && i < s.len() && is_ws_char(s[i]) {
        skip_ws(s, i + 1)
    } else if 0 <= i && i < s.len() && i + 1 < s.len() && s[i] == '/' && s[i + 1] == '/' {
        let j = line_end(s, i + 2);
        if j > i && j <= s.len() {
            skip_ws(s, j)
        } else {
            i
        }
    } else if 0 <= i && i < s.len() && i + 1 < s.len() && s[i] == '/' && s[i + 1] == '*' {
        let j = block_comment_end(s, i + 2);
        if j > i && j <= s.len() {
            skip_ws(s, j)
        } else {
            i
        }
    } else {
        i
    }
}

/// Index just past the identifier characters starting at `i`.
pub open spec fn ident_end(s: Seq<char>, i: int) -> int
    decreases s.len() - i,
{
    if 0 <= i && i < s.len() && is_ident_char(s[i]) {
        ident_end(s, i + 1)
    } else {
        i
    }
}

/// Index just past the digits starting at `i`.
pub open spec fn digits_end(s: Seq<char>, i: int) -> int
    decreases s.len() - i,
{
    if 0 <= i && i < s.len() && is_digit_char(s[i]) {
        digits_end(s, i + 1)
    } else {
        i
    }
}

fn quote_char(c: char) -> (r: bool)
    ensures
        r == is_quote_char(c),
{
    c == '"' || c == '\'' || c == '`'
}

fn line_end_x(s: &Vec<char>, i: usize) -> (r: usize)
    requires
        i <= s.len(),
    ensures
        r as int == line_end(s@, i as int),
        i <= r && r <= s.len(),
    decreases s.len() - i,
{
    if i >= s.len() {
        s.len()
    } else if s[i] == '\n' {
        i
    } else {
        line_end_x(s, i + 1)
    }
}

fn block_comment_end_x(s: &Vec<char>, i: usize) -> (r: usize)
    requires
        i <= s.len(),
    ensures
        r as int == block_comment_end(s@, i as int),
        i <= r && r <= s.len(),
    decreases s.len() - i,
{
    if i >= s.len() {
        s.len()
    } else if s[i] == '*' && i + 1 < s.len() && s[i + 1] == '/' {
        i + 2
    } else {
        block_comment_end_x(s, i + 1)
    }
}

fn string_end_x(s: &Vec<char>, i: usize, quote: char) -> (r: Option<usize>)
    requires
        i <= s.len(),
    ensures
        match r {
            Some(j) => string_end(s@, i as int, quote) == Some(j as int) && i <= j && j <= s.len(),
            None => string_end(s@, i as int, quote) is None,
        },
    decreases s.len() - i,
{
    if i >= s.len() {
        None
    } else if s[i] == '\\' {
        if i + 1 < s.len() {
            string_end_x(s, i + 2, quote)
        } else {
            None
        }
    } else if s[i] == quote {
        Some(i + 1)
    } else {
        string_end_x(s, i + 1, quote)
    }
}

fn skip_ws_x(s: &Vec<char>, i: usize) -> (r: usize)
    requires
        i <= s.len(),
    ensures
        r as int == skip_ws(s@, i as int),
        i <= r && r <= s.len(),
    decreases s.len() - i,
{
    if i < s.len() && ws_char(s[i]) {
        skip_ws_x(s, i + 1)
    } else if i < s.len() && i + 1 < s.len() && s[i] == '/' && s[i + 1] == '/' {
        let j = line_end_x(s, i + 2);
        if j > i && j <= s.len() {
            skip_ws_x(s, j)
        } else {
            i
        }
    } else if i < s.len() && i + 1 < s.len() && s[i] == '/' && s[i + 1] == '*' {
        let j = block_comment_end_x(s, i + 2);
        if j > i && j <= s.len() {
            skip_ws_x(s, j)
        } else {
            i
        }
    } else {
        i
    }
}

fn ident_end_x(s: &Vec<char>, i: usize) -> (r: usize)
    requires
        i <= s.len(),
    ensures
        r as int == ident_end(s@, i as int),
        i <= r && r <= s.len(),
    decreases s.len() - i,
{
    if i < s.len() && ident_char(s[i]) {
        ident_end_x(s, i + 1)
    } else {
        i
    }
}

fn digits_end_x(s: &Vec<char>, i: usize) -> (r: usize)
    requires
        i <= s.len(),
    ensures
        r as int == digits_end(s@, i as int),
        i <= r && r <= s.len(),
    decreases s.len() - i,
{
    if i < s.len() && digit_char(s[i]) {
        digits_end_x(s, i + 1)
    } else {
        i
    }
}

/// Copies the characters of `s` between `i` and `j`.
fn subvec(s: &Vec<char>, i: usize, j: usize) -> (r: Vec<char>)
    requires
        i <= j && j <= s.len(),
    ensures
        r@ == s@.subrange(i as int, j as int),
{
    let mut r: Vec<char> = Vec::new();
    let mut k: usize = i;
    proof {
        assert(r@ =~= s@.subrange(i as int, i as int));
    }
    while k < j
        invariant
            i <= k && k <= j && j <= s.len(),
            r@ == s@.subrange(i as int, k as int),
        decreases j - k,
    {
        r.push(s[k]);
        proof {
            assert(r@ =~= s@.subrange(i as int, (k + 1) as int));
        }
        k += 1;
    }
    r
}

/// Compares a scanned word against a keyword literal.
fn str_eq_chars(w: &Vec<char>, kw: &str) -> (r: bool)
    ensures
        r == (w@ == kw@),
{
    let n = kw.unicode_len();
    if w.len() != n {
        proof {
            if w@ == kw@ {
                assert(w@.len() == kw@.len());
            }
        }
        return false;
    }
    let mut i: usize = 0;
    while i < n
        invariant
            i <= n,
            n == kw@.len(),
            w@.len() == n,
            forall|m: int| 0 <= m < i ==> w@[m] == kw@[m],
        decreases n - i,
    {
        if w[i] != kw.get_char(i) {
            proof {
                if w@ == kw@ {
                    assert(w@[i as int] == kw@[i as int]);
                }
            }
            return false;
        }
        i += 1;
    }
    proof {
        assert(w@ =~= kw@);
    }
    true
}

// ---------------------------------------------------------------------------
// Specification-level parser
// ---------------------------------------------------------------------------

/// An identifier-shaped word at `i` (no leading whitespace skip).
pub open spec fn sp_word(s: Seq<char>, i: int) -> Option<(Seq<char>, int)> {
    if 0 <= i && i < s.len() && is_ident_start_char(s[i]) {
        let j = ident_end(s, i);
        Some((s.subrange(i, j), j))
    } else {
        None
    }
}

/// A parenthesized parameter list starting at the next non-whitespace
/// character; yields the number of parameters.
pub open spec fn sp_params(s: Seq<char>, i: int) -> Option<(int, int)> {
    let i1 = skip_ws(s, i);
    if i1 < s.len() && s[i1] == '(' {
        let i2 = skip_ws(s, i1 + 1);
        if i2 < s.len() && s[i2] == ')' {
            Some((0, i2 + 1))
        } else {
            match sp_word(s, i2) {
                None => None,
                Some((w, j)) => if j > i2 {
                    sp_params_rest(s, j, 1)
                } else {
                    None
                },
            }
        }
    } else {
        None
    }
}

/// The remainder of a parameter list after `count` parameters.
pub open spec fn sp_params_rest(s: Seq<char>, i: int, count: int) -> Option<(int, int)>
    decreases s.len() - i,
{
    let i1 = skip_ws(s, i);
    if i1 < s.len() && s[i1] == ')' {
        Some((count, i1 + 1))
    } else if i1 < s.len() && s[i1] == ',' {
        let i2 = skip_ws(s, i1 + 1);
        match sp_word(s, i2) {
            None => None,
            Some((w, j)) => if j > i && j <= s.len() {
                sp_params_rest(s, j, count + 1)
            } else {
                None
            },
        }
    } else {
        None
    }
}

/// A brace-balanced block starting at the next non-whitespace character;
/// yields the index just past the closing brace.
pub open spec fn sp_block(s: Seq<char>, i: int) -> Option<int> {
    let i1 = skip_ws(s, i);
    if i1 < s.len() && s[i1] == '{' {
        sp_block_rest(s, i1 + 1, 1)
    } else {
        None
    }
}

/// Skips to the brace that closes `depth` open braces.  Braces inside
/// string literals and comments do not count; an unterminated string
/// literal is an error.
pub open spec fn sp_block_rest(s: Seq<char>, i: int, depth: int) -> Option<int>
    decreases s.len() - i,
{
    if i < 0 || i >= s.len() {
        None
    } else if s[i] == '{' {
        sp_block_rest(s, i + 1, depth + 1)
    } else if s[i] == '}' {
        if depth == 1 {
            Some(i + 1)
        } else {
            sp_block_rest(s, i + 1, depth - 1)
        }
    } else if is_quote_char(s[i]) {
        match string_end(s, i + 1, s[i]) {
            None => None,
            Some(j) => if j > i && j <= s.len() {
                sp_block_rest(s, j, depth)
            } else {
                None
            },
        }
    } else if s[i] == '/' && i + 1 < s.len() && s[i + 1] == '/' {
        let j = line_end(s, i + 2);
        if j > i && j <= s.len() {
            sp_block_rest(s, j, depth)
        } else {
            None
        }
    } else if s[i] == '/' && i + 1 < s.len() && s[i + 1] == '*' {
        let j = block_comment_end(s, i + 2);
        if j > i && j <= s.len() {
            sp_block_rest(s, j, depth)
        } else {
            None
        }
    } else {
        sp_block_rest(s, i + 1, depth)
    }
}

/// The tail of a function literal, after the `function` keyword.
pub open spec fn sp_function_rest(s: Seq<char>, i: int) -> Option<(FuncSigView, int)> {
    let i1 = skip_ws(s, i);
    let gen = i1 < s.len() && s[i1] == '*';
    let i2 = if gen {
        skip_ws(s, i1 + 1)
    } else {
        i1
    };
    let named = sp_word(s, i2);
    let name = match named {
        Some((w, j)) => Some(w),
        None => None,
    };
    let i3 = match named {
        Some((w, j)) => j,
        None => i2,
    };
    match sp_params(s, i3) {
        None => None,
        Some((p, i4)) => match sp_block(s, i4) {
            None => None,
            Some(i5) => Some((FuncSigView { name, params: p, generator: gen }, i5)),
        },
    }
}

/// Index just past a number literal: digits with an optional decimal part.
pub open spec fn number_end(s: Seq<char>, i: int) -> int {
    let j = digits_end(s, i);
    if j < s.len() && s[j] == '.' && j + 1 < s.len() && is_digit_char(s[j + 1]) {
        digits_end(s, j + 1)
    } else {
        j
    }
}

/// A binding initializer expression: a number, a string literal, an object
/// literal, a function literal, an arrow function, or an identifier.
pub open spec fn sp_init_expr(s: Seq<char>, i: int) -> Option<int> {
    let i1 = skip_ws(s, i);
    if i1 < s.len() && is_digit_char(s[i1]) {
        Some(number_end(s, i1))
    } else if i1 < s.len() && is_quote_char(s[i1]) {
        string_end(s, i1 + 1, s[i1])
    } else if i1 < s.len() && s[i1] == '(' {
        match sp_arrow(s, i1) {
            Some((d, j)) => Some(j),
            None => None,
        }
    } else if i1 < s.len() && s[i1] == '{' {
        sp_block_rest(s, i1 + 1, 1)
    } else {
        match sp_word(s, i1) {
            Some((w, j)) => if w == "function"@ {
                match sp_function_rest(s, j) {
                    Some((f, k)) => Some(k),
                    None => None,
                }
            } else {
                Some(j)
            },
            None => None,
        }
    }
}

/// The rest of a declarator after its name: an optional initializer, then
/// any further comma-separated declarators.
pub open spec fn sp_var_decl_tail(s: Seq<char>, i: int) -> Option<int>
    decreases s.len() - i,
{
    let k = skip_ws(s, i);
    let after_init = if k < s.len() && s[k] == '=' {
        sp_init_expr(s, k + 1)
    } else {
        Some(i)
    };
    match after_init {
        None => None,
        Some(m) => {
            let m1 = skip_ws(s, m);
            if m1 < s.len() && s[m1] == ',' {
                let m2 = skip_ws(s, m1 + 1);
                match sp_word(s, m2) {
                    None => None,
                    Some((nm, j)) => if j > i && j <= s.len() {
                        sp_var_decl_tail(s, j)
                    } else {
                        None
                    },
                }
            } else {
                Some(m)
            }
        },
    }
}

/// The tail of a `const`/`let`/`var` statement, after the keyword; the
/// statement's first bound name stands for it (the analysis never reads the
/// names of non-function bindings).
pub open spec fn sp_var_rest(s: Seq<char>, i: int) -> Option<(Seq<char>, int)> {
    let i1 = skip_ws(s, i);
    match sp_word(s, i1) {
        None => None,
        Some((name, j)) => match sp_var_decl_tail(s, j) {
            None => None,
            Some(m) => Some((name, m)),
        },
    }
}

/// One entry of a named export list: `local` or `local as exported`.
pub open spec fn sp_export_item(s: Seq<char>, i: int) -> Option<(ExportItemView, int)> {
    match sp_word(s, i) {
        None => None,
        Some((local, j)) => {
            let k = skip_ws(s, j);
            match sp_word(s, k) {
                Some((w, m)) => if w == "as"@ {
                    let k2 = skip_ws(s, m);
                    match sp_word(s, k2) {
                        None => None,
                        Some((exported, n)) => Some((ExportItemView { local, exported }, n)),
                    }
                } else {
                    Some((ExportItemView { local, exported: local }, j))
                },
                None => Some((ExportItemView { local, exported: local }, j)),
            }
        },
    }
}

/// A named export list; `i` is at the opening brace.
pub open spec fn sp_export_list(s: Seq<char>, i: int) -> Option<(Seq<ExportItemView>, int)> {
    let i1 = skip_ws(s, i + 1);
    if i1 < s.len() && s[i1] == '}' {
        Some((Seq::empty(), i1 + 1))
    } else {
        match sp_export_item(s, i1) {
            None => None,
            Some((it, j)) => if j > i && j <= s.len() {
                sp_export_list_rest(s, j, seq![it])
            } else {
                None
            },
        }
    }
}

/// The remainder of a named export list after at least one entry.
pub open spec fn sp_export_list_rest(s: Seq<char>, i: int, acc: Seq<ExportItemView>) -> Option<
    (Seq<ExportItemView>, int),
>
    decreases s.len() - i,
{
    let i1 = skip_ws(s, i);
    if i1 < s.len() && s[i1] == '}' {
        Some((acc, i1 + 1))
    } else if i1 < s.len() && s[i1] == ',' {
        let i2 = skip_ws(s, i1 + 1);
        match sp_export_item(s, i2) {
            None => None,
            Some((it, j)) => if j > i && j <= s.len() {
                sp_export_list_rest(s, j, acc.push(it))
            } else {
                None
            },
        }
    } else {
        None
    }
}

/// An arrow function literal; `i` is at the opening parenthesis.
pub open spec fn sp_arrow(s: Seq<char>, i: int) -> Option<(DefaultView, int)> {
    match sp_params(s, i) {
        None => None,
        Some((p, j)) => {
            let k = skip_ws(s, j);
            if k + 1 < s.len() && s[k] == '=' && s[k + 1] == '>' {
                match sp_block(s, k + 2) {
                    None => None,
                    Some(m) => Some((DefaultView { callable: true, params: p, generator: false }, m)),
                }
            } else {
                None
            }
        },
    }
}

/// The expression of an `export default` statement: a function literal, an
/// arrow function, a parenthesized default expression, a number or an
/// identifier.
pub open spec fn sp_default_expr(s: Seq<char>, i: int) -> Option<(DefaultView, int)>
    decreases s.len() - i,
{
    let i1 = skip_ws(s, i);
    if i1 >= s.len() {
        None
    } else {
        match sp_word(s, i1) {
            Some((w, j)) => if w == "function"@ {
                match sp_function_rest(s, j) {
                    None => None,
                    Some((f, k)) => Some(
                        (DefaultView { callable: true, params: f.params, generator: f.generator }, k),
                    ),
                }
            } else {
                Some((DefaultView { callable: false, params: 0, generator: false }, j))
            },
            None => if is_digit_char(s[i1]) {
                Some((DefaultView { callable: false, params: 0, generator: false }, number_end(s, i1)))
            } else if is_quote_char(s[i1]) {
                match string_end(s, i1 + 1, s[i1]) {
                    None => None,
                    Some(j) => Some((DefaultView { callable: false, params: 0, generator: false }, j)),
                }
            } else if s[i1] == '(' {
                match sp_arrow(s, i1) {
                    Some((d, j)) => Some((d, j)),
                    None => if i1 + 1 > i {
                        match sp_default_expr(s, i1 + 1) {
                            None => None,
                            Some((d, j)) => {
                                let k = skip_ws(s, j);
                                if k < s.len() && s[k] == ')' {
                                    Some((d, k + 1))
                                } else {
                                    None
                                }
                            },
                        }
                    } else {
                        None
                    },
                }
            } else {
                None
            },
        }
    }
}

/// An `export` statement, after the `export` keyword.
pub open spec fn sp_export_stmt(s: Seq<char>, i: int) -> Option<(StmtView, int)> {
    let i1 = skip_ws(s, i);
    if i1 < s.len() && s[i1] == '{' {
        match sp_export_list(s, i1) {
            None => None,
            Some((items, j)) => Some((StmtView::ExportList { items }, j)),
        }
    } else {
        match sp_word(s, i1) {
            None => None,
            Some((w, j)) => if w == "function"@ {
                match sp_function_rest(s, j) {
                    None => None,
                    Some((f, k)) => match f.name {
                        None => None,
                        Some(nm) => Some(
                            (
                                StmtView::ExportFunc {
                                    name: nm,
                                    params: f.params,
                                    generator: f.generator,
                                },
                                k,
                            ),
                        ),
                    },
                }
            } else if w == "const"@ || w == "let"@ || w == "var"@ {
                match sp_var_rest(s, j) {
                    None => None,
                    Some((nm, k)) => Some((StmtView::ExportVar { name: nm }, k)),
                }
            } else if w == "default"@ {
                match sp_default_expr(s, j) {
                    None => None,
                    Some((d, k)) => Some(
                        (
                            StmtView::ExportDefault {
                                callable: d.callable,
                                params: d.params,
                                generator: d.generator,
                            },
                            k,
                        ),
                    ),
                }
            } else {
                None
            },
        }
    }
}

/// A single top-level statement; `i` is at its first character.
pub open spec fn sp_stmt(s: Seq<char>, i: int) -> Option<(StmtView, int)> {
    match sp_word(s, i) {
        None => None,
        Some((w, j)) => if w == "function"@ {
            match sp_function_rest(s, j) {
                None => None,
                Some((f, k)) => match f.name {
                    None => None,
                    Some(nm) => Some(
                        (StmtView::FuncDecl { name: nm, params: f.params, generator: f.generator }, k),
                    ),
                },
            }
        } else if w == "const"@ || w == "let"@ || w == "var"@ {
            match sp_var_rest(s, j) {
                None => None,
                Some((nm, k)) => Some((StmtView::VarDecl { name: nm }, k)),
            }
        } else if w == "export"@ {
            sp_export_stmt(s, j)
        } else {
            None
        },
    }
}

/// The statements of a program from position `i` on; `None` on a syntax
/// error.
pub open spec fn sp_program(s: Seq<char>, i: int) -> Option<Seq<StmtView>>
    decreases s.len() - i,
{
    let i1 = skip_ws(s, i);
    if i1 >= s.len() {
        Some(Seq::empty())
    } else if s[i1] == ';' {
        if i1 + 1 > i {
            sp_program(s, i1 + 1)
        } else {
            None
        }
    } else {
        match sp_stmt(s, i1) {
            None => None,
            Some((st, j)) => if j > i && j <= s.len() {
                match sp_program(s, j) {
                    None => None,
                    Some(rest) => Some(seq![st] + rest),
                }
            } else {
                None
            },
        }
    }
}

/// The statement-level model of a whole source text.
pub open spec fn parse_program(s: Seq<char>) -> Option<Seq<StmtView>> {
    sp_program(s, 0)
}

// ---------------------------------------------------------------------------
// Executable parser
// ---------------------------------------------------------------------------

fn p_word(s: &Vec<char>, i: usize) -> (r: Option<(Vec<char>, usize)>)
    requires
        i <= s.len(),
    ensures
        match r {
            Some(p) => sp_word(s@, i as int) == Some((p.0@, p.1 as int)) && i <= p.1 && p.1
                <= s.len(),
            None => sp_word(s@, i as int) is None,
        },
{
    if i < s.len() && ident_start_char(s[i]) {
        let j = ident_end_x(s, i);
        let w = subvec(s, i, j);
        Some((w, j))
    } else {
        None
    }
}

fn p_params_rest(s: &Vec<char>, i: usize, count: usize) -> (r: Option<(usize, usize)>)
    requires
        i <= s.len(),
        count <= i,
    ensures
        match r {
            Some(p) => sp_params_rest(s@, i as int, count as int) == Some(
                (p.0 as int, p.1 as int),
            ) && p.1 <= s.len(),
            None => sp_params_rest(s@, i as int, count as int) is None,
        },
    decreases s.len() - i,
{
    let i1 = skip_ws_x(s, i);
    if i1 < s.len() && s[i1] == ')' {
        Some((count, i1 + 1))
    } else if i1 < s.len() && s[i1] == ',' {
        let i2 = skip_ws_x(s, i1 + 1);
        match p_word(s, i2) {
            None => None,
            Some((w, j)) => if j > i && j <= s.len() {
                p_params_rest(s, j, count + 1)
            } else {
                None
            },
        }
    } else {
        None
    }
}

fn p_params(s: &Vec<char>, i: usize) -> (r: Option<(usize, usize)>)
    requires
        i <= s.len(),
    ensures
        match r {
            Some(p) => sp_params(s@, i as int) == Some((p.0 as int, p.1 as int)) && p.1 <= s.len(),
            None => sp_params(s@, i as int) is None,
        },
{
    let i1 = skip_ws_x(s, i);
    if i1 < s.len() && s[i1] == '(' {
        let i2 = skip_ws_x(s, i1 + 1);
        if i2 < s.len() && s[i2] == ')' {
            Some((0, i2 + 1))
        } else {
            match p_word(s, i2) {
                None => None,
                Some((w, j)) => if j > i2 {
                    p_params_rest(s, j, 1)
                } else {
                    None
                },
            }
        }
    } else {
        None
    }
}

fn p_block_rest(s: &Vec<char>, i: usize, depth: usize) -> (r: Option<usize>)
    requires
        i <= s.len(),
        1 <= depth && depth <= i,
    ensures
        match r {
            Some(j) => sp_block_rest(s@, i as int, depth as int) == Some(j as int) && j <= s.len(),
            None => sp_block_rest(s@, i as int, depth as int) is None,
        },
    decreases s.len() - i,
{
    if i >= s.len() {
        None
    } else if s[i] == '{' {
        p_block_rest(s, i + 1, depth + 1)
    } else if s[i] == '}' {
        if depth == 1 {
            Some(i + 1)
        } else {
            p_block_rest(s, i + 1, depth - 1)
        }
    } else if quote_char(s[i]) {
        match string_end_x(s, i + 1, s[i]) {
            None => None,
            Some(j) => if j > i && j <= s.len() {
                p_block_rest(s, j, depth)
            } else {
                None
            },
        }
    } else if s[i] == '/' && i + 1 < s.len() && s[i + 1] == '/' {
        let j = line_end_x(s, i + 2);
        if j > i && j <= s.len() {
            p_block_rest(s, j, depth)
        } else {
            None
        }
    } else if s[i] == '/' && i + 1 < s.len() && s[i + 1] == '*' {
        let j = block_comment_end_x(s, i + 2);
        if j > i && j <= s.len() {
            p_block_rest(s, j, depth)
        } else {
            None
        }
    } else {
        p_block_rest(s, i + 1, depth)
    }
}

fn p_block(s: &Vec<char>, i: usize) -> (r: Option<usize>)
    requires
        i <= s.len(),
    ensures
        match r {
            Some(j) => sp_block(s@, i as int) == Some(j as int) && j <= s.len(),
            None => sp_block(s@, i as int) is None,
        },
{
    let i1 = skip_ws_x(s, i);
    if i1 < s.len() && s[i1] == '{' {
        p_block_rest(s, i1 + 1, 1)
    } else {
        None
    }
}

fn p_function_rest(s: &Vec<char>, i: usize) -> (r: Option<(FuncSig, usize)>)
    requires
        i <= s.len(),
    ensures
        match r {
            Some(p) => sp_function_rest(s@, i as int) == Some((p.0@, p.1 as int)) && p.1
                <= s.len(),
            None => sp_function_rest(s@, i as int) is None,
        },
{
    let i1 = skip_ws_x(s, i);
    let gen = i1 < s.len() && s[i1] == '*';
    let i2 = if gen {
        skip_ws_x(s, i1 + 1)
    } else {
        i1
    };
    let (name, i3): (Option<Vec<char>>, usize) = match p_word(s, i2) {
        Some((w, j)) => (Some(w), j),
        None => (None, i2),
    };
    match p_params(s, i3) {
        None => None,
        Some((p, i4)) => match p_block(s, i4) {
            None => None,
            Some(i5) => Some((FuncSig { name, params: p, generator: gen }, i5)),
        },
    }
}

fn number_end_x(s: &Vec<char>, i: usize) -> (r: usize)
    requires
        i <= s.len(),
    ensures
        r as int == number_end(s@, i as int),
        i <= r && r <= s.len(),
{
    let j = digits_end_x(s, i);
    if j < s.len() && s[j] == '.' && j + 1 < s.len() && digit_char(s[j + 1]) {
        digits_end_x(s, j + 1)
    } else {
        j
    }
}

fn p_init_expr(s: &Vec<char>, i: usize) -> (r: Option<usize>)
    requires
        i <= s.len(),
    ensures
        match r {
            Some(j) => sp_init_expr(s@, i as int) == Some(j as int) && j <= s.len(),
            None => sp_init_expr(s@, i as int) is None,
        },
{
    let i1 = skip_ws_x(s, i);
    if i1 < s.len() && digit_char(s[i1]) {
        Some(number_end_x(s, i1))
    } else if i1 < s.len() && quote_char(s[i1]) {
        string_end_x(s, i1 + 1, s[i1])
    } else if i1 < s.len() && s[i1] == '(' {
        match p_arrow(s, i1) {
            Some((d, j)) => Some(j),
            None => None,
        }
    } else if i1 < s.len() && s[i1] == '{' {
        p_block_rest(s, i1 + 1, 1)
    } else {
        match p_word(s, i1) {
            Some((w, j)) => if str_eq_chars(&w, "function") {
                match p_function_rest(s, j) {
                    Some((f, k)) => Some(k),
                    None => None,
                }
            } else {
                Some(j)
            },
            None => None,
        }
    }
}

fn p_var_decl_tail(s: &Vec<char>, i: usize) -> (r: Option<usize>)
    requires
        i <= s.len(),
    ensures
        match r {
            Some(j) => sp_var_decl_tail(s@, i as int) == Some(j as int) && j <= s.len(),
            None => sp_var_decl_tail(s@, i as int) is None,
        },
    decreases s.len() - i,
{
    let k = skip_ws_x(s, i);
    let after_init: Option<usize> = if k < s.len() && s[k] == '=' {
        p_init_expr(s, k + 1)
    } else {
        Some(i)
    };
    match after_init {
        None => None,
        Some(m) => {
            let m1 = skip_ws_x(s, m);
            if m1 < s.len() && s[m1] == ',' {
                let m2 = skip_ws_x(s, m1 + 1);
                match p_word(s, m2) {
                    None => None,
                    Some((nm, j)) => if j > i && j <= s.len() {
                        p_var_decl_tail(s, j)
                    } else {
                        None
                    },
                }
            } else {
                Some(m)
            }
        },
    }
}

fn p_var_rest(s: &Vec<char>, i: usize) -> (r: Option<(Vec<char>, usize)>)
    requires
        i <= s.len(),
    ensures
        match r {
            Some(p) => sp_var_rest(s@, i as int) == Some((p.0@, p.1 as int)) && p.1 <= s.len(),
            None => sp_var_rest(s@, i as int) is None,
        },
{
    let i1 = skip_ws_x(s, i);
    match p_word(s, i1) {
        None => None,
        Some((name, j)) => match p_var_decl_tail(s, j) {
            None => None,
            Some(m) => Some((name, m)),
        },
    }
}

fn p_export_item(s: &Vec<char>, i: usize) -> (r: Option<(ExportItem, usize)>)
    requires
        i <= s.len(),
    ensures
        match r {
            Some(p) => sp_export_item(s@, i as int) == Some((p.0@, p.1 as int)) && p.1 <= s.len(),
            None => sp_export_item(s@, i as int) is None,
        },
{
    match p_word(s, i) {
        None => None,
        Some((local, j)) => {
            let k = skip_ws_x(s, j);
            match p_word(s, k) {
                Some((w, m)) => if str_eq_chars(&w, "as") {
                    let k2 = skip_ws_x(s, m);
                    match p_word(s, k2) {
                        None => None,
                        Some((exported, n)) => Some((ExportItem { local, exported }, n)),
                    }
                } else {
                    let exported = copy_chars(&local);
                    Some((ExportItem { local, exported }, j))
                },
                None => {
                    let exported = copy_chars(&local);
                    Some((ExportItem { local, exported }, j))
                },
            }
        },
    }
}

/// Copies a character vector.
fn copy_chars(v: &Vec<char>) -> (r: Vec<char>)
    ensures
        r@ == v@,
{
    let r = subvec(v, 0, v.len());
    proof {
        assert(v@.subrange(0, v@.len() as int) =~= v@);
    }
    r
}

fn p_export_list_rest(s: &Vec<char>, i: usize, acc: Vec<ExportItem>) -> (r: Option<
    (Vec<ExportItem>, usize),
>)
    requires
        i <= s.len(),
    ensures
        match r {
            Some(p) => sp_export_list_rest(s@, i as int, acc.deep_view()) == Some(
                (p.0.deep_view(), p.1 as int),
            ) && p.1 <= s.len(),
            None => sp_export_list_rest(s@, i as int, acc.deep_view()) is None,
        },
    decreases s.len() - i,
{
    let mut acc = acc;
    let ghost acc0 = acc.deep_view();
    let i1 = skip_ws_x(s, i);
    if i1 < s.len() && s[i1] == '}' {
        Some((acc, i1 + 1))
    } else if i1 < s.len() && s[i1] == ',' {
        let i2 = skip_ws_x(s, i1 + 1);
        match p_export_item(s, i2) {
            None => None,
            Some((it, j)) => if j > i && j <= s.len() {
                let ghost it_v = it@;
                acc.push(it);
                proof {
                    assert(acc.deep_view() =~= acc0.push(it_v));
                }
                p_export_list_rest(s, j, acc)
            } else {
                None
            },
        }
    } else {
        None
    }
}

fn p_export_list(s: &Vec<char>, i: usize) -> (r: Option<(Vec<ExportItem>, usize)>)
    requires
        i < s.len(),
    ensures
        match r {
            Some(p) => sp_export_list(s@, i as int) == Some((p.0.deep_view(), p.1 as int)) && p.1
                <= s.len(),
            None => sp_export_list(s@, i as int) is None,
        },
{
    let i1 = skip_ws_x(s, i + 1);
    if i1 < s.len() && s[i1] == '}' {
        let v: Vec<ExportItem> = Vec::new();
        proof {
            assert(v.deep_view() =~= Seq::<ExportItemView>::empty());
        }
        Some((v, i1 + 1))
    } else {
        match p_export_item(s, i1) {
            None => None,
            Some((it, j)) => if j > i && j <= s.len() {
                let ghost it_v = it@;
                let mut acc: Vec<ExportItem> = Vec::new();
                acc.push(it);
                proof {
                    assert(acc.deep_view() =~~= seq![it_v]);
                }
                p_export_list_rest(s, j, acc)
            } else {
                None
            },
        }
    }
}

fn p_arrow(s: &Vec<char>, i: usize) -> (r: Option<(DefaultShape, usize)>)
    requires
        i <= s.len(),
    ensures
        match r {
            Some(p) => sp_arrow(s@, i as int) == Some((p.0@, p.1 as int)) && p.1 <= s.len(),
            None => sp_arrow(s@, i as int) is None,
        },
{
    match p_params(s, i) {
        None => None,
        Some((p, j)) => {
            let k = skip_ws_x(s, j);
            if k < s.len() && k + 1 < s.len() && s[k] == '=' && s[k + 1] == '>' {
                match p_block(s, k + 2) {
                    None => None,
                    Some(m) => Some((DefaultShape { callable: true, params: p, generator: false }, m)),
                }
            } else {
                None
            }
        },
    }
}

fn p_default_expr(s: &Vec<char>, i: usize) -> (r: Option<(DefaultShape, usize)>)
    requires
        i <= s.len(),
    ensures
        match r {
            Some(p) => sp_default_expr(s@, i as int) == Some((p.0@, p.1 as int)) && p.1 <= s.len(),
            None => sp_default_expr(s@, i as int) is None,
        },
    decreases s.len() - i,
{
    let i1 = skip_ws_x(s, i);
    if i1 >= s.len() {
        None
    } else {
        match p_word(s, i1) {
            Some((w, j)) => if str_eq_chars(&w, "function") {
                match p_function_rest(s, j) {
                    None => None,
                    Some((f, k)) => Some(
                        (
                            DefaultShape {
                                callable: true,
                                params: f.params,
                                generator: f.generator,
                            },
                            k,
                        ),
                    ),
                }
            } else {
                Some((DefaultShape { callable: false, params: 0, generator: false }, j))
            },
            None => if digit_char(s[i1]) {
                Some(
                    (
                        DefaultShape { callable: false, params: 0, generator: false },
                        number_end_x(s, i1),
                    ),
                )
            } else if quote_char(s[i1]) {
                match string_end_x(s, i1 + 1, s[i1]) {
                    None => None,
                    Some(j) => Some(
                        (DefaultShape { callable: false, params: 0, generator: false }, j),
                    ),
                }
            } else if s[i1] == '(' {
                match p_arrow(s, i1) {
                    Some((d, j)) => Some((d, j)),
                    None => if i1 + 1 > i {
                        match p_default_expr(s, i1 + 1) {
                            None => None,
                            Some((d, j)) => {
                                let k = skip_ws_x(s, j);
                                if k < s.len() && s[k] == ')' {
                                    Some((d, k + 1))
                                } else {
                                    None
                                }
                            },
                        }
                    } else {
                        None
                    },
                }
            } else {
                None
            },
        }
    }
}

fn p_export_stmt(s: &Vec<char>, i: usize) -> (r: Option<(Stmt, usize)>)
    requires
        i <= s.len(),
    ensures
        match r {
            Some(p) => sp_export_stmt(s@, i as int) == Some((p.0@, p.1 as int)) && p.1 <= s.len(),
            None => sp_export_stmt(s@, i as int) is None,
        },
{
    let i1 = skip_ws_x(s, i);
    if i1 < s.len() && s[i1] == '{' {
        match p_export_list(s, i1) {
            None => None,
            Some((items, j)) => Some((Stmt::ExportList { items }, j)),
        }
    } else {
        match p_word(s, i1) {
            None => None,
            Some((w, j)) => if str_eq_chars(&w, "function") {
                match p_function_rest(s, j) {
                    None => None,
                    Some((f, k)) => match f.name {
                        None => None,
                        Some(nm) => Some(
                            (
                                Stmt::ExportFunc {
                                    name: nm,
                                    params: f.params,
                                    generator: f.generator,
                                },
                                k,
                            ),
                        ),
                    },
                }
            } else if str_eq_chars(&w, "const") || str_eq_chars(&w, "let") || str_eq_chars(
                &w,
                "var",
            ) {
                match p_var_rest(s, j) {
                    None => None,
                    Some((nm, k)) => Some((Stmt::ExportVar { name: nm }, k)),
                }
            } else if str_eq_chars(&w, "default") {
                match p_default_expr(s, j) {
                    None => None,
                    Some((d, k)) => Some(
                        (
                            Stmt::ExportDefault {
                                callable: d.callable,
                                params: d.params,
                                generator: d.generator,
                            },
                            k,
                        ),
                    ),
                }
            } else {
                None
            },
        }
    }
}

fn p_stmt(s: &Vec<char>, i: usize) -> (r: Option<(Stmt, usize)>)
    requires
        i <= s.len(),
    ensures
        match r {
            Some(p) => sp_stmt(s@, i as int) == Some((p.0@, p.1 as int)) && p.1 <= s.len(),
            None => sp_stmt(s@, i as int) is None,
        },
{
    match p_word(s, i) {
        None => None,
        Some((w, j)) => if str_eq_chars(&w, "function") {
            match p_function_rest(s, j) {
                None => None,
                Some((f, k)) => match f.name {
                    None => None,
                    Some(nm) => Some(
                        (Stmt::FuncDecl { name: nm, params: f.params, generator: f.generator }, k),
                    ),
                },
            }
        } else if str_eq_chars(&w, "const") || str_eq_chars(&w, "let") || str_eq_chars(&w, "var") {
            match p_var_rest(s, j) {
                None => None,
                Some((nm, k)) => Some((Stmt::VarDecl { name: nm }, k)),
            }
        } else if str_eq_chars(&w, "export") {
            p_export_stmt(s, j)
        } else {
            None
        },
    }
}

/// Parses a whole source text into statements; `None` on a syntax error.
pub fn p_program(s: &Vec<char>, i: usize) -> (r: Option<Vec<Stmt>>)
    requires
        i <= s.len(),
    ensures
        match r {
            Some(ss) => sp_program(s@, i as int) == Some(ss.deep_view()),
            None => sp_program(s@, i as int) is None,
        },
    decreases s.len() - i,
{
    let i1 = skip_ws_x(s, i);
    if i1 >= s.len() {
        let v: Vec<Stmt> = Vec::new();
        proof {
            assert(v.deep_view() =~= Seq::<StmtView>::empty());
        }
        Some(v)
    } else if s[i1] == ';' {
        if i1 + 1 > i {
            p_program(s, i1 + 1)
        } else {
            None
        }
    } else {
        match p_stmt(s, i1) {
            None => None,
            Some((st, j)) => if j > i && j <= s.len() {
                let ghost st_v = st@;
                match p_program(s, j) {
                    None => None,
                    Some(rest) => {
                        let ghost rest_v = rest.deep_view();
                        let mut rest = rest;
                        let mut out: Vec<Stmt> = Vec::new();
                        out.push(st);
                        out.append(&mut rest);
                        proof {
                            assert(out.deep_view() =~= seq![st_v] + rest_v);
                        }
                        Some(out)
                    },
                }
            } else {
                None
            },
        }
    }
}

// ---------------------------------------------------------------------------
// Specification-level analysis
// ---------------------------------------------------------------------------

/// Whether a statement causes exports.
pub open spec fn is_export_stmt(st: StmtView) -> bool {
    st is ExportFunc || st is ExportVar || st is ExportDefault || st is ExportList
}

/// The function declaration bound to `name` among the first `k` statements;
/// a later declaration shadows an earlier one.
pub open spec fn lookup_func_upto(ss: Seq<StmtView>, k: int, name: Seq<char>) -> Option<(int, bool)>
    decreases k,
{
    if k <= 0 || k > ss.len() {
        None
    } else {
        match ss[k - 1] {
            StmtView::FuncDecl { name: n, params, generator } => if n == name {
                Some((params, generator))
            } else {
                lookup_func_upto(ss, k - 1, name)
            },
            StmtView::ExportFunc { name: n, params, generator } => if n == name {
                Some((params, generator))
            } else {
                lookup_func_upto(ss, k - 1, name)
            },
            _ => lookup_func_upto(ss, k - 1, name),
        }
    }
}

/// The function declaration bound to `name` in the whole program
/// (declaration position does not matter: hoisting).
pub open spec fn lookup_func(ss: Seq<StmtView>, name: Seq<char>) -> Option<(int, bool)> {
    lookup_func_upto(ss, ss.len() as int, name)
}

/// Validates one callable export and emits its exported name.
pub open spec fn validate_emit(name: Seq<char>, params: int, generator: bool) -> Result<
    Seq<Seq<char>>,
    AnalysisError,
> {
    if params > 0 {
        Err(AnalysisError::ExportHasParameters)
    } else if generator {
        Err(AnalysisError::ExportIsGenerator)
    } else {
        Ok(seq![name])
    }
}

/// Resolves one named-export-list entry against the top-level bindings: a
/// function declaration is validated and emitted under its exported name;
/// anything else is silently dropped.
pub open spec fn resolve_item(it: ExportItemView, ctx: Seq<StmtView>) -> Result<
    Seq<Seq<char>>,
    AnalysisError,
> {
    match lookup_func(ctx, it.local) {
        None => Ok(Seq::empty()),
        Some((params, generator)) => validate_emit(it.exported, params, generator),
    }
}

/// Resolves the entries of a named export list from index `k` on.
pub open spec fn resolve_items(items: Seq<ExportItemView>, k: int, ctx: Seq<StmtView>) -> Result<
    Seq<Seq<char>>,
    AnalysisError,
>
    decreases items.len() - k,
{
    if k < 0 || k >= items.len() {
        Ok(Seq::empty())
    } else {
        match resolve_item(items[k], ctx) {
            Err(e) => Err(e),
            Ok(ns) => match resolve_items(items, k + 1, ctx) {
                Err(e) => Err(e),
                Ok(rest) => Ok(ns + rest),
            },
        }
    }
}

/// The contribution of one statement to the export set.
pub open spec fn step(st: StmtView, ctx: Seq<StmtView>) -> Result<Seq<Seq<char>>, AnalysisError> {
    match st {
        StmtView::ExportFunc { name, params, generator } => validate_emit(name, params, generator),
        StmtView::ExportDefault { callable, params, generator } => if callable {
            validate_emit("default"@, params, generator)
        } else {
            Ok(Seq::empty())
        },
        StmtView::ExportList { items } => resolve_items(items, 0, ctx),
        _ => Ok(Seq::empty()),
    }
}

/// Walks the statements from index `k` on, in textual order, concatenating
/// their contributions; the first violation aborts the walk.
pub open spec fn walk(ss: Seq<StmtView>, ctx: Seq<StmtView>, k: int) -> Result<
    Seq<Seq<char>>,
    AnalysisError,
>
    decreases ss.len() - k,
{
    if k < 0 || k >= ss.len() {
        Ok(Seq::empty())
    } else {
        match step(ss[k], ctx) {
            Err(e) => Err(e),
            Ok(ns) => match walk(ss, ctx, k + 1) {
                Err(e) => Err(e),
                Ok(rest) => Ok(ns + rest),
            },
        }
    }
}

/// The export set of an analyzed program, or its first violation.
pub open spec fn analyze(ss: Seq<StmtView>) -> Result<Seq<Seq<char>>, AnalysisError> {
    walk(ss, ss, 0)
}

/// The export set of a source text: the names its export-causing statements
/// resolve to, in textual order, or the first violation; an unparsable text
/// yields the invalid-syntax kind.
pub open spec fn exports_spec(text: Seq<char>) -> Result<Seq<Seq<char>>, AnalysisError> {
    match parse_program(text) {
        None => Err(AnalysisError::InvalidSyntax),
        Some(ss) => analyze(ss),
    }
}

// ---------------------------------------------------------------------------
// Executable analysis
// ---------------------------------------------------------------------------

/// Compares two character vectors.
fn chars_eq(a: &Vec<char>, b: &Vec<char>) -> (r: bool)
    ensures
        r == (a@ == b@),
{
    if a.len() != b.len() {
        proof {
            if a@ == b@ {
                assert(a@.len() == b@.len());
            }
        }
        return false;
    }
    let mut i: usize = 0;
    while i < a.len()
        invariant
            i <= a.len(),
            a@.len() == b@.len(),
            forall|m: int| 0 <= m < i ==> a@[m] == b@[m],
        decreases a.len() - i,
    {
        if a[i] != b[i] {
            proof {
                if a@ == b@ {
                    assert(a@[i as int] == b@[i as int]);
                }
            }
            return false;
        }
        i += 1;
    }
    proof {
        assert(a@ =~= b@);
    }
    true
}

fn lookup_func_x(ss: &Vec<Stmt>, k: usize, name: &Vec<char>) -> (r: Option<(usize, bool)>)
    requires
        k <= ss.len(),
    ensures
        match r {
            Some(p) => lookup_func_upto(ss.deep_view(), k as int, name@) == Some((p.0 as int, p.1)),
            None => lookup_func_upto(ss.deep_view(), k as int, name@) is None,
        },
    decreases k,
{
    if k == 0 {
        None
    } else {
        match &ss[k - 1] {
            Stmt::FuncDecl { name: n, params, generator } => if chars_eq(n, name) {
                Some((*params, *generator))
            } else {
                lookup_func_x(ss, k - 1, name)
            },
            Stmt::ExportFunc { name: n, params, generator } => if chars_eq(n, name) {
                Some((*params, *generator))
            } else {
                lookup_func_x(ss, k - 1, name)
            },
            _ => lookup_func_x(ss, k - 1, name),
        }
    }
}

fn validate_emit_x(name: Vec<char>, params: usize, generator: bool) -> (r: Result<
    Vec<Vec<char>>,
    AnalysisError,
>)
    ensures
        match r {
            Ok(v) => validate_emit(name@, params as int, generator) == Ok::<_, AnalysisError>(
                v.deep_view(),
            ),
            Err(e) => validate_emit(name@, params as int, generator) == Err::<Seq<Seq<char>>, _>(e),
        },
{
    if params > 0 {
        Err(AnalysisError::ExportHasParameters)
    } else if generator {
        Err(AnalysisError::ExportIsGenerator)
    } else {
        let ghost name_v = name@;
        let mut v: Vec<Vec<char>> = Vec::new();
        v.push(name);
        proof {
            assert(v.deep_view() =~~= seq![name_v]);
        }
        Ok(v)
    }
}

fn resolve_item_x(it: &ExportItem, ctx: &Vec<Stmt>) -> (r: Result<Vec<Vec<char>>, AnalysisError>)
    ensures
        match r {
            Ok(v) => resolve_item(it@, ctx.deep_view()) == Ok::<_, AnalysisError>(v.deep_view()),
            Err(e) => resolve_item(it@, ctx.deep_view()) == Err::<Seq<Seq<char>>, _>(e),
        },
{
    match lookup_func_x(ctx, ctx.len(), &it.local) {
        None => {
            let v: Vec<Vec<char>> = Vec::new();
            proof {
                assert(v.deep_view() =~= Seq::<Seq<char>>::empty());
            }
            Ok(v)
        },
        Some((params, generator)) => validate_emit_x(copy_chars(&it.exported), params, generator),
    }
}

fn resolve_items_x(items: &Vec<ExportItem>, ctx: &Vec<Stmt>) -> (r: Result<
    Vec<Vec<char>>,
    AnalysisError,
>)
    ensures
        match r {
            Ok(v) => resolve_items(items.deep_view(), 0, ctx.deep_view()) == Ok::<_, AnalysisError>(
                v.deep_view(),
            ),
            Err(e) => resolve_items(items.deep_view(), 0, ctx.deep_view()) == Err::<
                Seq<Seq<char>>,
                _,
            >(e),
        },
{
    let mut acc: Vec<Vec<char>> = Vec::new();
    let mut k: usize = 0;
    proof {
        assert(acc.deep_view() =~= Seq::<Seq<char>>::empty());
    }
    while k < items.len()
        invariant
            k <= items.len(),
            match resolve_items(items.deep_view(), k as int, ctx.deep_view()) {
                Ok(rest) => resolve_items(items.deep_view(), 0, ctx.deep_view()) == Ok::<
                    _,
                    AnalysisError,
                >(acc.deep_view() + rest),
                Err(e) => resolve_items(items.deep_view(), 0, ctx.deep_view()) == Err::<
                    Seq<Seq<char>>,
                    _,
                >(e),
            },
        decreases items.len() - k,
    {
        let ghost acc0 = acc.deep_view();
        match resolve_item_x(&items[k], ctx) {
            Err(e) => {
                return Err(e);
            },
            Ok(mut ns) => {
                let ghost ns_v = ns.deep_view();
                acc.append(&mut ns);
                proof {
                    assert(items.deep_view()[k as int] == items@[k as int]@);
                    assert(acc.deep_view() =~~= acc0 + ns_v);
                    assert(forall|rest: Seq<Seq<char>>| (acc0 + ns_v) + rest =~= acc0 + (ns_v + rest));
                }
            },
        }
        k += 1;
    }
    proof {
        assert(acc.deep_view() + Seq::<Seq<char>>::empty() =~= acc.deep_view());
    }
    Ok(acc)
}

fn step_x(st: &Stmt, ctx: &Vec<Stmt>) -> (r: Result<Vec<Vec<char>>, AnalysisError>)
    ensures
        match r {
            Ok(v) => step(st@, ctx.deep_view()) == Ok::<_, AnalysisError>(v.deep_view()),
            Err(e) => step(st@, ctx.deep_view()) == Err::<Seq<Seq<char>>, _>(e),
        },
{
    match st {
        Stmt::ExportFunc { name, params, generator } => validate_emit_x(
            copy_chars(name),
            *params,
            *generator,
        ),
        Stmt::ExportDefault { callable, params, generator } => {
            if *callable {
                let name = chars_vec("default");
                validate_emit_x(name, *params, *generator)
            } else {
                let v: Vec<Vec<char>> = Vec::new();
                proof {
                    assert(v.deep_view() =~= Seq::<Seq<char>>::empty());
                }
                Ok(v)
            }
        },
        Stmt::ExportList { items } => resolve_items_x(items, ctx),
        _ => {
            let v: Vec<Vec<char>> = Vec::new();
            proof {
                assert(v.deep_view() =~= Seq::<Seq<char>>::empty());
            }
            Ok(v)
        },
    }
}

/// The characters of a string, as a vector.
pub fn chars_vec(s: &str) -> (r: Vec<char>)
    ensures
        r@ == s@,
{
    let n = s.unicode_len();
    let mut v: Vec<char> = Vec::new();
    let mut i: usize = 0;
    while i < n
        invariant
            i <= n,
            n == s@.len(),
            v@ =~= s@.subrange(0, i as int),
        decreases n - i,
    {
        v.push(s.get_char(i));
        proof {
            assert(v@ =~= s@.subrange(0, (i + 1) as int));
        }
        i += 1;
    }
    proof {
        assert(v@ =~= s@);
    }
    v
}

/// Analyzes a parsed program: resolves and validates its export-causing
/// statements in textual order.
pub fn analyze_program(ss: &Vec<Stmt>) -> (r: Result<Vec<Vec<char>>, AnalysisError>)
    ensures
        match r {
            Ok(v) => analyze(ss.deep_view()) == Ok::<_, AnalysisError>(v.deep_view()),
            Err(e) => analyze(ss.deep_view()) == Err::<Seq<Seq<char>>, _>(e),
        },
{
    let mut acc: Vec<Vec<char>> = Vec::new();
    let mut k: usize = 0;
    proof {
        assert(acc.deep_view() =~= Seq::<Seq<char>>::empty());
    }
    while k < ss.len()
        invariant
            k <= ss.len(),
            match walk(ss.deep_view(), ss.deep_view(), k as int) {
                Ok(rest) => walk(ss.deep_view(), ss.deep_view(), 0) == Ok::<_, AnalysisError>(
                    acc.deep_view() + rest,
                ),
                Err(e) => walk(ss.deep_view(), ss.deep_view(), 0) == Err::<Seq<Seq<char>>, _>(e),
            },
        decreases ss.len() - k,
    {
        let ghost acc0 = acc.deep_view();
        match step_x(&ss[k], ss) {
            Err(e) => {
                return Err(e);
            },
            Ok(mut ns) => {
                let ghost ns_v = ns.deep_view();
                acc.append(&mut ns);
                proof {
                    assert(ss.deep_view()[k as int] == ss@[k as int]@);
                    assert(acc.deep_view() =~~= acc0 + ns_v);
                    assert(forall|rest: Seq<Seq<char>>| (acc0 + ns_v) + rest =~= acc0 + (ns_v + rest));
                }
            },
        }
        k += 1;
    }
    proof {
        assert(acc.deep_view() + Seq::<Seq<char>>::empty() =~= acc.deep_view());
    }
    Ok(acc)
}

} // verus!
