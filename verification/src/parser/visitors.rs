use vstd::prelude::*;
use crate::value_type::ValueType;

verus! {

/// An element of the source that knows where it was read.
pub trait LineDebugInfo {
    /// The line where the element was read.
    spec fn debug_line(&self) -> usize;

    /// The column where the element was read.
    spec fn debug_column(&self) -> usize;

    /// The file the element was read from.
    spec fn debug_file(&self) -> Seq<char>;

    fn line(&self) -> (r: usize)
        ensures
            r == self.debug_line(),
    ;

    fn column(&self) -> (r: usize)
        ensures
            r == self.debug_column(),
    ;

    fn file_name(&self) -> (r: &str)
        ensures
            r@ == self.debug_file(),
    ;
}

/// An element of the source that spans several lines.
pub trait SpanDebugInfo {
    fn begin_line(&self) -> usize;

    fn end_line(&self) -> usize;

    fn file_name(&self) -> &str;
}

/// A function argument: its name and type.
pub type Argument = (String, ValueType);

/// A struct field: its name and type.
pub type StructField = (String, ValueType);

/// A number literal.
pub struct Number {
    pub value: i64,
    pub line: usize,
    pub column: usize,
    pub filename: String,
}

/// A real literal, kept as its source text.
pub struct Real {
    pub value: String,
    pub line: usize,
    pub column: usize,
    pub filename: String,
}

/// A boolean literal.
pub struct Bool {
    pub value: bool,
    pub line: usize,
    pub column: usize,
    pub filename: String,
}

/// A character literal.
pub struct Char {
    pub value: char,
    pub line: usize,
    pub column: usize,
    pub filename: String,
}

/// A string literal.
pub struct StringLiteral {
    pub value: String,
    pub line: usize,
    pub column: usize,
    pub filename: String,
}

/// A name used as a value; `ty` is filled by the type checker.
pub struct Identifier {
    pub name: String,
    pub is_lvalue: bool,
    pub ty: Option<ValueType>,
    pub line: usize,
    pub column: usize,
    pub filename: String,
}

/// `struct Name { e1, e2, ... }`.
pub struct StructLiteral {
    pub literal_type: Option<ValueType>,
    pub struct_name: String,
    pub expressions: Vec<Expression>,
    pub line: usize,
    pub column: usize,
    pub filename: String,
}

/// A literal, or a name.
pub enum Literal {
    Number(Number),
    Real(Real),
    Bool(Bool),
    Char(Char),
    StringLiteral(StringLiteral),
    StructLiteral(StructLiteral),
    Identifier(Identifier),
}

/// Arithmetic operations.
pub enum Binary {
    Plus(Box<Expression>, Box<Expression>),
    Minus(Box<Expression>, Box<Expression>),
    Multiply(Box<Expression>, Box<Expression>),
    Divide(Box<Expression>, Box<Expression>),
    Modulo(Box<Expression>, Box<Expression>),
}

/// A parenthesised expression.
pub struct Group {
    pub inner_expression: Box<Expression>,
    pub line: usize,
    pub column: usize,
    pub filename: String,
}

/// Logical operations and comparisons.
pub enum BinaryLogic {
    And(Box<Expression>, Box<Expression>),
    Or(Box<Expression>, Box<Expression>),
    Equal(Box<Expression>, Box<Expression>),
    NotEqual(Box<Expression>, Box<Expression>),
    More(Box<Expression>, Box<Expression>),
    Less(Box<Expression>, Box<Expression>),
    MoreEqual(Box<Expression>, Box<Expression>),
    LessEqual(Box<Expression>, Box<Expression>),
}

/// Unary operations.
pub enum Unary {
    Not(Box<Expression>),
    Negate(Box<Expression>),
}

/// A function call; `args` is `None` when there are none.
pub struct Call {
    pub name: String,
    pub ty: Option<ValueType>,
    pub args: Option<Vec<Expression>>,
    pub line: usize,
    pub column: usize,
    pub filename: String,
}

/// `array[index]`.
pub struct ArrayAccess {
    pub ty: Option<ValueType>,
    pub identifier: Box<Expression>,
    pub is_lvalue: bool,
    pub index: Box<Expression>,
    pub line: usize,
    pub column: usize,
    pub filename: String,
}

/// `addrof expr`.
pub struct AddressOf {
    pub identifier: Box<Expression>,
    pub ty: Option<ValueType>,
    pub line: usize,
    pub column: usize,
    pub filename: String,
}

/// `deref expr`.
pub struct DeReference {
    pub identifier: Box<Expression>,
    pub is_lvalue: bool,
    pub ty: Option<ValueType>,
    pub line: usize,
    pub column: usize,
    pub filename: String,
}

/// `object.member`.
pub struct MemberAccess {
    pub object: Box<Expression>,
    pub member: String,
    pub ty: Option<ValueType>,
    pub line: usize,
    pub column: usize,
    pub filename: String,
}

/// The `null` literal.
pub struct Null {
    pub line: usize,
    pub column: usize,
    pub filename: String,
}

/// Expressions.
pub enum Expression {
    Literal(Literal),
    Binary(Binary),
    Group(Group),
    BinaryLogic(BinaryLogic),
    Unary(Unary),
    Call(Call),
    ArrayAccess(ArrayAccess),
    AddressOf(AddressOf),
    DeReference(DeReference),
    MemberAccess(MemberAccess),
    Null(Null),
}

/// `let name: type = init;`.
pub struct VariableDeclaration {
    pub identifier: String,
    pub variable_type: ValueType,
    pub init_expr: Expression,
    pub line: usize,
    pub column: usize,
    pub filename: String,
}

/// `target = value;`.
pub struct VariableAssignment {
    pub identifier: Expression,
    pub new_value: Expression,
    pub line: usize,
    pub column: usize,
    pub filename: String,
}

/// `{ statements }`.
pub struct BlockStatement {
    pub statements: Vec<Statement>,
    pub line: usize,
    pub column: usize,
    pub filename: String,
}

/// A function; without a block it is a declaration.
pub struct FunctionStatement {
    pub callee: String,
    pub args: Option<Vec<Argument>>,
    pub block: Option<BlockStatement>,
    pub return_type: ValueType,
    pub is_exported: bool,
    pub line: usize,
    pub column: usize,
    pub filename: String,
}

/// A struct type declaration.
pub struct StructStatement {
    pub struct_name: String,
    pub fields: Vec<StructField>,
    pub exported: bool,
    pub line: usize,
    pub column: usize,
    pub filename: String,
}

/// `return expr;`.
pub struct ReturnStatement {
    pub expr: Expression,
    pub line: usize,
    pub column: usize,
    pub filename: String,
}

/// `if cond { } else { }`.
pub struct IfStatement {
    pub condition: Expression,
    pub then_branch: BlockStatement,
    pub else_branch: Option<BlockStatement>,
    pub line: usize,
    pub column: usize,
    pub filename: String,
}

/// `while cond { }` (and `loop { }`).
pub struct WhileStatement {
    pub condition: Expression,
    pub loop_block: BlockStatement,
    pub line: usize,
    pub column: usize,
    pub filename: String,
}

/// `for let i: t = e; cond; next; { }`.
pub struct ForStatement {
    pub init_expr: VariableDeclaration,
    pub loop_condition: Expression,
    pub next_expr: Box<Statement>,
    pub block_stmt: BlockStatement,
    pub line: usize,
    pub column: usize,
    pub filename: String,
}

/// `break;`.
pub struct BreakStatement {
    pub line: usize,
    pub column: usize,
    pub filename: String,
}

/// `import "module";`: `file_path` is the importing module's path.
pub struct ImportStatement {
    pub file_path: String,
    pub module_file: String,
    pub line: usize,
    pub column: usize,
    pub filename: String,
}

/// Statements.
pub enum Statement {
    Expression(Expression),
    VariableDeclaration(VariableDeclaration),
    VariableAssignment(VariableAssignment),
    Function(FunctionStatement),
    Struct(StructStatement),
    Block(BlockStatement),
    Return(ReturnStatement),
    IfStatement(IfStatement),
    WhileStatement(WhileStatement),
    ForStatement(ForStatement),
    BreakStatement(BreakStatement),
    Import(ImportStatement),
}

/// A visitor over statements.
pub trait StatementVisitor<T> {
    fn visit_expression_statement(&mut self, expr: &Expression) -> T;

    fn visit_declaration_statement(&mut self, expr: &VariableDeclaration) -> T;

    fn visit_assignment_statement(&mut self, expr: &VariableAssignment) -> T;

    fn visit_function_statement(&mut self, expr: &FunctionStatement) -> T;

    fn visit_struct_statement(&mut self, stct: &StructStatement) -> T;

    fn visit_block_statement(&mut self, expr: &BlockStatement) -> T;

    fn visit_return_statement(&mut self, return_stmt: &ReturnStatement) -> T;

    fn visit_if_statement(&mut self, if_stmt: &IfStatement) -> T;

    fn visit_while_statement(&mut self, while_stmt: &WhileStatement) -> T;

    fn visit_for_statement(&mut self, for_stmt: &ForStatement) -> T;

    fn visit_break_statement(&mut self) -> T;

    fn visit_import_statement(&mut self, import_stmt: &ImportStatement) -> T;
}

/// A visitor over statements that may rewrite them.
pub trait MutableStatementVisitor<T> {
    fn visit_expression_statement(&mut self, expr: &mut Expression) -> T;

    fn visit_declaration_statement(&mut self, expr: &mut VariableDeclaration) -> T;

    fn visit_assignment_statement(&mut self, expr: &mut VariableAssignment) -> T;

    fn visit_function_statement(&mut self, expr: &mut FunctionStatement) -> T;

    fn visit_struct_statement(&mut self, stct: &StructStatement) -> T;

    fn visit_block_statement(&mut self, expr: &mut BlockStatement) -> T;

    fn visit_return_statement(&mut self, return_stmt: &mut ReturnStatement) -> T;

    fn visit_if_statement(&mut self, if_stmt: &mut IfStatement) -> T;

    fn visit_while_statement(&mut self, while_stmt: &mut WhileStatement) -> T;

    fn visit_for_statement(&mut self, for_stmt: &mut ForStatement) -> T;

    fn visit_break_statement(&mut self) -> T;

    fn visit_import_statement(&mut self, import_stmt: &mut ImportStatement) -> T;
}

/// A visitor over expressions.
pub trait ExpressionVisitor<T> {
    fn visit_literal(&mut self, literal: &Literal) -> T;

    fn visit_binary(&mut self, binary: &Binary) -> T;

    fn visit_group(&mut self, group: &Group) -> T;

    fn visit_binary_logic(&mut self, literal: &BinaryLogic) -> T;

    fn visit_unary(&mut self, unary: &Unary) -> T;

    fn visit_call(&mut self, call_expr: &Call) -> T;

    fn visit_array_access(&mut self, call_expr: &ArrayAccess) -> T;

    fn visit_null_expression(&mut self) -> T;

    fn visit_address_of_expression(&mut self, address_of: &AddressOf) -> T;

    fn visit_dereference_expression(&mut self, dereference: &DeReference) -> T;

    fn visit_struct_literal(&mut self, struct_literal: &StructLiteral) -> T;

    fn visit_member_access(&mut self, member_access: &MemberAccess) -> T;
}

/// A visitor over expressions that may annotate them.
pub trait MutableExpressionVisitor<T> {
    fn visit_literal(&mut self, literal: &mut Literal) -> T;

    fn visit_binary(&mut self, binary: &mut Binary) -> T;

    fn visit_group(&mut self, group: &mut Group) -> T;

    fn visit_binary_logic(&mut self, literal: &mut BinaryLogic) -> T;

    fn visit_unary(&mut self, unary: &mut Unary) -> T;

    fn visit_call(&mut self, call_expr: &mut Call) -> T;

    fn visit_array_access(&mut self, call_expr: &mut ArrayAccess) -> T;

    fn visit_null_expression(&mut self) -> T;

    fn visit_address_of_expression(&mut self, address_of: &mut AddressOf) -> T;

    fn visit_dereference_expression(&mut self, dereference: &mut DeReference) -> T;

    fn visit_struct_literal(&mut self, struct_literal: &mut StructLiteral) -> T;

    fn visit_member_access(&mut self, member_access: &mut MemberAccess) -> T;
}

impl LineDebugInfo for Number {
    open spec fn debug_line(&self) -> usize {
        self.line
    }

    open spec fn debug_column(&self) -> usize {
        self.column
    }

    open spec fn debug_file(&self) -> Seq<char> {
        self.filename@
    }

    fn line(&self) -> (r: usize)
        ensures
            r == self.line,
    {
        self.line
    }

    fn column(&self) -> (r: usize)
        ensures
            r == self.column,
    {
        self.column
    }

    fn file_name(&self) -> (r: &str)
        ensures
            r@ == self.filename@,
    {
        self.filename.as_str()
    }
}

impl LineDebugInfo for Real {
    open spec fn debug_line(&self) -> usize {
        self.line
    }

    open spec fn debug_column(&self) -> usize {
        self.column
    }

    open spec fn debug_file(&self) -> Seq<char> {
        self.filename@
    }

    fn line(&self) -> (r: usize)
        ensures
            r == self.line,
    {
        self.line
    }

    fn column(&self) -> (r: usize)
        ensures
            r == self.column,
    {
        self.column
    }

    fn file_name(&self) -> (r: &str)
        ensures
            r@ == self.filename@,
    {
        self.filename.as_str()
    }
}

impl LineDebugInfo for Bool {
    open spec fn debug_line(&self) -> usize {
        self.line
    }

    open spec fn debug_column(&self) -> usize {
        self.column
    }

    open spec fn debug_file(&self) -> Seq<char> {
        self.filename@
    }

    fn line(&self) -> (r: usize)
        ensures
            r == self.line,
    {
        self.line
    }

    fn column(&self) -> (r: usize)
        ensures
            r == self.column,
    {
        self.column
    }

    fn file_name(&self) -> (r: &str)
        ensures
            r@ == self.filename@,
    {
        self.filename.as_str()
    }
}

impl LineDebugInfo for Char {
    open spec fn debug_line(&self) -> usize {
        self.line
    }

    open spec fn debug_column(&self) -> usize {
        self.column
    }

    open spec fn debug_file(&self) -> Seq<char> {
        self.filename@
    }

    fn line(&self) -> (r: usize)
        ensures
            r == self.line,
    {
        self.line
    }

    fn column(&self) -> (r: usize)
        ensures
            r == self.column,
    {
        self.column
    }

    fn file_name(&self) -> (r: &str)
        ensures
            r@ == self.filename@,
    {
        self.filename.as_str()
    }
}

impl LineDebugInfo for StringLiteral {
    open spec fn debug_line(&self) -> usize {
        self.line
    }

    open spec fn debug_column(&self) -> usize {
        self.column
    }

    open spec fn debug_file(&self) -> Seq<char> {
        self.filename@
    }

    fn line(&self) -> (r: usize)
        ensures
            r == self.line,
    {
        self.line
    }

    fn column(&self) -> (r: usize)
        ensures
            r == self.column,
    {
        self.column
    }

    fn file_name(&self) -> (r: &str)
        ensures
            r@ == self.filename@,
    {
        self.filename.as_str()
    }
}

impl LineDebugInfo for Identifier {
    open spec fn debug_line(&self) -> usize {
        self.line
    }

    open spec fn debug_column(&self) -> usize {
        self.column
    }

    open spec fn debug_file(&self) -> Seq<char> {
        self.filename@
    }

    fn line(&self) -> (r: usize)
        ensures
            r == self.line,
    {
        self.line
    }

    fn column(&self) -> (r: usize)
        ensures
            r == self.column,
    {
        self.column
    }

    fn file_name(&self) -> (r: &str)
        ensures
            r@ == self.filename@,
    {
        self.filename.as_str()
    }
}

impl LineDebugInfo for StructLiteral {
    open spec fn debug_line(&self) -> usize {
        self.line
    }

    open spec fn debug_column(&self) -> usize {
        self.column
    }

    open spec fn debug_file(&self) -> Seq<char> {
        self.filename@
    }

    fn line(&self) -> (r: usize)
        ensures
            r == self.line,
    {
        self.line
    }

    fn column(&self) -> (r: usize)
        ensures
            r == self.column,
    {
        self.column
    }

    fn file_name(&self) -> (r: &str)
        ensures
            r@ == self.filename@,
    {
        self.filename.as_str()
    }
}

impl LineDebugInfo for Group {
    open spec fn debug_line(&self) -> usize {
        self.line
    }

    open spec fn debug_column(&self) -> usize {
        self.column
    }

    open spec fn debug_file(&self) -> Seq<char> {
        self.filename@
    }

    fn line(&self) -> (r: usize)
        ensures
            r == self.line,
    {
        self.line
    }

    fn column(&self) -> (r: usize)
        ensures
            r == self.column,
    {
        self.column
    }

    fn file_name(&self) -> (r: &str)
        ensures
            r@ == self.filename@,
    {
        self.filename.as_str()
    }
}

impl LineDebugInfo for Call {
    open spec fn debug_line(&self) -> usize {
        self.line
    }

    open spec fn debug_column(&self) -> usize {
        self.column
    }

    open spec fn debug_file(&self) -> Seq<char> {
        self.filename@
    }

    fn line(&self) -> (r: usize)
        ensures
            r == self.line,
    {
        self.line
    }

    fn column(&self) -> (r: usize)
        ensures
            r == self.column,
    {
        self.column
    }

    fn file_name(&self) -> (r: &str)
        ensures
            r@ == self.filename@,
    {
        self.filename.as_str()
    }
}

impl LineDebugInfo for ArrayAccess {
    open spec fn debug_line(&self) -> usize {
        self.line
    }

    open spec fn debug_column(&self) -> usize {
        self.column
    }

    open spec fn debug_file(&self) -> Seq<char> {
        self.filename@
    }

    fn line(&self) -> (r: usize)
        ensures
            r == self.line,
    {
        self.line
    }

    fn column(&self) -> (r: usize)
        ensures
            r == self.column,
    {
        self.column
    }

    fn file_name(&self) -> (r: &str)
        ensures
            r@ == self.filename@,
    {
        self.filename.as_str()
    }
}

impl LineDebugInfo for AddressOf {
    open spec fn debug_line(&self) -> usize {
        self.line
    }

    open spec fn debug_column(&self) -> usize {
        self.column
    }

    open spec fn debug_file(&self) -> Seq<char> {
        self.filename@
    }

    fn line(&self) -> (r: usize)
        ensures
            r == self.line,
    {
        self.line
    }

    fn column(&self) -> (r: usize)
        ensures
            r == self.column,
    {
        self.column
    }

    fn file_name(&self) -> (r: &str)
        ensures
            r@ == self.filename@,
    {
        self.filename.as_str()
    }
}

impl LineDebugInfo for DeReference {
    open spec fn debug_line(&self) -> usize {
        self.line
    }

    open spec fn debug_column(&self) -> usize {
        self.column
    }

    open spec fn debug_file(&self) -> Seq<char> {
        self.filename@
    }

    fn line(&self) -> (r: usize)
        ensures
            r == self.line,
    {
        self.line
    }

    fn column(&self) -> (r: usize)
        ensures
            r == self.column,
    {
        self.column
    }

    fn file_name(&self) -> (r: &str)
        ensures
            r@ == self.filename@,
    {
        self.filename.as_str()
    }
}

impl LineDebugInfo for MemberAccess {
    open spec fn debug_line(&self) -> usize {
        self.line
    }

    open spec fn debug_column(&self) -> usize {
        self.column
    }

    open spec fn debug_file(&self) -> Seq<char> {
        self.filename@
    }

    fn line(&self) -> (r: usize)
        ensures
            r == self.line,
    {
        self.line
    }

    fn column(&self) -> (r: usize)
        ensures
            r == self.column,
    {
        self.column
    }

    fn file_name(&self) -> (r: &str)
        ensures
            r@ == self.filename@,
    {
        self.filename.as_str()
    }
}

impl LineDebugInfo for Null {
    open spec fn debug_line(&self) -> usize {
        self.line
    }

    open spec fn debug_column(&self) -> usize {
        self.column
    }

    open spec fn debug_file(&self) -> Seq<char> {
        self.filename@
    }

    fn line(&self) -> (r: usize)
        ensures
            r == self.line,
    {
        self.line
    }

    fn column(&self) -> (r: usize)
        ensures
            r == self.column,
    {
        self.column
    }

    fn file_name(&self) -> (r: &str)
        ensures
            r@ == self.filename@,
    {
        self.filename.as_str()
    }
}

impl LineDebugInfo for VariableDeclaration {
    open spec fn debug_line(&self) -> usize {
        self.line
    }

    open spec fn debug_column(&self) -> usize {
        self.column
    }

    open spec fn debug_file(&self) -> Seq<char> {
        self.filename@
    }

    fn line(&self) -> (r: usize)
        ensures
            r == self.line,
    {
        self.line
    }

    fn column(&self) -> (r: usize)
        ensures
            r == self.column,
    {
        self.column
    }

    fn file_name(&self) -> (r: &str)
        ensures
            r@ == self.filename@,
    {
        self.filename.as_str()
    }
}

impl LineDebugInfo for VariableAssignment {
    open spec fn debug_line(&self) -> usize {
        self.line
    }

    open spec fn debug_column(&self) -> usize {
        self.column
    }

    open spec fn debug_file(&self) -> Seq<char> {
        self.filename@
    }

    fn line(&self) -> (r: usize)
        ensures
            r == self.line,
    {
        self.line
    }

    fn column(&self) -> (r: usize)
        ensures
            r == self.column,
    {
        self.column
    }

    fn file_name(&self) -> (r: &str)
        ensures
            r@ == self.filename@,
    {
        self.filename.as_str()
    }
}

impl LineDebugInfo for BlockStatement {
    open spec fn debug_line(&self) -> usize {
        self.line
    }

    open spec fn debug_column(&self) -> usize {
        self.column
    }

    open spec fn debug_file(&self) -> Seq<char> {
        self.filename@
    }

    fn line(&self) -> (r: usize)
        ensures
            r == self.line,
    {
        self.line
    }

    fn column(&self) -> (r: usize)
        ensures
            r == self.column,
    {
        self.column
    }

    fn file_name(&self) -> (r: &str)
        ensures
            r@ == self.filename@,
    {
        self.filename.as_str()
    }
}

impl LineDebugInfo for FunctionStatement {
    open spec fn debug_line(&self) -> usize {
        self.line
    }

    open spec fn debug_column(&self) -> usize {
        self.column
    }

    open spec fn debug_file(&self) -> Seq<char> {
        self.filename@
    }

    fn line(&self) -> (r: usize)
        ensures
            r == self.line,
    {
        self.line
    }

    fn column(&self) -> (r: usize)
        ensures
            r == self.column,
    {
        self.column
    }

    fn file_name(&self) -> (r: &str)
        ensures
            r@ == self.filename@,
    {
        self.filename.as_str()
    }
}

impl LineDebugInfo for StructStatement {
    open spec fn debug_line(&self) -> usize {
        self.line
    }

    open spec fn debug_column(&self) -> usize {
        self.column
    }

    open spec fn debug_file(&self) -> Seq<char> {
        self.filename@
    }

    fn line(&self) -> (r: usize)
        ensures
            r == self.line,
    {
        self.line
    }

    fn column(&self) -> (r: usize)
        ensures
            r == self.column,
    {
        self.column
    }

    fn file_name(&self) -> (r: &str)
        ensures
            r@ == self.filename@,
    {
        self.filename.as_str()
    }
}

impl LineDebugInfo for ReturnStatement {
    open spec fn debug_line(&self) -> usize {
        self.line
    }

    open spec fn debug_column(&self) -> usize {
        self.column
    }

    open spec fn debug_file(&self) -> Seq<char> {
        self.filename@
    }

    fn line(&self) -> (r: usize)
        ensures
            r == self.line,
    {
        self.line
    }

    fn column(&self) -> (r: usize)
        ensures
            r == self.column,
    {
        self.column
    }

    fn file_name(&self) -> (r: &str)
        ensures
            r@ == self.filename@,
    {
        self.filename.as_str()
    }
}

impl LineDebugInfo for IfStatement {
    open spec fn debug_line(&self) -> usize {
        self.line
    }

    open spec fn debug_column(&self) -> usize {
        self.column
    }

    open spec fn debug_file(&self) -> Seq<char> {
        self.filename@
    }

    fn line(&self) -> (r: usize)
        ensures
            r == self.line,
    {
        self.line
    }

    fn column(&self) -> (r: usize)
        ensures
            r == self.column,
    {
        self.column
    }

    fn file_name(&self) -> (r: &str)
        ensures
            r@ == self.filename@,
    {
        self.filename.as_str()
    }
}

impl LineDebugInfo for WhileStatement {
    open spec fn debug_line(&self) -> usize {
        self.line
    }

    open spec fn debug_column(&self) -> usize {
        self.column
    }

    open spec fn debug_file(&self) -> Seq<char> {
        self.filename@
    }

    fn line(&self) -> (r: usize)
        ensures
            r == self.line,
    {
        self.line
    }

    fn column(&self) -> (r: usize)
        ensures
            r == self.column,
    {
        self.column
    }

    fn file_name(&self) -> (r: &str)
        ensures
            r@ == self.filename@,
    {
        self.filename.as_str()
    }
}

impl LineDebugInfo for ForStatement {
    open spec fn debug_line(&self) -> usize {
        self.line
    }

    open spec fn debug_column(&self) -> usize {
        self.column
    }

    open spec fn debug_file(&self) -> Seq<char> {
        self.filename@
    }

    fn line(&self) -> (r: usize)
        ensures
            r == self.line,
    {
        self.line
    }

    fn column(&self) -> (r: usize)
        ensures
            r == self.column,
    {
        self.column
    }

    fn file_name(&self) -> (r: &str)
        ensures
            r@ == self.filename@,
    {
        self.filename.as_str()
    }
}

impl LineDebugInfo for BreakStatement {
    open spec fn debug_line(&self) -> usize {
        self.line
    }

    open spec fn debug_column(&self) -> usize {
        self.column
    }

    open spec fn debug_file(&self) -> Seq<char> {
        self.filename@
    }

    fn line(&self) -> (r: usize)
        ensures
            r == self.line,
    {
        self.line
    }

    fn column(&self) -> (r: usize)
        ensures
            r == self.column,
    {
        self.column
    }

    fn file_name(&self) -> (r: &str)
        ensures
            r@ == self.filename@,
    {
        self.filename.as_str()
    }
}

impl LineDebugInfo for ImportStatement {
    open spec fn debug_line(&self) -> usize {
        self.line
    }

    open spec fn debug_column(&self) -> usize {
        self.column
    }

    open spec fn debug_file(&self) -> Seq<char> {
        self.filename@
    }

    fn line(&self) -> (r: usize)
        ensures
            r == self.line,
    {
        self.line
    }

    fn column(&self) -> (r: usize)
        ensures
            r == self.column,
    {
        self.column
    }

    fn file_name(&self) -> (r: &str)
        ensures
            r@ == self.filename@,
    {
        self.filename.as_str()
    }
}

// ---------------------------------------------------------------------------
// Models of the tree: character sequences for strings, sequences for vectors
// ---------------------------------------------------------------------------

/// Where a node was read.
pub struct Loc {
    pub line: usize,
    pub column: usize,
    pub file: Seq<char>,
}

pub enum SLiteral {
    Number(i64),
    Real(Seq<char>),
    Bool(bool),
    Char(char),
    Str(Seq<char>),
    Struct { literal_type: Option<ValueType>, name: Seq<char>, exprs: Seq<SExpr> },
    Ident { name: Seq<char>, is_lvalue: bool, ty: Option<ValueType> },
}

pub enum ArithOp {
    Plus,
    Minus,
    Multiply,
    Divide,
    Modulo,
}

pub enum LogicOp {
    And,
    Or,
    Equal,
    NotEqual,
    More,
    Less,
    MoreEqual,
    LessEqual,
}

pub enum UnaryOp {
    Not,
    Negate,
}

/// The model of an expression.
pub enum SExpr {
    Literal(SLiteral, Loc),
    Arith(ArithOp, Box<SExpr>, Box<SExpr>),
    Group(Box<SExpr>, Loc),
    Logic(LogicOp, Box<SExpr>, Box<SExpr>),
    Unary(UnaryOp, Box<SExpr>),
    Call { name: Seq<char>, ty: Option<ValueType>, args: Option<Seq<SExpr>>, loc: Loc },
    ArrayAccess { ty: Option<ValueType>, array: Box<SExpr>, is_lvalue: bool, index: Box<SExpr>, loc: Loc },
    AddressOf { target: Box<SExpr>, ty: Option<ValueType>, loc: Loc },
    DeReference { target: Box<SExpr>, is_lvalue: bool, ty: Option<ValueType>, loc: Loc },
    MemberAccess { object: Box<SExpr>, member: Seq<char>, ty: Option<ValueType>, loc: Loc },
    Null(Loc),
}

/// The model of a variable declaration.
pub struct SDecl {
    pub name: Seq<char>,
    pub ty: ValueType,
    pub init: SExpr,
    pub loc: Loc,
}

/// The model of a block.
pub struct SBlock {
    pub stmts: Seq<SStmt>,
    pub loc: Loc,
}

/// The model of a statement.
pub enum SStmt {
    Expression(SExpr),
    Declaration(SDecl),
    Assignment { target: SExpr, value: SExpr, loc: Loc },
    Function {
        callee: Seq<char>,
        args: Option<Seq<(Seq<char>, ValueType)>>,
        block: Option<SBlock>,
        return_type: ValueType,
        exported: bool,
        loc: Loc,
    },
    Struct { name: String, fields: Seq<(Seq<char>, ValueType)>, exported: bool, loc: Loc },
    Block(SBlock),
    Return(SExpr, Loc),
    If { cond: SExpr, then_branch: SBlock, else_branch: Option<SBlock>, loc: Loc },
    While { cond: SExpr, body: SBlock, loc: Loc },
    For { init: SDecl, cond: SExpr, next: Box<SStmt>, body: SBlock, loc: Loc },
    Break(Loc),
    Import { file_path: Seq<char>, module: Seq<char>, loc: Loc },
}

pub open spec fn loc(line: usize, column: usize, filename: String) -> Loc {
    Loc { line, column, file: filename@ }
}

pub open spec fn literal_loc(l: Literal) -> Loc {
    match l {
        Literal::Number(n) => loc(n.line, n.column, n.filename),
        Literal::Real(r) => loc(r.line, r.column, r.filename),
        Literal::Bool(b) => loc(b.line, b.column, b.filename),
        Literal::Char(c) => loc(c.line, c.column, c.filename),
        Literal::StringLiteral(s) => loc(s.line, s.column, s.filename),
        Literal::StructLiteral(s) => loc(s.line, s.column, s.filename),
        Literal::Identifier(i) => loc(i.line, i.column, i.filename),
    }
}

#[verifier::opaque]
pub open spec fn expr_view(e: Expression) -> SExpr
    decreases e,
{
    match e {
        Expression::Literal(l) => SExpr::Literal(
            match l {
                Literal::Number(n) => SLiteral::Number(n.value),
                Literal::Real(r) => SLiteral::Real(r.value@),
                Literal::Bool(b) => SLiteral::Bool(b.value),
                Literal::Char(c) => SLiteral::Char(c.value),
                Literal::StringLiteral(s) => SLiteral::Str(s.value@),
                Literal::StructLiteral(s) => SLiteral::Struct {
                    literal_type: s.literal_type,
                    name: s.struct_name@,
                    exprs: exprs_view(s.expressions@),
                },
                Literal::Identifier(i) => SLiteral::Ident { name: i.name@, is_lvalue: i.is_lvalue, ty: i.ty },
            },
            literal_loc(l),
        ),
        Expression::Binary(b) => match b {
            Binary::Plus(l, r) => SExpr::Arith(ArithOp::Plus, Box::new(expr_view(*l)), Box::new(expr_view(*r))),
            Binary::Minus(l, r) => SExpr::Arith(ArithOp::Minus, Box::new(expr_view(*l)), Box::new(expr_view(*r))),
            Binary::Multiply(l, r) => SExpr::Arith(ArithOp::Multiply, Box::new(expr_view(*l)), Box::new(expr_view(*r))),
            Binary::Divide(l, r) => SExpr::Arith(ArithOp::Divide, Box::new(expr_view(*l)), Box::new(expr_view(*r))),
            Binary::Modulo(l, r) => SExpr::Arith(ArithOp::Modulo, Box::new(expr_view(*l)), Box::new(expr_view(*r))),
        },
        Expression::Group(g) => SExpr::Group(Box::new(expr_view(*g.inner_expression)), loc(g.line, g.column, g.filename)),
        Expression::BinaryLogic(b) => match b {
            BinaryLogic::And(l, r) => SExpr::Logic(LogicOp::And, Box::new(expr_view(*l)), Box::new(expr_view(*r))),
            BinaryLogic::Or(l, r) => SExpr::Logic(LogicOp::Or, Box::new(expr_view(*l)), Box::new(expr_view(*r))),
            BinaryLogic::Equal(l, r) => SExpr::Logic(LogicOp::Equal, Box::new(expr_view(*l)), Box::new(expr_view(*r))),
            BinaryLogic::NotEqual(l, r) => SExpr::Logic(LogicOp::NotEqual, Box::new(expr_view(*l)), Box::new(expr_view(*r))),
            BinaryLogic::More(l, r) => SExpr::Logic(LogicOp::More, Box::new(expr_view(*l)), Box::new(expr_view(*r))),
            BinaryLogic::Less(l, r) => SExpr::Logic(LogicOp::Less, Box::new(expr_view(*l)), Box::new(expr_view(*r))),
            BinaryLogic::MoreEqual(l, r) => SExpr::Logic(LogicOp::MoreEqual, Box::new(expr_view(*l)), Box::new(expr_view(*r))),
            BinaryLogic::LessEqual(l, r) => SExpr::Logic(LogicOp::LessEqual, Box::new(expr_view(*l)), Box::new(expr_view(*r))),
        },
        Expression::Unary(u) => match u {
            Unary::Not(x) => SExpr::Unary(UnaryOp::Not, Box::new(expr_view(*x))),
            Unary::Negate(x) => SExpr::Unary(UnaryOp::Negate, Box::new(expr_view(*x))),
        },
        Expression::Call(c) => SExpr::Call {
            name: c.name@,
            ty: c.ty,
            args: match c.args {
                Some(v) => Some(exprs_view(v@)),
                None => None,
            },
            loc: loc(c.line, c.column, c.filename),
        },
        Expression::ArrayAccess(a) => SExpr::ArrayAccess {
            ty: a.ty,
            array: Box::new(expr_view(*a.identifier)),
            is_lvalue: a.is_lvalue,
            index: Box::new(expr_view(*a.index)),
            loc: loc(a.line, a.column, a.filename),
        },
        Expression::AddressOf(a) => SExpr::AddressOf {
            target: Box::new(expr_view(*a.identifier)),
            ty: a.ty,
            loc: loc(a.line, a.column, a.filename),
        },
        Expression::DeReference(d) => SExpr::DeReference {
            target: Box::new(expr_view(*d.identifier)),
            is_lvalue: d.is_lvalue,
            ty: d.ty,
            loc: loc(d.line, d.column, d.filename),
        },
        Expression::MemberAccess(m) => SExpr::MemberAccess {
            object: Box::new(expr_view(*m.object)),
            member: m.member@,
            ty: m.ty,
            loc: loc(m.line, m.column, m.filename),
        },
        Expression::Null(n) => SExpr::Null(loc(n.line, n.column, n.filename)),
    }
}

#[verifier::opaque]
pub open spec fn exprs_view(s: Seq<Expression>) -> Seq<SExpr>
    decreases s,
{
    if s.len() == 0 {
        Seq::empty()
    } else {
        exprs_view(s.subrange(0, s.len() - 1)).push(expr_view(s[s.len() - 1]))
    }
}

pub open spec fn args_view(s: Seq<Argument>) -> Seq<(Seq<char>, ValueType)> {
    s.map_values(|a: Argument| (a.0@, a.1))
}

pub open spec fn decl_view(d: VariableDeclaration) -> SDecl {
    SDecl { name: d.identifier@, ty: d.variable_type, init: expr_view(d.init_expr), loc: loc(d.line, d.column, d.filename) }
}

pub open spec fn block_view(b: BlockStatement) -> SBlock
    decreases b,
{
    SBlock { stmts: stmts_view(b.statements@), loc: loc(b.line, b.column, b.filename) }
}

pub open spec fn stmt_view(s: Statement) -> SStmt
    decreases s,
{
    match s {
        Statement::Expression(e) => SStmt::Expression(expr_view(e)),
        Statement::VariableDeclaration(d) => SStmt::Declaration(decl_view(d)),
        Statement::VariableAssignment(a) => SStmt::Assignment {
            target: expr_view(a.identifier),
            value: expr_view(a.new_value),
            loc: loc(a.line, a.column, a.filename),
        },
        Statement::Function(f) => SStmt::Function {
            callee: f.callee@,
            args: match f.args {
                Some(v) => Some(args_view(v@)),
                None => None,
            },
            block: match f.block {
                Some(b) => Some(block_view(b)),
                None => None,
            },
            return_type: f.return_type,
            exported: f.is_exported,
            loc: loc(f.line, f.column, f.filename),
        },
        Statement::Struct(st) => SStmt::Struct {
            name: st.struct_name,
            fields: args_view(st.fields@),
            exported: st.exported,
            loc: loc(st.line, st.column, st.filename),
        },
        Statement::Block(b) => SStmt::Block(block_view(b)),
        Statement::Return(r) => SStmt::Return(expr_view(r.expr), loc(r.line, r.column, r.filename)),
        Statement::IfStatement(i) => SStmt::If {
            cond: expr_view(i.condition),
            then_branch: block_view(i.then_branch),
            else_branch: match i.else_branch {
                Some(b) => Some(block_view(b)),
                None => None,
            },
            loc: loc(i.line, i.column, i.filename),
        },
        Statement::WhileStatement(w) => SStmt::While {
            cond: expr_view(w.condition),
            body: block_view(w.loop_block),
            loc: loc(w.line, w.column, w.filename),
        },
        Statement::ForStatement(f) => SStmt::For {
            init: decl_view(f.init_expr),
            cond: expr_view(f.loop_condition),
            next: Box::new(stmt_view(*f.next_expr)),
            body: block_view(f.block_stmt),
            loc: loc(f.line, f.column, f.filename),
        },
        Statement::BreakStatement(b) => SStmt::Break(loc(b.line, b.column, b.filename)),
        Statement::Import(i) => SStmt::Import {
            file_path: i.file_path@,
            module: i.module_file@,
            loc: loc(i.line, i.column, i.filename),
        },
    }
}

pub open spec fn stmts_view(s: Seq<Statement>) -> Seq<SStmt>
    decreases s,
{
    if s.len() == 0 {
        Seq::empty()
    } else {
        stmts_view(s.subrange(0, s.len() - 1)).push(stmt_view(s[s.len() - 1]))
    }
}

impl View for Expression {
    type V = SExpr;

    open spec fn view(&self) -> SExpr {
        expr_view(*self)
    }
}

impl View for Statement {
    type V = SStmt;

    open spec fn view(&self) -> SStmt {
        stmt_view(*self)
    }
}

pub proof fn lemma_exprs_view_push(s: Seq<Expression>, e: Expression)
    ensures
        exprs_view(s.push(e)) == exprs_view(s).push(expr_view(e)),
{
    reveal(expr_view);
    reveal(exprs_view);
    assert(s.push(e).subrange(0, s.len() as int) =~= s);
}

pub proof fn lemma_stmts_view_push(s: Seq<Statement>, e: Statement)
    ensures
        stmts_view(s.push(e)) == stmts_view(s).push(stmt_view(e)),
{
    assert(s.push(e).subrange(0, s.len() as int) =~= s);
}

pub proof fn lemma_stmts_view_len(s: Seq<Statement>)
    ensures
        stmts_view(s).len() == s.len(),
        forall|i: int|
            #![trigger stmts_view(s)[i]]
            #![trigger s[i]]
            0 <= i < s.len() ==> stmts_view(s)[i] == stmt_view(s[i]),
    decreases s.len(),
{
    if s.len() > 0 {
        let p = s.subrange(0, s.len() - 1);
        lemma_stmts_view_len(p);
        assert forall|i: int| 0 <= i < s.len() implies stmts_view(s)[i] == stmt_view(#[trigger] s[i]) by {
            if i < s.len() - 1 {
                assert(s[i] == p[i]);
            }
        }
    }
}

pub proof fn lemma_stmts_view_update(s: Seq<Statement>, i: int, e: Statement)
    requires
        0 <= i < s.len(),
    ensures
        stmts_view(s.update(i, e)) == stmts_view(s).update(i, stmt_view(e)),
{
    lemma_stmts_view_len(s);
    lemma_stmts_view_len(s.update(i, e));
    assert(stmts_view(s.update(i, e)) =~= stmts_view(s).update(i, stmt_view(e)));
}

pub proof fn lemma_exprs_view_update(s: Seq<Expression>, i: int, e: Expression)
    requires
        0 <= i < s.len(),
    ensures
        exprs_view(s.update(i, e)) == exprs_view(s).update(i, expr_view(e)),
{
    lemma_exprs_view_len(s);
    lemma_exprs_view_len(s.update(i, e));
    assert(exprs_view(s.update(i, e)) =~= exprs_view(s).update(i, expr_view(e)));
}

pub proof fn lemma_exprs_view_len(s: Seq<Expression>)
    ensures
        exprs_view(s).len() == s.len(),
        forall|i: int|
            #![trigger exprs_view(s)[i]]
            #![trigger s[i]]
            0 <= i < s.len() ==> exprs_view(s)[i] == expr_view(s[i]),
    decreases s.len(),
{
    reveal(expr_view);
    reveal(exprs_view);
    if s.len() > 0 {
        let p = s.subrange(0, s.len() - 1);
        lemma_exprs_view_len(p);
        assert forall|i: int| 0 <= i < s.len() implies exprs_view(s)[i] == expr_view(#[trigger] s[i]) by {
            if i < s.len() - 1 {
                assert(s[i] == p[i]);
            }
        }
    }
}

/// A copy of a list of names with their types.
pub fn clone_fields(fields: &Vec<StructField>) -> (r: Vec<StructField>)
    ensures
        r@ == fields@,
{
    let mut r: Vec<StructField> = Vec::new();
    let mut i: usize = 0;
    while i < fields.len()
        invariant
            i <= fields@.len(),
            r@ == fields@.subrange(0, i as int),
        decreases fields@.len() - i,
    {
        r.push((fields[i].0.clone(), fields[i].1.clone()));
        proof {
            assert(fields@.subrange(0, i + 1) =~= fields@.subrange(0, i as int).push(fields@[i as int]));
        }
        i = i + 1;
    }
    assert(fields@.subrange(0, fields@.len() as int) =~= fields@);
    r
}

impl Clone for StructStatement {
    fn clone(&self) -> (r: Self)
        ensures
            r.struct_name == self.struct_name,
            r.fields@ == self.fields@,
            r.exported == self.exported,
            r.line == self.line,
            r.column == self.column,
            r.filename == self.filename,
    {
        StructStatement {
            struct_name: self.struct_name.clone(),
            fields: clone_fields(&self.fields),
            exported: self.exported,
            line: self.line,
            column: self.column,
            filename: self.filename.clone(),
        }
    }
}

} // verus!
